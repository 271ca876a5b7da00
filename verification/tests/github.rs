use ghdesk::github::{
    browser_command, create_args, create_outcome, create_pull_request, fetch_items,
    open_in_browser, search_args, search_outcome, CommandOutput, Platform, PAGE_SIZE,
    SEARCH_DOCUMENT,
};
use ghdesk::graphql::{
    collect_items, GraphqlActor, GraphqlActors, GraphqlData, GraphqlError, GraphqlItem,
    GraphqlRepository, GraphqlResponse, SearchNode, SearchResult,
};
use ghdesk::item::ItemKind;

fn entry(number: u64) -> GraphqlItem {
    GraphqlItem {
        number,
        title: "Title".to_string(),
        url: "https://github.com/o/r/pull/1".to_string(),
        state: "OPEN".to_string(),
        body_text: "Body".to_string(),
        created_at: "2024-01-01".to_string(),
        updated_at: "2024-01-02".to_string(),
        closed_at: None,
        is_draft: true,
        repository: GraphqlRepository { name_with_owner: "o/r".to_string() },
        author: Some(GraphqlActor { login: "me".to_string() }),
        assignees: GraphqlActors {
            nodes: vec![
                GraphqlActor { login: "a".to_string() },
                GraphqlActor { login: "b".to_string() },
            ],
        },
    }
}

fn response(nodes: Vec<SearchNode>, errors: Option<Vec<GraphqlError>>) -> GraphqlResponse {
    GraphqlResponse { data: GraphqlData { search: SearchResult { nodes } }, errors }
}

#[test]
fn entry_becomes_an_item() {
    let item = entry(5).into_item(ItemKind::PullRequest);
    assert_eq!(item.kind, ItemKind::PullRequest);
    assert_eq!(item.number, 5);
    assert_eq!(item.title, "Title");
    assert_eq!(item.url, "https://github.com/o/r/pull/1");
    assert_eq!(item.state, "OPEN");
    assert_eq!(item.repo, "o/r");
    assert_eq!(item.body, "Body");
    assert_eq!(item.author, "me");
    assert_eq!(item.assignees, vec!["a", "b"]);
    assert_eq!(item.created_at, "2024-01-01");
    assert_eq!(item.updated_at, "2024-01-02");
    assert_eq!(item.closed_at, None);
    assert!(item.is_draft);
}

#[test]
fn missing_author_is_a_dash() {
    let mut gone = entry(1);
    gone.author = None;
    gone.closed_at = Some("2024-02-01".to_string());
    let item = gone.into_item(ItemKind::Issue);
    assert_eq!(item.author, "-");
    assert_eq!(item.closed_at, Some("2024-02-01".to_string()));
    assert_eq!(item.kind, ItemKind::Issue);
}

#[test]
fn unknown_hits_are_left_out() {
    let items = collect_items(vec![
        SearchNode::Issue(entry(1)),
        SearchNode::Unknown,
        SearchNode::PullRequest(entry(2)),
    ]);
    let found: Vec<(ItemKind, u64)> = items.iter().map(|i| (i.kind, i.number)).collect();
    assert_eq!(found, vec![(ItemKind::Issue, 1), (ItemKind::PullRequest, 2)]);
}

#[test]
fn search_command_line() {
    assert_eq!(PAGE_SIZE, 20);
    assert_eq!(
        search_args("is:pr author:@me"),
        vec![
            "api".to_string(),
            "graphql".to_string(),
            "-f".to_string(),
            format!("query={}", SEARCH_DOCUMENT),
            "-F".to_string(),
            "searchQuery=is:pr author:@me".to_string(),
            "-F".to_string(),
            "first=20".to_string(),
        ]
    );
    assert!(SEARCH_DOCUMENT.contains("search(query: $searchQuery, type: ISSUE, first: $first)"));
}

#[test]
fn search_succeeds() {
    let reply = response(vec![SearchNode::PullRequest(entry(3))], None);
    let items = search_outcome(true, "", Some(reply)).unwrap();
    assert_eq!(items.len(), 1);
    assert_eq!(items[0].number, 3);
}

#[test]
fn failed_search_tells_why() {
    assert_eq!(
        search_outcome(false, "  no network\n", None),
        Err("GitHub 検索に失敗しました: no network".to_string())
    );
}

#[test]
fn unreadable_reply_is_an_error() {
    assert_eq!(
        search_outcome(true, "", None),
        Err("GitHub の応答を解析できませんでした".to_string())
    );
}

#[test]
fn errors_in_the_reply_are_joined() {
    let errors = vec![
        GraphqlError { message: "one".to_string() },
        GraphqlError { message: "two".to_string() },
    ];
    let reply = response(vec![SearchNode::Issue(entry(1))], Some(errors));
    assert_eq!(
        search_outcome(true, "", Some(reply)),
        Err("GitHub API エラー: one / two".to_string())
    );
}

#[test]
fn bytes_of_a_failed_search_are_decoded() {
    let output = CommandOutput {
        success: false,
        stdout: vec![],
        stderr: vec![b' ', b'x', 0xff, b'y', b'\n'],
    };
    assert_eq!(
        fetch_items(&output, None),
        Err("GitHub 検索に失敗しました: x\u{fffd}y".to_string())
    );
}

#[test]
fn create_command_line() {
    assert_eq!(
        create_args("T", "B", false),
        vec!["pr", "create", "--title", "T", "--body", "B"]
    );
    assert_eq!(
        create_args("T", "", true),
        vec!["pr", "create", "--title", "T", "--body", "", "--draft"]
    );
}

#[test]
fn created_address_is_the_last_one() {
    assert_eq!(
        create_outcome(true, "https://a\nnote\nhttps://b\ndone\n", ""),
        Ok("https://b".to_string())
    );
}

#[test]
fn without_an_address_the_output_counts() {
    assert_eq!(create_outcome(true, "  created \n", ""), Ok("created".to_string()));
}

#[test]
fn failed_creation_tells_why() {
    assert_eq!(
        create_outcome(false, "https://a", " denied\n"),
        Err("Pull Request を作成できませんでした: denied".to_string())
    );
}

#[test]
fn bytes_of_a_creation_are_decoded() {
    let output = CommandOutput {
        success: true,
        stdout: "作成\nhttps://github.com/o/r/pull/9\r\n".as_bytes().to_vec(),
        stderr: vec![],
    };
    assert_eq!(
        create_pull_request(&output),
        Ok("https://github.com/o/r/pull/9".to_string())
    );
}

#[test]
fn browser_commands() {
    assert_eq!(browser_command(Platform::MacOs, "u"), vec!["open", "u"]);
    assert_eq!(browser_command(Platform::Linux, "u"), vec!["xdg-open", "u"]);
    assert_eq!(
        browser_command(Platform::Windows, "u"),
        vec!["cmd", "/C", "start", "", "u"]
    );
}

#[test]
fn browser_outcomes() {
    assert_eq!(open_in_browser(true), Ok(()));
    assert_eq!(open_in_browser(false), Err("ブラウザを開けませんでした".to_string()));
}
