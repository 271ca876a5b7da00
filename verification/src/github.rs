//! The commands that reach GitHub, and what their output means.

use vstd::prelude::*;

use crate::graphql::{
    collect_items, hits, message_list, messages, GraphqlResponse,
};
use crate::item::{item_views, GithubItem, ItemView};
use crate::text::{
    decimal, find_last_line, join, joined, last_with_prefix, lines_of, lossy_text, push_decimal,
    texts, trimmed, utf8_lossy,
};

verus! {

/// How many items one search asks for.
pub const PAGE_SIZE: u64 = 20;

/// The GraphQL document of a search.
pub const SEARCH_DOCUMENT: &'static str = r#"
query($searchQuery: String!, $first: Int!) {
  search(query: $searchQuery, type: ISSUE, first: $first) {
    nodes {
      __typename
      ... on PullRequest {
        number
        title
        url
        state
        isDraft
        bodyText
        createdAt
        updatedAt
        closedAt
        repository { nameWithOwner }
        author { login }
        assignees(first: 10) { nodes { login } }
      }
      ... on Issue {
        number
        title
        url
        state
        bodyText
        createdAt
        updatedAt
        closedAt
        repository { nameWithOwner }
        author { login }
        assignees(first: 10) { nodes { login } }
      }
    }
  }
}
"#;

/// A system on which a browser is opened.
#[derive(Debug, Clone, Copy, PartialEq, Eq)]
pub enum Platform {
    MacOs,
    Linux,
    Windows,
}

/// What a command left behind.
#[derive(Debug)]
pub struct CommandOutput {
    pub success: bool,
    pub stdout: Vec<u8>,
    pub stderr: Vec<u8>,
}

/// The arguments of `gh` for a search.
pub open spec fn search_command(query: Seq<char>) -> Seq<Seq<char>> {
    seq![
        "api"@,
        "graphql"@,
        "-f"@,
        "query="@ + SEARCH_DOCUMENT@,
        "-F"@,
        "searchQuery="@ + query,
        "-F"@,
        "first="@ + decimal(PAGE_SIZE as nat),
    ]
}

/// The arguments of `gh` for a search.
pub fn search_args(query: &str) -> (r: Vec<String>)
    ensures
        texts(r@) == search_command(query@),
        r@.len() == 8,
        r@[0]@ == "api"@ && r@[1]@ == "graphql"@,
        r@[2]@ == "-f"@ && r@[3]@ == "query="@ + SEARCH_DOCUMENT@,
        r@[4]@ == "-F"@ && r@[5]@ == "searchQuery="@ + query@,
        r@[6]@ == "-F"@ && r@[7]@ == "first="@ + decimal(20),
{
    let mut first = "first=".to_string();
    push_decimal(&mut first, PAGE_SIZE);
    let r = vec![
        "api".to_string(),
        "graphql".to_string(),
        "-f".to_string(),
        "query=".to_string().concat(SEARCH_DOCUMENT),
        "-F".to_string(),
        "searchQuery=".to_string().concat(query),
        "-F".to_string(),
        first,
    ];
    assert(texts(r@) =~= search_command(query@));
    r
}

/// What a search comes to: its items, or why there are none. `response` is the
/// reply that the command wrote, if it could be read.
pub open spec fn search_outcome_of(
    success: bool,
    stderr: Seq<char>,
    response: Option<GraphqlResponse>,
) -> Result<Seq<ItemView>, Seq<char>> {
    if !success {
        Err("GitHub 検索に失敗しました: "@ + trimmed(stderr))
    } else {
        match response {
            None => Err("GitHub の応答を解析できませんでした"@),
            Some(reply) => match reply.errors {
                Some(errors) => Err(
                    "GitHub API エラー: "@ + joined(messages(errors@), " / "@),
                ),
                None => Ok(hits(reply.data.search.nodes@)),
            },
        }
    }
}

/// The content of a fetched list or of the message in its place.
pub open spec fn fetched_view(result: Result<Vec<GithubItem>, String>) -> Result<
    Seq<ItemView>,
    Seq<char>,
> {
    match result {
        Ok(items) => Ok(item_views(items@)),
        Err(message) => Err(message@),
    }
}

/// What a search comes to, given what the command wrote as text.
pub fn search_outcome(success: bool, stderr: &str, response: Option<GraphqlResponse>) -> (r: Result<
    Vec<GithubItem>,
    String,
>)
    ensures
        fetched_view(r) == search_outcome_of(success, stderr@, response),
{
    if !success {
        return Err("GitHub 検索に失敗しました: ".to_string().concat(stderr.trim()));
    }
    match response {
        None => Err("GitHub の応答を解析できませんでした".to_string()),
        Some(reply) => match reply.errors {
            Some(errors) => {
                let list = message_list(&errors);
                let all = join(&list, " / ");
                Err("GitHub API エラー: ".to_string().concat(all.as_str()))
            },
            None => Ok(collect_items(reply.data.search.nodes)),
        },
    }
}

/// What a search comes to, given the bytes that the command wrote.
pub fn fetch_items(output: &CommandOutput, response: Option<GraphqlResponse>) -> (r: Result<
    Vec<GithubItem>,
    String,
>)
    ensures
        fetched_view(r) == search_outcome_of(
            output.success,
            utf8_lossy(output.stderr@),
            response,
        ),
{
    let stderr = lossy_text(output.stderr.as_slice());
    search_outcome(output.success, stderr.as_str(), response)
}

/// The arguments of `gh` that create a pull request.
pub open spec fn create_command(title: Seq<char>, body: Seq<char>, draft: bool) -> Seq<Seq<char>> {
    let base = seq!["pr"@, "create"@, "--title"@, title, "--body"@, body];
    if draft {
        base.push("--draft"@)
    } else {
        base
    }
}

/// The arguments of `gh` that create a pull request.
pub fn create_args(title: &str, body: &str, draft: bool) -> (r: Vec<String>)
    ensures
        texts(r@) == create_command(title@, body@, draft),
        r@.len() == if draft {
            7nat
        } else {
            6nat
        },
        r@[0]@ == "pr"@ && r@[1]@ == "create"@,
        r@[2]@ == "--title"@ && r@[3]@ == title@,
        r@[4]@ == "--body"@ && r@[5]@ == body@,
        draft ==> r@[6]@ == "--draft"@,
{
    let mut r = vec![
        "pr".to_string(),
        "create".to_string(),
        "--title".to_string(),
        title.to_string(),
        "--body".to_string(),
        body.to_string(),
    ];
    if draft {
        r.push("--draft".to_string());
    }
    assert(texts(r@) =~= create_command(title@, body@, draft));
    r
}

/// What creating a pull request comes to: its address, which is the last line
/// of the output that is an `https` address, or else the whole output; or why
/// it failed.
pub open spec fn create_outcome_of(
    success: bool,
    stdout: Seq<char>,
    stderr: Seq<char>,
) -> Result<Seq<char>, Seq<char>> {
    if !success {
        Err("Pull Request を作成できませんでした: "@ + trimmed(stderr))
    } else {
        match last_with_prefix(lines_of(stdout), "https://"@) {
            Some(line) => Ok(line),
            None => Ok(trimmed(stdout)),
        }
    }
}

/// The content of a text or of the message in its place.
pub open spec fn outcome_view(result: Result<String, String>) -> Result<Seq<char>, Seq<char>> {
    match result {
        Ok(text) => Ok(text@),
        Err(message) => Err(message@),
    }
}

/// What creating a pull request comes to, given what the command wrote as text.
pub fn create_outcome(success: bool, stdout: &str, stderr: &str) -> (r: Result<String, String>)
    ensures
        outcome_view(r) == create_outcome_of(success, stdout@, stderr@),
{
    if !success {
        return Err("Pull Request を作成できませんでした: ".to_string().concat(stderr.trim()));
    }
    match find_last_line(stdout, "https://") {
        Some(line) => Ok(line),
        None => Ok(stdout.trim().to_string()),
    }
}

/// What creating a pull request comes to, given the bytes that the command wrote.
pub fn create_pull_request(output: &CommandOutput) -> (r: Result<String, String>)
    ensures
        outcome_view(r) == create_outcome_of(
            output.success,
            utf8_lossy(output.stdout@),
            utf8_lossy(output.stderr@),
        ),
{
    let stdout = lossy_text(output.stdout.as_slice());
    let stderr = lossy_text(output.stderr.as_slice());
    create_outcome(output.success, stdout.as_str(), stderr.as_str())
}

/// The command that opens an address in a browser: the program, then its
/// arguments.
pub open spec fn browser_command_of(platform: Platform, url: Seq<char>) -> Seq<Seq<char>> {
    match platform {
        Platform::MacOs => seq!["open"@, url],
        Platform::Linux => seq!["xdg-open"@, url],
        Platform::Windows => seq!["cmd"@, "/C"@, "start"@, ""@, url],
    }
}

/// The command that opens an address in a browser: the program, then its
/// arguments.
pub fn browser_command(platform: Platform, url: &str) -> (r: Vec<String>)
    ensures
        texts(r@) == browser_command_of(platform, url@),
        r@.len() > 0,
        r@.last()@ == url@,
{
    let r = match platform {
        Platform::MacOs => vec!["open".to_string(), url.to_string()],
        Platform::Linux => vec!["xdg-open".to_string(), url.to_string()],
        Platform::Windows => vec![
            "cmd".to_string(),
            "/C".to_string(),
            "start".to_string(),
            "".to_string(),
            url.to_string(),
        ],
    };
    assert(texts(r@) =~= browser_command_of(platform, url@));
    r
}

/// What opening a browser comes to, given whether the command succeeded.
pub fn open_in_browser(success: bool) -> (r: Result<(), String>)
    ensures
        r is Ok == success,
        r matches Err(message) ==> message@ == "ブラウザを開けませんでした"@,
{
    if success {
        Ok(())
    } else {
        Err("ブラウザを開けませんでした".to_string())
    }
}

} // verus!
