//! Laws of what the commands' output comes to.

use vstd::prelude::*;

use crate::github::{
    browser_command_of, create_command, create_outcome_of, search_command, search_outcome_of,
    Platform, SEARCH_DOCUMENT,
};
use crate::graphql::{hits, messages, GraphqlError, GraphqlItem, GraphqlResponse, SearchNode};
use crate::item::{ItemKind, ItemView};
use crate::text::{decimal, joined, lines_of, trimmed};
use crate::text_laws::law_last_line_found;

verus! {

/// A search comes to items exactly when its command succeeded and wrote a reply
/// that could be read and reports no error; the items are then its hits.
pub proof fn law_items_from_a_clean_reply(
    success: bool,
    stderr: Seq<char>,
    response: Option<GraphqlResponse>,
)
    ensures
        search_outcome_of(success, stderr, response) is Ok <==> {
            &&& success
            &&& response is Some
            &&& response.unwrap().errors is None
        },
        search_outcome_of(success, stderr, response) matches Ok(items)
            ==> response matches Some(reply) && items == hits(reply.data.search.nodes@),
{
}

/// How many hits are known to be pull requests or issues.
pub open spec fn known(nodes: Seq<SearchNode>) -> nat
    decreases nodes.len(),
{
    if nodes.len() == 0 {
        0
    } else {
        known(nodes.drop_last()) + if nodes.last() is Unknown {
            0nat
        } else {
            1nat
        }
    }
}

/// As many items are listed as hits are known.
proof fn lemma_hit_count(nodes: Seq<SearchNode>)
    ensures
        hits(nodes).len() == known(nodes),
    decreases nodes.len(),
{
    if nodes.len() > 0 {
        lemma_hit_count(nodes.drop_last());
    }
}

/// Each known hit is listed once, and nothing else is: the hit at `i` comes
/// behind the known ones before it, as the kind that it is.
pub proof fn law_known_hits_are_listed(nodes: Seq<SearchNode>, i: int)
    requires
        0 <= i < nodes.len(),
    ensures
        hits(nodes).len() == known(nodes),
        match nodes[i] {
            SearchNode::PullRequest(node) => known(nodes.take(i)) < known(nodes) && hits(
                nodes,
            )[known(nodes.take(i)) as int] == node.as_item(ItemKind::PullRequest),
            SearchNode::Issue(node) => known(nodes.take(i)) < known(nodes) && hits(
                nodes,
            )[known(nodes.take(i)) as int] == node.as_item(ItemKind::Issue),
            SearchNode::Unknown => true,
        },
    decreases nodes.len(),
{
    let before = nodes.drop_last();
    lemma_hit_count(before);
    lemma_hit_count(nodes);
    if i < before.len() {
        law_known_hits_are_listed(before, i);
        assert(before.take(i) =~= nodes.take(i));
    } else {
        assert(nodes.take(i) =~= before);
    }
}

/// Creating a pull request fails exactly when its command failed.
pub proof fn law_creation_fails_with_its_command(
    success: bool,
    stdout: Seq<char>,
    stderr: Seq<char>,
)
    ensures
        create_outcome_of(success, stdout, stderr) is Err == !success,
{
}

/// Wherever a line of the output starts as an address, the pull request is at
/// the last such line.
pub proof fn law_created_address(stdout: Seq<char>, stderr: Seq<char>, k: int)
    requires
        0 <= k < lines_of(stdout).len(),
        "https://"@.is_prefix_of(lines_of(stdout)[k]),
    ensures
        create_outcome_of(true, stdout, stderr) matches Ok(url) && exists|i: int|
            k <= i < lines_of(stdout).len() && #[trigger] lines_of(stdout)[i] == url
                && "https://"@.is_prefix_of(url) && forall|j: int|
                i < j < lines_of(stdout).len() ==> !"https://"@.is_prefix_of(
                    #[trigger] lines_of(stdout)[j],
                ),
{
    law_last_line_found(lines_of(stdout), "https://"@);
}

/// The command creates a draft exactly where one is asked for, and is otherwise
/// the same.
pub proof fn law_draft_flag(title: Seq<char>, body: Seq<char>)
    ensures
        create_command(title, body, true) == create_command(title, body, false).push("--draft"@),
{
}

/// A pull request is created with the title and the body as they are, character
/// for character, and with no argument but these and the draft flag.
pub proof fn law_creation_carries_the_form(title: Seq<char>, body: Seq<char>, draft: bool)
    ensures
        create_command(title, body, draft).len() == if draft {
            7nat
        } else {
            6nat
        },
        create_command(title, body, draft)[0] == "pr"@,
        create_command(title, body, draft)[1] == "create"@,
        create_command(title, body, draft)[2] == "--title"@,
        create_command(title, body, draft)[3] == title,
        create_command(title, body, draft)[4] == "--body"@,
        create_command(title, body, draft)[5] == body,
        draft ==> create_command(title, body, draft)[6] == "--draft"@,
{
}

/// Two forms make the same command only if they are the same.
pub proof fn law_commands_tell_forms_apart(
    title1: Seq<char>,
    body1: Seq<char>,
    draft1: bool,
    title2: Seq<char>,
    body2: Seq<char>,
    draft2: bool,
)
    requires
        create_command(title1, body1, draft1) == create_command(title2, body2, draft2),
    ensures
        title1 == title2,
        body1 == body2,
        draft1 == draft2,
{
    law_creation_carries_the_form(title1, body1, draft1);
    law_creation_carries_the_form(title2, body2, draft2);
}

/// A search is handed on as it is, with the document that it fills in and the
/// number of items that it asks for.
pub proof fn law_search_is_handed_on(query: Seq<char>)
    ensures
        search_command(query).len() == 8,
        search_command(query)[0] == "api"@,
        search_command(query)[1] == "graphql"@,
        search_command(query)[2] == "-f"@,
        search_command(query)[3] == "query="@ + SEARCH_DOCUMENT@,
        search_command(query)[4] == "-F"@,
        search_command(query)[5] == "searchQuery="@ + query,
        search_command(query)[6] == "-F"@,
        search_command(query)[7] == "first="@ + decimal(20),
{
}

/// The document asks for the first hits of a search, and for the same fields of
/// a pull request and of an issue, but for the draft mark that only the first
/// has.
pub proof fn law_search_document()
    ensures
        SEARCH_DOCUMENT@ == r#"
query($searchQuery: String!, $first: Int!) {
  search(query: $searchQuery, type: ISSUE, first: $first) {
    nodes {
      __typename
      ... on PullRequest {
        number
        title
        url
        state
        isDraft
        bodyText
        createdAt
        updatedAt
        closedAt
        repository { nameWithOwner }
        author { login }
        assignees(first: 10) { nodes { login } }
      }
      ... on Issue {
        number
        title
        url
        state
        bodyText
        createdAt
        updatedAt
        closedAt
        repository { nameWithOwner }
        author { login }
        assignees(first: 10) { nodes { login } }
      }
    }
  }
}
"#@,
{
}

/// A failed search tells why: what the command wrote, trimmed, or that the reply
/// could not be read, or the messages of the reply.
pub proof fn law_search_failures(
    stderr: Seq<char>,
    response: Option<GraphqlResponse>,
    reply: GraphqlResponse,
    errors: Vec<GraphqlError>,
)
    ensures
        search_outcome_of(false, stderr, response) == Err::<Seq<ItemView>, Seq<char>>(
            "GitHub 検索に失敗しました: "@ + trimmed(stderr),
        ),
        search_outcome_of(true, stderr, None) == Err::<Seq<ItemView>, Seq<char>>(
            "GitHub の応答を解析できませんでした"@,
        ),
        reply.errors == Some(errors) ==> search_outcome_of(true, stderr, Some(reply)) == Err::<
            Seq<ItemView>,
            Seq<char>,
        >("GitHub API エラー: "@ + joined(messages(errors@), " / "@)),
        messages(errors@).len() == errors@.len(),
        forall|i: int|
            0 <= i < errors@.len() ==> #[trigger] messages(errors@)[i] == errors@[i].message@,
{
}

/// What creating a pull request comes to where no line starts as an address, and
/// where it failed.
pub proof fn law_creation_without_an_address(stdout: Seq<char>, stderr: Seq<char>)
    ensures
        create_outcome_of(false, stdout, stderr) == Err::<Seq<char>, Seq<char>>(
            "Pull Request を作成できませんでした: "@ + trimmed(stderr),
        ),
        (forall|i: int|
            0 <= i < lines_of(stdout).len() ==> !"https://"@.is_prefix_of(
                #[trigger] lines_of(stdout)[i],
            )) ==> create_outcome_of(true, stdout, stderr) == Ok::<Seq<char>, Seq<char>>(
            trimmed(stdout),
        ),
{
    law_last_line_found(lines_of(stdout), "https://"@);
}

/// Each field of an entry becomes the item's field of that meaning.
pub proof fn law_fields_of_an_item(entry: GraphqlItem, kind: ItemKind)
    ensures
        entry.as_item(kind).kind == kind,
        entry.as_item(kind).number == entry.number,
        entry.as_item(kind).title == entry.title@,
        entry.as_item(kind).url == entry.url@,
        entry.as_item(kind).state == entry.state@,
        entry.as_item(kind).repo == entry.repository.name_with_owner@,
        entry.as_item(kind).body == entry.body_text@,
        entry.author matches Some(actor) ==> entry.as_item(kind).author == actor.login@,
        entry.author is None ==> entry.as_item(kind).author == "-"@,
        entry.as_item(kind).assignees.len() == entry.assignees.nodes@.len(),
        forall|i: int|
            0 <= i < entry.assignees.nodes@.len() ==> #[trigger] entry.as_item(kind).assignees[i]
                == entry.assignees.nodes@[i].login@,
        entry.as_item(kind).created_at == entry.created_at@,
        entry.as_item(kind).updated_at == entry.updated_at@,
        entry.closed_at matches Some(at) ==> entry.as_item(kind).closed_at == Some(at@),
        entry.closed_at is None ==> entry.as_item(kind).closed_at is None,
        entry.as_item(kind).is_draft == entry.is_draft,
{
}

/// The address goes last to the program that opens it, on every system.
pub proof fn law_browser_gets_the_address(url: Seq<char>)
    ensures
        browser_command_of(Platform::MacOs, url).len() == 2,
        browser_command_of(Platform::MacOs, url)[0] == "open"@,
        browser_command_of(Platform::MacOs, url)[1] == url,
        browser_command_of(Platform::Linux, url).len() == 2,
        browser_command_of(Platform::Linux, url)[0] == "xdg-open"@,
        browser_command_of(Platform::Linux, url)[1] == url,
        browser_command_of(Platform::Windows, url).len() == 5,
        browser_command_of(Platform::Windows, url)[0] == "cmd"@,
        browser_command_of(Platform::Windows, url)[1] == "/C"@,
        browser_command_of(Platform::Windows, url)[2] == "start"@,
        browser_command_of(Platform::Windows, url)[3] == ""@,
        browser_command_of(Platform::Windows, url)[4] == url,
{
}

} // verus!
