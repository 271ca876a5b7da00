//! The reply to a search, and the items it stands for.

use vstd::prelude::*;

use crate::item::{item_views, optional_text, GithubItem, ItemKind, ItemView};
use crate::text::texts;

verus! {

/// A repository in a reply.
#[derive(Debug)]
pub struct GraphqlRepository {
    pub name_with_owner: String,
}

/// A user in a reply.
#[derive(Debug)]
pub struct GraphqlActor {
    pub login: String,
}

/// Users in a reply.
#[derive(Debug)]
pub struct GraphqlActors {
    pub nodes: Vec<GraphqlActor>,
}

/// A pull request or an issue in a reply.
#[derive(Debug)]
pub struct GraphqlItem {
    pub number: u64,
    pub title: String,
    pub url: String,
    pub state: String,
    pub body_text: String,
    pub created_at: String,
    pub updated_at: String,
    pub closed_at: Option<String>,
    pub is_draft: bool,
    pub repository: GraphqlRepository,
    pub author: Option<GraphqlActor>,
    pub assignees: GraphqlActors,
}

/// One hit of a search.
#[derive(Debug)]
pub enum SearchNode {
    PullRequest(GraphqlItem),
    Issue(GraphqlItem),
    Unknown,
}

/// The hits of a search.
#[derive(Debug)]
pub struct SearchResult {
    pub nodes: Vec<SearchNode>,
}

/// The data of a reply.
#[derive(Debug)]
pub struct GraphqlData {
    pub search: SearchResult,
}

/// An error in a reply.
#[derive(Debug)]
pub struct GraphqlError {
    pub message: String,
}

/// A whole reply.
#[derive(Debug)]
pub struct GraphqlResponse {
    pub data: GraphqlData,
    pub errors: Option<Vec<GraphqlError>>,
}

/// The logins of some users.
pub open spec fn logins(actors: Seq<GraphqlActor>) -> Seq<Seq<char>> {
    actors.map_values(|actor: GraphqlActor| actor.login@)
}

/// The messages of some errors.
pub open spec fn messages(errors: Seq<GraphqlError>) -> Seq<Seq<char>> {
    errors.map_values(|error: GraphqlError| error.message@)
}

impl GraphqlItem {
    /// The item of a kind that the entry stands for. Where the author is gone,
    /// a dash stands in.
    pub open spec fn as_item(self, kind: ItemKind) -> ItemView {
        ItemView {
            kind,
            number: self.number,
            title: self.title@,
            url: self.url@,
            state: self.state@,
            repo: self.repository.name_with_owner@,
            body: self.body_text@,
            author: match self.author {
                Some(actor) => actor.login@,
                None => "-"@,
            },
            assignees: logins(self.assignees.nodes@),
            created_at: self.created_at@,
            updated_at: self.updated_at@,
            closed_at: optional_text(self.closed_at),
            is_draft: self.is_draft,
        }
    }

    /// The item of a kind that the entry stands for.
    pub fn into_item(self, kind: ItemKind) -> (r: GithubItem)
        ensures
            r@ == self.as_item(kind),
    {
        let assignees = login_list(&self.assignees.nodes);
        GithubItem {
            kind,
            number: self.number,
            title: self.title,
            url: self.url,
            state: self.state,
            repo: self.repository.name_with_owner,
            body: self.body_text,
            author: match self.author {
                Some(actor) => actor.login,
                None => "-".to_string(),
            },
            assignees,
            created_at: self.created_at,
            updated_at: self.updated_at,
            closed_at: self.closed_at,
            is_draft: self.is_draft,
        }
    }
}

fn login_list(actors: &Vec<GraphqlActor>) -> (r: Vec<String>)
    ensures
        texts(r@) == logins(actors@),
{
    let mut r: Vec<String> = Vec::new();
    let mut i: usize = 0;
    while i < actors.len()
        invariant
            i <= actors.len(),
            r.len() == i,
            forall|k: int| 0 <= k < i ==> #[trigger] r@[k]@ == actors@[k].login@,
        decreases actors.len() - i,
    {
        r.push(actors[i].login.clone());
        i += 1;
    }
    assert(texts(r@) =~= logins(actors@));
    r
}

pub(crate) fn message_list(errors: &Vec<GraphqlError>) -> (r: Vec<String>)
    ensures
        texts(r@) == messages(errors@),
{
    let mut r: Vec<String> = Vec::new();
    let mut i: usize = 0;
    while i < errors.len()
        invariant
            i <= errors.len(),
            r.len() == i,
            forall|k: int| 0 <= k < i ==> #[trigger] r@[k]@ == errors@[k].message@,
        decreases errors.len() - i,
    {
        r.push(errors[i].message.clone());
        i += 1;
    }
    assert(texts(r@) =~= messages(errors@));
    r
}

/// The items of some hits, in their order; unknown ones are left out.
pub open spec fn hits(nodes: Seq<SearchNode>) -> Seq<ItemView>
    decreases nodes.len(),
{
    if nodes.len() == 0 {
        Seq::empty()
    } else {
        let before = hits(nodes.drop_last());
        match nodes.last() {
            SearchNode::PullRequest(node) => before.push(node.as_item(ItemKind::PullRequest)),
            SearchNode::Issue(node) => before.push(node.as_item(ItemKind::Issue)),
            SearchNode::Unknown => before,
        }
    }
}

/// Collects the items of some hits.
pub fn collect_items(nodes: Vec<SearchNode>) -> (r: Vec<GithubItem>)
    ensures
        item_views(r@) == hits(nodes@),
{
    let mut items: Vec<GithubItem> = Vec::new();
    let ghost all = nodes@;
    for node in it: nodes
        invariant
            it.seq() == all,
            item_views(items@) =~= hits(all.take(it.index() as int)),
    {
        let ghost i = it.index() as int;
        assert(all.take(i + 1).drop_last() =~= all.take(i));
        let ghost before = items@;
        match node {
            SearchNode::PullRequest(node) => {
                items.push(node.into_item(ItemKind::PullRequest));
                assert(item_views(items@) =~= item_views(before).push(items@.last()@));
            },
            SearchNode::Issue(node) => {
                items.push(node.into_item(ItemKind::Issue));
                assert(item_views(items@) =~= item_views(before).push(items@.last()@));
            },
            SearchNode::Unknown => {},
        }
    }
    assert(all.take(all.len() as int) =~= all);
    items
}

} // verus!
