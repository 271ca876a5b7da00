//! What is searched for: the category, the state, and the query they make.

use vstd::prelude::*;

use crate::text::{join, joined, texts, trimmed};

verus! {

/// The four lists that the workbench shows.
#[derive(Debug, Clone, Copy, PartialEq, Eq, Structural)]
pub enum Category {
    AuthoredPr,
    AuthoredIssue,
    AssignedPr,
    AssignedIssue,
}

/// Which states of an item are searched for.
#[derive(Debug, Clone, Copy, PartialEq, Eq, Structural)]
pub enum StateFilter {
    Open,
    Closed,
    All,
}

impl Category {
    /// The categories in the order of the tabs.
    pub open spec fn order() -> Seq<Category> {
        seq![
            Category::AuthoredPr,
            Category::AuthoredIssue,
            Category::AssignedPr,
            Category::AssignedIssue,
        ]
    }

    /// The place of the category among the tabs.
    pub open spec fn place(self) -> int {
        match self {
            Category::AuthoredPr => 0,
            Category::AuthoredIssue => 1,
            Category::AssignedPr => 2,
            Category::AssignedIssue => 3,
        }
    }

    /// The tab to the right, round the end.
    pub open spec fn following(self) -> Category {
        Category::order()[(self.place() + 1) % 4]
    }

    /// The tab to the left, round the start.
    pub open spec fn preceding(self) -> Category {
        Category::order()[(self.place() + 3) % 4]
    }

    /// The label of the category's tab.
    pub open spec fn label(self) -> Seq<char> {
        match self {
            Category::AuthoredPr => "作成PR"@,
            Category::AuthoredIssue => "作成Issue"@,
            Category::AssignedPr => "担当PR"@,
            Category::AssignedIssue => "担当Issue"@,
        }
    }

    /// The search terms that select the category.
    pub open spec fn scope(self) -> Seq<char> {
        match self {
            Category::AuthoredPr => "is:pr author:@me"@,
            Category::AuthoredIssue => "is:issue author:@me"@,
            Category::AssignedPr => "is:pr assignee:@me"@,
            Category::AssignedIssue => "is:issue assignee:@me"@,
        }
    }

    /// All categories, in the order of the tabs.
    pub fn all() -> (r: Vec<Category>)
        ensures
            r@ == Category::order(),
    {
        let r = vec![
            Category::AuthoredPr,
            Category::AuthoredIssue,
            Category::AssignedPr,
            Category::AssignedIssue,
        ];
        assert(r@ =~= Category::order());
        r
    }

    /// The place of the category among the tabs.
    pub fn position(self) -> (r: usize)
        ensures
            r == self.place(),
            Category::order()[r as int] == self,
    {
        match self {
            Category::AuthoredPr => 0,
            Category::AuthoredIssue => 1,
            Category::AssignedPr => 2,
            Category::AssignedIssue => 3,
        }
    }

    /// The label of the category's tab.
    pub fn title(self) -> (r: &'static str)
        ensures
            r@ == self.label(),
    {
        match self {
            Category::AuthoredPr => "作成PR",
            Category::AuthoredIssue => "作成Issue",
            Category::AssignedPr => "担当PR",
            Category::AssignedIssue => "担当Issue",
        }
    }

    /// The search query: the category's terms, the organization, the state and
    /// what the user added, as far as each is given, with blanks between them.
    pub fn search_query(
        self,
        state: StateFilter,
        organization: Option<&str>,
        extra_query: &str,
    ) -> (r: String)
        ensures
            r@ == search_text(
                self,
                state,
                match organization {
                    Some(name) => Some(name@),
                    None => None,
                },
                extra_query@,
            ),
    {
        let scope = match self {
            Category::AuthoredPr => "is:pr author:@me".to_string(),
            Category::AuthoredIssue => "is:issue author:@me".to_string(),
            Category::AssignedPr => "is:pr assignee:@me".to_string(),
            Category::AssignedIssue => "is:issue assignee:@me".to_string(),
        };
        let mut parts: Vec<String> = Vec::new();
        parts.push(scope);

        if let Some(name) = organization {
            let name = name.trim();
            if !name.is_empty() {
                parts.push("org:".to_string().concat(name));
            }
        }
        if let Some(filter) = state.as_query() {
            parts.push(filter.to_string());
        }
        let extra = extra_query.trim();
        if !extra.is_empty() {
            parts.push(extra.to_string());
        }
        let ghost given = match organization {
            Some(name) => Some(name@),
            None => None,
        };
        assert(texts(parts@) =~= search_parts(self, state, given, extra_query@));
        join(&parts, " ")
    }

    /// The next tab, round the end.
    pub fn next(self) -> (r: Category)
        ensures
            r == self.following(),
    {
        match self {
            Category::AuthoredPr => Category::AuthoredIssue,
            Category::AuthoredIssue => Category::AssignedPr,
            Category::AssignedPr => Category::AssignedIssue,
            Category::AssignedIssue => Category::AuthoredPr,
        }
    }

    /// The previous tab, round the start.
    pub fn previous(self) -> (r: Category)
        ensures
            r == self.preceding(),
    {
        match self {
            Category::AuthoredPr => Category::AssignedIssue,
            Category::AuthoredIssue => Category::AuthoredPr,
            Category::AssignedPr => Category::AuthoredIssue,
            Category::AssignedIssue => Category::AssignedPr,
        }
    }
}

impl StateFilter {
    /// The search term of the filter; `All` needs none.
    pub open spec fn term(self) -> Option<Seq<char>> {
        match self {
            StateFilter::Open => Some("state:open"@),
            StateFilter::Closed => Some("state:closed"@),
            StateFilter::All => None,
        }
    }

    /// The filter that follows.
    pub open spec fn following(self) -> StateFilter {
        match self {
            StateFilter::Open => StateFilter::Closed,
            StateFilter::Closed => StateFilter::All,
            StateFilter::All => StateFilter::Open,
        }
    }

    /// The search term of the filter; `All` needs none.
    pub fn as_query(self) -> (r: Option<&'static str>)
        ensures
            r is Some == self.term() is Some,
            r matches Some(filter) ==> self.term() == Some(filter@),
    {
        match self {
            StateFilter::Open => Some("state:open"),
            StateFilter::Closed => Some("state:closed"),
            StateFilter::All => None,
        }
    }

    /// Open, then closed, then all, then open again.
    pub fn next(self) -> (r: StateFilter)
        ensures
            r == self.following(),
    {
        match self {
            StateFilter::Open => StateFilter::Closed,
            StateFilter::Closed => StateFilter::All,
            StateFilter::All => StateFilter::Open,
        }
    }
}

/// One search term, or none where there is nothing to ask for.
pub open spec fn optional_part(present: bool, part: Seq<char>) -> Seq<Seq<char>> {
    if present {
        seq![part]
    } else {
        Seq::empty()
    }
}

/// The terms of a search query.
pub open spec fn search_parts(
    category: Category,
    state: StateFilter,
    organization: Option<Seq<char>>,
    extra: Seq<char>,
) -> Seq<Seq<char>> {
    let name = trimmed(organization.unwrap_or(Seq::empty()));
    seq![category.scope()] + optional_part(
        organization is Some && name.len() > 0,
        "org:"@ + name,
    ) + optional_part(state.term() is Some, state.term().unwrap_or(Seq::empty())) + optional_part(
        trimmed(extra).len() > 0,
        trimmed(extra),
    )
}

/// A search query: its terms with blanks between them.
pub open spec fn search_text(
    category: Category,
    state: StateFilter,
    organization: Option<Seq<char>>,
    extra: Seq<char>,
) -> Seq<char> {
    joined(search_parts(category, state, organization, extra), " "@)
}

} // verus!
