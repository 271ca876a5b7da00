use ghdesk::category::{Category, StateFilter};

#[test]
fn titles_of_the_tabs() {
    let titles: Vec<&str> = Category::all().into_iter().map(|c| c.title()).collect();
    assert_eq!(titles, vec!["作成PR", "作成Issue", "担当PR", "担当Issue"]);
}

#[test]
fn positions_of_the_tabs() {
    let positions: Vec<usize> = Category::all().into_iter().map(|c| c.position()).collect();
    assert_eq!(positions, vec![0, 1, 2, 3]);
}

#[test]
fn tabs_form_a_ring() {
    assert_eq!(Category::AuthoredPr.next(), Category::AuthoredIssue);
    assert_eq!(Category::AssignedIssue.next(), Category::AuthoredPr);
    assert_eq!(Category::AuthoredPr.previous(), Category::AssignedIssue);
    for c in Category::all() {
        assert_eq!(c.next().previous(), c);
        assert_eq!(c.previous().next(), c);
        assert_eq!(c.next().next().next().next(), c);
    }
}

#[test]
fn state_filter_cycles() {
    assert_eq!(StateFilter::Open.next(), StateFilter::Closed);
    assert_eq!(StateFilter::Closed.next(), StateFilter::All);
    assert_eq!(StateFilter::All.next(), StateFilter::Open);
}

#[test]
fn state_filter_terms() {
    assert_eq!(StateFilter::Open.as_query(), Some("state:open"));
    assert_eq!(StateFilter::Closed.as_query(), Some("state:closed"));
    assert_eq!(StateFilter::All.as_query(), None);
}

#[test]
fn search_query_with_everything() {
    assert_eq!(
        Category::AuthoredPr.search_query(
            StateFilter::Open,
            Some("your-org"),
            "label:bug sort:updated-desc"
        ),
        "is:pr author:@me org:your-org state:open label:bug sort:updated-desc"
    );
}

#[test]
fn search_query_of_each_category() {
    assert_eq!(
        Category::AuthoredIssue.search_query(StateFilter::All, None, ""),
        "is:issue author:@me"
    );
    assert_eq!(
        Category::AssignedPr.search_query(StateFilter::Closed, None, ""),
        "is:pr assignee:@me state:closed"
    );
    assert_eq!(
        Category::AssignedIssue.search_query(StateFilter::Open, None, "is:draft"),
        "is:issue assignee:@me state:open is:draft"
    );
}

#[test]
fn search_query_ignores_outer_space() {
    assert_eq!(
        Category::AuthoredPr.search_query(StateFilter::All, Some(" \u{3000}org\t"), "\n q  r "),
        "is:pr author:@me org:org q  r"
    );
}

#[test]
fn blank_organization_is_none() {
    assert_eq!(
        Category::AuthoredPr.search_query(StateFilter::All, Some(" \t"), " "),
        "is:pr author:@me"
    );
}

#[test]
fn search_starts_with_the_scope() {
    let query = Category::AssignedPr.search_query(StateFilter::Open, Some("o"), "q");
    assert!(query.starts_with("is:pr assignee:@me"));
}

#[test]
fn search_has_no_outer_space() {
    for category in Category::all() {
        for state in [StateFilter::Open, StateFilter::Closed, StateFilter::All] {
            for organization in [None, Some(" "), Some(" o ")] {
                for extra in ["", " \n", " q "] {
                    let query = category.search_query(state, organization, extra);
                    assert!(!query.is_empty());
                    assert_eq!(query.trim(), query);
                }
            }
        }
    }
}
