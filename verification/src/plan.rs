//! Where the parts of the screen lie.

use vstd::prelude::*;

use crate::geometry::{
    centered_rect, divided, fixed_before, least_before, length_edge, lengths_crowded, lengths_fit,
    may_ask, may_center, minimums_before, percent_before, rest_of, split, Constraint, Direction,
    Rect,
};
use crate::model::InputMode;

verus! {

/// The places of the screen's parts.
#[derive(Debug, PartialEq, Eq)]
pub struct ScreenPlan {
    /// Tabs, filters, scope, content and status, from top to bottom.
    pub rows: Vec<Rect>,
    /// The state and the query.
    pub filters: Vec<Rect>,
    /// The organization and the search.
    pub scopes: Vec<Rect>,
    /// The list and the preview.
    pub panes: Vec<Rect>,
    /// The dialog, and its rows.
    pub popup: Rect,
    pub popup_rows: Vec<Rect>,
}

/// The places as a mathematical value.
#[verifier::ext_equal]
pub struct PlanView {
    pub rows: Seq<Rect>,
    pub filters: Seq<Rect>,
    pub scopes: Seq<Rect>,
    pub panes: Seq<Rect>,
    pub popup: Rect,
    pub popup_rows: Seq<Rect>,
}

impl View for ScreenPlan {
    type V = PlanView;

    open spec fn view(&self) -> PlanView {
        PlanView {
            rows: self.rows@,
            filters: self.filters@,
            scopes: self.scopes@,
            panes: self.panes@,
            popup: self.popup,
            popup_rows: self.popup_rows@,
        }
    }
}

/// The heights of the screen's rows.
pub open spec fn screen_rows() -> Seq<Constraint> {
    seq![
        Constraint::Length(3),
        Constraint::Length(4),
        Constraint::Length(4),
        Constraint::Min(10),
        Constraint::Length(2),
    ]
}

/// How many rows of a terminal the content gets: what the other rows leave, but
/// ten if there are as many, and else all.
pub open spec fn content_height(height: u16) -> int {
    if height >= 23 {
        height - 13
    } else if height >= 10 {
        10
    } else {
        height as int
    }
}

/// A column of some width, and the rest.
pub open spec fn column_and_rest(width: u16) -> Seq<Constraint> {
    seq![Constraint::Length(width), Constraint::Min(20)]
}

/// The widths of the list and of the preview.
pub open spec fn pane_columns() -> Seq<Constraint> {
    seq![Constraint::Percentage(44), Constraint::Percentage(56)]
}

/// The width in percent and the height of a mode's dialog.
pub open spec fn dialog_size(mode: InputMode) -> Option<(u16, u16)> {
    match mode {
        InputMode::Normal => None,
        InputMode::EditingQuery => Some((72, 7)),
        InputMode::EditingOrganization => Some((60, 7)),
        InputMode::CreatingPullRequest => Some((72, 16)),
    }
}

/// The heights of the rows of a mode's dialog.
pub open spec fn dialog_rows(mode: InputMode) -> Seq<Constraint> {
    if mode == InputMode::CreatingPullRequest {
        seq![
            Constraint::Length(1),
            Constraint::Length(3),
            Constraint::Length(5),
            Constraint::Length(3),
            Constraint::Length(1),
            Constraint::Min(1),
        ]
    } else {
        seq![Constraint::Length(1), Constraint::Length(1), Constraint::Min(1)]
    }
}

impl PlanView {
    /// Whether every part that a mode shows has its place.
    pub open spec fn complete(self, mode: InputMode) -> bool {
        &&& self.rows.len() == 5
        &&& self.filters.len() == 2
        &&& self.scopes.len() == 2
        &&& self.panes.len() == 2
        &&& mode != InputMode::Normal ==> self.popup_rows.len() == dialog_rows(mode).len()
    }

    /// Whether no part of the screen, and no dialog, reaches out of `area`.
    pub open spec fn inside(self, area: Rect, mode: InputMode) -> bool {
        &&& forall|i: int| 0 <= i < self.rows.len() ==> area.holds(#[trigger] self.rows[i])
        &&& forall|i: int| 0 <= i < self.filters.len() ==> area.holds(#[trigger] self.filters[i])
        &&& forall|i: int| 0 <= i < self.scopes.len() ==> area.holds(#[trigger] self.scopes[i])
        &&& forall|i: int| 0 <= i < self.panes.len() ==> area.holds(#[trigger] self.panes[i])
        &&& mode != InputMode::Normal ==> area.holds(self.popup)
    }

    /// Whether the places come from dividing `area` for a mode.
    pub open spec fn may_divide(self, area: Rect, mode: InputMode) -> bool {
        &&& self.complete(mode)
        &&& divided(Direction::Vertical, 0, screen_rows(), area, self.rows)
        &&& divided(Direction::Horizontal, 0, column_and_rest(24), self.rows[1], self.filters)
        &&& divided(Direction::Horizontal, 0, column_and_rest(36), self.rows[2], self.scopes)
        &&& divided(Direction::Horizontal, 0, pane_columns(), self.rows[3], self.panes)
        &&& dialog_size(mode) matches Some(size) ==> {
            &&& may_center(size.0, size.1, area, self.popup)
            &&& divided(Direction::Vertical, 1, dialog_rows(mode), self.popup, self.popup_rows)
        }
    }
}

/// Every division of the screen can be asked for.
proof fn lemma_plan_asked(width: u16, mode: InputMode)
    ensures
        may_ask(screen_rows()),
        may_ask(column_and_rest(width)),
        may_ask(pane_columns()),
        may_ask(dialog_rows(mode)),
{
    reveal_with_fuel(minimums_before, 7);
    reveal_with_fuel(percent_before, 3);
}

/// A single minimum takes all that lengths leave.
pub(crate) proof fn lemma_one_minimum(constraints: Seq<Constraint>, size: nat, i: nat)
    requires
        minimums_before(constraints, constraints.len()) == 1,
        minimums_before(constraints, i) <= 1,
    ensures
        length_edge(constraints, size, i) == fixed_before(constraints, i) + if minimums_before(
            constraints,
            i,
        ) == 1 {
            rest_of(constraints, size)
        } else {
            0
        },
{
    let (seen, rest) = (minimums_before(constraints, i), rest_of(constraints, size));
    assert(seen * rest == if seen == 1 {
        rest
    } else {
        0
    }) by (nonlinear_arith)
        requires
            seen <= 1,
    ;
}

/// How many rows the content gets, on any terminal.
#[verifier::spinoff_prover]
#[verifier::rlimit(60)]
pub(crate) proof fn lemma_content_height(area: Rect, rows: Seq<Rect>)
    requires
        divided(Direction::Vertical, 0, screen_rows(), area, rows),
        area.bounded(),
    ensures
        rows[3].height == content_height(area.height),
{
    reveal_with_fuel(fixed_before, 6);
    reveal_with_fuel(minimums_before, 6);
    reveal_with_fuel(least_before, 6);
    let heights = screen_rows();
    let size = area.height as nat;
    if area.height >= 23 {
        assert(lengths_fit(heights, size));
        lemma_one_minimum(heights, size, 3);
        lemma_one_minimum(heights, size, 4);
        assert(rows[3].start(Direction::Vertical) == area.y + 11);
    } else {
        assert(lengths_crowded(heights, size));
        assert(heights[3] is Min);
        assert(rows[3].start(Direction::Vertical) <= rows[3].end(Direction::Vertical));
    }
}

fn split_off_column(width: u16, area: Rect) -> (r: Vec<Rect>)
    ensures
        divided(Direction::Horizontal, 0, column_and_rest(width), area, r@),
{
    let widths = vec![Constraint::Length(width), Constraint::Min(20)];
    assert(widths@ =~= column_and_rest(width));
    proof {
        lemma_plan_asked(width, InputMode::Normal);
    }
    split(Direction::Horizontal, 0, &widths, area)
}

fn split_dialog(mode: InputMode, popup: Rect) -> (r: Vec<Rect>)
    ensures
        divided(Direction::Vertical, 1, dialog_rows(mode), popup, r@),
{
    let heights = if mode == InputMode::CreatingPullRequest {
        vec![
            Constraint::Length(1),
            Constraint::Length(3),
            Constraint::Length(5),
            Constraint::Length(3),
            Constraint::Length(1),
            Constraint::Min(1),
        ]
    } else {
        vec![Constraint::Length(1), Constraint::Length(1), Constraint::Min(1)]
    };
    assert(heights@ =~= dialog_rows(mode));
    proof {
        lemma_plan_asked(0, mode);
    }
    split(Direction::Vertical, 1, &heights, popup)
}

/// The dialog of a mode, and its rows; without a dialog, nothing.
fn plan_dialog(area: Rect, mode: InputMode) -> (r: (Rect, Vec<Rect>))
    ensures
        dialog_size(mode) matches Some(size) ==> {
            &&& may_center(size.0, size.1, area, r.0)
            &&& divided(Direction::Vertical, 1, dialog_rows(mode), r.0, r.1@)
            &&& r.1@.len() == dialog_rows(mode).len()
            &&& area.holds(r.0)
        },
{
    let (width_percent, height): (u16, u16) = match mode {
        InputMode::Normal => return (Rect::zero(), Vec::new()),
        InputMode::EditingQuery => (72, 7),
        InputMode::EditingOrganization => (60, 7),
        InputMode::CreatingPullRequest => (72, 16),
    };
    let popup = centered_rect(width_percent, height, area);
    (popup, split_dialog(mode, popup))
}

/// The parts of a division without a margin do not reach out of its area.
proof fn lemma_parts_inside(
    direction: Direction,
    constraints: Seq<Constraint>,
    area: Rect,
    parts: Seq<Rect>,
)
    requires
        divided(direction, 0, constraints, area, parts),
    ensures
        parts.len() == constraints.len(),
        forall|i: int| 0 <= i < parts.len() ==> area.holds(#[trigger] parts[i]),
{
    assert(area.inner(0) == area);
    assert forall|i: int| 0 <= i < parts.len() implies area.holds(#[trigger] parts[i]) by {
        assert(parts[i].across(direction) == area.across(direction));
    }
}

/// No part of the screen reaches out of its area.
pub(crate) proof fn lemma_screen_inside(plan: PlanView, area: Rect)
    requires
        divided(Direction::Vertical, 0, screen_rows(), area, plan.rows),
        divided(Direction::Horizontal, 0, column_and_rest(24), plan.rows[1], plan.filters),
        divided(Direction::Horizontal, 0, column_and_rest(36), plan.rows[2], plan.scopes),
        divided(Direction::Horizontal, 0, pane_columns(), plan.rows[3], plan.panes),
    ensures
        plan.inside(area, InputMode::Normal),
        plan.rows.len() == 5,
        plan.filters.len() == 2,
        plan.scopes.len() == 2,
        plan.panes.len() == 2,
{
    lemma_parts_inside(Direction::Vertical, screen_rows(), area, plan.rows);
    lemma_parts_inside(Direction::Horizontal, column_and_rest(24), plan.rows[1], plan.filters);
    lemma_parts_inside(Direction::Horizontal, column_and_rest(36), plan.rows[2], plan.scopes);
    lemma_parts_inside(Direction::Horizontal, pane_columns(), plan.rows[3], plan.panes);
    assert(area.holds(plan.rows[1]));
    assert(area.holds(plan.rows[2]));
    assert(area.holds(plan.rows[3]));
}

/// Divides the screen for a mode.
#[verifier::spinoff_prover]
#[verifier::rlimit(60)]
pub fn plan_screen(area: Rect, mode: InputMode) -> (r: ScreenPlan)
    ensures
        r@.may_divide(area, mode),
        r@.inside(area, mode),
        area.bounded() ==> r@.rows[3].height == content_height(area.height),
{
    let heights = vec![
        Constraint::Length(3),
        Constraint::Length(4),
        Constraint::Length(4),
        Constraint::Min(10),
        Constraint::Length(2),
    ];
    assert(heights@ =~= screen_rows());
    proof {
        lemma_plan_asked(0, mode);
    }
    let rows = split(Direction::Vertical, 0, &heights, area);
    proof {
        if area.bounded() {
            lemma_content_height(area, rows@);
        }
    }
    let filters = split_off_column(24, rows[1]);
    let scopes = split_off_column(36, rows[2]);
    let widths = vec![Constraint::Percentage(44), Constraint::Percentage(56)];
    assert(widths@ =~= pane_columns());
    let panes = split(Direction::Horizontal, 0, &widths, rows[3]);
    let (popup, popup_rows) = plan_dialog(area, mode);
    let plan = ScreenPlan { rows, filters, scopes, panes, popup, popup_rows };
    proof {
        lemma_screen_inside(plan@, area);
    }
    plan
}

} // verus!
