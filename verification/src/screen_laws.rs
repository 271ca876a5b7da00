//! Laws of the screen: where its parts lie, and what is drawn there.

use vstd::prelude::*;

use crate::draw::{dialog_view, may_draw, scene_of};
use crate::geometry::{
    divided, divides, fixed_before, has_lengths, least_before, lemma_middle, lengths_crowded,
    lengths_fit, middle_column, middle_of, middle_row, minimums_before, percent_before,
    percent_edge, percentages_fit, Constraint, Direction, Rect,
};
use crate::keys::Event;
use crate::model::{AppView, InputMode};
use crate::plan::{
    column_and_rest, content_height, dialog_rows, dialog_size, lemma_content_height,
    lemma_one_minimum, lemma_screen_inside, pane_columns, screen_rows, PlanView,
};
use crate::screen::SceneView;

verus! {

/// The parts of a division do not overlap: each ends before the later ones
/// start.
pub proof fn law_parts_do_not_overlap(
    parts: Seq<Rect>,
    direction: Direction,
    margin: u16,
    constraints: Seq<Constraint>,
    area: Rect,
    i: int,
    j: int,
)
    requires
        divides(parts, direction, margin, constraints, area),
        0 <= i < j < parts.len(),
    ensures
        parts[i].end(direction) <= parts[j].start(direction),
    decreases j - i,
{
    if i + 1 < j {
        law_parts_do_not_overlap(parts, direction, margin, constraints, area, i, j - 1);
        assert(parts[j].start(direction) == parts[j - 1].end(direction));
        assert(parts[j - 1].start(direction) <= parts[j - 1].end(direction));
    } else {
        assert(parts[j].start(direction) == parts[i].end(direction));
    }
}

/// No part of the screen, and no dialog, reaches out of the terminal.
pub proof fn law_screen_stays_inside(plan: PlanView, area: Rect, mode: InputMode)
    requires
        plan.may_divide(area, mode),
    ensures
        plan.inside(area, mode),
{
    if let Some(size) = dialog_size(mode) {
        let (rows, columns) = choose|rows: Seq<Rect>, columns: Seq<Rect>|
            #![trigger
                divided(Direction::Vertical, 0, middle_row(size.1), area, rows),
                divided(Direction::Horizontal, 0, middle_column(size.0), rows[1], columns)]
            {
                &&& divided(Direction::Vertical, 0, middle_row(size.1), area, rows)
                &&& divided(Direction::Horizontal, 0, middle_column(size.0), rows[1], columns)
                &&& plan.popup == columns[1]
            };
        lemma_middle(size.0, size.1, area, rows, columns);
    }
    lemma_screen_inside(plan, area);
}

/// The part of `area` that starts some rows below its top and is some rows high.
pub open spec fn band(area: Rect, below: int, height: int) -> Rect {
    Rect { y: (area.y + below) as u16, height: height as u16, ..area }
}

/// The part of `area` that starts some columns from its left and is some columns
/// wide.
pub open spec fn strip(area: Rect, from: int, width: int) -> Rect {
    Rect { x: (area.x + from) as u16, width: width as u16, ..area }
}

/// On a terminal of at least 23 rows the tabs, the filters, the scope, the
/// content and the status lie below each other, and the content gets what the
/// others leave.
#[verifier::spinoff_prover]
#[verifier::rlimit(60)]
pub proof fn law_rows_in_place(plan: PlanView, area: Rect, mode: InputMode)
    requires
        plan.may_divide(area, mode),
        area.bounded(),
        area.height >= 23,
    ensures
        plan.rows == seq![
            band(area, 0, 3),
            band(area, 3, 4),
            band(area, 7, 4),
            band(area, 11, area.height - 13),
            band(area, area.height - 2, 2),
        ],
{
    reveal_with_fuel(fixed_before, 6);
    reveal_with_fuel(minimums_before, 6);
    let heights = screen_rows();
    let size = area.height as nat;
    assert(lengths_fit(heights, size));
    lemma_one_minimum(heights, size, 0);
    lemma_one_minimum(heights, size, 1);
    lemma_one_minimum(heights, size, 2);
    lemma_one_minimum(heights, size, 3);
    lemma_one_minimum(heights, size, 4);
    lemma_one_minimum(heights, size, 5);
    assert(plan.rows =~= seq![
        band(area, 0, 3),
        band(area, 3, 4),
        band(area, 7, 4),
        band(area, 11, area.height - 13),
        band(area, area.height - 2, 2),
    ]);
}

/// The rows cover the terminal to its last line, and the content has its ten
/// rows wherever there are as many.
pub proof fn law_content_keeps_its_rows(plan: PlanView, area: Rect, mode: InputMode)
    requires
        plan.may_divide(area, mode),
        area.bounded(),
    ensures
        plan.rows[4].end(Direction::Vertical) == area.y + area.height,
        plan.rows[3].height == content_height(area.height),
        area.height >= 10 ==> plan.rows[3].height >= 10,
        plan.panes[0].height == plan.rows[3].height,
        plan.panes[1].height == plan.rows[3].height,
{
    reveal_with_fuel(minimums_before, 6);
    assert(has_lengths(screen_rows()));
    lemma_content_height(area, plan.rows);
}

/// What a column of some width gets beside one that asks for at least twenty.
pub open spec fn column_width(width: u16, total: u16) -> int {
    if total >= width + 20 {
        width as int
    } else if total >= 20 {
        total - 20
    } else {
        0
    }
}

/// A column of some width, and the rest beside it.
#[verifier::spinoff_prover]
#[verifier::rlimit(60)]
proof fn lemma_columns(width: u16, area: Rect, parts: Seq<Rect>)
    requires
        divided(Direction::Horizontal, 0, column_and_rest(width), area, parts),
        area.bounded(),
    ensures
        parts == seq![
            strip(area, 0, column_width(width, area.width)),
            strip(
                area,
                column_width(width, area.width),
                area.width - column_width(width, area.width),
            ),
        ],
{
    reveal_with_fuel(fixed_before, 3);
    reveal_with_fuel(minimums_before, 3);
    reveal_with_fuel(least_before, 3);
    let widths = column_and_rest(width);
    let size = area.width as nat;
    assert(has_lengths(widths));
    if area.width >= width + 20 {
        assert(lengths_fit(widths, size));
        lemma_one_minimum(widths, size, 0);
        lemma_one_minimum(widths, size, 1);
        lemma_one_minimum(widths, size, 2);
    } else {
        assert(lengths_crowded(widths, size));
        assert(widths[1] is Min);
        assert(parts[1].start(Direction::Horizontal) == parts[0].end(Direction::Horizontal));
    }
    let first = column_width(width, area.width);
    assert(parts =~= seq![strip(area, 0, first), strip(area, first, area.width - first)]);
}

/// On any terminal the state is 24 columns wide and the organization 36, but for
/// the 20 that the query and the search beside them get first, and list and
/// preview share the width as 44 to 56.
#[verifier::spinoff_prover]
#[verifier::rlimit(60)]
pub proof fn law_columns_in_place(plan: PlanView, area: Rect, mode: InputMode)
    requires
        plan.may_divide(area, mode),
        area.bounded(),
    ensures
        ({
            let (filters, scopes, content) = (plan.rows[1], plan.rows[2], plan.rows[3]);
            let state = column_width(24, area.width);
            let organization = column_width(36, area.width);
            let list = (44 * area.width + 50) / 100;
            &&& plan.filters == seq![
                strip(filters, 0, state),
                strip(filters, state, area.width - state),
            ]
            &&& plan.scopes == seq![
                strip(scopes, 0, organization),
                strip(scopes, organization, area.width - organization),
            ]
            &&& plan.panes == seq![
                strip(content, 0, list),
                strip(content, list, area.width - list),
            ]
        }),
{
    assert(area.holds(plan.rows[1]) && plan.rows[1].width == area.width);
    assert(area.holds(plan.rows[2]) && plan.rows[2].width == area.width);
    assert(area.holds(plan.rows[3]) && plan.rows[3].width == area.width);
    lemma_columns(24, plan.rows[1], plan.filters);
    lemma_columns(36, plan.rows[2], plan.scopes);
    reveal_with_fuel(percent_before, 3);
    let content = plan.rows[3];
    let list = (44 * area.width + 50) / 100;
    assert(percentages_fit(pane_columns()));
    let (first, both) = (percent_before(pane_columns(), 1), percent_before(pane_columns(), 2));
    assert(area.width * first == 44 * area.width && area.width * both == 100 * area.width)
        by (nonlinear_arith)
        requires
            first == 44,
            both == 100,
    ;
    assert(percent_edge(pane_columns(), area.width as nat, 1) == list);
    assert(percent_edge(pane_columns(), area.width as nat, 2) == area.width);
    assert(plan.panes =~= seq![strip(content, 0, list), strip(content, list, area.width - list)]);
}

/// On a terminal of at least two rows a dialog lies in the middle, with a row
/// above and one below it.
pub proof fn law_dialog_is_centered(plan: PlanView, area: Rect, mode: InputMode)
    requires
        plan.may_divide(area, mode),
        area.bounded(),
    ensures
        dialog_size(mode) matches Some(size) ==> area.height >= 2 ==> {
            &&& plan.popup == middle_of(size.0, size.1, area)
            &&& area.y < plan.popup.y
            &&& plan.popup.y + plan.popup.height < area.y + area.height
        },
{
    if let Some(size) = dialog_size(mode) {
        let (rows, columns) = choose|rows: Seq<Rect>, columns: Seq<Rect>|
            #![trigger
                divided(Direction::Vertical, 0, middle_row(size.1), area, rows),
                divided(Direction::Horizontal, 0, middle_column(size.0), rows[1], columns)]
            {
                &&& divided(Direction::Vertical, 0, middle_row(size.1), area, rows)
                &&& divided(Direction::Horizontal, 0, middle_column(size.0), rows[1], columns)
                &&& plan.popup == columns[1]
            };
        lemma_middle(size.0, size.1, area, rows, columns);
    }
}

/// The rows of a dialog that has room lie below each other inside its border:
/// what is edited on one line is the second, and the form has its title, its
/// body and its choice on drafts three, five and three rows high.
#[verifier::spinoff_prover]
#[verifier::rlimit(60)]
pub proof fn law_dialog_rows_in_place(plan: PlanView, area: Rect, mode: InputMode)
    requires
        plan.may_divide(area, mode),
        mode != InputMode::Normal,
        plan.popup.bounded(),
        plan.popup.width >= 2,
        plan.popup.height == dialog_size(mode).unwrap().1,
    ensures
        ({
            let inner = plan.popup.inner(1);
            plan.popup_rows == if mode == InputMode::CreatingPullRequest {
                seq![
                    band(inner, 0, 1),
                    band(inner, 1, 3),
                    band(inner, 4, 5),
                    band(inner, 9, 3),
                    band(inner, 12, 1),
                    band(inner, 13, 1),
                ]
            } else {
                seq![band(inner, 0, 1), band(inner, 1, 1), band(inner, 2, 3)]
            }
        }),
{
    reveal_with_fuel(fixed_before, 7);
    reveal_with_fuel(minimums_before, 7);
    let inner = plan.popup.inner(1);
    let heights = dialog_rows(mode);
    let size = inner.height as nat;
    assert(lengths_fit(heights, size));
    lemma_one_minimum(heights, size, 0);
    lemma_one_minimum(heights, size, 1);
    lemma_one_minimum(heights, size, 2);
    lemma_one_minimum(heights, size, 3);
    if mode == InputMode::CreatingPullRequest {
        lemma_one_minimum(heights, size, 4);
        lemma_one_minimum(heights, size, 5);
        lemma_one_minimum(heights, size, 6);
        assert(plan.popup_rows =~= seq![
            band(inner, 0, 1),
            band(inner, 1, 3),
            band(inner, 4, 5),
            band(inner, 9, 3),
            band(inner, 12, 1),
            band(inner, 13, 1),
        ]);
    } else {
        assert(plan.popup_rows =~= seq![
            band(inner, 0, 1),
            band(inner, 1, 1),
            band(inner, 2, 3),
        ]);
    }
}

/// A dialog is drawn over the screen that shows without it.
pub proof fn law_dialog_over_the_screen(app: AppView, area: Rect, plan: PlanView)
    ensures
        scene_of(app, area, plan).widgets == scene_of(
            AppView { input_mode: InputMode::Normal, ..app },
            area,
            plan,
        ).widgets + dialog_view(app, plan),
{
    let below = AppView { input_mode: InputMode::Normal, ..app };
    assert(scene_of(app, area, plan).widgets =~= scene_of(below, area, plan).widgets + dialog_view(
        app,
        plan,
    ));
}

/// The wheel over the pane in which the preview was last drawn scrolls it, and
/// over any other cell moves the selection.
pub proof fn law_wheel_over_the_drawn_preview(
    before: AppView,
    area: Rect,
    plan: PlanView,
    after: AppView,
    scene: Option<SceneView>,
    column: u16,
    row: u16,
)
    requires
        may_draw(before, area, plan, after, scene),
    ensures
        plan.panes[1].covers(column, row) ==> {
            &&& after.event_step(Event::ScrollDown(column, row)).0 == after.scrolled_down(3)
            &&& after.event_step(Event::ScrollUp(column, row)).0 == after.scrolled_up(3)
        },
        !plan.panes[1].covers(column, row) ==> {
            &&& after.event_step(Event::ScrollDown(column, row)).0 == after.next_selected()
            &&& after.event_step(Event::ScrollUp(column, row)).0 == after.previous_selected()
        },
{
}

/// Drawing changes neither what is listed nor what is selected or searched for.
pub proof fn law_drawing_keeps_the_state(
    before: AppView,
    area: Rect,
    plan: PlanView,
    after: AppView,
    scene: Option<SceneView>,
)
    requires
        may_draw(before, area, plan, after, scene),
    ensures
        after.items == before.items,
        after.selection() == before.selection(),
        after.search() == before.search(),
        before.wf() ==> after.wf(),
        before.coherent() ==> after.coherent(),
{
}

/// A part that an area holds has no cell outside of it, and an area holds itself.
pub proof fn law_held_cells(area: Rect, part: Rect, column: u16, row: u16)
    requires
        area.holds(part),
        part.covers(column, row),
    ensures
        area.covers(column, row),
        area.holds(area),
        area.x <= column < area.x + area.width,
        area.y <= row < area.y + area.height,
{
}

/// Every cell of a terminal of at least 23 rows belongs to exactly one row of the
/// screen.
pub proof fn law_cells_have_one_row(
    plan: PlanView,
    area: Rect,
    mode: InputMode,
    column: u16,
    row: u16,
)
    requires
        plan.may_divide(area, mode),
        area.bounded(),
        area.height >= 23,
        area.covers(column, row),
    ensures
        exists|i: int|
            0 <= i < 5 && #[trigger] plan.rows[i].covers(column, row) && forall|j: int|
                0 <= j < 5 && #[trigger] plan.rows[j].covers(column, row) ==> j == i,
{
    law_rows_in_place(plan, area, mode);
    let below = row - area.y;
    let i: int = if below < 3 {
        0
    } else if below < 7 {
        1
    } else if below < 11 {
        2
    } else if below < area.height - 2 {
        3
    } else {
        4
    };
    assert(plan.rows[i].covers(column, row));
}

/// A margin of one leaves out the border and nothing else; without a margin, all
/// is left.
pub proof fn law_inside_the_border(r: Rect)
    requires
        r.bounded(),
    ensures
        r.inner(0) == r,
        r.width >= 2 && r.height >= 2 ==> r.inner(1) == (Rect {
            x: (r.x + 1) as u16,
            y: (r.y + 1) as u16,
            width: (r.width - 2) as u16,
            height: (r.height - 2) as u16,
        }),
{
}

} // verus!
