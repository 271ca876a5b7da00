use ghdesk::geometry::{centered_rect, rect_contains, Rect};
use ghdesk::model::InputMode;
use ghdesk::plan::plan_screen;

fn rect(x: u16, y: u16, width: u16, height: u16) -> Rect {
    Rect { x, y, width, height }
}

fn inside(part: Rect, whole: Rect) -> bool {
    part.x >= whole.x
        && part.y >= whole.y
        && part.x + part.width <= whole.x + whole.width
        && part.y + part.height <= whole.y + whole.height
}

#[test]
fn cells_of_a_rectangle() {
    let r = rect(2, 3, 4, 5);
    assert!(rect_contains(r, 2, 3));
    assert!(rect_contains(r, 5, 7));
    assert!(!rect_contains(r, 6, 3));
    assert!(!rect_contains(r, 2, 8));
    assert!(!rect_contains(r, 1, 3));
    assert!(!rect_contains(Rect::default(), 0, 0));
}

#[test]
fn rectangle_at_the_edge() {
    let r = rect(65_530, 0, 100, 1);
    assert!(rect_contains(r, 65_534, 0));
    assert!(!rect_contains(r, 65_535, 0));
}

#[test]
fn centered_in_the_middle() {
    assert_eq!(centered_rect(60, 7, rect(0, 0, 100, 27)), rect(20, 10, 60, 7));
}

#[test]
fn rows_of_the_screen() {
    let plan = plan_screen(rect(0, 0, 100, 40), InputMode::Normal);
    assert_eq!(
        plan.rows,
        vec![
            rect(0, 0, 100, 3),
            rect(0, 3, 100, 4),
            rect(0, 7, 100, 4),
            rect(0, 11, 100, 27),
            rect(0, 38, 100, 2),
        ]
    );
    assert_eq!(plan.filters, vec![rect(0, 3, 24, 4), rect(24, 3, 76, 4)]);
    assert_eq!(plan.scopes, vec![rect(0, 7, 36, 4), rect(36, 7, 64, 4)]);
    assert_eq!(plan.panes, vec![rect(0, 11, 44, 27), rect(44, 11, 56, 27)]);
}

#[test]
fn dialogs_have_their_rows() {
    let area = rect(0, 0, 100, 40);
    let query = plan_screen(area, InputMode::EditingQuery);
    assert_eq!(query.popup.height, 7);
    assert_eq!(query.popup_rows.len(), 3);
    assert_eq!(query.popup_rows[1].y, query.popup.y + 2);
    let form = plan_screen(area, InputMode::CreatingPullRequest);
    assert_eq!(form.popup.height, 16);
    assert_eq!(form.popup_rows.len(), 6);
    assert_eq!(form.popup_rows[2].y, form.popup.y + 5);
    assert_eq!(form.popup_rows[2].height, 5);
}

#[test]
fn parts_stay_inside() {
    for area in [rect(0, 0, 100, 40), rect(3, 4, 20, 9), rect(0, 0, 1, 1), rect(0, 0, 0, 0)] {
        for mode in [
            InputMode::Normal,
            InputMode::EditingQuery,
            InputMode::EditingOrganization,
            InputMode::CreatingPullRequest,
        ] {
            let plan = plan_screen(area, mode);
            let parts = plan.rows.iter().chain(&plan.filters).chain(&plan.scopes).chain(&plan.panes);
            for part in parts {
                assert!(inside(*part, area));
            }
            assert!(mode == InputMode::Normal || inside(plan.popup, area));
        }
    }
}

fn follows_rows(parts: &[Rect], whole: Rect) -> bool {
    let mut next = whole.y;
    parts.iter().all(|part| {
        let fits = part.y == next && part.x == whole.x && part.width == whole.width;
        next = part.y + part.height;
        fits && next <= whole.y + whole.height
    })
}

fn follows_columns(parts: &[Rect], whole: Rect) -> bool {
    let mut next = whole.x;
    parts.iter().all(|part| {
        let fits = part.x == next && part.y == whole.y && part.height == whole.height;
        next = part.x + part.width;
        fits && next <= whole.x + whole.width
    })
}

fn inner(popup: Rect) -> Rect {
    if popup.width < 2 || popup.height < 2 {
        rect(0, 0, 0, 0)
    } else {
        rect(popup.x + 1, popup.y + 1, popup.width - 2, popup.height - 2)
    }
}

const MODES: [InputMode; 4] = [
    InputMode::Normal,
    InputMode::EditingQuery,
    InputMode::EditingOrganization,
    InputMode::CreatingPullRequest,
];

#[test]
fn parts_follow_each_other_on_any_terminal() {
    for height in 0..26 {
        for width in [0, 1, 3, 19, 24, 44, 81] {
            for mode in MODES {
                let area = rect(height % 3, width % 4, width, height);
                let plan = plan_screen(area, mode);
                assert!(follows_rows(&plan.rows, area), "{plan:?}");
                assert!(follows_columns(&plan.filters, plan.rows[1]), "{plan:?}");
                assert!(follows_columns(&plan.scopes, plan.rows[2]), "{plan:?}");
                assert!(follows_columns(&plan.panes, plan.rows[3]), "{plan:?}");
                assert!(follows_rows(&plan.popup_rows, inner(plan.popup)), "{plan:?}");
            }
        }
    }
}

#[test]
fn parts_have_their_sizes_where_there_is_room() {
    for height in [23, 24, 31, 50, 120, 1000, 20_001] {
        for width in [56, 57, 80, 99, 101, 133, 200, 999, 30_003] {
            let area = rect(3, 5, width, height);
            let plan = plan_screen(area, InputMode::EditingQuery);
            let heights: Vec<u16> = plan.rows.iter().map(|row| row.height).collect();
            assert_eq!(heights, vec![3, 4, 4, height - 13, 2]);
            assert_eq!(plan.filters[0].width, 24);
            assert_eq!(plan.filters[1].width, width - 24);
            assert_eq!(plan.scopes[0].width, 36);
            assert_eq!(plan.scopes[1].width, width - 36);
            let list = ((44 * u32::from(width) + 50) / 100) as u16;
            assert_eq!(plan.panes[0].width, list);
            assert_eq!(plan.panes[1].width, width - list);
            assert_eq!(plan.popup.height, 7);
            assert_eq!(plan.popup.y, 5 + (height - 7 + 1) / 2);
            let heights: Vec<u16> = plan.popup_rows.iter().map(|row| row.height).collect();
            assert_eq!(heights, vec![1, 1, 3]);
            let plan = plan_screen(area, InputMode::CreatingPullRequest);
            let heights: Vec<u16> = plan.popup_rows.iter().map(|row| row.height).collect();
            assert_eq!(heights, vec![1, 3, 5, 3, 1, 1]);
        }
    }
}

#[test]
fn centered_by_the_formula() {
    for percent in (0..=100).step_by(3) {
        for width in [0, 1, 2, 7, 33, 50, 99, 100, 101, 640, 65_000] {
            for (height, rows) in [(1, 3), (7, 9), (7, 10), (7, 24), (16, 41), (0, 2), (0, 5)] {
                let area = rect(1, 2, width, rows);
                let side = (100 - percent) / 2;
                let left = (u32::from(width) * u32::from(side) + 50) / 100;
                let right = (u32::from(width) * u32::from(side + percent) + 50) / 100;
                assert_eq!(
                    centered_rect(percent, height, area),
                    rect(
                        1 + left as u16,
                        2 + (rows - height + 1) / 2,
                        (right - left) as u16,
                        height
                    )
                );
            }
        }
    }
}

fn content_height(height: u16) -> u16 {
    match height {
        0..=9 => height,
        10..=22 => 10,
        _ => height - 13,
    }
}

fn column_width(width: u16, total: u16) -> u16 {
    width.min(total.saturating_sub(20))
}

#[test]
fn content_goes_before_the_other_rows() {
    for offset in 0..12 {
        for height in 0..30 {
            let area = rect(offset, 2 * offset, 40 + offset, height);
            let plan = plan_screen(area, InputMode::Normal);
            assert_eq!(plan.rows[3].height, content_height(height), "{plan:?}");
            assert_eq!(plan.rows[4].y + plan.rows[4].height, area.y + height, "{plan:?}");
        }
    }
}

#[test]
fn query_and_search_go_before_their_neighbours() {
    for offset in 0..6 {
        for width in 0..70 {
            let area = rect(offset, 2 * offset, width, 24 + offset);
            let plan = plan_screen(area, InputMode::Normal);
            assert_eq!(plan.filters[0].width, column_width(24, width), "{plan:?}");
            assert_eq!(plan.filters[1].width, width - column_width(24, width), "{plan:?}");
            assert_eq!(plan.scopes[0].width, column_width(36, width), "{plan:?}");
            assert_eq!(plan.scopes[1].width, width - column_width(36, width), "{plan:?}");
        }
    }
}

#[test]
fn dialogs_leave_a_row_above_and_below() {
    for offset in 0..6 {
        for height in 2..30 {
            for (mode, rows) in [
                (InputMode::EditingQuery, 7),
                (InputMode::EditingOrganization, 7),
                (InputMode::CreatingPullRequest, 16),
            ] {
                let area = rect(offset, offset, 60 + offset, height);
                let plan = plan_screen(area, mode);
                let shown = rows.min(height - 2);
                assert_eq!(plan.popup.height, shown, "{plan:?}");
                assert_eq!(plan.popup.y, area.y + (height - shown + 1) / 2, "{plan:?}");
                let inside = inner(plan.popup);
                let last = plan.popup_rows[plan.popup_rows.len() - 1];
                assert_eq!(last.y + last.height, inside.y + inside.height, "{plan:?}");
                assert!(last.height >= inside.height.min(1), "{plan:?}");
            }
        }
    }
}

#[test]
fn parts_stay_inside_past_the_last_coordinate() {
    for area in [rect(65_530, 3, 100, 30), rect(2, 65_525, 80, 40), rect(65_535, 65_535, 9, 9)] {
        for mode in MODES {
            let plan = plan_screen(area, mode);
            let mut parts = plan.rows.clone();
            parts.extend(plan.filters.iter().chain(&plan.scopes).chain(&plan.panes));
            if mode != InputMode::Normal {
                parts.push(plan.popup);
            }
            for part in parts {
                assert!(part.x >= area.x && part.y >= area.y, "{part:?}");
                let (right, bottom) = (
                    u32::from(part.x) + u32::from(part.width),
                    u32::from(part.y) + u32::from(part.height),
                );
                assert!(right <= u32::from(area.x) + u32::from(area.width), "{part:?}");
                assert!(bottom <= u32::from(area.y) + u32::from(area.height), "{part:?}");
            }
        }
    }
}
