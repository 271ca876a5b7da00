//! Rectangles of terminal cells, and how they are divided.

use ratatui::layout::{Constraint as Wanted, Direction as Axis, Layout, Rect as Cells};
use vstd::prelude::*;

verus! {

/// A rectangle of cells.
#[derive(Debug, Clone, Copy, PartialEq, Eq)]
pub struct Rect {
    pub x: u16,
    pub y: u16,
    pub width: u16,
    pub height: u16,
}

/// A cell.
#[derive(Debug, Clone, Copy, PartialEq, Eq)]
pub struct Position {
    pub x: u16,
    pub y: u16,
}

/// How the parts of a division lie: side by side, or one below the other.
#[derive(Debug, Clone, Copy, PartialEq, Eq)]
pub enum Direction {
    Horizontal,
    Vertical,
}

/// The size that a part of a division asks for.
#[derive(Debug, Clone, Copy, PartialEq, Eq)]
pub enum Constraint {
    Length(u16),
    Min(u16),
    Percentage(u16),
}

/// `a + b`, but no more than the largest coordinate.
pub open spec fn saturating_sum(a: u16, b: u16) -> u16 {
    if a + b > u16::MAX {
        u16::MAX
    } else {
        (a + b) as u16
    }
}

impl Rect {
    /// The rectangle without cells.
    #[verifier::allow_in_spec]
    pub fn zero() -> Rect
        returns
            (Rect { x: 0, y: 0, width: 0, height: 0 }),
    {
        Rect { x: 0, y: 0, width: 0, height: 0 }
    }

    /// Whether a cell lies in the rectangle.
    pub open spec fn covers(self, column: u16, row: u16) -> bool {
        &&& self.x <= column < saturating_sum(self.x, self.width)
        &&& self.y <= row < saturating_sum(self.y, self.height)
    }

    /// Where the rectangle starts along a direction.
    pub open spec fn start(self, direction: Direction) -> int {
        match direction {
            Direction::Horizontal => self.x as int,
            Direction::Vertical => self.y as int,
        }
    }

    /// Where the rectangle ends along a direction.
    pub open spec fn end(self, direction: Direction) -> int {
        match direction {
            Direction::Horizontal => self.x + self.width,
            Direction::Vertical => self.y + self.height,
        }
    }

    /// Where the rectangle ends along a direction, or the last coordinate.
    pub open spec fn limit(self, direction: Direction) -> int {
        match direction {
            Direction::Horizontal => saturating_sum(self.x, self.width) as int,
            Direction::Vertical => saturating_sum(self.y, self.height) as int,
        }
    }

    /// Where the rectangle starts, and how large it is, across a direction.
    pub open spec fn across(self, direction: Direction) -> (u16, u16) {
        match direction {
            Direction::Horizontal => (self.y, self.height),
            Direction::Vertical => (self.x, self.width),
        }
    }

    /// Whether the rectangle ends before the last coordinate.
    pub open spec fn bounded(self) -> bool {
        self.x + self.width <= u16::MAX && self.y + self.height <= u16::MAX
    }

    /// Whether another rectangle does not reach out of this one.
    pub open spec fn holds(self, part: Rect) -> bool {
        &&& self.x <= part.x
        &&& part.x + part.width <= self.x + self.width
        &&& self.y <= part.y
        &&& part.y + part.height <= self.y + self.height
    }

    /// The rectangle without a margin on each side; nothing is left where the
    /// margins meet.
    pub open spec fn inner(self, margin: u16) -> Rect {
        let double = saturating_sum(margin, margin);
        if self.width < double || self.height < double {
            Rect::zero()
        } else {
            Rect {
                x: saturating_sum(self.x, margin),
                y: saturating_sum(self.y, margin),
                width: (self.width - double) as u16,
                height: (self.height - double) as u16,
            }
        }
    }
}

impl Default for Rect {
    fn default() -> (r: Rect)
        ensures
            r == Rect::zero(),
    {
        Rect::zero()
    }
}

/// Whether a cell lies in a rectangle.
pub fn rect_contains(rect: Rect, column: u16, row: u16) -> (r: bool)
    ensures
        r == rect.covers(column, row),
{
    column >= rect.x && column < rect.x.saturating_add(rect.width) && row >= rect.y && row
        < rect.y.saturating_add(rect.height)
}

/// What the fixed lengths among the first `n` constraints come to.
pub open spec fn fixed_before(constraints: Seq<Constraint>, n: nat) -> nat
    decreases n,
{
    if n == 0 {
        0
    } else {
        fixed_before(constraints, (n - 1) as nat) + match constraints[n - 1] {
            Constraint::Length(length) => length as nat,
            _ => 0nat,
        }
    }
}

/// How many of the first `n` constraints are minimums.
pub open spec fn minimums_before(constraints: Seq<Constraint>, n: nat) -> nat
    decreases n,
{
    if n == 0 {
        0
    } else {
        minimums_before(constraints, (n - 1) as nat) + match constraints[n - 1] {
            Constraint::Min(_) => 1nat,
            _ => 0nat,
        }
    }
}

/// What the minimums among the first `n` constraints come to.
pub open spec fn least_before(constraints: Seq<Constraint>, n: nat) -> nat
    decreases n,
{
    if n == 0 {
        0
    } else {
        least_before(constraints, (n - 1) as nat) + match constraints[n - 1] {
            Constraint::Min(least) => least as nat,
            _ => 0nat,
        }
    }
}

/// What the percentages among the first `n` constraints come to.
pub open spec fn percent_before(constraints: Seq<Constraint>, n: nat) -> nat
    decreases n,
{
    if n == 0 {
        0
    } else {
        percent_before(constraints, (n - 1) as nat) + match constraints[n - 1] {
            Constraint::Percentage(percent) => percent as nat,
            _ => 0nat,
        }
    }
}

/// What fixed lengths leave of `size` to the minimums.
pub open spec fn rest_of(constraints: Seq<Constraint>, size: nat) -> int {
    size - fixed_before(constraints, constraints.len())
}

/// Whether the constraints are fixed lengths and minimums, and at least one is a
/// minimum.
pub open spec fn has_lengths(constraints: Seq<Constraint>) -> bool {
    &&& minimums_before(constraints, constraints.len()) >= 1
    &&& forall|i: int| 0 <= i < constraints.len() ==> !(#[trigger] constraints[i] is Percentage)
}

/// Whether there is too little room for lengths and minimums together, and none
/// of the minimums has to compete with another.
pub open spec fn lengths_crowded(constraints: Seq<Constraint>, size: nat) -> bool {
    let count = constraints.len();
    &&& fixed_before(constraints, count) + least_before(constraints, count) > size
    &&& least_before(constraints, count) <= size || minimums_before(constraints, count) == 1
}

/// Whether the constraints are fixed lengths with one minimum or two, and even
/// shares of what the lengths leave are as large as the minimums ask.
pub open spec fn lengths_fit(constraints: Seq<Constraint>, size: nat) -> bool {
    let minimums = minimums_before(constraints, constraints.len());
    &&& 1 <= minimums <= 2
    &&& rest_of(constraints, size) >= 0
    &&& forall|i: int|
        0 <= i < constraints.len() ==> match #[trigger] constraints[i] {
            Constraint::Length(_) => true,
            Constraint::Min(least) => minimums * least <= rest_of(constraints, size),
            Constraint::Percentage(_) => false,
        }
}

/// Where part `i` starts if `lengths_fit`: the lengths are kept, and the
/// minimums share the rest evenly.
pub open spec fn length_edge(constraints: Seq<Constraint>, size: nat, i: nat) -> int {
    let minimums = minimums_before(constraints, constraints.len());
    fixed_before(constraints, i) + (minimums_before(constraints, i) * rest_of(constraints, size)
        + minimums / 2) / minimums as int
}

/// Whether the constraints are percentages of no more than the whole.
pub open spec fn percentages_fit(constraints: Seq<Constraint>) -> bool {
    &&& percent_before(constraints, constraints.len()) <= 100
    &&& forall|i: int| 0 <= i < constraints.len() ==> #[trigger] constraints[i] is Percentage
}

/// Where part `i` starts if `percentages_fit`, rounded to a cell.
pub open spec fn percent_edge(constraints: Seq<Constraint>, size: nat, i: nat) -> nat {
    (size * percent_before(constraints, i) + 50) / 100
}

/// Whether a division is made among such constraints: few, and lengths with
/// minimums, or percentages that fit.
pub open spec fn may_ask(constraints: Seq<Constraint>) -> bool {
    &&& constraints.len() <= 6
    &&& has_lengths(constraints) || percentages_fit(constraints)
    &&& forall|i: int|
        0 <= i < constraints.len() ==> (#[trigger] constraints[i] matches Constraint::Min(least)
            ==> least <= i16::MAX)
}

/// Whether `parts` are what a division of `area` inside a margin can leave. They
/// follow each other from its start without gap or overlap, reach no further
/// than its end, and are as large across as it is. Where all that is asked for
/// can be had, each part has its size. Minimums go before lengths: they fill the
/// area to its end, have what they ask for while they can all have it, and have
/// no more where lengths are short of room.
pub open spec fn divides(
    parts: Seq<Rect>,
    direction: Direction,
    margin: u16,
    constraints: Seq<Constraint>,
    area: Rect,
) -> bool {
    let whole = area.inner(margin);
    let start = whole.start(direction);
    let size = (whole.limit(direction) - start) as nat;
    &&& parts.len() == constraints.len()
    &&& parts.len() > 0 ==> parts[0].start(direction) == start
    &&& forall|i: int, j: int|
        #![trigger parts[i], parts[j]]
        0 <= i < parts.len() && j == i + 1 && j < parts.len() ==> parts[j].start(direction)
            == parts[i].end(direction)
    &&& forall|i: int|
        0 <= i < parts.len() ==> {
            &&& start <= (#[trigger] parts[i]).start(direction)
            &&& parts[i].end(direction) <= start + size
            &&& whole.across(direction) == parts[i].across(direction)
        }
    &&& has_lengths(constraints) ==> parts.last().end(direction) == start + size
    &&& has_lengths(constraints) && least_before(constraints, constraints.len()) <= size
        ==> forall|i: int|
        0 <= i < parts.len() && constraints[i] is Min ==> (#[trigger] parts[i]).end(direction)
            - parts[i].start(direction) >= constraints[i]->Min_0
    &&& has_lengths(constraints) && lengths_crowded(constraints, size) ==> forall|i: int|
        0 <= i < parts.len() && constraints[i] is Min ==> (#[trigger] parts[i]).end(direction)
            - parts[i].start(direction) == if constraints[i]->Min_0 < size {
            constraints[i]->Min_0 as int
        } else {
            size as int
        }
    &&& lengths_fit(constraints, size) ==> forall|i: int|
        0 <= i < parts.len() ==> {
            &&& (#[trigger] parts[i]).start(direction) == start + length_edge(
                constraints,
                size,
                i as nat,
            )
            &&& parts[i].end(direction) == start + length_edge(constraints, size, (i + 1) as nat)
        }
    &&& percentages_fit(constraints) ==> forall|i: int|
        0 <= i < parts.len() ==> {
            &&& (#[trigger] parts[i]).start(direction) == start + percent_edge(
                constraints,
                size,
                i as nat,
            )
            &&& parts[i].end(direction) == start + percent_edge(constraints, size, (i + 1) as nat)
        }
}

/// Whether a division of `area` inside a margin among `constraints` may come out
/// as `parts`.
pub uninterp spec fn may_split(
    direction: Direction,
    margin: u16,
    constraints: Seq<Constraint>,
    area: Rect,
    parts: Seq<Rect>,
) -> bool;

/// `ratatui::layout::Layout::split` divides an area inside a margin among a few
/// constraints: lengths and minimums, or percentages of no more than the whole.
/// By default it aligns the parts to the start and leaves neither spacing nor
/// overlap, and it meets all constraints where they can all be met: a length is
/// the size of its part, a percentage is rounded to cells, and minimums grow
/// evenly, to the end of the area. A minimum has priority over a length; it is
/// taken as a number of sixteen bits with a sign. Which of several lengths, or
/// of several minimums, gives way for lack of room is left open: the solver
/// walks hash maps, and one call may settle it otherwise than the next.
#[verifier::external_body]
pub(crate) fn split(
    direction: Direction,
    margin: u16,
    constraints: &Vec<Constraint>,
    area: Rect,
) -> (r: Vec<Rect>)
    requires
        may_ask(constraints@),
    ensures
        may_split(direction, margin, constraints@, area, r@),
        divides(r@, direction, margin, constraints@, area),
{
    let axis = match direction {
        Direction::Horizontal => Axis::Horizontal,
        Direction::Vertical => Axis::Vertical,
    };
    let wanted = constraints.iter().map(|c| match c {
        Constraint::Length(n) => Wanted::Length(*n),
        Constraint::Min(n) => Wanted::Min(*n),
        Constraint::Percentage(n) => Wanted::Percentage(*n),
    });
    let cells = Cells { x: area.x, y: area.y, width: area.width, height: area.height };
    let plan = Layout::default().direction(axis).margin(margin).constraints(wanted);
    let parts = plan.split(cells);
    parts.iter().map(|p| Rect { x: p.x, y: p.y, width: p.width, height: p.height }).collect()
}

/// Whether `parts` come from a division of `area` inside a margin among
/// `constraints`.
pub open spec fn divided(
    direction: Direction,
    margin: u16,
    constraints: Seq<Constraint>,
    area: Rect,
    parts: Seq<Rect>,
) -> bool {
    &&& may_split(direction, margin, constraints, area, parts)
    &&& divides(parts, direction, margin, constraints, area)
}

/// The heights that put a row of some height in the middle.
pub open spec fn middle_row(height: u16) -> Seq<Constraint> {
    seq![Constraint::Min(1), Constraint::Length(height), Constraint::Min(1)]
}

/// The widths that put a column of some percentage in the middle.
pub open spec fn middle_column(width_percent: u16) -> Seq<Constraint> {
    let side = ((100 - width_percent) / 2) as u16;
    seq![
        Constraint::Percentage(side),
        Constraint::Percentage(width_percent),
        Constraint::Percentage(side),
    ]
}

/// Whether centring in `area` may come out as `part`: the middle of the middle
/// row.
pub open spec fn may_center(width_percent: u16, height: u16, area: Rect, part: Rect) -> bool {
    exists|rows: Seq<Rect>, columns: Seq<Rect>|
        #![trigger
            divided(Direction::Vertical, 0, middle_row(height), area, rows),
            divided(Direction::Horizontal, 0, middle_column(width_percent), rows[1], columns)]
        {
            &&& divided(Direction::Vertical, 0, middle_row(height), area, rows)
            &&& divided(Direction::Horizontal, 0, middle_column(width_percent), rows[1], columns)
            &&& part == columns[1]
        }
}

/// The middle of `area`: as wide as a percentage of it, and some rows high, but
/// for a row above and one below. A cell that cannot be halved is left on the
/// near side.
pub open spec fn middle_of(width_percent: u16, height: u16, area: Rect) -> Rect {
    let side = (100 - width_percent) / 2;
    let left = (area.width * side + 50) / 100;
    let right = (area.width * (side + width_percent) + 50) / 100;
    let rows = if height + 2 <= area.height {
        height as int
    } else {
        area.height - 2
    };
    Rect {
        x: (area.x + left) as u16,
        y: (area.y + (area.height - rows + 1) / 2) as u16,
        width: (right - left) as u16,
        height: rows as u16,
    }
}

/// The part in the middle of an area that is some rows high and as wide as a
/// percentage of the area.
pub fn centered_rect(width_percent: u16, height: u16, area: Rect) -> (r: Rect)
    requires
        width_percent <= 100,
    ensures
        may_center(width_percent, height, area, r),
        area.holds(r),
        area.bounded() && area.height >= 2 ==> r == middle_of(width_percent, height, area),
{
    proof {
        lemma_middle_asked(width_percent, height);
    }
    let heights = vec![Constraint::Min(1), Constraint::Length(height), Constraint::Min(1)];
    assert(heights@ =~= middle_row(height));
    let rows = split(Direction::Vertical, 0, &heights, area);
    let side: u16 = (100 - width_percent) / 2;
    let widths = vec![
        Constraint::Percentage(side),
        Constraint::Percentage(width_percent),
        Constraint::Percentage(side),
    ];
    assert(widths@ =~= middle_column(width_percent));
    let columns = split(Direction::Horizontal, 0, &widths, rows[1]);
    proof {
        lemma_middle(width_percent, height, area, rows@, columns@);
    }
    columns[1]
}

/// Both divisions that centring makes can be asked for.
proof fn lemma_middle_asked(width_percent: u16, height: u16)
    requires
        width_percent <= 100,
    ensures
        may_ask(middle_row(height)),
        may_ask(middle_column(width_percent)),
{
    reveal_with_fuel(minimums_before, 4);
    reveal_with_fuel(percent_before, 4);
}

/// Where the middle of the middle row lies.
#[verifier::spinoff_prover]
#[verifier::rlimit(60)]
pub(crate) proof fn lemma_middle(
    width_percent: u16,
    height: u16,
    area: Rect,
    rows: Seq<Rect>,
    columns: Seq<Rect>,
)
    requires
        width_percent <= 100,
        divided(Direction::Vertical, 0, middle_row(height), area, rows),
        divided(Direction::Horizontal, 0, middle_column(width_percent), rows[1], columns),
    ensures
        area.holds(columns[1]),
        area.bounded() && area.height >= 2 ==> columns[1] == middle_of(
            width_percent,
            height,
            area,
        ),
{
    reveal_with_fuel(fixed_before, 4);
    reveal_with_fuel(minimums_before, 4);
    reveal_with_fuel(least_before, 4);
    reveal_with_fuel(percent_before, 4);
    assert(area.holds(rows[1]));
    if area.bounded() {
        assert(percentages_fit(middle_column(width_percent)));
        if height + 2 <= area.height {
            let (heights, size) = (middle_row(height), area.height as nat);
            let rest = rest_of(heights, size);
            assert(lengths_fit(heights, size));
            assert(minimums_before(heights, 1) * rest == rest) by (nonlinear_arith)
                requires
                    minimums_before(heights, 1) == 1,
            ;
            assert(length_edge(heights, size, 1) == (area.height - height + 1) / 2);
            assert(length_edge(heights, size, 2) == height + length_edge(heights, size, 1));
            assert(rows[1].y == area.y + (area.height - height + 1) / 2);
            assert(rows[1].height == height);
        } else if area.height >= 2 {
            assert(has_lengths(middle_row(height)));
            assert(lengths_crowded(middle_row(height), area.height as nat));
            assert(rows[0].end(Direction::Vertical) == area.y + 1);
            assert(rows[2].start(Direction::Vertical) == area.y + area.height - 1);
            assert(rows[1].y == area.y + 1);
            assert(rows[1].height == area.height - 2);
        }
    }
}

} // verus!
