//! Areas split into rows.

use vstd::prelude::*;

use super::canvas::Rect;

verus! {

/// How high a row is to be.
#[derive(Debug, Clone, Copy, PartialEq, Eq, Structural)]
pub enum RowSize {
    Length(u16),
    /// At least so high, and as high as there is room for.
    Min(u16),
    Percentage(u16),
}

/// How high the rows of fixed height are together.
pub open spec fn fixed_height(rows: Seq<RowSize>) -> int
    decreases rows.len(),
{
    if rows.len() == 0 {
        0
    } else {
        fixed_height(rows.drop_last()) + (match rows.last() {
            RowSize::Length(n) => n as int,
            _ => 0,
        })
    }
}

/// All rows have fixed heights but the one at `at`, which takes what they leave.
pub open spec fn one_takes_the_rest(rows: Seq<RowSize>, at: int) -> bool {
    &&& 0 <= at < rows.len()
    &&& rows[at] == RowSize::Min(0)
    &&& forall|i: int| 0 <= i < rows.len() && i != at ==> (#[trigger] rows[i]) is Length
}

/// How high the row at `i` is, where the one at `at` takes what the others leave.
pub open spec fn exact_height(rows: Seq<RowSize>, at: int, height: int, i: int) -> int {
    if i == at {
        height - fixed_height(rows)
    } else {
        rows[i]->Length_0 as int
    }
}

/// `r` is as wide as `area` and lies in it.
pub open spec fn is_row_of(r: Rect, area: Rect) -> bool {
    &&& r.x == area.x
    &&& r.width == area.width
    &&& area.y <= r.y
    &&& r.y + r.height <= area.y + area.height
}

/// All rows are hundredths, and no more than there are.
pub open spec fn are_shares(rows: Seq<RowSize>) -> bool {
    &&& forall|i: int| 0 <= i < rows.len() ==> (#[trigger] rows[i]) is Percentage
    &&& share_sum(rows) <= 100
}

/// The hundredths together.
pub open spec fn share_sum(rows: Seq<RowSize>) -> int
    decreases rows.len(),
{
    if rows.len() == 0 {
        0
    } else {
        share_sum(rows.drop_last()) + rows.last()->Percentage_0
    }
}

/// Splits `area` into rows, from top to bottom.
///
/// `ratatui::layout::Layout::vertical(..).split(..)` gives one rectangle for each row, as wide as
/// the area and in it. Where all rows but one have fixed heights that leave room, each has its
/// height, they follow each other, and the one that is left takes the rest. Where the rows are
/// shares of the area, they follow each other too, and each is its share high, to within one. Which
/// way a share is rounded, and what the solver does with heights that do not fit, is left open.
#[verifier::external_body]
pub(crate) fn split_rows(area: Rect, rows: &Vec<RowSize>) -> (r: Vec<Rect>)
    requires
        area.counts(),
        1 <= rows@.len() <= 3,
    ensures
        r@.len() == rows@.len(),
        forall|i: int| 0 <= i < r@.len() ==> is_row_of(#[trigger] r@[i], area),
        forall|at: int, i: int|
            #![trigger one_takes_the_rest(rows@, at), r@[i]]
            one_takes_the_rest(rows@, at) && fixed_height(rows@) <= area.height && 0 <= i
                < r@.len() ==> r@[i].height == exact_height(rows@, at, area.height as int, i)
                && r@[i].y == (if i == 0 {
                area.y as int
            } else {
                r@[i - 1].y + r@[i - 1].height
            }),
        are_shares(rows@) ==> forall|i: int|
            0 <= i < r@.len() ==> (#[trigger] r@[i]).y == (if i == 0 {
                area.y as int
            } else {
                r@[i - 1].y + r@[i - 1].height
            }),
        are_shares(rows@) ==> forall|i: int|
            0 <= i < r@.len() ==> -100 <= 100 * (#[trigger] r@[i]).height - area.height
                * rows@[i]->Percentage_0 <= 100,
{
    let sizes: Vec<ratatui::layout::Constraint> = rows.iter().map(|row| match row {
        RowSize::Length(n) => ratatui::layout::Constraint::Length(*n),
        RowSize::Min(n) => ratatui::layout::Constraint::Min(*n),
        RowSize::Percentage(n) => ratatui::layout::Constraint::Percentage(*n),
    }).collect();
    let outer = ratatui::layout::Rect::new(area.x, area.y, area.width, area.height);
    let split = ratatui::layout::Layout::vertical(sizes).split(outer);
    split.iter().map(|s| Rect { x: s.x, y: s.y, width: s.width, height: s.height }).collect()
}

/// What is between a row at the top and a row at the bottom.
pub fn between(area: Rect, top: u16, bottom: u16) -> (r: Rect)
    requires
        area.counts(),
        top + bottom <= area.height,
    ensures
        r == (Rect {
            x: area.x,
            y: (area.y + top) as u16,
            width: area.width,
            height: (area.height - top - bottom) as u16,
        }),
{
    let sizes = vec![RowSize::Length(top), RowSize::Min(0), RowSize::Length(bottom)];
    let rows = split_rows(area, &sizes);
    proof {
        reveal_with_fuel(fixed_height, 4);
        assert(sizes@.drop_last().drop_last().drop_last().len() == 0);
        assert(one_takes_the_rest(sizes@, 1));
        assert(rows@[0].height == exact_height(sizes@, 1, area.height as int, 0));
        assert(rows@[1].height == exact_height(sizes@, 1, area.height as int, 1));
    }
    rows[1]
}

/// The topmost rows.
pub fn topmost(area: Rect, top: u16) -> (r: Rect)
    requires
        area.counts(),
        top <= area.height,
    ensures
        r == (Rect { height: top, ..area }),
{
    let sizes = vec![RowSize::Length(top), RowSize::Min(0)];
    let rows = split_rows(area, &sizes);
    proof {
        reveal_with_fuel(fixed_height, 3);
        assert(sizes@.drop_last().drop_last().len() == 0);
        assert(one_takes_the_rest(sizes@, 1));
        assert(rows@[0].height == exact_height(sizes@, 1, area.height as int, 0));
    }
    rows[0]
}

/// All rows.
pub fn whole(area: Rect) -> (r: Rect)
    requires
        area.counts(),
    ensures
        r == area,
{
    let sizes = vec![RowSize::Min(0)];
    let rows = split_rows(area, &sizes);
    proof {
        reveal_with_fuel(fixed_height, 2);
        assert(sizes@.drop_last().len() == 0);
        assert(one_takes_the_rest(sizes@, 0));
        assert(rows@[0].height == exact_height(sizes@, 0, area.height as int, 0));
    }
    rows[0]
}

/// `r` is the middle of `area`: a fifth of the height below its top and three fifths high, each to
/// within one.
pub open spec fn is_middle_of(r: Rect, area: Rect) -> bool {
    &&& is_row_of(r, area)
    &&& -100 <= 100 * (r.y - area.y) - 20 * area.height <= 100
    &&& -100 <= 100 * r.height - 60 * area.height <= 100
}

/// The middle, between a fifth above and a fifth below.
pub fn middle(area: Rect) -> (r: Rect)
    requires
        area.counts(),
    ensures
        is_middle_of(r, area),
{
    let sizes = vec![RowSize::Percentage(20), RowSize::Percentage(60), RowSize::Percentage(20)];
    let rows = split_rows(area, &sizes);
    proof {
        reveal_with_fuel(share_sum, 4);
        assert(sizes@.drop_last().drop_last().drop_last().len() == 0);
        assert(are_shares(sizes@));
        assert(is_row_of(rows@[1], area));
        assert(rows@[1].y == rows@[0].y + rows@[0].height);
    }
    rows[1]
}

} // verus!
