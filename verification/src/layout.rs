//! Where a pop-up goes: a rectangle in the middle of another.

use vstd::prelude::*;
use ratatui::layout::{Constraint, Layout};

verus! {

/// A rectangle of terminal cells: its top left corner and its size.
#[derive(Clone, Copy, Debug, PartialEq, Eq, Structural)]
pub struct Rect {
    pub x: u16,
    pub y: u16,
    pub width: u16,
    pub height: u16,
}

/// The axis along which a rectangle is cut into parts.
#[derive(Clone, Copy, Debug, PartialEq, Eq, Structural)]
pub enum Direction {
    /// The parts stand side by side.
    Horizontal,
    /// The parts stand one below the other.
    Vertical,
}

impl Rect {
    /// The column right of the last column.
    pub open spec fn right(self) -> int {
        self.x + self.width
    }

    /// The row below the last row.
    pub open spec fn bottom(self) -> int {
        self.y + self.height
    }

    /// Where the rectangle begins along `direction`: its first column when the
    /// parts stand side by side, its first row when they stand one below the other.
    pub open spec fn span_start(self, direction: Direction) -> int {
        match direction {
            Direction::Horizontal => self.x as int,
            Direction::Vertical => self.y as int,
        }
    }

    /// Where the rectangle ends along `direction`: the column right of its last
    /// column, or the row below its last row.
    pub open spec fn span_end(self, direction: Direction) -> int {
        match direction {
            Direction::Horizontal => self.right(),
            Direction::Vertical => self.bottom(),
        }
    }

    /// How many cells along `direction` a layout can hand out: those up to the
    /// last coordinate that 16 bits can name.
    pub open spec fn span_len(self, direction: Direction) -> int {
        if self.span_end(direction) <= u16::MAX {
            self.span_end(direction) - self.span_start(direction)
        } else {
            u16::MAX - self.span_start(direction)
        }
    }

    /// Every cell of `inner` is a cell of this rectangle, or `inner` has none and
    /// lies on the edge.
    pub open spec fn encloses(self, inner: Rect) -> bool {
        &&& self.x <= inner.x
        &&& inner.right() <= self.right()
        &&& self.y <= inner.y
        &&& inner.bottom() <= self.bottom()
    }

    /// `part` can come out of cutting this rectangle along `direction`: across
    /// the cut it spans the rectangle, along it it stays inside.
    pub open spec fn has_part(self, direction: Direction, part: Rect) -> bool {
        match direction {
            Direction::Horizontal => {
                &&& part.y == self.y
                &&& part.height == self.height
                &&& self.x <= part.x
                &&& part.right() <= self.right()
            },
            Direction::Vertical => {
                &&& part.x == self.x
                &&& part.width == self.width
                &&& self.y <= part.y
                &&& part.bottom() <= self.bottom()
            },
        }
    }
}

/// The line between two parts of `area` cut along `direction`, where the parts
/// before it take `percent` percent of the area together: that share of the
/// area's length, rounded to the nearest cell, a half upwards.
pub open spec fn boundary(area: Rect, direction: Direction, percent: int) -> int {
    area.span_start(direction) + (area.span_len(direction) * percent + 50) / 100
}

/// The three parts stand one after the other from the start of `area`, each as
/// long as its share says, between lines rounded to the nearest cell.
pub open spec fn cut_at_shares(
    area: Rect,
    direction: Direction,
    shares: Seq<u16>,
    parts: Seq<Rect>,
) -> bool {
    &&& parts[0].span_start(direction) == boundary(area, direction, 0)
    &&& parts[0].span_end(direction) == boundary(area, direction, shares[0] as int)
    &&& parts[1].span_start(direction) == boundary(area, direction, shares[0] as int)
    &&& parts[1].span_end(direction) == boundary(area, direction, shares[0] + shares[1])
    &&& parts[2].span_start(direction) == boundary(area, direction, shares[0] + shares[1])
    &&& parts[2].span_end(direction) == boundary(
        area,
        direction,
        shares[0] + shares[1] + shares[2],
    )
}

/// The shares, in percent, of the three parts into which a rectangle is cut to
/// leave `percent` of it in the middle: what is left over is halved, rounded
/// down, for the part before and for the part after.
pub open spec fn centering_shares(percent: u16) -> Seq<u16>
    recommends
        percent <= 100,
{
    seq![((100 - percent) / 2) as u16, percent, ((100 - percent) / 2) as u16]
}

/// Computes [`centering_shares`].
pub fn shares_around(percent: u16) -> (shares: [u16; 3])
    requires
        percent <= 100,
    ensures
        shares@ == centering_shares(percent),
{
    let side: u16 = (100 - percent) / 2;
    [side, percent, side]
}

/// Cuts `area` along `direction` into three parts by `Layout::split` of ratatui,
/// with the three shares as percentage constraints and every other setting of the
/// layout at its default: no margin, no spacing, parts aligned to the start.
///
/// Taken on trust:
/// - There are as many parts as constraints.
/// - Across the cut each part has the position and size of `area`; along the cut
///   each part lies inside `area`, which the layout demands of its solver as a
///   required constraint.
/// - Where the shares add up to at most 100, the parts are where
///   [`cut_at_shares`] says. The layout asks for no room before the first part
///   or between parts, and for each part a length of the area's length times its
///   percentage over 100. All of that can hold at once, and the two weaker
///   wishes that then remain, that the parts be equally long and that the room
///   after them span the area, weigh too little to move a part. The layout
///   rounds each line to the nearest cell, a half upwards.
///
/// Of shares that add up to more than 100 the third claim says nothing: the
/// solver then has to give way somewhere, and where is its choice.
#[verifier::external_body]
fn split(direction: Direction, shares: [u16; 3], area: Rect) -> (parts: Vec<Rect>)
    ensures
        parts@.len() == 3,
        forall|i: int| 0 <= i < 3 ==> area.has_part(direction, #[trigger] parts@[i]),
        shares@[0] + shares@[1] + shares@[2] <= 100 ==> cut_at_shares(
            area,
            direction,
            shares@,
            parts@,
        ),
{
    let direction = match direction {
        Direction::Horizontal => ratatui::layout::Direction::Horizontal,
        Direction::Vertical => ratatui::layout::Direction::Vertical,
    };
    let area = ratatui::layout::Rect { x: area.x, y: area.y, width: area.width, height: area.height };
    let layout = Layout::default().direction(direction).constraints(shares.map(Constraint::Percentage));
    let parts = layout.split(area);
    parts.iter().map(|part| Rect { x: part.x, y: part.y, width: part.width, height: part.height }).collect()
}

/// The middle one of three parts.
pub fn middle(parts: &Vec<Rect>) -> (part: Rect)
    requires
        parts@.len() == 3,
    ensures
        part == parts@[1],
{
    parts[1]
}

/// The rectangle in the middle of `rect` that takes `percent_x` percent of its
/// width and `percent_y` percent of its height.
///
/// `rect` is cut into three rows with the shares `centering_shares(percent_y)`,
/// and the middle row into three columns with the shares
/// `centering_shares(percent_x)`; the middle column is the result. On either
/// axis what is left over is halved, rounded down, for the margin before the
/// result, and the result's two edges are the lines after that margin and after
/// margin and share, each rounded to the nearest cell.
pub fn centered_rect(percent_x: u16, percent_y: u16, rect: Rect) -> (popup: Rect)
    requires
        percent_x <= 100,
        percent_y <= 100,
    ensures
        rect.encloses(popup),
        popup.x == boundary(rect, Direction::Horizontal, (100 - percent_x) / 2),
        popup.x + popup.width == boundary(
            rect,
            Direction::Horizontal,
            (100 - percent_x) / 2 + percent_x,
        ),
        popup.y == boundary(rect, Direction::Vertical, (100 - percent_y) / 2),
        popup.y + popup.height == boundary(
            rect,
            Direction::Vertical,
            (100 - percent_y) / 2 + percent_y,
        ),
{
    let rows = split(Direction::Vertical, shares_around(percent_y), rect);
    let band = middle(&rows);
    assert(rect.has_part(Direction::Vertical, band));
    let columns = split(Direction::Horizontal, shares_around(percent_x), band);
    let popup = middle(&columns);
    assert(band.has_part(Direction::Horizontal, popup));
    assert(band.span_len(Direction::Horizontal) == rect.span_len(Direction::Horizontal));
    popup
}

} // verus!
