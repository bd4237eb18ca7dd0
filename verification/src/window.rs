//! The mapping from normalized space into a window.

use vstd::prelude::*;
use crate::fixed::lemma_map_range_endpoints;
use crate::fixed::lemma_map_range_monotone;
use crate::fixed::map_range;
use crate::fixed::map_range_exact;
use crate::fixed::saturated;
use crate::fixed::UNIT;

verus! {

/// A point in the window, in the units of the window's edges.
#[derive(Clone, Copy, Debug, PartialEq, Eq, Structural)]
pub struct Point {
    pub x: i32,
    pub y: i32,
}

/// The rectangle that normalized space is mapped onto.
///
/// Normalized x runs from minus one at `left` to one at `right`,
/// normalized y from minus one at `bottom` to one at `top`. The edges may
/// be given in any unit (whole pixels or fractions of them); the points
/// that come out are in the same unit. Any four numbers make a window:
/// an edge may coincide with the opposite one or lie beyond it.
#[derive(Clone, Copy, Debug, PartialEq, Eq, Structural)]
pub struct Window {
    pub left: i32,
    pub right: i32,
    pub bottom: i32,
    pub top: i32,
}

impl Window {
    /// Window x of normalized `x`.
    pub open spec fn x_at(self, x: int) -> int {
        saturated(map_range_exact(x, -UNIT, UNIT as int, self.left as int, self.right as int))
    }

    /// Window y of normalized `y`.
    pub open spec fn y_at(self, y: int) -> int {
        saturated(map_range_exact(y, -UNIT, UNIT as int, self.bottom as int, self.top as int))
    }

    /// The window point of the normalized point `(x, y)`.
    pub open spec fn point_at(self, x: int, y: int) -> Point {
        Point { x: self.x_at(x) as i32, y: self.y_at(y) as i32 }
    }

    /// Maps the normalized point `(x, y)` into the window.
    pub fn to_window(&self, x: i32, y: i32) -> (p: Point)
        ensures
            p == self.point_at(x as int, y as int),
            p.x == self.x_at(x as int),
            p.y == self.y_at(y as int),
    {
        Point {
            x: map_range(x, -UNIT, UNIT, self.left, self.right),
            y: map_range(y, -UNIT, UNIT, self.bottom, self.top),
        }
    }
}

/// The window edges are hit exactly: normalized minus one lands on the
/// left and bottom edges, normalized one on the right and top edges,
/// whatever the edges are.
pub proof fn lemma_window_edges(win: Window)
    ensures
        win.x_at(-UNIT) == win.left,
        win.x_at(UNIT as int) == win.right,
        win.y_at(-UNIT) == win.bottom,
        win.y_at(UNIT as int) == win.top,
{
    lemma_map_range_endpoints(-UNIT, UNIT as int, win.left as int, win.right as int);
    lemma_map_range_endpoints(-UNIT, UNIT as int, win.bottom as int, win.top as int);
}

/// In a window whose left edge is not to the right of its right edge,
/// a point further right in normalized space is never mapped further
/// left; likewise upward where the bottom edge is not above the top
/// edge.
pub proof fn lemma_window_monotone(win: Window, lower: int, upper: int)
    requires
        lower <= upper,
    ensures
        win.left <= win.right ==> win.x_at(lower) <= win.x_at(upper),
        win.bottom <= win.top ==> win.y_at(lower) <= win.y_at(upper),
{
    if win.left <= win.right {
        lemma_map_range_monotone(
            lower,
            upper,
            -UNIT,
            UNIT as int,
            win.left as int,
            win.right as int,
        );
    }
    if win.bottom <= win.top {
        lemma_map_range_monotone(
            lower,
            upper,
            -UNIT,
            UNIT as int,
            win.bottom as int,
            win.top as int,
        );
    }
}

} // verus!
