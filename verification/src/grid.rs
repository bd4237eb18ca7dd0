//! Where the samples of a line and the lines of a frame sit in
//! normalized space.

use vstd::prelude::*;
use crate::fixed::lemma_map_range_endpoints;
use crate::fixed::lemma_map_range_monotone;
use crate::fixed::lemma_map_range_within;
use crate::fixed::map_range;
use crate::fixed::map_range_exact;
use crate::fixed::UNIT;

verus! {

/// The number of points in a line.
pub const SAMPLES: usize = 500;

/// The number of lines in a frame of stacked lines.
pub const LINES: usize = 20;

/// Normalized x of the sample at `index`: the samples are spread evenly,
/// the first at minus one and the last at one.
pub open spec fn sample_x_exact(index: int) -> int {
    map_range_exact(index, 0, SAMPLES - 1, -UNIT, UNIT as int)
}

/// Normalized y of the resting position of line `line`: the lines are
/// stacked from the top of the frame downward, line zero at one, each
/// further line a twentieth of the frame's height lower.
pub open spec fn line_position_exact(line: int) -> int {
    map_range_exact(line, 0, LINES as int, UNIT as int, -UNIT)
}

/// Normalized x of the sample at `index`.
pub fn sample_x(index: usize) -> (x: i32)
    requires
        index < SAMPLES,
    ensures
        x == sample_x_exact(index as int),
        -UNIT <= x <= UNIT,
{
    proof {
        lemma_map_range_within(index as int, 0, SAMPLES - 1, -UNIT, UNIT as int);
    }
    map_range(index as i32, 0, (SAMPLES - 1) as i32, -UNIT, UNIT)
}

/// Normalized y of the resting position of line `line`.
pub fn line_position(line: usize) -> (y: i32)
    requires
        line < LINES,
    ensures
        y == line_position_exact(line as int),
        -UNIT < y <= UNIT,
{
    proof {
        lemma_line_spacing(line as int);
    }
    map_range(line as i32, 0, LINES as i32, UNIT, -UNIT)
}

/// The first sample sits at minus one and the last at one.
pub proof fn lemma_grid_ends()
    ensures
        sample_x_exact(0) == -UNIT,
        sample_x_exact(SAMPLES - 1) == UNIT,
{
    lemma_map_range_endpoints(0, SAMPLES - 1, -UNIT, UNIT as int);
}

/// Along the grid, x never decreases.
pub proof fn lemma_grid_monotone(i: int, j: int)
    requires
        i <= j,
    ensures
        sample_x_exact(i) <= sample_x_exact(j),
{
    lemma_map_range_monotone(i, j, 0, SAMPLES - 1, -UNIT, UNIT as int);
}

/// The resting positions are exact: each line rests precisely a tenth of
/// a unit below the one before it.
pub proof fn lemma_line_spacing(line: int)
    ensures
        line_position_exact(line) == UNIT - line * (UNIT / 10),
{
    assert((line * (-UNIT - UNIT)) / (LINES as int) == -line * (UNIT / 10)) by {
        assert(-UNIT - UNIT == -2_000_000);
        assert(line * (-2_000_000) == (-line * 100_000) * 20);
    }
}

} // verus!
