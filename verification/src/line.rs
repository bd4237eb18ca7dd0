//! The two line generators.
//!
//! A line is a row of [`SAMPLES`] points, one for each sample of the
//! grid, from the left edge of the window to the right edge.

use vstd::prelude::*;
use crate::fixed::saturated;
use crate::grid::lemma_grid_ends;
use crate::grid::lemma_grid_monotone;
use crate::grid::line_position;
use crate::grid::line_position_exact;
use crate::grid::sample_x;
use crate::grid::sample_x_exact;
use crate::grid::LINES;
use crate::grid::SAMPLES;
use crate::wave::displaced_exact;
use crate::wave::displaced_y;
use crate::window::lemma_window_edges;
use crate::window::lemma_window_monotone;
use crate::window::Point;
use crate::window::Window;

verus! {

/// The points of a plain line: sample `i` sits at its grid x and at the
/// height of its sine, both mapped into the window.
pub open spec fn plain_line_exact(sines: Seq<i32>, win: Window) -> Seq<Point> {
    Seq::new(SAMPLES as nat, |i: int| win.point_at(sample_x_exact(i), sines[i] as int))
}

/// The points of line `line` of a stack of lines: sample `i` sits at its
/// grid x and at the height to which its sine and noise displace it from
/// the line's resting position, both mapped into the window.
pub open spec fn stacked_line_exact(
    sines: Seq<i32>,
    noises: Seq<i32>,
    line: int,
    height: int,
    win: Window,
) -> Seq<Point> {
    Seq::new(
        SAMPLES as nat,
        |i: int|
            win.point_at(
                sample_x_exact(i),
                saturated(
                    displaced_exact(
                        sines[i] as int,
                        noises[i] as int,
                        height,
                        line_position_exact(line),
                    ),
                ),
            ),
    )
}

/// The x coordinates of `points` never decrease from one point to the
/// next.
pub open spec fn runs_rightward(points: Seq<Point>) -> bool {
    forall|i: int, j: int| 0 <= i <= j < points.len() ==> points[i].x <= points[j].x
}

/// A plain line has exactly [`SAMPLES`] points, starts on the left edge
/// of the window and ends on the right edge, and in a window whose left
/// edge is not to the right of its right edge it never turns back.
pub proof fn lemma_plain_line_shape(sines: Seq<i32>, win: Window)
    ensures
        plain_line_exact(sines, win).len() == SAMPLES,
        plain_line_exact(sines, win)[0].x == win.left,
        plain_line_exact(sines, win)[SAMPLES - 1].x == win.right,
        win.left <= win.right ==> runs_rightward(plain_line_exact(sines, win)),
{
    let points = plain_line_exact(sines, win);
    lemma_grid_ends();
    lemma_window_edges(win);
    if win.left <= win.right {
        assert forall|i: int, j: int| 0 <= i <= j < points.len() implies points[i].x
            <= points[j].x by {
            lemma_grid_monotone(i, j);
            lemma_window_monotone(win, sample_x_exact(i), sample_x_exact(j));
        }
    }
}

/// A stacked line has exactly [`SAMPLES`] points, starts on the left
/// edge of the window and ends on the right edge, and in a window whose
/// left edge is not to the right of its right edge it never turns back.
/// This holds for all sines and noise values, every line and every
/// height.
pub proof fn lemma_stacked_line_shape(
    sines: Seq<i32>,
    noises: Seq<i32>,
    line: int,
    height: int,
    win: Window,
)
    ensures
        stacked_line_exact(sines, noises, line, height, win).len() == SAMPLES,
        stacked_line_exact(sines, noises, line, height, win)[0].x == win.left,
        stacked_line_exact(sines, noises, line, height, win)[SAMPLES - 1].x == win.right,
        win.left <= win.right ==> runs_rightward(
            stacked_line_exact(sines, noises, line, height, win),
        ),
{
    let points = stacked_line_exact(sines, noises, line, height, win);
    lemma_grid_ends();
    lemma_window_edges(win);
    if win.left <= win.right {
        assert forall|i: int, j: int| 0 <= i <= j < points.len() implies points[i].x
            <= points[j].x by {
            lemma_grid_monotone(i, j);
            lemma_window_monotone(win, sample_x_exact(i), sample_x_exact(j));
        }
    }
}

/// Generates a plain line from the sine of each sample.
///
/// `sines[i]` is the sine at the angle that
/// [`plain_angle`](crate::wave::plain_angle) names for sample `i`; it is
/// the normalized height of point `i`.
pub fn plain_line(sines: &[i32; SAMPLES], win: &Window) -> (points: Vec<Point>)
    ensures
        points@ == plain_line_exact(sines@, *win),
        points.len() == SAMPLES,
        points[0].x == win.left,
        points[SAMPLES - 1].x == win.right,
        win.left <= win.right ==> runs_rightward(points@),
{
    let mut points: Vec<Point> = Vec::with_capacity(SAMPLES);
    let mut i: usize = 0;
    while i < SAMPLES
        invariant
            i <= SAMPLES,
            points.len() == i,
            forall|k: int|
                0 <= k < i ==> points[k] == win.point_at(sample_x_exact(k), sines[k] as int),
        decreases SAMPLES - i,
    {
        let x = sample_x(i);
        points.push(win.to_window(x, sines[i]));
        i += 1;
    }
    proof {
        assert(points@ =~= plain_line_exact(sines@, *win));
        lemma_plain_line_shape(sines@, *win);
    }
    points
}

/// Generates line `line` of a stack of lines from the sine and the noise
/// of each sample.
///
/// `sines[i]` is the sine at the angle that
/// [`stacked_angle`](crate::wave::stacked_angle) names for sample `i`,
/// `noises[i]` the noise at the place that
/// [`noise_place`](crate::wave::noise_place) names for it. The height
/// may be a constant or follow the pressure on a touchpad.
pub fn stacked_line(
    sines: &[i32; SAMPLES],
    noises: &[i32; SAMPLES],
    line: usize,
    height: i32,
    win: &Window,
) -> (points: Vec<Point>)
    requires
        line < LINES,
    ensures
        points@ == stacked_line_exact(sines@, noises@, line as int, height as int, *win),
        points.len() == SAMPLES,
        points[0].x == win.left,
        points[SAMPLES - 1].x == win.right,
        win.left <= win.right ==> runs_rightward(points@),
{
    let position = line_position(line);
    let mut points: Vec<Point> = Vec::with_capacity(SAMPLES);
    let mut i: usize = 0;
    while i < SAMPLES
        invariant
            i <= SAMPLES,
            points.len() == i,
            position == line_position_exact(line as int),
            forall|k: int|
                0 <= k < i ==> points[k] == win.point_at(
                    sample_x_exact(k),
                    saturated(
                        displaced_exact(
                            sines[k] as int,
                            noises[k] as int,
                            height as int,
                            position as int,
                        ),
                    ),
                ),
        decreases SAMPLES - i,
    {
        let x = sample_x(i);
        let y = displaced_y(sines[i], noises[i], height, position);
        points.push(win.to_window(x, y));
        i += 1;
    }
    proof {
        assert(points@ =~= stacked_line_exact(
            sines@,
            noises@,
            line as int,
            height as int,
            *win,
        ));
        lemma_stacked_line_shape(sines@, noises@, line as int, height as int, *win);
    }
    points
}

} // verus!
