//! A whole frame of stacked lines, and the order in which it is drawn.
//!
//! The lines are drawn from the top of the frame downward. Each line is
//! first filled, which blots out the part of the earlier lines that it
//! overlaps, and then stroked.

use vstd::prelude::*;
use crate::grid::LINES;
use crate::grid::SAMPLES;
use crate::line::runs_rightward;
use crate::line::stacked_line;
use crate::line::stacked_line_exact;
use crate::window::Point;
use crate::window::Window;

verus! {

/// One step of drawing a frame.
#[derive(Clone, Copy, Debug, PartialEq, Eq, Structural)]
pub enum DrawStep {
    /// Cover the whole frame with the background colour.
    Clear,
    /// Fill the polygon through the points of the given line with the
    /// background colour.
    Fill(usize),
    /// Stroke the open path through the points of the given line with
    /// the foreground colour, with round joins and round caps.
    Stroke(usize),
    /// Hand the finished frame over to be shown.
    Present,
}

/// The step at place `k` of the drawing order.
///
/// The frame is cleared once, at the start. Then the lines take their
/// turns in order, each one filled and then stroked. The frame is
/// handed over at the very end.
pub open spec fn step_at(k: int) -> DrawStep {
    if k <= 0 {
        DrawStep::Clear
    } else if k > 2 * LINES {
        DrawStep::Present
    } else if k % 2 == 1 {
        DrawStep::Fill(((k - 1) / 2) as usize)
    } else {
        DrawStep::Stroke(((k - 2) / 2) as usize)
    }
}

/// The drawing order of a frame.
pub open spec fn draw_order_exact() -> Seq<DrawStep> {
    Seq::new((2 * LINES + 2) as nat, |k: int| step_at(k))
}

/// The points of all lines of a frame: line `l` is generated from the
/// sines, which all lines share, and from row `l` of the noise.
pub open spec fn stacked_frame_exact(
    sines: Seq<i32>,
    noises: Seq<[i32; SAMPLES]>,
    height: int,
    win: Window,
) -> Seq<Seq<Point>> {
    Seq::new(LINES as nat, |l: int| stacked_line_exact(sines, noises[l]@, l, height, win))
}

/// The points of the lines in `lines`, line by line.
pub open spec fn points_of(lines: Seq<Vec<Point>>) -> Seq<Seq<Point>> {
    Seq::new(lines.len(), |l: int| lines[l]@)
}

/// Lists the steps of drawing a frame, in order.
pub fn draw_order() -> (steps: Vec<DrawStep>)
    ensures
        steps@ == draw_order_exact(),
{
    let mut steps: Vec<DrawStep> = Vec::with_capacity(2 * LINES + 2);
    steps.push(DrawStep::Clear);
    let mut line: usize = 0;
    while line < LINES
        invariant
            line <= LINES,
            steps.len() == 2 * line + 1,
            forall|k: int| 0 <= k < steps.len() ==> steps[k] == step_at(k),
        decreases LINES - line,
    {
        steps.push(DrawStep::Fill(line));
        steps.push(DrawStep::Stroke(line));
        line += 1;
    }
    steps.push(DrawStep::Present);
    assert(steps@ =~= draw_order_exact());
    steps
}

/// Generates all lines of a frame, all with the same height.
///
/// The sines depend on the sample alone and are shared by all lines;
/// `noises[l]` holds the noise of line `l`.
pub fn stacked_frame(
    sines: &[i32; SAMPLES],
    noises: &[[i32; SAMPLES]; LINES],
    height: i32,
    win: &Window,
) -> (lines: Vec<Vec<Point>>)
    ensures
        points_of(lines@) == stacked_frame_exact(sines@, noises@, height as int, *win),
        lines.len() == LINES,
        forall|l: int| 0 <= l < LINES ==> (#[trigger] lines[l]).len() == SAMPLES,
        win.left <= win.right ==> forall|l: int|
            0 <= l < LINES ==> runs_rightward((#[trigger] lines[l])@),
{
    let mut lines: Vec<Vec<Point>> = Vec::with_capacity(LINES);
    let mut line: usize = 0;
    while line < LINES
        invariant
            line <= LINES,
            lines.len() == line,
            forall|l: int|
                0 <= l < line ==> (#[trigger] lines[l])@ == stacked_line_exact(
                    sines@,
                    noises[l]@,
                    l,
                    height as int,
                    *win,
                ),
            win.left <= win.right ==> forall|l: int|
                0 <= l < line ==> runs_rightward((#[trigger] lines[l])@),
        decreases LINES - line,
    {
        let points = stacked_line(sines, &noises[line], line, height, win);
        lines.push(points);
        line += 1;
    }
    assert(points_of(lines@) =~= stacked_frame_exact(sines@, noises@, height as int, *win));
    lines
}

} // verus!
