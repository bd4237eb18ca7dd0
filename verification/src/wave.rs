//! Where the waves are evaluated, and how a wave displaces a point.
//!
//! There are two kinds of line. A plain line is one sine wave that
//! travels with time. A stacked line is a standing sine wave whose
//! height at every point is scaled by coherent noise, sampled at a place
//! that drifts sideways with time; what falls below zero or rises above
//! one is cut off before the line's own height is applied.
//!
//! The sines and the noise are evaluated by the caller, at the angles
//! and places that the functions here name.

use vstd::prelude::*;
use crate::fixed::clamped;
use crate::fixed::lemma_times_monotone;
use crate::fixed::lemma_times_unit;
use crate::fixed::lemma_times_within;
use crate::fixed::saturate;
use crate::fixed::saturate_long;
use crate::fixed::saturated;
use crate::fixed::saturated_long;
use crate::fixed::times;
use crate::fixed::times_exact;
use crate::fixed::UNIT;

verus! {

/// The ratio of a circle's circumference to its diameter, to the nearest
/// fixed-point step.
pub const PI: i32 = 3_141_593;

/// The angle, in radians, of the plain wave at normalized `x` at `time`:
/// half a turn across each unit of x, shifted by the time.
pub open spec fn plain_angle_exact(x: int, time: int) -> int {
    time + times_exact(x, PI as int)
}

/// The angle, in radians, of the standing wave of a stacked line at
/// normalized `x`: half a turn across each unit of x.
pub open spec fn stacked_angle_exact(x: int) -> int {
    times_exact(x, PI as int)
}

/// Normalized y of a point of a stacked line: the sine scaled by the
/// noise, cut off below zero and above one, scaled by the line's height
/// and added to the line's resting position.
pub open spec fn displaced_exact(sine: int, noise: int, height: int, position: int) -> int {
    position + times_exact(clamped(times_exact(sine, noise), 0, UNIT as int), height)
}

/// The angle at which the sine of the plain wave is taken, for the
/// sample at normalized `x` at `time`.
///
/// At the centre of normalized space the angle is the time itself.
pub fn plain_angle(x: i32, time: i64) -> (angle: i64)
    ensures
        angle == saturated_long(plain_angle_exact(x as int, time as int)),
        x == 0 ==> angle == time,
{
    proof {
        lemma_times_unit(PI as int);
    }
    saturate_long(time as i128 + times(x, PI) as i128)
}

/// The angle at which the sine of a stacked line is taken, for the
/// sample at normalized `x`.
///
/// Across normalized space, from minus one to one, the angle runs from
/// minus half a turn to half a turn.
pub fn stacked_angle(x: i32) -> (angle: i32)
    ensures
        angle == saturated(stacked_angle_exact(x as int)),
        -UNIT <= x <= UNIT ==> -PI <= angle <= PI,
{
    proof {
        lemma_times_unit(PI as int);
        if -UNIT <= x <= UNIT {
            lemma_times_monotone(-UNIT, x as int, PI as int);
            lemma_times_monotone(x as int, UNIT as int, PI as int);
        }
    }
    saturate(times(x, PI) as i128)
}

/// The place in the noise field that is sampled for the point at
/// normalized `x` of the line that rests at `position`, at `time`: the
/// field is read along the line's resting position and slides past it
/// with time.
pub fn noise_place(x: i32, position: i32, time: i64) -> (place: (i64, i32))
    ensures
        place.0 == saturated_long(x + time),
        place.1 == position,
{
    (saturate_long(x as i128 + time as i128), position)
}

/// Normalized y of a point of a stacked line, before it is mapped into
/// the window.
///
/// Whatever the sine and the noise are, the point stays within `height`
/// of the line's resting position, and for a height that is not negative
/// it never falls below that position.
pub fn displaced_y(sine: i32, noise: i32, height: i32, position: i32) -> (y: i32)
    ensures
        y == saturated(displaced_exact(sine as int, noise as int, height as int, position as int)),
        height >= 0 ==> position - height <= y <= position + height,
        height >= 0 ==> position <= y,
        height <= 0 ==> position + height <= y <= position,
{
    let wave: i64 = times(sine, noise);
    let factor: i32 = if wave < 0 {
        0
    } else if wave > UNIT as i64 {
        UNIT
    } else {
        wave as i32
    };
    proof {
        lemma_times_within(factor as int, height as int);
    }
    saturate(position as i128 + times(factor, height) as i128)
}

/// At the centre of normalized space the angle of the plain wave is the
/// time, whatever the time is.
pub proof fn lemma_plain_angle_at_centre(time: int)
    ensures
        plain_angle_exact(0, time) == time,
{
    lemma_times_unit(PI as int);
}

/// A displaced point stays within the height of its line's resting
/// position, for every sine and every noise value; it lies on the side
/// of the resting position to which the height points.
pub proof fn lemma_displaced_within(sine: int, noise: int, height: int, position: int)
    ensures
        height >= 0 ==> position - height <= displaced_exact(sine, noise, height, position)
            <= position + height,
        height >= 0 ==> position <= displaced_exact(sine, noise, height, position),
        height <= 0 ==> position + height <= displaced_exact(sine, noise, height, position)
            <= position,
{
    lemma_times_within(clamped(times_exact(sine, noise), 0, UNIT as int), height);
}

} // verus!
