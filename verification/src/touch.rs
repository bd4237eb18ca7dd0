//! The line height that follows the pressure on a touchpad.
//!
//! A touchpad reports a pressure and a stage, the tier of pressure that
//! the pad has clicked through to. Every report sets the height of the
//! lines anew and is remembered as the latest one.

use vstd::prelude::*;
use crate::fixed::floor_div;
use crate::fixed::saturate;
use crate::fixed::saturated;

verus! {

/// The least pressure that a report counts for: a tenth.
pub const PRESSURE_FLOOR: i32 = 100_000;

/// The least line height that a report leaves behind: a tenth.
pub const HEIGHT_FLOOR: i32 = 100_000;

/// The line height that a report of `pressure` at `stage` asks for.
///
/// The pressure counts for at least [`PRESSURE_FLOOR`] and is weighted by
/// the stage plus one; the height is half of that, rounded down, and at
/// least [`HEIGHT_FLOOR`].
pub open spec fn line_height_exact(pressure: int, stage: int) -> int {
    let normalized = if pressure < PRESSURE_FLOOR {
        PRESSURE_FLOOR as int
    } else {
        pressure
    };
    let half = (normalized * (stage + 1)) / 2;
    if half < HEIGHT_FLOOR {
        HEIGHT_FLOOR as int
    } else {
        half
    }
}

/// Computes the line height that a report of `pressure` at `stage` asks
/// for.
pub fn line_height(pressure: i32, stage: i64) -> (height: i32)
    ensures
        height == saturated(line_height_exact(pressure as int, stage as int)),
        height >= HEIGHT_FLOOR,
{
    let normalized: i128 = if pressure < PRESSURE_FLOOR {
        PRESSURE_FLOOR as i128
    } else {
        pressure as i128
    };
    let weight: i128 = stage as i128 + 1;
    assert(-0x8000_0000 * 0x8000_0000_0000_0000 <= normalized * weight <= 0x8000_0000
        * 0x8000_0000_0000_0000) by (nonlinear_arith)
        requires
            0 <= normalized <= 0x8000_0000,
            -0x8000_0000_0000_0000 <= weight <= 0x8000_0000_0000_0000,
    ;
    let half: i128 = floor_div(normalized * weight, 2);
    if half < HEIGHT_FLOOR as i128 {
        HEIGHT_FLOOR
    } else {
        saturate(half)
    }
}

/// What the tracker holds, as plain numbers.
pub ghost struct TouchView {
    pub height: int,
    pub prev_pressure: int,
    pub prev_stage: int,
}

/// The state that outlives a frame: the current line height and the
/// latest pressure report.
#[derive(Clone, Copy, Debug)]
pub struct TouchState {
    height: i32,
    prev_pressure: i32,
    prev_stage: i64,
}

impl View for TouchState {
    type V = TouchView;

    closed spec fn view(&self) -> TouchView {
        TouchView {
            height: self.height as int,
            prev_pressure: self.prev_pressure as int,
            prev_stage: self.prev_stage as int,
        }
    }
}

impl TouchState {
    /// The height is zero until the first report and at least
    /// [`HEIGHT_FLOOR`] from then on.
    #[verifier::type_invariant]
    spec fn settled(self) -> bool {
        self.height == 0 || self.height >= HEIGHT_FLOOR
    }

    /// The state before any report: flat lines, and zero for the latest
    /// pressure and stage.
    pub fn new() -> (state: Self)
        ensures
            state@ == (TouchView { height: 0, prev_pressure: 0, prev_stage: 0 }),
    {
        TouchState { height: 0, prev_pressure: 0, prev_stage: 0 }
    }

    /// Takes in a pressure report.
    ///
    /// Every report is accepted. The height is set from the report alone,
    /// and the report replaces the remembered one whether or not the
    /// stage has changed.
    pub fn on_pressure(&mut self, pressure: i32, stage: i64)
        ensures
            final(self)@ == (TouchView {
                height: saturated(line_height_exact(pressure as int, stage as int)),
                prev_pressure: pressure as int,
                prev_stage: stage as int,
            }),
            final(self)@.height >= HEIGHT_FLOOR,
    {
        self.height = line_height(pressure, stage);
        self.prev_pressure = pressure;
        self.prev_stage = stage;
    }

    /// The current line height.
    pub fn height(&self) -> (height: i32)
        ensures
            height == self@.height,
            height == 0 || height >= HEIGHT_FLOOR,
    {
        proof {
            use_type_invariant(self);
        }
        self.height
    }

    /// The pressure of the latest report.
    pub fn prev_pressure(&self) -> (pressure: i32)
        ensures
            pressure == self@.prev_pressure,
    {
        self.prev_pressure
    }

    /// The stage of the latest report.
    pub fn prev_stage(&self) -> (stage: i64)
        ensures
            stage == self@.prev_stage,
    {
        self.prev_stage
    }
}

} // verus!
