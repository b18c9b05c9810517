//! A single analog stick axis: deadzone, direction, activation edges with
//! hysteresis through center-crossing, and an active-frame counter used to
//! detect smash inputs.

use vstd::prelude::*;
use crate::fx::{
    fx_abs, fx_in_range, fx_mul_div, frame_inc, iabs, inc32, isqrt, lemma_sqrt_floor_bounds,
    sat, sgn, spec_mul_div, sqrt_floor, tdiv, FX_MAX, FX_ONE,
};

verus! {

/// Grid the target game quantizes stick values to: 1/80 of a full deflection.
pub const FX_GRID: i64 = 5;

#[derive(Clone, Copy)]
pub struct AnalogAxis {
    /// Current deflection in `[-FX_ONE, FX_ONE]` under normal operation.
    pub value: i64,
    pub previous_value: i64,
    pub dead_zone: i64,
    pub was_previously_active: bool,
    pub frames_active: u32,
    /// Tie-break memory for two opposing digital inputs held at once: true
    /// when the high signal was the earlier one to be held alone.
    pub high_state_was_first: bool,
}

impl AnalogAxis {
    pub open spec fn spec_new(dead_zone: i64) -> AnalogAxis {
        AnalogAxis {
            value: 0,
            previous_value: 0,
            dead_zone: dead_zone,
            was_previously_active: false,
            frames_active: 0,
            high_state_was_first: true,
        }
    }

    pub fn new(dead_zone: i64) -> (r: AnalogAxis)
        ensures
            r == AnalogAxis::spec_new(dead_zone),
    {
        AnalogAxis {
            value: 0,
            previous_value: 0,
            dead_zone,
            was_previously_active: false,
            frames_active: 0,
            high_state_was_first: true,
        }
    }

    /// The deadzone every controller axis is built with: 0.2875 of full deflection.
    pub fn default() -> (r: AnalogAxis)
        ensures
            r == AnalogAxis::spec_new(115),
    {
        AnalogAxis::new(115)
    }

    /// Sign of the deflection, scaled to a full unit.
    pub open spec fn spec_direction(self) -> int {
        sgn(self.value as int) * (FX_ONE as int)
    }

    pub fn direction(&self) -> (r: i64)
        ensures
            r as int == self.spec_direction(),
    {
        if self.value > 0 {
            FX_ONE
        } else if self.value < 0 {
            -FX_ONE
        } else {
            0
        }
    }

    /// Magnitude of the deflection (saturated like all fixed-point values).
    pub fn magnitude(&self) -> (r: i64)
        ensures
            r as int == sat(iabs(self.value as int)),
    {
        fx_abs(self.value)
    }

    pub open spec fn spec_just_crossed_center(self) -> bool {
        (self.value < 0 && self.previous_value >= 0) || (self.value > 0 && self.previous_value
            <= 0)
    }

    pub fn just_crossed_center(&self) -> (r: bool)
        ensures
            r == self.spec_just_crossed_center(),
    {
        (self.value < 0 && self.previous_value >= 0) || (self.value > 0 && self.previous_value
            <= 0)
    }

    /// The axis counts as active exactly when its deflection reaches the deadzone.
    pub open spec fn spec_is_active(self) -> bool {
        sat(iabs(self.value as int)) >= self.dead_zone as int
    }

    pub fn is_active(&self) -> (r: bool)
        ensures
            r == self.spec_is_active(),
    {
        fx_abs(self.value) >= self.dead_zone
    }

    /// True on a center-crossing (any direction reversal, even inside the
    /// deadzone band) or on an inactive-to-active edge.
    pub open spec fn spec_just_activated(self) -> bool {
        self.spec_just_crossed_center() || (self.spec_is_active()
            && !self.was_previously_active)
    }

    pub fn just_activated(&self) -> (r: bool)
        ensures
            r == self.spec_just_activated(),
    {
        self.just_crossed_center() || (self.is_active() && !self.was_previously_active)
    }

    pub open spec fn spec_just_deactivated(self) -> bool {
        self.was_previously_active && !self.spec_is_active()
    }

    pub fn just_deactivated(&self) -> (r: bool)
        ensures
            r == self.spec_just_deactivated(),
    {
        self.was_previously_active && !self.is_active()
    }

    /// Resolution of two opposing digital signals into one axis value.
    /// When both are held, the one that most recently became exclusively
    /// held wins (so `high_state_was_first` means the low signal wins).
    pub open spec fn spec_set_value_from_states(self, low: bool, high: bool) -> AnalogAxis {
        let first = if high && !low {
            true
        } else if low && !high {
            false
        } else {
            self.high_state_was_first
        };
        let v: int = if low && !high {
            -(FX_ONE as int)
        } else if high && !low {
            FX_ONE as int
        } else if low && high && first {
            -(FX_ONE as int)
        } else if low && high && !first {
            FX_ONE as int
        } else {
            0
        };
        AnalogAxis { value: v as i64, high_state_was_first: first, ..self }
    }

    pub fn set_value_from_states(&mut self, low: bool, high: bool)
        ensures
            *final(self) == old(self).spec_set_value_from_states(low, high),
    {
        if high && !low {
            self.high_state_was_first = true;
        } else if low && !high {
            self.high_state_was_first = false;
        }
        let low_and_high = low && high;
        let only_low = low && !high;
        let only_high = high && !low;
        if only_low || (low_and_high && self.high_state_was_first) {
            self.value = -FX_ONE;
        } else if only_high || (low_and_high && !self.high_state_was_first) {
            self.value = FX_ONE;
        } else {
            self.value = 0;
        }
    }

    /// The per-frame advance. The frame counter restarts on every activation
    /// edge and while inactive, so it counts the frames after the first
    /// active frame of a deflection.
    pub open spec fn spec_update(self) -> AnalogAxis {
        let frames: int = if self.spec_just_activated() {
            0
        } else if self.spec_is_active() {
            inc32(self.frames_active as int)
        } else {
            0
        };
        AnalogAxis {
            frames_active: frames as u32,
            previous_value: self.value,
            was_previously_active: self.spec_is_active(),
            ..self
        }
    }

    /// Must run exactly once per simulated frame, after all of that frame's
    /// readers; see the controller-level advance.
    pub fn update(&mut self)
        ensures
            *final(self) == old(self).spec_update(),
    {
        if self.just_activated() {
            self.frames_active = 0;
        } else if self.is_active() {
            self.frames_active = frame_inc(self.frames_active);
        } else {
            self.frames_active = 0;
        }
        self.previous_value = self.value;
        self.was_previously_active = self.is_active();
    }
}

/// Snapping of one axis to the game's 1/80 grid: the nearest grid value,
/// except that a value that would overshoot the axis's own magnitude is
/// rounded toward zero instead — which makes the result exactly the
/// toward-zero grid value.
pub open spec fn spec_snap_axis(v: int) -> int {
    (FX_GRID as int) * tdiv(v, FX_GRID as int)
}

fn snap_axis(v: i64) -> (r: i64)
    requires
        fx_in_range(v as int),
    ensures
        r as int == spec_snap_axis(v as int),
        iabs(r as int) <= iabs(v as int),
{
    let magnitude = if v < 0 { -v } else { v };
    let nearest_magnitude = ((magnitude + 2) / FX_GRID) * FX_GRID;
    let snapped_magnitude = if nearest_magnitude > magnitude {
        (magnitude / FX_GRID) * FX_GRID
    } else {
        nearest_magnitude
    };
    if v < 0 { -snapped_magnitude } else { snapped_magnitude }
}

/// The whole conversion of a raw stick pair to the game's internal values:
/// clamp the stick onto the unit circle first, then snap each axis.
pub open spec fn spec_convert_pair(x: int, y: int) -> (int, int) {
    let m = sqrt_floor(x * x + y * y);
    if m > FX_ONE as int {
        (spec_snap_axis(spec_mul_div(x, FX_ONE as int, m)), spec_snap_axis(
            spec_mul_div(y, FX_ONE as int, m),
        ))
    } else {
        (spec_snap_axis(x), spec_snap_axis(y))
    }
}

/// Applies `spec_convert_pair` to the current values of the two axes of one
/// stick, leaving all edge-detection state untouched.
pub fn convert_to_melee_values(x_axis: &mut AnalogAxis, y_axis: &mut AnalogAxis)
    requires
        fx_in_range(old(x_axis).value as int),
        fx_in_range(old(y_axis).value as int),
    ensures
        final(x_axis).value as int == spec_convert_pair(
            old(x_axis).value as int,
            old(y_axis).value as int,
        ).0,
        final(y_axis).value as int == spec_convert_pair(
            old(x_axis).value as int,
            old(y_axis).value as int,
        ).1,
        *final(x_axis) == (AnalogAxis { value: final(x_axis).value, ..*old(x_axis) }),
        *final(y_axis) == (AnalogAxis { value: final(y_axis).value, ..*old(y_axis) }),
        fx_in_range(final(x_axis).value as int),
        fx_in_range(final(y_axis).value as int),
{
    let x = x_axis.value;
    let y = y_axis.value;
    proof {
        lemma_i64_square_bound(x as int);
        lemma_i64_square_bound(y as int);
    }
    let squared: u128 = ((x as i128) * (x as i128) + (y as i128) * (y as i128)) as u128;
    let m = isqrt(squared);
    if m > FX_ONE {
        let xs = fx_mul_div(x, FX_ONE, m);
        let ys = fx_mul_div(y, FX_ONE, m);
        x_axis.value = snap_axis(xs);
        y_axis.value = snap_axis(ys);
    } else {
        x_axis.value = snap_axis(x);
        y_axis.value = snap_axis(y);
    }
}

/// Law: activity is exactly the deadzone test on the magnitude, and the
/// magnitude of an in-range deflection is its absolute value.
pub proof fn lemma_axis_deadzone_monotonicity(a: AnalogAxis)
    requires
        fx_in_range(a.value as int),
    ensures
        a.spec_is_active() == (iabs(a.value as int) >= a.dead_zone as int),
        sat(iabs(a.value as int)) == iabs(a.value as int),
{
}

/// Law: starting inactive, a full deflection activates the axis exactly once;
/// after the frame advance the same deflection no longer reads as an
/// activation edge (there being no center-crossing).
pub proof fn lemma_edge_detection_fires_once(a: AnalogAxis)
    requires
        !a.was_previously_active,
        0 < a.dead_zone <= FX_ONE,
    ensures
        ({
            let b = AnalogAxis { value: FX_ONE, ..a };
            let c = AnalogAxis { value: FX_ONE, ..b.spec_update() };
            b.spec_just_activated() && !c.spec_just_activated()
        }),
{
}

/// Law: with both opposing digital signals held, the axis reads toward the
/// signal that was most recently the one held alone; with neither held it
/// reads zero, whatever the history.
pub proof fn lemma_digital_to_axis_resolution(a: AnalogAxis)
    ensures
        a.spec_set_value_from_states(true, true).value as int == if a.high_state_was_first {
            -(FX_ONE as int)
        } else {
            FX_ONE as int
        },
        a.spec_set_value_from_states(false, false).value == 0,
{
}

/// Law: converting a raw stick pair whose magnitude is at most one full
/// deflection yields grid multiples on both axes and never increases the
/// magnitude.
pub proof fn lemma_convert_never_overshoots(x: int, y: int)
    requires
        fx_in_range(x),
        fx_in_range(y),
        x * x + y * y <= (FX_ONE as int) * (FX_ONE as int),
    ensures
        ({
            let (cx, cy) = spec_convert_pair(x, y);
            cx % (FX_GRID as int) == 0 && cy % (FX_GRID as int) == 0 && cx * cx + cy * cy <= x
                * x + y * y
        }),
{
    let n = x * x + y * y;
    assert(x * x + y * y >= 0) by (nonlinear_arith);
    lemma_sqrt_floor_bounds(n);
    let m = sqrt_floor(n);
    if m > FX_ONE as int {
        assert((FX_ONE as int + 1) * (FX_ONE as int + 1) <= m * m) by (nonlinear_arith)
            requires
                FX_ONE as int + 1 <= m,
        ;
        assert(false);
    }
    lemma_snap_axis_shrinks(x);
    lemma_snap_axis_shrinks(y);
    let (cx, cy) = spec_convert_pair(x, y);
    assert(cx * cx <= x * x && cy * cy <= y * y) by (nonlinear_arith)
        requires
            iabs(cx) <= iabs(x),
            iabs(cy) <= iabs(y),
    ;
}

/// Snapping to the grid yields a grid multiple of no greater magnitude.
pub proof fn lemma_snap_axis_shrinks(v: int)
    ensures
        spec_snap_axis(v) % (FX_GRID as int) == 0,
        iabs(spec_snap_axis(v)) <= iabs(v),
{
    let g = FX_GRID as int;
    let q = tdiv(v, g);
    assert((g * q) % g == (q * g) % g) by (nonlinear_arith);
    vstd::arithmetic::div_mod::lemma_mod_multiples_basic(q, g);
    if v >= 0 {
        vstd::arithmetic::div_mod::lemma_fundamental_div_mod(v, g);
        vstd::arithmetic::div_mod::lemma_mod_bound(v, g);
    } else {
        vstd::arithmetic::div_mod::lemma_fundamental_div_mod(-v, g);
        vstd::arithmetic::div_mod::lemma_mod_bound(-v, g);
    }
}

proof fn lemma_i64_square_bound(x: int)
    requires
        fx_in_range(x),
    ensures
        0 <= x * x <= (FX_MAX as int) * (FX_MAX as int),
{
    assert(0 <= x * x <= (FX_MAX as int) * (FX_MAX as int)) by (nonlinear_arith)
        requires
            fx_in_range(x),
    ;
}

} // verus!
