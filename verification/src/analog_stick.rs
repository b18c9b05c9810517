//! A pair of axes forming one 2D stick, with magnitude and the conversion
//! to the target game's quantized stick values.

use vstd::prelude::*;
use crate::analog_axis::{convert_to_melee_values, spec_convert_pair, AnalogAxis};
use crate::fx::{fx_in_range, fx_mul_div, isqrt, spec_mul_div, sqrt_floor, FX_MAX};

verus! {

#[derive(Clone, Copy)]
pub struct AnalogStick {
    pub x_axis: AnalogAxis,
    pub y_axis: AnalogAxis,
}

impl AnalogStick {
    pub fn new(dead_zone: i64) -> (r: AnalogStick)
        ensures
            r.x_axis == AnalogAxis::spec_new(dead_zone),
            r.y_axis == AnalogAxis::spec_new(dead_zone),
    {
        AnalogStick { x_axis: AnalogAxis::new(dead_zone), y_axis: AnalogAxis::new(dead_zone) }
    }

    /// Both deflections are in the saturated fixed-point range.
    pub open spec fn wf(self) -> bool {
        fx_in_range(self.x_axis.value as int) && fx_in_range(self.y_axis.value as int)
    }

    /// Euclidean magnitude of the stick deflection, rounded down.
    pub open spec fn spec_magnitude(self) -> int {
        sqrt_floor(
            (self.x_axis.value as int) * (self.x_axis.value as int) + (self.y_axis.value as int)
                * (self.y_axis.value as int),
        )
    }

    pub fn magnitude(&self) -> (r: i64)
        requires
            self.wf(),
        ensures
            r as int == self.spec_magnitude(),
            r >= 0,
    {
        let x = self.x_axis.value;
        let y = self.y_axis.value;
        proof {
            crate::fx::lemma_i64_product_fits_i128(x as int, x as int);
            crate::fx::lemma_i64_product_fits_i128(y as int, y as int);
            assert(0 <= (x as int) * (x as int) && 0 <= (y as int) * (y as int) && (x as int) * (
            x as int) + (y as int) * (y as int) <= 2 * (FX_MAX as int) * (FX_MAX as int))
                by (nonlinear_arith)
                requires
                    fx_in_range(x as int),
                    fx_in_range(y as int),
            ;
        }
        let squared: u128 = ((x as i128) * (x as i128) + (y as i128) * (y as i128)) as u128;
        isqrt(squared)
    }

    /// Rescaling of both deflections to the given magnitude, preserving the
    /// direction; a stick at exact rest is left at rest.
    pub open spec fn spec_set_magnitude(self, value: int) -> AnalogStick {
        let m = self.spec_magnitude();
        if m == 0 {
            self
        } else {
            AnalogStick {
                x_axis: AnalogAxis {
                    value: spec_mul_div(self.x_axis.value as int, value, m) as i64,
                    ..self.x_axis
                },
                y_axis: AnalogAxis {
                    value: spec_mul_div(self.y_axis.value as int, value, m) as i64,
                    ..self.y_axis
                },
            }
        }
    }

    pub fn set_magnitude(&mut self, value: i64)
        requires
            old(self).wf(),
        ensures
            *final(self) == old(self).spec_set_magnitude(value as int),
    {
        let m = self.magnitude();
        if m != 0 {
            self.x_axis.value = fx_mul_div(self.x_axis.value, value, m);
            self.y_axis.value = fx_mul_div(self.y_axis.value, value, m);
        }
    }

    /// The quantization of the raw stick to the game's internal values:
    /// clamped onto the unit circle, then each axis snapped to the grid.
    pub fn convert_to_melee_values(&mut self)
        requires
            old(self).wf(),
        ensures
            final(self).x_axis.value as int == spec_convert_pair(
                old(self).x_axis.value as int,
                old(self).y_axis.value as int,
            ).0,
            final(self).y_axis.value as int == spec_convert_pair(
                old(self).x_axis.value as int,
                old(self).y_axis.value as int,
            ).1,
            final(self).x_axis == (AnalogAxis {
                value: final(self).x_axis.value,
                ..old(self).x_axis
            }),
            final(self).y_axis == (AnalogAxis {
                value: final(self).y_axis.value,
                ..old(self).y_axis
            }),
    {
        convert_to_melee_values(&mut self.x_axis, &mut self.y_axis);
    }

    /// The per-frame advance of both axes.
    pub fn update(&mut self)
        ensures
            final(self).x_axis == old(self).x_axis.spec_update(),
            final(self).y_axis == old(self).y_axis.spec_update(),
    {
        self.x_axis.update();
        self.y_axis.update();
    }
}

} // verus!
