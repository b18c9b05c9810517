//! A two-slot position for render-side blending between the previous and
//! current simulated frames; purely presentational.

use vstd::prelude::*;
use crate::fx::{lerp, spec_add, spec_mul, spec_sub};

verus! {

pub struct InterpolatedPosition {
    pub x_current: i64,
    pub x_previous: i64,
    pub y_current: i64,
    pub y_previous: i64,
}

impl InterpolatedPosition {
    pub fn new(x: i64, y: i64) -> (r: InterpolatedPosition)
        ensures
            r == (InterpolatedPosition {
                x_current: x,
                x_previous: x,
                y_current: y,
                y_previous: y,
            }),
    {
        InterpolatedPosition { x_current: x, x_previous: x, y_current: y, y_previous: y }
    }

    /// The blend from the previous toward the current x by the fixed-point
    /// fraction `interpolation`.
    pub fn x(&self, interpolation: i64) -> (r: i64)
        ensures
            r as int == spec_add(
                self.x_previous as int,
                spec_mul(
                    interpolation as int,
                    spec_sub(self.x_current as int, self.x_previous as int),
                ),
            ),
    {
        lerp(self.x_previous, self.x_current, interpolation)
    }

    pub fn y(&self, interpolation: i64) -> (r: i64)
        ensures
            r as int == spec_add(
                self.y_previous as int,
                spec_mul(
                    interpolation as int,
                    spec_sub(self.y_current as int, self.y_previous as int),
                ),
            ),
    {
        lerp(self.y_previous, self.y_current, interpolation)
    }

    pub fn set_x(&mut self, value: i64)
        ensures
            *final(self) == (InterpolatedPosition {
                x_previous: old(self).x_current,
                x_current: value,
                ..*old(self)
            }),
    {
        self.x_previous = self.x_current;
        self.x_current = value;
    }

    pub fn set_y(&mut self, value: i64)
        ensures
            *final(self) == (InterpolatedPosition {
                y_previous: old(self).y_current,
                y_current: value,
                ..*old(self)
            }),
    {
        self.y_previous = self.y_current;
        self.y_current = value;
    }

    pub fn set(&mut self, x: i64, y: i64)
        ensures
            *final(self) == (InterpolatedPosition {
                x_previous: old(self).x_current,
                x_current: x,
                y_previous: old(self).y_current,
                y_current: y,
            }),
    {
        self.set_x(x);
        self.set_y(y);
    }
}

} // verus!
