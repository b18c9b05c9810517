//! 2D vectors: magnitude, normalization and dot products, all in the
//! saturating fixed-point arithmetic. Directional math is done with unit
//! vectors, so no trigonometry is needed anywhere in the simulation.

use vstd::prelude::*;
use crate::fx::{
    fx_add, fx_in_range, fx_mul, fx_mul_div, fx_neg, isqrt, sat, spec_add, spec_mul,
    spec_mul_div, sqrt_floor, FX_MAX, FX_ONE,
};

verus! {

#[derive(Clone, Copy)]
pub struct Vector {
    pub x: i64,
    pub y: i64,
}

impl Vector {
    /// Both components are in the saturated fixed-point range.
    pub open spec fn wf(self) -> bool {
        fx_in_range(self.x as int) && fx_in_range(self.y as int)
    }

    pub fn default() -> (r: Vector)
        ensures
            r == (Vector { x: 0, y: 0 }),
    {
        Vector { x: 0, y: 0 }
    }

    /// Euclidean magnitude, rounded down.
    pub open spec fn spec_magnitude(self) -> int {
        sqrt_floor((self.x as int) * (self.x as int) + (self.y as int) * (self.y as int))
    }

    pub fn magnitude(&self) -> (r: i64)
        requires
            self.wf(),
        ensures
            r as int == self.spec_magnitude(),
            r >= 0,
    {
        let x = self.x;
        let y = self.y;
        proof {
            crate::fx::lemma_i64_product_fits_i128(x as int, x as int);
            crate::fx::lemma_i64_product_fits_i128(y as int, y as int);
            assert(0 <= (x as int) * (x as int) && 0 <= (y as int) * (y as int) && (x as int) * (
            x as int) + (y as int) * (y as int) <= 2 * (FX_MAX as int) * (FX_MAX as int))
                by (nonlinear_arith)
                requires
                    fx_in_range(x as int),
                    fx_in_range(y as int),
            ;
        }
        let squared: u128 = ((x as i128) * (x as i128) + (y as i128) * (y as i128)) as u128;
        isqrt(squared)
    }

    /// Rescaling to the given magnitude, preserving direction; the zero
    /// vector stays zero.
    pub open spec fn spec_with_magnitude(self, value: int) -> Vector {
        let m = self.spec_magnitude();
        if m == 0 {
            self
        } else {
            Vector {
                x: spec_mul_div(self.x as int, value, m) as i64,
                y: spec_mul_div(self.y as int, value, m) as i64,
            }
        }
    }

    pub fn set_magnitude(&mut self, value: i64)
        requires
            old(self).wf(),
        ensures
            *final(self) == old(self).spec_with_magnitude(value as int),
    {
        let m = self.magnitude();
        if m != 0 {
            self.x = fx_mul_div(self.x, value, m);
            self.y = fx_mul_div(self.y, value, m);
        }
    }

    pub fn with_magnitude(&self, value: i64) -> (r: Vector)
        requires
            self.wf(),
        ensures
            r == self.spec_with_magnitude(value as int),
    {
        let mut new_vector = *self;
        new_vector.set_magnitude(value);
        new_vector
    }

    /// The unit vector with this vector's direction (zero for the zero
    /// vector), scaled like every fixed-point unit quantity.
    pub open spec fn spec_direction(self) -> Vector {
        self.spec_with_magnitude(FX_ONE as int)
    }

    pub fn direction(&self) -> (r: Vector)
        requires
            self.wf(),
        ensures
            r == self.spec_direction(),
    {
        self.with_magnitude(FX_ONE)
    }

    /// Fixed-point dot product (rescaled by one unit, like every product).
    pub open spec fn spec_dot(self, other: Vector) -> int {
        spec_add(
            spec_mul(self.x as int, other.x as int),
            spec_mul(self.y as int, other.y as int),
        )
    }

    pub fn dot(&self, other_vector: &Vector) -> (r: i64)
        ensures
            r as int == self.spec_dot(*other_vector),
    {
        fx_add(fx_mul(self.x, other_vector.x), fx_mul(self.y, other_vector.y))
    }

    pub open spec fn spec_inverse(self) -> Vector {
        Vector { x: sat(-(self.x as int)) as i64, y: sat(-(self.y as int)) as i64 }
    }

    pub fn invert(&mut self)
        ensures
            *final(self) == old(self).spec_inverse(),
    {
        self.x = fx_neg(self.x);
        self.y = fx_neg(self.y);
    }

    pub fn inverse(&self) -> (r: Vector)
        ensures
            r == self.spec_inverse(),
    {
        Vector { x: fx_neg(self.x), y: fx_neg(self.y) }
    }
}

} // verus!
