//! 2D points and the orientation predicate the segment-intersection test
//! is built on. The predicate is computed exactly: fixed-point coordinates
//! make it pure integer arithmetic.

use vstd::prelude::*;
use crate::fx::{fx_add, fx_mul, fx_sub, fx_in_range, spec_add, spec_mul, spec_sub, FX_MAX};

verus! {

#[derive(Clone, Copy)]
pub struct Point {
    pub x: i64,
    pub y: i64,
}

#[derive(Clone, Copy, PartialEq, Eq, Structural, Debug)]
pub enum Orientation {
    Colinear,
    Clockwise,
    CounterClockwise,
}

/// The cross-product expression whose sign classifies the triplet.
pub open spec fn spec_orientation_value(p: Point, q: Point, r: Point) -> int {
    (q.y - p.y) * (r.x - q.x) - (q.x - p.x) * (r.y - q.y)
}

pub open spec fn spec_triplet_orientation(p: Point, q: Point, r: Point) -> Orientation {
    let v = spec_orientation_value(p, q, r);
    if v == 0 {
        Orientation::Colinear
    } else if v > 0 {
        Orientation::Clockwise
    } else {
        Orientation::CounterClockwise
    }
}

impl Point {
    /// Both coordinates are in the saturated fixed-point range.
    pub open spec fn wf(self) -> bool {
        fx_in_range(self.x as int) && fx_in_range(self.y as int)
    }

    pub fn default() -> (r: Point)
        ensures
            r == (Point { x: 0, y: 0 }),
    {
        Point { x: 0, y: 0 }
    }

    /// Whether `self`, `q`, `r` run colinear, clockwise or counterclockwise.
    pub fn triplet_orientation(&self, q: &Point, r: &Point) -> (o: Orientation)
        requires
            self.wf(),
            q.wf(),
            r.wf(),
        ensures
            o == spec_triplet_orientation(*self, *q, *r),
    {
        let d0: i128 = q.y as i128 - self.y as i128;
        let d1: i128 = r.x as i128 - q.x as i128;
        let d2: i128 = q.x as i128 - self.x as i128;
        let d3: i128 = r.y as i128 - q.y as i128;
        proof {
            lemma_diff_product_fits(d0 as int, d1 as int);
            lemma_diff_product_fits(d2 as int, d3 as int);
        }
        let value: i128 = d0 * d1 - d2 * d3;
        if value == 0 {
            Orientation::Colinear
        } else if value > 0 {
            Orientation::Clockwise
        } else {
            Orientation::CounterClockwise
        }
    }

    /// Componentwise interpolation toward `other_point` by the fixed-point
    /// fraction `interpolation` (presentation-side blending).
    pub fn lerp(&self, other_point: &Point, interpolation: i64) -> (r: Point)
        ensures
            r.x as int == spec_add(
                self.x as int,
                spec_mul(interpolation as int, spec_sub(other_point.x as int, self.x as int)),
            ),
            r.y as int == spec_add(
                self.y as int,
                spec_mul(interpolation as int, spec_sub(other_point.y as int, self.y as int)),
            ),
    {
        Point {
            x: fx_add(self.x, fx_mul(interpolation, fx_sub(other_point.x, self.x))),
            y: fx_add(self.y, fx_mul(interpolation, fx_sub(other_point.y, self.y))),
        }
    }
}

proof fn lemma_diff_product_fits(a: int, b: int)
    requires
        -2 * (FX_MAX as int) <= a <= 2 * (FX_MAX as int),
        -2 * (FX_MAX as int) <= b <= 2 * (FX_MAX as int),
    ensures
        -4 * (FX_MAX as int) * (FX_MAX as int) <= a * b <= 4 * (FX_MAX as int) * (FX_MAX as int),
{
    assert(-4 * (FX_MAX as int) * (FX_MAX as int) <= a * b <= 4 * (FX_MAX as int) * (
    FX_MAX as int)) by (nonlinear_arith)
        requires
            -2 * (FX_MAX as int) <= a <= 2 * (FX_MAX as int),
            -2 * (FX_MAX as int) <= b <= 2 * (FX_MAX as int),
    ;
}

} // verus!
