//! Line segments and polylines: the collision geometry. The intersection
//! *test* is exact integer arithmetic (orientation predicates); the
//! intersection *point* comes from slope/intercept algebra, with the
//! degenerate cases (point segments, vertical segments, parallel segments)
//! handled by explicit branches instead of the NaN/infinity arithmetic a
//! floating-point formulation would fall into.

use vstd::prelude::*;
use crate::fx::{
    fx_add, fx_div, fx_in_range, fx_max, fx_min, fx_mul, fx_sub, imax, imin, isqrt, spec_add,
    spec_div, spec_mul, spec_sub, sqrt_floor, FX_MAX,
};
use crate::point_math::{spec_triplet_orientation, Orientation, Point};
use crate::vector_math::Vector;

verus! {

#[derive(Clone, Copy)]
pub struct LineSegment {
    pub point_a: Point,
    pub point_b: Point,
}

impl LineSegment {
    pub open spec fn wf(self) -> bool {
        self.point_a.wf() && self.point_b.wf()
    }

    pub fn default() -> (r: LineSegment)
        ensures
            r == (LineSegment { point_a: Point { x: 0, y: 0 }, point_b: Point { x: 0, y: 0 } }),
    {
        LineSegment { point_a: Point::default(), point_b: Point::default() }
    }

    /// Endpoints ordered by x; ties keep the written order, so directional
    /// math is independent of the order the segment was written in.
    pub open spec fn spec_left_point(self) -> Point {
        if self.point_a.x <= self.point_b.x {
            self.point_a
        } else {
            self.point_b
        }
    }

    pub open spec fn spec_right_point(self) -> Point {
        if self.point_a.x > self.point_b.x {
            self.point_a
        } else {
            self.point_b
        }
    }

    pub fn left_point(&self) -> (r: Point)
        ensures
            r == self.spec_left_point(),
    {
        if self.point_a.x <= self.point_b.x {
            self.point_a
        } else {
            self.point_b
        }
    }

    pub fn right_point(&self) -> (r: Point)
        ensures
            r == self.spec_right_point(),
    {
        if self.point_a.x > self.point_b.x {
            self.point_a
        } else {
            self.point_b
        }
    }

    /// The segment degenerates to a single point (the case a float slope
    /// would turn into 0/0).
    pub open spec fn spec_is_degenerate_point(self) -> bool {
        self.point_a.x == self.point_b.x && self.point_a.y == self.point_b.y
    }

    /// The segment is vertical (the case a float slope would turn into an
    /// infinity).
    pub open spec fn spec_is_vertical(self) -> bool {
        self.point_a.x == self.point_b.x && self.point_a.y != self.point_b.y
    }

    pub open spec fn spec_has_slope(self) -> bool {
        !self.spec_is_degenerate_point() && !self.spec_is_vertical()
    }

    pub open spec fn spec_slope(self) -> int {
        spec_div(
            spec_sub(self.spec_right_point().y as int, self.spec_left_point().y as int),
            spec_sub(self.spec_right_point().x as int, self.spec_left_point().x as int),
        )
    }

    /// Slope of a non-vertical, non-degenerate segment, at fixed-point
    /// resolution.
    pub fn slope(&self) -> (r: i64)
        requires
            self.wf(),
            self.spec_has_slope(),
        ensures
            r as int == self.spec_slope(),
    {
        let left = self.left_point();
        let right = self.right_point();
        fx_div(fx_sub(right.y, left.y), fx_sub(right.x, left.x))
    }

    pub open spec fn spec_y_intercept(self) -> int {
        spec_sub(
            self.spec_left_point().y as int,
            spec_mul(self.spec_slope(), self.spec_left_point().x as int),
        )
    }

    pub fn y_intercept(&self) -> (r: i64)
        requires
            self.wf(),
            self.spec_has_slope(),
        ensures
            r as int == self.spec_y_intercept(),
    {
        let left = self.left_point();
        fx_sub(left.y, fx_mul(self.slope(), left.x))
    }

    pub open spec fn spec_length(self) -> int {
        sqrt_floor(
            spec_sub(self.point_b.x as int, self.point_a.x as int) * spec_sub(
                self.point_b.x as int,
                self.point_a.x as int,
            ) + spec_sub(self.point_b.y as int, self.point_a.y as int) * spec_sub(
                self.point_b.y as int,
                self.point_a.y as int,
            ),
        )
    }

    pub fn length(&self) -> (r: i64)
        requires
            self.wf(),
        ensures
            r as int == self.spec_length(),
            r >= 0,
    {
        let dx = fx_sub(self.point_b.x, self.point_a.x);
        let dy = fx_sub(self.point_b.y, self.point_a.y);
        proof {
            crate::fx::lemma_i64_product_fits_i128(dx as int, dx as int);
            crate::fx::lemma_i64_product_fits_i128(dy as int, dy as int);
            assert(0 <= (dx as int) * (dx as int) && 0 <= (dy as int) * (dy as int) && (
            dx as int) * (dx as int) + (dy as int) * (dy as int) <= 2 * (FX_MAX as int) * (
            FX_MAX as int)) by (nonlinear_arith)
                requires
                    fx_in_range(dx as int),
                    fx_in_range(dy as int),
            ;
        }
        let squared: u128 = ((dx as i128) * (dx as i128) + (dy as i128) * (dy as i128)) as u128;
        isqrt(squared)
    }

    /// Unit vector from `point_a` toward `point_b` (zero for a degenerate
    /// segment).
    pub open spec fn spec_segment_direction(self) -> Vector {
        let len = self.spec_length();
        if len > 0 {
            Vector {
                x: spec_div(spec_sub(self.point_b.x as int, self.point_a.x as int), len) as i64,
                y: spec_div(spec_sub(self.point_b.y as int, self.point_a.y as int), len) as i64,
            }
        } else {
            Vector { x: 0, y: 0 }
        }
    }

    pub fn direction(&self) -> (r: Vector)
        requires
            self.wf(),
        ensures
            r == self.spec_segment_direction(),
    {
        let len = self.length();
        if len > 0 {
            Vector {
                x: fx_div(fx_sub(self.point_b.x, self.point_a.x), len),
                y: fx_div(fx_sub(self.point_b.y, self.point_a.y), len),
            }
        } else {
            Vector { x: 0, y: 0 }
        }
    }

    /// Unit normal of the segment in endpoint order: for a chain written
    /// left to right this is the upward (outward) normal of a floor.
    pub open spec fn spec_normal(self) -> Vector {
        let len = self.spec_length();
        if len > 0 {
            Vector {
                x: spec_div(spec_sub(self.point_a.y as int, self.point_b.y as int), len) as i64,
                y: spec_div(spec_sub(self.point_b.x as int, self.point_a.x as int), len) as i64,
            }
        } else {
            Vector { x: 0, y: 0 }
        }
    }

    pub fn normal(&self) -> (r: Vector)
        requires
            self.wf(),
        ensures
            r == self.spec_normal(),
    {
        let len = self.length();
        if len > 0 {
            Vector {
                x: fx_div(fx_sub(self.point_a.y, self.point_b.y), len),
                y: fx_div(fx_sub(self.point_b.x, self.point_a.x), len),
            }
        } else {
            Vector { x: 0, y: 0 }
        }
    }

    /// Unit normal pointing away from the side a fighter stands on,
    /// derived from the x-ordered endpoints.
    pub open spec fn spec_top_normal(self) -> Vector {
        let len = self.spec_length();
        if len > 0 {
            Vector {
                x: spec_div(
                    spec_sub(self.spec_left_point().y as int, self.spec_right_point().y as int),
                    len,
                ) as i64,
                y: spec_div(
                    spec_sub(self.spec_right_point().x as int, self.spec_left_point().x as int),
                    len,
                ) as i64,
            }
        } else {
            Vector { x: 0, y: 0 }
        }
    }

    pub fn top_normal(&self) -> (r: Vector)
        requires
            self.wf(),
        ensures
            r == self.spec_top_normal(),
    {
        let left = self.left_point();
        let right = self.right_point();
        let len = self.length();
        if len > 0 {
            Vector { x: fx_div(fx_sub(left.y, right.y), len), y: fx_div(fx_sub(right.x, left.x), len) }
        } else {
            Vector { x: 0, y: 0 }
        }
    }

    pub open spec fn spec_bottom_normal(self) -> Vector {
        self.spec_top_normal().spec_inverse()
    }

    pub fn bottom_normal(&self) -> (r: Vector)
        requires
            self.wf(),
        ensures
            r == self.spec_bottom_normal(),
    {
        self.top_normal().inverse()
    }

    /// The point lies inside the segment's bounding box (used only for
    /// points already known to be colinear with the segment).
    pub open spec fn spec_contains_colinear_point(self, point: Point) -> bool {
        point.x as int <= imax(self.point_a.x as int, self.point_b.x as int) && point.x as int
            >= imin(self.point_a.x as int, self.point_b.x as int) && point.y as int <= imax(
            self.point_a.y as int,
            self.point_b.y as int,
        ) && point.y as int >= imin(self.point_a.y as int, self.point_b.y as int)
    }

    pub fn contains_colinear_point(&self, point: &Point) -> (r: bool)
        ensures
            r == self.spec_contains_colinear_point(*point),
    {
        point.x <= fx_max(self.point_a.x, self.point_b.x) && point.x >= fx_min(
            self.point_a.x,
            self.point_b.x,
        ) && point.y <= fx_max(self.point_a.y, self.point_b.y) && point.y >= fx_min(
            self.point_a.y,
            self.point_b.y,
        )
    }

    pub open spec fn spec_contains_point(self, point: Point) -> bool {
        spec_triplet_orientation(point, self.spec_left_point(), self.spec_right_point())
            == Orientation::Colinear && self.spec_contains_colinear_point(point)
    }

    pub fn contains_point(&self, point: &Point) -> (r: bool)
        requires
            self.wf(),
            point.wf(),
        ensures
            r == self.spec_contains_point(*point),
    {
        let left = self.left_point();
        let right = self.right_point();
        let point_orientation = point.triplet_orientation(&left, &right);
        if point_orientation == Orientation::Colinear {
            self.contains_colinear_point(point)
        } else {
            false
        }
    }

    /// Segments are parallel when both are vertical or their slopes agree at
    /// fixed-point resolution; a degenerate point is parallel to nothing.
    pub open spec fn spec_is_parallel_with(self, other: LineSegment) -> bool {
        if self.spec_is_degenerate_point() || other.spec_is_degenerate_point() {
            false
        } else if self.spec_is_vertical() && other.spec_is_vertical() {
            true
        } else if self.spec_is_vertical() || other.spec_is_vertical() {
            false
        } else {
            self.spec_slope() == other.spec_slope()
        }
    }

    pub fn is_parallel_with(&self, other_line: &LineSegment) -> (r: bool)
        requires
            self.wf(),
            other_line.wf(),
        ensures
            r == self.spec_is_parallel_with(*other_line),
    {
        let self_point = self.point_a.x == self.point_b.x && self.point_a.y == self.point_b.y;
        let other_point = other_line.point_a.x == other_line.point_b.x && other_line.point_a.y
            == other_line.point_b.y;
        let self_vertical = self.point_a.x == self.point_b.x && self.point_a.y
            != self.point_b.y;
        let other_vertical = other_line.point_a.x == other_line.point_b.x
            && other_line.point_a.y != other_line.point_b.y;
        if self_point || other_point {
            false
        } else if self_vertical && other_vertical {
            true
        } else if self_vertical || other_vertical {
            false
        } else {
            self.slope() == other_line.slope()
        }
    }

    /// The standard four-orientation segment intersection test, with the
    /// colinear touching cases checked against the bounding boxes.
    pub open spec fn spec_intersects_with(self, other: LineSegment) -> bool {
        let o0 = spec_triplet_orientation(self.point_a, self.point_b, other.point_a);
        let o1 = spec_triplet_orientation(self.point_a, self.point_b, other.point_b);
        let o2 = spec_triplet_orientation(other.point_a, other.point_b, self.point_a);
        let o3 = spec_triplet_orientation(other.point_a, other.point_b, self.point_b);
        (o0 != o1 && o2 != o3) || (o0 == Orientation::Colinear
            && self.spec_contains_colinear_point(other.point_a)) || (o1 == Orientation::Colinear
            && self.spec_contains_colinear_point(other.point_b)) || (o2 == Orientation::Colinear
            && other.spec_contains_colinear_point(self.point_a)) || (o3 == Orientation::Colinear
            && other.spec_contains_colinear_point(self.point_b))
    }

    pub fn intersects_with(&self, other_line: &LineSegment) -> (r: bool)
        requires
            self.wf(),
            other_line.wf(),
        ensures
            r == self.spec_intersects_with(*other_line),
    {
        let orientation0 = self.point_a.triplet_orientation(&self.point_b, &other_line.point_a);
        let orientation1 = self.point_a.triplet_orientation(&self.point_b, &other_line.point_b);
        let orientation2 = other_line.point_a.triplet_orientation(
            &other_line.point_b,
            &self.point_a,
        );
        let orientation3 = other_line.point_a.triplet_orientation(
            &other_line.point_b,
            &self.point_b,
        );
        if orientation0 != orientation1 && orientation2 != orientation3 {
            true
        } else if orientation0 == Orientation::Colinear && self.contains_colinear_point(
            &other_line.point_a,
        ) {
            true
        } else if orientation1 == Orientation::Colinear && self.contains_colinear_point(
            &other_line.point_b,
        ) {
            true
        } else if orientation2 == Orientation::Colinear && other_line.contains_colinear_point(
            &self.point_a,
        ) {
            true
        } else if orientation3 == Orientation::Colinear && other_line.contains_colinear_point(
            &self.point_b,
        ) {
            true
        } else {
            false
        }
    }

    /// The infinite-line intersection point by slope/intercept algebra, as
    /// `None` whenever the algebra has no unique solution: two degenerate
    /// points apart from each other, a degenerate point off the other line,
    /// or parallel (including coincident) lines.
    pub open spec fn spec_intersection_with(self, other: LineSegment) -> Option<Point> {
        if self.spec_is_degenerate_point() && other.spec_is_degenerate_point() {
            if self.spec_left_point().x == other.spec_left_point().x && self.spec_left_point().y
                == other.spec_left_point().y {
                Some(self.spec_left_point())
            } else {
                None
            }
        } else if self.spec_is_degenerate_point() {
            if other.spec_contains_point(self.spec_left_point()) {
                Some(self.spec_left_point())
            } else {
                None
            }
        } else if other.spec_is_degenerate_point() {
            if self.spec_contains_point(other.spec_left_point()) {
                Some(other.spec_left_point())
            } else {
                None
            }
        } else if !self.spec_is_parallel_with(other) {
            if self.spec_is_vertical() {
                let ix = self.spec_left_point().x as int;
                let iy = spec_add(spec_mul(ix, other.spec_slope()), other.spec_y_intercept());
                Some(Point { x: ix as i64, y: iy as i64 })
            } else if other.spec_is_vertical() {
                let ix = other.spec_left_point().x as int;
                let iy = spec_add(spec_mul(ix, self.spec_slope()), self.spec_y_intercept());
                Some(Point { x: ix as i64, y: iy as i64 })
            } else {
                let ix = spec_div(
                    spec_sub(other.spec_y_intercept(), self.spec_y_intercept()),
                    spec_sub(self.spec_slope(), other.spec_slope()),
                );
                let iy = spec_add(spec_mul(ix, self.spec_slope()), self.spec_y_intercept());
                Some(Point { x: ix as i64, y: iy as i64 })
            }
        } else {
            None
        }
    }

    pub fn intersection_with(&self, other_line: &LineSegment) -> (r: Option<Point>)
        requires
            self.wf(),
            other_line.wf(),
        ensures
            r == self.spec_intersection_with(*other_line),
    {
        let self_left = self.left_point();
        let other_left = other_line.left_point();
        let self_point = self.point_a.x == self.point_b.x && self.point_a.y == self.point_b.y;
        let other_point = other_line.point_a.x == other_line.point_b.x && other_line.point_a.y
            == other_line.point_b.y;
        if self_point && other_point {
            if self_left.x == other_left.x && self_left.y == other_left.y {
                Some(self_left)
            } else {
                None
            }
        } else if self_point {
            if other_line.contains_point(&self_left) {
                Some(self_left)
            } else {
                None
            }
        } else if other_point {
            if self.contains_point(&other_left) {
                Some(other_left)
            } else {
                None
            }
        } else if !self.is_parallel_with(other_line) {
            let self_vertical = self.point_a.x == self.point_b.x;
            let other_vertical = other_line.point_a.x == other_line.point_b.x;
            if self_vertical {
                let intersection_x = self_left.x;
                let intersection_y = fx_add(
                    fx_mul(intersection_x, other_line.slope()),
                    other_line.y_intercept(),
                );
                Some(Point { x: intersection_x, y: intersection_y })
            } else if other_vertical {
                let intersection_x = other_left.x;
                let intersection_y = fx_add(
                    fx_mul(intersection_x, self.slope()),
                    self.y_intercept(),
                );
                Some(Point { x: intersection_x, y: intersection_y })
            } else {
                let intersection_x = fx_div(
                    fx_sub(other_line.y_intercept(), self.y_intercept()),
                    fx_sub(self.slope(), other_line.slope()),
                );
                let intersection_y = fx_add(
                    fx_mul(intersection_x, self.slope()),
                    self.y_intercept(),
                );
                Some(Point { x: intersection_x, y: intersection_y })
            }
        } else {
            None
        }
    }
}

/// One piece of stage terrain: an ordered point chain decomposed into its
/// consecutive segments.
pub struct PolyLine {
    pub segments: Vec<LineSegment>,
}

impl PolyLine {
    pub fn from_points(points: &Vec<Point>) -> (r: PolyLine)
        ensures
            r.segments@.len() == if points@.len() > 1 {
                points@.len() - 1
            } else {
                0
            },
            forall|i: int|
                0 <= i < r.segments@.len() ==> r.segments@[i] == (LineSegment {
                    point_a: points@[i],
                    point_b: points@[i + 1],
                }),
    {
        let mut segments: Vec<LineSegment> = Vec::new();
        let num_points = points.len();
        if num_points > 1 {
            let mut i: usize = 1;
            while i < num_points
                invariant
                    1 <= i <= num_points,
                    num_points == points@.len(),
                    segments@.len() == i - 1,
                    forall|j: int|
                        0 <= j < segments@.len() ==> segments@[j] == (LineSegment {
                            point_a: points@[j],
                            point_b: points@[j + 1],
                        }),
                decreases num_points - i,
            {
                let segment = LineSegment {
                    point_a: Point { x: points[i - 1].x, y: points[i - 1].y },
                    point_b: Point { x: points[i].x, y: points[i].y },
                };
                segments.push(segment);
                i += 1;
            }
        }
        PolyLine { segments }
    }
}

} // verus!
