//! The environment collision box: four body-relative reference points used
//! as the fighter's collision proxy. Only the bottom point takes part in
//! ground collision.

use vstd::prelude::*;
use crate::point_math::Point;

verus! {

#[derive(Clone, Copy)]
pub struct ECB {
    pub bottom: Point,
    pub left: Point,
    pub top: Point,
    pub right: Point,
}

impl ECB {
    pub open spec fn wf(self) -> bool {
        self.bottom.wf() && self.left.wf() && self.top.wf() && self.right.wf()
    }

    pub fn new(bottom: Point, left: Point, top: Point, right: Point) -> (r: ECB)
        ensures
            r == (ECB { bottom, left, top, right }),
    {
        ECB { bottom, left, top, right }
    }
}

} // verus!
