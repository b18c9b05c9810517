//! The stage definition: named groups of point chains (grounds, ceilings,
//! walls, platforms) in world units, consumed by the collision resolver and
//! by a render collaborator.

use vstd::prelude::*;
use crate::point_math::Point;

verus! {

pub struct FightingStage {
    pub grounds: Vec<Vec<Point>>,
    pub ceilings: Vec<Vec<Point>>,
    pub left_walls: Vec<Vec<Point>>,
    pub right_walls: Vec<Vec<Point>>,
    pub platforms: Vec<Vec<Point>>,
}

pub open spec fn spec_stage_ground() -> Seq<Point> {
    seq![
        Point { x: (-22400) as i64, y: (-1400) as i64 },
        Point { x: (-15600) as i64, y: 0 },
        Point { x: 15600, y: 0 },
        Point { x: 22400, y: (-1400) as i64 },
    ]
}

pub open spec fn spec_stage_left_wall() -> Seq<Point> {
    seq![
        Point { x: (-22400) as i64, y: (-1400) as i64 },
        Point { x: (-22400) as i64, y: (-2800) as i64 },
        Point { x: (-22000) as i64, y: (-3200) as i64 },
        Point { x: (-21600) as i64, y: (-4400) as i64 },
        Point { x: (-21200) as i64, y: (-4800) as i64 },
        Point { x: (-21200) as i64, y: (-10800) as i64 },
        Point { x: (-21600) as i64, y: (-11200) as i64 },
        Point { x: (-21600) as i64, y: (-12000) as i64 },
        Point { x: (-21200) as i64, y: (-12400) as i64 },
        Point { x: (-21200) as i64, y: (-18400) as i64 },
        Point { x: (-21600) as i64, y: (-18800) as i64 },
        Point { x: (-21600) as i64, y: (-40000) as i64 },
    ]
}

pub open spec fn spec_stage_right_wall() -> Seq<Point> {
    seq![
        Point { x: 22400, y: (-1400) as i64 },
        Point { x: 22400, y: (-2800) as i64 },
        Point { x: 22000, y: (-3200) as i64 },
        Point { x: 21600, y: (-4400) as i64 },
        Point { x: 21200, y: (-4800) as i64 },
        Point { x: 21200, y: (-10800) as i64 },
        Point { x: 21600, y: (-11200) as i64 },
        Point { x: 21600, y: (-12000) as i64 },
        Point { x: 21200, y: (-12400) as i64 },
        Point { x: 21200, y: (-18400) as i64 },
        Point { x: 21600, y: (-18800) as i64 },
        Point { x: 21600, y: (-40000) as i64 },
    ]
}

pub open spec fn spec_stage_side_platform_left() -> Seq<Point> {
    seq![
        Point { x: (-23800) as i64, y: 9380 },
        Point { x: (-11200) as i64, y: 9380 },
    ]
}

pub open spec fn spec_stage_side_platform_right() -> Seq<Point> {
    seq![
        Point { x: 11200, y: 9380 },
        Point { x: 23800, y: 9380 },
    ]
}

pub open spec fn spec_stage_top_platform() -> Seq<Point> {
    seq![
        Point { x: (-6300) as i64, y: 16800 },
        Point { x: 6300, y: 16800 },
    ]
}

impl FightingStage {
    pub fn new() -> (r: FightingStage)
        ensures
            r.grounds@.len() == 1 && r.grounds@[0]@ == spec_stage_ground(),
            r.ceilings@.len() == 0,
            r.left_walls@.len() == 1 && r.left_walls@[0]@ == spec_stage_left_wall(),
            r.right_walls@.len() == 1 && r.right_walls@[0]@ == spec_stage_right_wall(),
            r.platforms@.len() == 3,
            r.platforms@[0]@ == spec_stage_side_platform_left(),
            r.platforms@[1]@ == spec_stage_side_platform_right(),
            r.platforms@[2]@ == spec_stage_top_platform(),
    {
        let mut ground: Vec<Point> = Vec::new();
        ground.push(Point { x: -22400, y: -1400 });
        ground.push(Point { x: -15600, y: 0 });
        ground.push(Point { x: 15600, y: 0 });
        ground.push(Point { x: 22400, y: -1400 });
        let mut left_wall: Vec<Point> = Vec::new();
        left_wall.push(Point { x: -22400, y: -1400 });
        left_wall.push(Point { x: -22400, y: -2800 });
        left_wall.push(Point { x: -22000, y: -3200 });
        left_wall.push(Point { x: -21600, y: -4400 });
        left_wall.push(Point { x: -21200, y: -4800 });
        left_wall.push(Point { x: -21200, y: -10800 });
        left_wall.push(Point { x: -21600, y: -11200 });
        left_wall.push(Point { x: -21600, y: -12000 });
        left_wall.push(Point { x: -21200, y: -12400 });
        left_wall.push(Point { x: -21200, y: -18400 });
        left_wall.push(Point { x: -21600, y: -18800 });
        left_wall.push(Point { x: -21600, y: -40000 });
        let mut right_wall: Vec<Point> = Vec::new();
        right_wall.push(Point { x: 22400, y: -1400 });
        right_wall.push(Point { x: 22400, y: -2800 });
        right_wall.push(Point { x: 22000, y: -3200 });
        right_wall.push(Point { x: 21600, y: -4400 });
        right_wall.push(Point { x: 21200, y: -4800 });
        right_wall.push(Point { x: 21200, y: -10800 });
        right_wall.push(Point { x: 21600, y: -11200 });
        right_wall.push(Point { x: 21600, y: -12000 });
        right_wall.push(Point { x: 21200, y: -12400 });
        right_wall.push(Point { x: 21200, y: -18400 });
        right_wall.push(Point { x: 21600, y: -18800 });
        right_wall.push(Point { x: 21600, y: -40000 });
        let mut side_platform_left: Vec<Point> = Vec::new();
        side_platform_left.push(Point { x: -23800, y: 9380 });
        side_platform_left.push(Point { x: -11200, y: 9380 });
        let mut side_platform_right: Vec<Point> = Vec::new();
        side_platform_right.push(Point { x: 11200, y: 9380 });
        side_platform_right.push(Point { x: 23800, y: 9380 });
        let mut top_platform: Vec<Point> = Vec::new();
        top_platform.push(Point { x: -6300, y: 16800 });
        top_platform.push(Point { x: 6300, y: 16800 });
        proof {
            assert(ground@ =~= spec_stage_ground());
            assert(left_wall@ =~= spec_stage_left_wall());
            assert(right_wall@ =~= spec_stage_right_wall());
            assert(side_platform_left@ =~= spec_stage_side_platform_left());
            assert(side_platform_right@ =~= spec_stage_side_platform_right());
            assert(top_platform@ =~= spec_stage_top_platform());
        }
        let mut grounds: Vec<Vec<Point>> = Vec::new();
        grounds.push(ground);
        let ceilings: Vec<Vec<Point>> = Vec::new();
        let mut left_walls: Vec<Vec<Point>> = Vec::new();
        left_walls.push(left_wall);
        let mut right_walls: Vec<Vec<Point>> = Vec::new();
        right_walls.push(right_wall);
        let mut platforms: Vec<Vec<Point>> = Vec::new();
        platforms.push(side_platform_left);
        platforms.push(side_platform_right);
        platforms.push(top_platform);
        FightingStage { grounds, ceilings, left_walls, right_walls, platforms }
    }

    pub fn grounds(&self) -> (r: &Vec<Vec<Point>>)
        ensures
            r == self.grounds,
    {
        &self.grounds
    }

    pub fn ceilings(&self) -> (r: &Vec<Vec<Point>>)
        ensures
            r == self.ceilings,
    {
        &self.ceilings
    }

    pub fn left_walls(&self) -> (r: &Vec<Vec<Point>>)
        ensures
            r == self.left_walls,
    {
        &self.left_walls
    }

    pub fn right_walls(&self) -> (r: &Vec<Vec<Point>>)
        ensures
            r == self.right_walls,
    {
        &self.right_walls
    }

    pub fn platforms(&self) -> (r: &Vec<Vec<Point>>)
        ensures
            r == self.platforms,
    {
        &self.platforms
    }
}

} // verus!
