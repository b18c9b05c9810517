//! Orchestration: owns the fighter and the stage polylines, drives the
//! per-frame update (input conversion, pause and frame-advance gating, the
//! fighter step), and resolves the resulting movement against every stage
//! segment, forcing a landing on a valid ground hit.

use vstd::prelude::*;
use crate::controller_state::ControllerState;
use crate::fighter::Fighter;
use crate::fx::{fx_mul, fx_sub, spec_mul, spec_sub};
use crate::line_math::{LineSegment, PolyLine};
use crate::point_math::Point;
use crate::vector_math::Vector;

verus! {

/// How far the movement segment is extended backward, against the movement
/// direction, so thin geometry cannot be tunnelled through at low speeds
/// (0.01 game units).
pub const COLLISION_TOLERANCE: i64 = 4;

pub struct FightingGame {
    pub input: ControllerState,
    pub player: Fighter,
    pub is_paused: bool,
    pub collision_poly_lines: Vec<PolyLine>,
}

/// The vertex chain of the default stage's ground line.
pub open spec fn spec_default_stage_points() -> Seq<Point> {
    seq![
        Point { x: (-22400) as i64, y: (-1400) as i64 },
        Point { x: (-11200) as i64, y: 5000 },
        Point { x: (-6000) as i64, y: (-2200) as i64 },
        Point { x: (-1600) as i64, y: 0 },
        Point { x: 1600, y: 0 },
        Point { x: 6000, y: (-2200) as i64 },
        Point { x: 11200, y: 5000 },
        Point { x: 22400, y: (-1400) as i64 },
    ]
}

impl FightingGame {
    /// Every stage segment has in-range coordinates.
    pub open spec fn stage_wf(self) -> bool {
        forall|i: int, j: int|
            0 <= i < self.collision_poly_lines@.len() && 0 <= j
                < self.collision_poly_lines@[i].segments@.len()
                ==> (#[trigger] self.collision_poly_lines@[i].segments@[j]).wf()
    }

    pub open spec fn wf(self) -> bool {
        self.input.wf() && self.player.wf() && self.stage_wf()
    }

    pub fn default() -> (r: FightingGame)
        ensures
            r.wf(),
            !r.is_paused,
            r.input == ControllerState::spec_default(),
            r.collision_poly_lines@.len() == 1,
            r.collision_poly_lines@[0].segments@.len() == 7,
            forall|i: int|
                0 <= i < 7 ==> r.collision_poly_lines@[0].segments@[i] == (LineSegment {
                    point_a: spec_default_stage_points()[i],
                    point_b: spec_default_stage_points()[i + 1],
                }),
            r.player.state == crate::fighter::FighterState::Idle,
    {
        let mut points: Vec<Point> = Vec::new();
        points.push(Point { x: -22400, y: -1400 });
        points.push(Point { x: -11200, y: 5000 });
        points.push(Point { x: -6000, y: -2200 });
        points.push(Point { x: -1600, y: 0 });
        points.push(Point { x: 1600, y: 0 });
        points.push(Point { x: 6000, y: -2200 });
        points.push(Point { x: 11200, y: 5000 });
        points.push(Point { x: 22400, y: -1400 });
        proof {
            assert(points@ =~= spec_default_stage_points());
        }
        let ground = PolyLine::from_points(&points);
        let mut poly_lines: Vec<PolyLine> = Vec::new();
        poly_lines.push(ground);
        FightingGame {
            input: ControllerState::default(),
            player: Fighter::fox(),
            is_paused: false,
            collision_poly_lines: poly_lines,
        }
    }

    /// The fighter's ECB-bottom movement over the frame, intersected with
    /// one stage segment: the resolved position is the intersection point
    /// slid along the segment by the projection of the remaining
    /// penetration, or nothing when the movement does not cross the
    /// segment.
    pub open spec fn spec_ground_collision(player: Fighter, ground_line: LineSegment) -> Option<
        Point,
    > {
        let previous = Point {
            x: spec_add_i64(player.ecb.bottom.x as int, player.previous_position.x as int),
            y: spec_add_i64(player.ecb.bottom.y as int, player.previous_position.y as int),
        };
        let current = Point {
            x: spec_add_i64(player.ecb.bottom.x as int, player.position.x as int),
            y: spec_add_i64(player.ecb.bottom.y as int, player.position.y as int),
        };
        let movement = Vector {
            x: spec_sub(current.x as int, previous.x as int) as i64,
            y: spec_sub(current.y as int, previous.y as int) as i64,
        };
        let direction = movement.spec_direction();
        let tolerant_line = LineSegment {
            point_a: Point {
                x: spec_sub(
                    previous.x as int,
                    spec_mul(direction.x as int, COLLISION_TOLERANCE as int),
                ) as i64,
                y: spec_sub(
                    previous.y as int,
                    spec_mul(direction.y as int, COLLISION_TOLERANCE as int),
                ) as i64,
            },
            point_b: current,
        };
        if tolerant_line.spec_intersects_with(ground_line) {
            match tolerant_line.spec_intersection_with(ground_line) {
                Some(intersection) => {
                    let penetration = Vector {
                        x: spec_sub(current.x as int, intersection.x as int) as i64,
                        y: spec_sub(current.y as int, intersection.y as int) as i64,
                    };
                    let ground_direction = ground_line.spec_segment_direction();
                    let projection = penetration.spec_dot(ground_direction);
                    Some(
                        Point {
                            x: spec_add_i64(
                                intersection.x as int,
                                spec_mul(ground_direction.x as int, projection),
                            ),
                            y: spec_add_i64(
                                intersection.y as int,
                                spec_mul(ground_direction.y as int, projection),
                            ),
                        },
                    )
                },
                None => None,
            }
        } else {
            None
        }
    }

    fn get_ground_line_collision_position(
        player: &Fighter,
        ground_line: &LineSegment,
    ) -> (r: Option<Point>)
        requires
            ground_line.wf(),
        ensures
            r == FightingGame::spec_ground_collision(*player, *ground_line),
    {
        let previous = Point {
            x: crate::fx::fx_add(player.ecb.bottom.x, player.previous_position.x),
            y: crate::fx::fx_add(player.ecb.bottom.y, player.previous_position.y),
        };
        let current = Point {
            x: crate::fx::fx_add(player.ecb.bottom.x, player.position.x),
            y: crate::fx::fx_add(player.ecb.bottom.y, player.position.y),
        };
        let movement = Vector { x: fx_sub(current.x, previous.x), y: fx_sub(current.y, previous.y) };
        let direction = movement.direction();
        let tolerant_line = LineSegment {
            point_a: Point {
                x: fx_sub(previous.x, fx_mul(direction.x, COLLISION_TOLERANCE)),
                y: fx_sub(previous.y, fx_mul(direction.y, COLLISION_TOLERANCE)),
            },
            point_b: current,
        };
        if tolerant_line.intersects_with(ground_line) {
            match tolerant_line.intersection_with(ground_line) {
                Some(intersection) => {
                    let penetration = Vector {
                        x: fx_sub(current.x, intersection.x),
                        y: fx_sub(current.y, intersection.y),
                    };
                    let ground_direction = ground_line.direction();
                    let projection = penetration.dot(&ground_direction);
                    Some(
                        Point {
                            x: crate::fx::fx_add(
                                intersection.x,
                                fx_mul(ground_direction.x, projection),
                            ),
                            y: crate::fx::fx_add(
                                intersection.y,
                                fx_mul(ground_direction.y, projection),
                            ),
                        },
                    )
                },
                None => None,
            }
        } else {
            None
        }
    }

    /// The fighter after being resolved against one segment: on a hit, and
    /// only while the fighter can land and is moving into the surface (its
    /// velocity against the segment's outward normal), the position snaps
    /// to the resolved point, the velocity loses its component along the
    /// normal, and the landing is forced.
    pub open spec fn spec_resolve_one(player: Fighter, segment: LineSegment) -> Fighter {
        match FightingGame::spec_ground_collision(player, segment) {
            Some(collision_position) => {
                let normal = segment.spec_normal();
                if player.spec_can_land() && player.velocity.spec_dot(normal) <= 0 {
                    let normal_component = player.velocity.spec_dot(normal);
                    let landed = Fighter {
                        position: collision_position,
                        velocity: Vector {
                            x: spec_sub(
                                player.velocity.x as int,
                                spec_mul(normal_component, normal.x as int),
                            ) as i64,
                            y: spec_sub(
                                player.velocity.y as int,
                                spec_mul(normal_component, normal.y as int),
                            ) as i64,
                        },
                        ..player
                    };
                    landed.spec_land()
                } else {
                    player
                }
            },
            None => player,
        }
    }

    fn resolve_one(&mut self, segment: LineSegment)
        requires
            segment.wf(),
        ensures
            final(self).player == FightingGame::spec_resolve_one(old(self).player, segment),
            final(self).input == old(self).input,
            final(self).is_paused == old(self).is_paused,
            final(self).collision_poly_lines == old(self).collision_poly_lines,
    {
        let possible_collision = FightingGame::get_ground_line_collision_position(
            &self.player,
            &segment,
        );
        if let Some(collision_position) = possible_collision {
            let collision_normal = segment.normal();
            let normal_component = self.player.velocity.dot(&collision_normal);
            if self.player.can_land() && normal_component <= 0 {
                self.player.position.x = collision_position.x;
                self.player.position.y = collision_position.y;
                self.player.velocity.x = fx_sub(
                    self.player.velocity.x,
                    fx_mul(normal_component, collision_normal.x),
                );
                self.player.velocity.y = fx_sub(
                    self.player.velocity.y,
                    fx_mul(normal_component, collision_normal.y),
                );
                self.player.land();
            }
        }
    }

    /// The fighter after being resolved against the segments of one chain,
    /// in order, starting at index `i`.
    pub open spec fn spec_resolve_segments(
        player: Fighter,
        segments: Seq<LineSegment>,
        i: int,
    ) -> Fighter
        decreases segments.len() - i,
    {
        if i < 0 || i >= segments.len() {
            player
        } else {
            FightingGame::spec_resolve_segments(
                FightingGame::spec_resolve_one(player, segments[i]),
                segments,
                i + 1,
            )
        }
    }

    /// The fighter after being resolved against every chain from index `i` on.
    pub open spec fn spec_resolve_polys(
        player: Fighter,
        polys: Seq<PolyLine>,
        i: int,
    ) -> Fighter
        decreases polys.len() - i,
    {
        if i < 0 || i >= polys.len() {
            player
        } else {
            FightingGame::spec_resolve_polys(
                FightingGame::spec_resolve_segments(player, polys[i].segments@, 0),
                polys,
                i + 1,
            )
        }
    }

    fn resolve_collisions(&mut self)
        requires
            old(self).stage_wf(),
        ensures
            final(self).player == FightingGame::spec_resolve_polys(
                old(self).player,
                old(self).collision_poly_lines@,
                0,
            ),
            final(self).input == old(self).input,
            final(self).is_paused == old(self).is_paused,
            final(self).collision_poly_lines == old(self).collision_poly_lines,
    {
        let ghost polys = self.collision_poly_lines@;
        let ghost player0 = self.player;
        let num_polys = self.collision_poly_lines.len();
        let mut i: usize = 0;
        while i < num_polys
            invariant
                num_polys == polys.len(),
                0 <= i <= num_polys,
                self.collision_poly_lines == old(self).collision_poly_lines,
                self.collision_poly_lines@ == polys,
                self.input == old(self).input,
                self.is_paused == old(self).is_paused,
                old(self).stage_wf(),
                FightingGame::spec_resolve_polys(self.player, polys, i as int)
                    == FightingGame::spec_resolve_polys(player0, polys, 0),
            decreases num_polys - i,
        {
            let num_segments = self.collision_poly_lines[i].segments.len();
            let ghost segs = polys[i as int].segments@;
            let ghost player_at_poly = self.player;
            let mut j: usize = 0;
            while j < num_segments
                invariant
                    0 <= i < num_polys,
                    num_polys == polys.len(),
                    num_segments == segs.len(),
                    0 <= j <= num_segments,
                    self.collision_poly_lines == old(self).collision_poly_lines,
                    self.collision_poly_lines@ == polys,
                    segs == polys[i as int].segments@,
                    self.input == old(self).input,
                    self.is_paused == old(self).is_paused,
                    old(self).stage_wf(),
                    FightingGame::spec_resolve_segments(self.player, segs, j as int)
                        == FightingGame::spec_resolve_segments(player_at_poly, segs, 0),
                decreases num_segments - j,
            {
                let segment = self.collision_poly_lines[i].segments[j];
                assert(segment.wf()) by {
                    assert(old(self).collision_poly_lines@[i as int].segments@[j as int].wf());
                }
                self.resolve_one(segment);
                j += 1;
            }
            i += 1;
        }
    }

    /// One whole real-time frame of the game: copy and quantize the fresh
    /// input, run pause and frame-advance gating, and (unless gated) step
    /// the fighter and resolve collisions. Input edge state advances even
    /// while paused, so buffered edges cannot leak into the next unpaused
    /// frame.
    pub open spec fn spec_update(self, input: ControllerState) -> FightingGame {
        let fed = FightingGame {
            input: self.input.spec_update().spec_copy_inputs(
                input,
            ).spec_convert_to_melee_values(),
            ..self
        };
        let paused = if fed.input.start_button.spec_just_pressed() {
            FightingGame { is_paused: !fed.is_paused, ..fed }
        } else {
            fed
        };
        let frame_advance = paused.is_paused && paused.input.z_button.spec_just_pressed();
        if !paused.is_paused || frame_advance {
            let stepped = FightingGame {
                player: paused.player.spec_update(paused.input),
                ..paused
            };
            FightingGame {
                player: FightingGame::spec_resolve_polys(
                    stepped.player,
                    stepped.collision_poly_lines@,
                    0,
                ),
                ..stepped
            }
        } else {
            paused
        }
    }

    /// Must run exactly once per simulated frame with that frame's raw
    /// input snapshot.
    pub fn update(&mut self, input: &ControllerState)
        requires
            input.wf(),
            old(self).stage_wf(),
        ensures
            *final(self) == old(self).spec_update(*input),
    {
        self.input.update();
        self.input.copy_inputs(input);
        self.input.convert_to_melee_values();
        let mut frame_advance = false;
        if self.input.start_button.just_pressed() {
            self.is_paused = !self.is_paused;
        }
        if self.is_paused && self.input.z_button.just_pressed() {
            frame_advance = true;
        }
        if !self.is_paused || frame_advance {
            self.player.update(&self.input);
            self.resolve_collisions();
        }
    }
}

/// Saturating add at the type the point fields carry.
pub open spec fn spec_add_i64(a: int, b: int) -> i64 {
    crate::fx::spec_add(a, b) as i64
}

} // verus!
