//! The fighter: per-character tunables, kinematic state, and the movement
//! state machine. Each frame runs the current state's transition function,
//! then the (possibly new) state's update function; update functions key
//! one-time entry actions on `state_frame == 0` and `previous_state`.
//!
//! Every tunable and every velocity is a fixed-point value (`FX_ONE` units
//! per game unit), so each frame of the machine is an exact function of the
//! previous state and the frame's input.

use vstd::prelude::*;
use crate::controller_state::ControllerState;
use crate::ecb::ECB;
use crate::fx::{
    fx_abs, fx_add, fx_div, fx_in_range, fx_max, fx_min, fx_mul, fx_mul_div, fx_neg, fx_sub,
    frame_inc, iabs, imax, imin, inc32, sat, sgn, spec_add, spec_div, spec_mul, spec_mul_div,
    spec_sub, FX_MAX, FX_ONE,
};
use crate::point_math::Point;
use crate::vector_math::Vector;

verus! {

#[derive(Clone, Copy, PartialEq, Eq, Structural, Debug)]
pub enum FighterState {
    Idle,
    Turn,
    Walk,
    Dash,
    Run,
    RunBrake,
    RunTurn,
    JumpSquat,
    Airborne,
    AirDodge,
    Land,
    LandSpecial,
}

/// The magnitude a stick deflection must reach within its first two active
/// frames to read as a horizontal smash input (0.8 of full deflection).
pub const X_SMASH_THRESHOLD: i64 = 320;

/// The same for a vertical smash input (0.6625 of full deflection).
pub const Y_SMASH_THRESHOLD: i64 = 265;

/// The empirically required velocity cut on entering Turn from Dash
/// (1.73 game units); its derivation is unknown, the value is pinned.
pub const TURN_FROM_DASH_VELOCITY_CUT: i64 = 692;

/// Speed of the initial air-dodge burst (3.1 game units per frame).
pub const AIR_DODGE_SPEED: i64 = 1240;

/// Per-frame multiplicative decay of the air-dodge burst (0.9).
pub const AIR_DODGE_DECAY: i64 = 360;

#[derive(Clone, Copy)]
pub struct Fighter {
    pub input: ControllerState,
    pub position: Point,
    pub previous_position: Point,
    pub velocity: Vector,
    pub air_jumps_left: u32,
    pub is_facing_right: bool,
    pub was_facing_right: bool,
    pub state: FighterState,
    pub previous_state: FighterState,
    pub state_frame: u32,
    pub dash_should_reset_velocity: bool,
    pub run_turn_melee_frame: u32,
    pub run_turn_was_facing_right_initially: bool,
    pub run_turn_has_changed_direction: bool,
    pub run_turn_has_fully_turned: bool,
    pub ecb: ECB,
    pub ground_friction: i64,
    pub dash_start_velocity: i64,
    pub dash_max_velocity: i64,
    pub dash_base_acceleration: i64,
    pub dash_axis_acceleration: i64,
    pub walk_start_velocity: i64,
    pub walk_max_velocity: i64,
    pub walk_acceleration: i64,
    pub air_friction: i64,
    pub air_base_acceleration: i64,
    pub air_axis_acceleration: i64,
    pub air_max_velocity: i64,
    pub jump_squat_frames: u32,
    pub jump_velocity_dampening: i64,
    pub jump_max_horizontal_velocity: i64,
    pub jump_start_horizontal_velocity: i64,
    pub short_hop_velocity: i64,
    pub full_hop_velocity: i64,
    pub fall_velocity: i64,
    pub fast_fall_velocity: i64,
    pub air_jump_velocity_multiplier: i64,
    pub air_jump_horizontal_axis_multiplier: i64,
    pub air_jumps: u32,
    pub gravity: i64,
    pub dash_min_frames: u32,
    pub dash_max_frames: u32,
    pub slow_dash_back_frames: u32,
    pub turn_frames: u32,
    pub run_brake_frames: u32,
}

// Character builders.
impl Fighter {
    /// All tunables are in the saturated fixed-point range, as are all
    /// kinematic values; every frame step preserves this.
    pub open spec fn wf(self) -> bool {
        self.input.wf() && self.position.wf() && self.previous_position.wf()
            && self.velocity.wf() && self.ecb.wf() && fx_in_range(self.ground_friction as int)
            && fx_in_range(self.dash_start_velocity as int) && fx_in_range(
            self.dash_max_velocity as int,
        ) && fx_in_range(self.dash_base_acceleration as int) && fx_in_range(
            self.dash_axis_acceleration as int,
        ) && fx_in_range(self.walk_start_velocity as int) && fx_in_range(
            self.walk_max_velocity as int,
        ) && fx_in_range(self.walk_acceleration as int) && fx_in_range(self.air_friction as int)
            && fx_in_range(self.air_base_acceleration as int) && fx_in_range(
            self.air_axis_acceleration as int,
        ) && fx_in_range(self.air_max_velocity as int) && fx_in_range(
            self.jump_velocity_dampening as int,
        ) && fx_in_range(self.jump_max_horizontal_velocity as int) && fx_in_range(
            self.jump_start_horizontal_velocity as int,
        ) && fx_in_range(self.short_hop_velocity as int) && fx_in_range(
            self.full_hop_velocity as int,
        ) && fx_in_range(self.fall_velocity as int) && fx_in_range(
            self.fast_fall_velocity as int,
        ) && fx_in_range(self.air_jump_velocity_multiplier as int) && fx_in_range(
            self.air_jump_horizontal_axis_multiplier as int,
        ) && fx_in_range(self.gravity as int)
    }

    pub fn default() -> (r: Fighter)
        ensures
            r.wf(),
            r.state == FighterState::Idle,
            r.previous_state == FighterState::Idle,
            r.state_frame == 0,
            r.is_facing_right,
            r.was_facing_right,
            r.input == ControllerState::spec_default(),
            r.position == (Point { x: 0, y: 0 }),
            r.previous_position == (Point { x: 0, y: 0 }),
            r.velocity == (Vector { x: 0, y: 0 }),
            r.air_jumps_left == 0,
            !r.dash_should_reset_velocity,
            !r.run_turn_has_changed_direction,
            !r.run_turn_has_fully_turned,
    {
        Fighter {
            input: ControllerState::default(),
            position: Point::default(),
            previous_position: Point::default(),
            velocity: Vector::default(),
            air_jumps_left: 0,
            is_facing_right: true,
            was_facing_right: true,
            state: FighterState::Idle,
            previous_state: FighterState::Idle,
            state_frame: 0,
            dash_should_reset_velocity: false,
            run_turn_melee_frame: 0,
            run_turn_was_facing_right_initially: true,
            run_turn_has_changed_direction: false,
            run_turn_has_fully_turned: false,
            ecb: ECB {
                bottom: Point { x: 0, y: 0 },
                left: Point { x: 0, y: 0 },
                top: Point { x: 0, y: 0 },
                right: Point { x: 0, y: 0 },
            },
            ground_friction: 0,
            dash_start_velocity: 0,
            dash_max_velocity: 0,
            dash_base_acceleration: 0,
            dash_axis_acceleration: 0,
            walk_start_velocity: 0,
            walk_max_velocity: 0,
            walk_acceleration: 0,
            air_friction: 0,
            air_base_acceleration: 0,
            air_axis_acceleration: 0,
            air_max_velocity: 0,
            jump_squat_frames: 0,
            jump_velocity_dampening: 0,
            jump_max_horizontal_velocity: 0,
            jump_start_horizontal_velocity: 0,
            short_hop_velocity: 0,
            full_hop_velocity: 0,
            fall_velocity: 0,
            fast_fall_velocity: 0,
            air_jump_velocity_multiplier: 0,
            air_jump_horizontal_axis_multiplier: 0,
            air_jumps: 0,
            gravity: 0,
            dash_min_frames: 0,
            dash_max_frames: 0,
            slow_dash_back_frames: 0,
            turn_frames: 0,
            run_brake_frames: 0,
        }
    }

    /// The one implemented character preset, in fixed-point game units.
    pub fn fox() -> (r: Fighter)
        ensures
            r.wf(),
            r.state == FighterState::Idle,
            r.state_frame == 0,
            r.is_facing_right,
            r.position == (Point { x: 0, y: 0 }),
            r.velocity == (Vector { x: 0, y: 0 }),
            r.ground_friction == 32,
            r.dash_start_velocity == 760,
            r.dash_max_velocity == 880,
            r.dash_base_acceleration == 8,
            r.dash_axis_acceleration == 40,
            r.walk_start_velocity == 64,
            r.walk_max_velocity == 640,
            r.walk_acceleration == 80,
            r.air_friction == 8,
            r.air_base_acceleration == 8,
            r.air_axis_acceleration == 24,
            r.air_max_velocity == 332,
            r.jump_squat_frames == 3,
            r.jump_velocity_dampening == 332,
            r.jump_max_horizontal_velocity == 680,
            r.jump_start_horizontal_velocity == 288,
            r.short_hop_velocity == 840,
            r.full_hop_velocity == 1472,
            r.fall_velocity == 1120,
            r.fast_fall_velocity == 1360,
            r.air_jump_velocity_multiplier == 480,
            r.air_jump_horizontal_axis_multiplier == 360,
            r.air_jumps == 1,
            r.gravity == 92,
            r.dash_min_frames == 11,
            r.dash_max_frames == 21,
            r.slow_dash_back_frames == 5,
            r.turn_frames == 11,
            r.run_brake_frames == 18,
            r.input == ControllerState::spec_default(),
    {
        Fighter {
            ground_friction: 32,
            dash_start_velocity: 760,
            dash_max_velocity: 880,
            dash_base_acceleration: 8,
            dash_axis_acceleration: 40,
            walk_start_velocity: 64,
            walk_max_velocity: 640,
            walk_acceleration: 80,
            air_friction: 8,
            air_base_acceleration: 8,
            air_axis_acceleration: 24,
            air_max_velocity: 332,
            jump_squat_frames: 3,
            jump_velocity_dampening: 332,
            jump_max_horizontal_velocity: 680,
            jump_start_horizontal_velocity: 288,
            short_hop_velocity: 840,
            full_hop_velocity: 1472,
            fall_velocity: 1120,
            fast_fall_velocity: 1360,
            air_jump_velocity_multiplier: 480,
            air_jump_horizontal_axis_multiplier: 360,
            air_jumps: 1,
            gravity: 92,
            dash_min_frames: 11,
            dash_max_frames: 21,
            slow_dash_back_frames: 5,
            turn_frames: 11,
            run_brake_frames: 18,
            ..Fighter::default()
        }
    }
}

// Methods.
impl Fighter {
    pub open spec fn spec_change_state(self, new_state: FighterState) -> Fighter {
        Fighter { state_frame: 0, previous_state: self.state, state: new_state, ..self }
    }

    /// The one operation that changes the discrete state: it snapshots the
    /// previous state and restarts the state-frame counter in the same step.
    pub fn change_state(&mut self, new_state: FighterState)
        ensures
            *final(self) == old(self).spec_change_state(new_state),
    {
        self.state_frame = 0;
        self.previous_state = self.state;
        self.state = new_state;
    }

    /// The facing as a unit-scaled sign.
    pub open spec fn spec_facing_direction(self) -> int {
        if self.is_facing_right {
            FX_ONE as int
        } else {
            -(FX_ONE as int)
        }
    }

    pub fn facing_direction(&self) -> (r: i64)
        ensures
            r as int == self.spec_facing_direction(),
    {
        if self.is_facing_right {
            FX_ONE
        } else {
            -FX_ONE
        }
    }

    pub fn just_turned(&self) -> (r: bool)
        ensures
            r == (self.is_facing_right != self.was_facing_right),
    {
        self.is_facing_right != self.was_facing_right
    }

    pub open spec fn spec_can_land(self) -> bool {
        self.state == FighterState::Airborne || self.state == FighterState::AirDodge
    }

    pub fn can_land(&self) -> (r: bool)
        ensures
            r == self.spec_can_land(),
    {
        self.state == FighterState::Airborne || self.state == FighterState::AirDodge
    }

    /// A forced touchdown: Airborne becomes Land, AirDodge becomes
    /// LandSpecial, anything else is left alone.
    pub open spec fn spec_land(self) -> Fighter {
        if self.state == FighterState::Airborne {
            self.spec_change_state(FighterState::Land)
        } else if self.state == FighterState::AirDodge {
            self.spec_change_state(FighterState::LandSpecial)
        } else {
            self
        }
    }

    pub fn land(&mut self)
        ensures
            *final(self) == old(self).spec_land(),
    {
        if self.state == FighterState::Airborne {
            self.change_state(FighterState::Land);
        } else if self.state == FighterState::AirDodge {
            self.change_state(FighterState::LandSpecial);
        }
    }

    pub open spec fn spec_should_jump(self) -> bool {
        self.input.x_button.spec_just_pressed() || self.input.y_button.spec_just_pressed()
    }

    pub fn should_jump(&self) -> (r: bool)
        ensures
            r == self.spec_should_jump(),
    {
        self.input.x_button.just_pressed() || self.input.y_button.just_pressed()
    }

    pub open spec fn spec_jump_is_active(self) -> bool {
        self.input.x_button.is_pressed || self.input.y_button.is_pressed
    }

    pub fn jump_is_active(&self) -> (r: bool)
        ensures
            r == self.spec_jump_is_active(),
    {
        self.input.x_button.is_pressed || self.input.y_button.is_pressed
    }

    /// The stick is active and deflected the way the fighter faces.
    pub open spec fn spec_x_axis_is_forward(self) -> bool {
        self.input.x_axis.spec_is_active() && ((self.input.x_axis.value > 0
            && self.is_facing_right) || (self.input.x_axis.value < 0 && !self.is_facing_right))
    }

    pub fn x_axis_is_forward(&self) -> (r: bool)
        ensures
            r == self.spec_x_axis_is_forward(),
    {
        let x_axis = &self.input.x_axis;
        x_axis.is_active() && ((x_axis.value > 0 && self.is_facing_right) || (x_axis.value < 0
            && !self.is_facing_right))
    }

    pub open spec fn spec_x_axis_is_backward(self) -> bool {
        self.input.x_axis.spec_is_active() && !self.spec_x_axis_is_forward()
    }

    pub fn x_axis_is_backward(&self) -> (r: bool)
        ensures
            r == self.spec_x_axis_is_backward(),
    {
        self.input.x_axis.is_active() && !self.x_axis_is_forward()
    }

    /// A hard horizontal flick: high deflection reached within the first two
    /// active frames.
    pub open spec fn spec_x_axis_smashed(self) -> bool {
        sat(iabs(self.input.x_axis.value as int)) >= X_SMASH_THRESHOLD as int
            && self.input.x_axis.frames_active < 2
    }

    pub fn x_axis_smashed(&self) -> (r: bool)
        ensures
            r == self.spec_x_axis_smashed(),
    {
        fx_abs(self.input.x_axis.value) >= X_SMASH_THRESHOLD && self.input.x_axis.frames_active
            < 2
    }

    /// A hard vertical flick, with the lower vertical threshold.
    pub open spec fn spec_y_axis_smashed(self) -> bool {
        sat(iabs(self.input.y_axis.value as int)) >= Y_SMASH_THRESHOLD as int
            && self.input.y_axis.frames_active < 2
    }

    pub fn y_axis_smashed(&self) -> (r: bool)
        ensures
            r == self.spec_y_axis_smashed(),
    {
        fx_abs(self.input.y_axis.value) >= Y_SMASH_THRESHOLD && self.input.y_axis.frames_active
            < 2
    }
}

// Shared physics primitives.
impl Fighter {
    /// Friction: remove up to `friction` from the magnitude of `velocity`,
    /// never crossing zero.
    pub open spec fn spec_apply_friction_to_value(self, velocity: int, friction: int) -> int {
        sat(velocity - sgn(velocity) * imin(sat(iabs(velocity)), friction))
    }

    pub fn apply_friction_to_value(&self, velocity: i64, friction: i64) -> (r: i64)
        ensures
            r as int == self.spec_apply_friction_to_value(velocity as int, friction as int),
    {
        let m = fx_min(fx_abs(velocity), friction);
        if velocity > 0 {
            fx_sub(velocity, m)
        } else if velocity < 0 {
            fx_add(velocity, m)
        } else {
            velocity
        }
    }

    pub open spec fn spec_apply_movement_friction(self, friction: int) -> Fighter {
        Fighter {
            velocity: Vector {
                x: self.spec_apply_friction_to_value(self.velocity.x as int, friction) as i64,
                ..self.velocity
            },
            ..self
        }
    }

    fn apply_movement_friction(&mut self, friction: i64)
        ensures
            *final(self) == old(self).spec_apply_movement_friction(friction as int),
    {
        self.velocity.x = self.apply_friction_to_value(self.velocity.x, friction);
    }

    /// Acceleration toward a capped velocity: bleed over-speed through
    /// friction first, then push by the stick, clamped so the push can never
    /// carry the velocity past the cap in the direction of input.
    pub open spec fn spec_apply_acceleration_to_value(
        self,
        velocity: int,
        axis_value: int,
        axis_direction: int,
        base_acceleration: int,
        axis_acceleration: int,
        max_velocity: int,
        friction: int,
    ) -> int {
        let bled = if sat(iabs(velocity)) > max_velocity {
            self.spec_apply_friction_to_value(velocity, friction)
        } else {
            velocity
        };
        let push = spec_add(
            spec_mul(axis_direction, base_acceleration),
            spec_mul(axis_value, axis_acceleration),
        );
        if axis_value > 0 {
            spec_add(bled, imax(imin(push, spec_sub(max_velocity, bled)), 0))
        } else if axis_value < 0 {
            spec_add(bled, imin(imax(push, spec_sub(-max_velocity, bled)), 0))
        } else {
            bled
        }
    }

    pub fn apply_acceleration_to_value(
        &self,
        velocity: i64,
        axis_value: i64,
        axis_direction: i64,
        base_acceleration: i64,
        axis_acceleration: i64,
        max_velocity: i64,
        friction: i64,
    ) -> (r: i64)
        ensures
            r as int == self.spec_apply_acceleration_to_value(
                velocity as int,
                axis_value as int,
                axis_direction as int,
                base_acceleration as int,
                axis_acceleration as int,
                max_velocity as int,
                friction as int,
            ),
    {
        let mut new_velocity = velocity;
        if fx_abs(velocity) > max_velocity {
            new_velocity = self.apply_friction_to_value(velocity, friction);
        }
        let mut acceleration = fx_add(
            fx_mul(axis_direction, base_acceleration),
            fx_mul(axis_value, axis_acceleration),
        );
        if axis_value > 0 {
            acceleration = fx_min(acceleration, fx_sub(max_velocity, new_velocity));
            acceleration = fx_max(acceleration, 0);
            new_velocity = fx_add(new_velocity, acceleration);
        } else if axis_value < 0 {
            acceleration = fx_max(acceleration, fx_sub(fx_neg(max_velocity), new_velocity));
            acceleration = fx_min(acceleration, 0);
            new_velocity = fx_add(new_velocity, acceleration);
        }
        new_velocity
    }

    pub open spec fn spec_apply_movement_acceleration(
        self,
        base_acceleration: int,
        axis_acceleration: int,
        max_velocity: int,
        friction: int,
    ) -> Fighter {
        Fighter {
            velocity: Vector {
                x: self.spec_apply_acceleration_to_value(
                    self.velocity.x as int,
                    self.input.x_axis.value as int,
                    self.input.x_axis.spec_direction(),
                    base_acceleration,
                    axis_acceleration,
                    max_velocity,
                    friction,
                ) as i64,
                ..self.velocity
            },
            ..self
        }
    }

    fn apply_movement_acceleration(
        &mut self,
        base_acceleration: i64,
        axis_acceleration: i64,
        max_velocity: i64,
        friction: i64,
    )
        ensures
            *final(self) == old(self).spec_apply_movement_acceleration(
                base_acceleration as int,
                axis_acceleration as int,
                max_velocity as int,
                friction as int,
            ),
    {
        let direction = self.input.x_axis.direction();
        self.velocity.x = self.apply_acceleration_to_value(
            self.velocity.x,
            self.input.x_axis.value,
            direction,
            base_acceleration,
            axis_acceleration,
            max_velocity,
            friction,
        );
    }

    pub open spec fn spec_handle_horizontal_air_movement(self) -> Fighter {
        if !self.input.x_axis.spec_is_active() {
            self.spec_apply_movement_friction(self.air_friction as int)
        } else {
            self.spec_apply_movement_acceleration(
                self.air_base_acceleration as int,
                self.air_axis_acceleration as int,
                self.air_max_velocity as int,
                self.air_friction as int,
            )
        }
    }

    fn handle_horizontal_air_movement(&mut self)
        ensures
            *final(self) == old(self).spec_handle_horizontal_air_movement(),
    {
        if !self.input.x_axis.is_active() {
            self.apply_movement_friction(self.air_friction);
        } else {
            self.apply_movement_acceleration(
                self.air_base_acceleration,
                self.air_axis_acceleration,
                self.air_max_velocity,
                self.air_friction,
            );
        }
    }

    /// A one-shot fast fall: while already falling, a hard downward flick
    /// snaps the fall speed to the character's fast-fall speed.
    pub open spec fn spec_handle_fast_fall(self) -> Fighter {
        if self.velocity.y <= 0 && self.input.y_axis.value < 0 && self.spec_y_axis_smashed() {
            Fighter {
                velocity: Vector {
                    y: sat(-(self.fast_fall_velocity as int)) as i64,
                    ..self.velocity
                },
                ..self
            }
        } else {
            self
        }
    }

    fn handle_fast_fall(&mut self)
        ensures
            *final(self) == old(self).spec_handle_fast_fall(),
    {
        if self.velocity.y <= 0 && self.input.y_axis.value < 0 && self.y_axis_smashed() {
            self.velocity.y = fx_neg(self.fast_fall_velocity);
        }
    }

    /// Gravity, capped so one step never pushes the fall speed past the
    /// terminal fall velocity, and never slowing a fall already past it.
    pub open spec fn spec_handle_gravity(self) -> Fighter {
        Fighter {
            velocity: Vector {
                y: spec_sub(
                    self.velocity.y as int,
                    imax(
                        imin(
                            self.gravity as int,
                            spec_add(self.fall_velocity as int, self.velocity.y as int),
                        ),
                        0,
                    ),
                ) as i64,
                ..self.velocity
            },
            ..self
        }
    }

    fn handle_gravity(&mut self)
        ensures
            *final(self) == old(self).spec_handle_gravity(),
    {
        let pull = fx_max(fx_min(self.gravity, fx_add(self.fall_velocity, self.velocity.y)), 0);
        self.velocity.y = fx_sub(self.velocity.y, pull);
    }

    /// Position integration: one frame of velocity.
    pub open spec fn spec_move_with_velocity(self) -> Fighter {
        Fighter {
            position: Point {
                x: spec_add(self.position.x as int, self.velocity.x as int) as i64,
                y: spec_add(self.position.y as int, self.velocity.y as int) as i64,
            },
            ..self
        }
    }

    fn move_with_velocity(&mut self)
        ensures
            *final(self) == old(self).spec_move_with_velocity(),
    {
        self.position.x = fx_add(self.position.x, self.velocity.x);
        self.position.y = fx_add(self.position.y, self.velocity.y);
    }
}

// Transition functions: one per state, each a pure branch on the frame's
// input predicates that may change the discrete state exactly once.
impl Fighter {
    pub open spec fn spec_idle_transition(self) -> Fighter {
        if self.spec_should_jump() {
            self.spec_change_state(FighterState::JumpSquat)
        } else if self.spec_x_axis_is_forward() && self.spec_x_axis_smashed() {
            self.spec_change_state(FighterState::Dash)
        } else if self.spec_x_axis_is_forward() && !self.spec_x_axis_smashed() {
            self.spec_change_state(FighterState::Walk)
        } else if self.spec_x_axis_is_backward() {
            self.spec_change_state(FighterState::Turn)
        } else {
            self
        }
    }

    fn state_idle_transition(&mut self)
        ensures
            *final(self) == old(self).spec_idle_transition(),
    {
        if self.should_jump() {
            self.change_state(FighterState::JumpSquat);
        } else if self.x_axis_is_forward() && self.x_axis_smashed() {
            self.change_state(FighterState::Dash);
        } else if self.x_axis_is_forward() && !self.x_axis_smashed() {
            self.change_state(FighterState::Walk);
        } else if self.x_axis_is_backward() {
            self.change_state(FighterState::Turn);
        }
    }

    pub open spec fn spec_turn_transition(self) -> Fighter {
        if self.spec_should_jump() {
            self.spec_change_state(FighterState::JumpSquat)
        } else if self.spec_x_axis_is_backward() && self.spec_x_axis_smashed() {
            self.spec_change_state(FighterState::Dash)
        } else if self.spec_x_axis_is_forward() && self.state_frame >= self.turn_frames {
            self.spec_change_state(FighterState::Walk)
        } else if self.state_frame >= self.turn_frames {
            self.spec_change_state(FighterState::Idle)
        } else {
            self
        }
    }

    fn state_turn_transition(&mut self)
        ensures
            *final(self) == old(self).spec_turn_transition(),
    {
        if self.should_jump() {
            self.change_state(FighterState::JumpSquat);
        } else if self.x_axis_is_backward() && self.x_axis_smashed() {
            self.change_state(FighterState::Dash);
        } else if self.x_axis_is_forward() && self.state_frame >= self.turn_frames {
            self.change_state(FighterState::Walk);
        } else if self.state_frame >= self.turn_frames {
            self.change_state(FighterState::Idle);
        }
    }

    pub open spec fn spec_walk_transition(self) -> Fighter {
        if self.spec_should_jump() {
            self.spec_change_state(FighterState::JumpSquat)
        } else if self.spec_x_axis_is_forward() && self.spec_x_axis_smashed() {
            self.spec_change_state(FighterState::Dash)
        } else if !self.spec_x_axis_is_forward() {
            self.spec_change_state(FighterState::Idle)
        } else {
            self
        }
    }

    fn state_walk_transition(&mut self)
        ensures
            *final(self) == old(self).spec_walk_transition(),
    {
        if self.should_jump() {
            self.change_state(FighterState::JumpSquat);
        } else if self.x_axis_is_forward() && self.x_axis_smashed() {
            self.change_state(FighterState::Dash);
        } else if !self.x_axis_is_forward() {
            self.change_state(FighterState::Idle);
        }
    }

    pub open spec fn spec_dash_transition(self) -> Fighter {
        if self.spec_should_jump() {
            self.spec_change_state(FighterState::JumpSquat)
        } else if self.spec_x_axis_is_forward() && self.state_frame >= self.dash_max_frames {
            self.spec_change_state(FighterState::Dash)
        } else if self.spec_x_axis_is_forward() && self.state_frame >= self.dash_min_frames
            && self.state_frame < self.dash_max_frames {
            self.spec_change_state(FighterState::Run)
        } else if !self.input.x_axis.spec_is_active() && self.state_frame
            >= self.dash_max_frames {
            self.spec_change_state(FighterState::Idle)
        } else if self.spec_x_axis_is_backward() {
            self.spec_change_state(FighterState::Turn)
        } else {
            self
        }
    }

    fn state_dash_transition(&mut self)
        ensures
            *final(self) == old(self).spec_dash_transition(),
    {
        if self.should_jump() {
            self.change_state(FighterState::JumpSquat);
        } else if self.x_axis_is_forward() && self.state_frame >= self.dash_max_frames {
            self.change_state(FighterState::Dash);
        } else if self.x_axis_is_forward() && self.state_frame >= self.dash_min_frames
            && self.state_frame < self.dash_max_frames {
            self.change_state(FighterState::Run);
        } else if !self.input.x_axis.is_active() && self.state_frame >= self.dash_max_frames {
            self.change_state(FighterState::Idle);
        } else if self.x_axis_is_backward() {
            self.change_state(FighterState::Turn);
        }
    }

    pub open spec fn spec_run_transition(self) -> Fighter {
        if self.spec_should_jump() {
            self.spec_change_state(FighterState::JumpSquat)
        } else if !self.input.x_axis.spec_is_active() {
            self.spec_change_state(FighterState::RunBrake)
        } else if self.spec_x_axis_is_backward() {
            self.spec_change_state(FighterState::RunTurn)
        } else {
            self
        }
    }

    fn state_run_transition(&mut self)
        ensures
            *final(self) == old(self).spec_run_transition(),
    {
        if self.should_jump() {
            self.change_state(FighterState::JumpSquat);
        } else if !self.input.x_axis.is_active() {
            self.change_state(FighterState::RunBrake);
        } else if self.x_axis_is_backward() {
            self.change_state(FighterState::RunTurn);
        }
    }

    pub open spec fn spec_run_brake_transition(self) -> Fighter {
        if self.spec_should_jump() {
            self.spec_change_state(FighterState::JumpSquat)
        } else if self.spec_x_axis_is_backward() && self.state_frame >= self.run_brake_frames {
            self.spec_change_state(FighterState::Turn)
        } else if self.spec_x_axis_is_backward() && self.state_frame < self.run_brake_frames {
            self.spec_change_state(FighterState::RunTurn)
        } else if !self.input.x_axis.spec_is_active() && self.state_frame
            >= self.run_brake_frames {
            self.spec_change_state(FighterState::Idle)
        } else {
            self
        }
    }

    fn state_run_brake_transition(&mut self)
        ensures
            *final(self) == old(self).spec_run_brake_transition(),
    {
        if self.should_jump() {
            self.change_state(FighterState::JumpSquat);
        } else if self.x_axis_is_backward() && self.state_frame >= self.run_brake_frames {
            self.change_state(FighterState::Turn);
        } else if self.x_axis_is_backward() && self.state_frame < self.run_brake_frames {
            self.change_state(FighterState::RunTurn);
        } else if !self.input.x_axis.is_active() && self.state_frame >= self.run_brake_frames {
            self.change_state(FighterState::Idle);
        }
    }

    pub open spec fn spec_run_turn_transition(self) -> Fighter {
        if self.spec_should_jump() {
            self.spec_change_state(FighterState::JumpSquat)
        } else if self.spec_x_axis_is_forward() && self.run_turn_melee_frame >= 20 {
            self.spec_change_state(FighterState::Run)
        } else if self.spec_x_axis_is_backward() && self.run_turn_melee_frame >= 20 {
            self.spec_change_state(FighterState::Turn)
        } else if !self.input.x_axis.spec_is_active() && self.run_turn_melee_frame >= 20 {
            self.spec_change_state(FighterState::Idle)
        } else {
            self
        }
    }

    fn state_run_turn_transition(&mut self)
        ensures
            *final(self) == old(self).spec_run_turn_transition(),
    {
        if self.should_jump() {
            self.change_state(FighterState::JumpSquat);
        } else if self.x_axis_is_forward() && self.run_turn_melee_frame >= 20 {
            self.change_state(FighterState::Run);
        } else if self.x_axis_is_backward() && self.run_turn_melee_frame >= 20 {
            self.change_state(FighterState::Turn);
        } else if !self.input.x_axis.is_active() && self.run_turn_melee_frame >= 20 {
            self.change_state(FighterState::Idle);
        }
    }

    pub open spec fn spec_jump_squat_transition(self) -> Fighter {
        if (self.input.l_button.is_pressed || self.input.r_button.is_pressed)
            && self.state_frame >= self.jump_squat_frames {
            self.spec_change_state(FighterState::AirDodge)
        } else if self.state_frame >= self.jump_squat_frames {
            self.spec_change_state(FighterState::Airborne)
        } else {
            self
        }
    }

    fn state_jump_squat_transition(&mut self)
        ensures
            *final(self) == old(self).spec_jump_squat_transition(),
    {
        if (self.input.l_button.is_pressed || self.input.r_button.is_pressed)
            && self.state_frame >= self.jump_squat_frames {
            self.change_state(FighterState::AirDodge);
        } else if self.state_frame >= self.jump_squat_frames {
            self.change_state(FighterState::Airborne);
        }
    }

    pub open spec fn spec_airborne_transition(self) -> Fighter {
        if self.input.l_button.spec_just_pressed() || self.input.r_button.spec_just_pressed() {
            self.spec_change_state(FighterState::AirDodge)
        } else {
            self
        }
    }

    fn state_airborne_transition(&mut self)
        ensures
            *final(self) == old(self).spec_airborne_transition(),
    {
        if self.input.l_button.just_pressed() || self.input.r_button.just_pressed() {
            self.change_state(FighterState::AirDodge);
        }
    }

    /// AirDodge has no transitions of its own: it is exited only by a
    /// ground collision forcing a landing.
    fn state_air_dodge_transition(&mut self)
        ensures
            *final(self) == *old(self),
    {
    }

    pub open spec fn spec_land_transition(self) -> Fighter {
        if self.state_frame >= 2 {
            self.spec_change_state(FighterState::Idle)
        } else {
            self
        }
    }

    fn state_land_transition(&mut self)
        ensures
            *final(self) == old(self).spec_land_transition(),
    {
        if self.state_frame >= 2 {
            self.change_state(FighterState::Idle);
        }
    }

    pub open spec fn spec_land_special_transition(self) -> Fighter {
        if self.spec_should_jump() && self.state_frame >= 9 {
            self.spec_change_state(FighterState::JumpSquat)
        } else if self.spec_x_axis_is_forward() && self.spec_x_axis_smashed()
            && self.state_frame >= 9 {
            self.spec_change_state(FighterState::Dash)
        } else if self.spec_x_axis_is_forward() && !self.spec_x_axis_smashed()
            && self.state_frame >= 9 {
            self.spec_change_state(FighterState::Walk)
        } else if self.spec_x_axis_is_backward() && self.state_frame >= 9 {
            self.spec_change_state(FighterState::Turn)
        } else if !self.input.x_axis.spec_is_active() && self.state_frame >= 9 {
            self.spec_change_state(FighterState::Idle)
        } else {
            self
        }
    }

    fn state_land_special_transition(&mut self)
        ensures
            *final(self) == old(self).spec_land_special_transition(),
    {
        if self.should_jump() && self.state_frame >= 9 {
            self.change_state(FighterState::JumpSquat);
        } else if self.x_axis_is_forward() && self.x_axis_smashed() && self.state_frame >= 9 {
            self.change_state(FighterState::Dash);
        } else if self.x_axis_is_forward() && !self.x_axis_smashed() && self.state_frame >= 9 {
            self.change_state(FighterState::Walk);
        } else if self.x_axis_is_backward() && self.state_frame >= 9 {
            self.change_state(FighterState::Turn);
        } else if !self.input.x_axis.is_active() && self.state_frame >= 9 {
            self.change_state(FighterState::Idle);
        }
    }
}

// State update functions: the per-frame physics of each state, with
// one-time entry actions keyed on `state_frame == 0` and `previous_state`.
impl Fighter {
    pub open spec fn spec_idle_update(self) -> Fighter {
        self.spec_apply_movement_friction(self.ground_friction as int).spec_move_with_velocity()
    }

    fn state_idle_update(&mut self)
        ensures
            *final(self) == old(self).spec_idle_update(),
    {
        self.apply_movement_friction(self.ground_friction);
        self.move_with_velocity();
    }

    pub open spec fn spec_turn_update(self) -> Fighter {
        let entered = if self.state_frame == 0 && self.previous_state == FighterState::Dash {
            Fighter {
                velocity: Vector {
                    x: sat(
                        self.velocity.x - sgn(self.velocity.x as int) * (
                        TURN_FROM_DASH_VELOCITY_CUT as int),
                    ) as i64,
                    ..self.velocity
                },
                ..self
            }
        } else {
            self
        };
        let slowed = if entered.state_frame > 1 {
            entered.spec_apply_movement_friction(
                spec_add(entered.ground_friction as int, entered.ground_friction as int),
            )
        } else {
            entered
        };
        let faced = if slowed.spec_x_axis_is_backward() && slowed.state_frame
            == slowed.slow_dash_back_frames {
            Fighter { is_facing_right: slowed.input.x_axis.value >= 0, ..slowed }
        } else {
            slowed
        };
        faced.spec_move_with_velocity()
    }

    #[verifier::rlimit(100)]
    fn state_turn_update(&mut self)
        ensures
            *final(self) == old(self).spec_turn_update(),
    {
        if self.state_frame == 0 && matches!(self.previous_state, FighterState::Dash) {
            if self.velocity.x > 0 {
                self.velocity.x = fx_sub(self.velocity.x, TURN_FROM_DASH_VELOCITY_CUT);
            } else if self.velocity.x < 0 {
                self.velocity.x = fx_add(self.velocity.x, TURN_FROM_DASH_VELOCITY_CUT);
            }
        }
        if self.state_frame > 1 {
            self.apply_movement_friction(fx_add(self.ground_friction, self.ground_friction));
        }
        if self.x_axis_is_backward() && self.state_frame == self.slow_dash_back_frames {
            self.is_facing_right = self.input.x_axis.value >= 0;
        }
        self.move_with_velocity();
    }

    pub open spec fn spec_walk_update(self) -> Fighter {
        let kicked = if self.state_frame == 0 && self.input.x_axis.spec_is_active() {
            Fighter {
                velocity: Vector {
                    x: spec_add(
                        self.velocity.x as int,
                        spec_mul(
                            self.spec_facing_direction(),
                            spec_add(40, spec_mul(80, self.input.x_axis.value as int)),
                        ),
                    ) as i64,
                    ..self.velocity
                },
                ..self
            }
        } else {
            self
        };
        let target = spec_mul(kicked.walk_max_velocity as int, kicked.input.x_axis.value as int);
        let walked = if sat(iabs(kicked.velocity.x as int)) > sat(iabs(target)) {
            kicked.spec_apply_movement_friction(
                spec_add(kicked.ground_friction as int, kicked.ground_friction as int),
            )
        } else if kicked.input.x_axis.spec_is_active() && kicked.state_frame >= 1 {
            let acceleration = spec_mul(
                spec_mul(spec_sub(target, kicked.velocity.x as int), 100),
                sat(iabs(kicked.input.x_axis.value as int)),
            );
            let vx = spec_add(kicked.velocity.x as int, acceleration);
            let clamped = if (target < 0 && vx < target) || (target > 0 && vx > target) {
                target
            } else {
                vx
            };
            Fighter { velocity: Vector { x: clamped as i64, ..kicked.velocity }, ..kicked }
        } else {
            kicked
        };
        walked.spec_move_with_velocity()
    }

    fn state_walk_update(&mut self)
        ensures
            *final(self) == old(self).spec_walk_update(),
    {
        if self.state_frame == 0 && self.input.x_axis.is_active() {
            let kick = fx_mul(
                self.facing_direction(),
                fx_add(40, fx_mul(80, self.input.x_axis.value)),
            );
            self.velocity.x = fx_add(self.velocity.x, kick);
        }
        let target_velocity = fx_mul(self.walk_max_velocity, self.input.x_axis.value);
        if fx_abs(self.velocity.x) > fx_abs(target_velocity) {
            self.apply_movement_friction(fx_add(self.ground_friction, self.ground_friction));
        } else if self.input.x_axis.is_active() && self.state_frame >= 1 {
            let acceleration = fx_mul(
                fx_mul(fx_sub(target_velocity, self.velocity.x), 100),
                fx_abs(self.input.x_axis.value),
            );
            self.velocity.x = fx_add(self.velocity.x, acceleration);
            let going_left_too_fast = target_velocity < 0 && self.velocity.x < target_velocity;
            let going_right_too_fast = target_velocity > 0 && self.velocity.x > target_velocity;
            if going_left_too_fast || going_right_too_fast {
                self.velocity.x = target_velocity;
            }
        }
        self.move_with_velocity();
    }

    pub open spec fn spec_dash_update(self) -> Fighter {
        let entered = if self.state_frame == 0 {
            if self.previous_state == FighterState::Turn {
                Fighter { is_facing_right: !self.is_facing_right, ..self }
            } else if self.previous_state == FighterState::Dash {
                Fighter { dash_should_reset_velocity: true, ..self }
            } else {
                self
            }
        } else {
            self
        };
        let started = if entered.state_frame == 1 {
            let reset = if entered.dash_should_reset_velocity {
                Fighter {
                    velocity: Vector { x: 0, ..entered.velocity },
                    dash_should_reset_velocity: false,
                    ..entered
                }
            } else {
                entered
            };
            let vx = spec_add(
                reset.velocity.x as int,
                spec_mul(reset.dash_start_velocity as int, reset.spec_facing_direction()),
            );
            let capped = if sat(iabs(vx)) > reset.dash_max_velocity as int {
                spec_mul(reset.dash_max_velocity as int, reset.spec_facing_direction())
            } else {
                vx
            };
            Fighter { velocity: Vector { x: capped as i64, ..reset.velocity }, ..reset }
        } else {
            entered
        };
        let accelerated = if started.state_frame >= 1 {
            if !started.input.x_axis.spec_is_active() {
                started.spec_apply_movement_friction(started.ground_friction as int)
            } else {
                started.spec_apply_movement_acceleration(
                    started.dash_base_acceleration as int,
                    started.dash_axis_acceleration as int,
                    started.dash_max_velocity as int,
                    started.ground_friction as int,
                )
            }
        } else {
            started
        };
        accelerated.spec_move_with_velocity()
    }

    fn state_dash_update(&mut self)
        ensures
            *final(self) == old(self).spec_dash_update(),
    {
        if self.state_frame == 0 {
            if matches!(self.previous_state, FighterState::Turn) {
                self.is_facing_right = !self.is_facing_right;
            } else if matches!(self.previous_state, FighterState::Dash) {
                self.dash_should_reset_velocity = true;
            }
        }
        if self.state_frame == 1 {
            if self.dash_should_reset_velocity {
                self.velocity.x = 0;
                self.dash_should_reset_velocity = false;
            }
            self.velocity.x = fx_add(
                self.velocity.x,
                fx_mul(self.dash_start_velocity, self.facing_direction()),
            );
            if fx_abs(self.velocity.x) > self.dash_max_velocity {
                self.velocity.x = fx_mul(self.dash_max_velocity, self.facing_direction());
            }
        }
        if self.state_frame >= 1 {
            if !self.input.x_axis.is_active() {
                self.apply_movement_friction(self.ground_friction);
            } else {
                self.apply_movement_acceleration(
                    self.dash_base_acceleration,
                    self.dash_axis_acceleration,
                    self.dash_max_velocity,
                    self.ground_friction,
                );
            }
        }
        self.move_with_velocity();
    }

    /// The Run acceleration formula, with the axis magnitude clamped away
    /// from zero before the division (Run is only entered with an active
    /// axis, but the formula must not rely on that).
    pub open spec fn spec_run_update(self) -> Fighter {
        let axis_magnitude = imax(sat(iabs(self.input.x_axis.value as int)), 1);
        let acceleration = spec_mul(
            spec_mul(
                spec_sub(
                    spec_mul(self.dash_max_velocity as int, self.input.x_axis.value as int),
                    self.velocity.x as int,
                ),
                spec_div(FX_ONE as int, spec_mul(1000, self.dash_max_velocity as int)),
            ),
            spec_add(
                self.dash_axis_acceleration as int,
                spec_div(self.dash_base_acceleration as int, axis_magnitude),
            ),
        );
        Fighter {
            velocity: Vector {
                x: spec_add(self.velocity.x as int, acceleration) as i64,
                ..self.velocity
            },
            ..self
        }.spec_move_with_velocity()
    }

    fn state_run_update(&mut self)
        ensures
            *final(self) == old(self).spec_run_update(),
    {
        let axis_magnitude = fx_max(fx_abs(self.input.x_axis.value), 1);
        let run_acceleration = fx_mul(
            fx_mul(
                fx_sub(
                    fx_mul(self.dash_max_velocity, self.input.x_axis.value),
                    self.velocity.x,
                ),
                fx_div(FX_ONE, fx_mul(1000, self.dash_max_velocity)),
            ),
            fx_add(
                self.dash_axis_acceleration,
                fx_div(self.dash_base_acceleration, axis_magnitude),
            ),
        );
        self.velocity.x = fx_add(self.velocity.x, run_acceleration);
        self.move_with_velocity();
    }

    pub open spec fn spec_run_brake_update(self) -> Fighter {
        self.spec_apply_movement_friction(self.ground_friction as int).spec_move_with_velocity()
    }

    fn state_run_brake_update(&mut self)
        ensures
            *final(self) == old(self).spec_run_brake_update(),
    {
        self.apply_movement_friction(self.ground_friction);
        self.move_with_velocity();
    }

    /// The RunTurn sub-protocol: the facing flips exactly once, on the first
    /// frame the velocity has crossed zero relative to the initial facing;
    /// its own melee-frame counter (capped at 9 before the turn) gates the
    /// exits, not `state_frame`.
    pub open spec fn spec_run_turn_update(self) -> Fighter {
        self.spec_run_turn_flags().spec_run_turn_movement()
    }

    /// The flag half of the RunTurn frame (reset on entry, full-turn
    /// detection, the single facing flip).
    pub open spec fn spec_run_turn_flags(self) -> Fighter {
        let entered = if self.state_frame == 0 {
            Fighter {
                run_turn_melee_frame: 0,
                run_turn_was_facing_right_initially: self.is_facing_right,
                run_turn_has_changed_direction: false,
                run_turn_has_fully_turned: false,
                ..self
            }
        } else {
            self
        };
        let turned = if (entered.run_turn_was_facing_right_initially && entered.velocity.x <= 0)
            || (!entered.run_turn_was_facing_right_initially && entered.velocity.x >= 0) {
            Fighter { run_turn_has_fully_turned: true, ..entered }
        } else {
            entered
        };
        if !turned.run_turn_has_changed_direction && turned.run_turn_has_fully_turned {
            Fighter {
                is_facing_right: !turned.is_facing_right,
                run_turn_has_changed_direction: true,
                ..turned
            }
        } else {
            turned
        }
    }

    fn run_turn_flags(&mut self)
        ensures
            *final(self) == old(self).spec_run_turn_flags(),
    {
        if self.state_frame == 0 {
            self.run_turn_melee_frame = 0;
            self.run_turn_was_facing_right_initially = self.is_facing_right;
            self.run_turn_has_changed_direction = false;
            self.run_turn_has_fully_turned = false;
        }
        if (self.run_turn_was_facing_right_initially && self.velocity.x <= 0) || (
        !self.run_turn_was_facing_right_initially && self.velocity.x >= 0) {
            self.run_turn_has_fully_turned = true;
        }
        if !self.run_turn_has_changed_direction && self.run_turn_has_fully_turned {
            self.is_facing_right = !self.is_facing_right;
            self.run_turn_has_changed_direction = true;
        }
    }

    /// The movement half of the RunTurn frame (friction or acceleration by
    /// the possibly-flipped facing, integration, and the melee-frame count).
    pub open spec fn spec_run_turn_movement(self) -> Fighter {
        let moved = self.spec_run_turn_drift().spec_move_with_velocity();
        if moved.run_turn_has_fully_turned || (moved.run_turn_melee_frame < 9
            && !moved.run_turn_has_fully_turned) {
            Fighter {
                run_turn_melee_frame: inc32(moved.run_turn_melee_frame as int) as u32,
                ..moved
            }
        } else {
            moved
        }
    }

    /// The friction-or-acceleration choice of the RunTurn frame, which
    /// depends on whether the input opposes the (possibly just-flipped)
    /// facing.
    pub open spec fn spec_run_turn_drift(self) -> Fighter {
        if !self.input.x_axis.spec_is_active() || (!self.run_turn_has_fully_turned
            && self.spec_x_axis_is_forward()) || (self.run_turn_has_fully_turned
            && self.spec_x_axis_is_backward()) {
            self.spec_apply_movement_friction(self.ground_friction as int)
        } else {
            self.spec_apply_movement_acceleration(
                self.dash_base_acceleration as int,
                self.dash_axis_acceleration as int,
                self.dash_max_velocity as int,
                self.ground_friction as int,
            )
        }
    }

    fn run_turn_drift(&mut self)
        ensures
            *final(self) == old(self).spec_run_turn_drift(),
    {
        if !self.input.x_axis.is_active() || (!self.run_turn_has_fully_turned
            && self.x_axis_is_forward()) || (self.run_turn_has_fully_turned
            && self.x_axis_is_backward()) {
            self.apply_movement_friction(self.ground_friction);
        } else {
            self.apply_movement_acceleration(
                self.dash_base_acceleration,
                self.dash_axis_acceleration,
                self.dash_max_velocity,
                self.ground_friction,
            );
        }
    }

    fn run_turn_movement(&mut self)
        ensures
            *final(self) == old(self).spec_run_turn_movement(),
    {
        self.run_turn_drift();
        self.move_with_velocity();
        if self.run_turn_has_fully_turned || (self.run_turn_melee_frame < 9
            && !self.run_turn_has_fully_turned) {
            self.run_turn_melee_frame = frame_inc(self.run_turn_melee_frame);
        }
    }

    fn state_run_turn_update(&mut self)
        ensures
            *final(self) == old(self).spec_run_turn_update(),
    {
        self.run_turn_flags();
        self.run_turn_movement();
    }

    pub open spec fn spec_jump_squat_update(self) -> Fighter {
        self.spec_apply_movement_friction(
            spec_add(self.ground_friction as int, self.ground_friction as int),
        ).spec_move_with_velocity()
    }

    fn state_jump_squat_update(&mut self)
        ensures
            *final(self) == old(self).spec_jump_squat_update(),
    {
        self.apply_movement_friction(fx_add(self.ground_friction, self.ground_friction));
        self.move_with_velocity();
    }

    pub open spec fn spec_airborne_update(self) -> Fighter {
        let entered = if self.state_frame == 0 && self.previous_state == FighterState::JumpSquat {
            let vx = spec_add(
                spec_mul(self.velocity.x as int, self.jump_velocity_dampening as int),
                spec_mul(
                    self.input.x_axis.value as int,
                    self.jump_start_horizontal_velocity as int,
                ),
            );
            let capped = if sat(iabs(vx)) > self.jump_max_horizontal_velocity as int {
                if vx > 0 {
                    self.jump_max_horizontal_velocity as int
                } else if vx < 0 {
                    sat(-(self.jump_max_horizontal_velocity as int))
                } else {
                    0
                }
            } else {
                vx
            };
            let vy: int = if self.spec_jump_is_active() {
                self.full_hop_velocity as int
            } else {
                self.short_hop_velocity as int
            };
            Fighter { velocity: Vector { x: capped as i64, y: vy as i64 }, ..self }
        } else {
            self
        };
        let flown = if entered.state_frame >= 1 {
            let jumped = if entered.spec_should_jump() && entered.air_jumps_left > 0 {
                Fighter {
                    velocity: Vector {
                        x: spec_mul(
                            entered.input.x_axis.value as int,
                            entered.air_jump_horizontal_axis_multiplier as int,
                        ) as i64,
                        y: spec_mul(
                            entered.full_hop_velocity as int,
                            entered.air_jump_velocity_multiplier as int,
                        ) as i64,
                    },
                    air_jumps_left: (entered.air_jumps_left - 1) as u32,
                    ..entered
                }
            } else {
                entered
            };
            jumped.spec_handle_horizontal_air_movement().spec_handle_fast_fall().spec_handle_gravity()
        } else {
            entered
        };
        flown.spec_move_with_velocity()
    }

    #[verifier::rlimit(100)]
    fn state_airborne_update(&mut self)
        ensures
            *final(self) == old(self).spec_airborne_update(),
    {
        if self.state_frame == 0 && matches!(self.previous_state, FighterState::JumpSquat) {
            self.velocity.x = fx_add(
                fx_mul(self.velocity.x, self.jump_velocity_dampening),
                fx_mul(self.input.x_axis.value, self.jump_start_horizontal_velocity),
            );
            if fx_abs(self.velocity.x) > self.jump_max_horizontal_velocity {
                if self.velocity.x > 0 {
                    self.velocity.x = self.jump_max_horizontal_velocity;
                } else if self.velocity.x < 0 {
                    self.velocity.x = fx_neg(self.jump_max_horizontal_velocity);
                } else {
                    self.velocity.x = 0;
                }
            }
            if self.jump_is_active() {
                self.velocity.y = self.full_hop_velocity;
            } else {
                self.velocity.y = self.short_hop_velocity;
            }
        }
        if self.state_frame >= 1 {
            if self.should_jump() && self.air_jumps_left > 0 {
                self.velocity.x = fx_mul(
                    self.input.x_axis.value,
                    self.air_jump_horizontal_axis_multiplier,
                );
                self.velocity.y = fx_mul(
                    self.full_hop_velocity,
                    self.air_jump_velocity_multiplier,
                );
                self.air_jumps_left = self.air_jumps_left - 1;
            }
            self.handle_horizontal_air_movement();
            self.handle_fast_fall();
            self.handle_gravity();
        }
        self.move_with_velocity();
    }

    /// The air-dodge burst: on entry, the velocity is the stick's unit
    /// direction scaled to the dodge speed (zero with a neutral stick); for
    /// the first thirty frames it decays multiplicatively, then normal air
    /// movement resumes.
    pub open spec fn spec_air_dodge_update(self) -> Fighter {
        let entered = if self.state_frame == 0 {
            if self.input.x_axis.spec_is_active() || self.input.y_axis.spec_is_active() {
                let stick = Vector {
                    x: self.input.x_axis.value,
                    y: self.input.y_axis.value,
                };
                let m = stick.spec_magnitude();
                Fighter {
                    velocity: Vector {
                        x: spec_mul_div(
                            AIR_DODGE_SPEED as int,
                            self.input.x_axis.value as int,
                            m,
                        ) as i64,
                        y: spec_mul_div(
                            AIR_DODGE_SPEED as int,
                            self.input.y_axis.value as int,
                            m,
                        ) as i64,
                    },
                    ..self
                }
            } else {
                Fighter { velocity: Vector { x: 0, y: 0 }, ..self }
            }
        } else {
            self
        };
        if entered.state_frame < 30 {
            Fighter {
                velocity: Vector {
                    x: spec_mul(entered.velocity.x as int, AIR_DODGE_DECAY as int) as i64,
                    y: spec_mul(entered.velocity.y as int, AIR_DODGE_DECAY as int) as i64,
                },
                ..entered
            }.spec_move_with_velocity()
        } else {
            entered.spec_handle_horizontal_air_movement().spec_handle_fast_fall().spec_handle_gravity().spec_move_with_velocity()
        }
    }

    fn state_air_dodge_update(&mut self)
        requires
            old(self).input.wf(),
        ensures
            *final(self) == old(self).spec_air_dodge_update(),
    {
        if self.state_frame == 0 {
            if self.input.x_axis.is_active() || self.input.y_axis.is_active() {
                let stick_vector = Vector {
                    x: self.input.x_axis.value,
                    y: self.input.y_axis.value,
                };
                let stick_magnitude = stick_vector.magnitude();
                self.velocity.x = fx_mul_div(
                    AIR_DODGE_SPEED,
                    self.input.x_axis.value,
                    stick_magnitude,
                );
                self.velocity.y = fx_mul_div(
                    AIR_DODGE_SPEED,
                    self.input.y_axis.value,
                    stick_magnitude,
                );
            } else {
                self.velocity.x = 0;
                self.velocity.y = 0;
            }
        }
        if self.state_frame < 30 {
            self.velocity.x = fx_mul(self.velocity.x, AIR_DODGE_DECAY);
            self.velocity.y = fx_mul(self.velocity.y, AIR_DODGE_DECAY);
        } else {
            self.handle_horizontal_air_movement();
            self.handle_fast_fall();
            self.handle_gravity();
        }
        self.move_with_velocity();
    }

    pub open spec fn spec_land_update(self) -> Fighter {
        let touched = if self.state_frame == 0 {
            Fighter {
                velocity: Vector { y: 0, ..self.velocity },
                air_jumps_left: self.air_jumps,
                ..self
            }
        } else {
            self
        };
        touched.spec_apply_movement_friction(
            spec_add(touched.ground_friction as int, touched.ground_friction as int),
        ).spec_move_with_velocity()
    }

    fn state_land_update(&mut self)
        ensures
            *final(self) == old(self).spec_land_update(),
    {
        if self.state_frame == 0 {
            self.velocity.y = 0;
            self.air_jumps_left = self.air_jumps;
        }
        self.apply_movement_friction(fx_add(self.ground_friction, self.ground_friction));
        self.move_with_velocity();
    }

    pub open spec fn spec_land_special_update(self) -> Fighter {
        let touched = if self.state_frame == 0 {
            Fighter {
                velocity: Vector { y: 0, ..self.velocity },
                air_jumps_left: self.air_jumps,
                ..self
            }
        } else {
            self
        };
        let friction = if touched.state_frame < 3 {
            spec_add(touched.ground_friction as int, touched.ground_friction as int)
        } else {
            touched.ground_friction as int
        };
        touched.spec_apply_movement_friction(friction).spec_move_with_velocity()
    }

    fn state_land_special_update(&mut self)
        ensures
            *final(self) == old(self).spec_land_special_update(),
    {
        if self.state_frame == 0 {
            self.velocity.y = 0;
            self.air_jumps_left = self.air_jumps;
        }
        let friction_multiplied = if self.state_frame < 3 {
            fx_add(self.ground_friction, self.ground_friction)
        } else {
            self.ground_friction
        };
        self.apply_movement_friction(friction_multiplied);
        self.move_with_velocity();
    }
}

// The frame step.
impl Fighter {
    /// The transition function of whatever state is current.
    #[verifier::opaque]
    pub open spec fn spec_transition(self) -> Fighter {
        match self.state {
            FighterState::Idle => self.spec_idle_transition(),
            FighterState::Turn => self.spec_turn_transition(),
            FighterState::Walk => self.spec_walk_transition(),
            FighterState::Dash => self.spec_dash_transition(),
            FighterState::Run => self.spec_run_transition(),
            FighterState::RunBrake => self.spec_run_brake_transition(),
            FighterState::RunTurn => self.spec_run_turn_transition(),
            FighterState::JumpSquat => self.spec_jump_squat_transition(),
            FighterState::Airborne => self.spec_airborne_transition(),
            FighterState::AirDodge => self,
            FighterState::Land => self.spec_land_transition(),
            FighterState::LandSpecial => self.spec_land_special_transition(),
        }
    }

    /// The update function of whatever state is current (after transition).
    #[verifier::opaque]
    pub open spec fn spec_state_update(self) -> Fighter {
        match self.state {
            FighterState::Idle => self.spec_idle_update(),
            FighterState::Turn => self.spec_turn_update(),
            FighterState::Walk => self.spec_walk_update(),
            FighterState::Dash => self.spec_dash_update(),
            FighterState::Run => self.spec_run_update(),
            FighterState::RunBrake => self.spec_run_brake_update(),
            FighterState::RunTurn => self.spec_run_turn_update(),
            FighterState::JumpSquat => self.spec_jump_squat_update(),
            FighterState::Airborne => self.spec_airborne_update(),
            FighterState::AirDodge => self.spec_air_dodge_update(),
            FighterState::Land => self.spec_land_update(),
            FighterState::LandSpecial => self.spec_land_special_update(),
        }
    }

    /// One whole simulated frame: advance and refill the input's edge
    /// state, snapshot facing and position, run the current state's
    /// transition and then the (possibly new) state's update, and count the
    /// frame.
    pub open spec fn spec_update(self, input: ControllerState) -> Fighter {
        let fed = Fighter { input: self.input.spec_update().spec_copy_inputs(input), ..self };
        let snapped = Fighter {
            was_facing_right: fed.is_facing_right,
            previous_position: fed.position,
            ..fed
        };
        let stepped = snapped.spec_transition().spec_state_update();
        Fighter { state_frame: inc32(stepped.state_frame as int) as u32, ..stepped }
    }

    fn run_transition(&mut self)
        ensures
            *final(self) == old(self).spec_transition(),
            final(self).input == old(self).input,
    {
        proof {
            reveal(Fighter::spec_transition);
        }
        match self.state {
            FighterState::Idle => self.state_idle_transition(),
            FighterState::Turn => self.state_turn_transition(),
            FighterState::Walk => self.state_walk_transition(),
            FighterState::Dash => self.state_dash_transition(),
            FighterState::Run => self.state_run_transition(),
            FighterState::RunBrake => self.state_run_brake_transition(),
            FighterState::RunTurn => self.state_run_turn_transition(),
            FighterState::JumpSquat => self.state_jump_squat_transition(),
            FighterState::Airborne => self.state_airborne_transition(),
            FighterState::AirDodge => self.state_air_dodge_transition(),
            FighterState::Land => self.state_land_transition(),
            FighterState::LandSpecial => self.state_land_special_transition(),
        }
    }

    fn run_state_update(&mut self)
        requires
            old(self).input.wf(),
        ensures
            *final(self) == old(self).spec_state_update(),
    {
        proof {
            reveal(Fighter::spec_state_update);
        }
        match self.state {
            FighterState::Idle => self.state_idle_update(),
            FighterState::Turn => self.state_turn_update(),
            FighterState::Walk => self.state_walk_update(),
            FighterState::Dash => self.state_dash_update(),
            FighterState::Run => self.state_run_update(),
            FighterState::RunBrake => self.state_run_brake_update(),
            FighterState::RunTurn => self.state_run_turn_update(),
            FighterState::JumpSquat => self.state_jump_squat_update(),
            FighterState::Airborne => self.state_airborne_update(),
            FighterState::AirDodge => self.state_air_dodge_update(),
            FighterState::Land => self.state_land_update(),
            FighterState::LandSpecial => self.state_land_special_update(),
        }
    }

    /// Must run exactly once per simulated frame with that frame's fresh
    /// input snapshot.
    #[verifier::rlimit(100)]
    pub fn update(&mut self, input: &ControllerState)
        requires
            input.wf(),
        ensures
            *final(self) == old(self).spec_update(*input),
    {
        self.input.update();
        self.input.copy_inputs(input);
        self.was_facing_right = self.is_facing_right;
        self.previous_position.x = self.position.x;
        self.previous_position.y = self.position.y;
        self.run_transition();
        self.run_state_update();
        self.state_frame = frame_inc(self.state_frame);
    }

    pub open spec fn spec_state_name(self) -> Seq<char> {
        match self.state {
            FighterState::Idle => "Idle"@,
            FighterState::Turn => "Turn"@,
            FighterState::Walk => "Walk"@,
            FighterState::Dash => "Dash"@,
            FighterState::Run => "Run"@,
            FighterState::RunBrake => "RunBrake"@,
            FighterState::RunTurn => "RunTurn"@,
            FighterState::JumpSquat => "JumpSquat"@,
            FighterState::Airborne => "Airborne"@,
            FighterState::AirDodge => "AirDodge"@,
            FighterState::Land => "Land"@,
            FighterState::LandSpecial => "LandSpecial"@,
        }
    }

    /// The state's display name, for the HUD.
    pub fn state_as_string(&self) -> (r: String)
        ensures
            r@ == self.spec_state_name(),
    {
        broadcast use vstd::string::to_string_from_display_ensures_for_str;

        match self.state {
            FighterState::Idle => "Idle".to_string(),
            FighterState::Turn => "Turn".to_string(),
            FighterState::Walk => "Walk".to_string(),
            FighterState::Dash => "Dash".to_string(),
            FighterState::Run => "Run".to_string(),
            FighterState::RunBrake => "RunBrake".to_string(),
            FighterState::RunTurn => "RunTurn".to_string(),
            FighterState::JumpSquat => "JumpSquat".to_string(),
            FighterState::Airborne => "Airborne".to_string(),
            FighterState::AirDodge => "AirDodge".to_string(),
            FighterState::Land => "Land".to_string(),
            FighterState::LandSpecial => "LandSpecial".to_string(),
        }
    }
}

/// Law: entering Dash from rest kicks the velocity to the dash start
/// velocity, never past the cap, in the facing direction; the same frame's
/// stick push can raise it further but can never carry it past the cap
/// either.
pub proof fn lemma_dash_entry_velocity_from_rest(f: Fighter)
    requires
        f.wf(),
        f.state_frame == 1,
        !f.dash_should_reset_velocity,
        f.velocity.x == 0,
        f.is_facing_right,
        f.input.x_axis.value == FX_ONE,
        f.input.x_axis.spec_is_active(),
        0 <= f.dash_base_acceleration,
        0 <= f.dash_axis_acceleration,
        f.dash_base_acceleration + f.dash_axis_acceleration <= FX_MAX as int,
        0 <= f.dash_start_velocity <= f.dash_max_velocity,
    ensures
        ({
            let vx = f.spec_dash_update().velocity.x as int;
            imin(f.dash_start_velocity as int, f.dash_max_velocity as int) <= vx
                && vx == imin(
                f.dash_start_velocity + f.dash_base_acceleration + f.dash_axis_acceleration,
                f.dash_max_velocity as int,
            )
        }),
{
    let start = f.dash_start_velocity as int;
    let cap = f.dash_max_velocity as int;
    crate::fx::lemma_mul_unit_identity(start);
    crate::fx::lemma_mul_unit_identity(cap);
    crate::fx::lemma_mul_unit_identity(f.dash_base_acceleration as int);
    crate::fx::lemma_mul_unit_identity(f.dash_axis_acceleration as int);
    assert(f.spec_facing_direction() == FX_ONE as int);
    assert(f.input.x_axis.spec_direction() == FX_ONE as int) by {
        assert(sgn(FX_ONE as int) == 1);
        assert(sgn(f.input.x_axis.value as int) * (FX_ONE as int) == FX_ONE as int)
            by (nonlinear_arith)
            requires
                sgn(f.input.x_axis.value as int) == 1,
        ;
    }
}

/// Law: friction never overshoots zero. For a nonnegative friction the
/// result keeps the velocity's sign or is exactly zero, and its magnitude
/// never grows.
pub proof fn lemma_friction_never_overshoots_zero(f: Fighter, v: int, friction: int)
    requires
        fx_in_range(v),
        friction >= 0,
    ensures
        ({
            let r = f.spec_apply_friction_to_value(v, friction);
            (sgn(r) == sgn(v) || r == 0) && iabs(r) <= iabs(v)
        }),
{
    let m = imin(sat(iabs(v)), friction);
    assert(0 <= m <= iabs(v));
    if v > 0 {
        assert(sgn(v) * m == m) by (nonlinear_arith)
            requires
                sgn(v) == 1,
        ;
    } else if v < 0 {
        assert(sgn(v) * m == -m) by (nonlinear_arith)
            requires
                sgn(v) == -1,
        ;
    } else {
        assert(sgn(v) * m == 0) by (nonlinear_arith)
            requires
                sgn(v) == 0,
        ;
    }
}

} // verus!
