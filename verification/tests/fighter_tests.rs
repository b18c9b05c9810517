use fighting_game::controller_state::ControllerState;
use fighting_game::fighter::{Fighter, FighterState};
use fighting_game::fx::FX_ONE;

fn held_forward() -> ControllerState {
    let mut input = ControllerState::default();
    input.x_axis.value = FX_ONE;
    input
}

#[test]
fn friction_never_overshoots_zero() {
    let fighter = Fighter::fox();
    assert_eq!(fighter.apply_friction_to_value(100, 32), 68);
    assert_eq!(fighter.apply_friction_to_value(-100, 32), -68);
    assert_eq!(fighter.apply_friction_to_value(10, 32), 0);
    assert_eq!(fighter.apply_friction_to_value(-10, 32), 0);
    assert_eq!(fighter.apply_friction_to_value(0, 32), 0);
    assert_eq!(fighter.apply_friction_to_value(100, 0), 100);
}

#[test]
fn idle_to_dash_to_run_scenario() {
    let mut fighter = Fighter::fox();
    let input = held_forward();
    assert_eq!(fighter.state, FighterState::Idle);
    assert!(fighter.is_facing_right);

    // A held forward smash enters Dash on the next frame.
    fighter.update(&input);
    assert_eq!(fighter.state, FighterState::Dash);
    assert_eq!(fighter.state_frame, 1);
    assert_eq!(fighter.velocity.x, 0);

    // The next frame applies the dash start velocity (min of the start and
    // cap velocities, 1.9 here) plus that frame's dash acceleration of
    // 0.12, all in the facing direction.
    fighter.update(&input);
    assert_eq!(fighter.state, FighterState::Dash);
    assert!(fighter.velocity.x >= 760);
    assert_eq!(fighter.velocity.x, 808);

    // Holding forward, Dash becomes Run once dash_min_frames have elapsed.
    let mut frames: u32 = 0;
    while fighter.state == FighterState::Dash {
        fighter.update(&input);
        frames += 1;
        assert!(frames < 60);
    }
    assert_eq!(fighter.state, FighterState::Run);
    assert_eq!(fighter.state_frame, 1);
    assert!(fighter.velocity.x > 0);
}

#[test]
fn dash_velocity_is_capped_at_dash_max() {
    let mut fighter = Fighter::fox();
    fighter.velocity.x = 800;
    fighter.state = FighterState::Dash;
    fighter.previous_state = FighterState::Idle;
    fighter.state_frame = 1;
    let input = held_forward();
    fighter.update(&input);
    // 800 + 760 overshoots the 880 cap, so the cap applies; the dash
    // acceleration then cannot push past the cap either.
    assert_eq!(fighter.velocity.x, 880);
}

#[test]
fn idle_applies_ground_friction_and_integrates() {
    let mut fighter = Fighter::fox();
    fighter.velocity.x = 100;
    let input = ControllerState::default();
    fighter.update(&input);
    assert_eq!(fighter.state, FighterState::Idle);
    assert_eq!(fighter.velocity.x, 68);
    assert_eq!(fighter.position.x, 68);
    assert_eq!(fighter.previous_position.x, 0);
}

#[test]
fn walk_entry_kick() {
    let mut fighter = Fighter::fox();
    let mut input = ControllerState::default();
    input.x_axis.value = 200;
    fighter.update(&input);
    assert_eq!(fighter.state, FighterState::Walk);
    // The kick is facing * (0.1 + 0.2 * axis) = 0.2 game units.
    assert_eq!(fighter.velocity.x, 80);
    assert_eq!(fighter.position.x, 80);
}

#[test]
fn backward_input_enters_turn() {
    let mut fighter = Fighter::fox();
    let mut input = ControllerState::default();
    input.x_axis.value = -200;
    fighter.update(&input);
    assert_eq!(fighter.state, FighterState::Turn);
    assert!(fighter.is_facing_right);
}

#[test]
fn jump_press_enters_jump_squat_then_airborne_full_hop() {
    let mut fighter = Fighter::fox();
    let mut input = ControllerState::default();
    input.x_button.is_pressed = true;
    fighter.update(&input);
    assert_eq!(fighter.state, FighterState::JumpSquat);
    // Jump squat lasts jump_squat_frames (3) before going airborne.
    fighter.update(&input);
    fighter.update(&input);
    fighter.update(&input);
    assert_eq!(fighter.state, FighterState::Airborne);
    // The button is still held, so the hop is full.
    assert_eq!(fighter.velocity.y, 1472);
}

#[test]
fn short_hop_when_jump_released_before_squat_ends() {
    let mut fighter = Fighter::fox();
    let mut pressed = ControllerState::default();
    pressed.x_button.is_pressed = true;
    let released = ControllerState::default();
    fighter.update(&pressed);
    assert_eq!(fighter.state, FighterState::JumpSquat);
    fighter.update(&released);
    fighter.update(&released);
    fighter.update(&released);
    assert_eq!(fighter.state, FighterState::Airborne);
    assert_eq!(fighter.velocity.y, 840);
}

#[test]
fn gravity_is_capped_and_never_slows_an_overspeed_fall() {
    let mut fighter = Fighter::fox();
    fighter.state = FighterState::Airborne;
    fighter.previous_state = FighterState::Airborne;
    fighter.state_frame = 5;
    fighter.position.y = 400000;
    fighter.velocity.y = -1100;
    let input = ControllerState::default();
    fighter.update(&input);
    // Only 0.05 of the 0.23 gravity applies: the fall speed stops exactly
    // at the 2.8 terminal velocity.
    assert_eq!(fighter.velocity.y, -1120);
    fighter.velocity.y = -4000;
    fighter.update(&input);
    assert_eq!(fighter.velocity.y, -4000);
}

#[test]
fn fast_fall_snaps_to_fast_fall_velocity() {
    let mut fighter = Fighter::fox();
    fighter.state = FighterState::Airborne;
    fighter.previous_state = FighterState::Airborne;
    fighter.state_frame = 5;
    fighter.position.y = 400000;
    fighter.velocity.y = -100;
    let mut input = ControllerState::default();
    input.y_axis.value = -FX_ONE;
    fighter.update(&input);
    assert_eq!(fighter.velocity.y, -1360);
}

#[test]
fn air_dodge_burst_follows_the_stick_and_decays() {
    let mut fighter = Fighter::fox();
    fighter.state = FighterState::AirDodge;
    fighter.previous_state = FighterState::Airborne;
    fighter.state_frame = 0;
    fighter.position.y = 400000;
    let mut input = ControllerState::default();
    input.x_axis.value = FX_ONE;
    fighter.update(&input);
    // The burst is 3.1 units along the stick direction, then one frame of
    // the 0.9 multiplicative decay.
    assert_eq!(fighter.velocity.x, 1116);
    assert_eq!(fighter.velocity.y, 0);
}

#[test]
fn air_jump_consumes_the_counter() {
    let mut fighter = Fighter::fox();
    fighter.state = FighterState::Airborne;
    fighter.previous_state = FighterState::Airborne;
    fighter.state_frame = 5;
    fighter.position.y = 400000;
    fighter.air_jumps_left = 1;
    let mut input = ControllerState::default();
    input.x_button.is_pressed = true;
    fighter.update(&input);
    assert_eq!(fighter.air_jumps_left, 0);
    // The air jump sets the vertical velocity to 1.2x the full hop, then
    // gravity applies.
    assert_eq!(fighter.velocity.y, 1472 * 480 / 400 - 92);
}

#[test]
fn turn_from_dash_applies_the_pinned_velocity_cut() {
    let mut fighter = Fighter::fox();
    fighter.state = FighterState::Turn;
    fighter.previous_state = FighterState::Dash;
    fighter.state_frame = 0;
    fighter.velocity.x = 800;
    let input = ControllerState::default();
    fighter.update(&input);
    // 1.73 game units come off toward zero on the entry frame from Dash.
    assert_eq!(fighter.velocity.x, 800 - 692);
}

#[test]
fn state_names() {
    let mut fighter = Fighter::fox();
    assert_eq!(fighter.state_as_string(), "Idle");
    fighter.state = FighterState::LandSpecial;
    assert_eq!(fighter.state_as_string(), "LandSpecial");
}
