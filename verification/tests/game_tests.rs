use fighting_game::controller_state::ControllerState;
use fighting_game::fighter::{Fighter, FighterState};
use fighting_game::fighting_game::FightingGame;
use fighting_game::fx::FX_ONE;
use fighting_game::line_math::PolyLine;
use fighting_game::point_math::Point;

fn flat_ground_game() -> FightingGame {
    let points = vec![Point { x: -20 * FX_ONE, y: 0 }, Point { x: 20 * FX_ONE, y: 0 }];
    FightingGame {
        input: ControllerState::default(),
        player: Fighter::fox(),
        is_paused: false,
        collision_poly_lines: vec![PolyLine::from_points(&points)],
    }
}

#[test]
fn landing_scenario_snaps_and_removes_the_normal_component() {
    let mut game = flat_ground_game();
    game.player.state = FighterState::Airborne;
    game.player.previous_state = FighterState::Airborne;
    game.player.state_frame = 5;
    game.player.position.y = 5 * FX_ONE;
    game.player.previous_position.y = 5 * FX_ONE;
    game.player.velocity.y = -10 * FX_ONE;
    let input = ControllerState::default();
    game.update(&input);
    assert_eq!(game.player.state, FighterState::Land);
    assert_eq!(game.player.position.x, 0);
    assert_eq!(game.player.position.y, 0);
    // The velocity component along the flat ground's upward normal is
    // removed exactly.
    let normal = game.collision_poly_lines[0].segments[0].normal();
    assert_eq!(game.player.velocity.dot(&normal), 0);
    assert_eq!(game.player.velocity.y, 0);
}

#[test]
fn no_landing_while_moving_away_from_the_surface() {
    let mut game = flat_ground_game();
    game.player.state = FighterState::Airborne;
    game.player.previous_state = FighterState::Airborne;
    game.player.state_frame = 5;
    game.player.position.y = FX_ONE / 4;
    game.player.previous_position.y = FX_ONE / 4;
    game.player.velocity.y = 5 * FX_ONE;
    let input = ControllerState::default();
    game.update(&input);
    assert_eq!(game.player.state, FighterState::Airborne);
}

#[test]
fn pause_gates_the_fighter_but_not_edge_updates() {
    let mut game = flat_ground_game();
    game.player.velocity.x = 100;
    let mut start_pressed = ControllerState::default();
    start_pressed.start_button.is_pressed = true;
    let released = ControllerState::default();

    game.update(&start_pressed);
    assert!(game.is_paused);
    let position_after_pause = game.player.position.x;

    // Holding start does not unpause (edge detection, not level).
    game.update(&start_pressed);
    assert!(game.is_paused);
    assert_eq!(game.player.position.x, position_after_pause);

    game.update(&released);
    assert!(game.is_paused);
    assert_eq!(game.player.position.x, position_after_pause);

    game.update(&start_pressed);
    assert!(!game.is_paused);
}

#[test]
fn frame_advance_steps_exactly_one_frame_while_paused() {
    let mut game = flat_ground_game();
    game.player.velocity.x = 100;
    let mut start_pressed = ControllerState::default();
    start_pressed.start_button.is_pressed = true;
    game.update(&start_pressed);
    assert!(game.is_paused);
    let frozen_x = game.player.position.x;

    let mut z_pressed = ControllerState::default();
    z_pressed.z_button.is_pressed = true;
    game.update(&z_pressed);
    assert!(game.is_paused);
    assert!(game.player.position.x != frozen_x);
    let advanced_x = game.player.position.x;

    // Holding z does not advance again without a new press.
    game.update(&z_pressed);
    assert_eq!(game.player.position.x, advanced_x);
}

#[test]
fn default_game_has_the_seven_segment_ground() {
    let game = FightingGame::default();
    assert_eq!(game.collision_poly_lines.len(), 1);
    assert_eq!(game.collision_poly_lines[0].segments.len(), 7);
    assert_eq!(game.collision_poly_lines[0].segments[0].point_a.x, -56 * FX_ONE);
    assert!(!game.is_paused);
    assert_eq!(game.player.state, FighterState::Idle);
}

#[test]
fn fighter_runs_on_the_default_stage() {
    let mut game = FightingGame::default();
    let mut forward = ControllerState::default();
    forward.x_axis.value = FX_ONE;
    for _ in 0..30 {
        game.update(&forward);
    }
    assert_eq!(game.player.state, FighterState::Run);
    assert!(game.player.position.x > 0);
}
