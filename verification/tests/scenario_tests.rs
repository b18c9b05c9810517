use fighting_game::controller_state::ControllerState;
use fighting_game::fighter::{Fighter, FighterState};
use fighting_game::fighting_game::FightingGame;
use fighting_game::fx::FX_ONE;
use fighting_game::line_math::PolyLine;
use fighting_game::point_math::Point;

fn neutral() -> ControllerState {
    ControllerState::default()
}

fn with_x_axis(value: i64) -> ControllerState {
    let mut input = ControllerState::default();
    input.x_axis.value = value;
    input
}

#[test]
fn dash_back_turns_and_flips_facing() {
    let mut fighter = Fighter::fox();
    let forward = with_x_axis(FX_ONE);
    let backward = with_x_axis(-FX_ONE);

    fighter.update(&forward);
    assert_eq!(fighter.state, FighterState::Dash);
    fighter.update(&forward);
    assert_eq!(fighter.velocity.x, 808);

    // Reversing the stick leaves Dash for Turn, which cuts the velocity by
    // the pinned 1.73 on its entry frame from Dash.
    fighter.update(&backward);
    assert_eq!(fighter.state, FighterState::Turn);
    assert_eq!(fighter.velocity.x, 808 - 692);
    assert!(fighter.is_facing_right);

    // The reversal was a smash input, so Turn re-enters Dash the other way,
    // flipping the facing on the entry frame.
    fighter.update(&backward);
    assert_eq!(fighter.state, FighterState::Dash);
    assert!(!fighter.is_facing_right);
}

#[test]
fn air_dodge_landing_is_special() {
    let points = vec![Point { x: -20 * FX_ONE, y: 0 }, Point { x: 20 * FX_ONE, y: 0 }];
    let mut game = FightingGame {
        input: ControllerState::default(),
        player: Fighter::fox(),
        is_paused: false,
        collision_poly_lines: vec![PolyLine::from_points(&points)],
    };
    game.player.state = FighterState::AirDodge;
    game.player.previous_state = FighterState::Airborne;
    game.player.state_frame = 35;
    game.player.position.y = 5 * FX_ONE;
    game.player.previous_position.y = 5 * FX_ONE;
    game.player.velocity.y = -10 * FX_ONE;
    game.update(&neutral());
    assert_eq!(game.player.state, FighterState::LandSpecial);
    assert_eq!(game.player.position.y, 0);
    assert_eq!(game.player.velocity.y, 0);
    // The next frame runs the landing state's entry actions, which refill
    // the air jump.
    game.update(&neutral());
    assert_eq!(game.player.air_jumps_left, 1);
    assert_eq!(game.player.state, FighterState::LandSpecial);
}

#[test]
fn land_lasts_two_frames_then_idles() {
    let mut fighter = Fighter::fox();
    fighter.state = FighterState::Land;
    fighter.previous_state = FighterState::Airborne;
    fighter.state_frame = 0;
    fighter.update(&neutral());
    assert_eq!(fighter.state, FighterState::Land);
    fighter.update(&neutral());
    assert_eq!(fighter.state, FighterState::Land);
    fighter.update(&neutral());
    assert_eq!(fighter.state, FighterState::Idle);
}

#[test]
fn land_special_holds_for_nine_frames() {
    let mut fighter = Fighter::fox();
    fighter.state = FighterState::LandSpecial;
    fighter.previous_state = FighterState::AirDodge;
    fighter.state_frame = 0;
    for _ in 0..9 {
        fighter.update(&neutral());
        assert_eq!(fighter.state, FighterState::LandSpecial);
    }
    fighter.update(&neutral());
    assert_eq!(fighter.state, FighterState::Idle);
}

#[test]
fn releasing_the_stick_in_run_brakes_to_idle() {
    let mut fighter = Fighter::fox();
    fighter.state = FighterState::Run;
    fighter.previous_state = FighterState::Dash;
    fighter.state_frame = 3;
    fighter.velocity.x = 800;
    // Seed the fighter's own input history with an active stick so the
    // release below is what the state machine sees.
    fighter.update(&with_x_axis(FX_ONE));
    assert_eq!(fighter.state, FighterState::Run);

    fighter.update(&neutral());
    assert_eq!(fighter.state, FighterState::RunBrake);
    let mut frames: u32 = 0;
    while fighter.state == FighterState::RunBrake {
        fighter.update(&neutral());
        frames += 1;
        assert!(frames < 60);
    }
    assert_eq!(fighter.state, FighterState::Idle);
    // Idle keeps applying ground friction until the fighter is at rest.
    for _ in 0..30 {
        fighter.update(&neutral());
    }
    assert_eq!(fighter.state, FighterState::Idle);
    assert_eq!(fighter.velocity.x, 0);
}

#[test]
fn walk_releases_to_idle() {
    let mut fighter = Fighter::fox();
    fighter.update(&with_x_axis(200));
    assert_eq!(fighter.state, FighterState::Walk);
    fighter.update(&neutral());
    assert_eq!(fighter.state, FighterState::Idle);
}

#[test]
fn turn_times_out_to_idle() {
    let mut fighter = Fighter::fox();
    fighter.update(&with_x_axis(-200));
    assert_eq!(fighter.state, FighterState::Turn);
    let mut frames: u32 = 0;
    while fighter.state == FighterState::Turn {
        fighter.update(&neutral());
        frames += 1;
        assert!(frames < 60);
    }
    assert_eq!(fighter.state, FighterState::Idle);
}

#[test]
fn run_turn_flips_facing_once_velocity_crosses_zero() {
    let mut fighter = Fighter::fox();
    fighter.state = FighterState::Run;
    fighter.previous_state = FighterState::Dash;
    fighter.state_frame = 3;
    fighter.velocity.x = 800;
    fighter.update(&with_x_axis(FX_ONE));
    assert_eq!(fighter.state, FighterState::Run);
    assert!(fighter.is_facing_right);

    let backward = with_x_axis(-FX_ONE);
    fighter.update(&backward);
    assert_eq!(fighter.state, FighterState::RunTurn);

    let mut frames: u32 = 0;
    while fighter.state == FighterState::RunTurn {
        fighter.update(&backward);
        frames += 1;
        assert!(frames < 100);
    }
    // By the exit the fighter has decelerated through zero and flipped, so
    // the held direction reads as forward again and RunTurn leaves to Run.
    assert_eq!(fighter.state, FighterState::Run);
    assert!(!fighter.is_facing_right);
    assert!(fighter.velocity.x <= 0);
}

#[test]
fn fast_fall_requires_the_vertical_smash_threshold() {
    let mut fighter = Fighter::fox();
    fighter.state = FighterState::Airborne;
    fighter.previous_state = FighterState::Airborne;
    fighter.state_frame = 5;
    fighter.position.y = 1000 * FX_ONE;
    fighter.velocity.y = -100;
    let mut input = ControllerState::default();
    input.y_axis.value = -264;
    fighter.update(&input);
    // Just under 0.6625 of full deflection: no fast fall, only gravity.
    assert_eq!(fighter.velocity.y, -192);

    fighter.velocity.y = -100;
    let mut input = ControllerState::default();
    input.y_axis.value = -265;
    fighter.update(&input);
    assert_eq!(fighter.velocity.y, -1360);
}
