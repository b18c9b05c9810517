use fighting_game::button::Button;
use fighting_game::fighting_stage::FightingStage;
use fighting_game::fx::{fx_add, fx_mul, fx_sub, FX_MAX, FX_ONE};
use fighting_game::interpolated_position::InterpolatedPosition;
use fighting_game::keyboard::{Keyboard, KeyboardKey, KEY_COUNT};

#[test]
fn saturating_arithmetic_is_total() {
    assert_eq!(fx_add(FX_MAX, FX_MAX), FX_MAX);
    assert_eq!(fx_sub(-FX_MAX, FX_MAX), -FX_MAX);
    assert_eq!(fx_add(i64::MIN, 0), -FX_MAX);
    assert_eq!(fx_mul(FX_MAX, FX_MAX), FX_MAX);
    assert_eq!(fx_mul(3 * FX_ONE, 2 * FX_ONE), 6 * FX_ONE);
    assert_eq!(fx_mul(-3 * FX_ONE, 2 * FX_ONE), -6 * FX_ONE);
}

#[test]
fn keyboard_tracks_key_edges() {
    let mut keyboard = Keyboard::new();
    assert_eq!(keyboard.keys.len(), KEY_COUNT);
    assert!(!keyboard.key(KeyboardKey::A).is_pressed);
    keyboard.set_key_pressed(KeyboardKey::A, true);
    assert!(keyboard.key(KeyboardKey::A).is_pressed);
    assert!(keyboard.key(KeyboardKey::A).just_pressed());
    assert!(!keyboard.key(KeyboardKey::B).is_pressed);
    keyboard.update();
    assert!(keyboard.key(KeyboardKey::A).is_pressed);
    assert!(!keyboard.key(KeyboardKey::A).just_pressed());
    keyboard.set_key_pressed(KeyboardKey::A, false);
    assert!(keyboard.key(KeyboardKey::A).just_released());
}

#[test]
fn stage_groups_hold_the_expected_chains() {
    let stage = FightingStage::new();
    assert_eq!(stage.grounds().len(), 1);
    assert_eq!(stage.grounds()[0].len(), 4);
    assert_eq!(stage.ceilings().len(), 0);
    assert_eq!(stage.left_walls().len(), 1);
    assert_eq!(stage.left_walls()[0].len(), 12);
    assert_eq!(stage.right_walls().len(), 1);
    assert_eq!(stage.right_walls()[0].len(), 12);
    assert_eq!(stage.platforms().len(), 3);
    assert_eq!(stage.platforms()[2][0].y, 16800);
    assert_eq!(stage.grounds()[0][0].x, -56 * FX_ONE);
}

#[test]
fn interpolated_position_blends_between_frames() {
    let mut position = InterpolatedPosition::new(0, 0);
    position.set(4 * FX_ONE, 2 * FX_ONE);
    assert_eq!(position.x(0), 0);
    assert_eq!(position.x(FX_ONE / 2), 2 * FX_ONE);
    assert_eq!(position.x(FX_ONE), 4 * FX_ONE);
    assert_eq!(position.y(FX_ONE / 2), FX_ONE);
    position.set(6 * FX_ONE, 2 * FX_ONE);
    assert_eq!(position.x(FX_ONE / 2), 5 * FX_ONE);
}

#[test]
fn default_button_is_released_with_no_history() {
    let button = Button::default();
    assert!(!button.is_pressed);
    assert!(!button.was_previously_pressed);
    assert!(!button.just_pressed());
    assert!(!button.just_released());
}
