use fighting_game::analog_axis::{convert_to_melee_values, AnalogAxis, FX_GRID};
use fighting_game::analog_stick::AnalogStick;
use fighting_game::button::Button;
use fighting_game::controller_state::ControllerState;
use fighting_game::digital_input::DigitalInput;
use fighting_game::fx::FX_ONE;

#[test]
fn axis_activity_is_the_deadzone_test_on_the_magnitude() {
    let mut axis = AnalogAxis::default();
    axis.value = 114;
    assert!(!axis.is_active());
    assert_eq!(axis.magnitude(), 114);
    axis.value = 115;
    assert!(axis.is_active());
    axis.value = -115;
    assert!(axis.is_active());
    assert_eq!(axis.magnitude(), 115);
    axis.value = -114;
    assert!(!axis.is_active());
}

#[test]
fn edge_detection_fires_once_without_center_crossing() {
    let mut axis = AnalogAxis::default();
    axis.value = FX_ONE;
    assert!(axis.just_activated());
    axis.update();
    axis.value = FX_ONE;
    assert!(!axis.just_activated());
}

#[test]
fn direction_reversal_reads_as_activation_inside_deadzone() {
    let mut axis = AnalogAxis::default();
    axis.value = 50;
    axis.update();
    axis.value = -50;
    assert!(axis.just_activated());
}

#[test]
fn digital_resolution_tie_breaks_by_most_recent_exclusive_hold() {
    let mut axis = AnalogAxis::default();
    axis.set_value_from_states(false, true);
    assert_eq!(axis.value, FX_ONE);
    axis.set_value_from_states(true, true);
    assert_eq!(axis.value, -FX_ONE);

    let mut axis = AnalogAxis::default();
    axis.set_value_from_states(true, false);
    assert_eq!(axis.value, -FX_ONE);
    axis.set_value_from_states(true, true);
    assert_eq!(axis.value, FX_ONE);

    axis.set_value_from_states(false, false);
    assert_eq!(axis.value, 0);
}

#[test]
fn frames_active_counts_after_the_first_active_frame() {
    let mut axis = AnalogAxis::default();
    axis.value = FX_ONE;
    axis.update();
    assert_eq!(axis.frames_active, 0);
    axis.update();
    assert_eq!(axis.frames_active, 1);
    axis.update();
    assert_eq!(axis.frames_active, 2);
    axis.value = 0;
    axis.update();
    assert_eq!(axis.frames_active, 0);
}

#[test]
fn snapped_values_are_grid_multiples_and_never_overshoot() {
    let mut x = AnalogAxis::default();
    let mut y = AnalogAxis::default();
    x.value = 163;
    y.value = 38;
    convert_to_melee_values(&mut x, &mut y);
    assert_eq!(x.value % FX_GRID, 0);
    assert_eq!(y.value % FX_GRID, 0);
    assert_eq!(x.value, 160);
    assert_eq!(y.value, 35);
    assert!(x.value * x.value + y.value * y.value <= 163 * 163 + 38 * 38);

    let mut x = AnalogAxis::default();
    let mut y = AnalogAxis::default();
    x.value = -163;
    y.value = 0;
    convert_to_melee_values(&mut x, &mut y);
    assert_eq!(x.value, -160);
    assert_eq!(y.value, 0);
}

#[test]
fn full_diagonal_is_clamped_onto_the_unit_circle() {
    let mut stick = AnalogStick::new(115);
    stick.x_axis.value = FX_ONE;
    stick.y_axis.value = FX_ONE;
    stick.convert_to_melee_values();
    assert_eq!(stick.x_axis.value, 280);
    assert_eq!(stick.y_axis.value, 280);
    let squared = stick.x_axis.value * stick.x_axis.value
        + stick.y_axis.value * stick.y_axis.value;
    assert!(squared <= FX_ONE * FX_ONE);
}

#[test]
fn stick_magnitude_and_rescaling() {
    let mut stick = AnalogStick::new(115);
    stick.x_axis.value = 3 * FX_ONE;
    stick.y_axis.value = 4 * FX_ONE;
    assert_eq!(stick.magnitude(), 5 * FX_ONE);
    stick.set_magnitude(FX_ONE);
    assert_eq!(stick.x_axis.value, 240);
    assert_eq!(stick.y_axis.value, 320);
}

#[test]
fn button_edges() {
    let mut button = Button::default();
    assert!(!button.just_pressed());
    button.is_pressed = true;
    assert!(button.just_pressed());
    assert!(!button.just_released());
    button.update();
    assert!(!button.just_pressed());
    button.is_pressed = false;
    assert!(button.just_released());
}

#[test]
fn copy_inputs_preserves_edge_history() {
    let mut inner = ControllerState::default();
    inner.a_button.is_pressed = true;
    inner.update();
    let mut fresh = ControllerState::default();
    fresh.a_button.is_pressed = true;
    fresh.x_axis.value = 123;
    inner.copy_inputs(&fresh);
    assert!(inner.a_button.is_pressed);
    assert!(inner.a_button.was_previously_pressed);
    assert!(!inner.a_button.just_pressed());
    assert_eq!(inner.x_axis.value, 123);
}

#[test]
fn digital_input_fills_a_controller_and_quantizes() {
    let input = DigitalInput {
        right: true,
        x: true,
        ..DigitalInput::default()
    };
    let mut controller = ControllerState::default();
    input.update_controller_state(&mut controller);
    assert_eq!(controller.x_axis.value, FX_ONE);
    assert_eq!(controller.y_axis.value, 0);
    assert!(controller.x_button.is_pressed);
    assert!(!controller.y_button.is_pressed);
}
