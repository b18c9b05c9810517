//! The full controller: two analog stick axis pairs and the digital buttons,
//! with a single per-frame advance so edge state can never be advanced
//! partially or out of order.

use vstd::prelude::*;
use crate::analog_axis::{convert_to_melee_values, spec_convert_pair, AnalogAxis};
use crate::button::Button;
use crate::fx::fx_in_range;

verus! {

#[derive(Clone, Copy)]
pub struct ControllerState {
    pub x_axis: AnalogAxis,
    pub y_axis: AnalogAxis,
    pub c_x_axis: AnalogAxis,
    pub c_y_axis: AnalogAxis,
    pub a_button: Button,
    pub b_button: Button,
    pub x_button: Button,
    pub y_button: Button,
    pub z_button: Button,
    pub r_button: Button,
    pub l_button: Button,
    pub start_button: Button,
    pub d_left_button: Button,
    pub d_right_button: Button,
    pub d_down_button: Button,
    pub d_up_button: Button,
}

impl ControllerState {
    pub open spec fn spec_default() -> ControllerState {
        ControllerState {
            x_axis: AnalogAxis::spec_new(115),
            y_axis: AnalogAxis::spec_new(115),
            c_x_axis: AnalogAxis::spec_new(115),
            c_y_axis: AnalogAxis::spec_new(115),
            a_button: Button { is_pressed: false, was_previously_pressed: false },
            b_button: Button { is_pressed: false, was_previously_pressed: false },
            x_button: Button { is_pressed: false, was_previously_pressed: false },
            y_button: Button { is_pressed: false, was_previously_pressed: false },
            z_button: Button { is_pressed: false, was_previously_pressed: false },
            r_button: Button { is_pressed: false, was_previously_pressed: false },
            l_button: Button { is_pressed: false, was_previously_pressed: false },
            start_button: Button { is_pressed: false, was_previously_pressed: false },
            d_left_button: Button { is_pressed: false, was_previously_pressed: false },
            d_right_button: Button { is_pressed: false, was_previously_pressed: false },
            d_down_button: Button { is_pressed: false, was_previously_pressed: false },
            d_up_button: Button { is_pressed: false, was_previously_pressed: false },
        }
    }

    pub fn default() -> (r: ControllerState)
        ensures
            r == ControllerState::spec_default(),
    {
        ControllerState {
            x_axis: AnalogAxis::default(),
            y_axis: AnalogAxis::default(),
            c_x_axis: AnalogAxis::default(),
            c_y_axis: AnalogAxis::default(),
            a_button: Button::default(),
            b_button: Button::default(),
            x_button: Button::default(),
            y_button: Button::default(),
            z_button: Button::default(),
            r_button: Button::default(),
            l_button: Button::default(),
            start_button: Button::default(),
            d_left_button: Button::default(),
            d_right_button: Button::default(),
            d_down_button: Button::default(),
            d_up_button: Button::default(),
        }
    }

    /// The four analog deflections are in the saturated fixed-point range.
    pub open spec fn wf(self) -> bool {
        fx_in_range(self.x_axis.value as int) && fx_in_range(self.y_axis.value as int)
            && fx_in_range(self.c_x_axis.value as int) && fx_in_range(self.c_y_axis.value as int)
    }

    pub open spec fn spec_update(self) -> ControllerState {
        ControllerState {
            x_axis: self.x_axis.spec_update(),
            y_axis: self.y_axis.spec_update(),
            c_x_axis: self.c_x_axis.spec_update(),
            c_y_axis: self.c_y_axis.spec_update(),
            a_button: self.a_button.spec_update(),
            b_button: self.b_button.spec_update(),
            x_button: self.x_button.spec_update(),
            y_button: self.y_button.spec_update(),
            z_button: self.z_button.spec_update(),
            r_button: self.r_button.spec_update(),
            l_button: self.l_button.spec_update(),
            start_button: self.start_button.spec_update(),
            d_left_button: self.d_left_button.spec_update(),
            d_right_button: self.d_right_button.spec_update(),
            d_down_button: self.d_down_button.spec_update(),
            d_up_button: self.d_up_button.spec_update(),
        }
    }

    /// The one per-frame advance of every axis and button, run by the frame
    /// driver strictly after the frame's logic has read the edge state.
    pub fn update(&mut self)
        ensures
            *final(self) == old(self).spec_update(),
    {
        self.x_axis.update();
        self.y_axis.update();
        self.c_x_axis.update();
        self.c_y_axis.update();
        self.a_button.update();
        self.b_button.update();
        self.x_button.update();
        self.y_button.update();
        self.z_button.update();
        self.r_button.update();
        self.l_button.update();
        self.start_button.update();
        self.d_left_button.update();
        self.d_right_button.update();
        self.d_down_button.update();
        self.d_up_button.update();
    }

    /// The result of copying only the current raw values from a fresh
    /// snapshot, leaving all previous-state bookkeeping untouched.
    pub open spec fn spec_copy_inputs(self, from: ControllerState) -> ControllerState {
        ControllerState {
            x_axis: AnalogAxis { value: from.x_axis.value, ..self.x_axis },
            y_axis: AnalogAxis { value: from.y_axis.value, ..self.y_axis },
            c_x_axis: AnalogAxis { value: from.c_x_axis.value, ..self.c_x_axis },
            c_y_axis: AnalogAxis { value: from.c_y_axis.value, ..self.c_y_axis },
            a_button: Button { is_pressed: from.a_button.is_pressed, ..self.a_button },
            b_button: Button { is_pressed: from.b_button.is_pressed, ..self.b_button },
            x_button: Button { is_pressed: from.x_button.is_pressed, ..self.x_button },
            y_button: Button { is_pressed: from.y_button.is_pressed, ..self.y_button },
            z_button: Button { is_pressed: from.z_button.is_pressed, ..self.z_button },
            r_button: Button { is_pressed: from.r_button.is_pressed, ..self.r_button },
            l_button: Button { is_pressed: from.l_button.is_pressed, ..self.l_button },
            start_button: Button {
                is_pressed: from.start_button.is_pressed,
                ..self.start_button
            },
            d_left_button: Button {
                is_pressed: from.d_left_button.is_pressed,
                ..self.d_left_button
            },
            d_right_button: Button {
                is_pressed: from.d_right_button.is_pressed,
                ..self.d_right_button
            },
            d_down_button: Button {
                is_pressed: from.d_down_button.is_pressed,
                ..self.d_down_button
            },
            d_up_button: Button { is_pressed: from.d_up_button.is_pressed, ..self.d_up_button },
        }
    }

    /// How a frame's fresh raw input enters the simulation without
    /// disturbing edge detection: only current values are overwritten.
    pub fn copy_inputs(&mut self, from_controller: &ControllerState)
        ensures
            *final(self) == old(self).spec_copy_inputs(*from_controller),
    {
        let r = ControllerState {
            x_axis: AnalogAxis { value: from_controller.x_axis.value, ..self.x_axis },
            y_axis: AnalogAxis { value: from_controller.y_axis.value, ..self.y_axis },
            c_x_axis: AnalogAxis { value: from_controller.c_x_axis.value, ..self.c_x_axis },
            c_y_axis: AnalogAxis { value: from_controller.c_y_axis.value, ..self.c_y_axis },
            a_button: Button { is_pressed: from_controller.a_button.is_pressed, ..self.a_button },
            b_button: Button { is_pressed: from_controller.b_button.is_pressed, ..self.b_button },
            x_button: Button { is_pressed: from_controller.x_button.is_pressed, ..self.x_button },
            y_button: Button { is_pressed: from_controller.y_button.is_pressed, ..self.y_button },
            z_button: Button { is_pressed: from_controller.z_button.is_pressed, ..self.z_button },
            r_button: Button { is_pressed: from_controller.r_button.is_pressed, ..self.r_button },
            l_button: Button { is_pressed: from_controller.l_button.is_pressed, ..self.l_button },
            start_button: Button {
                is_pressed: from_controller.start_button.is_pressed,
                ..self.start_button
            },
            d_left_button: Button {
                is_pressed: from_controller.d_left_button.is_pressed,
                ..self.d_left_button
            },
            d_right_button: Button {
                is_pressed: from_controller.d_right_button.is_pressed,
                ..self.d_right_button
            },
            d_down_button: Button {
                is_pressed: from_controller.d_down_button.is_pressed,
                ..self.d_down_button
            },
            d_up_button: Button {
                is_pressed: from_controller.d_up_button.is_pressed,
                ..self.d_up_button
            },
        };
        *self = r;
    }

    pub open spec fn spec_convert_to_melee_values(self) -> ControllerState {
        let main_pair = spec_convert_pair(self.x_axis.value as int, self.y_axis.value as int);
        let c_pair = spec_convert_pair(self.c_x_axis.value as int, self.c_y_axis.value as int);
        ControllerState {
            x_axis: AnalogAxis { value: main_pair.0 as i64, ..self.x_axis },
            y_axis: AnalogAxis { value: main_pair.1 as i64, ..self.y_axis },
            c_x_axis: AnalogAxis { value: c_pair.0 as i64, ..self.c_x_axis },
            c_y_axis: AnalogAxis { value: c_pair.1 as i64, ..self.c_y_axis },
            ..self
        }
    }

    /// Quantizes both sticks to the game's internal stick resolution.
    pub fn convert_to_melee_values(&mut self)
        requires
            old(self).wf(),
        ensures
            *final(self) == old(self).spec_convert_to_melee_values(),
            final(self).wf(),
    {
        convert_to_melee_values(&mut self.x_axis, &mut self.y_axis);
        convert_to_melee_values(&mut self.c_x_axis, &mut self.c_y_axis);
    }
}

} // verus!
