//! The digital input snapshot an input collaborator fills once per frame:
//! four directional signals that become the two movement-stick axes, and
//! the button states, written into a controller without disturbing its
//! edge-detection history.

use vstd::prelude::*;
use crate::analog_axis::AnalogAxis;
use crate::button::Button;
use crate::controller_state::ControllerState;

verus! {

pub struct DigitalInput {
    pub left: bool,
    pub right: bool,
    pub down: bool,
    pub up: bool,
    pub x: bool,
    pub y: bool,
    pub z: bool,
    pub l: bool,
    pub r: bool,
    pub start: bool,
    pub d_left: bool,
    pub d_right: bool,
    pub d_down: bool,
    pub d_up: bool,
}

impl DigitalInput {
    pub fn default() -> (r: DigitalInput)
        ensures
            r == (DigitalInput {
                left: false,
                right: false,
                down: false,
                up: false,
                x: false,
                y: false,
                z: false,
                l: false,
                r: false,
                start: false,
                d_left: false,
                d_right: false,
                d_down: false,
                d_up: false,
            }),
    {
        DigitalInput {
            left: false,
            right: false,
            down: false,
            up: false,
            x: false,
            y: false,
            z: false,
            l: false,
            r: false,
            start: false,
            d_left: false,
            d_right: false,
            d_down: false,
            d_up: false,
        }
    }

    /// The controller after taking this snapshot: the two movement axes
    /// from the directional pairs, the button currents, and the stick
    /// quantization applied; edge history is untouched.
    pub open spec fn spec_applied_to(self, c: ControllerState) -> ControllerState {
        let with_axes = ControllerState {
            x_axis: c.x_axis.spec_set_value_from_states(self.left, self.right),
            y_axis: c.y_axis.spec_set_value_from_states(self.down, self.up),
            x_button: Button { is_pressed: self.x, ..c.x_button },
            y_button: Button { is_pressed: self.y, ..c.y_button },
            z_button: Button { is_pressed: self.z, ..c.z_button },
            l_button: Button { is_pressed: self.l, ..c.l_button },
            r_button: Button { is_pressed: self.r, ..c.r_button },
            start_button: Button { is_pressed: self.start, ..c.start_button },
            d_left_button: Button { is_pressed: self.d_left, ..c.d_left_button },
            d_right_button: Button { is_pressed: self.d_right, ..c.d_right_button },
            d_down_button: Button { is_pressed: self.d_down, ..c.d_down_button },
            d_up_button: Button { is_pressed: self.d_up, ..c.d_up_button },
            ..c
        };
        with_axes.spec_convert_to_melee_values()
    }

    pub fn update_controller_state(&self, controller_state: &mut ControllerState)
        requires
            old(controller_state).wf(),
        ensures
            *final(controller_state) == self.spec_applied_to(*old(controller_state)),
            final(controller_state).wf(),
    {
        let mut x_axis = controller_state.x_axis;
        let mut y_axis = controller_state.y_axis;
        x_axis.set_value_from_states(self.left, self.right);
        y_axis.set_value_from_states(self.down, self.up);
        let filled = ControllerState {
            x_axis,
            y_axis,
            x_button: Button { is_pressed: self.x, ..controller_state.x_button },
            y_button: Button { is_pressed: self.y, ..controller_state.y_button },
            z_button: Button { is_pressed: self.z, ..controller_state.z_button },
            l_button: Button { is_pressed: self.l, ..controller_state.l_button },
            r_button: Button { is_pressed: self.r, ..controller_state.r_button },
            start_button: Button { is_pressed: self.start, ..controller_state.start_button },
            d_left_button: Button { is_pressed: self.d_left, ..controller_state.d_left_button },
            d_right_button: Button {
                is_pressed: self.d_right,
                ..controller_state.d_right_button
            },
            d_down_button: Button { is_pressed: self.d_down, ..controller_state.d_down_button },
            d_up_button: Button { is_pressed: self.d_up, ..controller_state.d_up_button },
            ..*controller_state
        };
        *controller_state = filled;
        controller_state.convert_to_melee_values();
    }
}

} // verus!
