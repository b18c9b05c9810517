//! A two-state digital input with one frame of edge memory.

use vstd::prelude::*;

verus! {

#[derive(Clone, Copy)]
pub struct Button {
    pub is_pressed: bool,
    pub was_previously_pressed: bool,
}

impl Button {
    pub fn default() -> (r: Button)
        ensures
            r == (Button { is_pressed: false, was_previously_pressed: false }),
    {
        Button { is_pressed: false, was_previously_pressed: false }
    }

    pub open spec fn spec_just_pressed(self) -> bool {
        self.is_pressed && !self.was_previously_pressed
    }

    pub open spec fn spec_just_released(self) -> bool {
        self.was_previously_pressed && !self.is_pressed
    }

    /// The per-frame advance: the current state becomes the previous state.
    pub open spec fn spec_update(self) -> Button {
        Button { was_previously_pressed: self.is_pressed, ..self }
    }

    pub fn just_pressed(&self) -> (r: bool)
        ensures
            r == self.spec_just_pressed(),
    {
        self.is_pressed && !self.was_previously_pressed
    }

    pub fn just_released(&self) -> (r: bool)
        ensures
            r == self.spec_just_released(),
    {
        self.was_previously_pressed && !self.is_pressed
    }

    /// Must run exactly once per simulated frame, after every reader of the
    /// frame's edge state; running it twice silently loses edges.
    pub fn update(&mut self)
        ensures
            *final(self) == old(self).spec_update(),
    {
        self.was_previously_pressed = self.is_pressed;
    }
}

} // verus!
