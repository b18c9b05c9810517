//! The keyboard as a bank of edge-detecting buttons, indexed by a key
//! enumeration; the host window system's key events are translated into
//! these keys outside the library.

use vstd::prelude::*;
use crate::button::Button;

verus! {

#[derive(Clone, Copy, PartialEq, Eq, Structural, Debug)]
pub enum KeyboardKey {
    A,
    B,
    C,
    D,
    E,
    F,
    G,
    H,
    I,
    J,
    K,
    L,
    M,
    N,
    O,
    P,
    Q,
    R,
    S,
    T,
    U,
    V,
    W,
    X,
    Y,
    Z,
    F1,
    F2,
    F3,
    F4,
    F5,
    F6,
    F7,
    F8,
    F9,
    F10,
    F11,
    F12,
    F13,
    F14,
    F15,
    F16,
    F17,
    F18,
    F19,
    F20,
    F21,
    F22,
    F23,
    F24,
    Key0,
    Key1,
    Key2,
    Key3,
    Key4,
    Key5,
    Key6,
    Key7,
    Key8,
    Key9,
    Numpad0,
    Numpad1,
    Numpad2,
    Numpad3,
    Numpad4,
    Numpad5,
    Numpad6,
    Numpad7,
    Numpad8,
    Numpad9,
    Unknown,
}

/// Number of keys tracked.
pub const KEY_COUNT: usize = 71;

pub open spec fn spec_key_index(k: KeyboardKey) -> int {
    match k {
            KeyboardKey::A => 0,
            KeyboardKey::B => 1,
            KeyboardKey::C => 2,
            KeyboardKey::D => 3,
            KeyboardKey::E => 4,
            KeyboardKey::F => 5,
            KeyboardKey::G => 6,
            KeyboardKey::H => 7,
            KeyboardKey::I => 8,
            KeyboardKey::J => 9,
            KeyboardKey::K => 10,
            KeyboardKey::L => 11,
            KeyboardKey::M => 12,
            KeyboardKey::N => 13,
            KeyboardKey::O => 14,
            KeyboardKey::P => 15,
            KeyboardKey::Q => 16,
            KeyboardKey::R => 17,
            KeyboardKey::S => 18,
            KeyboardKey::T => 19,
            KeyboardKey::U => 20,
            KeyboardKey::V => 21,
            KeyboardKey::W => 22,
            KeyboardKey::X => 23,
            KeyboardKey::Y => 24,
            KeyboardKey::Z => 25,
            KeyboardKey::F1 => 26,
            KeyboardKey::F2 => 27,
            KeyboardKey::F3 => 28,
            KeyboardKey::F4 => 29,
            KeyboardKey::F5 => 30,
            KeyboardKey::F6 => 31,
            KeyboardKey::F7 => 32,
            KeyboardKey::F8 => 33,
            KeyboardKey::F9 => 34,
            KeyboardKey::F10 => 35,
            KeyboardKey::F11 => 36,
            KeyboardKey::F12 => 37,
            KeyboardKey::F13 => 38,
            KeyboardKey::F14 => 39,
            KeyboardKey::F15 => 40,
            KeyboardKey::F16 => 41,
            KeyboardKey::F17 => 42,
            KeyboardKey::F18 => 43,
            KeyboardKey::F19 => 44,
            KeyboardKey::F20 => 45,
            KeyboardKey::F21 => 46,
            KeyboardKey::F22 => 47,
            KeyboardKey::F23 => 48,
            KeyboardKey::F24 => 49,
            KeyboardKey::Key0 => 50,
            KeyboardKey::Key1 => 51,
            KeyboardKey::Key2 => 52,
            KeyboardKey::Key3 => 53,
            KeyboardKey::Key4 => 54,
            KeyboardKey::Key5 => 55,
            KeyboardKey::Key6 => 56,
            KeyboardKey::Key7 => 57,
            KeyboardKey::Key8 => 58,
            KeyboardKey::Key9 => 59,
            KeyboardKey::Numpad0 => 60,
            KeyboardKey::Numpad1 => 61,
            KeyboardKey::Numpad2 => 62,
            KeyboardKey::Numpad3 => 63,
            KeyboardKey::Numpad4 => 64,
            KeyboardKey::Numpad5 => 65,
            KeyboardKey::Numpad6 => 66,
            KeyboardKey::Numpad7 => 67,
            KeyboardKey::Numpad8 => 68,
            KeyboardKey::Numpad9 => 69,
            KeyboardKey::Unknown => 70,
    }
}

pub fn key_index(keyboard_key: KeyboardKey) -> (r: usize)
    ensures
        r as int == spec_key_index(keyboard_key),
        r < KEY_COUNT,
{
    match keyboard_key {
            KeyboardKey::A => 0,
            KeyboardKey::B => 1,
            KeyboardKey::C => 2,
            KeyboardKey::D => 3,
            KeyboardKey::E => 4,
            KeyboardKey::F => 5,
            KeyboardKey::G => 6,
            KeyboardKey::H => 7,
            KeyboardKey::I => 8,
            KeyboardKey::J => 9,
            KeyboardKey::K => 10,
            KeyboardKey::L => 11,
            KeyboardKey::M => 12,
            KeyboardKey::N => 13,
            KeyboardKey::O => 14,
            KeyboardKey::P => 15,
            KeyboardKey::Q => 16,
            KeyboardKey::R => 17,
            KeyboardKey::S => 18,
            KeyboardKey::T => 19,
            KeyboardKey::U => 20,
            KeyboardKey::V => 21,
            KeyboardKey::W => 22,
            KeyboardKey::X => 23,
            KeyboardKey::Y => 24,
            KeyboardKey::Z => 25,
            KeyboardKey::F1 => 26,
            KeyboardKey::F2 => 27,
            KeyboardKey::F3 => 28,
            KeyboardKey::F4 => 29,
            KeyboardKey::F5 => 30,
            KeyboardKey::F6 => 31,
            KeyboardKey::F7 => 32,
            KeyboardKey::F8 => 33,
            KeyboardKey::F9 => 34,
            KeyboardKey::F10 => 35,
            KeyboardKey::F11 => 36,
            KeyboardKey::F12 => 37,
            KeyboardKey::F13 => 38,
            KeyboardKey::F14 => 39,
            KeyboardKey::F15 => 40,
            KeyboardKey::F16 => 41,
            KeyboardKey::F17 => 42,
            KeyboardKey::F18 => 43,
            KeyboardKey::F19 => 44,
            KeyboardKey::F20 => 45,
            KeyboardKey::F21 => 46,
            KeyboardKey::F22 => 47,
            KeyboardKey::F23 => 48,
            KeyboardKey::F24 => 49,
            KeyboardKey::Key0 => 50,
            KeyboardKey::Key1 => 51,
            KeyboardKey::Key2 => 52,
            KeyboardKey::Key3 => 53,
            KeyboardKey::Key4 => 54,
            KeyboardKey::Key5 => 55,
            KeyboardKey::Key6 => 56,
            KeyboardKey::Key7 => 57,
            KeyboardKey::Key8 => 58,
            KeyboardKey::Key9 => 59,
            KeyboardKey::Numpad0 => 60,
            KeyboardKey::Numpad1 => 61,
            KeyboardKey::Numpad2 => 62,
            KeyboardKey::Numpad3 => 63,
            KeyboardKey::Numpad4 => 64,
            KeyboardKey::Numpad5 => 65,
            KeyboardKey::Numpad6 => 66,
            KeyboardKey::Numpad7 => 67,
            KeyboardKey::Numpad8 => 68,
            KeyboardKey::Numpad9 => 69,
            KeyboardKey::Unknown => 70,
    }
}

pub struct Keyboard {
    pub keys: Vec<Button>,
}

impl Keyboard {
    pub open spec fn wf(self) -> bool {
        self.keys@.len() == KEY_COUNT
    }

    pub fn new() -> (r: Keyboard)
        ensures
            r.wf(),
            forall|i: int|
                0 <= i < KEY_COUNT ==> r.keys@[i] == (Button {
                    is_pressed: false,
                    was_previously_pressed: false,
                }),
    {
        let mut keys: Vec<Button> = Vec::new();
        let mut i: usize = 0;
        while i < KEY_COUNT
            invariant
                i <= KEY_COUNT,
                keys@.len() == i,
                forall|j: int|
                    0 <= j < i as int ==> keys@[j] == (Button {
                        is_pressed: false,
                        was_previously_pressed: false,
                    }),
            decreases KEY_COUNT - i,
        {
            keys.push(Button::default());
            i += 1;
        }
        Keyboard { keys }
    }

    /// The current edge state of one key.
    pub fn key(&self, keyboard_key: KeyboardKey) -> (r: Button)
        requires
            self.wf(),
        ensures
            r == self.keys@[spec_key_index(keyboard_key)],
    {
        self.keys[key_index(keyboard_key)]
    }

    /// Writes one key's current pressed state (edge history untouched).
    pub fn set_key_pressed(&mut self, keyboard_key: KeyboardKey, is_pressed: bool)
        requires
            old(self).wf(),
        ensures
            final(self).wf(),
            final(self).keys@ == old(self).keys@.update(
                spec_key_index(keyboard_key),
                Button {
                    is_pressed: is_pressed,
                    ..old(self).keys@[spec_key_index(keyboard_key)]
                },
            ),
    {
        let i = key_index(keyboard_key);
        let updated = Button { is_pressed, ..self.keys[i] };
        self.keys.set(i, updated);
    }

    /// The one per-frame advance of every key's edge state.
    pub fn update(&mut self)
        requires
            old(self).wf(),
        ensures
            final(self).wf(),
            forall|i: int|
                0 <= i < KEY_COUNT ==> final(self).keys@[i] == old(self).keys@[i].spec_update(),
    {
        let mut i: usize = 0;
        while i < self.keys.len()
            invariant
                old(self).wf(),
                self.keys@.len() == KEY_COUNT,
                i <= KEY_COUNT,
                forall|j: int|
                    i as int <= j < KEY_COUNT ==> self.keys@[j] == old(self).keys@[j],
                forall|j: int|
                    0 <= j < i as int ==> self.keys@[j] == old(self).keys@[j].spec_update(),
            decreases KEY_COUNT - i,
        {
            let mut key = self.keys[i];
            key.update();
            self.keys.set(i, key);
            i += 1;
        }
    }
}

} // verus!
