//! Keyboard-style controller state.
//!
//! Tracks which of the eight movement keys are held down.  Opposing keys on
//! one axis displace each other: pressing one releases the other.  The
//! embedding application maps its input events to the `Key` values; the
//! state itself is plain data.

use vstd::prelude::*;

verus! {

/// The eight movement keys the controller tracks: strafe (A/D), drive
/// (W/S), climb (Up/Down) and turn (Left/Right).
#[derive(Debug, Clone, Copy, PartialEq, Eq, Structural)]
pub enum Key {
    A,
    D,
    W,
    S,
    Up,
    Down,
    Left,
    Right,
}

/// Which movement keys are currently held down.
#[derive(Debug, Clone, Copy, PartialEq, Eq, Structural)]
pub struct ControllerState {
    pub a_down: bool,
    pub d_down: bool,
    pub w_down: bool,
    pub s_down: bool,
    pub up_down: bool,
    pub down_down: bool,
    pub left_down: bool,
    pub right_down: bool,
}

/// The state after a key has been pressed: the key is marked down and its
/// opposing key on the same axis released.
pub open spec fn spec_key_down(s: ControllerState, keycode: Key) -> ControllerState {
    match keycode {
        Key::A => ControllerState { a_down: true, d_down: false, ..s },
        Key::D => ControllerState { d_down: true, a_down: false, ..s },
        Key::W => ControllerState { w_down: true, s_down: false, ..s },
        Key::S => ControllerState { s_down: true, w_down: false, ..s },
        Key::Up => ControllerState { up_down: true, down_down: false, ..s },
        Key::Down => ControllerState { down_down: true, up_down: false, ..s },
        Key::Left => ControllerState { left_down: true, right_down: false, ..s },
        Key::Right => ControllerState { right_down: true, left_down: false, ..s },
    }
}

/// The state after a key has been released: the key is marked up and the
/// rest left alone.
pub open spec fn spec_key_up(s: ControllerState, keycode: Key) -> ControllerState {
    match keycode {
        Key::A => ControllerState { a_down: false, ..s },
        Key::D => ControllerState { d_down: false, ..s },
        Key::W => ControllerState { w_down: false, ..s },
        Key::S => ControllerState { s_down: false, ..s },
        Key::Up => ControllerState { up_down: false, ..s },
        Key::Down => ControllerState { down_down: false, ..s },
        Key::Left => ControllerState { left_down: false, ..s },
        Key::Right => ControllerState { right_down: false, ..s },
    }
}

impl ControllerState {
    /// A controller with no key held.
    pub fn new() -> (r: ControllerState)
        ensures
            !r.a_down,
            !r.d_down,
            !r.w_down,
            !r.s_down,
            !r.up_down,
            !r.down_down,
            !r.left_down,
            !r.right_down,
    {
        ControllerState {
            a_down: false,
            d_down: false,
            w_down: false,
            s_down: false,
            up_down: false,
            down_down: false,
            left_down: false,
            right_down: false,
        }
    }

    /// Marks a key pressed, releasing its opposing key.
    pub fn key_down(&mut self, keycode: Key)
        ensures
            *final(self) == spec_key_down(*old(self), keycode),
    {
        match keycode {
            Key::A => {
                self.d_down = false;
                self.a_down = true;
            },
            Key::D => {
                self.a_down = false;
                self.d_down = true;
            },
            Key::W => {
                self.s_down = false;
                self.w_down = true;
            },
            Key::S => {
                self.w_down = false;
                self.s_down = true;
            },
            Key::Up => {
                self.down_down = false;
                self.up_down = true;
            },
            Key::Down => {
                self.up_down = false;
                self.down_down = true;
            },
            Key::Left => {
                self.right_down = false;
                self.left_down = true;
            },
            Key::Right => {
                self.left_down = false;
                self.right_down = true;
            },
        }
    }

    /// Marks a key released.
    pub fn key_up(&mut self, keycode: Key)
        ensures
            *final(self) == spec_key_up(*old(self), keycode),
    {
        match keycode {
            Key::A => self.a_down = false,
            Key::D => self.d_down = false,
            Key::W => self.w_down = false,
            Key::S => self.s_down = false,
            Key::Up => self.up_down = false,
            Key::Down => self.down_down = false,
            Key::Left => self.left_down = false,
            Key::Right => self.right_down = false,
        }
    }
}

} // verus!
