//! Which movement keys are held down.

use vstd::prelude::*;

verus! {

/// A key of the keyboard, as far as movement goes.
#[derive(Clone, Copy, Debug, PartialEq, Eq, Structural)]
pub enum Key {
    Space,
    LShift,
    W,
    S,
    A,
    D,
    Other,
}

/// The movement keys that are held down, by the direction they move in.
#[derive(Clone, Copy, Debug, PartialEq, Eq, Structural)]
pub struct Controls {
    pub forward: bool,
    pub backward: bool,
    pub left: bool,
    pub right: bool,
    pub up: bool,
    pub down: bool,
}

/// One step along an axis for the key in its positive direction, one step
/// back for the key in its negative direction.
pub open spec fn spec_axis(positive: bool, negative: bool) -> int {
    (if positive { 1int } else { 0int }) - (if negative { 1int } else { 0int })
}

impl Controls {
    /// The controls after `key` went down or up: the direction that the key
    /// moves in is held exactly if the key went down, and the others are as
    /// they were.
    pub open spec fn after(self, pressed: bool, key: Key) -> Controls {
        match key {
            Key::Space => Controls { up: pressed, ..self },
            Key::LShift => Controls { down: pressed, ..self },
            Key::W => Controls { forward: pressed, ..self },
            Key::S => Controls { backward: pressed, ..self },
            Key::A => Controls { left: pressed, ..self },
            Key::D => Controls { right: pressed, ..self },
            Key::Other => self,
        }
    }

    /// Controls with no key held.
    pub fn new() -> (c: Self)
        ensures
            c == (Controls {
                forward: false,
                backward: false,
                left: false,
                right: false,
                up: false,
                down: false,
            }),
    {
        Controls { forward: false, backward: false, left: false, right: false, up: false, down: false }
    }

    /// Takes note that `key` went down or up. Every key counts as handled.
    pub fn process_keyboard_input(&mut self, pressed: bool, key: Key) -> (handled: bool)
        ensures
            handled,
            *final(self) == old(self).after(pressed, key),
    {
        match key {
            Key::Space => {
                self.up = pressed;
            },
            Key::LShift => {
                self.down = pressed;
            },
            Key::W => {
                self.forward = pressed;
            },
            Key::S => {
                self.backward = pressed;
            },
            Key::A => {
                self.left = pressed;
            },
            Key::D => {
                self.right = pressed;
            },
            Key::Other => {},
        }
        true
    }

    /// Steps ahead: forward less backward.
    pub fn ahead(&self) -> (steps: i32)
        ensures
            steps == spec_axis(self.forward, self.backward),
    {
        axis(self.forward, self.backward)
    }

    /// Steps to the side: right less left.
    pub fn sideways(&self) -> (steps: i32)
        ensures
            steps == spec_axis(self.right, self.left),
    {
        axis(self.right, self.left)
    }

    /// Steps upward: up less down.
    pub fn upward(&self) -> (steps: i32)
        ensures
            steps == spec_axis(self.up, self.down),
    {
        axis(self.up, self.down)
    }
}

fn axis(positive: bool, negative: bool) -> (steps: i32)
    ensures
        steps == spec_axis(positive, negative),
{
    let p: i32 = if positive { 1 } else { 0 };
    let n: i32 = if negative { 1 } else { 0 };
    p - n
}

} // verus!
