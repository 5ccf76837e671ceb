//! The keys that drive the player, and the logical controls they stand for.

use vstd::prelude::*;

verus! {

/// Which of the keys that the game listens to are held down.
#[derive(Clone, Copy, PartialEq, Eq, Structural, Debug)]
pub struct KeysHeld {
    pub key_a: bool,
    pub arrow_left: bool,
    pub key_d: bool,
    pub arrow_right: bool,
    pub key_k: bool,
    pub space: bool,
    pub key_x: bool,
    pub shift_right: bool,
}

/// The logical controls of one tick.
#[derive(Clone, Copy, PartialEq, Eq, Structural, Debug)]
pub struct Controls {
    pub turn_left: bool,
    pub turn_right: bool,
    pub fire: bool,
}

impl KeysHeld {
    /// The controls that the held keys stand for: either of two keys turns
    /// left, either of two turns right, and any of four fires.
    pub open spec fn to_controls(self) -> Controls {
        Controls {
            turn_left: self.key_a || self.arrow_left,
            turn_right: self.key_d || self.arrow_right,
            fire: self.key_k || self.space || self.key_x || self.shift_right,
        }
    }

    /// No key held.
    pub fn none() -> (keys: KeysHeld)
        ensures
            keys == (KeysHeld {
                key_a: false,
                arrow_left: false,
                key_d: false,
                arrow_right: false,
                key_k: false,
                space: false,
                key_x: false,
                shift_right: false,
            }),
    {
        KeysHeld {
            key_a: false,
            arrow_left: false,
            key_d: false,
            arrow_right: false,
            key_k: false,
            space: false,
            key_x: false,
            shift_right: false,
        }
    }

    /// Reads the logical controls off the held keys.
    pub fn controls(&self) -> (controls: Controls)
        ensures
            controls == self.to_controls(),
    {
        Controls {
            turn_left: self.key_a || self.arrow_left,
            turn_right: self.key_d || self.arrow_right,
            fire: self.key_k || self.space || self.key_x || self.shift_right,
        }
    }
}

impl Controls {
    /// Net turn of the tick in units of the rotation speed: a left turn
    /// counts as one, a right turn as minus one, and holding both cancels.
    pub open spec fn net_turn(self) -> int {
        (if self.turn_left { 1int } else { 0int }) - (if self.turn_right { 1int } else { 0int })
    }

    /// Computes the net turn of the tick.
    pub fn turn(&self) -> (turn: i8)
        ensures
            turn == self.net_turn(),
    {
        let left: i8 = if self.turn_left { 1 } else { 0 };
        let right: i8 = if self.turn_right { 1 } else { 0 };
        left - right
    }
}

} // verus!
