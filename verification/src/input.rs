//! The keys that the game reads, as pressed or not.

use vstd::prelude::*;

verus! {

/// Which of the game's keys are held down.
///
/// `w` and `s` move the left paddle, `up` and `down` the right one; `d` and
/// `left` are the push keys of the left and of the right player.
#[derive(Debug, Clone, Copy, PartialEq, Eq, Hash, Structural)]
pub struct KeyInput {
    pub w: bool,
    pub s: bool,
    pub d: bool,
    pub up: bool,
    pub down: bool,
    pub left: bool,
}

impl KeyInput {
    /// No key held.
    pub open spec fn released() -> KeyInput {
        KeyInput { w: false, s: false, d: false, up: false, down: false, left: false }
    }

    /// Whether one of the four movement keys is held.
    pub open spec fn any_move(self) -> bool {
        self.w || self.s || self.up || self.down
    }

    pub fn new() -> (keys: KeyInput)
        ensures
            keys == KeyInput::released(),
    {
        KeyInput { w: false, s: false, d: false, up: false, down: false, left: false }
    }

    /// Forgets every key: nothing counts as held until it is reported again.
    pub fn clear(&mut self)
        ensures
            *final(self) == KeyInput::released(),
    {
        *self = KeyInput::new();
    }
}

} // verus!
