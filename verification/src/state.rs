//! Which gate keys are currently held down.

use vstd::prelude::*;

use crate::keys::ModifierKey;

verus! {

/// Holds one boolean per tracked gate key: true while the most recently
/// observed event for that key was a key-down not yet followed by its key-up.
#[derive(Clone, Copy, PartialEq, Eq, Structural, Debug)]
pub struct KeyState {
    pub convert_pressed: bool,
    pub nonconvert_pressed: bool,
}

impl KeyState {
    /// The flag tracked for a gate key.
    pub open spec fn spec_is_pressed(self, gate: ModifierKey) -> bool {
        match gate {
            ModifierKey::Convert => self.convert_pressed,
            ModifierKey::NonConvert => self.nonconvert_pressed,
        }
    }

    /// The state with one gate key's flag replaced and the other kept.
    pub open spec fn spec_set(self, gate: ModifierKey, pressed: bool) -> KeyState {
        match gate {
            ModifierKey::Convert => KeyState { convert_pressed: pressed, ..self },
            ModifierKey::NonConvert => KeyState { nonconvert_pressed: pressed, ..self },
        }
    }

    /// A fresh state: every gate key released.
    pub fn new() -> (s: KeyState)
        ensures
            !s.convert_pressed,
            !s.nonconvert_pressed,
    {
        KeyState { convert_pressed: false, nonconvert_pressed: false }
    }

    /// Reads the flag of one gate key.
    pub fn is_pressed(&self, gate: ModifierKey) -> (r: bool)
        ensures
            r == self.spec_is_pressed(gate),
    {
        match gate {
            ModifierKey::Convert => self.convert_pressed,
            ModifierKey::NonConvert => self.nonconvert_pressed,
        }
    }

    /// Sets the flag of one gate key, leaving the other untouched.
    pub fn set(&mut self, gate: ModifierKey, pressed: bool)
        ensures
            *final(self) == old(self).spec_set(gate, pressed),
            final(self).spec_is_pressed(gate) == pressed,
    {
        match gate {
            ModifierKey::Convert => self.convert_pressed = pressed,
            ModifierKey::NonConvert => self.nonconvert_pressed = pressed,
        }
    }
}

} // verus!
