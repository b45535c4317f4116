//! Building the synthetic input that replaces a remapped keystroke.

use vstd::prelude::*;

use crate::keys::Transition;

verus! {

/// One synthetic key event to inject into the system input stream.
#[derive(Clone, Copy, PartialEq, Eq, Structural, Debug)]
pub struct KeyEvent {
    pub vk: u16,
    pub transition: Transition,
}

/// The input records for one synthetic keystroke of `vk`: exactly one
/// key-down immediately followed by its key-up, as if a physical key had
/// been pressed and released. The caller injects them in this order.
pub fn synth_sequence(vk: u16) -> (evs: Vec<KeyEvent>)
    ensures
        evs@.len() == 2,
        evs@[0] == (KeyEvent { vk, transition: Transition::Down }),
        evs@[1] == (KeyEvent { vk, transition: Transition::Up }),
{
    let mut evs: Vec<KeyEvent> = Vec::new();
    evs.push(KeyEvent { vk, transition: Transition::Down });
    evs.push(KeyEvent { vk, transition: Transition::Up });
    evs
}

} // verus!
