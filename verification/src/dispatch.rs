//! The per-event decision procedure run for every hooked keyboard event.

use vstd::prelude::*;

use crate::keys::Transition;
use crate::keys::gate_of_vk;
use crate::keys::spec_classify_message;
use crate::keys::spec_gate_of_vk;
use crate::keys::spec_is_gate_vk;
use crate::keys::classify_message;
use crate::remap::RemapTable;
use crate::remap::Rule;
use crate::remap::spec_active_lookup;
use crate::state::KeyState;

verus! {

/// What the hook must do with the original event: suppress it or forward it,
/// and which key, if any, to synthesize in its place.
#[derive(Clone, Copy, PartialEq, Eq, Structural, Debug)]
pub struct Outcome {
    /// True when the original event must not reach other applications.
    pub suppress: bool,
    /// The virtual key code to press and release synthetically, if any.
    pub synth: Option<u16>,
}

/// The key state after one event: a gate key's flag follows its transition,
/// unconditionally and before any remap evaluation; any other key leaves the
/// state untouched.
pub open spec fn spec_next_state(state: KeyState, vk: u16, t: Transition) -> KeyState {
    match spec_gate_of_vk(vk) {
        Some(gate) => state.spec_set(gate, t == Transition::Down),
        None => state,
    }
}

/// The key synthesized for one event: only a key-down of a non-gate key
/// consults the table, under the gates pressed when the event arrived.
pub open spec fn spec_synth(state: KeyState, rules: Seq<Rule>, vk: u16, t: Transition) -> Option<
    u16,
> {
    if !spec_is_gate_vk(vk) && t == Transition::Down {
        spec_active_lookup(state, rules, vk)
    } else {
        None
    }
}

/// Consults the table for every event and decides suppression; owns the
/// read-only rules, while the caller owns the mutable key state.
pub struct HookDispatcher {
    pub table: RemapTable,
}

impl HookDispatcher {
    /// A dispatcher over the given rules.
    pub fn new(table: RemapTable) -> (d: HookDispatcher)
        ensures
            d.table.rules@ == table.rules@,
    {
        HookDispatcher { table }
    }

    /// Handles one decoded key event.
    ///
    /// A gate key updates its flag (down sets it, up clears it) and is
    /// forwarded. A key-down of any other key is remapped and suppressed
    /// when a rule for it is active, else forwarded. Everything else is
    /// forwarded with the state untouched. The original event is suppressed
    /// exactly when a key is synthesized in its place.
    pub fn dispatch(&self, state: &mut KeyState, vk: u16, t: Transition) -> (out: Outcome)
        ensures
            *final(state) == spec_next_state(*old(state), vk, t),
            out.synth == spec_synth(*old(state), self.table.rules@, vk, t),
            out.suppress == out.synth is Some,
    {
        match gate_of_vk(vk) {
            Some(gate) => {
                state.set(gate, t == Transition::Down);
                Outcome { suppress: false, synth: None }
            },
            None => {
                if t == Transition::Down {
                    match self.table.lookup_active(state, vk) {
                        Some(emit) => Outcome { suppress: true, synth: Some(emit) },
                        None => Outcome { suppress: false, synth: None },
                    }
                } else {
                    Outcome { suppress: false, synth: None }
                }
            },
        }
    }

    /// Handles one raw hook event, still carrying its message code.
    ///
    /// A message that is no key transition at all leaves the state untouched
    /// and the event forwarded; a decoded one is dispatched as above.
    pub fn handle_event(&self, state: &mut KeyState, message: usize, vk: u16) -> (out: Outcome)
        ensures
            *final(state) == (match spec_classify_message(message) {
                Some(t) => spec_next_state(*old(state), vk, t),
                None => *old(state),
            }),
            out.synth == (match spec_classify_message(message) {
                Some(t) => spec_synth(*old(state), self.table.rules@, vk, t),
                None => None::<u16>,
            }),
            out.suppress == out.synth is Some,
    {
        match classify_message(message) {
            Some(t) => self.dispatch(state, vk, t),
            None => Outcome { suppress: false, synth: None },
        }
    }
}

} // verus!
