//! The guarantees of the remapping state machine, stated over whole event
//! histories and arbitrary tables.

use vstd::prelude::*;

use crate::dispatch::spec_next_state;
use crate::dispatch::spec_synth;
use crate::keys::ModifierKey;
use crate::keys::Transition;
use crate::keys::spec_gate_vk;
use crate::keys::spec_is_gate_vk;
use crate::remap::Rule;
use crate::remap::spec_active_lookup;
use crate::remap::spec_lookup;
use crate::state::KeyState;

verus! {

/// The key state after a whole sequence of transitions of one key,
/// dispatched in order.
pub open spec fn apply_transitions(init: KeyState, vk: u16, events: Seq<Transition>) -> KeyState
    decreases events.len(),
{
    if events.len() == 0 {
        init
    } else {
        spec_next_state(apply_transitions(init, vk, events.drop_last()), vk, events.last())
    }
}

/// A gate's flag after a run of its own transitions is decided by the final
/// one alone: true exactly when that one went down; an empty run keeps the
/// starting flag.
pub proof fn lemma_gate_flag_tracks_last(
    init: KeyState,
    gate: ModifierKey,
    events: Seq<Transition>,
)
    ensures
        apply_transitions(init, spec_gate_vk(gate), events).spec_is_pressed(gate) == (if events.len()
            == 0 {
            init.spec_is_pressed(gate)
        } else {
            events.last() == Transition::Down
        }),
{
}

/// Events of a key that is no gate never move the key state, over a whole
/// history just as over a single event.
pub proof fn lemma_non_gate_leaves_state(init: KeyState, vk: u16, events: Seq<Transition>)
    requires
        !spec_is_gate_vk(vk),
    ensures
        apply_transitions(init, vk, events) == init,
    decreases events.len(),
{
    if events.len() > 0 {
        lemma_non_gate_leaves_state(init, vk, events.drop_last());
    }
}

/// While no gate at all is pressed, no rule is active, whatever the table
/// holds.
pub proof fn lemma_active_lookup_none(state: KeyState, rules: Seq<Rule>, trigger: u16)
    requires
        forall|gate: ModifierKey| !state.spec_is_pressed(gate),
    ensures
        spec_active_lookup(state, rules, trigger) is None,
    decreases rules.len(),
{
    if rules.len() > 0 {
        assert(!state.spec_is_pressed(rules[0].gate));
        lemma_active_lookup_none(state, rules.drop_first(), trigger);
    }
}

/// While only `gate` is pressed, the active lookup of a trigger agrees with
/// the table's lookup under that gate.
pub proof fn lemma_active_lookup_single_gate(
    state: KeyState,
    rules: Seq<Rule>,
    gate: ModifierKey,
    trigger: u16,
)
    requires
        state.spec_is_pressed(gate),
        forall|other: ModifierKey| other != gate ==> !state.spec_is_pressed(other),
    ensures
        spec_active_lookup(state, rules, trigger) == spec_lookup(rules, gate, trigger),
    decreases rules.len(),
{
    if rules.len() > 0 {
        if rules[0].gate != gate {
            assert(!state.spec_is_pressed(rules[0].gate));
        }
        lemma_active_lookup_single_gate(state, rules.drop_first(), gate, trigger);
    }
}

/// While `gate` alone is pressed and the table maps `(gate, trigger)` to
/// `emit`, a key-down of the trigger synthesizes exactly `emit`, the
/// original event is suppressed by the dispatcher's contract, and the key
/// state does not move.
pub proof fn lemma_remap_fires(
    state: KeyState,
    rules: Seq<Rule>,
    gate: ModifierKey,
    trigger: u16,
    emit: u16,
)
    requires
        state.spec_is_pressed(gate),
        forall|other: ModifierKey| other != gate ==> !state.spec_is_pressed(other),
        spec_lookup(rules, gate, trigger) == Some(emit),
        !spec_is_gate_vk(trigger),
    ensures
        spec_synth(state, rules, trigger, Transition::Down) == Some(emit),
        spec_next_state(state, trigger, Transition::Down) == state,
{
    lemma_active_lookup_single_gate(state, rules, gate, trigger);
}

/// While no gate is pressed, every event is forwarded with nothing
/// synthesized, whatever the table holds; one of a key that is no gate also
/// leaves the state where it was.
pub proof fn lemma_no_active_gate_forwards(
    state: KeyState,
    rules: Seq<Rule>,
    vk: u16,
    t: Transition,
)
    requires
        forall|gate: ModifierKey| !state.spec_is_pressed(gate),
    ensures
        spec_synth(state, rules, vk, t) is None,
        !spec_is_gate_vk(vk) ==> spec_next_state(state, vk, t) == state,
{
    if !spec_is_gate_vk(vk) {
        lemma_active_lookup_none(state, rules, vk);
    }
}

/// A key code that is no gate and that no active rule matches passes
/// through untouched: the state does not move and nothing is synthesized.
pub proof fn lemma_unrelated_key_passes(state: KeyState, rules: Seq<Rule>, vk: u16, t: Transition)
    requires
        !spec_is_gate_vk(vk),
        spec_active_lookup(state, rules, vk) is None,
    ensures
        spec_next_state(state, vk, t) == state,
        spec_synth(state, rules, vk, t) is None,
{
}

/// Releasing a gate key that is already released is a no-op: the flag stays
/// false, the state as a whole does not move, and nothing is synthesized.
pub proof fn lemma_release_idempotent(state: KeyState, gate: ModifierKey, rules: Seq<Rule>)
    requires
        !state.spec_is_pressed(gate),
    ensures
        spec_next_state(state, spec_gate_vk(gate), Transition::Up) == state,
        spec_synth(state, rules, spec_gate_vk(gate), Transition::Up) is None,
{
}

} // verus!
