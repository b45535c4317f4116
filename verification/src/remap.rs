//! The read-only table of remapping rules.

use vstd::prelude::*;

use crate::keys::ModifierKey;
use crate::keys::VK_DOWN;
use crate::keys::VK_I;
use crate::keys::VK_J;
use crate::keys::VK_K;
use crate::keys::VK_L;
use crate::keys::VK_LEFT;
use crate::keys::VK_RIGHT;
use crate::keys::VK_UP;
use crate::state::KeyState;

verus! {

/// One remapping rule: while `gate` is pressed, a key-down of `trigger`
/// is replaced by a synthetic press of `emit`.
#[derive(Clone, Copy, PartialEq, Eq, Structural, Debug)]
pub struct Rule {
    pub gate: ModifierKey,
    pub trigger: u16,
    pub emit: u16,
}

/// The key that a rule list maps `(gate, trigger)` to, if any rule does.
pub open spec fn spec_lookup(rules: Seq<Rule>, gate: ModifierKey, trigger: u16) -> Option<u16>
    decreases rules.len(),
{
    if rules.len() == 0 {
        None
    } else if rules[0].gate == gate && rules[0].trigger == trigger {
        Some(rules[0].emit)
    } else {
        spec_lookup(rules.drop_first(), gate, trigger)
    }
}

/// The key that the first rule whose gate is pressed in `state` and whose
/// trigger is `trigger` maps to, if any such rule exists.
pub open spec fn spec_active_lookup(state: KeyState, rules: Seq<Rule>, trigger: u16) -> Option<
    u16,
>
    decreases rules.len(),
{
    if rules.len() == 0 {
        None
    } else if state.spec_is_pressed(rules[0].gate) && rules[0].trigger == trigger {
        Some(rules[0].emit)
    } else {
        spec_active_lookup(state, rules.drop_first(), trigger)
    }
}

/// An ordered set of remapping rules, free of ambiguous overlaps: no two
/// rules share a `(gate, trigger)` pair. Constructed once, immutable after.
pub struct RemapTable {
    pub rules: Vec<Rule>,
}

impl RemapTable {
    /// No two rules claim the same `(gate, trigger)` pair.
    pub open spec fn wf(self) -> bool {
        forall|i: int, j: int|
            0 <= i < j < self.rules@.len() ==> !(#[trigger] self.rules@[i].gate
                == #[trigger] self.rules@[j].gate && self.rules@[i].trigger
                == self.rules@[j].trigger)
    }

    /// The built-in table: while the convert key is held, I, K, J and L
    /// become the up, down, left and right arrows.
    pub fn standard() -> (t: RemapTable)
        ensures
            t.wf(),
            t.rules@ =~= seq![
                Rule { gate: ModifierKey::Convert, trigger: VK_I, emit: VK_UP },
                Rule { gate: ModifierKey::Convert, trigger: VK_K, emit: VK_DOWN },
                Rule { gate: ModifierKey::Convert, trigger: VK_J, emit: VK_LEFT },
                Rule { gate: ModifierKey::Convert, trigger: VK_L, emit: VK_RIGHT },
            ],
    {
        let mut rules: Vec<Rule> = Vec::new();
        rules.push(Rule { gate: ModifierKey::Convert, trigger: VK_I, emit: VK_UP });
        rules.push(Rule { gate: ModifierKey::Convert, trigger: VK_K, emit: VK_DOWN });
        rules.push(Rule { gate: ModifierKey::Convert, trigger: VK_J, emit: VK_LEFT });
        rules.push(Rule { gate: ModifierKey::Convert, trigger: VK_L, emit: VK_RIGHT });
        RemapTable { rules }
    }

    /// The key to synthesize for `(gate, trigger)`, or none if no rule
    /// matches. Pure and side-effect free.
    pub fn lookup(&self, gate: ModifierKey, trigger: u16) -> (r: Option<u16>)
        ensures
            r == spec_lookup(self.rules@, gate, trigger),
    {
        let n = self.rules.len();
        proof {
            assert(self.rules@.skip(0) =~= self.rules@);
        }
        for i in 0..n
            invariant
                n == self.rules@.len(),
                spec_lookup(self.rules@, gate, trigger) == spec_lookup(
                    self.rules@.skip(i as int),
                    gate,
                    trigger,
                ),
        {
            let rule = self.rules[i];
            proof {
                assert(self.rules@.skip(i as int)[0] == self.rules@[i as int]);
                assert(self.rules@.skip(i as int).drop_first() =~= self.rules@.skip(i + 1));
            }
            if rule.gate == gate && rule.trigger == trigger {
                return Some(rule.emit);
            }
        }
        proof {
            assert(self.rules@.skip(n as int).len() == 0);
        }
        None
    }

    /// The key to synthesize for `trigger` under the gates pressed in
    /// `state`: the first rule whose gate is active and whose trigger
    /// matches wins.
    pub fn lookup_active(&self, state: &KeyState, trigger: u16) -> (r: Option<u16>)
        ensures
            r == spec_active_lookup(*state, self.rules@, trigger),
    {
        let n = self.rules.len();
        proof {
            assert(self.rules@.skip(0) =~= self.rules@);
        }
        for i in 0..n
            invariant
                n == self.rules@.len(),
                spec_active_lookup(*state, self.rules@, trigger) == spec_active_lookup(
                    *state,
                    self.rules@.skip(i as int),
                    trigger,
                ),
        {
            let rule = self.rules[i];
            proof {
                assert(self.rules@.skip(i as int)[0] == self.rules@[i as int]);
                assert(self.rules@.skip(i as int).drop_first() =~= self.rules@.skip(i + 1));
            }
            if state.is_pressed(rule.gate) && rule.trigger == trigger {
                return Some(rule.emit);
            }
        }
        proof {
            assert(self.rules@.skip(n as int).len() == 0);
        }
        None
    }
}

} // verus!
