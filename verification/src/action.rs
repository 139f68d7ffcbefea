//! Per-action state: the activation lifecycle tag, the last computed value,
//! the elapsed-in-state timer, and the per-frame map from action identity to
//! that state.
//!
//! The state machine only records what the condition evaluator decided: each
//! frame it stores the verdict and the final value, and resets the timer on
//! every state transition while advancing it by the elapsed frame time
//! otherwise.

use vstd::prelude::*;
use crate::action_value::{ActionValue, ActionValueDim};
use crate::fixed::{add_fix, fix_add, FIX_MAX};

verus! {

/// The activation lifecycle tag of one action in one frame.
#[derive(Clone, Copy, Debug, PartialEq, Eq, Structural)]
pub enum ActionState {
    /// The action is idle: its condition set gave no signal this frame.
    Idle,
    /// The action is being evaluated toward firing but has not fired.
    Ongoing,
    /// The action fired this frame; sustained satisfaction keeps it fired.
    Fired,
}

/// The position of a state in the lifecycle order: idle below ongoing below
/// fired.
pub open spec fn state_rank(s: ActionState) -> int {
    match s {
        ActionState::Idle => 0,
        ActionState::Ongoing => 1,
        ActionState::Fired => 2,
    }
}

/// The lower of two states in the lifecycle order.
pub open spec fn spec_state_min(a: ActionState, b: ActionState) -> ActionState {
    if state_rank(a) <= state_rank(b) {
        a
    } else {
        b
    }
}

/// Returns the lower of two states in the lifecycle order.
pub fn state_min(a: ActionState, b: ActionState) -> (r: ActionState)
    ensures
        r == spec_state_min(a, b),
{
    let ra: u8 = match a {
        ActionState::Idle => 0,
        ActionState::Ongoing => 1,
        ActionState::Fired => 2,
    };
    let rb: u8 = match b {
        ActionState::Idle => 0,
        ActionState::Ongoing => 1,
        ActionState::Fired => 2,
    };
    if ra <= rb {
        a
    } else {
        b
    }
}

/// One action's published state: lifecycle tag, last computed value, and the
/// time spent in the current state (fixed-point seconds).
#[derive(Clone, Copy, Debug, PartialEq, Eq, Structural)]
pub struct Action {
    pub state: ActionState,
    pub value: ActionValue,
    pub elapsed: i64,
}

impl Action {
    /// The value is representable and the timer is a nonnegative
    /// fixed-point time.
    pub open spec fn wf(self) -> bool {
        self.value.wf() && 0 <= self.elapsed <= FIX_MAX
    }

    /// A fresh action of the given output dimension: idle, zero value, zero
    /// timer.
    pub fn new(dim: ActionValueDim) -> (r: Action)
        ensures
            r.state == ActionState::Idle,
            r.value == ActionValue::spec_zero(dim),
            r.elapsed == 0,
            r.wf(),
    {
        Action { state: ActionState::Idle, value: ActionValue::zero(dim), elapsed: 0 }
    }

    /// What one frame does to an action: the verdict and value are recorded;
    /// the timer resets on a state transition and otherwise advances by the
    /// elapsed frame time, saturating at the representable range.
    pub open spec fn spec_update(
        old_action: Action,
        delta: int,
        state: ActionState,
        value: ActionValue,
    ) -> Action {
        Action {
            state,
            value,
            elapsed: if state == old_action.state {
                fix_add(old_action.elapsed as int, delta) as i64
            } else {
                0
            },
        }
    }

    /// Records this frame's verdict and value.
    pub fn update(&mut self, delta: i64, state: ActionState, value: ActionValue)
        requires
            old(self).wf(),
            0 <= delta <= FIX_MAX,
            value.wf(),
        ensures
            *final(self) == Action::spec_update(*old(self), delta as int, state, value),
            final(self).wf(),
    {
        if state == self.state {
            self.elapsed = add_fix(self.elapsed, delta);
        } else {
            self.elapsed = 0;
        }
        self.state = state;
        self.value = value;
    }
}

/// The looked-up entry for `id`: the value of the latest insertion with that
/// identity, if any.
pub open spec fn seq_lookup(s: Seq<(u64, Action)>, id: u64) -> Option<Action>
    decreases s.len(),
{
    if s.len() == 0 {
        Option::None
    } else if s.last().0 == id {
        Option::Some(s.last().1)
    } else {
        seq_lookup(s.drop_last(), id)
    }
}

/// The per-frame map from action identity to its already-computed state,
/// built incrementally in evaluation order and read by chord conditions.
#[derive(Clone, Debug, PartialEq, Eq)]
pub struct ActionMap {
    entries: Vec<(u64, Action)>,
}

impl View for ActionMap {
    type V = Seq<(u64, Action)>;

    /// The map is modeled by its entry sequence in insertion order.
    closed spec fn view(&self) -> Seq<(u64, Action)> {
        self.entries@
    }
}

impl ActionMap {
    /// The entry for `id`, if any.
    pub open spec fn spec_get(self, id: u64) -> Option<Action> {
        seq_lookup(self.view(), id)
    }

    /// An empty map.
    pub fn new() -> (r: ActionMap)
        ensures
            r@ == Seq::<(u64, Action)>::empty(),
            forall|id: u64| r.spec_get(id) is None,
    {
        ActionMap { entries: Vec::new() }
    }

    /// Inserts the state of action `id`, superseding any earlier entry.
    pub fn insert(&mut self, id: u64, action: Action)
        ensures
            final(self)@ == old(self)@.push((id, action)),
            final(self).spec_get(id) == Option::Some(action),
            forall|other: u64| other != id ==> final(self).spec_get(other) == old(self).spec_get(
                other,
            ),
    {
        self.entries.push((id, action));
        proof {
            assert(final(self).entries@.drop_last() =~= old(self).entries@);
        }
    }

    /// Returns the state of action `id`, if it is present.
    pub fn action(&self, id: u64) -> (r: Option<Action>)
        ensures
            r == self.spec_get(id),
    {
        let mut i: usize = self.entries.len();
        proof {
            assert(self.entries@.take(self.entries@.len() as int) =~= self.entries@);
        }
        while i > 0
            invariant
                0 <= i <= self.entries.len(),
                seq_lookup(self.entries@, id) == seq_lookup(self.entries@.take(i as int), id),
            decreases i,
        {
            i = i - 1;
            let entry = self.entries[i];
            proof {
                assert(self.entries@.take(i as int + 1).last() == self.entries@[i as int]);
                assert(self.entries@.take(i as int + 1).drop_last() =~= self.entries@.take(
                    i as int,
                ));
            }
            if entry.0 == id {
                return Option::Some(entry.1);
            }
        }
        Option::None
    }
}

} // verus!
