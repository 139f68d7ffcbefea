//! Input conditions: stateful predicates that classify a binding's
//! post-modifier value into an activation state each frame.
//!
//! A condition is either explicit (it directly drives firing, like a press
//! or hold threshold) or implicit (it gates or inherits state, like a
//! chord). A binding's verdict combines all its conditions by taking the
//! lowest state in the lifecycle order: every explicit condition must fire
//! and no implicit condition may block. A binding with no explicit condition
//! falls back to the default value-threshold logic: fired while actuated.
//!
//! A chord never aborts a frame: a dependency that is absent from the
//! per-pass action map degrades to the idle state and is reported as a
//! diagnostic.

use vstd::prelude::*;
use crate::action::{seq_lookup, spec_state_min, state_min, Action, ActionMap, ActionState};
use crate::action_value::ActionValue;
use crate::fixed::{add_fix, fix_add, FIX_MAX};

verus! {

/// Whether a condition drives firing itself or only gates it.
#[derive(Clone, Copy, Debug, PartialEq, Eq, Structural)]
pub enum ConditionKind {
    /// The condition directly determines whether the binding fires.
    Explicit,
    /// The condition gates or inherits state but does not independently
    /// cause firing.
    Implicit,
}

/// Whether `v` actuates a condition with threshold `t`: some present
/// component exceeds `t` in magnitude. A pressed boolean counts as one unit
/// on the first axis.
pub open spec fn spec_actuated(v: ActionValue, t: int) -> bool {
    v.spec_x() > t || v.spec_x() < -t || v.spec_y() > t || v.spec_y() < -t || v.spec_z() > t
        || v.spec_z() < -t
}

/// Returns whether `v` actuates a condition with threshold `t`.
pub fn actuated(v: &ActionValue, t: i64) -> (b: bool)
    requires
        v.wf(),
        0 <= t,
    ensures
        b == spec_actuated(*v, t as int),
{
    let x: i64 = match v {
        ActionValue::Bool(b) => if *b {
            crate::fixed::FIX_ONE
        } else {
            0
        },
        ActionValue::Axis1D(x) => *x,
        ActionValue::Axis2D(x, _) => *x,
        ActionValue::Axis3D(x, _, _) => *x,
    };
    let y: i64 = match v {
        ActionValue::Axis2D(_, y) => *y,
        ActionValue::Axis3D(_, y, _) => *y,
        _ => 0,
    };
    let z: i64 = match v {
        ActionValue::Axis3D(_, _, z) => *z,
        _ => 0,
    };
    x > t || x < -t || y > t || y < -t || z > t || z < -t
}

/// Fires while the value is actuated: the simplest explicit condition.
#[derive(Clone, Copy, Debug, PartialEq, Eq, Structural)]
pub struct Down {
    /// The actuation threshold a component's magnitude must exceed.
    pub actuation: i64,
}

impl Down {
    /// A press condition with the given actuation threshold.
    pub fn new(actuation: i64) -> (r: Down)
        ensures
            r.actuation == actuation,
    {
        Down { actuation }
    }

    /// The threshold is a nonnegative representable value.
    pub open spec fn wf(self) -> bool {
        0 <= self.actuation <= FIX_MAX
    }

    /// Fired while the value is actuated, idle otherwise.
    pub open spec fn spec_evaluate(self, value: ActionValue) -> ActionState {
        if spec_actuated(value, self.actuation as int) {
            ActionState::Fired
        } else {
            ActionState::Idle
        }
    }

    /// Classifies the post-modifier value.
    pub fn evaluate(&self, value: ActionValue) -> (r: ActionState)
        requires
            self.wf(),
            value.wf(),
        ensures
            r == self.spec_evaluate(value),
    {
        if actuated(&value, self.actuation) {
            ActionState::Fired
        } else {
            ActionState::Idle
        }
    }
}

/// Fires once the value has stayed actuated for a hold time; ongoing while
/// actuated below it. The held timer accumulates elapsed frame time while
/// actuated and resets when the value releases.
#[derive(Clone, Copy, Debug, PartialEq, Eq, Structural)]
pub struct Hold {
    /// The fixed-point seconds the value must stay actuated.
    pub hold_time: i64,
    /// The actuation threshold a component's magnitude must exceed.
    pub actuation: i64,
    /// The fixed-point seconds the value has been actuated so far.
    pub held: i64,
}

impl Hold {
    /// A hold condition with the given hold time and actuation threshold.
    pub fn new(hold_time: i64, actuation: i64) -> (r: Hold)
        ensures
            r == (Hold { hold_time, actuation, held: 0 }),
    {
        Hold { hold_time, actuation, held: 0 }
    }

    /// The configuration and timer are nonnegative representable values.
    pub open spec fn wf(self) -> bool {
        0 <= self.hold_time <= FIX_MAX && 0 <= self.actuation <= FIX_MAX && 0 <= self.held
            <= FIX_MAX
    }

    /// The timer after one frame: advanced by the elapsed time while
    /// actuated, reset otherwise.
    pub open spec fn spec_next_held(self, delta: int, value: ActionValue) -> int {
        if spec_actuated(value, self.actuation as int) {
            fix_add(self.held as int, delta)
        } else {
            0
        }
    }

    /// Fired once the advanced timer reaches the hold time, ongoing while
    /// actuated below it, idle when released.
    pub open spec fn spec_evaluate(self, delta: int, value: ActionValue) -> ActionState {
        if spec_actuated(value, self.actuation as int) {
            if self.spec_next_held(delta, value) >= self.hold_time {
                ActionState::Fired
            } else {
                ActionState::Ongoing
            }
        } else {
            ActionState::Idle
        }
    }

    /// Classifies the post-modifier value and advances the held timer.
    pub fn evaluate(&mut self, delta: i64, value: ActionValue) -> (r: ActionState)
        requires
            old(self).wf(),
            0 <= delta <= FIX_MAX,
            value.wf(),
        ensures
            r == old(self).spec_evaluate(delta as int, value),
            *final(self) == (Hold {
                held: old(self).spec_next_held(delta as int, value) as i64,
                ..*old(self)
            }),
            final(self).wf(),
    {
        if actuated(&value, self.actuation) {
            self.held = add_fix(self.held, delta);
            if self.held >= self.hold_time {
                ActionState::Fired
            } else {
                ActionState::Ongoing
            }
        } else {
            self.held = 0;
            ActionState::Idle
        }
    }
}

/// Requires another action of the same context to be fired: inherits that
/// action's already-computed state for the current frame.
#[derive(Clone, Copy, Debug, PartialEq, Eq, Structural)]
pub struct Chord {
    /// The identity of the required action.
    pub action: u64,
}

impl Chord {
    /// A chord on the action with the given identity.
    pub fn new(action: u64) -> (r: Chord)
        ensures
            r.action == action,
    {
        Chord { action }
    }

    /// The dependency's state this frame, inherited unchanged; idle when
    /// the dependency is absent from the map.
    pub open spec fn spec_evaluate(self, map: Seq<(u64, Action)>) -> ActionState {
        match seq_lookup(map, self.action) {
            Option::Some(a) => a.state,
            Option::None => ActionState::Idle,
        }
    }

    /// Whether the dependency is absent from the map, which makes the chord
    /// degrade to idle and emit a diagnostic.
    pub open spec fn spec_missing(self, map: Seq<(u64, Action)>) -> bool {
        seq_lookup(map, self.action) is None
    }

    /// Inherits the state of the chorded action. A missing dependency
    /// degrades to idle; it never aborts the frame.
    pub fn evaluate(&mut self, action_map: &ActionMap, _delta: i64, _value: ActionValue) -> (r:
        ActionState)
        ensures
            r == old(self).spec_evaluate(action_map@),
            *final(self) == *old(self),
    {
        match action_map.action(self.action) {
            Option::Some(a) => a.state,
            Option::None => ActionState::Idle,
        }
    }

    /// Returns the kind of this condition: a chord only gates.
    pub fn kind(&self) -> (r: ConditionKind)
        ensures
            r == ConditionKind::Implicit,
    {
        ConditionKind::Implicit
    }
}

/// One condition of a binding's ordered condition set.
#[derive(Clone, Copy, Debug, PartialEq, Eq, Structural)]
pub enum InputCondition {
    Down(Down),
    Hold(Hold),
    Chord(Chord),
}

impl InputCondition {
    /// The configuration and state of the condition are representable.
    pub open spec fn wf(self) -> bool {
        match self {
            InputCondition::Down(c) => c.wf(),
            InputCondition::Hold(c) => c.wf(),
            InputCondition::Chord(_) => true,
        }
    }

    /// The kind of this condition.
    pub open spec fn spec_kind(self) -> ConditionKind {
        match self {
            InputCondition::Down(_) => ConditionKind::Explicit,
            InputCondition::Hold(_) => ConditionKind::Explicit,
            InputCondition::Chord(_) => ConditionKind::Implicit,
        }
    }

    /// Returns the kind of this condition.
    pub fn kind(&self) -> (r: ConditionKind)
        ensures
            r == self.spec_kind(),
    {
        match self {
            InputCondition::Down(_) => ConditionKind::Explicit,
            InputCondition::Hold(_) => ConditionKind::Explicit,
            InputCondition::Chord(c) => c.kind(),
        }
    }

    /// This condition's verdict on the post-modifier value.
    pub open spec fn spec_evaluate(
        self,
        map: Seq<(u64, Action)>,
        delta: int,
        value: ActionValue,
    ) -> ActionState {
        match self {
            InputCondition::Down(c) => c.spec_evaluate(value),
            InputCondition::Hold(c) => c.spec_evaluate(delta, value),
            InputCondition::Chord(c) => c.spec_evaluate(map),
        }
    }

    /// This condition after one frame: only a hold advances its timer.
    pub open spec fn spec_next(
        self,
        map: Seq<(u64, Action)>,
        delta: int,
        value: ActionValue,
    ) -> InputCondition {
        match self {
            InputCondition::Hold(c) => InputCondition::Hold(
                Hold { held: c.spec_next_held(delta, value) as i64, ..c },
            ),
            _ => self,
        }
    }

    /// Classifies the post-modifier value and advances any internal state.
    pub fn evaluate(&mut self, action_map: &ActionMap, delta: i64, value: ActionValue) -> (r:
        ActionState)
        requires
            old(self).wf(),
            0 <= delta <= FIX_MAX,
            value.wf(),
        ensures
            r == old(self).spec_evaluate(action_map@, delta as int, value),
            *final(self) == old(self).spec_next(action_map@, delta as int, value),
            final(self).wf(),
    {
        match self {
            InputCondition::Down(c) => c.evaluate(value),
            InputCondition::Hold(c) => c.evaluate(delta, value),
            InputCondition::Chord(c) => c.evaluate(action_map, delta, value),
        }
    }
}

/// Whether any condition of the set is explicit.
pub open spec fn spec_has_explicit(cs: Seq<InputCondition>) -> bool {
    exists|i: int| 0 <= i < cs.len() && (#[trigger] cs[i]).spec_kind() == ConditionKind::Explicit
}

/// Every condition of the set is well formed.
pub open spec fn conditions_wf(cs: Seq<InputCondition>) -> bool {
    forall|i: int| 0 <= i < cs.len() ==> (#[trigger] cs[i]).wf()
}

/// The default verdict of a binding with no explicit condition: fired while
/// the value is actuated beyond zero, idle otherwise.
pub open spec fn spec_default_verdict(value: ActionValue) -> ActionState {
    if spec_actuated(value, 0) {
        ActionState::Fired
    } else {
        ActionState::Idle
    }
}

/// The verdicts of the conditions from `i` on, folded into `acc` by taking
/// the lowest state in the lifecycle order.
pub open spec fn spec_fold_verdict(
    cs: Seq<InputCondition>,
    map: Seq<(u64, Action)>,
    delta: int,
    value: ActionValue,
    acc: ActionState,
) -> ActionState
    decreases cs.len(),
{
    if cs.len() == 0 {
        acc
    } else {
        spec_fold_verdict(
            cs.skip(1),
            map,
            delta,
            value,
            spec_state_min(acc, cs[0].spec_evaluate(map, delta, value)),
        )
    }
}

/// A condition set's combined verdict, the lowest state among all condition
/// verdicts, seeded with the fired state when an explicit condition exists
/// (every explicit condition must fire and no implicit one may block) and
/// with the default value-threshold verdict otherwise.
pub open spec fn spec_conditions_verdict(
    cs: Seq<InputCondition>,
    map: Seq<(u64, Action)>,
    delta: int,
    value: ActionValue,
) -> ActionState {
    spec_fold_verdict(
        cs,
        map,
        delta,
        value,
        if spec_has_explicit(cs) {
            ActionState::Fired
        } else {
            spec_default_verdict(value)
        },
    )
}

/// The condition set after one frame, each condition advanced independently.
pub open spec fn spec_conditions_next(
    cs: Seq<InputCondition>,
    map: Seq<(u64, Action)>,
    delta: int,
    value: ActionValue,
) -> Seq<InputCondition> {
    cs.map_values(|c: InputCondition| c.spec_next(map, delta, value))
}

/// The diagnostic one condition contributes: the identity of a chord
/// dependency absent from the map, nothing otherwise.
pub open spec fn spec_missing_of(c: InputCondition, map: Seq<(u64, Action)>) -> Seq<u64> {
    match c {
        InputCondition::Chord(ch) => if ch.spec_missing(map) {
            seq![ch.action]
        } else {
            Seq::<u64>::empty()
        },
        _ => Seq::<u64>::empty(),
    }
}

/// The identities of chord dependencies of the set that are absent from the
/// map, in condition order.
pub open spec fn spec_missing_chords(cs: Seq<InputCondition>, map: Seq<(u64, Action)>) -> Seq<u64>
    decreases cs.len(),
{
    if cs.len() == 0 {
        Seq::<u64>::empty()
    } else {
        spec_missing_chords(cs.drop_last(), map) + spec_missing_of(cs.last(), map)
    }
}

/// Evaluates a binding's whole condition set on the post-modifier value:
/// returns the combined verdict, advances each condition's internal state,
/// and appends the identity of every missing chord dependency to
/// `missing`.
pub fn evaluate_conditions(
    cs: &mut Vec<InputCondition>,
    action_map: &ActionMap,
    delta: i64,
    value: ActionValue,
    missing: &mut Vec<u64>,
) -> (r: ActionState)
    requires
        conditions_wf(old(cs)@),
        0 <= delta <= FIX_MAX,
        value.wf(),
    ensures
        r == spec_conditions_verdict(old(cs)@, action_map@, delta as int, value),
        final(cs)@ == spec_conditions_next(old(cs)@, action_map@, delta as int, value),
        final(missing)@ == old(missing)@ + spec_missing_chords(old(cs)@, action_map@),
        conditions_wf(final(cs)@),
{
    let ghost cs0 = cs@;
    let mut has_explicit = false;
    let mut i: usize = 0;
    while i < cs.len()
        invariant
            0 <= i <= cs@.len(),
            cs@ == cs0,
            has_explicit == exists|j: int|
                0 <= j < i && (#[trigger] cs0[j]).spec_kind() == ConditionKind::Explicit,
        decreases cs@.len() - i,
    {
        if cs[i].kind() == ConditionKind::Explicit {
            has_explicit = true;
        }
        i = i + 1;
    }
    assert(has_explicit == spec_has_explicit(cs0));
    let mut acc: ActionState = if has_explicit {
        ActionState::Fired
    } else {
        if actuated(&value, 0) {
            ActionState::Fired
        } else {
            ActionState::Idle
        }
    };
    let ghost seed = acc;
    let mut k: usize = 0;
    proof {
        assert(cs0.skip(0) =~= cs0);
        assert(cs0.subrange(0, 0) =~= Seq::<InputCondition>::empty());
    }
    while k < cs.len()
        invariant
            0 <= k <= cs0.len(),
            cs@.len() == cs0.len(),
            conditions_wf(cs@),
            0 <= delta <= FIX_MAX,
            value.wf(),
            forall|j: int| k <= j < cs0.len() ==> cs@[j] == cs0[j],
            forall|j: int|
                0 <= j < k ==> cs@[j] == (#[trigger] cs0[j]).spec_next(
                    action_map@,
                    delta as int,
                    value,
                ),
            spec_fold_verdict(cs0.skip(k as int), action_map@, delta as int, value, acc)
                == spec_fold_verdict(cs0, action_map@, delta as int, value, seed),
            missing@ == old(missing)@ + spec_missing_chords(cs0.subrange(0, k as int), action_map@),
        decreases cs0.len() - k,
    {
        proof {
            assert(cs0.skip(k as int)[0] == cs0[k as int]);
            assert(cs0.skip(k as int).skip(1) =~= cs0.skip(k as int + 1));
            assert(cs0.subrange(0, k as int + 1).drop_last() =~= cs0.subrange(0, k as int));
            assert(cs0.subrange(0, k as int + 1).last() == cs0[k as int]);
        }
        let current = cs[k];
        match current {
            InputCondition::Chord(c) => {
                match action_map.action(c.action) {
                    Option::Some(_) => {},
                    Option::None => {
                        missing.push(c.action);
                    },
                }
            },
            _ => {},
        }
        let mut c = current;
        let verdict = c.evaluate(action_map, delta, value);
        cs.set(k, c);
        acc = state_min(acc, verdict);
        proof {
            assert(missing@ =~= old(missing)@ + spec_missing_chords(
                cs0.subrange(0, k as int + 1),
                action_map@,
            ));
        }
        k = k + 1;
    }
    proof {
        assert(cs0.skip(cs0.len() as int) =~= Seq::<InputCondition>::empty());
        assert(cs0.subrange(0, cs0.len() as int) =~= cs0);
        assert(cs@ =~= spec_conditions_next(cs0, action_map@, delta as int, value));
    }
    acc
}

/// With no time advance, evaluating a condition is stable: the advanced
/// condition gives the same verdict again, advancing it again changes
/// nothing, and its kind and missing-chord diagnostic are unchanged.
pub proof fn lemma_condition_stable(c: InputCondition, map: Seq<(u64, Action)>, value: ActionValue)
    requires
        c.wf(),
    ensures
        ({
            let c1 = c.spec_next(map, 0, value);
            &&& c1.spec_evaluate(map, 0, value) == c.spec_evaluate(map, 0, value)
            &&& c1.spec_next(map, 0, value) == c1
            &&& c1.wf()
            &&& c1.spec_kind() == c.spec_kind()
            &&& spec_missing_of(c1, map) == spec_missing_of(c, map)
        }),
{
}

/// With no time advance, folding the verdicts of the advanced condition set
/// from any accumulator equals folding the set before the advance.
pub proof fn lemma_fold_stable(
    cs: Seq<InputCondition>,
    map: Seq<(u64, Action)>,
    value: ActionValue,
    acc: ActionState,
)
    requires
        conditions_wf(cs),
    ensures
        spec_fold_verdict(spec_conditions_next(cs, map, 0, value), map, 0, value, acc)
            == spec_fold_verdict(cs, map, 0, value, acc),
    decreases cs.len(),
{
    let cs1 = spec_conditions_next(cs, map, 0, value);
    if cs.len() > 0 {
        assert(cs1[0] == cs[0].spec_next(map, 0, value));
        lemma_condition_stable(cs[0], map, value);
        assert(cs1.skip(1) =~= spec_conditions_next(cs.skip(1), map, 0, value));
        lemma_fold_stable(
            cs.skip(1),
            map,
            value,
            spec_state_min(acc, cs[0].spec_evaluate(map, 0, value)),
        );
    } else {
        assert(cs1.len() == 0);
    }
}

/// With no time advance, advancing a whole condition set is idempotent and
/// preserves well-formedness, the presence of an explicit condition, the
/// missing-chord diagnostics, and the combined verdict.
pub proof fn lemma_conditions_stable(
    cs: Seq<InputCondition>,
    map: Seq<(u64, Action)>,
    value: ActionValue,
)
    requires
        conditions_wf(cs),
    ensures
        ({
            let cs1 = spec_conditions_next(cs, map, 0, value);
            &&& conditions_wf(cs1)
            &&& spec_has_explicit(cs1) == spec_has_explicit(cs)
            &&& spec_conditions_next(cs1, map, 0, value) == cs1
            &&& spec_missing_chords(cs1, map) == spec_missing_chords(cs, map)
            &&& spec_conditions_verdict(cs1, map, 0, value) == spec_conditions_verdict(
                cs,
                map,
                0,
                value,
            )
        }),
    decreases cs.len(),
{
    let cs1 = spec_conditions_next(cs, map, 0, value);
    assert forall|i: int| 0 <= i < cs.len() implies {
        let c1 = #[trigger] cs1[i];
        &&& c1 == cs[i].spec_next(map, 0, value)
        &&& c1.wf()
        &&& c1.spec_kind() == cs[i].spec_kind()
        &&& c1.spec_next(map, 0, value) == c1
    } by {
        lemma_condition_stable(cs[i], map, value);
    }
    assert(spec_conditions_next(cs1, map, 0, value) =~= cs1);
    if spec_has_explicit(cs) {
        let i = choose|i: int|
            0 <= i < cs.len() && (#[trigger] cs[i]).spec_kind() == ConditionKind::Explicit;
        assert(cs1[i].spec_kind() == ConditionKind::Explicit);
    }
    if spec_has_explicit(cs1) {
        let i = choose|i: int|
            0 <= i < cs1.len() && (#[trigger] cs1[i]).spec_kind() == ConditionKind::Explicit;
        assert(cs[i].spec_kind() == ConditionKind::Explicit);
    }
    lemma_missing_stable(cs, map, value);
    lemma_fold_stable(cs, map, value, if spec_has_explicit(cs) {
        ActionState::Fired
    } else {
        spec_default_verdict(value)
    });
}

/// With no time advance, advancing a condition set leaves its missing-chord
/// diagnostics unchanged.
proof fn lemma_missing_stable(cs: Seq<InputCondition>, map: Seq<(u64, Action)>, value: ActionValue)
    requires
        conditions_wf(cs),
    ensures
        spec_missing_chords(spec_conditions_next(cs, map, 0, value), map) == spec_missing_chords(
            cs,
            map,
        ),
    decreases cs.len(),
{
    let cs1 = spec_conditions_next(cs, map, 0, value);
    if cs.len() > 0 {
        assert(cs1.drop_last() =~= spec_conditions_next(cs.drop_last(), map, 0, value));
        assert(cs1.last() == cs.last().spec_next(map, 0, value));
        lemma_condition_stable(cs.last(), map, value);
        lemma_missing_stable(cs.drop_last(), map, value);
    } else {
        assert(cs1.len() == 0);
    }
}

} // verus!
