//! Input modifiers: pure, time-aware transforms applied to an action's value
//! before its conditions run.
//!
//! A modifier chain is an ordered sequence of [`InputModifier`]s applied
//! strictly in declaration order; a later modifier sees only the already
//! transformed value. A boolean value is widened to a one-dimensional axis
//! before any scaling, so scaling a press turns it into a magnitude.

use vstd::prelude::*;
use crate::action_value::{spec_bool_fix, ActionValue};
use crate::fixed::{fix_in_range, fix_mul, mul_fix, Fixed3};

verus! {

/// Scales the input value independently along each axis by a fixed-point
/// factor.
#[derive(Clone, Copy, Debug, PartialEq, Eq, Structural)]
pub struct Scale {
    /// The per-axis factor applied to the input value, in fixed-point
    /// thousandths: `Fixed3 { x: 2000, .. }` doubles the first component.
    pub factor: Fixed3,
}

impl Scale {
    /// Creates a new instance with all axes set to `value`.
    pub fn splat(value: i64) -> (r: Scale)
        ensures
            r.factor == (Fixed3 { x: value, y: value, z: value }),
    {
        Scale::new(Fixed3::splat(value))
    }

    /// Creates a new instance with the given per-axis factor.
    pub fn new(factor: Fixed3) -> (r: Scale)
        ensures
            r.factor == factor,
    {
        Scale { factor }
    }

    /// The factor is representable.
    pub open spec fn wf(self) -> bool {
        self.factor.wf()
    }

    /// What scaling `v` by `factor` yields: each present component multiplied
    /// by the factor for its axis, a boolean first widened to one axis.
    pub open spec fn spec_apply(factor: Fixed3, v: ActionValue) -> ActionValue {
        match v {
            ActionValue::Bool(b) => ActionValue::Axis1D(
                fix_mul(spec_bool_fix(b), factor.x as int) as i64,
            ),
            ActionValue::Axis1D(x) => ActionValue::Axis1D(fix_mul(x as int, factor.x as int) as i64),
            ActionValue::Axis2D(x, y) => ActionValue::Axis2D(
                fix_mul(x as int, factor.x as int) as i64,
                fix_mul(y as int, factor.y as int) as i64,
            ),
            ActionValue::Axis3D(x, y, z) => ActionValue::Axis3D(
                fix_mul(x as int, factor.x as int) as i64,
                fix_mul(y as int, factor.y as int) as i64,
                fix_mul(z as int, factor.z as int) as i64,
            ),
        }
    }

    /// Applies the per-axis scale to `value`.
    pub fn apply(&self, value: ActionValue) -> (r: ActionValue)
        requires
            self.wf(),
            value.wf(),
        ensures
            r == Scale::spec_apply(self.factor, value),
            r.wf(),
    {
        match value {
            ActionValue::Bool(b) => {
                let widened: i64 = if b {
                    crate::fixed::FIX_ONE
                } else {
                    0
                };
                ActionValue::Axis1D(mul_fix(widened, self.factor.x))
            },
            ActionValue::Axis1D(x) => ActionValue::Axis1D(mul_fix(x, self.factor.x)),
            ActionValue::Axis2D(x, y) => ActionValue::Axis2D(
                mul_fix(x, self.factor.x),
                mul_fix(y, self.factor.y),
            ),
            ActionValue::Axis3D(x, y, z) => ActionValue::Axis3D(
                mul_fix(x, self.factor.x),
                mul_fix(y, self.factor.y),
                mul_fix(z, self.factor.z),
            ),
        }
    }
}

/// Multiplies the input value by the elapsed frame time, converting a
/// per-frame impulse into a per-second rate.
#[derive(Clone, Copy, Debug, PartialEq, Eq, Structural)]
pub struct DeltaScale;

impl DeltaScale {
    /// What delta scaling yields: every component multiplied by the elapsed
    /// time in fixed-point seconds, a boolean first widened to one axis.
    pub open spec fn spec_apply(delta: int, v: ActionValue) -> ActionValue {
        match v {
            ActionValue::Bool(b) => ActionValue::Axis1D(fix_mul(spec_bool_fix(b), delta) as i64),
            ActionValue::Axis1D(x) => ActionValue::Axis1D(fix_mul(x as int, delta) as i64),
            ActionValue::Axis2D(x, y) => ActionValue::Axis2D(
                fix_mul(x as int, delta) as i64,
                fix_mul(y as int, delta) as i64,
            ),
            ActionValue::Axis3D(x, y, z) => ActionValue::Axis3D(
                fix_mul(x as int, delta) as i64,
                fix_mul(y as int, delta) as i64,
                fix_mul(z as int, delta) as i64,
            ),
        }
    }

    /// Applies the elapsed-time scale to `value`.
    pub fn apply(&self, delta: i64, value: ActionValue) -> (r: ActionValue)
        requires
            fix_in_range(delta as int),
            value.wf(),
        ensures
            r == DeltaScale::spec_apply(delta as int, value),
            r.wf(),
    {
        match value {
            ActionValue::Bool(b) => {
                let widened: i64 = if b {
                    crate::fixed::FIX_ONE
                } else {
                    0
                };
                ActionValue::Axis1D(mul_fix(widened, delta))
            },
            ActionValue::Axis1D(x) => ActionValue::Axis1D(mul_fix(x, delta)),
            ActionValue::Axis2D(x, y) => ActionValue::Axis2D(mul_fix(x, delta), mul_fix(y, delta)),
            ActionValue::Axis3D(x, y, z) => ActionValue::Axis3D(
                mul_fix(x, delta),
                mul_fix(y, delta),
                mul_fix(z, delta),
            ),
        }
    }
}

/// Law: scaling a boolean press round-trips the factor. A pressed boolean
/// scaled by the per-axis factor `f` is exactly the one-dimensional axis
/// value `f`, and a released one is exactly zero.
pub proof fn lemma_scale_bool_round_trip(f: i64)
    requires
        fix_in_range(f as int),
    ensures
        Scale::spec_apply(Fixed3 { x: f, y: f, z: f }, ActionValue::Bool(true))
            == ActionValue::Axis1D(f),
        Scale::spec_apply(Fixed3 { x: f, y: f, z: f }, ActionValue::Bool(false))
            == ActionValue::Axis1D(0),
{
    crate::fixed::lemma_fix_mul_unit(f as int);
    crate::fixed::lemma_fix_mul_zero(f as int);
}

/// Law: delta scaling turns a press into the elapsed time. A pressed
/// boolean becomes exactly the one-dimensional axis value `t`, a released
/// one exactly zero, and a unit two-dimensional axis becomes `(t, t)`.
pub proof fn lemma_delta_scale_law(t: i64)
    requires
        0 <= t <= crate::fixed::FIX_MAX,
    ensures
        DeltaScale::spec_apply(t as int, ActionValue::Bool(true)) == ActionValue::Axis1D(t),
        DeltaScale::spec_apply(t as int, ActionValue::Bool(false)) == ActionValue::Axis1D(0),
        DeltaScale::spec_apply(t as int, ActionValue::Axis2D(crate::fixed::FIX_ONE, crate::fixed::FIX_ONE))
            == ActionValue::Axis2D(t, t),
{
    crate::fixed::lemma_fix_mul_unit(t as int);
    crate::fixed::lemma_fix_mul_zero(t as int);
}

/// One step of a binding's modifier chain.
#[derive(Clone, Copy, Debug, PartialEq, Eq, Structural)]
pub enum InputModifier {
    Scale(Scale),
    DeltaScale(DeltaScale),
}

impl InputModifier {
    /// Every configured factor is representable.
    pub open spec fn wf(self) -> bool {
        match self {
            InputModifier::Scale(s) => s.wf(),
            InputModifier::DeltaScale(_) => true,
        }
    }

    /// What one modifier yields on `v` at elapsed time `delta`.
    pub open spec fn spec_apply(m: InputModifier, delta: int, v: ActionValue) -> ActionValue {
        match m {
            InputModifier::Scale(s) => Scale::spec_apply(s.factor, v),
            InputModifier::DeltaScale(_) => DeltaScale::spec_apply(delta, v),
        }
    }

    /// Applies this modifier to `value` at elapsed time `delta`.
    pub fn apply(&self, delta: i64, value: ActionValue) -> (r: ActionValue)
        requires
            self.wf(),
            fix_in_range(delta as int),
            value.wf(),
        ensures
            r == InputModifier::spec_apply(*self, delta as int, value),
            r.wf(),
    {
        match self {
            InputModifier::Scale(s) => s.apply(value),
            InputModifier::DeltaScale(d) => d.apply(delta, value),
        }
    }
}

/// What a whole chain yields: the modifiers applied in order, each seeing
/// only the already transformed value.
pub open spec fn spec_apply_chain(ms: Seq<InputModifier>, delta: int, v: ActionValue) -> ActionValue
    decreases ms.len(),
{
    if ms.len() == 0 {
        v
    } else {
        spec_apply_chain(ms.skip(1), delta, InputModifier::spec_apply(ms[0], delta, v))
    }
}

/// Every modifier of the chain is well formed.
pub open spec fn chain_wf(ms: Seq<InputModifier>) -> bool {
    forall|i: int| 0 <= i < ms.len() ==> (#[trigger] ms[i]).wf()
}

/// The chain preserves representability of the value.
pub proof fn lemma_chain_preserves_wf(ms: Seq<InputModifier>, delta: int, v: ActionValue)
    requires
        chain_wf(ms),
        v.wf(),
    ensures
        spec_apply_chain(ms, delta, v).wf(),
    decreases ms.len(),
{
    if ms.len() > 0 {
        lemma_chain_preserves_wf(ms.skip(1), delta, InputModifier::spec_apply(ms[0], delta, v));
    }
}

/// Applies the modifiers to `value` in order.
pub fn apply_chain(ms: &Vec<InputModifier>, delta: i64, value: ActionValue) -> (r: ActionValue)
    requires
        chain_wf(ms@),
        fix_in_range(delta as int),
        value.wf(),
    ensures
        r == spec_apply_chain(ms@, delta as int, value),
        r.wf(),
{
    let mut acc = value;
    let mut i: usize = 0;
    proof {
        assert(ms@.skip(0) =~= ms@);
    }
    while i < ms.len()
        invariant
            0 <= i <= ms.len(),
            chain_wf(ms@),
            fix_in_range(delta as int),
            acc.wf(),
            spec_apply_chain(ms@.skip(i as int), delta as int, acc) == spec_apply_chain(
                ms@,
                delta as int,
                value,
            ),
        decreases ms.len() - i,
    {
        proof {
            assert(ms@.skip(i as int)[0] == ms@[i as int]);
            assert(ms@.skip(i as int).skip(1) =~= ms@.skip(i as int + 1));
        }
        acc = ms[i].apply(delta, acc);
        i = i + 1;
    }
    proof {
        assert(ms@.skip(ms@.len() as int) =~= Seq::<InputModifier>::empty());
    }
    acc
}

} // verus!
