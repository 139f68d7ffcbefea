//! Action bindings: the association of one action identity with its bound
//! inputs, modifier chain, condition set and state machine.
//!
//! Each bound input carries a direction triple, the unit-vector mapping that
//! composite layouts are built from. Per frame, the contributions of all
//! captured inputs are summed per axis (so opposite directions cancel), the
//! modifier chain transforms the merged value, the condition set classifies
//! it, and the state machine records the result converted to the action's
//! declared output dimension.

use vstd::prelude::*;
use crate::action::{Action, ActionMap, ActionState};
use crate::action_value::{ActionValue, ActionValueDim};
use crate::condition::{
    conditions_wf, evaluate_conditions, spec_conditions_next, spec_conditions_verdict,
    spec_missing_chords, InputCondition,
};
use crate::fixed::{add_fix, fix_add, fix_in_range, fix_mul, mul_fix, Fixed3, FIX_MAX, FIX_ONE};
use crate::input::Input;
use crate::keys::{GamepadDevice, MouseButton};
use crate::mod_keys::{key_held, spec_pressed};
use crate::modifier::{apply_chain, chain_wf, spec_apply_chain, InputModifier};
use crate::snapshot::{spec_gamepad_axis_value, spec_gamepad_button_pressed, Snapshot};

verus! {

/// Whether `b` occurs in the held mouse button sequence `buttons`.
pub open spec fn mouse_button_held(buttons: Seq<MouseButton>, b: MouseButton) -> bool {
    exists|i: int| 0 <= i < buttons.len() && buttons[i] == b
}

/// Returns whether `buttons` contains the button `b`.
pub fn contains_mouse_button(buttons: &Vec<MouseButton>, b: MouseButton) -> (r: bool)
    ensures
        r == mouse_button_held(buttons@, b),
{
    let mut i: usize = 0;
    while i < buttons.len()
        invariant
            0 <= i <= buttons.len(),
            forall|j: int| 0 <= j < i ==> buttons@[j] != b,
        decreases buttons.len() - i,
    {
        if buttons[i] == b {
            return true;
        }
        i = i + 1;
    }
    false
}

/// One bound input source together with its direction: the per-axis vector
/// its captured value is mapped onto before contributions are summed.
#[derive(Clone, Copy, Debug, PartialEq, Eq, Structural)]
pub struct InputBinding {
    pub input: Input,
    pub direction: Fixed3,
}

impl InputBinding {
    /// The direction is representable.
    pub open spec fn wf(self) -> bool {
        self.direction.wf()
    }

    /// Binds `input` with the identity direction of its captured dimension:
    /// the first axis for scalar sources, the first two axes for mouse
    /// motion and the wheel.
    pub fn new(input: Input) -> (r: InputBinding)
        ensures
            r.input == input,
            r.direction == (match input {
                Input::MouseMotion { .. } | Input::MouseWheel { .. } => Fixed3 {
                    x: FIX_ONE,
                    y: FIX_ONE,
                    z: 0,
                },
                _ => Fixed3 { x: FIX_ONE, y: 0, z: 0 },
            }),
            r.wf(),
    {
        let direction = match input {
            Input::MouseMotion { .. } | Input::MouseWheel { .. } => Fixed3 {
                x: FIX_ONE,
                y: FIX_ONE,
                z: 0,
            },
            _ => Fixed3 { x: FIX_ONE, y: 0, z: 0 },
        };
        InputBinding { input, direction }
    }

    /// Binds `input` mapped onto `direction`.
    pub fn with_direction(input: Input, direction: Fixed3) -> (r: InputBinding)
        ensures
            r == (InputBinding { input, direction }),
    {
        InputBinding { input, direction }
    }
}

/// The raw value the snapshot yields for one input source. A keyboard or
/// mouse source is captured only when the modifier set held this frame
/// matches the binding's set exactly; gamepad sources ignore keyboard
/// modifiers.
pub open spec fn spec_captured(input: Input, device: GamepadDevice, snap: Snapshot) -> ActionValue {
    match input {
        Input::Keyboard { key, mod_keys } => ActionValue::Bool(
            key_held(snap.keys@, key) && spec_pressed(snap.keys@) == mod_keys,
        ),
        Input::MouseButton { button, mod_keys } => ActionValue::Bool(
            mouse_button_held(snap.mouse_buttons@, button) && spec_pressed(snap.keys@) == mod_keys,
        ),
        Input::MouseMotion { mod_keys } => if spec_pressed(snap.keys@) == mod_keys {
            ActionValue::Axis2D(snap.mouse_motion.x, snap.mouse_motion.y)
        } else {
            ActionValue::Axis2D(0, 0)
        },
        Input::MouseWheel { mod_keys } => if spec_pressed(snap.keys@) == mod_keys {
            ActionValue::Axis2D(snap.mouse_wheel.x, snap.mouse_wheel.y)
        } else {
            ActionValue::Axis2D(0, 0)
        },
        Input::GamepadButton(b) => ActionValue::Bool(
            spec_gamepad_button_pressed(snap.gamepads@, device, b),
        ),
        Input::GamepadAxis(a) => ActionValue::Axis1D(
            spec_gamepad_axis_value(snap.gamepads@, device, a) as i64,
        ),
    }
}

/// A captured value mapped onto a direction: a boolean press contributes
/// the direction itself or nothing, a scalar scales the direction, and a
/// multi-dimensional value is multiplied axis by axis.
pub open spec fn spec_dir_apply(captured: ActionValue, dir: Fixed3) -> Fixed3 {
    match captured {
        ActionValue::Bool(b) => if b {
            dir
        } else {
            Fixed3 { x: 0, y: 0, z: 0 }
        },
        ActionValue::Axis1D(v) => Fixed3 {
            x: fix_mul(v as int, dir.x as int) as i64,
            y: fix_mul(v as int, dir.y as int) as i64,
            z: fix_mul(v as int, dir.z as int) as i64,
        },
        ActionValue::Axis2D(x, y) => Fixed3 {
            x: fix_mul(x as int, dir.x as int) as i64,
            y: fix_mul(y as int, dir.y as int) as i64,
            z: 0,
        },
        ActionValue::Axis3D(x, y, z) => Fixed3 {
            x: fix_mul(x as int, dir.x as int) as i64,
            y: fix_mul(y as int, dir.y as int) as i64,
            z: fix_mul(z as int, dir.z as int) as i64,
        },
    }
}

/// What one bound input contributes to its binding's merged value.
pub open spec fn spec_contribution(ib: InputBinding, device: GamepadDevice, snap: Snapshot) -> Fixed3 {
    spec_dir_apply(spec_captured(ib.input, device, snap), ib.direction)
}

/// Returns the contribution of one bound input.
pub fn contribution(ib: &InputBinding, device: GamepadDevice, snap: &Snapshot) -> (r: Fixed3)
    requires
        ib.wf(),
        snap.wf(),
    ensures
        r == spec_contribution(*ib, device, *snap),
        r.wf(),
{
    let captured: ActionValue = match ib.input {
        Input::Keyboard { key, mod_keys } => {
            let held = crate::mod_keys::contains_key(&snap.keys, key);
            let active = crate::mod_keys::ModKeys::pressed(&snap.keys);
            ActionValue::Bool(held && active == mod_keys)
        },
        Input::MouseButton { button, mod_keys } => {
            let held = contains_mouse_button(&snap.mouse_buttons, button);
            let active = crate::mod_keys::ModKeys::pressed(&snap.keys);
            ActionValue::Bool(held && active == mod_keys)
        },
        Input::MouseMotion { mod_keys } => {
            let active = crate::mod_keys::ModKeys::pressed(&snap.keys);
            if active == mod_keys {
                ActionValue::Axis2D(snap.mouse_motion.x, snap.mouse_motion.y)
            } else {
                ActionValue::Axis2D(0, 0)
            }
        },
        Input::MouseWheel { mod_keys } => {
            let active = crate::mod_keys::ModKeys::pressed(&snap.keys);
            if active == mod_keys {
                ActionValue::Axis2D(snap.mouse_wheel.x, snap.mouse_wheel.y)
            } else {
                ActionValue::Axis2D(0, 0)
            }
        },
        Input::GamepadButton(b) => ActionValue::Bool(snap.gamepad_button_pressed(device, b)),
        Input::GamepadAxis(a) => ActionValue::Axis1D(snap.gamepad_axis_value(device, a)),
    };
    match captured {
        ActionValue::Bool(b) => if b {
            ib.direction
        } else {
            Fixed3::zero()
        },
        ActionValue::Axis1D(v) => Fixed3 {
            x: mul_fix(v, ib.direction.x),
            y: mul_fix(v, ib.direction.y),
            z: mul_fix(v, ib.direction.z),
        },
        ActionValue::Axis2D(x, y) => Fixed3 {
            x: mul_fix(x, ib.direction.x),
            y: mul_fix(y, ib.direction.y),
            z: 0,
        },
        ActionValue::Axis3D(x, y, z) => Fixed3 {
            x: mul_fix(x, ib.direction.x),
            y: mul_fix(y, ib.direction.y),
            z: mul_fix(z, ib.direction.z),
        },
    }
}

/// The saturating per-axis sum of two contributions.
pub open spec fn spec_add3(a: Fixed3, b: Fixed3) -> Fixed3 {
    Fixed3 {
        x: fix_add(a.x as int, b.x as int) as i64,
        y: fix_add(a.y as int, b.y as int) as i64,
        z: fix_add(a.z as int, b.z as int) as i64,
    }
}

/// Every direction of the bound inputs is representable.
pub open spec fn inputs_wf(inputs: Seq<InputBinding>) -> bool {
    forall|i: int| 0 <= i < inputs.len() ==> (#[trigger] inputs[i]).wf()
}

/// The merged raw value of a binding: the contributions of all bound
/// inputs, summed per axis in declaration order with saturation.
pub open spec fn spec_merged(
    inputs: Seq<InputBinding>,
    device: GamepadDevice,
    snap: Snapshot,
) -> Fixed3
    decreases inputs.len(),
{
    if inputs.len() == 0 {
        Fixed3 { x: 0, y: 0, z: 0 }
    } else {
        spec_add3(
            spec_merged(inputs.drop_last(), device, snap),
            spec_contribution(inputs.last(), device, snap),
        )
    }
}

/// Returns the merged raw value of the bound inputs.
pub fn merged(inputs: &Vec<InputBinding>, device: GamepadDevice, snap: &Snapshot) -> (r: Fixed3)
    requires
        inputs_wf(inputs@),
        snap.wf(),
    ensures
        r == spec_merged(inputs@, device, *snap),
        r.wf(),
{
    let mut acc = Fixed3::zero();
    let mut i: usize = 0;
    while i < inputs.len()
        invariant
            0 <= i <= inputs@.len(),
            inputs_wf(inputs@),
            snap.wf(),
            acc == spec_merged(inputs@.take(i as int), device, *snap),
            acc.wf(),
        decreases inputs@.len() - i,
    {
        proof {
            assert(inputs@.take(i as int + 1).drop_last() =~= inputs@.take(i as int));
            assert(inputs@.take(i as int + 1).last() == inputs@[i as int]);
        }
        let c = contribution(&inputs[i], device, snap);
        acc = Fixed3 {
            x: add_fix(acc.x, c.x),
            y: add_fix(acc.y, c.y),
            z: add_fix(acc.z, c.z),
        };
        i = i + 1;
    }
    proof {
        assert(inputs@.take(inputs@.len() as int) =~= inputs@);
    }
    acc
}

/// The merged raw value of well-formed inputs is representable.
pub proof fn lemma_merged_wf(inputs: Seq<InputBinding>, device: GamepadDevice, snap: Snapshot)
    ensures
        spec_merged(inputs, device, snap).wf(),
    decreases inputs.len(),
{
    if inputs.len() > 0 {
        lemma_merged_wf(inputs.drop_last(), device, snap);
    }
}

/// The binding of one action: its identity, declared output dimension,
/// bound inputs, modifier chain, condition set and state machine instance.
#[derive(Clone, Debug, PartialEq, Eq)]
pub struct ActionBinding {
    pub action: u64,
    pub dim: ActionValueDim,
    pub inputs: Vec<InputBinding>,
    pub modifiers: Vec<InputModifier>,
    pub conditions: Vec<InputCondition>,
    pub current: Action,
}

/// The mathematical model of an action binding.
#[verifier::ext_equal]
pub ghost struct BindingModel {
    pub action: u64,
    pub dim: ActionValueDim,
    pub inputs: Seq<InputBinding>,
    pub modifiers: Seq<InputModifier>,
    pub conditions: Seq<InputCondition>,
    pub current: Action,
}

impl View for ActionBinding {
    type V = BindingModel;

    open spec fn view(&self) -> BindingModel {
        BindingModel {
            action: self.action,
            dim: self.dim,
            inputs: self.inputs@,
            modifiers: self.modifiers@,
            conditions: self.conditions@,
            current: self.current,
        }
    }
}

impl BindingModel {
    /// Directions, factors, condition state and the recorded action are all
    /// representable.
    pub open spec fn wf(self) -> bool {
        inputs_wf(self.inputs) && chain_wf(self.modifiers) && conditions_wf(self.conditions)
            && self.current.wf()
    }

    /// The binding's post-modifier value this frame: the merged raw value,
    /// carried as a three-dimensional axis, transformed by the modifier
    /// chain in order.
    pub open spec fn spec_value(self, device: GamepadDevice, snap: Snapshot, delta: int) -> ActionValue {
        let m = spec_merged(self.inputs, device, snap);
        spec_apply_chain(self.modifiers, delta, ActionValue::Axis3D(m.x, m.y, m.z))
    }

    /// The value the binding publishes: the post-modifier value converted to
    /// the action's declared output dimension.
    pub open spec fn spec_final_value(
        self,
        device: GamepadDevice,
        snap: Snapshot,
        delta: int,
    ) -> ActionValue {
        ActionValue::spec_convert(self.spec_value(device, snap, delta), self.dim)
    }

    /// The condition set's combined verdict on the post-modifier value.
    pub open spec fn spec_verdict(
        self,
        device: GamepadDevice,
        snap: Snapshot,
        map: Seq<(u64, Action)>,
        delta: int,
    ) -> ActionState {
        spec_conditions_verdict(self.conditions, map, delta, self.spec_value(device, snap, delta))
    }

    /// The binding after one frame: conditions advanced and the state
    /// machine updated with the verdict and the published value.
    pub open spec fn spec_step(
        self,
        device: GamepadDevice,
        snap: Snapshot,
        map: Seq<(u64, Action)>,
        delta: int,
    ) -> BindingModel {
        BindingModel {
            conditions: spec_conditions_next(
                self.conditions,
                map,
                delta,
                self.spec_value(device, snap, delta),
            ),
            current: Action::spec_update(
                self.current,
                delta,
                self.spec_verdict(device, snap, map, delta),
                self.spec_final_value(device, snap, delta),
            ),
            ..self
        }
    }
}

impl ActionBinding {
    /// A binding for action `action` with declared output dimension `dim`
    /// and nothing bound yet.
    pub fn new(action: u64, dim: ActionValueDim) -> (r: ActionBinding)
        ensures
            r@ == (BindingModel {
                action,
                dim,
                inputs: Seq::<InputBinding>::empty(),
                modifiers: Seq::<InputModifier>::empty(),
                conditions: Seq::<InputCondition>::empty(),
                current: Action {
                    state: ActionState::Idle,
                    value: ActionValue::spec_zero(dim),
                    elapsed: 0,
                },
            }),
            r@.wf(),
    {
        let r = ActionBinding {
            action,
            dim,
            inputs: Vec::new(),
            modifiers: Vec::new(),
            conditions: Vec::new(),
            current: Action::new(dim),
        };
        proof {
            assert(r@ =~= (BindingModel {
                action,
                dim,
                inputs: Seq::<InputBinding>::empty(),
                modifiers: Seq::<InputModifier>::empty(),
                conditions: Seq::<InputCondition>::empty(),
                current: Action {
                    state: ActionState::Idle,
                    value: ActionValue::spec_zero(dim),
                    elapsed: 0,
                },
            }));
        }
        r
    }

    /// Evaluates this binding for one frame against the actions already
    /// computed this pass: merges the captured contributions, runs the
    /// modifier chain and the condition set, records the result, and
    /// appends the identity of every missing chord dependency to `missing`.
    pub fn evaluate(
        &mut self,
        device: GamepadDevice,
        snap: &Snapshot,
        map: &ActionMap,
        delta: i64,
        missing: &mut Vec<u64>,
    )
        requires
            old(self)@.wf(),
            snap.wf(),
            0 <= delta <= FIX_MAX,
        ensures
            final(self)@ == old(self)@.spec_step(device, *snap, map@, delta as int),
            final(missing)@ == old(missing)@ + spec_missing_chords(old(self)@.conditions, map@),
            final(self)@.wf(),
    {
        let m = merged(&self.inputs, device, snap);
        let raw = ActionValue::Axis3D(m.x, m.y, m.z);
        let value = apply_chain(&self.modifiers, delta, raw);
        let verdict = evaluate_conditions(&mut self.conditions, map, delta, value, missing);
        let final_value = value.convert(self.dim);
        self.current.update(delta, verdict, final_value);
        proof {
            assert(self@ =~= old(self)@.spec_step(device, *snap, map@, delta as int));
        }
    }
}

/// Law: two inputs bound in opposite directions cancel. When both inputs
/// capture the same value this frame (for example, two opposite keys both
/// held), their merged contribution is exactly the zero vector, never an
/// arbitrary pick of one side.
pub proof fn lemma_opposite_directions_cancel(
    a: InputBinding,
    b: InputBinding,
    device: GamepadDevice,
    snap: Snapshot,
)
    requires
        a.wf(),
        b.wf(),
        b.direction.x as int == -(a.direction.x as int),
        b.direction.y as int == -(a.direction.y as int),
        b.direction.z as int == -(a.direction.z as int),
        spec_captured(a.input, device, snap) == spec_captured(b.input, device, snap),
    ensures
        spec_merged(seq![a, b], device, snap) == (Fixed3 { x: 0, y: 0, z: 0 }),
{
    let two = seq![a, b];
    assert(two.drop_last() =~= seq![a]);
    assert(seq![a].drop_last() =~= Seq::<InputBinding>::empty());
    let ca = spec_contribution(a, device, snap);
    let cb = spec_contribution(b, device, snap);
    match spec_captured(a.input, device, snap) {
        ActionValue::Bool(_) => {},
        ActionValue::Axis1D(v) => {
            crate::fixed::lemma_fix_mul_neg(v as int, a.direction.x as int);
            crate::fixed::lemma_fix_mul_neg(v as int, a.direction.y as int);
            crate::fixed::lemma_fix_mul_neg(v as int, a.direction.z as int);
        },
        ActionValue::Axis2D(x, y) => {
            crate::fixed::lemma_fix_mul_neg(x as int, a.direction.x as int);
            crate::fixed::lemma_fix_mul_neg(y as int, a.direction.y as int);
        },
        ActionValue::Axis3D(x, y, z) => {
            crate::fixed::lemma_fix_mul_neg(x as int, a.direction.x as int);
            crate::fixed::lemma_fix_mul_neg(y as int, a.direction.y as int);
            crate::fixed::lemma_fix_mul_neg(z as int, a.direction.z as int);
        },
    }
    assert(cb.x as int == -(ca.x as int) && cb.y as int == -(ca.y as int) && cb.z as int == -(
    ca.z as int));
    assert(fix_in_range(ca.x as int) && fix_in_range(ca.y as int) && fix_in_range(ca.z as int));
    assert(two.last() == b);
    assert(seq![a].last() == a);
    assert(spec_merged(Seq::<InputBinding>::empty(), device, snap) == (Fixed3 {
        x: 0,
        y: 0,
        z: 0,
    }));
    assert(spec_merged(seq![a], device, snap) == spec_add3(Fixed3 { x: 0, y: 0, z: 0 }, ca));
    assert(spec_add3(Fixed3 { x: 0, y: 0, z: 0 }, ca) == ca);
    assert(spec_merged(two, device, snap) == spec_add3(ca, cb));
}

/// With no time advance, stepping a binding is idempotent against a fixed
/// action map: stepping the stepped binding changes nothing, and its
/// identity, published entry and missing-chord diagnostics are stable.
pub proof fn lemma_step_idempotent(
    b: BindingModel,
    device: GamepadDevice,
    snap: Snapshot,
    map: Seq<(u64, Action)>,
)
    requires
        b.wf(),
    ensures
        ({
            let b1 = b.spec_step(device, snap, map, 0);
            &&& b1.spec_step(device, snap, map, 0) == b1
            &&& b1.wf()
            &&& b1.action == b.action
            &&& spec_missing_chords(b1.conditions, map) == spec_missing_chords(b.conditions, map)
        }),
{
    let b1 = b.spec_step(device, snap, map, 0);
    let value = b.spec_value(device, snap, 0);
    assert(b1.spec_value(device, snap, 0) == value);
    lemma_merged_wf(b.inputs, device, snap);
    let m = spec_merged(b.inputs, device, snap);
    crate::modifier::lemma_chain_preserves_wf(b.modifiers, 0, ActionValue::Axis3D(m.x, m.y, m.z));
    crate::condition::lemma_conditions_stable(b.conditions, map, value);
    assert(b1.spec_verdict(device, snap, map, 0) == b.spec_verdict(device, snap, map, 0));
    assert(b1.current.state == b.spec_verdict(device, snap, map, 0));
    assert(b1.spec_step(device, snap, map, 0).current == b1.current);
    assert(b1.spec_step(device, snap, map, 0) =~= b1);
}

} // verus!
