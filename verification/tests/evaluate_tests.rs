use enhanced_input::action::{Action, ActionMap, ActionState};
use enhanced_input::action_value::{ActionValue, ActionValueDim};
use enhanced_input::binding::{ActionBinding, InputBinding};
use enhanced_input::condition::{Chord, Down, Hold, InputCondition};
use enhanced_input::context::Context;
use enhanced_input::fixed::{Fixed2, FIX_ONE};
use enhanced_input::input::Input;
use enhanced_input::keys::{GamepadAxis, GamepadButton, GamepadDevice, Key};
use enhanced_input::mod_keys::ModKeys;
use enhanced_input::modifier::{InputModifier, Scale};
use enhanced_input::preset::{Axial, Bidirectional, Cardinal, Ordinal, Spatial};
use enhanced_input::snapshot::{GamepadState, Snapshot};

fn plain(key: Key) -> Input {
    Input::Keyboard {
        key,
        mod_keys: ModKeys::empty(),
    }
}

fn empty_snapshot() -> Snapshot {
    Snapshot {
        keys: vec![],
        mouse_buttons: vec![],
        mouse_motion: Fixed2 { x: 0, y: 0 },
        mouse_wheel: Fixed2 { x: 0, y: 0 },
        gamepads: vec![],
    }
}

fn key_snapshot(keys: Vec<Key>) -> Snapshot {
    Snapshot {
        keys,
        ..empty_snapshot()
    }
}

fn axis3(x: i64, y: i64, z: i64) -> ActionValue {
    ActionValue::Axis3D(x * FIX_ONE, y * FIX_ONE, z * FIX_ONE)
}

#[test]
fn chord() {
    let mut condition = Chord::new(7);
    let mut action = Action::new(ActionValueDim::Bool);
    action.update(0, ActionState::Fired, ActionValue::Bool(true));
    let mut action_map = ActionMap::new();
    action_map.insert(7, action);

    assert_eq!(
        condition.evaluate(&action_map, 0, ActionValue::Bool(true)),
        ActionState::Fired,
    );
}

#[test]
fn missing_action() {
    let mut condition = Chord::new(7);
    let action_map = ActionMap::new();

    assert_eq!(
        condition.evaluate(&action_map, 0, ActionValue::Bool(true)),
        ActionState::Idle,
    );
}

#[test]
fn chord_inherits_ongoing_state() {
    let mut condition = Chord::new(3);
    let mut action = Action::new(ActionValueDim::Bool);
    action.update(0, ActionState::Ongoing, ActionValue::Bool(true));
    let mut action_map = ActionMap::new();
    action_map.insert(3, action);

    assert_eq!(
        condition.evaluate(&action_map, 0, ActionValue::Bool(false)),
        ActionState::Ongoing,
    );
}

/// The binding used by the layout tests: one three-dimensional action bound
/// to every preset layout at once.
fn preset_binding(action: u64) -> ActionBinding {
    let mut inputs: Vec<InputBinding> = Vec::new();
    inputs.extend(Cardinal::wasd_keys().bindings());
    inputs.extend(Cardinal::arrow_keys().bindings());
    inputs.extend(Cardinal::dpad_buttons().bindings());
    inputs.extend(
        Bidirectional {
            positive: plain(Key::NumpadAdd),
            negative: plain(Key::NumpadSubtract),
        }
        .bindings(),
    );
    inputs.extend(Axial::left_stick().bindings());
    inputs.extend(Axial::right_stick().bindings());
    inputs.extend(
        Spatial {
            forward: plain(Key::Digit0),
            backward: plain(Key::Digit1),
            left: plain(Key::Digit2),
            right: plain(Key::Digit3),
            up: plain(Key::Digit4),
            down: plain(Key::Digit5),
        }
        .bindings(),
    );
    inputs.extend(Ordinal::hjklyubn().bindings());
    inputs.extend(Ordinal::numpad_keys().bindings());
    ActionBinding {
        action,
        dim: ActionValueDim::Axis3D,
        inputs,
        modifiers: vec![],
        conditions: vec![],
        current: Action::new(ActionValueDim::Axis3D),
    }
}

#[test]
fn keys() {
    let mut ctx = Context::new(GamepadDevice::Any);
    ctx.bind(preset_binding(1));

    for (key, dir) in [
        (Key::KeyW, axis3(0, 1, 0)),
        (Key::KeyA, axis3(-1, 0, 0)),
        (Key::KeyS, axis3(0, -1, 0)),
        (Key::KeyD, axis3(1, 0, 0)),
        (Key::ArrowUp, axis3(0, 1, 0)),
        (Key::ArrowLeft, axis3(-1, 0, 0)),
        (Key::ArrowDown, axis3(0, -1, 0)),
        (Key::ArrowRight, axis3(1, 0, 0)),
        (Key::NumpadSubtract, axis3(-1, 0, 0)),
        (Key::NumpadAdd, axis3(1, 0, 0)),
        (Key::Digit0, axis3(0, 0, -1)),
        (Key::Digit1, axis3(0, 0, 1)),
        (Key::Digit2, axis3(-1, 0, 0)),
        (Key::Digit3, axis3(1, 0, 0)),
        (Key::Digit4, axis3(0, 1, 0)),
        (Key::Digit5, axis3(0, -1, 0)),
        (Key::KeyK, axis3(0, 1, 0)),
        (Key::KeyU, axis3(1, 1, 0)),
        (Key::KeyL, axis3(1, 0, 0)),
        (Key::KeyN, axis3(1, -1, 0)),
        (Key::KeyJ, axis3(0, -1, 0)),
        (Key::KeyB, axis3(-1, -1, 0)),
        (Key::KeyH, axis3(-1, 0, 0)),
        (Key::KeyY, axis3(-1, 1, 0)),
        (Key::Numpad8, axis3(0, 1, 0)),
        (Key::Numpad9, axis3(1, 1, 0)),
        (Key::Numpad6, axis3(1, 0, 0)),
        (Key::Numpad3, axis3(1, -1, 0)),
        (Key::Numpad2, axis3(0, -1, 0)),
        (Key::Numpad1, axis3(-1, -1, 0)),
        (Key::Numpad4, axis3(-1, 0, 0)),
        (Key::Numpad7, axis3(-1, 1, 0)),
    ] {
        let out = ctx.evaluate(&key_snapshot(vec![key]), 16);
        assert_eq!(
            out.actions.action(1).unwrap().value,
            dir,
            "`{key:?}` should result in `{dir:?}`"
        );

        ctx.evaluate(&empty_snapshot(), 16);
    }
}

#[test]
fn dpad() {
    let mut ctx = Context::new(GamepadDevice::Any);
    ctx.bind(preset_binding(1));

    for (button, dir) in [
        (GamepadButton::DPadUp, axis3(0, 1, 0)),
        (GamepadButton::DPadLeft, axis3(-1, 0, 0)),
        (GamepadButton::DPadDown, axis3(0, -1, 0)),
        (GamepadButton::DPadRight, axis3(1, 0, 0)),
    ] {
        let snap = Snapshot {
            gamepads: vec![GamepadState {
                id: 1,
                buttons: vec![(button, FIX_ONE)],
                axes: vec![],
            }],
            ..empty_snapshot()
        };
        let out = ctx.evaluate(&snap, 16);
        assert_eq!(
            out.actions.action(1).unwrap().value,
            dir,
            "`{button:?}` should result in `{dir:?}`"
        );

        ctx.evaluate(&empty_snapshot(), 16);
    }
}

#[test]
fn sticks() {
    let mut ctx = Context::new(GamepadDevice::Any);
    ctx.bind(preset_binding(1));

    for (axis, dirs) in [
        (GamepadAxis::LeftStickX, [axis3(-1, 0, 0), axis3(1, 0, 0)]),
        (GamepadAxis::RightStickX, [axis3(-1, 0, 0), axis3(1, 0, 0)]),
        (GamepadAxis::LeftStickY, [axis3(0, -1, 0), axis3(0, 1, 0)]),
        (GamepadAxis::RightStickY, [axis3(0, -1, 0), axis3(0, 1, 0)]),
    ] {
        for (dir, value) in dirs.into_iter().zip([-FIX_ONE, FIX_ONE]) {
            let snap = Snapshot {
                gamepads: vec![GamepadState {
                    id: 1,
                    buttons: vec![],
                    axes: vec![(axis, value)],
                }],
                ..empty_snapshot()
            };
            let out = ctx.evaluate(&snap, 16);
            assert_eq!(
                out.actions.action(1).unwrap().value,
                dir,
                "`{axis:?}` should result in `{dir:?}`"
            );

            ctx.evaluate(&empty_snapshot(), 16);
        }
    }
}

#[test]
fn any_gamepad_sums_axes_and_ors_buttons() {
    let mut ctx = Context::new(GamepadDevice::Any);
    ctx.bind(preset_binding(1));

    let snap = Snapshot {
        gamepads: vec![
            GamepadState {
                id: 1,
                buttons: vec![],
                axes: vec![(GamepadAxis::LeftStickX, 300)],
            },
            GamepadState {
                id: 2,
                buttons: vec![(GamepadButton::DPadUp, FIX_ONE)],
                axes: vec![(GamepadAxis::LeftStickX, 400)],
            },
        ],
        ..empty_snapshot()
    };
    let out = ctx.evaluate(&snap, 16);
    assert_eq!(
        out.actions.action(1).unwrap().value,
        ActionValue::Axis3D(700, FIX_ONE, 0)
    );
}

#[test]
fn single_gamepad_ignores_other_devices() {
    let mut ctx = Context::new(GamepadDevice::Single(2));
    ctx.bind(preset_binding(1));

    let snap = Snapshot {
        gamepads: vec![
            GamepadState {
                id: 1,
                buttons: vec![],
                axes: vec![(GamepadAxis::LeftStickX, 300)],
            },
            GamepadState {
                id: 2,
                buttons: vec![],
                axes: vec![(GamepadAxis::LeftStickX, 400)],
            },
        ],
        ..empty_snapshot()
    };
    let out = ctx.evaluate(&snap, 16);
    assert_eq!(
        out.actions.action(1).unwrap().value,
        ActionValue::Axis3D(400, 0, 0)
    );
}

#[test]
fn opposite_keys_cancel_to_zero() {
    let mut ctx = Context::new(GamepadDevice::Any);
    ctx.bind(ActionBinding {
        action: 1,
        dim: ActionValueDim::Axis1D,
        inputs: Bidirectional {
            positive: plain(Key::NumpadAdd),
            negative: plain(Key::NumpadSubtract),
        }
        .bindings(),
        modifiers: vec![],
        conditions: vec![],
        current: Action::new(ActionValueDim::Axis1D),
    });
    ctx.bind(ActionBinding {
        action: 2,
        dim: ActionValueDim::Axis2D,
        inputs: Cardinal::wasd_keys().bindings(),
        modifiers: vec![],
        conditions: vec![],
        current: Action::new(ActionValueDim::Axis2D),
    });

    let out = ctx.evaluate(
        &key_snapshot(vec![Key::NumpadAdd, Key::NumpadSubtract, Key::KeyA, Key::KeyD]),
        16,
    );
    let one_d = out.actions.action(1).unwrap();
    assert_eq!(one_d.value, ActionValue::Axis1D(0));
    assert_eq!(one_d.state, ActionState::Idle);
    assert_eq!(
        out.actions.action(2).unwrap().value,
        ActionValue::Axis2D(0, 0)
    );

    // A diagonal combination keeps both components.
    let out = ctx.evaluate(&key_snapshot(vec![Key::KeyW, Key::KeyD]), 16);
    assert_eq!(
        out.actions.action(2).unwrap().value,
        ActionValue::Axis2D(FIX_ONE, FIX_ONE)
    );
}

#[test]
fn cardinal_press_release_lifecycle() {
    // Action bound to the four movement keys with a press threshold that
    // must be sustained: the state walks idle, ongoing, fired and back.
    let mut ctx = Context::new(GamepadDevice::Any);
    ctx.bind(ActionBinding {
        action: 1,
        dim: ActionValueDim::Axis2D,
        inputs: Cardinal::wasd_keys().bindings(),
        modifiers: vec![],
        conditions: vec![InputCondition::Hold(Hold::new(500, 0))],
        current: Action::new(ActionValueDim::Axis2D),
    });

    let pressed = key_snapshot(vec![Key::KeyD]);
    let out = ctx.evaluate(&pressed, 0);
    let a = out.actions.action(1).unwrap();
    assert_eq!(a.value, ActionValue::Axis2D(FIX_ONE, 0));
    assert_eq!(a.state, ActionState::Ongoing);

    let out = ctx.evaluate(&pressed, 500);
    let a = out.actions.action(1).unwrap();
    assert_eq!(a.value, ActionValue::Axis2D(FIX_ONE, 0));
    assert_eq!(a.state, ActionState::Fired);

    let out = ctx.evaluate(&empty_snapshot(), 16);
    let a = out.actions.action(1).unwrap();
    assert_eq!(a.value, ActionValue::Axis2D(0, 0));
    assert_eq!(a.state, ActionState::Idle);
}

#[test]
fn chord_overrides_with_full_inheritance() {
    // Action 2 is bound to a gamepad button with a chord on action 1: with
    // both pressed, its state equals action 1's state.
    let mut ctx = Context::new(GamepadDevice::Any);
    ctx.bind(ActionBinding {
        action: 1,
        dim: ActionValueDim::Bool,
        inputs: vec![InputBinding::new(Input::GamepadButton(GamepadButton::South))],
        modifiers: vec![],
        conditions: vec![InputCondition::Down(Down::new(0))],
        current: Action::new(ActionValueDim::Bool),
    });
    ctx.bind(ActionBinding {
        action: 2,
        dim: ActionValueDim::Bool,
        inputs: vec![InputBinding::new(Input::GamepadButton(GamepadButton::East))],
        modifiers: vec![],
        conditions: vec![
            InputCondition::Down(Down::new(0)),
            InputCondition::Chord(Chord::new(1)),
        ],
        current: Action::new(ActionValueDim::Bool),
    });

    let both = Snapshot {
        gamepads: vec![GamepadState {
            id: 1,
            buttons: vec![(GamepadButton::South, FIX_ONE), (GamepadButton::East, FIX_ONE)],
            axes: vec![],
        }],
        ..empty_snapshot()
    };
    let out = ctx.evaluate(&both, 16);
    let a = out.actions.action(1).unwrap();
    let b = out.actions.action(2).unwrap();
    assert_eq!(a.state, ActionState::Fired);
    assert_eq!(b.state, a.state);
    assert_eq!(b.value, ActionValue::Bool(true));
    assert!(out.missing.is_empty());

    // Without the dependency's button, the chord gates action 2 down to
    // idle even though its own button is still pressed.
    let east_only = Snapshot {
        gamepads: vec![GamepadState {
            id: 1,
            buttons: vec![(GamepadButton::East, FIX_ONE)],
            axes: vec![],
        }],
        ..empty_snapshot()
    };
    let out = ctx.evaluate(&east_only, 16);
    assert_eq!(out.actions.action(1).unwrap().state, ActionState::Idle);
    assert_eq!(out.actions.action(2).unwrap().state, ActionState::Idle);
}

#[test]
fn chord_on_missing_action_degrades_and_reports() {
    let mut ctx = Context::new(GamepadDevice::Any);
    ctx.bind(ActionBinding {
        action: 2,
        dim: ActionValueDim::Bool,
        inputs: vec![InputBinding::new(plain(Key::KeyA))],
        modifiers: vec![],
        conditions: vec![InputCondition::Chord(Chord::new(99))],
        current: Action::new(ActionValueDim::Bool),
    });

    let out = ctx.evaluate(&key_snapshot(vec![Key::KeyA]), 16);
    // Exactly one diagnostic, the frame completes, the action is idle.
    assert_eq!(out.missing, vec![99]);
    assert_eq!(out.actions.action(2).unwrap().state, ActionState::Idle);
}

#[test]
fn forward_chord_reference_does_not_defer() {
    // A chord naming an action declared later in the same context reads the
    // map before that action was published: it degrades to idle.
    let mut ctx = Context::new(GamepadDevice::Any);
    ctx.bind(ActionBinding {
        action: 1,
        dim: ActionValueDim::Bool,
        inputs: vec![InputBinding::new(plain(Key::KeyA))],
        modifiers: vec![],
        conditions: vec![InputCondition::Chord(Chord::new(2))],
        current: Action::new(ActionValueDim::Bool),
    });
    ctx.bind(ActionBinding {
        action: 2,
        dim: ActionValueDim::Bool,
        inputs: vec![InputBinding::new(plain(Key::KeyA))],
        modifiers: vec![],
        conditions: vec![],
        current: Action::new(ActionValueDim::Bool),
    });

    let out = ctx.evaluate(&key_snapshot(vec![Key::KeyA]), 16);
    assert_eq!(out.actions.action(1).unwrap().state, ActionState::Idle);
    assert_eq!(out.actions.action(2).unwrap().state, ActionState::Fired);
    assert_eq!(out.missing, vec![2]);
}

#[test]
fn evaluation_is_idempotent_without_time_advance() {
    let mut ctx = Context::new(GamepadDevice::Any);
    ctx.bind(ActionBinding {
        action: 1,
        dim: ActionValueDim::Axis2D,
        inputs: Cardinal::wasd_keys().bindings(),
        modifiers: vec![],
        conditions: vec![InputCondition::Hold(Hold::new(500, 0))],
        current: Action::new(ActionValueDim::Axis2D),
    });
    ctx.bind(ActionBinding {
        action: 2,
        dim: ActionValueDim::Bool,
        inputs: vec![InputBinding::new(plain(Key::KeyD))],
        modifiers: vec![],
        conditions: vec![InputCondition::Chord(Chord::new(1))],
        current: Action::new(ActionValueDim::Bool),
    });

    let snap = key_snapshot(vec![Key::KeyD]);
    let first = ctx.evaluate(&snap, 0);
    let second = ctx.evaluate(&snap, 0);
    for id in [1, 2] {
        assert_eq!(
            first.actions.action(id).unwrap(),
            second.actions.action(id).unwrap()
        );
    }
    assert_eq!(first.missing, second.missing);
}

#[test]
fn timers_accumulate_and_reset_on_transition() {
    let mut ctx = Context::new(GamepadDevice::Any);
    ctx.bind(ActionBinding {
        action: 1,
        dim: ActionValueDim::Bool,
        inputs: vec![InputBinding::new(plain(Key::KeyA))],
        modifiers: vec![],
        conditions: vec![],
        current: Action::new(ActionValueDim::Bool),
    });

    let pressed = key_snapshot(vec![Key::KeyA]);
    // Transition idle -> fired resets the timer.
    let out = ctx.evaluate(&pressed, 100);
    let a = out.actions.action(1).unwrap();
    assert_eq!(a.state, ActionState::Fired);
    assert_eq!(a.elapsed, 0);

    // Staying fired accumulates elapsed time.
    let out = ctx.evaluate(&pressed, 200);
    assert_eq!(out.actions.action(1).unwrap().elapsed, 200);
    let out = ctx.evaluate(&pressed, 50);
    assert_eq!(out.actions.action(1).unwrap().elapsed, 250);

    // Release transitions back and resets again.
    let out = ctx.evaluate(&empty_snapshot(), 50);
    let a = out.actions.action(1).unwrap();
    assert_eq!(a.state, ActionState::Idle);
    assert_eq!(a.elapsed, 0);
}

#[test]
fn exact_modifier_match_gates_capture() {
    // A binding with Ctrl+A is distinct from plain A: neither fires on the
    // other's chord of held keys.
    let mut ctx = Context::new(GamepadDevice::Any);
    ctx.bind(ActionBinding {
        action: 1,
        dim: ActionValueDim::Bool,
        inputs: vec![InputBinding::new(plain(Key::KeyA))],
        modifiers: vec![],
        conditions: vec![],
        current: Action::new(ActionValueDim::Bool),
    });
    ctx.bind(ActionBinding {
        action: 2,
        dim: ActionValueDim::Bool,
        inputs: vec![InputBinding::new(Input::Keyboard {
            key: Key::KeyA,
            mod_keys: ModKeys::control(),
        })],
        modifiers: vec![],
        conditions: vec![],
        current: Action::new(ActionValueDim::Bool),
    });

    let out = ctx.evaluate(&key_snapshot(vec![Key::KeyA]), 16);
    assert_eq!(out.actions.action(1).unwrap().value, ActionValue::Bool(true));
    assert_eq!(out.actions.action(2).unwrap().value, ActionValue::Bool(false));

    let out = ctx.evaluate(&key_snapshot(vec![Key::KeyA, Key::ControlLeft]), 16);
    assert_eq!(out.actions.action(1).unwrap().value, ActionValue::Bool(false));
    assert_eq!(out.actions.action(2).unwrap().value, ActionValue::Bool(true));
}

#[test]
fn modifier_chain_feeds_conditions_and_output() {
    // Scaling by zero suppresses actuation entirely.
    let mut ctx = Context::new(GamepadDevice::Any);
    ctx.bind(ActionBinding {
        action: 1,
        dim: ActionValueDim::Axis1D,
        inputs: vec![InputBinding::new(plain(Key::KeyA))],
        modifiers: vec![InputModifier::Scale(Scale::splat(0))],
        conditions: vec![],
        current: Action::new(ActionValueDim::Axis1D),
    });
    ctx.bind(ActionBinding {
        action: 2,
        dim: ActionValueDim::Axis1D,
        inputs: vec![InputBinding::new(plain(Key::KeyA))],
        modifiers: vec![InputModifier::Scale(Scale::splat(2 * FIX_ONE))],
        conditions: vec![],
        current: Action::new(ActionValueDim::Axis1D),
    });

    let out = ctx.evaluate(&key_snapshot(vec![Key::KeyA]), 16);
    let suppressed = out.actions.action(1).unwrap();
    assert_eq!(suppressed.value, ActionValue::Axis1D(0));
    assert_eq!(suppressed.state, ActionState::Idle);
    let doubled = out.actions.action(2).unwrap();
    assert_eq!(doubled.value, ActionValue::Axis1D(2 * FIX_ONE));
    assert_eq!(doubled.state, ActionState::Fired);
}
