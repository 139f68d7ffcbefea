use enhanced_input::input::{Input, InputModKeys};
use enhanced_input::keys::{GamepadAxis, GamepadButton, GamepadDevice, Key, MouseButton};
use enhanced_input::mod_keys::ModKeys;

#[test]
fn pressed_mod_keys() {
    let keys = vec![Key::ControlLeft, Key::ShiftLeft, Key::KeyC];

    let mod_keys = ModKeys::pressed(&keys);
    assert_eq!(mod_keys, ModKeys::control().union(ModKeys::shift()));
}

#[test]
fn mod_keys_display() {
    assert_eq!(ModKeys::control().to_display(), "Ctrl");
    assert_eq!(ModKeys::all().to_display(), "Ctrl + Shift + Alt + Super");
    assert_eq!(ModKeys::empty().to_display(), "");
}

#[test]
fn input_display() {
    assert_eq!(
        Input::Keyboard {
            key: Key::KeyA,
            mod_keys: ModKeys::empty()
        }
        .to_display(),
        "KeyA"
    );
    assert_eq!(
        Input::Keyboard {
            key: Key::KeyA,
            mod_keys: ModKeys::control()
        }
        .to_display(),
        "Ctrl + KeyA"
    );
    assert_eq!(
        Input::MouseButton {
            button: MouseButton::Left,
            mod_keys: ModKeys::empty()
        }
        .to_display(),
        "Mouse Left"
    );
    assert_eq!(
        Input::MouseMotion {
            mod_keys: ModKeys::empty()
        }
        .to_display(),
        "Mouse Motion"
    );
    assert_eq!(
        Input::MouseWheel {
            mod_keys: ModKeys::empty()
        }
        .to_display(),
        "Scroll Wheel"
    );
    assert_eq!(
        Input::GamepadAxis(GamepadAxis::LeftStickX).to_display(),
        "LeftStickX"
    );
    assert_eq!(
        Input::GamepadButton(GamepadButton::North).to_display(),
        "North"
    );
}

#[test]
fn either_key_of_a_pair_sets_the_same_bit() {
    let left_only = vec![Key::ControlLeft];
    let right_only = vec![Key::ControlRight];
    let both = vec![Key::ControlLeft, Key::ControlRight];
    assert_eq!(ModKeys::pressed(&left_only), ModKeys::pressed(&right_only));
    assert_eq!(ModKeys::pressed(&left_only), ModKeys::pressed(&both));
    assert_eq!(ModKeys::pressed(&left_only), ModKeys::control());

    let shift_left = vec![Key::ShiftLeft, Key::KeyA];
    let shift_both = vec![Key::ShiftLeft, Key::ShiftRight, Key::KeyA];
    assert_eq!(ModKeys::pressed(&shift_left), ModKeys::pressed(&shift_both));
}

#[test]
fn mod_keys_count_counts_bits() {
    let input = Input::Keyboard {
        key: Key::KeyA,
        mod_keys: ModKeys::control().union(ModKeys::alt()),
    };
    assert_eq!(input.mod_keys_count(), 2);
    assert_eq!(Input::GamepadButton(GamepadButton::South).mod_keys_count(), 0);
    assert_eq!(Input::mouse_motion().mod_keys_count(), 0);
    assert_eq!(Input::mouse_wheel().mod_keys(), ModKeys::empty());
}

#[test]
fn iter_keys_yields_pairs_in_order() {
    let pairs = ModKeys::all().iter_keys();
    assert_eq!(
        pairs,
        vec![
            (Key::ControlLeft, Key::ControlRight),
            (Key::ShiftLeft, Key::ShiftRight),
            (Key::AltLeft, Key::AltRight),
            (Key::SuperLeft, Key::SuperRight),
        ]
    );
    assert_eq!(ModKeys::empty().iter_keys(), vec![]);
    assert_eq!(
        ModKeys::super_key().iter_keys(),
        vec![(Key::SuperLeft, Key::SuperRight)]
    );
}

#[test]
fn from_key_maps_modifiers() {
    assert_eq!(ModKeys::from(Key::ControlLeft), ModKeys::control());
    assert_eq!(ModKeys::from(Key::ControlRight), ModKeys::control());
    assert_eq!(ModKeys::from(Key::ShiftRight), ModKeys::shift());
    assert_eq!(ModKeys::from(Key::AltLeft), ModKeys::alt());
    assert_eq!(ModKeys::from(Key::SuperRight), ModKeys::super_key());
    assert_eq!(ModKeys::from(Key::KeyA), ModKeys::empty());
}

#[test]
fn mod_keys_on_gamepad_is_an_error() {
    let button = Input::GamepadButton(GamepadButton::South);
    assert!(button.with_mod_keys(ModKeys::control()).is_err());
    assert!(button.without_mod_keys().is_err());
    let axis = Input::GamepadAxis(GamepadAxis::LeftStickY);
    assert!(axis.with_mod_keys(ModKeys::empty()).is_err());
    assert!(GamepadButton::North.with_mod_keys(ModKeys::shift()).is_err());
}

#[test]
fn mod_keys_replacement_on_keyboard_sources() {
    let plain = Key::KeyA.with_mod_keys(ModKeys::control()).unwrap();
    assert_eq!(
        plain,
        Input::Keyboard {
            key: Key::KeyA,
            mod_keys: ModKeys::control()
        }
    );
    let replaced = plain.with_mod_keys(ModKeys::shift()).unwrap();
    assert_eq!(
        replaced,
        Input::Keyboard {
            key: Key::KeyA,
            mod_keys: ModKeys::shift()
        }
    );
    assert_eq!(
        replaced.without_mod_keys().unwrap(),
        Input::Keyboard {
            key: Key::KeyA,
            mod_keys: ModKeys::empty()
        }
    );
    let wheel = Input::mouse_wheel().with_mod_keys(ModKeys::alt()).unwrap();
    assert_eq!(
        wheel,
        Input::MouseWheel {
            mod_keys: ModKeys::alt()
        }
    );
    let mouse = MouseButton::Right.with_mod_keys(ModKeys::control()).unwrap();
    assert_eq!(
        mouse,
        Input::MouseButton {
            button: MouseButton::Right,
            mod_keys: ModKeys::control()
        }
    );
}

#[test]
fn gamepad_device_from_id() {
    assert_eq!(GamepadDevice::from(3u64), GamepadDevice::Single(3));
}
