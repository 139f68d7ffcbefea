//! Wraps input from any source: a physical key or button, mouse motion, the
//! scroll wheel, or a gamepad axis, together with the keyboard modifiers
//! that must be held for it.
//!
//! Gamepad sources cannot carry keyboard modifiers; attaching modifiers to
//! one is a usage error signalled by a `Result`, never a silent drop. Two
//! inputs are equal exactly when the source and the modifier set match: a
//! binding with Ctrl held is distinct from the plain one.

use vstd::prelude::*;
use crate::keys::{GamepadAxis, GamepadButton, Key, MouseButton};
use crate::mod_keys::ModKeys;

verus! {

/// The usage error of attaching keyboard modifiers to a gamepad source.
#[derive(Clone, Copy, Debug, PartialEq, Eq, Structural)]
pub struct GamepadModKeysError;

/// One physical input source with its required keyboard modifiers.
#[derive(Clone, Copy, Debug, PartialEq, Eq, Structural)]
pub enum Input {
    /// A keyboard key, captured as a boolean press.
    Keyboard { key: Key, mod_keys: ModKeys },
    /// A mouse button, captured as a boolean press.
    MouseButton { button: MouseButton, mod_keys: ModKeys },
    /// Mouse movement, captured as a two-dimensional axis.
    MouseMotion { mod_keys: ModKeys },
    /// The scroll wheel, captured as a two-dimensional axis.
    MouseWheel { mod_keys: ModKeys },
    /// A gamepad button, captured as a boolean press; carries no keyboard
    /// modifiers.
    GamepadButton(GamepadButton),
    /// A continuous gamepad axis, captured as a one-dimensional axis;
    /// carries no keyboard modifiers.
    GamepadAxis(GamepadAxis),
}

/// The input with its keyboard modifiers replaced, or the usage error for a
/// gamepad source.
pub open spec fn spec_with_mod_keys(input: Input, mod_keys: ModKeys) -> Result<
    Input,
    GamepadModKeysError,
> {
    match input {
        Input::Keyboard { key, .. } => Result::Ok(Input::Keyboard { key, mod_keys }),
        Input::MouseButton { button, .. } => Result::Ok(Input::MouseButton { button, mod_keys }),
        Input::MouseMotion { .. } => Result::Ok(Input::MouseMotion { mod_keys }),
        Input::MouseWheel { .. } => Result::Ok(Input::MouseWheel { mod_keys }),
        Input::GamepadButton(_) | Input::GamepadAxis(_) => Result::Err(GamepadModKeysError),
    }
}

impl Input {
    /// The keyboard modifiers attached to this input; empty for gamepad
    /// sources.
    pub open spec fn spec_mod_keys(self) -> ModKeys {
        match self {
            Input::Keyboard { mod_keys, .. } => mod_keys,
            Input::MouseButton { mod_keys, .. } => mod_keys,
            Input::MouseMotion { mod_keys } => mod_keys,
            Input::MouseWheel { mod_keys } => mod_keys,
            Input::GamepadButton(_) | Input::GamepadAxis(_) => ModKeys {
                control: false,
                shift: false,
                alt: false,
                super_key: false,
            },
        }
    }

    /// Whether this input comes from a gamepad.
    pub open spec fn spec_is_gamepad(self) -> bool {
        match self {
            Input::GamepadButton(_) | Input::GamepadAxis(_) => true,
            _ => false,
        }
    }

    /// Returns mouse motion without keyboard modifiers.
    pub fn mouse_motion() -> (r: Input)
        ensures
            r == (Input::MouseMotion {
                mod_keys: ModKeys { control: false, shift: false, alt: false, super_key: false },
            }),
    {
        Input::MouseMotion { mod_keys: ModKeys::empty() }
    }

    /// Returns the scroll wheel without keyboard modifiers.
    pub fn mouse_wheel() -> (r: Input)
        ensures
            r == (Input::MouseWheel {
                mod_keys: ModKeys { control: false, shift: false, alt: false, super_key: false },
            }),
    {
        Input::MouseWheel { mod_keys: ModKeys::empty() }
    }

    /// Returns the associated keyboard modifiers.
    pub fn mod_keys(self) -> (r: ModKeys)
        ensures
            r == self.spec_mod_keys(),
    {
        match self {
            Input::Keyboard { mod_keys, .. } => mod_keys,
            Input::MouseButton { mod_keys, .. } => mod_keys,
            Input::MouseMotion { mod_keys } => mod_keys,
            Input::MouseWheel { mod_keys } => mod_keys,
            Input::GamepadButton(_) | Input::GamepadAxis(_) => ModKeys::empty(),
        }
    }

    /// Returns the amount of associated keyboard modifiers.
    pub fn mod_keys_count(self) -> (n: usize)
        ensures
            n as int == self.spec_mod_keys().spec_count(),
    {
        self.mod_keys().count()
    }

    /// Returns a new instance without any keyboard modifiers, or the usage
    /// error for a gamepad source.
    pub fn without_mod_keys(self) -> (r: Result<Input, GamepadModKeysError>)
        ensures
            r == spec_with_mod_keys(
                self,
                ModKeys { control: false, shift: false, alt: false, super_key: false },
            ),
    {
        self.with_mod_keys(ModKeys::empty())
    }

    /// The display text: the source name, prefixed by the modifier names and
    /// `" + "` when any modifier is attached.
    pub open spec fn spec_display(self) -> Seq<char> {
        let source = match self {
            Input::Keyboard { key, .. } => key.spec_name(),
            Input::MouseButton { button, .. } => "Mouse "@ + button.spec_name(),
            Input::MouseMotion { .. } => "Mouse Motion"@,
            Input::MouseWheel { .. } => "Scroll Wheel"@,
            Input::GamepadButton(b) => b.spec_name(),
            Input::GamepadAxis(a) => a.spec_name(),
        };
        let mods = self.spec_mod_keys();
        if mods.spec_is_empty() {
            source
        } else {
            mods.spec_display() + " + "@ + source
        }
    }

    /// Renders this input as text.
    pub fn to_display(&self) -> (r: String)
        ensures
            r@ == self.spec_display(),
    {
        let source: String = match self {
            Input::Keyboard { key, .. } => key.name(),
            Input::MouseButton { button, .. } => {
                let mut t = String::from_str("Mouse ");
                let n = button.name();
                t.append(n.as_str());
                t
            },
            Input::MouseMotion { .. } => String::from_str("Mouse Motion"),
            Input::MouseWheel { .. } => String::from_str("Scroll Wheel"),
            Input::GamepadButton(b) => b.name(),
            Input::GamepadAxis(a) => a.name(),
        };
        let mods = self.mod_keys();
        if mods.is_empty() {
            source
        } else {
            let mut s = mods.to_display();
            s.append(" + ");
            s.append(source.as_str());
            s
        }
    }
}

/// Assigns keyboard modifiers to anything that stands for an input.
pub trait InputModKeys: Sized {
    /// The input this value stands for, before any modifiers are assigned.
    spec fn spec_input(self) -> Input;

    /// Returns an input with the replaced keyboard modifiers, or the usage
    /// error for a gamepad source.
    fn with_mod_keys(self, mod_keys: ModKeys) -> (r: Result<Input, GamepadModKeysError>)
        ensures
            r == spec_with_mod_keys(self.spec_input(), mod_keys),
    ;
}

impl InputModKeys for Input {
    open spec fn spec_input(self) -> Input {
        self
    }

    fn with_mod_keys(self, mod_keys: ModKeys) -> (r: Result<Input, GamepadModKeysError>) {
        match self {
            Input::Keyboard { key, .. } => Result::Ok(Input::Keyboard { key, mod_keys }),
            Input::MouseButton { button, .. } => Result::Ok(
                Input::MouseButton { button, mod_keys },
            ),
            Input::MouseMotion { .. } => Result::Ok(Input::MouseMotion { mod_keys }),
            Input::MouseWheel { .. } => Result::Ok(Input::MouseWheel { mod_keys }),
            Input::GamepadButton(_) | Input::GamepadAxis(_) => Result::Err(GamepadModKeysError),
        }
    }
}

impl InputModKeys for Key {
    open spec fn spec_input(self) -> Input {
        Input::Keyboard {
            key: self,
            mod_keys: ModKeys { control: false, shift: false, alt: false, super_key: false },
        }
    }

    fn with_mod_keys(self, mod_keys: ModKeys) -> (r: Result<Input, GamepadModKeysError>) {
        Result::Ok(Input::Keyboard { key: self, mod_keys })
    }
}

impl InputModKeys for MouseButton {
    open spec fn spec_input(self) -> Input {
        Input::MouseButton {
            button: self,
            mod_keys: ModKeys { control: false, shift: false, alt: false, super_key: false },
        }
    }

    fn with_mod_keys(self, mod_keys: ModKeys) -> (r: Result<Input, GamepadModKeysError>) {
        Result::Ok(Input::MouseButton { button: self, mod_keys })
    }
}

impl InputModKeys for GamepadButton {
    open spec fn spec_input(self) -> Input {
        Input::GamepadButton(self)
    }

    fn with_mod_keys(self, mod_keys: ModKeys) -> (r: Result<Input, GamepadModKeysError>) {
        Result::Err(GamepadModKeysError)
    }
}

impl InputModKeys for GamepadAxis {
    open spec fn spec_input(self) -> Input {
        Input::GamepadAxis(self)
    }

    fn with_mod_keys(self, mod_keys: ModKeys) -> (r: Result<Input, GamepadModKeysError>) {
        Result::Err(GamepadModKeysError)
    }
}

impl From<Key> for Input {
    /// Wraps a key without keyboard modifiers.
    fn from(key: Key) -> (r: Input) {
        Input::Keyboard { key, mod_keys: ModKeys::empty() }
    }
}

impl vstd::std_specs::convert::FromSpecImpl<Key> for Input {
    open spec fn obeys_from_spec() -> bool {
        true
    }

    open spec fn from_spec(key: Key) -> Input {
        Input::Keyboard {
            key,
            mod_keys: ModKeys { control: false, shift: false, alt: false, super_key: false },
        }
    }
}

impl From<MouseButton> for Input {
    /// Wraps a mouse button without keyboard modifiers.
    fn from(button: MouseButton) -> (r: Input) {
        Input::MouseButton { button, mod_keys: ModKeys::empty() }
    }
}

impl vstd::std_specs::convert::FromSpecImpl<MouseButton> for Input {
    open spec fn obeys_from_spec() -> bool {
        true
    }

    open spec fn from_spec(button: MouseButton) -> Input {
        Input::MouseButton {
            button,
            mod_keys: ModKeys { control: false, shift: false, alt: false, super_key: false },
        }
    }
}

impl From<GamepadButton> for Input {
    /// Wraps a gamepad button.
    fn from(button: GamepadButton) -> (r: Input) {
        Input::GamepadButton(button)
    }
}

impl vstd::std_specs::convert::FromSpecImpl<GamepadButton> for Input {
    open spec fn obeys_from_spec() -> bool {
        true
    }

    open spec fn from_spec(button: GamepadButton) -> Input {
        Input::GamepadButton(button)
    }
}

impl From<GamepadAxis> for Input {
    /// Wraps a gamepad axis.
    fn from(axis: GamepadAxis) -> (r: Input) {
        Input::GamepadAxis(axis)
    }
}

impl vstd::std_specs::convert::FromSpecImpl<GamepadAxis> for Input {
    open spec fn obeys_from_spec() -> bool {
        true
    }

    open spec fn from_spec(axis: GamepadAxis) -> Input {
        Input::GamepadAxis(axis)
    }
}

} // verus!
