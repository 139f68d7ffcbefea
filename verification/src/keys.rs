//! Physical input sources: keyboard key codes, mouse buttons, gamepad
//! buttons and axes, and gamepad device selection.
//!
//! These are closed enumerations of plain codes; the host layer maps its own
//! device identifiers onto them. A gamepad is identified by a plain numeric
//! id.

use vstd::prelude::*;

verus! {

/// A physical keyboard key.
#[derive(Clone, Copy, Debug, PartialEq, Eq, Structural)]
pub enum Key {
    ControlLeft,
    ControlRight,
    ShiftLeft,
    ShiftRight,
    AltLeft,
    AltRight,
    SuperLeft,
    SuperRight,
    KeyA,
    KeyB,
    KeyC,
    KeyD,
    KeyH,
    KeyJ,
    KeyK,
    KeyL,
    KeyN,
    KeyS,
    KeyU,
    KeyW,
    KeyY,
    ArrowUp,
    ArrowDown,
    ArrowLeft,
    ArrowRight,
    Digit0,
    Digit1,
    Digit2,
    Digit3,
    Digit4,
    Digit5,
    Numpad1,
    Numpad2,
    Numpad3,
    Numpad4,
    Numpad6,
    Numpad7,
    Numpad8,
    Numpad9,
    NumpadAdd,
    NumpadSubtract,
}

impl Key {
    /// The display name of this key.
    pub open spec fn spec_name(self) -> Seq<char> {
        match self {
            Key::ControlLeft => "ControlLeft"@,
            Key::ControlRight => "ControlRight"@,
            Key::ShiftLeft => "ShiftLeft"@,
            Key::ShiftRight => "ShiftRight"@,
            Key::AltLeft => "AltLeft"@,
            Key::AltRight => "AltRight"@,
            Key::SuperLeft => "SuperLeft"@,
            Key::SuperRight => "SuperRight"@,
            Key::KeyA => "KeyA"@,
            Key::KeyB => "KeyB"@,
            Key::KeyC => "KeyC"@,
            Key::KeyD => "KeyD"@,
            Key::KeyH => "KeyH"@,
            Key::KeyJ => "KeyJ"@,
            Key::KeyK => "KeyK"@,
            Key::KeyL => "KeyL"@,
            Key::KeyN => "KeyN"@,
            Key::KeyS => "KeyS"@,
            Key::KeyU => "KeyU"@,
            Key::KeyW => "KeyW"@,
            Key::KeyY => "KeyY"@,
            Key::ArrowUp => "ArrowUp"@,
            Key::ArrowDown => "ArrowDown"@,
            Key::ArrowLeft => "ArrowLeft"@,
            Key::ArrowRight => "ArrowRight"@,
            Key::Digit0 => "Digit0"@,
            Key::Digit1 => "Digit1"@,
            Key::Digit2 => "Digit2"@,
            Key::Digit3 => "Digit3"@,
            Key::Digit4 => "Digit4"@,
            Key::Digit5 => "Digit5"@,
            Key::Numpad1 => "Numpad1"@,
            Key::Numpad2 => "Numpad2"@,
            Key::Numpad3 => "Numpad3"@,
            Key::Numpad4 => "Numpad4"@,
            Key::Numpad6 => "Numpad6"@,
            Key::Numpad7 => "Numpad7"@,
            Key::Numpad8 => "Numpad8"@,
            Key::Numpad9 => "Numpad9"@,
            Key::NumpadAdd => "NumpadAdd"@,
            Key::NumpadSubtract => "NumpadSubtract"@,
        }
    }

    /// Returns the display name of this key.
    pub fn name(&self) -> (r: String)
        ensures
            r@ == self.spec_name(),
    {
        match self {
            Key::ControlLeft => String::from_str("ControlLeft"),
            Key::ControlRight => String::from_str("ControlRight"),
            Key::ShiftLeft => String::from_str("ShiftLeft"),
            Key::ShiftRight => String::from_str("ShiftRight"),
            Key::AltLeft => String::from_str("AltLeft"),
            Key::AltRight => String::from_str("AltRight"),
            Key::SuperLeft => String::from_str("SuperLeft"),
            Key::SuperRight => String::from_str("SuperRight"),
            Key::KeyA => String::from_str("KeyA"),
            Key::KeyB => String::from_str("KeyB"),
            Key::KeyC => String::from_str("KeyC"),
            Key::KeyD => String::from_str("KeyD"),
            Key::KeyH => String::from_str("KeyH"),
            Key::KeyJ => String::from_str("KeyJ"),
            Key::KeyK => String::from_str("KeyK"),
            Key::KeyL => String::from_str("KeyL"),
            Key::KeyN => String::from_str("KeyN"),
            Key::KeyS => String::from_str("KeyS"),
            Key::KeyU => String::from_str("KeyU"),
            Key::KeyW => String::from_str("KeyW"),
            Key::KeyY => String::from_str("KeyY"),
            Key::ArrowUp => String::from_str("ArrowUp"),
            Key::ArrowDown => String::from_str("ArrowDown"),
            Key::ArrowLeft => String::from_str("ArrowLeft"),
            Key::ArrowRight => String::from_str("ArrowRight"),
            Key::Digit0 => String::from_str("Digit0"),
            Key::Digit1 => String::from_str("Digit1"),
            Key::Digit2 => String::from_str("Digit2"),
            Key::Digit3 => String::from_str("Digit3"),
            Key::Digit4 => String::from_str("Digit4"),
            Key::Digit5 => String::from_str("Digit5"),
            Key::Numpad1 => String::from_str("Numpad1"),
            Key::Numpad2 => String::from_str("Numpad2"),
            Key::Numpad3 => String::from_str("Numpad3"),
            Key::Numpad4 => String::from_str("Numpad4"),
            Key::Numpad6 => String::from_str("Numpad6"),
            Key::Numpad7 => String::from_str("Numpad7"),
            Key::Numpad8 => String::from_str("Numpad8"),
            Key::Numpad9 => String::from_str("Numpad9"),
            Key::NumpadAdd => String::from_str("NumpadAdd"),
            Key::NumpadSubtract => String::from_str("NumpadSubtract"),
        }
    }
}

/// A mouse button.
#[derive(Clone, Copy, Debug, PartialEq, Eq, Structural)]
pub enum MouseButton {
    Left,
    Right,
    Middle,
}

impl MouseButton {
    /// The display name of this button.
    pub open spec fn spec_name(self) -> Seq<char> {
        match self {
            MouseButton::Left => "Left"@,
            MouseButton::Right => "Right"@,
            MouseButton::Middle => "Middle"@,
        }
    }

    /// Returns the display name of this button.
    pub fn name(&self) -> (r: String)
        ensures
            r@ == self.spec_name(),
    {
        match self {
            MouseButton::Left => String::from_str("Left"),
            MouseButton::Right => String::from_str("Right"),
            MouseButton::Middle => String::from_str("Middle"),
        }
    }
}

/// A gamepad button.
#[derive(Clone, Copy, Debug, PartialEq, Eq, Structural)]
pub enum GamepadButton {
    South,
    East,
    North,
    West,
    DPadUp,
    DPadDown,
    DPadLeft,
    DPadRight,
}

impl GamepadButton {
    /// The display name of this button.
    pub open spec fn spec_name(self) -> Seq<char> {
        match self {
            GamepadButton::South => "South"@,
            GamepadButton::East => "East"@,
            GamepadButton::North => "North"@,
            GamepadButton::West => "West"@,
            GamepadButton::DPadUp => "DPadUp"@,
            GamepadButton::DPadDown => "DPadDown"@,
            GamepadButton::DPadLeft => "DPadLeft"@,
            GamepadButton::DPadRight => "DPadRight"@,
        }
    }

    /// Returns the display name of this button.
    pub fn name(&self) -> (r: String)
        ensures
            r@ == self.spec_name(),
    {
        match self {
            GamepadButton::South => String::from_str("South"),
            GamepadButton::East => String::from_str("East"),
            GamepadButton::North => String::from_str("North"),
            GamepadButton::West => String::from_str("West"),
            GamepadButton::DPadUp => String::from_str("DPadUp"),
            GamepadButton::DPadDown => String::from_str("DPadDown"),
            GamepadButton::DPadLeft => String::from_str("DPadLeft"),
            GamepadButton::DPadRight => String::from_str("DPadRight"),
        }
    }
}

/// A continuous gamepad axis.
#[derive(Clone, Copy, Debug, PartialEq, Eq, Structural)]
pub enum GamepadAxis {
    LeftStickX,
    LeftStickY,
    RightStickX,
    RightStickY,
}

impl GamepadAxis {
    /// The display name of this axis.
    pub open spec fn spec_name(self) -> Seq<char> {
        match self {
            GamepadAxis::LeftStickX => "LeftStickX"@,
            GamepadAxis::LeftStickY => "LeftStickY"@,
            GamepadAxis::RightStickX => "RightStickX"@,
            GamepadAxis::RightStickY => "RightStickY"@,
        }
    }

    /// Returns the display name of this axis.
    pub fn name(&self) -> (r: String)
        ensures
            r@ == self.spec_name(),
    {
        match self {
            GamepadAxis::LeftStickX => String::from_str("LeftStickX"),
            GamepadAxis::LeftStickY => String::from_str("LeftStickY"),
            GamepadAxis::RightStickX => String::from_str("RightStickX"),
            GamepadAxis::RightStickY => String::from_str("RightStickY"),
        }
    }
}

/// Which gamepad a context listens to.
#[derive(Clone, Copy, Debug, PartialEq, Eq, Structural)]
pub enum GamepadDevice {
    /// Matches input from any gamepad: continuous axes are summed across all
    /// connected gamepads and buttons are combined by logical or.
    Any,
    /// Matches input from the single gamepad with this id.
    Single(u64),
}

impl From<u64> for GamepadDevice {
    /// Selects the single gamepad with the given id.
    fn from(id: u64) -> (r: GamepadDevice) {
        GamepadDevice::Single(id)
    }
}

impl vstd::std_specs::convert::FromSpecImpl<u64> for GamepadDevice {
    open spec fn obeys_from_spec() -> bool {
        true
    }

    open spec fn from_spec(id: u64) -> GamepadDevice {
        GamepadDevice::Single(id)
    }
}

} // verus!
