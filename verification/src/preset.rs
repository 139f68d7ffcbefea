//! Composite binding layouts: pre-built sets of input-to-unit-vector
//! mappings.
//!
//! A layout is not an independent component: it only produces the bound
//! inputs with their directions, which then feed the ordinary per-axis
//! combination rule. Opposite directions bound by one layout therefore
//! cancel when both are held.

use vstd::prelude::*;
use crate::binding::InputBinding;
use crate::fixed::{Fixed3, FIX_ONE};
use crate::input::Input;
use crate::keys::{GamepadAxis, GamepadButton, Key};
use crate::mod_keys::ModKeys;

verus! {

/// Wraps a key as a plain keyboard input without modifiers.
fn plain_key(key: Key) -> (r: Input)
    ensures
        r == (Input::Keyboard {
            key,
            mod_keys: ModKeys { control: false, shift: false, alt: false, super_key: false },
        }),
{
    Input::Keyboard { key, mod_keys: ModKeys::empty() }
}

/// A four-way directional layout on one plane: north, east, south and west
/// map to the positive and negative halves of the first two axes.
#[derive(Clone, Copy, Debug, PartialEq, Eq, Structural)]
pub struct Cardinal {
    pub north: Input,
    pub east: Input,
    pub south: Input,
    pub west: Input,
}

impl Cardinal {
    /// The W, A, S and D keys as north, west, south and east.
    pub fn wasd_keys() -> (r: Cardinal)
        ensures
            r == (Cardinal {
                north: Input::Keyboard {
                    key: Key::KeyW,
                    mod_keys: ModKeys {
                        control: false,
                        shift: false,
                        alt: false,
                        super_key: false,
                    },
                },
                east: Input::Keyboard {
                    key: Key::KeyD,
                    mod_keys: ModKeys {
                        control: false,
                        shift: false,
                        alt: false,
                        super_key: false,
                    },
                },
                south: Input::Keyboard {
                    key: Key::KeyS,
                    mod_keys: ModKeys {
                        control: false,
                        shift: false,
                        alt: false,
                        super_key: false,
                    },
                },
                west: Input::Keyboard {
                    key: Key::KeyA,
                    mod_keys: ModKeys {
                        control: false,
                        shift: false,
                        alt: false,
                        super_key: false,
                    },
                },
            }),
    {
        Cardinal {
            north: plain_key(Key::KeyW),
            east: plain_key(Key::KeyD),
            south: plain_key(Key::KeyS),
            west: plain_key(Key::KeyA),
        }
    }

    /// The arrow keys as the four directions.
    pub fn arrow_keys() -> (r: Cardinal)
        ensures
            r.north == (Input::Keyboard {
                key: Key::ArrowUp,
                mod_keys: ModKeys { control: false, shift: false, alt: false, super_key: false },
            }),
            r.east == (Input::Keyboard {
                key: Key::ArrowRight,
                mod_keys: ModKeys { control: false, shift: false, alt: false, super_key: false },
            }),
            r.south == (Input::Keyboard {
                key: Key::ArrowDown,
                mod_keys: ModKeys { control: false, shift: false, alt: false, super_key: false },
            }),
            r.west == (Input::Keyboard {
                key: Key::ArrowLeft,
                mod_keys: ModKeys { control: false, shift: false, alt: false, super_key: false },
            }),
    {
        Cardinal {
            north: plain_key(Key::ArrowUp),
            east: plain_key(Key::ArrowRight),
            south: plain_key(Key::ArrowDown),
            west: plain_key(Key::ArrowLeft),
        }
    }

    /// The directional pad buttons as the four directions.
    pub fn dpad_buttons() -> (r: Cardinal)
        ensures
            r == (Cardinal {
                north: Input::GamepadButton(GamepadButton::DPadUp),
                east: Input::GamepadButton(GamepadButton::DPadRight),
                south: Input::GamepadButton(GamepadButton::DPadDown),
                west: Input::GamepadButton(GamepadButton::DPadLeft),
            }),
    {
        Cardinal {
            north: Input::GamepadButton(GamepadButton::DPadUp),
            east: Input::GamepadButton(GamepadButton::DPadRight),
            south: Input::GamepadButton(GamepadButton::DPadDown),
            west: Input::GamepadButton(GamepadButton::DPadLeft),
        }
    }

    /// The four bound inputs with their unit directions, in the order
    /// north, east, south, west.
    pub fn bindings(self) -> (r: Vec<InputBinding>)
        ensures
            r@ == seq![
                (InputBinding { input: self.north, direction: Fixed3 { x: 0, y: FIX_ONE, z: 0 } }),
                (InputBinding { input: self.east, direction: Fixed3 { x: FIX_ONE, y: 0, z: 0 } }),
                (InputBinding {
                    input: self.south,
                    direction: Fixed3 { x: 0, y: ((-FIX_ONE) as i64), z: 0 },
                }),
                (InputBinding { input: self.west, direction: Fixed3 { x: ((-FIX_ONE) as i64), y: 0, z: 0 } }),
            ],
    {
        let mut r: Vec<InputBinding> = Vec::new();
        r.push(InputBinding::with_direction(self.north, Fixed3 { x: 0, y: FIX_ONE, z: 0 }));
        r.push(InputBinding::with_direction(self.east, Fixed3 { x: FIX_ONE, y: 0, z: 0 }));
        r.push(InputBinding::with_direction(self.south, Fixed3 { x: 0, y: ((-FIX_ONE) as i64), z: 0 }));
        r.push(InputBinding::with_direction(self.west, Fixed3 { x: ((-FIX_ONE) as i64), y: 0, z: 0 }));
        proof {
            assert(r@ =~= seq![
                (InputBinding { input: self.north, direction: Fixed3 { x: 0, y: FIX_ONE, z: 0 } }),
                (InputBinding { input: self.east, direction: Fixed3 { x: FIX_ONE, y: 0, z: 0 } }),
                (InputBinding {
                    input: self.south,
                    direction: Fixed3 { x: 0, y: ((-FIX_ONE) as i64), z: 0 },
                }),
                (InputBinding { input: self.west, direction: Fixed3 { x: ((-FIX_ONE) as i64), y: 0, z: 0 } }),
            ]);
        }
        r
    }
}

/// A one-axis layout: a positive and a negative input on the first axis.
#[derive(Clone, Copy, Debug, PartialEq, Eq, Structural)]
pub struct Bidirectional {
    pub positive: Input,
    pub negative: Input,
}

impl Bidirectional {
    /// The two bound inputs, positive then negative.
    pub fn bindings(self) -> (r: Vec<InputBinding>)
        ensures
            r@ == seq![
                (InputBinding {
                    input: self.positive,
                    direction: Fixed3 { x: FIX_ONE, y: 0, z: 0 },
                }),
                (InputBinding {
                    input: self.negative,
                    direction: Fixed3 { x: ((-FIX_ONE) as i64), y: 0, z: 0 },
                }),
            ],
    {
        let mut r: Vec<InputBinding> = Vec::new();
        r.push(InputBinding::with_direction(self.positive, Fixed3 { x: FIX_ONE, y: 0, z: 0 }));
        r.push(InputBinding::with_direction(self.negative, Fixed3 { x: ((-FIX_ONE) as i64), y: 0, z: 0 }));
        proof {
            assert(r@ =~= seq![
                (InputBinding {
                    input: self.positive,
                    direction: Fixed3 { x: FIX_ONE, y: 0, z: 0 },
                }),
                (InputBinding {
                    input: self.negative,
                    direction: Fixed3 { x: ((-FIX_ONE) as i64), y: 0, z: 0 },
                }),
            ]);
        }
        r
    }
}

/// A two-axis analog layout: one continuous input per plane axis.
#[derive(Clone, Copy, Debug, PartialEq, Eq, Structural)]
pub struct Axial {
    pub x: Input,
    pub y: Input,
}

impl Axial {
    /// The left stick's two axes.
    pub fn left_stick() -> (r: Axial)
        ensures
            r == (Axial {
                x: Input::GamepadAxis(GamepadAxis::LeftStickX),
                y: Input::GamepadAxis(GamepadAxis::LeftStickY),
            }),
    {
        Axial {
            x: Input::GamepadAxis(GamepadAxis::LeftStickX),
            y: Input::GamepadAxis(GamepadAxis::LeftStickY),
        }
    }

    /// The right stick's two axes.
    pub fn right_stick() -> (r: Axial)
        ensures
            r == (Axial {
                x: Input::GamepadAxis(GamepadAxis::RightStickX),
                y: Input::GamepadAxis(GamepadAxis::RightStickY),
            }),
    {
        Axial {
            x: Input::GamepadAxis(GamepadAxis::RightStickX),
            y: Input::GamepadAxis(GamepadAxis::RightStickY),
        }
    }

    /// The two bound inputs, the first axis then the second.
    pub fn bindings(self) -> (r: Vec<InputBinding>)
        ensures
            r@ == seq![
                (InputBinding { input: self.x, direction: Fixed3 { x: FIX_ONE, y: 0, z: 0 } }),
                (InputBinding { input: self.y, direction: Fixed3 { x: 0, y: FIX_ONE, z: 0 } }),
            ],
    {
        let mut r: Vec<InputBinding> = Vec::new();
        r.push(InputBinding::with_direction(self.x, Fixed3 { x: FIX_ONE, y: 0, z: 0 }));
        r.push(InputBinding::with_direction(self.y, Fixed3 { x: 0, y: FIX_ONE, z: 0 }));
        proof {
            assert(r@ =~= seq![
                (InputBinding { input: self.x, direction: Fixed3 { x: FIX_ONE, y: 0, z: 0 } }),
                (InputBinding { input: self.y, direction: Fixed3 { x: 0, y: FIX_ONE, z: 0 } }),
            ]);
        }
        r
    }
}

/// A six-way spatial layout: four directions on the ground plane and two
/// on the vertical axis. Forward is the negative third axis.
#[derive(Clone, Copy, Debug, PartialEq, Eq, Structural)]
pub struct Spatial {
    pub forward: Input,
    pub backward: Input,
    pub left: Input,
    pub right: Input,
    pub up: Input,
    pub down: Input,
}

impl Spatial {
    /// The six bound inputs in the order forward, backward, left, right,
    /// up, down.
    pub fn bindings(self) -> (r: Vec<InputBinding>)
        ensures
            r@ == seq![
                (InputBinding {
                    input: self.forward,
                    direction: Fixed3 { x: 0, y: 0, z: ((-FIX_ONE) as i64) },
                }),
                (InputBinding {
                    input: self.backward,
                    direction: Fixed3 { x: 0, y: 0, z: FIX_ONE },
                }),
                (InputBinding { input: self.left, direction: Fixed3 { x: ((-FIX_ONE) as i64), y: 0, z: 0 } }),
                (InputBinding { input: self.right, direction: Fixed3 { x: FIX_ONE, y: 0, z: 0 } }),
                (InputBinding { input: self.up, direction: Fixed3 { x: 0, y: FIX_ONE, z: 0 } }),
                (InputBinding { input: self.down, direction: Fixed3 { x: 0, y: ((-FIX_ONE) as i64), z: 0 } }),
            ],
    {
        let mut r: Vec<InputBinding> = Vec::new();
        r.push(InputBinding::with_direction(self.forward, Fixed3 { x: 0, y: 0, z: ((-FIX_ONE) as i64) }));
        r.push(InputBinding::with_direction(self.backward, Fixed3 { x: 0, y: 0, z: FIX_ONE }));
        r.push(InputBinding::with_direction(self.left, Fixed3 { x: ((-FIX_ONE) as i64), y: 0, z: 0 }));
        r.push(InputBinding::with_direction(self.right, Fixed3 { x: FIX_ONE, y: 0, z: 0 }));
        r.push(InputBinding::with_direction(self.up, Fixed3 { x: 0, y: FIX_ONE, z: 0 }));
        r.push(InputBinding::with_direction(self.down, Fixed3 { x: 0, y: ((-FIX_ONE) as i64), z: 0 }));
        proof {
            assert(r@ =~= seq![
                (InputBinding {
                    input: self.forward,
                    direction: Fixed3 { x: 0, y: 0, z: ((-FIX_ONE) as i64) },
                }),
                (InputBinding {
                    input: self.backward,
                    direction: Fixed3 { x: 0, y: 0, z: FIX_ONE },
                }),
                (InputBinding { input: self.left, direction: Fixed3 { x: ((-FIX_ONE) as i64), y: 0, z: 0 } }),
                (InputBinding { input: self.right, direction: Fixed3 { x: FIX_ONE, y: 0, z: 0 } }),
                (InputBinding { input: self.up, direction: Fixed3 { x: 0, y: FIX_ONE, z: 0 } }),
                (InputBinding { input: self.down, direction: Fixed3 { x: 0, y: ((-FIX_ONE) as i64), z: 0 } }),
            ]);
        }
        r
    }
}

/// An eight-way directional layout: the four cardinal directions and the
/// four diagonals between them.
#[derive(Clone, Copy, Debug, PartialEq, Eq, Structural)]
pub struct Ordinal {
    pub north: Input,
    pub north_east: Input,
    pub east: Input,
    pub south_east: Input,
    pub south: Input,
    pub south_west: Input,
    pub west: Input,
    pub north_west: Input,
}

impl Ordinal {
    /// The H, J, K, L, Y, U, B and N keys as the eight directions.
    pub fn hjklyubn() -> (r: Ordinal)
        ensures
            r.north == (Input::Keyboard {
                key: Key::KeyK,
                mod_keys: ModKeys { control: false, shift: false, alt: false, super_key: false },
            }),
            r.north_east == (Input::Keyboard {
                key: Key::KeyU,
                mod_keys: ModKeys { control: false, shift: false, alt: false, super_key: false },
            }),
            r.east == (Input::Keyboard {
                key: Key::KeyL,
                mod_keys: ModKeys { control: false, shift: false, alt: false, super_key: false },
            }),
            r.south_east == (Input::Keyboard {
                key: Key::KeyN,
                mod_keys: ModKeys { control: false, shift: false, alt: false, super_key: false },
            }),
            r.south == (Input::Keyboard {
                key: Key::KeyJ,
                mod_keys: ModKeys { control: false, shift: false, alt: false, super_key: false },
            }),
            r.south_west == (Input::Keyboard {
                key: Key::KeyB,
                mod_keys: ModKeys { control: false, shift: false, alt: false, super_key: false },
            }),
            r.west == (Input::Keyboard {
                key: Key::KeyH,
                mod_keys: ModKeys { control: false, shift: false, alt: false, super_key: false },
            }),
            r.north_west == (Input::Keyboard {
                key: Key::KeyY,
                mod_keys: ModKeys { control: false, shift: false, alt: false, super_key: false },
            }),
    {
        Ordinal {
            north: plain_key(Key::KeyK),
            north_east: plain_key(Key::KeyU),
            east: plain_key(Key::KeyL),
            south_east: plain_key(Key::KeyN),
            south: plain_key(Key::KeyJ),
            south_west: plain_key(Key::KeyB),
            west: plain_key(Key::KeyH),
            north_west: plain_key(Key::KeyY),
        }
    }

    /// The numeric keypad digits around 5 as the eight directions.
    pub fn numpad_keys() -> (r: Ordinal)
        ensures
            r.north == (Input::Keyboard {
                key: Key::Numpad8,
                mod_keys: ModKeys { control: false, shift: false, alt: false, super_key: false },
            }),
            r.north_east == (Input::Keyboard {
                key: Key::Numpad9,
                mod_keys: ModKeys { control: false, shift: false, alt: false, super_key: false },
            }),
            r.east == (Input::Keyboard {
                key: Key::Numpad6,
                mod_keys: ModKeys { control: false, shift: false, alt: false, super_key: false },
            }),
            r.south_east == (Input::Keyboard {
                key: Key::Numpad3,
                mod_keys: ModKeys { control: false, shift: false, alt: false, super_key: false },
            }),
            r.south == (Input::Keyboard {
                key: Key::Numpad2,
                mod_keys: ModKeys { control: false, shift: false, alt: false, super_key: false },
            }),
            r.south_west == (Input::Keyboard {
                key: Key::Numpad1,
                mod_keys: ModKeys { control: false, shift: false, alt: false, super_key: false },
            }),
            r.west == (Input::Keyboard {
                key: Key::Numpad4,
                mod_keys: ModKeys { control: false, shift: false, alt: false, super_key: false },
            }),
            r.north_west == (Input::Keyboard {
                key: Key::Numpad7,
                mod_keys: ModKeys { control: false, shift: false, alt: false, super_key: false },
            }),
    {
        Ordinal {
            north: plain_key(Key::Numpad8),
            north_east: plain_key(Key::Numpad9),
            east: plain_key(Key::Numpad6),
            south_east: plain_key(Key::Numpad3),
            south: plain_key(Key::Numpad2),
            south_west: plain_key(Key::Numpad1),
            west: plain_key(Key::Numpad4),
            north_west: plain_key(Key::Numpad7),
        }
    }

    /// The eight bound inputs clockwise from north; diagonals combine both
    /// unit components.
    pub fn bindings(self) -> (r: Vec<InputBinding>)
        ensures
            r@ == seq![
                (InputBinding { input: self.north, direction: Fixed3 { x: 0, y: FIX_ONE, z: 0 } }),
                (InputBinding {
                    input: self.north_east,
                    direction: Fixed3 { x: FIX_ONE, y: FIX_ONE, z: 0 },
                }),
                (InputBinding { input: self.east, direction: Fixed3 { x: FIX_ONE, y: 0, z: 0 } }),
                (InputBinding {
                    input: self.south_east,
                    direction: Fixed3 { x: FIX_ONE, y: ((-FIX_ONE) as i64), z: 0 },
                }),
                (InputBinding {
                    input: self.south,
                    direction: Fixed3 { x: 0, y: ((-FIX_ONE) as i64), z: 0 },
                }),
                (InputBinding {
                    input: self.south_west,
                    direction: Fixed3 { x: ((-FIX_ONE) as i64), y: ((-FIX_ONE) as i64), z: 0 },
                }),
                (InputBinding { input: self.west, direction: Fixed3 { x: ((-FIX_ONE) as i64), y: 0, z: 0 } }),
                (InputBinding {
                    input: self.north_west,
                    direction: Fixed3 { x: ((-FIX_ONE) as i64), y: FIX_ONE, z: 0 },
                }),
            ],
    {
        let mut r: Vec<InputBinding> = Vec::new();
        r.push(InputBinding::with_direction(self.north, Fixed3 { x: 0, y: FIX_ONE, z: 0 }));
        r.push(
            InputBinding::with_direction(self.north_east, Fixed3 { x: FIX_ONE, y: FIX_ONE, z: 0 }),
        );
        r.push(InputBinding::with_direction(self.east, Fixed3 { x: FIX_ONE, y: 0, z: 0 }));
        r.push(
            InputBinding::with_direction(
                self.south_east,
                Fixed3 { x: FIX_ONE, y: ((-FIX_ONE) as i64), z: 0 },
            ),
        );
        r.push(InputBinding::with_direction(self.south, Fixed3 { x: 0, y: ((-FIX_ONE) as i64), z: 0 }));
        r.push(
            InputBinding::with_direction(
                self.south_west,
                Fixed3 { x: ((-FIX_ONE) as i64), y: ((-FIX_ONE) as i64), z: 0 },
            ),
        );
        r.push(InputBinding::with_direction(self.west, Fixed3 { x: ((-FIX_ONE) as i64), y: 0, z: 0 }));
        r.push(
            InputBinding::with_direction(
                self.north_west,
                Fixed3 { x: ((-FIX_ONE) as i64), y: FIX_ONE, z: 0 },
            ),
        );
        proof {
            assert(r@ =~= seq![
                (InputBinding { input: self.north, direction: Fixed3 { x: 0, y: FIX_ONE, z: 0 } }),
                (InputBinding {
                    input: self.north_east,
                    direction: Fixed3 { x: FIX_ONE, y: FIX_ONE, z: 0 },
                }),
                (InputBinding { input: self.east, direction: Fixed3 { x: FIX_ONE, y: 0, z: 0 } }),
                (InputBinding {
                    input: self.south_east,
                    direction: Fixed3 { x: FIX_ONE, y: ((-FIX_ONE) as i64), z: 0 },
                }),
                (InputBinding {
                    input: self.south,
                    direction: Fixed3 { x: 0, y: ((-FIX_ONE) as i64), z: 0 },
                }),
                (InputBinding {
                    input: self.south_west,
                    direction: Fixed3 { x: ((-FIX_ONE) as i64), y: ((-FIX_ONE) as i64), z: 0 },
                }),
                (InputBinding { input: self.west, direction: Fixed3 { x: ((-FIX_ONE) as i64), y: 0, z: 0 } }),
                (InputBinding {
                    input: self.north_west,
                    direction: Fixed3 { x: ((-FIX_ONE) as i64), y: FIX_ONE, z: 0 },
                }),
            ]);
        }
        r
    }
}

} // verus!
