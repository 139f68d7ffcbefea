//! The closed set of keyboard modifiers: Control, Shift, Alt and Super.
//!
//! Each logical modifier is representable by two physical keys (the left and
//! right variants are equivalent). The set is a plain immutable value with
//! bitwise-style operations; its display lists the active modifiers in the
//! fixed order Control, Shift, Alt, Super joined by `" + "`.

use vstd::prelude::*;
use crate::keys::Key;

verus! {

/// A set of logical keyboard modifiers.
#[derive(Clone, Copy, Debug, PartialEq, Eq, Structural)]
pub struct ModKeys {
    pub control: bool,
    pub shift: bool,
    pub alt: bool,
    pub super_key: bool,
}

/// Whether `k` occurs in the held-key sequence `keys`.
pub open spec fn key_held(keys: Seq<Key>, k: Key) -> bool {
    exists|i: int| 0 <= i < keys.len() && keys[i] == k
}

/// The modifier set active in `keys`: a bit is set exactly when either
/// physical key of its pair is held.
pub open spec fn spec_pressed(keys: Seq<Key>) -> ModKeys {
    ModKeys {
        control: key_held(keys, Key::ControlLeft) || key_held(keys, Key::ControlRight),
        shift: key_held(keys, Key::ShiftLeft) || key_held(keys, Key::ShiftRight),
        alt: key_held(keys, Key::AltLeft) || key_held(keys, Key::AltRight),
        super_key: key_held(keys, Key::SuperLeft) || key_held(keys, Key::SuperRight),
    }
}

/// The logical modifier a single key maps to: one bit for a modifier key,
/// the empty set for any other key.
pub open spec fn spec_from_key(k: Key) -> ModKeys {
    match k {
        Key::ControlLeft | Key::ControlRight => ModKeys {
            control: true,
            shift: false,
            alt: false,
            super_key: false,
        },
        Key::ShiftLeft | Key::ShiftRight => ModKeys {
            control: false,
            shift: true,
            alt: false,
            super_key: false,
        },
        Key::AltLeft | Key::AltRight => ModKeys {
            control: false,
            shift: false,
            alt: true,
            super_key: false,
        },
        Key::SuperLeft | Key::SuperRight => ModKeys {
            control: false,
            shift: false,
            alt: false,
            super_key: true,
        },
        _ => ModKeys { control: false, shift: false, alt: false, super_key: false },
    }
}

/// Whether `keys` contains the key `k`.
pub fn contains_key(keys: &Vec<Key>, k: Key) -> (b: bool)
    ensures
        b == key_held(keys@, k),
{
    let mut i: usize = 0;
    while i < keys.len()
        invariant
            0 <= i <= keys.len(),
            forall|j: int| 0 <= j < i ==> keys@[j] != k,
        decreases keys.len() - i,
    {
        if keys[i] == k {
            return true;
        }
        i = i + 1;
    }
    false
}

impl ModKeys {
    /// The set with no modifiers.
    pub fn empty() -> (r: ModKeys)
        ensures
            r == (ModKeys { control: false, shift: false, alt: false, super_key: false }),
    {
        ModKeys { control: false, shift: false, alt: false, super_key: false }
    }

    /// The set with all four modifiers.
    pub fn all() -> (r: ModKeys)
        ensures
            r == (ModKeys { control: true, shift: true, alt: true, super_key: true }),
    {
        ModKeys { control: true, shift: true, alt: true, super_key: true }
    }

    /// The set with only the Control bit.
    pub fn control() -> (r: ModKeys)
        ensures
            r == (ModKeys { control: true, shift: false, alt: false, super_key: false }),
    {
        ModKeys { control: true, shift: false, alt: false, super_key: false }
    }

    /// The set with only the Shift bit.
    pub fn shift() -> (r: ModKeys)
        ensures
            r == (ModKeys { control: false, shift: true, alt: false, super_key: false }),
    {
        ModKeys { control: false, shift: true, alt: false, super_key: false }
    }

    /// The set with only the Alt bit.
    pub fn alt() -> (r: ModKeys)
        ensures
            r == (ModKeys { control: false, shift: false, alt: true, super_key: false }),
    {
        ModKeys { control: false, shift: false, alt: true, super_key: false }
    }

    /// The set with only the Super bit.
    pub fn super_key() -> (r: ModKeys)
        ensures
            r == (ModKeys { control: false, shift: false, alt: false, super_key: true }),
    {
        ModKeys { control: false, shift: false, alt: false, super_key: true }
    }

    /// Whether no modifier is set.
    pub open spec fn spec_is_empty(self) -> bool {
        !self.control && !self.shift && !self.alt && !self.super_key
    }

    /// Returns whether no modifier is set.
    pub fn is_empty(&self) -> (b: bool)
        ensures
            b == self.spec_is_empty(),
    {
        !self.control && !self.shift && !self.alt && !self.super_key
    }

    /// The bitwise union of two sets.
    pub fn union(self, other: ModKeys) -> (r: ModKeys)
        ensures
            r == (ModKeys {
                control: self.control || other.control,
                shift: self.shift || other.shift,
                alt: self.alt || other.alt,
                super_key: self.super_key || other.super_key,
            }),
    {
        ModKeys {
            control: self.control || other.control,
            shift: self.shift || other.shift,
            alt: self.alt || other.alt,
            super_key: self.super_key || other.super_key,
        }
    }

    /// The number of set modifiers.
    pub open spec fn spec_count(self) -> int {
        (if self.control {
            1int
        } else {
            0int
        }) + (if self.shift {
            1int
        } else {
            0int
        }) + (if self.alt {
            1int
        } else {
            0int
        }) + (if self.super_key {
            1int
        } else {
            0int
        })
    }

    /// Returns the number of set modifiers.
    pub fn count(&self) -> (n: usize)
        ensures
            n as int == self.spec_count(),
    {
        let mut n: usize = 0;
        if self.control {
            n = n + 1;
        }
        if self.shift {
            n = n + 1;
        }
        if self.alt {
            n = n + 1;
        }
        if self.super_key {
            n = n + 1;
        }
        n
    }

    /// Returns an instance with the modifiers currently active in `keys`: a
    /// bit is set exactly when either physical key of its pair is held.
    pub fn pressed(keys: &Vec<Key>) -> (r: ModKeys)
        ensures
            r == spec_pressed(keys@),
    {
        ModKeys {
            control: contains_key(keys, Key::ControlLeft) || contains_key(
                keys,
                Key::ControlRight,
            ),
            shift: contains_key(keys, Key::ShiftLeft) || contains_key(keys, Key::ShiftRight),
            alt: contains_key(keys, Key::AltLeft) || contains_key(keys, Key::AltRight),
            super_key: contains_key(keys, Key::SuperLeft) || contains_key(keys, Key::SuperRight),
        }
    }

    /// The physical key pairs of the set modifiers, in the fixed order
    /// Control, Shift, Alt, Super.
    pub open spec fn spec_iter_keys(self) -> Seq<(Key, Key)> {
        (if self.control {
            seq![(Key::ControlLeft, Key::ControlRight)]
        } else {
            Seq::<(Key, Key)>::empty()
        }) + (if self.shift {
            seq![(Key::ShiftLeft, Key::ShiftRight)]
        } else {
            Seq::<(Key, Key)>::empty()
        }) + (if self.alt {
            seq![(Key::AltLeft, Key::AltRight)]
        } else {
            Seq::<(Key, Key)>::empty()
        }) + (if self.super_key {
            seq![(Key::SuperLeft, Key::SuperRight)]
        } else {
            Seq::<(Key, Key)>::empty()
        })
    }

    /// Returns the left and right physical keys of each set modifier, in the
    /// fixed order Control, Shift, Alt, Super.
    pub fn iter_keys(self) -> (r: Vec<(Key, Key)>)
        ensures
            r@ == self.spec_iter_keys(),
    {
        let mut r: Vec<(Key, Key)> = Vec::new();
        if self.control {
            r.push((Key::ControlLeft, Key::ControlRight));
        }
        if self.shift {
            r.push((Key::ShiftLeft, Key::ShiftRight));
        }
        if self.alt {
            r.push((Key::AltLeft, Key::AltRight));
        }
        if self.super_key {
            r.push((Key::SuperLeft, Key::SuperRight));
        }
        proof {
            assert(r@ =~= self.spec_iter_keys());
        }
        r
    }

    /// The display text: the names of the set modifiers in the fixed order
    /// Control, Shift, Alt, Super, joined by `" + "`; empty for the empty
    /// set.
    pub open spec fn spec_display(self) -> Seq<char> {
        let s1 = if self.control {
            "Ctrl"@
        } else {
            Seq::<char>::empty()
        };
        let s2 = if self.shift {
            s1 + spec_sep(s1) + "Shift"@
        } else {
            s1
        };
        let s3 = if self.alt {
            s2 + spec_sep(s2) + "Alt"@
        } else {
            s2
        };
        if self.super_key {
            s3 + spec_sep(s3) + "Super"@
        } else {
            s3
        }
    }

    /// Renders the set as text.
    pub fn to_display(&self) -> (r: String)
        ensures
            r@ == self.spec_display(),
    {
        let mut s = String::new();
        if self.control {
            s.append("Ctrl");
        }
        if self.shift {
            if !s.as_str().is_empty() {
                s.append(" + ");
            }
            s.append("Shift");
        }
        if self.alt {
            if !s.as_str().is_empty() {
                s.append(" + ");
            }
            s.append("Alt");
        }
        if self.super_key {
            if !s.as_str().is_empty() {
                s.append(" + ");
            }
            s.append("Super");
        }
        proof {
            reveal_strlit("Ctrl");
            reveal_strlit("Shift");
            reveal_strlit("Alt");
            reveal_strlit("Super");
            reveal_strlit(" + ");
            reveal_strlit("");
        }
        s
    }
}

/// The separator to place before the next name: empty while nothing has been
/// rendered yet, `" + "` afterwards.
pub open spec fn spec_sep(so_far: Seq<char>) -> Seq<char> {
    if so_far.len() == 0 {
        Seq::<char>::empty()
    } else {
        " + "@
    }
}

impl From<Key> for ModKeys {
    /// Converts a key into its named modifier; a key that is not a modifier
    /// yields the empty set.
    fn from(key: Key) -> (r: ModKeys) {
        match key {
            Key::ControlLeft | Key::ControlRight => ModKeys::control(),
            Key::ShiftLeft | Key::ShiftRight => ModKeys::shift(),
            Key::AltLeft | Key::AltRight => ModKeys::alt(),
            Key::SuperLeft | Key::SuperRight => ModKeys::super_key(),
            _ => ModKeys::empty(),
        }
    }
}

impl vstd::std_specs::convert::FromSpecImpl<Key> for ModKeys {
    open spec fn obeys_from_spec() -> bool {
        true
    }

    open spec fn from_spec(key: Key) -> ModKeys {
        spec_from_key(key)
    }
}

/// The modifier set read from held keys depends only on which modifier pairs
/// have at least one of their two physical keys held: two snapshots that
/// agree on that, for every pair, yield the same set. In particular holding
/// the left key, the right key or both of one pair yields the same set.
pub proof fn lemma_pressed_depends_on_pairs(keys1: Seq<Key>, keys2: Seq<Key>)
    requires
        (key_held(keys1, Key::ControlLeft) || key_held(keys1, Key::ControlRight)) == (key_held(
            keys2,
            Key::ControlLeft,
        ) || key_held(keys2, Key::ControlRight)),
        (key_held(keys1, Key::ShiftLeft) || key_held(keys1, Key::ShiftRight)) == (key_held(
            keys2,
            Key::ShiftLeft,
        ) || key_held(keys2, Key::ShiftRight)),
        (key_held(keys1, Key::AltLeft) || key_held(keys1, Key::AltRight)) == (key_held(
            keys2,
            Key::AltLeft,
        ) || key_held(keys2, Key::AltRight)),
        (key_held(keys1, Key::SuperLeft) || key_held(keys1, Key::SuperRight)) == (key_held(
            keys2,
            Key::SuperLeft,
        ) || key_held(keys2, Key::SuperRight)),
    ensures
        spec_pressed(keys1) == spec_pressed(keys2),
{
}

} // verus!
