//! The per-frame snapshot of raw device state: held keys and mouse buttons,
//! mouse motion and wheel movement, and the analog state of every connected
//! gamepad.
//!
//! The host layer fills a snapshot from its device backend before each
//! frame; the evaluation pass only reads it. All analog values are
//! fixed-point thousandths.

use vstd::prelude::*;
use crate::fixed::{add_fix, fix_add, fix_in_range, Fixed2};
use crate::keys::{GamepadAxis, GamepadButton, GamepadDevice, Key, MouseButton};

verus! {

/// The analog state of one connected gamepad.
#[derive(Clone, Debug, PartialEq, Eq)]
pub struct GamepadState {
    /// The identity of this gamepad.
    pub id: u64,
    /// The analog value of each button that is away from rest; a button
    /// missing from the list is at rest.
    pub buttons: Vec<(GamepadButton, i64)>,
    /// The value of each axis that is away from rest; an axis missing from
    /// the list is at rest.
    pub axes: Vec<(GamepadAxis, i64)>,
}

/// The value recorded for button `b`: the first entry's value, zero when
/// absent.
pub open spec fn spec_button_entry(entries: Seq<(GamepadButton, i64)>, b: GamepadButton) -> int
    decreases entries.len(),
{
    if entries.len() == 0 {
        0
    } else if entries[0].0 == b {
        entries[0].1 as int
    } else {
        spec_button_entry(entries.skip(1), b)
    }
}

/// The value recorded for axis `a`: the first entry's value, zero when
/// absent.
pub open spec fn spec_axis_entry(entries: Seq<(GamepadAxis, i64)>, a: GamepadAxis) -> int
    decreases entries.len(),
{
    if entries.len() == 0 {
        0
    } else if entries[0].0 == a {
        entries[0].1 as int
    } else {
        spec_axis_entry(entries.skip(1), a)
    }
}

impl GamepadState {
    /// All analog values are representable.
    pub open spec fn wf(self) -> bool {
        (forall|i: int|
            0 <= i < self.buttons@.len() ==> fix_in_range((#[trigger] self.buttons@[i]).1 as int))
            && (forall|i: int|
            0 <= i < self.axes@.len() ==> fix_in_range((#[trigger] self.axes@[i]).1 as int))
    }

    /// A connected gamepad with everything at rest.
    pub fn new(id: u64) -> (r: GamepadState)
        ensures
            r.id == id,
            r.buttons@.len() == 0,
            r.axes@.len() == 0,
            r.wf(),
    {
        GamepadState { id, buttons: Vec::new(), axes: Vec::new() }
    }

    /// Returns the analog value of button `b`, zero when at rest.
    pub fn button_value(&self, b: GamepadButton) -> (r: i64)
        ensures
            r as int == spec_button_entry(self.buttons@, b),
    {
        let mut i: usize = 0;
        proof {
            assert(self.buttons@.skip(0) =~= self.buttons@);
        }
        while i < self.buttons.len()
            invariant
                0 <= i <= self.buttons@.len(),
                spec_button_entry(self.buttons@.skip(i as int), b) == spec_button_entry(
                    self.buttons@,
                    b,
                ),
            decreases self.buttons@.len() - i,
        {
            proof {
                assert(self.buttons@.skip(i as int)[0] == self.buttons@[i as int]);
                assert(self.buttons@.skip(i as int).skip(1) =~= self.buttons@.skip(i as int + 1));
            }
            let entry = self.buttons[i];
            if entry.0 == b {
                return entry.1;
            }
            i = i + 1;
        }
        0
    }

    /// Returns the value of axis `a`, zero when at rest.
    pub fn axis_value(&self, a: GamepadAxis) -> (r: i64)
        ensures
            r as int == spec_axis_entry(self.axes@, a),
    {
        let mut i: usize = 0;
        proof {
            assert(self.axes@.skip(0) =~= self.axes@);
        }
        while i < self.axes.len()
            invariant
                0 <= i <= self.axes@.len(),
                spec_axis_entry(self.axes@.skip(i as int), a) == spec_axis_entry(self.axes@, a),
            decreases self.axes@.len() - i,
        {
            proof {
                assert(self.axes@.skip(i as int)[0] == self.axes@[i as int]);
                assert(self.axes@.skip(i as int).skip(1) =~= self.axes@.skip(i as int + 1));
            }
            let entry = self.axes[i];
            if entry.0 == a {
                return entry.1;
            }
            i = i + 1;
        }
        0
    }
}

/// The raw device state of one frame.
#[derive(Clone, Debug, PartialEq, Eq)]
pub struct Snapshot {
    /// The keys currently held.
    pub keys: Vec<Key>,
    /// The mouse buttons currently held.
    pub mouse_buttons: Vec<MouseButton>,
    /// Mouse movement this frame, in fixed-point units per axis.
    pub mouse_motion: Fixed2,
    /// Scroll wheel movement this frame, in fixed-point units per axis.
    pub mouse_wheel: Fixed2,
    /// The connected gamepads.
    pub gamepads: Vec<GamepadState>,
}

/// Whether one gamepad reads button `b` away from rest.
pub open spec fn spec_reads_button(g: GamepadState, b: GamepadButton) -> bool {
    spec_button_entry(g.buttons@, b) != 0
}

/// Whether gamepad `device` reads button `b` as pressed in `gamepads`: for
/// the any-gamepad device a logical or across all connected gamepads, for a
/// single device that gamepad's reading (an absent gamepad reads nothing).
pub open spec fn spec_gamepad_button_pressed(
    gamepads: Seq<GamepadState>,
    device: GamepadDevice,
    b: GamepadButton,
) -> bool {
    match device {
        GamepadDevice::Any => exists|i: int|
            0 <= i < gamepads.len() && spec_reads_button(#[trigger] gamepads[i], b),
        GamepadDevice::Single(id) => match spec_find_gamepad(gamepads, id) {
            Option::Some(g) => spec_button_entry(g.buttons@, b) != 0,
            Option::None => false,
        },
    }
}

/// The first connected gamepad with identity `id`.
pub open spec fn spec_find_gamepad(gamepads: Seq<GamepadState>, id: u64) -> Option<GamepadState>
    decreases gamepads.len(),
{
    if gamepads.len() == 0 {
        Option::None
    } else if gamepads[0].id == id {
        Option::Some(gamepads[0])
    } else {
        spec_find_gamepad(gamepads.skip(1), id)
    }
}

/// The axis reading of gamepad `device`: for the any-gamepad device the
/// saturating sum across all connected gamepads in connection order, for a
/// single device that gamepad's value (zero when absent).
pub open spec fn spec_gamepad_axis_value(
    gamepads: Seq<GamepadState>,
    device: GamepadDevice,
    a: GamepadAxis,
) -> int {
    match device {
        GamepadDevice::Any => spec_axis_sum(gamepads, a),
        GamepadDevice::Single(id) => match spec_find_gamepad(gamepads, id) {
            Option::Some(g) => spec_axis_entry(g.axes@, a),
            Option::None => 0,
        },
    }
}

/// The saturating sum of axis `a` across the gamepads, accumulated in
/// connection order.
pub open spec fn spec_axis_sum(gamepads: Seq<GamepadState>, a: GamepadAxis) -> int
    decreases gamepads.len(),
{
    if gamepads.len() == 0 {
        0
    } else {
        fix_add(spec_axis_sum(gamepads.drop_last(), a), spec_axis_entry(gamepads.last().axes@, a))
    }
}

impl Snapshot {
    /// All analog values of the snapshot are representable.
    pub open spec fn wf(self) -> bool {
        self.mouse_motion.wf() && self.mouse_wheel.wf()
            && (forall|i: int| 0 <= i < self.gamepads@.len() ==> (#[trigger] self.gamepads@[i]).wf())
    }

    /// An empty snapshot: nothing held, nothing moved, no gamepad connected.
    pub fn new() -> (r: Snapshot)
        ensures
            r.keys@.len() == 0,
            r.mouse_buttons@.len() == 0,
            r.mouse_motion == (Fixed2 { x: 0, y: 0 }),
            r.mouse_wheel == (Fixed2 { x: 0, y: 0 }),
            r.gamepads@.len() == 0,
            r.wf(),
    {
        Snapshot {
            keys: Vec::new(),
            mouse_buttons: Vec::new(),
            mouse_motion: Fixed2::zero(),
            mouse_wheel: Fixed2::zero(),
            gamepads: Vec::new(),
        }
    }

    /// Returns whether gamepad `device` reads button `b` as pressed.
    pub fn gamepad_button_pressed(&self, device: GamepadDevice, b: GamepadButton) -> (r: bool)
        ensures
            r == spec_gamepad_button_pressed(self.gamepads@, device, b),
    {
        match device {
            GamepadDevice::Any => {
                let mut i: usize = 0;
                while i < self.gamepads.len()
                    invariant
                        device == GamepadDevice::Any,
                        0 <= i <= self.gamepads@.len(),
                        forall|j: int| 0 <= j < i ==> !spec_reads_button(#[trigger] self.gamepads@[j], b),
                    decreases self.gamepads@.len() - i,
                {
                    if self.gamepads[i].button_value(b) != 0 {
                        proof {
                            assert(spec_reads_button(self.gamepads@[i as int], b));
                        }
                        return true;
                    }
                    i = i + 1;
                }
                false
            },
            GamepadDevice::Single(id) => {
                match self.find_gamepad(id) {
                    Option::Some(g) => g.button_value(b) != 0,
                    Option::None => false,
                }
            },
        }
    }

    /// Returns the axis reading of gamepad `device` for axis `a`.
    pub fn gamepad_axis_value(&self, device: GamepadDevice, a: GamepadAxis) -> (r: i64)
        requires
            self.wf(),
        ensures
            r as int == spec_gamepad_axis_value(self.gamepads@, device, a),
            fix_in_range(r as int),
    {
        match device {
            GamepadDevice::Any => {
                let mut acc: i64 = 0;
                let mut i: usize = 0;
                while i < self.gamepads.len()
                    invariant
                        0 <= i <= self.gamepads@.len(),
                        self.wf(),
                        acc as int == spec_axis_sum(self.gamepads@.take(i as int), a),
                        fix_in_range(acc as int),
                    decreases self.gamepads@.len() - i,
                {
                    proof {
                        assert(self.gamepads@.take(i as int + 1).drop_last() =~= self.gamepads@
                            .take(i as int));
                        assert(self.gamepads@.take(i as int + 1).last() == self.gamepads@[
                            i as int]);
                        lemma_axis_entry_in_range(self.gamepads@[i as int].axes@, a);
                    }
                    let v = self.gamepads[i].axis_value(a);
                    acc = add_fix(acc, v);
                    i = i + 1;
                }
                proof {
                    assert(self.gamepads@.take(self.gamepads@.len() as int) =~= self.gamepads@);
                }
                acc
            },
            GamepadDevice::Single(id) => {
                match self.find_gamepad(id) {
                    Option::Some(g) => {
                        proof {
                            lemma_find_gamepad_wf(self.gamepads@, id);
                            lemma_axis_entry_in_range(g.axes@, a);
                        }
                        g.axis_value(a)
                    },
                    Option::None => 0,
                }
            },
        }
    }

    /// Returns the first connected gamepad with identity `id`.
    fn find_gamepad(&self, id: u64) -> (r: Option<&GamepadState>)
        ensures
            match r {
                Option::Some(g) => spec_find_gamepad(self.gamepads@, id) == Option::Some(*g),
                Option::None => spec_find_gamepad(self.gamepads@, id) is None,
            },
    {
        let mut i: usize = 0;
        proof {
            assert(self.gamepads@.skip(0) =~= self.gamepads@);
        }
        while i < self.gamepads.len()
            invariant
                0 <= i <= self.gamepads@.len(),
                spec_find_gamepad(self.gamepads@.skip(i as int), id) == spec_find_gamepad(
                    self.gamepads@,
                    id,
                ),
            decreases self.gamepads@.len() - i,
        {
            proof {
                assert(self.gamepads@.skip(i as int)[0] == self.gamepads@[i as int]);
                assert(self.gamepads@.skip(i as int).skip(1) =~= self.gamepads@.skip(i as int + 1));
            }
            if self.gamepads[i].id == id {
                return Option::Some(&self.gamepads[i]);
            }
            i = i + 1;
        }
        Option::None
    }
}

/// The recorded value of any axis of a well-formed gamepad is representable.
proof fn lemma_axis_entry_in_range(entries: Seq<(GamepadAxis, i64)>, a: GamepadAxis)
    requires
        forall|i: int| 0 <= i < entries.len() ==> fix_in_range((#[trigger] entries[i]).1 as int),
    ensures
        fix_in_range(spec_axis_entry(entries, a)),
    decreases entries.len(),
{
    if entries.len() > 0 && entries[0].0 != a {
        lemma_axis_entry_in_range(entries.skip(1), a);
    }
}

/// A gamepad found among well-formed gamepads is well formed.
proof fn lemma_find_gamepad_wf(gamepads: Seq<GamepadState>, id: u64)
    requires
        forall|i: int| 0 <= i < gamepads.len() ==> (#[trigger] gamepads[i]).wf(),
    ensures
        match spec_find_gamepad(gamepads, id) {
            Option::Some(g) => g.wf(),
            Option::None => true,
        },
    decreases gamepads.len(),
{
    if gamepads.len() > 0 && gamepads[0].id != id {
        lemma_find_gamepad_wf(gamepads.skip(1), id);
    }
}

} // verus!
