//! The per-frame evaluation pass over a context's bindings.
//!
//! All bindings are evaluated once per frame in declaration order. The pass
//! builds the action map incrementally: a chord condition of a later binding
//! reads the state an earlier binding already published this frame, so a
//! forward reference degrades to idle instead of deferring. The pass never
//! aborts: a missing chord dependency is reported as a diagnostic and
//! evaluation of every other binding continues.

use vstd::prelude::*;
use crate::action::{Action, ActionMap};
use crate::binding::{ActionBinding, BindingModel};
use crate::condition::spec_missing_chords;
use crate::fixed::FIX_MAX;
use crate::keys::GamepadDevice;
use crate::snapshot::Snapshot;

verus! {

/// The models of a sequence of bindings.
pub open spec fn spec_bindings_view(bs: Seq<ActionBinding>) -> Seq<BindingModel> {
    bs.map_values(|b: ActionBinding| b@)
}

/// What one pass computes from the bindings in order, starting from the
/// accumulated action map and diagnostics: the advanced bindings, the map
/// extended by each binding's published action in declaration order, and
/// the identities of all missing chord dependencies.
pub open spec fn spec_eval_pass(
    bs: Seq<BindingModel>,
    device: GamepadDevice,
    snap: Snapshot,
    delta: int,
    map0: Seq<(u64, Action)>,
    missing0: Seq<u64>,
) -> (Seq<BindingModel>, Seq<(u64, Action)>, Seq<u64>)
    decreases bs.len(),
{
    if bs.len() == 0 {
        (bs, map0, missing0)
    } else {
        let stepped = bs[0].spec_step(device, snap, map0, delta);
        let map1 = map0.push((stepped.action, stepped.current));
        let missing1 = missing0 + spec_missing_chords(bs[0].conditions, map0);
        let rest = spec_eval_pass(bs.skip(1), device, snap, delta, map1, missing1);
        (seq![stepped] + rest.0, rest.1, rest.2)
    }
}

/// What one frame publishes: the per-action states in evaluation order and
/// the identities of the missing chord dependencies, one per reference.
pub struct FrameOutput {
    /// The map from action identity to its published state and value.
    pub actions: ActionMap,
    /// One entry per chord reference whose dependency was absent.
    pub missing: Vec<u64>,
}

/// A context: the bindings active under one application grouping, evaluated
/// in declaration order against one selected gamepad device.
#[derive(Clone, Debug, PartialEq, Eq)]
pub struct Context {
    /// Which gamepad the context's bindings listen to.
    pub gamepad: GamepadDevice,
    /// The bindings in declaration order.
    pub bindings: Vec<ActionBinding>,
}

impl Context {
    /// Every binding of the context is well formed.
    pub open spec fn wf(self) -> bool {
        forall|i: int| 0 <= i < self.bindings@.len() ==> (#[trigger] self.bindings@[i])@.wf()
    }

    /// A context with no bindings, listening to the given gamepad device.
    pub fn new(gamepad: GamepadDevice) -> (r: Context)
        ensures
            r.gamepad == gamepad,
            r.bindings@.len() == 0,
            r.wf(),
    {
        Context { gamepad, bindings: Vec::new() }
    }

    /// Appends a binding; it will be evaluated after all earlier ones.
    pub fn bind(&mut self, binding: ActionBinding)
        requires
            binding@.wf(),
        ensures
            final(self).bindings@ == old(self).bindings@.push(binding),
            final(self).gamepad == old(self).gamepad,
            old(self).wf() ==> final(self).wf(),
    {
        self.bindings.push(binding);
    }

    /// Evaluates every binding once against the snapshot, in declaration
    /// order, threading the action map so that chords read the states
    /// already computed this pass. Returns the published actions and the
    /// identities of all missing chord dependencies.
    pub fn evaluate(&mut self, snap: &Snapshot, delta: i64) -> (out: FrameOutput)
        requires
            old(self).wf(),
            snap.wf(),
            0 <= delta <= FIX_MAX,
        ensures
            ({
                let r = spec_eval_pass(
                    spec_bindings_view(old(self).bindings@),
                    old(self).gamepad,
                    *snap,
                    delta as int,
                    Seq::<(u64, Action)>::empty(),
                    Seq::<u64>::empty(),
                );
                &&& spec_bindings_view(final(self).bindings@) == r.0
                &&& out.actions@ == r.1
                &&& out.missing@ == r.2
            }),
            final(self).gamepad == old(self).gamepad,
            final(self).wf(),
    {
        let ghost device = self.gamepad;
        let ghost full = spec_eval_pass(
            spec_bindings_view(self.bindings@),
            self.gamepad,
            *snap,
            delta as int,
            Seq::<(u64, Action)>::empty(),
            Seq::<u64>::empty(),
        );
        let mut processed: Vec<ActionBinding> = Vec::new();
        let mut map = ActionMap::new();
        let mut missing: Vec<u64> = Vec::new();
        proof {
            assert(map@ =~= Seq::<(u64, Action)>::empty());
            assert(missing@ =~= Seq::<u64>::empty());
            assert(spec_bindings_view(processed@) + spec_eval_pass(
                spec_bindings_view(self.bindings@),
                device,
                *snap,
                delta as int,
                map@,
                missing@,
            ).0 =~= full.0);
        }
        while self.bindings.len() > 0
            invariant
                snap.wf(),
                0 <= delta <= FIX_MAX,
                self.gamepad == device,
                self.wf(),
                forall|i: int| 0 <= i < processed@.len() ==> (#[trigger] processed@[i])@.wf(),
                full == ({
                    let rest = spec_eval_pass(
                        spec_bindings_view(self.bindings@),
                        device,
                        *snap,
                        delta as int,
                        map@,
                        missing@,
                    );
                    (spec_bindings_view(processed@) + rest.0, rest.1, rest.2)
                }),
            decreases self.bindings@.len(),
        {
            let ghost bs_pre = self.bindings@;
            let ghost map_pre = map@;
            let ghost missing_pre = missing@;
            let mut b = self.bindings.remove(0);
            proof {
                assert(self.bindings@ =~= bs_pre.skip(1));
                assert(spec_bindings_view(bs_pre)[0] == bs_pre[0]@);
                assert(spec_bindings_view(self.bindings@) =~= spec_bindings_view(bs_pre).skip(1));
            }
            b.evaluate(self.gamepad, snap, &map, delta, &mut missing);
            map.insert(b.action, b.current);
            processed.push(b);
            proof {
                let stepped = bs_pre[0]@.spec_step(device, *snap, map_pre, delta as int);
                assert(b@ == stepped);
                assert(map@ =~= map_pre.push((stepped.action, stepped.current)));
                assert(missing@ =~= missing_pre + spec_missing_chords(
                    bs_pre[0]@.conditions,
                    map_pre,
                ));
                assert(spec_bindings_view(processed@) =~= spec_bindings_view(
                    processed@.drop_last(),
                ) + seq![stepped]);
                let rest = spec_eval_pass(
                    spec_bindings_view(self.bindings@),
                    device,
                    *snap,
                    delta as int,
                    map@,
                    missing@,
                );
                assert(spec_bindings_view(processed@.drop_last()) + (seq![stepped] + rest.0)
                    =~= spec_bindings_view(processed@) + rest.0);
            }
        }
        proof {
            assert(spec_eval_pass(
                spec_bindings_view(self.bindings@),
                device,
                *snap,
                delta as int,
                map@,
                missing@,
            ).0 =~= Seq::<BindingModel>::empty());
            assert(spec_bindings_view(processed@) + Seq::<BindingModel>::empty()
                =~= spec_bindings_view(processed@));
        }
        self.bindings = processed;
        FrameOutput { actions: map, missing }
    }
}

/// Every binding model of the sequence is well formed.
pub open spec fn models_wf(bs: Seq<BindingModel>) -> bool {
    forall|i: int| 0 <= i < bs.len() ==> (#[trigger] bs[i]).wf()
}

/// With no time advance, one pass from any shared accumulators is
/// idempotent: running the pass again on its own output, against the same
/// snapshot, reproduces the bindings, the published map and the
/// diagnostics exactly.
proof fn lemma_pass_idempotent(
    bs: Seq<BindingModel>,
    device: GamepadDevice,
    snap: Snapshot,
    map0: Seq<(u64, Action)>,
    missing0: Seq<u64>,
)
    requires
        models_wf(bs),
    ensures
        ({
            let r1 = spec_eval_pass(bs, device, snap, 0, map0, missing0);
            &&& spec_eval_pass(r1.0, device, snap, 0, map0, missing0) == r1
            &&& models_wf(r1.0)
        }),
    decreases bs.len(),
{
    let r1 = spec_eval_pass(bs, device, snap, 0, map0, missing0);
    if bs.len() == 0 {
        assert(r1.0.len() == 0);
    } else {
        let stepped = bs[0].spec_step(device, snap, map0, 0);
        crate::binding::lemma_step_idempotent(bs[0], device, snap, map0);
        let map1 = map0.push((stepped.action, stepped.current));
        let missing1 = missing0 + spec_missing_chords(bs[0].conditions, map0);
        let rest = spec_eval_pass(bs.skip(1), device, snap, 0, map1, missing1);
        assert(models_wf(bs.skip(1)));
        lemma_pass_idempotent(bs.skip(1), device, snap, map1, missing1);
        assert(r1.0 == seq![stepped] + rest.0);
        assert(r1.0[0] == stepped);
        assert(r1.0.len() > 0);
        assert(r1.0.skip(1) =~= rest.0);
        let stepped2 = r1.0[0].spec_step(device, snap, map0, 0);
        assert(stepped2 == stepped);
        assert(spec_missing_chords(r1.0[0].conditions, map0) == spec_missing_chords(
            bs[0].conditions,
            map0,
        ));
        let rest2 = spec_eval_pass(r1.0.skip(1), device, snap, 0, map1, missing1);
        assert(rest2 == rest);
        assert(spec_eval_pass(r1.0, device, snap, 0, map0, missing0) == (
            seq![stepped2] + rest2.0,
            rest2.1,
            rest2.2,
        ));
        assert(models_wf(r1.0)) by {
            assert(forall|i: int|
                0 <= i < rest.0.len() ==> r1.0[i + 1] == (#[trigger] rest.0[i]));
        }
    }
}

/// Law: evaluation is idempotent under an unchanged snapshot with no time
/// advance. Running a second pass on the bindings a first pass produced,
/// against the same device snapshot and zero elapsed time, publishes the
/// identical value and state for every action, emits the identical
/// diagnostics, and leaves every binding (timers included) exactly as the
/// first pass left it.
pub proof fn lemma_evaluate_idempotent(bs: Seq<BindingModel>, device: GamepadDevice, snap: Snapshot)
    requires
        models_wf(bs),
    ensures
        ({
            let r1 = spec_eval_pass(
                bs,
                device,
                snap,
                0,
                Seq::<(u64, Action)>::empty(),
                Seq::<u64>::empty(),
            );
            spec_eval_pass(
                r1.0,
                device,
                snap,
                0,
                Seq::<(u64, Action)>::empty(),
                Seq::<u64>::empty(),
            ) == r1
        }),
{
    lemma_pass_idempotent(
        bs,
        device,
        snap,
        Seq::<(u64, Action)>::empty(),
        Seq::<u64>::empty(),
    );
}

} // verus!
