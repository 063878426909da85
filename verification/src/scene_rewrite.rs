//! The scene material rewrite step.
//!
//! Each loaded scene root starts pending. Once per tick, while the root is
//! pending, the step asks the host scene manager whether the instance is
//! ready — if so the pending tag is cleared — and, regardless of readiness,
//! swaps the default-material reference of every materialized child whose
//! material asset resolved this tick for a reference to the single shared
//! outline material. A child whose material is still streaming is skipped
//! and retried next tick. Once the tag is cleared the step is never invoked
//! again for that root.

use vstd::prelude::*;

verus! {

/// A renderable entity's material reference: either its original default
/// material asset, or the single shared outline material.
#[derive(Clone, Copy, PartialEq, Eq, Structural, Debug)]
pub enum MaterialRef {
    DefaultMaterial { asset: u32 },
    SharedOutline,
}

/// One loaded scene root: whether it still carries the pending tag, and the
/// material references of its currently materialized children. Children may
/// keep streaming in after the root itself reports ready.
#[derive(PartialEq, Eq, Debug)]
pub struct SceneRoot {
    pub pending: bool,
    pub children: Vec<MaterialRef>,
}

/// A child's reference after one tick: swapped for the shared material
/// exactly when it still referenced a default material and that material
/// resolved this tick.
pub open spec fn child_after(m: MaterialRef, resolved: bool) -> MaterialRef {
    if resolved && m is DefaultMaterial {
        MaterialRef::SharedOutline
    } else {
        m
    }
}

/// All children after one tick of swaps.
pub open spec fn children_after(cs: Seq<MaterialRef>, rs: Seq<bool>) -> Seq<MaterialRef>
    recommends
        rs.len() == cs.len(),
{
    Seq::new(cs.len(), |i: int| child_after(cs[i], rs[i]))
}

/// A whole root after one tick: a root no longer pending is left untouched
/// (the step is not invoked for it); a pending root keeps its tag unless the
/// instance is ready, and its children are swapped where resolution allows.
pub open spec fn root_after(
    pending: bool,
    cs: Seq<MaterialRef>,
    ready: bool,
    rs: Seq<bool>,
) -> (bool, Seq<MaterialRef>) {
    if pending {
        (!ready, children_after(cs, rs))
    } else {
        (pending, cs)
    }
}

/// One tick of the rewrite step on one scene root. `ready` is the scene
/// manager's readiness report for the root's instance; `resolves` reports,
/// child by child, whether the default material asset resolved this tick.
pub fn rewrite_step(root: &mut SceneRoot, ready: bool, resolves: &Vec<bool>)
    requires
        resolves@.len() == old(root).children@.len(),
    ensures
        final(root).pending == root_after(
            old(root).pending,
            old(root).children@,
            ready,
            resolves@,
        ).0,
        final(root).children@ == root_after(
            old(root).pending,
            old(root).children@,
            ready,
            resolves@,
        ).1,
        !old(root).pending ==> *final(root) == *old(root),
{
    if !root.pending {
        return ;
    }
    if ready {
        root.pending = false;
    }
    let n: usize = root.children.len();
    let mut i: usize = 0;
    while i < n
        invariant
            n == old(root).children@.len(),
            resolves@.len() == n,
            i <= n,
            root.children@.len() == n,
            root.pending == !ready,
            forall|j: int|
                0 <= j < i ==> root.children@[j] == child_after(
                    old(root).children@[j],
                    resolves@[j],
                ),
            forall|j: int| i <= j < n ==> root.children@[j] == old(root).children@[j],
        decreases n - i,
    {
        if resolves[i] {
            match root.children[i] {
                MaterialRef::DefaultMaterial { asset: _ } => {
                    root.children[i] = MaterialRef::SharedOutline;
                },
                MaterialRef::SharedOutline => {},
            }
        }
        i = i + 1;
    }
    assert(root.children@ =~= children_after(old(root).children@, resolves@));
}

/// A run of ticks: tick by tick, readiness report and per-child resolution
/// reports.
pub open spec fn root_after_run(
    pending: bool,
    cs: Seq<MaterialRef>,
    readies: Seq<bool>,
    resolves: Seq<Seq<bool>>,
) -> (bool, Seq<MaterialRef>)
    recommends
        readies.len() == resolves.len(),
    decreases readies.len(),
{
    if readies.len() == 0 {
        (pending, cs)
    } else {
        let first = root_after(pending, cs, readies[0], resolves[0]);
        root_after_run(
            first.0,
            first.1,
            readies.subrange(1, readies.len() as int),
            resolves.subrange(1, resolves.len() as int),
        )
    }
}

/// Law: the rewrite step is idempotent after completion. Once a root's
/// pending tag is gone, a further invocation is a no-op: no state changes,
/// whatever the tick reports.
pub proof fn lemma_rewrite_noop_after_clear(
    cs: Seq<MaterialRef>,
    ready: bool,
    rs: Seq<bool>,
)
    ensures
        root_after(false, cs, ready, rs) == (false, cs),
{
}

/// Law: a root whose instance is reported not ready keeps its pending tag,
/// while the tick still swaps every child whose default material resolved.
pub proof fn lemma_rewrite_not_ready_keeps_pending(cs: Seq<MaterialRef>, rs: Seq<bool>)
    ensures
        root_after(true, cs, false, rs).0,
        root_after(true, cs, false, rs).1 == children_after(cs, rs),
{
}

/// Law: for every run of ticks in which the scene manager reports the
/// instance ready exactly at the last tick, every child that is already on
/// the shared material, or whose default material resolves at some tick of
/// the run, ends on the shared material — and the pending tag ends cleared.
pub proof fn lemma_rewrite_completes(
    cs: Seq<MaterialRef>,
    readies: Seq<bool>,
    resolves: Seq<Seq<bool>>,
)
    requires
        readies.len() >= 1,
        resolves.len() == readies.len(),
        forall|t: int| 0 <= t < resolves.len() ==> (#[trigger] resolves[t]).len() == cs.len(),
        forall|t: int| 0 <= t < readies.len() - 1 ==> !(#[trigger] readies[t]),
        readies[readies.len() - 1],
        forall|i: int|
            0 <= i < cs.len() ==> cs[i] is SharedOutline || exists|t: int|
                0 <= t < resolves.len() && (#[trigger] resolves[t])[i],
    ensures
        !root_after_run(true, cs, readies, resolves).0,
        root_after_run(true, cs, readies, resolves).1.len() == cs.len(),
        forall|i: int|
            0 <= i < cs.len() ==> #[trigger] root_after_run(
                true,
                cs,
                readies,
                resolves,
            ).1[i] is SharedOutline,
    decreases readies.len(),
{
    let first = root_after(true, cs, readies[0], resolves[0]);
    let cs1 = children_after(cs, resolves[0]);
    assert(first.1 == cs1);
    if readies.len() == 1 {
        assert(!first.0);
        assert forall|i: int| 0 <= i < cs.len() implies #[trigger] cs1[i] is SharedOutline by {
            if !(cs[i] is SharedOutline) {
                let t = choose|t: int| 0 <= t < resolves.len() && (#[trigger] resolves[t])[i];
                assert(t == 0);
                assert(resolves[0][i]);
            }
        }
        let readies1 = readies.subrange(1, readies.len() as int);
        let resolves1 = resolves.subrange(1, resolves.len() as int);
        assert(readies1.len() == 0);
        assert(root_after_run(true, cs, readies, resolves) == root_after_run(
            first.0,
            first.1,
            readies1,
            resolves1,
        ));
        assert(root_after_run(first.0, first.1, readies1, resolves1).0 == first.0);
        assert(root_after_run(first.0, first.1, readies1, resolves1).1 == first.1);
    } else {
        let readies1 = readies.subrange(1, readies.len() as int);
        let resolves1 = resolves.subrange(1, resolves.len() as int);
        assert(!readies[0]);
        assert(first.0);
        assert forall|i: int|
            0 <= i < cs1.len() implies cs1[i] is SharedOutline || exists|t: int|
                0 <= t < resolves1.len() && (#[trigger] resolves1[t])[i] by {
            if !(cs1[i] is SharedOutline) {
                assert(!(cs[i] is SharedOutline));
                assert(!resolves[0][i]);
                let t = choose|t: int| 0 <= t < resolves.len() && (#[trigger] resolves[t])[i];
                assert(t >= 1);
                assert(resolves1[t - 1][i]);
            }
        }
        lemma_rewrite_completes(cs1, readies1, resolves1);
        assert(root_after_run(true, cs, readies, resolves) == root_after_run(
            first.0,
            first.1,
            readies1,
            resolves1,
        ));
    }
}

} // verus!
