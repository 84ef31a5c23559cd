//! Laws of the weak-reference discipline, proved over the heap model.
//!
//! Every state change an operation of this crate performs on a context `c`
//! shows up in its contract as a primitive move of `c@` — an allocation, an
//! `incref` or a `decref` (see [`crate::model::apply_action`]); dereferencing
//! a weak observer of slot `x` yields the identity `deref_id(x)` and performs
//! the move `incref(x)`.  The lemmas here therefore speak about arbitrary
//! runs of primitive moves, and through the operations' contracts they hold
//! of every execution built from this crate's functions.

use vstd::prelude::*;

use crate::model::{apply_action, HeapAction, HeapModel, PayloadModel};

verus! {

/// `tr` is a run of the runtime: each heap is reached from the one before
/// it by the corresponding primitive move of `acts`.
pub open spec fn heap_run(tr: Seq<HeapModel>, acts: Seq<HeapAction>) -> bool {
    &&& tr.len() == acts.len() + 1
    &&& forall|i: int| 0 <= i < acts.len() ==> tr[i + 1] == apply_action(tr[i], #[trigger] acts[i])
}

/// One move that is not a `decref` of `x` leaves a live `x` live: its count
/// can only stay or grow, and the sentinel slot never moves.
pub proof fn lemma_step_preserves_liveness(h: HeapModel, a: HeapAction, x: int)
    requires
        h.is_live(x),
        !(a matches HeapAction::Decref { id } && id == x),
    ensures
        apply_action(h, a).is_live(x),
        apply_action(h, a).none_id == h.none_id,
{
}

/// No move resurrects a reclaimed slot: once `x` is dead it stays dead,
/// and the sentinel slot never moves.
pub proof fn lemma_step_preserves_reclaimed(h: HeapModel, a: HeapAction, x: int)
    requires
        h.valid(x),
        !h.is_live(x),
    ensures
        apply_action(h, a).valid(x),
        !apply_action(h, a).is_live(x),
        apply_action(h, a).none_id == h.none_id,
{
}

/// Non-retention.  Allocate a fresh object `x`, held only by the one strong
/// handle its allocation returned; allocate a weak handle observing it (the
/// heap effect of constructing `ref(x)`); then drop that strong handle.
/// The weak handle has kept nothing alive: `x` is reclaimed at once, and
/// dereferencing the observer now yields the absent-value sentinel.
pub proof fn lemma_non_retention(h0: HeapModel, typ: int, payload: PayloadModel, cls: int)
    requires
        h0.wf(),
    ensures
        ({
            let x = h0.len();
            let h1 = h0.allocate(typ, payload);
            let h2 = h1.allocate(cls, PayloadModel::WeakRef { referent: x });
            let h3 = h2.decref(x);
            &&& h1.is_live(x)
            &&& h2.is_live(x)
            &&& !h3.is_live(x)
            &&& h3.deref_id(x) == h3.none_id
        }),
{
}

/// Liveness while strongly held.  Along any run in which no strong
/// reference to `x` is dropped, `x` stays live, and a weak observer of `x`
/// dereferences to `x` itself — the same identity — in every state.
pub proof fn lemma_live_while_strongly_held(tr: Seq<HeapModel>, acts: Seq<HeapAction>, x: int)
    requires
        heap_run(tr, acts),
        tr[0].is_live(x),
        forall|i: int| 0 <= i < acts.len() ==> !(#[trigger] acts[i] matches HeapAction::Decref {
            id,
        } && id == x),
    ensures
        forall|i: int|
            0 <= i < tr.len() ==> (#[trigger] tr[i]).is_live(x) && tr[i].deref_id(x) == x,
    decreases acts.len(),
{
    if acts.len() > 0 {
        let tr0 = tr.drop_last();
        let acts0 = acts.drop_last();
        assert(heap_run(tr0, acts0)) by {
            assert forall|i: int|
                0 <= i < acts0.len() implies tr0[i + 1] == apply_action(
                tr0[i],
                #[trigger] acts0[i],
            ) by {
                assert(tr0[i] == tr[i]);
                assert(tr0[i + 1] == tr[i + 1]);
                assert(acts0[i] == acts[i]);
            }
        }
        lemma_live_while_strongly_held(tr0, acts0, x);
        let n = acts.len() as int;
        assert(tr0[n - 1] == tr[n - 1]);
        lemma_step_preserves_liveness(tr[n - 1], acts[n - 1], x);
        assert forall|i: int|
            0 <= i < tr.len() implies (#[trigger] tr[i]).is_live(x) && tr[i].deref_id(x)
            == x by {
            if i < n {
                assert(tr0[i] == tr[i]);
            } else {
                assert(tr[i] == apply_action(tr[n - 1], acts[n - 1]));
            }
        }
    }
}

/// Monotonicity.  Once a weak observer of `x` dereferences to the sentinel,
/// it does so in every later state of the run: no move resurrects `x`, and
/// the sentinel slot itself never moves.
pub proof fn lemma_sentinel_is_terminal(tr: Seq<HeapModel>, acts: Seq<HeapAction>, x: int)
    requires
        heap_run(tr, acts),
        tr[0].valid(x),
        x != tr[0].none_id,
        tr[0].deref_id(x) == tr[0].none_id,
    ensures
        forall|i: int|
            0 <= i < tr.len() ==> (#[trigger] tr[i]).valid(x) && !tr[i].is_live(x)
                && tr[i].deref_id(x) == tr[i].none_id && tr[i].none_id == tr[0].none_id,
    decreases acts.len(),
{
    assert(!tr[0].is_live(x));
    if acts.len() > 0 {
        let tr0 = tr.drop_last();
        let acts0 = acts.drop_last();
        assert(heap_run(tr0, acts0)) by {
            assert forall|i: int|
                0 <= i < acts0.len() implies tr0[i + 1] == apply_action(
                tr0[i],
                #[trigger] acts0[i],
            ) by {
                assert(tr0[i] == tr[i]);
                assert(tr0[i + 1] == tr[i + 1]);
                assert(acts0[i] == acts[i]);
            }
        }
        assert(tr0[0] == tr[0]);
        lemma_sentinel_is_terminal(tr0, acts0, x);
        let n = acts.len() as int;
        assert(tr0[n - 1] == tr[n - 1]);
        lemma_step_preserves_reclaimed(tr[n - 1], acts[n - 1], x);
        assert forall|i: int|
            0 <= i < tr.len() implies (#[trigger] tr[i]).valid(x) && !tr[i].is_live(x)
            && tr[i].deref_id(x) == tr[i].none_id && tr[i].none_id == tr[0].none_id by {
            if i < n {
                assert(tr0[i] == tr[i]);
            } else {
                assert(tr[i] == apply_action(tr[n - 1], acts[n - 1]));
            }
        }
    }
}

/// Idempotence while live.  Dereferencing a weak observer of `x` performs
/// the move `incref(x)`; that move changes neither what the observer yields
/// nor where the sentinel lives, so successive dereferences all yield the
/// same identity — `x` itself while `x` is live, the sentinel once it is
/// reclaimed.
pub proof fn lemma_deref_idempotent(h: HeapModel, x: int)
    ensures
        h.incref(x).deref_id(x) == h.deref_id(x),
        h.incref(x).none_id == h.none_id,
{
}

/// Independence.  A move that allocates, or that touches the count of a
/// slot other than `x`, changes neither the liveness of `x` nor what a weak
/// observer of `x` yields: the fate of distinct referents is uncorrelated.
pub proof fn lemma_independence(h: HeapModel, x: int, a: HeapAction)
    requires
        h.valid(x),
        a matches HeapAction::Incref { id } ==> id != x,
        a matches HeapAction::Decref { id } ==> id != x,
    ensures
        apply_action(h, a).count(x) == h.count(x),
        apply_action(h, a).is_live(x) == h.is_live(x),
        apply_action(h, a).deref_id(x) == h.deref_id(x),
{
}

} // verus!
