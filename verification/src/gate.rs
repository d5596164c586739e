//! A model of the execution gate that serializes accelerator use: traces
//! of acquire and release events, the holder they determine, and the
//! proof that holding intervals of two requests never overlap.

use vstd::prelude::*;

verus! {

/// One event of the lock's history: an acquire or a release by an owner.
pub enum GateEvent {
    Acquire { owner: nat },
    Release { owner: nat },
}

/// Who is the holder after the events: an event happens only on a free
/// lock (for an acquire) or under the releaser's hold (for a release),
/// so the last event decides.
pub open spec fn holder_after(t: Seq<GateEvent>) -> Option<nat> {
    if t.len() == 0 {
        None
    } else {
        match t.last() {
            GateEvent::Acquire { owner } => Some(owner),
            GateEvent::Release { owner: _ } => None,
        }
    }
}

/// Whether the event can happen in the given state: an acquire needs a
/// free lock, a release its own holder.
pub open spec fn gate_step_ok(h: Option<nat>, e: GateEvent) -> bool {
    match e {
        GateEvent::Acquire { owner: _ } => h is None,
        GateEvent::Release { owner } => h == Some(owner),
    }
}

/// Whether every event of the trace was possible in its turn.
pub open spec fn trace_ok(t: Seq<GateEvent>) -> bool
    decreases t.len(),
{
    t.len() == 0 || (trace_ok(t.drop_last()) && gate_step_ok(
        holder_after(t.drop_last()),
        t.last(),
    ))
}

/// Whether the owner is the holder at the point after the first
/// `n` events.
pub open spec fn holds_at(t: Seq<GateEvent>, n: int, o: nat) -> bool {
    holder_after(t.take(n)) == Some(o)
}

proof fn lemma_trace_ok_prefix(t: Seq<GateEvent>, m: int)
    requires
        trace_ok(t),
        0 <= m <= t.len(),
    ensures
        trace_ok(t.take(m)),
    decreases t.len() - m,
{
    if m == t.len() {
        assert(t.take(m) =~= t);
    } else {
        lemma_trace_ok_prefix(t, m + 1);
        assert(t.take(m + 1).drop_last() =~= t.take(m));
    }
}

proof fn lemma_holder_persists(t: Seq<GateEvent>, i: int, m: int, o: nat)
    requires
        trace_ok(t),
        0 <= i < m <= t.len(),
        t[i] == (GateEvent::Acquire { owner: o }),
        forall|k: int| i < k < m ==> #[trigger] t[k] != (GateEvent::Release { owner: o }),
    ensures
        holder_after(t.take(m)) == Some(o),
    decreases m,
{
    if m == i + 1 {
        assert(t.take(m).last() == t[i]);
    } else {
        lemma_holder_persists(t, i, m - 1, o);
        lemma_trace_ok_prefix(t, m);
        assert(t.take(m).drop_last() =~= t.take(m - 1));
        assert(t.take(m).last() == t[m - 1]);
        assert(gate_step_ok(holder_after(t.take(m - 1)), t[m - 1]));
        match t[m - 1] {
            GateEvent::Acquire { owner: _ } => {
                assert(false);
            },
            GateEvent::Release { owner: w } => {
                assert(Some(w) == Some(o));
                assert(t[m - 1] != (GateEvent::Release { owner: o }));
                assert(false);
            },
        }
    }
}

/// At no point are there two holders together.
pub proof fn lemma_one_holder(t: Seq<GateEvent>, n: int, o1: nat, o2: nat)
    requires
        holds_at(t, n, o1),
        holds_at(t, n, o2),
    ensures
        o1 == o2,
{
}

/// The holding intervals of two acquisitions never overlap: between any
/// two acquisitions of a possible trace, the earlier holder has
/// released. So the interval from the earlier acquisition to that
/// release is disjoint from the interval the later acquisition opens,
/// however the waiters interleaved.
pub proof fn lemma_gate_serializes(t: Seq<GateEvent>, i1: int, i2: int)
    requires
        trace_ok(t),
        0 <= i1 < i2 < t.len(),
        t[i1] matches GateEvent::Acquire { .. },
        t[i2] matches GateEvent::Acquire { .. },
    ensures
        exists|j: int|
            i1 < j < i2 && #[trigger] t[j] == (GateEvent::Release {
                owner: t[i1]->Acquire_owner,
            }),
{
    let o1 = t[i1]->Acquire_owner;
    if !(exists|j: int|
        i1 < j < i2 && #[trigger] t[j] == (GateEvent::Release { owner: o1 })) {
        lemma_holder_persists(t, i1, i2, o1);
        lemma_trace_ok_prefix(t, i2 + 1);
        assert(t.take(i2 + 1).drop_last() =~= t.take(i2));
        assert(t.take(i2 + 1).last() == t[i2]);
        assert(gate_step_ok(holder_after(t.take(i2)), t[i2]));
        assert(false);
    }
}

} // verus!
