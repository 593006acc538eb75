//! The laws of the lock protocol, proved over the state model and its
//! transitions: mutual exclusion, idempotence of queue advancement, and
//! first-in-first-out service of never-cancelled requests under serialized
//! release.

use vstd::prelude::*;
use crate::qutex::Guard;
use crate::qutex::QutexView;
use crate::qutex::Status;

verus! {

/// Whether every queued request still has its waiter: none of the pending
/// entries was cancelled.
pub open spec fn no_cancelled_waiters<T>(v: QutexView<T>) -> bool {
    forall|i: int| 0 <= i < v.pending.len() ==> !v.cancelled.contains(v.pending[i])
}

/// The state after `k + 1` grant-and-release rounds from `v`: one queue
/// advancement signals the head request's grant, and each further round has
/// that request take its guard and release it, chaining the advancement to
/// the next entry.
pub open spec fn after_rounds<T>(v: QutexView<T>, k: nat) -> QutexView<T>
    decreases k,
{
    if k == 0 {
        v.process()
    } else {
        after_rounds(v, (k - 1) as nat).grab().release()
    }
}

/// Mutual exclusion: at most one usable guard exists per lock at any
/// instant. Any two guards that the state accepts as its holder stand for
/// the same grant.
pub proof fn lemma_mutual_exclusion<T>(v: QutexView<T>, g1: Guard, g2: Guard)
    requires
        v.holder == Some(g1.id()),
        v.holder == Some(g2.id()),
    ensures
        g1.id() == g2.id(),
{
}

/// Idempotent no-op: advancing the queue while the lock is free and the
/// queue is empty leaves the status `Unlocked`, changes nothing, and is no
/// error.
pub proof fn lemma_advance_empty_noop<T>(v: QutexView<T>)
    requires
        v.status is Unlocked,
        v.pending.len() == 0,
    ensures
        v.process() == v,
        v.process().status is Unlocked,
        v.process_ok(),
{
}

/// Queue advancement is idempotent: invoking it redundantly, from however
/// many callers, does no more than invoking it once.
pub proof fn lemma_advance_idempotent<T>(v: QutexView<T>)
    ensures
        v.process().process() == v.process(),
{
    assert(v.process().process() =~= v.process());
}

/// The engine behind the service laws: starting from a free lock whose
/// queued requests all still have their waiters, the round `k` of
/// grant-and-release signals the grant of the request at queue position `k`,
/// leaving exactly the entries behind it queued.
pub proof fn lemma_round_grants_in_order<T>(v: QutexView<T>, k: int)
    requires
        v.wf(),
        v.status is Unlocked,
        no_cancelled_waiters(v),
        0 <= k < v.pending.len(),
    ensures
        after_rounds(v, k as nat).fired == Some(v.pending[k]),
        after_rounds(v, k as nat).pending == v.pending.skip(k + 1),
        after_rounds(v, k as nat).cancelled == v.cancelled,
        after_rounds(v, k as nat).status is Locked,
        after_rounds(v, k as nat).holder is None,
    decreases k,
{
    if k == 0 {
        assert(v.process().pending =~= v.pending.skip(1));
    } else {
        lemma_round_grants_in_order(v, k - 1);
        let w = after_rounds(v, (k - 1) as nat);
        assert(after_rounds(v, k as nat) == w.grab().release());
        let mid = QutexView {
            status: Status::Unlocked,
            holder: None,
            claims: (w.grab().claims - 1) as u64,
            ..w.grab()
        };
        assert(mid.pending == v.pending.skip(k));
        assert(mid.pending[0] == v.pending[k]);
        assert(!mid.cancelled.contains(mid.pending[0]));
        assert(w.grab().release() == mid.process());
        assert(mid.process().pending =~= v.pending.skip(k + 1));
    }
}

/// Eventual service: every request whose queue entry is never cancelled is
/// eventually granted, provided every prior guard is eventually released —
/// the request at queue position `i` has its grant signalled after `i`
/// grant-and-release rounds.
pub proof fn lemma_eventual_service<T>(v: QutexView<T>)
    requires
        v.wf(),
        v.status is Unlocked,
        no_cancelled_waiters(v),
    ensures
        forall|i: int|
            0 <= i < v.pending.len() ==> after_rounds(v, i as nat).fired == Some(v.pending[i]),
{
    assert forall|i: int|
        0 <= i < v.pending.len() implies after_rounds(v, i as nat).fired == Some(
        v.pending[i],
    ) by {
        lemma_round_grants_in_order(v, i);
    }
}

/// First-in-first-out under serialized release: when rounds of
/// grant-and-release follow one another serially, grants occur in exact
/// enqueue order — round `k` serves the request enqueued `k`-th, and the
/// requests enqueued after it are still queued, in order, when it is served.
pub proof fn lemma_fifo_under_serialized_release<T>(v: QutexView<T>, k: int)
    requires
        v.wf(),
        v.status is Unlocked,
        no_cancelled_waiters(v),
        0 <= k < v.pending.len(),
    ensures
        after_rounds(v, k as nat).fired == Some(v.pending[k]),
        after_rounds(v, k as nat).pending == v.pending.skip(k + 1),
{
    lemma_round_grants_in_order(v, k);
}

} // verus!
