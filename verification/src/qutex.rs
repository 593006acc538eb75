//! A queue-backed exclusive data lock, verified as a sequential model of the
//! protocol: a two-valued status, a FIFO pending queue of request ids, a
//! guarded value, and the grant / release / cancellation transitions.
//!
//! One `Qutex` value holds the whole shared state of one logical lock. The
//! claims that in a concurrent setting would be separate reference-counted
//! handles are modelled as counted tokens: a [`Handle`] is a claim on the
//! state, a [`FutureGuard`] is an in-flight request carrying such a claim,
//! and a [`Guard`] is the exclusive-access token that a granted request
//! resolves into.

use vstd::prelude::*;
use crate::queue::PendingQueue;
use crate::queue::pending_ids;

verus! {

/// The two legal values of the lock status flag. Any other observed value
/// would be a fatal invariant violation; the model's type makes it
/// unrepresentable.
#[derive(Clone, Copy, PartialEq, Eq, Structural, Debug)]
pub enum Status {
    Unlocked,
    Locked,
}

/// The error surfaced when a grant attempt pops a queue entry whose waiter
/// was cancelled: the status has already flipped to `Locked`, nobody is told,
/// and the queue is not advanced further. The chosen behaviour of this
/// design treats the condition as an error on that one call rather than
/// skipping ahead, so everyone queued behind the cancelled entry is stalled.
#[derive(Clone, Copy, PartialEq, Eq, Structural, Debug)]
pub enum QutexError {
    /// The popped entry's waiter was gone before the grant could be signalled.
    WaiterLost,
}

/// The mathematical state of one lock: what a `Qutex` is in contracts.
#[verifier::ext_equal]
pub ghost struct QutexView<T> {
    /// The status flag serializing grant decisions.
    pub status: Status,
    /// The guarded value.
    pub value: T,
    /// Ids of queued requests, oldest first.
    pub pending: Seq<u64>,
    /// Ids whose request was cancelled while queued (or after its grant).
    pub cancelled: Seq<u64>,
    /// The id of a grant that was signalled but not yet observed by its
    /// request, if any.
    pub fired: Option<u64>,
    /// The id of the live exclusive-access guard, if any.
    pub holder: Option<u64>,
    /// The next request id to hand out; all issued ids are below it.
    pub next_id: u64,
    /// How many claims on this state are outstanding besides the owned
    /// `Qutex` value itself: live handles, in-flight requests and guards.
    pub claims: u64,
}

impl<T> QutexView<T> {
    /// Well-formedness of a lock state: queued ids are distinct and issued,
    /// cancelled ids are issued, and a signalled grant or a live guard is
    /// only ever an issued, still-wanted id held while the lock is `Locked`,
    /// never both at once.
    pub open spec fn wf(self) -> bool {
        &&& forall|i: int, j: int|
            0 <= i < j < self.pending.len() ==> self.pending[i] != self.pending[j]
        &&& forall|i: int| 0 <= i < self.pending.len() ==> self.pending[i] < self.next_id
        &&& forall|i: int| 0 <= i < self.cancelled.len() ==> self.cancelled[i] < self.next_id
        &&& self.fired matches Some(g) ==> {
            &&& self.status is Locked
            &&& g < self.next_id
            &&& !self.pending.contains(g)
            &&& !self.cancelled.contains(g)
            &&& self.holder is None
        }
        &&& self.holder matches Some(h) ==> {
            &&& self.status is Locked
            &&& h < self.next_id
            &&& !self.pending.contains(h)
            &&& !self.cancelled.contains(h)
            &&& self.fired is None
        }
        &&& self.status is Unlocked ==> self.fired is None && self.holder is None
    }

    /// Whether a queue-advancement attempt on this state succeeds: it fails
    /// exactly when the lock is free and the queue's head entry was
    /// cancelled.
    pub open spec fn process_ok(self) -> bool {
        !(self.status is Unlocked && self.pending.len() > 0 && self.cancelled.contains(
            self.pending[0],
        ))
    }

    /// The queue-advancement transition. With the lock held it is a no-op;
    /// with the lock free and the queue empty the status stays `Unlocked`;
    /// otherwise the head entry is popped and, if its waiter is still there,
    /// its grant is signalled — if not, the status is left `Locked` with no
    /// grant signalled (the stalled-grant hazard).
    pub open spec fn process(self) -> QutexView<T> {
        if self.status is Locked {
            self
        } else if self.pending.len() == 0 {
            self
        } else {
            let head = self.pending[0];
            if self.cancelled.contains(head) {
                QutexView { status: Status::Locked, pending: self.pending.drop_first(), ..self }
            } else {
                QutexView {
                    status: Status::Locked,
                    pending: self.pending.drop_first(),
                    fired: Some(head),
                    ..self
                }
            }
        }
    }

    /// The enqueue transition: a fresh id is appended to the queue.
    pub open spec fn enqueue(self) -> QutexView<T> {
        QutexView {
            pending: self.pending.push(self.next_id),
            next_id: (self.next_id + 1) as u64,
            ..self
        }
    }

    /// The grant-observation transition: the request whose grant was
    /// signalled turns it into the live guard.
    pub open spec fn grab(self) -> QutexView<T> {
        QutexView { fired: None, holder: self.fired, ..self }
    }

    /// The release transition: the guard's claim is given up, the status is
    /// reset to `Unlocked`, and queue advancement is chained immediately.
    pub open spec fn release(self) -> QutexView<T> {
        QutexView {
            status: Status::Unlocked,
            holder: None,
            claims: (self.claims - 1) as u64,
            ..self
        }.process()
    }

    /// Whether the queue advancement chained to a release succeeds: it fails
    /// exactly when the queue's new head entry was cancelled.
    pub open spec fn release_ok(self) -> bool {
        !(self.pending.len() > 0 && self.cancelled.contains(self.pending[0]))
    }

    /// The cancellation transition: the request under `id` is dropped before
    /// resolving. Its queue entry, if any, stays in place, but is remembered
    /// as one whose waiter is gone; a grant already signalled to it is lost,
    /// and the status then stays `Locked` with nobody to release it.
    pub open spec fn cancel(self, id: u64) -> QutexView<T> {
        QutexView {
            cancelled: self.cancelled.push(id),
            fired: if self.fired == Some(id) {
                None
            } else {
                self.fired
            },
            claims: (self.claims - 1) as u64,
            ..self
        }
    }
}

/// One logical lock: the status flag, the guarded value, the pending queue,
/// and the bookkeeping that stands for the sharing of the state.
pub struct Qutex<T> {
    status: Status,
    value: T,
    pending: PendingQueue,
    cancelled: Vec<u64>,
    fired: Option<u64>,
    holder: Option<u64>,
    next_id: u64,
    claims: u64,
}

impl<T> View for Qutex<T> {
    type V = QutexView<T>;

    closed spec fn view(&self) -> QutexView<T> {
        QutexView {
            status: self.status,
            value: self.value,
            pending: pending_ids(self.pending),
            cancelled: self.cancelled@,
            fired: self.fired,
            holder: self.holder,
            next_id: self.next_id,
            claims: self.claims,
        }
    }
}

impl<T> Qutex<T> {
    /// Creates a new lock guarding `val`: status `Unlocked`, empty queue, no
    /// outstanding claims.
    pub fn new(val: T) -> (r: Qutex<T>)
        ensures
            r@.wf(),
            r@.status is Unlocked,
            r@.value == val,
            r@.pending == Seq::<u64>::empty(),
            r@.cancelled == Seq::<u64>::empty(),
            r@.fired is None,
            r@.holder is None,
            r@.next_id == 0,
            r@.claims == 0,
    {
        Qutex {
            status: Status::Unlocked,
            value: val,
            pending: PendingQueue::new(),
            cancelled: Vec::new(),
            fired: None,
            holder: None,
            next_id: 0,
            claims: 0,
        }
    }

    /// Pops the next queued request and signals its grant if this lock is
    /// unlocked; a no-op when the lock is held or the queue is empty. Safe to
    /// invoke redundantly: every poll of a request drives it
    /// opportunistically. Fails, leaving the status `Locked` and the queue
    /// unadvanced, exactly when the popped entry's waiter was cancelled.
    pub fn process_queue(&mut self) -> (r: Result<(), QutexError>)
        requires
            old(self)@.wf(),
        ensures
            final(self)@ == old(self)@.process(),
            final(self)@.wf(),
            r == if old(self)@.process_ok() {
                Result::<(), QutexError>::Ok(())
            } else {
                Result::<(), QutexError>::Err(QutexError::WaiterLost)
            },
    {
        match self.status {
            Status::Locked => {
                assert(self@ =~= old(self)@.process());
                Ok(())
            },
            Status::Unlocked => {
                match self.pending.pop() {
                    None => {
                        assert(self@ =~= old(self)@.process());
                        Ok(())
                    },
                    Some(head) => {
                        self.status = Status::Locked;
                        if contains_id(&self.cancelled, head) {
                            assert(self@ =~= old(self)@.process());
                            Err(QutexError::WaiterLost)
                        } else {
                            self.fired = Some(head);
                            assert(self@ =~= old(self)@.process());
                            Ok(())
                        }
                    },
                }
            },
        }
    }
}

/// A claim on one lock's shared state, beyond the owned `Qutex` value
/// itself. In a concurrent deployment this is a cloned reference-counted
/// handle; here it is a counted token, minted by [`Qutex::clone_handle`] and
/// given up by [`Qutex::drop_handle`] or turned into a request by
/// [`Qutex::lock`].
pub struct Handle {
    claim: bool,
}

/// A request to lock the qutex for exclusive access: one pending queue entry
/// owns the grant signal for this id.
pub struct Request {
    id: u64,
}

impl Request {
    /// The id under which this request is queued.
    pub closed spec fn id(self) -> u64 {
        self.id
    }
}

/// An in-flight lock request: resolves into a [`Guard`] once its queue entry
/// reaches the head and the grant is signalled. It carries the claim of the
/// handle that issued it.
pub struct FutureGuard {
    id: u64,
    live: bool,
}

impl FutureGuard {
    /// The id of this request's queue entry.
    pub closed spec fn id(self) -> u64 {
        self.id
    }

    /// Whether this request is still in flight: a resolved request must not
    /// be polled again.
    pub closed spec fn is_live(self) -> bool {
        self.live
    }
}

/// The exclusive-access token: exactly one usable `Guard` exists per lock at
/// any instant, and its scope is the critical section. It is created only by
/// the resolution of a granted request and is given up by [`Qutex::unlock`].
#[derive(Debug)]
pub struct Guard {
    id: u64,
}

impl Guard {
    /// The id of the request this guard resolved from.
    pub closed spec fn id(self) -> u64 {
        self.id
    }
}

/// The outcome of polling an in-flight request.
#[derive(Debug)]
pub enum LockPoll {
    /// The request was granted; the guard is the exclusive-access token.
    Ready(Guard),
    /// The grant has not been signalled yet; poll again later.
    Pending,
}

impl<T> Qutex<T> {
    /// Mints a new claim on this lock's state; in a concurrent deployment,
    /// cloning the reference-counted handle.
    pub fn clone_handle(&mut self) -> (h: Handle)
        requires
            old(self)@.claims < u64::MAX,
        ensures
            final(self)@ == (QutexView { claims: (old(self)@.claims + 1) as u64, ..old(self)@ }),
            old(self)@.wf() ==> final(self)@.wf(),
    {
        self.claims = self.claims + 1;
        let h = Handle { claim: true };
        assert(self@ =~= (QutexView { claims: (old(self)@.claims + 1) as u64, ..old(self)@ }));
        h
    }

    /// Gives a claim up; in a concurrent deployment, dropping a cloned
    /// handle.
    pub fn drop_handle(&mut self, handle: Handle)
        requires
            old(self)@.claims >= 1,
        ensures
            final(self)@ == (QutexView { claims: (old(self)@.claims - 1) as u64, ..old(self)@ }),
            old(self)@.wf() ==> final(self)@.wf(),
    {
        let _ = handle;
        self.claims = self.claims - 1;
        assert(self@ =~= (QutexView { claims: (old(self)@.claims - 1) as u64, ..old(self)@ }));
    }

    /// Mints a request under a fresh id. The id is recorded as issued but
    /// nothing is queued until [`Qutex::push_request`].
    pub fn new_request(&mut self) -> (req: Request)
        requires
            old(self)@.next_id < u64::MAX,
        ensures
            req.id() == old(self)@.next_id,
            final(self)@ == (QutexView { next_id: (old(self)@.next_id + 1) as u64, ..old(self)@ }),
            old(self)@.wf() ==> final(self)@.wf(),
    {
        let id = self.next_id;
        self.next_id = self.next_id + 1;
        let r = Request { id };
        assert(self@ =~= (QutexView { next_id: (old(self)@.next_id + 1) as u64, ..old(self)@ }));
        r
    }

    /// Pushes a lock request onto the pending queue.
    pub fn push_request(&mut self, req: Request)
        requires
            req.id() < old(self)@.next_id,
            !old(self)@.pending.contains(req.id()),
            !old(self)@.cancelled.contains(req.id()),
            old(self)@.fired != Some(req.id()),
            old(self)@.holder != Some(req.id()),
        ensures
            final(self)@ == (QutexView { pending: old(self)@.pending.push(req.id()), ..old(self)@ }),
            old(self)@.wf() ==> final(self)@.wf(),
    {
        self.pending.push(req.id);
        assert(self@ =~= (QutexView { pending: old(self)@.pending.push(req.id()), ..old(self)@ }));
        proof {
            if old(self)@.wf() {
                let v = self@;
                assert forall|i: int| 0 <= i < v.pending.len() implies v.pending[i]
                    < v.next_id by {
                    if i < v.pending.len() - 1 {
                        assert(v.pending[i] == old(self)@.pending[i]);
                    }
                }
            }
        }
    }

    /// Enqueues a new request on this lock, consuming one claim into the
    /// returned in-flight request. The queue grows by one entry, visible to
    /// every later queue advancement.
    pub fn lock(&mut self, handle: Handle) -> (f: FutureGuard)
        requires
            old(self)@.wf(),
            old(self)@.next_id < u64::MAX,
        ensures
            final(self)@ == old(self)@.enqueue(),
            final(self)@.wf(),
            f.is_live(),
            f.id() == old(self)@.next_id,
    {
        let _ = handle;
        let req = self.new_request();
        proof {
            assert(!old(self)@.pending.contains(req.id())) by {
                if old(self)@.pending.contains(req.id()) {
                    let i = choose|i: int|
                        0 <= i < old(self)@.pending.len() && old(self)@.pending[i] == req.id();
                    assert(old(self)@.pending[i] < old(self)@.next_id);
                }
            }
            assert(!old(self)@.cancelled.contains(req.id())) by {
                if old(self)@.cancelled.contains(req.id()) {
                    let i = choose|i: int|
                        0 <= i < old(self)@.cancelled.len() && old(self)@.cancelled[i] == req.id();
                    assert(old(self)@.cancelled[i] < old(self)@.next_id);
                }
            }
        }
        let id = req.id;
        self.push_request(req);
        assert(self@ =~= old(self)@.enqueue());
        FutureGuard { id, live: true }
    }

    /// Unlocks this lock, giving the guard's claim up, and immediately
    /// chains a queue advancement to grant the next queued request if there
    /// is one. Fails, leaving the status `Locked`, exactly when the next
    /// entry's waiter was cancelled (the stalled-grant hazard); a concurrent
    /// deployment would abort on that condition when it arises from a guard
    /// going out of scope, while this model surfaces it as an error.
    pub fn unlock(&mut self, guard: Guard) -> (r: Result<(), QutexError>)
        requires
            old(self)@.wf(),
            old(self)@.holder == Some(guard.id()),
            old(self)@.claims >= 1,
        ensures
            final(self)@ == old(self)@.release(),
            final(self)@.wf(),
            r == if old(self)@.release_ok() {
                Result::<(), QutexError>::Ok(())
            } else {
                Result::<(), QutexError>::Err(QutexError::WaiterLost)
            },
    {
        let _ = guard;
        self.holder = None;
        self.status = Status::Unlocked;
        self.claims = self.claims - 1;
        assert(self@ =~= (QutexView {
            status: Status::Unlocked,
            holder: None,
            claims: (old(self)@.claims - 1) as u64,
            ..old(self)@
        }));
        self.process_queue()
    }

    /// Cancels an in-flight request: the model of dropping its future before
    /// it resolves. The claim it carried is given up, but its queue entry is
    /// left in place; when that entry is later popped, the grant attempt
    /// finds the waiter gone and fails. A grant already signalled to this
    /// request is lost outright.
    ///
    /// A live request is never the one that resolved into the current guard,
    /// and it carries a claim of its own; two of the preconditions record
    /// that.
    pub fn cancel(&mut self, fut: FutureGuard)
        requires
            old(self)@.wf(),
            fut.is_live(),
            old(self)@.holder != Some(fut.id()),
            old(self)@.claims >= 1,
            fut.id() < old(self)@.next_id,
        ensures
            final(self)@ == old(self)@.cancel(fut.id()),
            final(self)@.wf(),
    {
        let id = fut.id;
        let _ = fut;
        self.cancelled.push(id);
        self.claims = self.claims - 1;
        let clear = match self.fired {
            Some(g) => g == id,
            None => false,
        };
        if clear {
            self.fired = None;
        }
        assert(self@ =~= old(self)@.cancel(id));
    }

    /// Reads the guarded value; valid only within the scope of the live
    /// guard of this lock.
    pub fn read<'a>(&'a self, guard: &Guard) -> (r: &'a T)
        requires
            self@.holder == Some(guard.id()),
        ensures
            *r == self@.value,
    {
        &self.value
    }

    /// Replaces the guarded value; valid only within the scope of the live
    /// guard of this lock.
    pub fn write(&mut self, guard: &Guard, val: T)
        requires
            old(self)@.holder == Some(guard.id()),
        ensures
            final(self)@ == (QutexView { value: val, ..old(self)@ }),
            old(self)@.wf() ==> final(self)@.wf(),
    {
        let _ = guard;
        self.value = val;
        assert(self@ =~= (QutexView { value: val, ..old(self)@ }));
    }

    /// Whether this state is uniquely owned: no handle, in-flight request or
    /// guard is outstanding besides the owned value itself.
    pub fn is_unique(&self) -> (r: bool)
        ensures
            r == (self@.claims == 0),
    {
        self.claims == 0
    }

    /// Returns direct mutable access to the guarded value, bypassing the
    /// status and the queue entirely, but only when no other claim on this
    /// state exists: unique ownership already proves exclusivity. Returns
    /// nothing otherwise.
    pub fn get_mut(&mut self) -> (r: Option<&mut T>)
        ensures
            old(self)@.claims == 0 <==> r is Some,
            r is None ==> final(self)@ == old(self)@,
            r matches Some(m) ==> *m == old(self)@.value && final(self)@ == (QutexView {
                value: *final(m),
                ..old(self)@
            }),
    {
        if self.claims == 0 {
            Some(&mut self.value)
        } else {
            assert(self@ =~= old(self)@);
            None
        }
    }
}

impl FutureGuard {
    /// Polls this in-flight request: first drives a queue advancement
    /// opportunistically (whether or not this request is at the head), then
    /// checks for this request's grant. Resolves into the exclusive guard
    /// when the grant was signalled; stays pending otherwise. A failed
    /// advancement is surfaced as an error where a concurrent deployment
    /// would abort; the request then stays in flight.
    ///
    /// Polling a request that already resolved is a caller error, excluded
    /// by precondition.
    pub fn poll<T>(&mut self, qutex: &mut Qutex<T>) -> (r: Result<LockPoll, QutexError>)
        requires
            old(self).is_live(),
            old(qutex)@.wf(),
            old(self).id() < old(qutex)@.next_id,
        ensures
            final(qutex)@.wf(),
            final(self).id() == old(self).id(),
            !old(qutex)@.process_ok() ==> {
                &&& r == Result::<LockPoll, QutexError>::Err(QutexError::WaiterLost)
                &&& final(qutex)@ == old(qutex)@.process()
                &&& *final(self) == *old(self)
            },
            old(qutex)@.process_ok() && old(qutex)@.process().fired == Some(old(self).id())
                ==> {
                &&& r matches Ok(LockPoll::Ready(g)) && g.id() == old(self).id()
                &&& final(qutex)@ == old(qutex)@.process().grab()
                &&& !final(self).is_live()
            },
            old(qutex)@.process_ok() && old(qutex)@.process().fired != Some(old(self).id())
                ==> {
                &&& r matches Ok(LockPoll::Pending)
                &&& final(qutex)@ == old(qutex)@.process()
                &&& *final(self) == *old(self)
            },
    {
        match qutex.process_queue() {
            Err(e) => Err(e),
            Ok(()) => {
                let mine = match qutex.fired {
                    Some(g) => g == self.id,
                    None => false,
                };
                if mine {
                    qutex.fired = None;
                    qutex.holder = Some(self.id);
                    self.live = false;
                    let g = Guard { id: self.id };
                    assert(qutex@ =~= old(qutex)@.process().grab());
                    Ok(LockPoll::Ready(g))
                } else {
                    Ok(LockPoll::Pending)
                }
            },
        }
    }

    /// Drives this request to resolution; the model of the blocking
    /// convenience that parks the calling thread until the grant arrives. In
    /// a sequential model no other actor can intervene, so the request must
    /// be resolvable as the state stands: its grant is already signalled, or
    /// the lock is free and this request heads the queue with its waiter
    /// still there; the precondition says exactly that. A request abandoned
    /// behind a held or stalled lock would wait forever.
    pub fn wait<T>(self, qutex: &mut Qutex<T>) -> (r: Result<Guard, QutexError>)
        requires
            self.is_live(),
            old(qutex)@.wf(),
            self.id() < old(qutex)@.next_id,
            old(qutex)@.fired == Some(self.id()) || (old(qutex)@.status is Unlocked
                && old(qutex)@.pending.len() > 0 && old(qutex)@.pending[0] == self.id()
                && !old(qutex)@.cancelled.contains(self.id())),
        ensures
            final(qutex)@ == old(qutex)@.process().grab(),
            final(qutex)@.wf(),
            r matches Ok(g) && g.id() == self.id(),
    {
        let mut fut = self;
        let polled = fut.poll(qutex);
        match polled {
            Ok(LockPoll::Ready(g)) => Ok(g),
            Ok(LockPoll::Pending) => {
                proof {
                    assert(false);
                }
                Err(QutexError::WaiterLost)
            },
            Err(e) => {
                proof {
                    assert(false);
                }
                Err(e)
            },
        }
    }
}

/// Whether `ids` holds `x`.
fn contains_id(ids: &Vec<u64>, x: u64) -> (r: bool)
    ensures
        r == ids@.contains(x),
{
    let mut i: usize = 0;
    while i < ids.len()
        invariant
            0 <= i <= ids@.len(),
            forall|k: int| 0 <= k < i ==> ids@[k] != x,
        decreases ids@.len() - i,
    {
        if ids[i] == x {
            assert(ids@.contains(x));
            return true;
        }
        i += 1;
    }
    false
}

} // verus!
