//! The pending queue: a FIFO of request ids, backed by crossbeam's
//! `SegQueue`. The queue is held behind an owning handle so that every
//! mutation goes through a `&mut` receiver, which lets the contracts relate
//! the contents before and after each call.

use vstd::prelude::*;
use crossbeam::queue::SegQueue;

verus! {

/// Declares crossbeam's `SegQueue` so that it can stand in fields and
/// signatures; its values are opaque and are reached only through the
/// trusted wrappers below.
#[verifier::external_type_specification]
#[verifier::external_body]
#[verifier::reject_recursive_types(T)]
pub struct ExSegQueue<T>(SegQueue<T>);

/// An exclusively owned FIFO of pending request ids.
pub struct PendingQueue {
    inner: SegQueue<u64>,
}

/// The request ids currently queued, oldest first.
pub uninterp spec fn pending_ids(q: PendingQueue) -> Seq<u64>;

impl PendingQueue {
    /// Relies on crossbeam's `SegQueue::new`: creates an empty queue.
    #[verifier::external_body]
    pub fn new() -> (r: PendingQueue)
        ensures
            pending_ids(r) == Seq::<u64>::empty(),
    {
        PendingQueue { inner: SegQueue::new() }
    }

    /// Relies on crossbeam's `SegQueue::push`: appends the element at the
    /// tail of the queue.
    #[verifier::external_body]
    pub fn push(&mut self, id: u64)
        ensures
            pending_ids(*final(self)) == pending_ids(*old(self)).push(id),
    {
        self.inner.push(id);
    }

    /// Relies on crossbeam's `SegQueue::pop`: removes and returns the head
    /// element, or returns nothing when the queue is empty.
    #[verifier::external_body]
    pub fn pop(&mut self) -> (r: Option<u64>)
        ensures
            pending_ids(*old(self)).len() == 0 ==> {
                &&& r is None
                &&& pending_ids(*final(self)) == pending_ids(*old(self))
            },
            pending_ids(*old(self)).len() > 0 ==> {
                &&& r == Some(pending_ids(*old(self))[0])
                &&& pending_ids(*final(self)) == pending_ids(*old(self)).drop_first()
            },
    {
        self.inner.pop()
    }
}

} // verus!
