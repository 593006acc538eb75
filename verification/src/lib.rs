//! A queue-backed exclusive data lock: a primitive that guards a single
//! value and grants exactly one pending request exclusive access at a time.
//! Waiters register interest, are queued first-in-first-out, and are
//! signalled cooperatively when the lock becomes available.

pub mod laws;
pub mod queue;
pub mod qutex;

pub use queue::PendingQueue;
pub use qutex::FutureGuard;
pub use qutex::Guard;
pub use qutex::Handle;
pub use qutex::LockPoll;
pub use qutex::Qutex;
pub use qutex::QutexError;
pub use qutex::QutexView;
pub use qutex::Request;
pub use qutex::Status;
