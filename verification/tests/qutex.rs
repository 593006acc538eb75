use qutex::LockPoll;
use qutex::PendingQueue;
use qutex::Qutex;
use qutex::QutexError;

#[test]
fn simple() {
    let mut val = Qutex::new(999i32);

    println!("Reading val...");
    {
        let h = val.clone_handle();
        let future_guard = val.lock(h);
        let guard = future_guard.wait(&mut val).unwrap();
        println!("val: {}", *val.read(&guard));
        assert_eq!(*val.read(&guard), 999);
        val.unlock(guard).unwrap();
    }

    println!("Storing new val...");
    {
        let h = val.clone_handle();
        let future_guard = val.lock(h);
        let guard = future_guard.wait(&mut val).unwrap();
        val.write(&guard, 5);
        val.unlock(guard).unwrap();
    }

    println!("Reading val...");
    {
        let h = val.clone_handle();
        let future_guard = val.lock(h);
        let guard = future_guard.wait(&mut val).unwrap();
        println!("val: {}", *val.read(&guard));
        assert_eq!(*val.read(&guard), 5);
        val.unlock(guard).unwrap();
    }
}

#[test]
fn concurrent() {
    let mut val = Qutex::new(10000i32);

    let h0 = val.clone_handle();
    let h1 = val.clone_handle();
    let h2 = val.clone_handle();
    let fg0 = val.lock(h0);
    let fg1 = val.lock(h1);
    let fg2 = val.lock(h2);

    println!("Reading val 0...");
    {
        let guard = fg0.wait(&mut val).unwrap();
        println!("val: {}", *val.read(&guard));
        assert_eq!(*val.read(&guard), 10000);
        val.unlock(guard).unwrap();
    }

    println!("Reading val 1...");
    {
        let guard = fg1.wait(&mut val).unwrap();
        println!("val: {}", *val.read(&guard));
        assert_eq!(*val.read(&guard), 10000);
        val.unlock(guard).unwrap();
    }

    println!("Reading val 2...");
    {
        let guard = fg2.wait(&mut val).unwrap();
        println!("val: {}", *val.read(&guard));
        assert_eq!(*val.read(&guard), 10000);
        val.unlock(guard).unwrap();
    }
}

// The pending queue hands ids out first-in-first-out.
#[test]
fn pending_queue_fifo() {
    let mut q = PendingQueue::new();
    assert_eq!(q.pop(), None);
    q.push(1);
    q.push(2);
    q.push(3);
    assert_eq!(q.pop(), Some(1));
    assert_eq!(q.pop(), Some(2));
    assert_eq!(q.pop(), Some(3));
    assert_eq!(q.pop(), None);
}

// Advancing the queue while the lock is free and the queue is empty is a
// successful no-op, however often it is repeated.
#[test]
fn idle_advancement_is_noop() {
    let mut val = Qutex::new(0u8);
    assert!(val.process_queue().is_ok());
    assert!(val.process_queue().is_ok());

    // The lock still works normally afterwards.
    let h = val.clone_handle();
    let fg = val.lock(h);
    let guard = fg.wait(&mut val).unwrap();
    assert_eq!(*val.read(&guard), 0);
    val.unlock(guard).unwrap();
}

// Direct mutable access is granted exactly while no other claim exists:
// unavailable as soon as a handle is cloned, available again once it is
// dropped.
#[test]
fn exclusive_access_gating() {
    let mut val = Qutex::new(11u32);

    *val.get_mut().unwrap() = 12;
    assert_eq!(*val.get_mut().unwrap(), 12);

    let h = val.clone_handle();
    assert!(val.get_mut().is_none());
    assert!(!val.is_unique());

    val.drop_handle(h);
    assert!(val.get_mut().is_some());
    assert!(val.is_unique());
    assert_eq!(*val.get_mut().unwrap(), 12);
}

// Three queued requests resolve strictly one after the other: the later
// ones stay pending until the earlier guard is released, and grants come in
// enqueue order.
#[test]
fn queued_waiters_resolve_in_turn() {
    let mut val = Qutex::new(10000i32);

    let h0 = val.clone_handle();
    let h1 = val.clone_handle();
    let h2 = val.clone_handle();
    let fg0 = val.lock(h0);
    let mut fg1 = val.lock(h1);
    let mut fg2 = val.lock(h2);

    let g0 = fg0.wait(&mut val).unwrap();
    assert!(matches!(fg1.poll(&mut val), Ok(LockPoll::Pending)));
    assert!(matches!(fg2.poll(&mut val), Ok(LockPoll::Pending)));

    val.unlock(g0).unwrap();
    assert!(matches!(fg2.poll(&mut val), Ok(LockPoll::Pending)));
    let g1 = match fg1.poll(&mut val) {
        Ok(LockPoll::Ready(g)) => g,
        _ => panic!("second request should resolve once the first released"),
    };
    assert!(matches!(fg2.poll(&mut val), Ok(LockPoll::Pending)));

    val.unlock(g1).unwrap();
    let g2 = match fg2.poll(&mut val) {
        Ok(LockPoll::Ready(g)) => g,
        _ => panic!("third request should resolve once the second released"),
    };
    val.unlock(g2).unwrap();
}

// Cancelling a queued request leaves its entry in place; when that entry is
// popped, the grant attempt fails and the lock is left stalled: the status
// stays locked and the request queued behind the cancelled one is never
// granted. This documents the stalled-grant hazard of the design rather
// than a clean skip-ahead.
#[test]
fn cancellation_stalls_the_queue() {
    let mut val = Qutex::new(7u64);

    let h0 = val.clone_handle();
    let h1 = val.clone_handle();
    let fg0 = val.lock(h0);
    let mut fg1 = val.lock(h1);

    val.cancel(fg0);

    // The advancement pops the cancelled entry, finds its waiter gone and
    // fails; the second request stays pending forever after.
    assert!(matches!(fg1.poll(&mut val), Err(QutexError::WaiterLost)));
    assert!(matches!(fg1.poll(&mut val), Ok(LockPoll::Pending)));
    assert!(matches!(fg1.poll(&mut val), Ok(LockPoll::Pending)));
}

// The same hazard reached through a release: the guard's release chains an
// advancement that pops the cancelled entry and fails.
#[test]
fn cancellation_hazard_on_release() {
    let mut val = Qutex::new(3i32);

    let h0 = val.clone_handle();
    let g0 = {
        let fg = val.lock(h0);
        fg.wait(&mut val).unwrap()
    };

    let h1 = val.clone_handle();
    let h2 = val.clone_handle();
    let fg1 = val.lock(h1);
    let mut fg2 = val.lock(h2);

    val.cancel(fg1);
    assert_eq!(val.unlock(g0), Err(QutexError::WaiterLost));
    assert!(matches!(fg2.poll(&mut val), Ok(LockPoll::Pending)));
}

// A write through the guard is observed by the next granted request.
#[test]
fn write_is_observed_by_next_grant() {
    let mut val = Qutex::new(1u16);

    let h0 = val.clone_handle();
    let h1 = val.clone_handle();
    let fg0 = val.lock(h0);
    let fg1 = val.lock(h1);

    let g0 = fg0.wait(&mut val).unwrap();
    val.write(&g0, 2);
    val.unlock(g0).unwrap();

    let g1 = fg1.wait(&mut val).unwrap();
    assert_eq!(*val.read(&g1), 2);
    val.unlock(g1).unwrap();
}
