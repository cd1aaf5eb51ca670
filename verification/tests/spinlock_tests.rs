use sync_primitives::spinlock::{increment_many, locked_increment, SpinLock};

#[test]
fn new_lock_returns_initial_value() {
    let mut lock = SpinLock::new(7u32);
    let guard = lock.lock();
    assert_eq!(*guard.borrow(), 7);
    lock.unlock(guard);
}

#[test]
fn guard_set_is_visible_to_next_acquisition() {
    let mut lock = SpinLock::new(String::from("before"));
    let mut guard = lock.lock();
    guard.set(String::from("after"));
    lock.unlock(guard);
    let guard = lock.lock();
    assert_eq!(guard.borrow().as_str(), "after");
    lock.unlock(guard);
}

#[test]
fn scoped_release_makes_lock_acquirable_again() {
    let mut lock = SpinLock::new(0u64);
    let guard = lock.lock();
    lock.unlock(guard);
    // A release is never permanent: the next acquisition succeeds.
    let guard = lock.lock();
    lock.unlock(guard);
    let guard = lock.lock();
    assert_eq!(*guard.borrow(), 0);
    lock.unlock(guard);
}

#[test]
fn release_then_reacquire_sees_same_value() {
    let mut lock = SpinLock::new(31u32);
    let guard = lock.lock();
    let guard = lock.release_then_reacquire(guard);
    assert_eq!(*guard.borrow(), 31);
    lock.unlock(guard);
}

// The critical section releases on every exit path, here the early one.
fn add_capped(lock: &mut SpinLock<u64>, cap: u64) -> bool {
    let mut guard = lock.lock();
    let current = *guard.borrow();
    if current >= cap {
        lock.unlock(guard);
        return false;
    }
    guard.set(current + 1);
    lock.unlock(guard);
    true
}

#[test]
fn early_return_inside_critical_section_still_releases() {
    let mut lock = SpinLock::new(1u64);
    assert!(!add_capped(&mut lock, 1));
    // The early-return path released the lock: acquiring works again.
    assert!(add_capped(&mut lock, 2));
    let guard = lock.lock();
    assert_eq!(*guard.borrow(), 2);
    lock.unlock(guard);
}

#[test]
fn interleaved_increments_lose_no_update() {
    // Four workers of a thousand increments each, their critical sections
    // interleaved round-robin: the counter ends at exactly the sum.
    let mut lock = SpinLock::new(0u64);
    for _round in 0..1000u64 {
        for _worker in 0..4u64 {
            locked_increment(&mut lock);
        }
    }
    let guard = lock.lock();
    assert_eq!(*guard.borrow(), 4000);
    lock.unlock(guard);
}

#[test]
fn increment_reaches_the_top_of_the_range() {
    let mut lock = SpinLock::new(u64::MAX - 1);
    locked_increment(&mut lock);
    let guard = lock.lock();
    assert_eq!(*guard.borrow(), u64::MAX);
    lock.unlock(guard);
}

#[test]
fn increment_many_adds_exactly_count() {
    let mut lock = SpinLock::new(58u64);
    increment_many(&mut lock, 1000);
    let guard = lock.lock();
    assert_eq!(*guard.borrow(), 1058);
    lock.unlock(guard);
}
