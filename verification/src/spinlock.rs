//! Busy-wait mutual exclusion guarding one value.
//!
//! A [`SpinLock`] pairs an acquisition flag with the protected payload. The
//! verified model keeps the pair as plain owned state: acquiring the lock
//! moves the payload into a [`Guard`], the only handle through which it can be
//! read or written while the critical section is open, and releasing the lock
//! moves it back. The flag and the payload's presence track each other
//! exactly, so exclusive access follows from ownership of the guard: a second
//! acquisition is impossible while a guard is outstanding.
//!
//! A runner that shares the lock between threads spins on the flag before
//! entering; re-acquiring from the thread that already holds the lock spins
//! forever, which is why `lock` demands an unlocked state.

use vstd::prelude::*;

verus! {

/// Mutual exclusion for one value of type `T`.
///
/// The flag is set exactly while a [`Guard`] is outstanding, in which case the
/// payload lives in the guard rather than here.
#[derive(Debug)]
pub struct SpinLock<T> {
    locked: bool,
    value: Option<T>,
}

/// Exclusive, scoped access to the payload of a [`SpinLock`].
///
/// A guard exists only between `lock` and `unlock`; it owns the payload for
/// that span, so no other party can observe or change it.
pub struct Guard<T> {
    value: T,
}

impl<T> SpinLock<T> {
    /// The acquisition flag: true exactly while a guard is outstanding.
    pub closed spec fn is_locked(self) -> bool {
        self.locked
    }

    /// The flag and the payload's presence agree: the payload is away in a
    /// guard exactly while the lock is held.
    pub closed spec fn wf(self) -> bool {
        self.locked <==> self.value is None
    }

    /// The protected payload, meaningful while the lock is free.
    pub closed spec fn stored(self) -> T
        recommends
            !self.is_locked(),
    {
        self.value->Some_0
    }

    /// Wraps `value`; the flag starts cleared. No failure mode.
    pub fn new(value: T) -> (lock: Self)
        ensures
            lock.wf(),
            !lock.is_locked(),
            lock.stored() == value,
    {
        SpinLock { locked: false, value: Some(value) }
    }

    /// Acquires the lock, granting exclusive access to the payload through
    /// the returned guard.
    ///
    /// The caller must hold an unlocked state: a runner that shares the lock
    /// spins on the flag until it observes false, and a thread that
    /// re-acquires a lock it already holds spins forever.
    pub fn lock(&mut self) -> (guard: Guard<T>)
        requires
            old(self).wf(),
            !old(self).is_locked(),
        ensures
            final(self).wf(),
            final(self).is_locked(),
            guard@ == old(self).stored(),
    {
        self.locked = true;
        let value = self.value.take();
        Guard { value: value.unwrap() }
    }

    /// Releases the lock, returning the guard's payload to it.
    ///
    /// The released state satisfies `lock`'s precondition again, so another
    /// acquisition can always follow a release.
    pub fn unlock(&mut self, guard: Guard<T>)
        requires
            old(self).wf(),
            old(self).is_locked(),
        ensures
            final(self).wf(),
            !final(self).is_locked(),
            final(self).stored() == guard@,
    {
        self.value = Some(guard.value);
        self.locked = false;
    }

    /// Scoped release keeps the lock acquirable: whatever state a critical
    /// section leaves, once its guard is given back the next acquisition
    /// succeeds and observes the value the guard returned. A release can
    /// never leave the lock permanently dead.
    pub fn release_then_reacquire(&mut self, guard: Guard<T>) -> (reacquired: Guard<T>)
        requires
            old(self).wf(),
            old(self).is_locked(),
        ensures
            final(self).wf(),
            final(self).is_locked(),
            reacquired@ == guard@,
    {
        self.unlock(guard);
        self.lock()
    }
}

/// One whole critical section: acquire the lock, add one to the protected
/// counter, release. Mutual exclusion makes the three steps indivisible to
/// every other thread, which is what the schedule model below builds on.
pub fn locked_increment(lock: &mut SpinLock<u64>)
    requires
        old(lock).wf(),
        !old(lock).is_locked(),
        old(lock).stored() < u64::MAX,
    ensures
        final(lock).wf(),
        !final(lock).is_locked(),
        final(lock).stored() == old(lock).stored() + 1,
{
    let mut guard = lock.lock();
    let current = *guard.borrow();
    guard.set(current + 1);
    lock.unlock(guard);
}

/// One thread's run of `count` increments through the lock, each inside its
/// own critical section.
pub fn increment_many(lock: &mut SpinLock<u64>, count: u64)
    requires
        old(lock).wf(),
        !old(lock).is_locked(),
        old(lock).stored() + count <= u64::MAX,
    ensures
        final(lock).wf(),
        !final(lock).is_locked(),
        final(lock).stored() == old(lock).stored() + count,
{
    let mut done: u64 = 0;
    while done < count
        invariant
            done <= count,
            lock.wf(),
            !lock.is_locked(),
            lock.stored() == old(lock).stored() + done,
            old(lock).stored() + count <= u64::MAX,
        decreases count - done,
    {
        locked_increment(lock);
        done = done + 1;
    }
}

/// The counter after a schedule of critical sections has run.
///
/// Mutual exclusion serializes the sections, so any interleaving of any
/// number of incrementing threads is some total order of whole sections; the
/// schedule records, per section, which thread ran it, and each section adds
/// exactly one, whoever it belongs to.
pub open spec fn counter_after(initial: nat, schedule: Seq<nat>) -> nat
    decreases schedule.len(),
{
    if schedule.len() == 0 {
        initial
    } else {
        counter_after(initial, schedule.drop_last()) + 1
    }
}

/// No update is lost: after any schedule of lock-protected increments, in any
/// interleaving, the counter has grown by exactly the number of increments.
pub proof fn lemma_no_lost_updates(initial: nat, schedule: Seq<nat>)
    ensures
        counter_after(initial, schedule) == initial + schedule.len(),
    decreases schedule.len(),
{
    if schedule.len() > 0 {
        lemma_no_lost_updates(initial, schedule.drop_last());
    }
}

/// For `threads` threads incrementing `per_thread` times each, the final
/// counter equals the sum of all increments exactly, however the threads'
/// sections interleave.
pub proof fn lemma_counter_is_exact_sum(
    initial: nat,
    threads: nat,
    per_thread: nat,
    schedule: Seq<nat>,
)
    requires
        schedule.len() == threads * per_thread,
    ensures
        counter_after(initial, schedule) == initial + threads * per_thread,
{
    lemma_no_lost_updates(initial, schedule);
}

impl<T> Guard<T> {
    /// The payload held by this guard.
    pub closed spec fn view(self) -> T {
        self.value
    }

    /// Reads the protected value.
    pub fn borrow(&self) -> (r: &T)
        ensures
            *r == self@,
    {
        &self.value
    }

    /// Writes the protected value.
    pub fn set(&mut self, value: T)
        ensures
            final(self)@ == value,
    {
        self.value = value;
    }
}

} // verus!
