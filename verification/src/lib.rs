//! Hand-built thread synchronization primitives, modelled and verified at the
//! level of their shared state.
//!
//! Three independent components:
//! - [`spinlock::SpinLock`]: busy-wait mutual exclusion guarding one value.
//! - [`channel::Channel`]: unbounded FIFO queue with blocking receive.
//! - [`oneshot::OneShotChannel`]: single-slot, single-use mailbox.
//!
//! The verified code owns each primitive's protected state directly and states
//! exactly how every operation transforms it. The parts that a verifier cannot
//! see inside — parking a thread on a condition variable, spinning on an
//! atomic flag — are the caller's wait loop: the library supplies the decision
//! taken at each wake (`try_recv`, `try_take`) with an exact contract, and the
//! runner performs the wait between decisions.

pub mod channel;
pub mod oneshot;
pub mod spinlock;
pub mod waiting;
