//! Single-slot, single-use mailbox with blocking receive.
//!
//! A [`OneShotChannel`] hands exactly one value from a producer to a
//! consumer. The verified model owns the slot directly; its view is the
//! optional value it holds. `send` stores into the slot, overwriting any
//! prior unconsumed value — last write wins when send is called twice before
//! a receive. `receive` takes the value out, leaving the slot empty, and
//! demands a filled slot; [`OneShotChannel::try_take`] is the re-check a
//! blocked receiver performs on every wake, and the runner parks the thread
//! between calls. Single use is the intended pattern, not enforced: a send
//! after a receive fills the slot again.

use vstd::prelude::*;

verus! {

/// The slot after a send of `message`: the sent value, whatever the slot held
/// before — a send overwrites silently, it never fails or blocks.
pub open spec fn slot_after_send<T>(slot: Option<T>, message: T) -> Option<T> {
    Some(message)
}

/// Last write wins: two sends with no receive between them leave the slot
/// holding the second value — the first is overwritten, so the next receive
/// returns the most recent one.
pub proof fn lemma_last_write_wins<T>(slot: Option<T>, first: T, second: T)
    ensures
        slot_after_send(slot_after_send(slot, first), second) == Some(second),
{
}

/// A one-value mailbox for a message of type `T`.
pub struct OneShotChannel<T> {
    message: Option<T>,
}

impl<T> View for OneShotChannel<T> {
    type V = Option<T>;

    /// The slot: the deposited value, if one is waiting.
    closed spec fn view(&self) -> Option<T> {
        self.message
    }
}

impl<T> OneShotChannel<T> {
    /// An empty mailbox. No failure mode.
    pub fn new() -> (channel: Self)
        ensures
            channel@ is None,
    {
        OneShotChannel { message: None }
    }

    /// Stores `message` into the slot, overwriting any prior unconsumed
    /// value. Never fails and never blocks; a runner wakes one blocked
    /// receiver after each send.
    pub fn send(&mut self, message: T)
        ensures
            final(self)@ == slot_after_send(old(self)@, message),
            final(self)@ == Some(message),
    {
        self.message = Some(message);
    }

    /// Takes the deposited value, leaving the slot empty.
    ///
    /// A receiver that finds the slot empty has nothing to take and must wait
    /// for a send instead; between threads that wait is the blocking in the
    /// receive loop, which is why an empty slot is excluded here.
    pub fn receive(&mut self) -> (message: T)
        requires
            old(self)@ is Some,
        ensures
            message == old(self)@->Some_0,
            final(self)@ is None,
    {
        let taken = self.message.take();
        taken.unwrap()
    }

    /// The re-check a blocked receiver performs on every wake: the deposited
    /// value if one is waiting, nothing otherwise.
    ///
    /// Returns `None`, leaving the slot as it was (empty), exactly when no
    /// value is waiting — a spurious wake delivers nothing, and the receiver
    /// goes back to waiting. When a value is waiting it is taken, so a second
    /// take cannot deliver it again.
    pub fn try_take(&mut self) -> (message: Option<T>)
        ensures
            message == old(self)@,
            final(self)@ is None,
    {
        self.message.take()
    }
}

} // verus!
