//! The wait loop shared by both channels, as a state machine over wakes.
//!
//! Both receive operations follow the same shape: check the shared state; if
//! a value is there, take it and return; otherwise block on the condition
//! variable and re-check on every wake. A wake carries either a freshly sent
//! value or nothing at all (a spurious wake, or one whose message another
//! receiver already took). [`delivery`] folds that loop over a sequence of
//! observed wakes, and the lemmas here state the two guarantees the loop
//! gives: a receiver never returns before a send has occurred, and spurious
//! wakes alone never make it return.

use vstd::prelude::*;

verus! {

/// What a blocked receiver observes on one wake: either a value became
/// available since it last looked, or nothing did.
pub enum Wake<T> {
    /// A sender deposited `T` and signalled.
    Sent(T),
    /// The thread woke with no deposit: a spurious wake, or a wake whose
    /// message another receiver already consumed.
    Empty,
}

/// The slot as the receiver sees it after one wake.
pub open spec fn after_wake<T>(slot: Option<T>, wake: Wake<T>) -> Option<T> {
    match wake {
        Wake::Sent(value) => Some(value),
        Wake::Empty => slot,
    }
}

/// The value a receiver starting at `slot` returns after observing `wakes`,
/// or `None` if it is still blocked when the wakes run out.
///
/// This is the receive loop itself: a filled slot is taken at once; an empty
/// slot sends the receiver back to wait for the next wake.
pub open spec fn delivery<T>(slot: Option<T>, wakes: Seq<Wake<T>>) -> Option<T>
    decreases wakes.len(),
{
    if slot is Some {
        slot
    } else if wakes.len() == 0 {
        None
    } else {
        delivery(after_wake(slot, wakes[0]), wakes.drop_first())
    }
}

/// A receiver invoked before any send blocks until a send occurs: it returns
/// a value only if the slot already held one or some observed wake carried a
/// deposit. In particular, with no send at all it never returns.
pub proof fn lemma_delivery_needs_send<T>(slot: Option<T>, wakes: Seq<Wake<T>>)
    ensures
        delivery(slot, wakes) is Some ==> slot is Some || exists|i: int|
            0 <= i < wakes.len() && wakes[i] is Sent,
    decreases wakes.len(),
{
    if slot is None && wakes.len() > 0 {
        lemma_delivery_needs_send(after_wake(slot, wakes[0]), wakes.drop_first());
        if delivery(slot, wakes) is Some {
            if wakes[0] is Sent {
                assert(wakes[0] is Sent);
            } else {
                let j = choose|j: int|
                    0 <= j < wakes.drop_first().len() && wakes.drop_first()[j] is Sent;
                assert(wakes[j + 1] is Sent);
            }
        }
    }
}

/// The first deposit is the one delivered: a receiver that starts empty and
/// observes only empty wakes until index `i`, where a value is deposited,
/// returns exactly that value.
pub proof fn lemma_first_send_delivered<T>(wakes: Seq<Wake<T>>, i: int)
    requires
        0 <= i < wakes.len(),
        wakes[i] is Sent,
        forall|j: int| 0 <= j < i ==> wakes[j] is Empty,
    ensures
        delivery(None::<T>, wakes) == Some(wakes[i]->Sent_0),
    decreases i,
{
    if i == 0 {
        assert(delivery(None::<T>, wakes) == delivery(
            Some(wakes[0]->Sent_0),
            wakes.drop_first(),
        ));
    } else {
        assert(wakes[0] is Empty);
        assert(delivery(None::<T>, wakes) == delivery(None::<T>, wakes.drop_first()));
        lemma_first_send_delivered(wakes.drop_first(), i - 1);
        assert(wakes.drop_first()[i - 1] == wakes[i]);
    }
}

/// Spurious wakes with no data available never make the receiver return: it
/// re-checks, finds nothing, and keeps waiting, however many times it wakes.
pub proof fn lemma_spurious_wakes_do_not_deliver<T>(wakes: Seq<Wake<T>>)
    requires
        forall|i: int| 0 <= i < wakes.len() ==> wakes[i] is Empty,
    ensures
        delivery(None::<T>, wakes) is None,
{
    lemma_delivery_needs_send(None::<T>, wakes);
}

} // verus!
