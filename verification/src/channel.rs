//! Unbounded FIFO channel with blocking receive.
//!
//! A [`Channel`] decouples producer and consumer threads with ordered
//! delivery. The verified model owns the queue directly; its view is the
//! sequence of queued messages, oldest first. `send` appends and never blocks
//! (there is no capacity bound); `recv` removes the front message and demands
//! a non-empty queue — a receiver that finds the queue empty has nothing to
//! take and must wait for a send. [`Channel::try_recv`] is that re-check, the
//! decision a blocked receiver takes on every wake: the runner parks the
//! thread on its condition variable between calls, so a wake that found no
//! message (spurious, or stolen by another receiver) just leads back to
//! waiting. There is no close or shutdown state: a channel that is never sent
//! to leaves its receivers waiting forever.

use std::collections::VecDeque;
use vstd::prelude::*;
use vstd::multiset::Multiset;
use vstd::seq_lib::group_to_multiset_ensures;

verus! {

/// An unbounded FIFO queue of messages of type `T`.
#[derive(Debug)]
pub struct Channel<T> {
    queue: VecDeque<T>,
}

impl<T> View for Channel<T> {
    type V = Seq<T>;

    /// The queued messages, oldest first.
    closed spec fn view(&self) -> Seq<T> {
        self.queue@
    }
}

impl<T> Channel<T> {
    /// An empty channel. No failure mode.
    pub fn new() -> (channel: Self)
        ensures
            channel@ == Seq::<T>::empty(),
    {
        Channel { queue: VecDeque::new() }
    }

    /// Appends `message` to the back of the queue. Never fails and never
    /// blocks; the queue is unbounded. A runner wakes one blocked receiver
    /// after each send.
    pub fn send(&mut self, message: T)
        ensures
            final(self)@ == old(self)@.push(message),
    {
        self.queue.push_back(message);
    }

    /// Removes and returns the front message.
    ///
    /// Delivery is in send order: the message returned is the oldest one
    /// queued. A receiver that holds an empty queue must wait for a send
    /// instead; between threads that wait is the blocking in `recv`, which is
    /// why an empty queue is excluded here.
    pub fn recv(&mut self) -> (message: T)
        requires
            old(self)@.len() > 0,
        ensures
            message == old(self)@[0],
            final(self)@ == old(self)@.drop_first(),
    {
        let front = self.queue.pop_front();
        front.unwrap()
    }

    /// The re-check a blocked receiver performs on every wake: the front
    /// message if one is queued, nothing otherwise.
    ///
    /// Returns `None`, leaving the channel unchanged, exactly when the queue
    /// is empty — a wake without data (spurious, or stolen by another
    /// receiver) delivers nothing, and the receiver goes back to waiting.
    pub fn try_recv(&mut self) -> (message: Option<T>)
        ensures
            old(self)@.len() == 0 ==> message is None && final(self)@ == old(self)@,
            old(self)@.len() > 0 ==> message == Some(old(self)@[0]) && final(self)@ == old(
                self,
            )@.drop_first(),
    {
        let front = self.queue.pop_front();
        front
    }

    /// The number of queued messages.
    pub fn len(&self) -> (n: usize)
        ensures
            n == self@.len(),
    {
        self.queue.len()
    }
}

/// The queue after the messages `msgs` have been sent, in order, into a
/// channel whose queue held `q`; each send appends one message, as
/// [`Channel::send`] does.
pub open spec fn queue_after_sends<T>(q: Seq<T>, msgs: Seq<T>) -> Seq<T>
    decreases msgs.len(),
{
    if msgs.len() == 0 {
        q
    } else {
        queue_after_sends(q.push(msgs[0]), msgs.drop_first())
    }
}

/// Sends append: after sending `msgs` in order, the queue is the old queue
/// followed by `msgs`.
pub proof fn lemma_sends_append<T>(q: Seq<T>, msgs: Seq<T>)
    ensures
        queue_after_sends(q, msgs) == q + msgs,
    decreases msgs.len(),
{
    if msgs.len() == 0 {
        assert(q + msgs =~= q);
    } else {
        lemma_sends_append(q.push(msgs[0]), msgs.drop_first());
        assert(q.push(msgs[0]) + msgs.drop_first() =~= q + msgs);
    }
}

/// The messages that `count` successive receives return, in order, from a
/// queue holding `q`; each receive takes the front message, as
/// [`Channel::recv`] does.
pub open spec fn received_prefix<T>(q: Seq<T>, count: nat) -> Seq<T>
    decreases count,
{
    if count == 0 {
        Seq::empty()
    } else {
        seq![q[0]] + received_prefix(q.drop_first(), (count - 1) as nat)
    }
}

/// Receives drain the queue from the front: `count` receives return the first
/// `count` queued messages in queue order.
pub proof fn lemma_receives_take_prefix<T>(q: Seq<T>, count: nat)
    requires
        count <= q.len(),
    ensures
        received_prefix(q, count) == q.take(count as int),
    decreases count,
{
    if count > 0 {
        lemma_receives_take_prefix(q.drop_first(), (count - 1) as nat);
        assert(seq![q[0]] + q.drop_first().take(count as int - 1) =~= q.take(count as int));
    }
}

/// FIFO ordering: a sender sending `msgs` in order into an empty channel, and
/// a receiver receiving once per message, sees exactly `msgs`, in send order
/// — for a run of any length, including none.
pub proof fn lemma_fifo_order<T>(msgs: Seq<T>)
    ensures
        received_prefix(queue_after_sends(Seq::<T>::empty(), msgs), msgs.len()) == msgs,
{
    lemma_sends_append(Seq::<T>::empty(), msgs);
    assert(Seq::<T>::empty() + msgs =~= msgs);
    lemma_receives_take_prefix(msgs, msgs.len());
    assert(msgs.take(msgs.len() as int) =~= msgs);
}

/// One step some thread takes on a channel: a sender appends a message, or a
/// receiver takes the front one.
pub enum ChannelOp<T> {
    /// A send of the carried message.
    SendOp(T),
    /// A receive; the message it returns is determined by the queue.
    RecvOp,
}

/// Every receive in `ops`, played against a queue starting at `q`, finds the
/// queue non-empty. A real run satisfies this by construction: a receiver
/// whose wake finds no message takes nothing and goes back to waiting, so
/// only woken receives that found data appear in the trace.
pub open spec fn ops_enabled<T>(q: Seq<T>, ops: Seq<ChannelOp<T>>) -> bool
    decreases ops.len(),
{
    if ops.len() == 0 {
        true
    } else {
        match ops[0] {
            ChannelOp::SendOp(m) => ops_enabled(q.push(m), ops.drop_first()),
            ChannelOp::RecvOp => q.len() > 0 && ops_enabled(q.drop_first(), ops.drop_first()),
        }
    }
}

/// The queue after the trace `ops` has run against a queue starting at `q`.
pub open spec fn queue_after_ops<T>(q: Seq<T>, ops: Seq<ChannelOp<T>>) -> Seq<T>
    decreases ops.len(),
{
    if ops.len() == 0 {
        q
    } else {
        match ops[0] {
            ChannelOp::SendOp(m) => queue_after_ops(q.push(m), ops.drop_first()),
            ChannelOp::RecvOp => queue_after_ops(q.drop_first(), ops.drop_first()),
        }
    }
}

/// The multiset of messages the receives in `ops` deliver, played against a
/// queue starting at `q`. A multiset, because which receiver got which
/// message carries no order between threads.
pub open spec fn delivered<T>(q: Seq<T>, ops: Seq<ChannelOp<T>>) -> Multiset<T>
    decreases ops.len(),
{
    if ops.len() == 0 {
        Multiset::empty()
    } else {
        match ops[0] {
            ChannelOp::SendOp(m) => delivered(q.push(m), ops.drop_first()),
            ChannelOp::RecvOp => delivered(q.drop_first(), ops.drop_first()).insert(q[0]),
        }
    }
}

/// The multiset of messages the sends in `ops` contribute.
pub open spec fn sent<T>(ops: Seq<ChannelOp<T>>) -> Multiset<T>
    decreases ops.len(),
{
    if ops.len() == 0 {
        Multiset::empty()
    } else {
        match ops[0] {
            ChannelOp::SendOp(m) => sent(ops.drop_first()).insert(m),
            ChannelOp::RecvOp => sent(ops.drop_first()),
        }
    }
}

/// Taking the front of a non-empty queue conserves its contents: the queue's
/// multiset is the remainder's plus the taken message.
proof fn lemma_take_front_conserves<T>(q: Seq<T>)
    requires
        q.len() > 0,
    ensures
        q.to_multiset() == q.drop_first().to_multiset().insert(q[0]),
{
    broadcast use group_to_multiset_ensures;

    assert(q.remove(0) =~= q.drop_first());
    assert(q.remove(0).to_multiset() =~= q.to_multiset().remove(q[0]));
    assert(q.contains(q[0]));
    assert(q.to_multiset().count(q[0]) > 0);
    assert(q.drop_first().to_multiset().insert(q[0]) =~= q.to_multiset());
}

/// No loss and no duplication: over any interleaved trace of sends and
/// receives, by any number of threads, what went in is exactly what is
/// accounted for — the starting queue plus everything sent equals everything
/// delivered plus what is still queued, as multisets, so every message is
/// delivered at most once and none vanishes.
pub proof fn lemma_no_loss_no_duplication<T>(q: Seq<T>, ops: Seq<ChannelOp<T>>)
    requires
        ops_enabled(q, ops),
    ensures
        q.to_multiset().add(sent(ops)) == delivered(q, ops).add(
            queue_after_ops(q, ops).to_multiset(),
        ),
    decreases ops.len(),
{
    broadcast use group_to_multiset_ensures;

    if ops.len() == 0 {
        assert(q.to_multiset().add(Multiset::empty()) =~= Multiset::empty().add(q.to_multiset()));
    } else {
        match ops[0] {
            ChannelOp::SendOp(m) => {
                lemma_no_loss_no_duplication(q.push(m), ops.drop_first());
                assert(q.push(m).to_multiset() =~= q.to_multiset().insert(m));
                assert(q.to_multiset().add(sent(ops.drop_first()).insert(m)) =~= q.push(
                    m,
                ).to_multiset().add(sent(ops.drop_first())));
            },
            ChannelOp::RecvOp => {
                lemma_no_loss_no_duplication(q.drop_first(), ops.drop_first());
                lemma_take_front_conserves(q);
                assert(q.to_multiset().add(sent(ops.drop_first()))
                    =~= q.drop_first().to_multiset().add(sent(ops.drop_first())).insert(q[0]));
                assert(delivered(q.drop_first(), ops.drop_first()).insert(q[0]).add(
                    queue_after_ops(q.drop_first(), ops.drop_first()).to_multiset(),
                ) =~= delivered(q.drop_first(), ops.drop_first()).add(
                    queue_after_ops(q.drop_first(), ops.drop_first()).to_multiset(),
                ).insert(q[0]));
            },
        }
    }
}

/// A trace that starts empty and ends empty delivered exactly what was sent:
/// disjoint message sets from many senders reach the receivers once each.
pub proof fn lemma_all_sent_are_delivered<T>(ops: Seq<ChannelOp<T>>)
    requires
        ops_enabled(Seq::<T>::empty(), ops),
        queue_after_ops(Seq::<T>::empty(), ops).len() == 0,
    ensures
        delivered(Seq::<T>::empty(), ops) == sent(ops),
{
    broadcast use group_to_multiset_ensures;

    lemma_no_loss_no_duplication(Seq::<T>::empty(), ops);
    assert(Seq::<T>::empty().to_multiset() =~= Multiset::<T>::empty()) by {
        Seq::<T>::empty().to_multiset_ensures();
    }
    assert(queue_after_ops(Seq::<T>::empty(), ops).to_multiset() =~= Multiset::<T>::empty()) by {
        queue_after_ops(Seq::<T>::empty(), ops).to_multiset_ensures();
    }
    assert(Multiset::<T>::empty().add(sent(ops)) =~= sent(ops));
    assert(delivered(Seq::<T>::empty(), ops).add(Multiset::<T>::empty()) =~= delivered(
        Seq::<T>::empty(),
        ops,
    ));
}

} // verus!
