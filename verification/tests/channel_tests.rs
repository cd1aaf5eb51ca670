use sync_primitives::channel::Channel;

#[test]
fn new_channel_is_empty() {
    let mut channel: Channel<u32> = Channel::new();
    assert_eq!(channel.len(), 0);
    assert_eq!(channel.try_recv(), None);
}

#[test]
fn send_then_recv_returns_message() {
    let mut channel: Channel<u32> = Channel::new();
    channel.send(23);
    assert_eq!(channel.recv(), 23);
    assert_eq!(channel.len(), 0);
}

#[test]
fn fifo_order_single_sender_single_receiver() {
    let mut channel: Channel<u64> = Channel::new();
    for m in 0..100u64 {
        channel.send(m);
    }
    for m in 0..100u64 {
        assert_eq!(channel.recv(), m);
    }
    assert_eq!(channel.len(), 0);
}

#[test]
fn fifo_order_holds_for_empty_run() {
    // k == 0: nothing sent, nothing received, in the same (empty) order.
    let mut channel: Channel<u64> = Channel::new();
    assert_eq!(channel.try_recv(), None);
}

#[test]
fn fifo_order_with_interleaved_sends_and_recvs() {
    let mut channel: Channel<u32> = Channel::new();
    channel.send(1);
    channel.send(2);
    assert_eq!(channel.recv(), 1);
    channel.send(3);
    assert_eq!(channel.recv(), 2);
    assert_eq!(channel.recv(), 3);
}

#[test]
fn no_loss_no_duplication_across_senders_and_receivers() {
    // Two senders with disjoint message sets, two receivers taking turns:
    // the multiset of everything received equals everything sent, once each.
    let mut channel: Channel<u32> = Channel::new();
    let sender_one: Vec<u32> = (0..50).collect();
    let sender_two: Vec<u32> = (100..150).collect();
    let mut received_by_one: Vec<u32> = Vec::new();
    let mut received_by_two: Vec<u32> = Vec::new();
    for i in 0..50 {
        // An arbitrary interleaving of the two senders and two receivers.
        channel.send(sender_one[i]);
        channel.send(sender_two[i]);
        if i % 2 == 0 {
            received_by_one.push(channel.recv());
        } else {
            received_by_two.push(channel.recv());
        }
    }
    let mut received: Vec<u32> = Vec::new();
    received.extend(received_by_one);
    received.extend(received_by_two);
    while let Some(m) = channel.try_recv() {
        received.push(m);
    }
    let mut sent: Vec<u32> = Vec::new();
    sent.extend(sender_one);
    sent.extend(sender_two);
    received.sort();
    sent.sort();
    assert_eq!(received, sent);
}

#[test]
fn receiver_before_send_keeps_waiting_until_send() {
    // A receiver woken with nothing queued takes nothing and waits on; the
    // first wake after the send delivers.
    let mut channel: Channel<&str> = Channel::new();
    assert_eq!(channel.try_recv(), None);
    assert_eq!(channel.try_recv(), None);
    channel.send("Hello!");
    assert_eq!(channel.try_recv(), Some("Hello!"));
}

#[test]
fn spurious_wake_delivers_nothing_and_changes_nothing() {
    let mut channel: Channel<u32> = Channel::new();
    channel.send(5);
    assert_eq!(channel.recv(), 5);
    // The queue is empty again: every further wake's re-check must come back
    // empty-handed, leaving the channel as it was.
    for _ in 0..10 {
        assert_eq!(channel.try_recv(), None);
        assert_eq!(channel.len(), 0);
    }
    channel.send(6);
    assert_eq!(channel.try_recv(), Some(6));
}
