use mpsc_channel::channel;

#[test]
fn test_channel() {
    let (tx, mut rx) = channel();
    tx.send(10);
    tx.send(12);
    tx.send(13);
    tx.send(14);
    drop(tx);
    assert_eq!(rx.recv(), Some(10));
    assert_eq!(rx.recv(), Some(12));
    assert_eq!(rx.recv(), Some(13));
    assert_eq!(rx.recv(), Some(14));
    assert_eq!(rx.recv(), None);
}

#[test]
fn drop_receiver() {
    let (tx, rx) = channel();
    drop(rx);
    tx.send(1);
}

#[test]
fn drop_sender() {
    let (tx, mut rx) = channel::<i32>();
    drop(tx);
    assert_eq!(rx.recv(), None);
}

#[test]
fn recv_iterator() {
    let (tx, mut rx) = channel();
    tx.send(1);
    tx.send(2);
    drop(tx);
    while let Some(val) = rx.next() {
        assert!(val == 1 || val == 2);
    }
}

#[test]
fn sends_after_receiver_dropped_are_accepted() {
    let (tx, rx) = channel();
    drop(rx);
    tx.send(1);
    tx.send(2);
    tx.send(3);
}

#[test]
fn fifo_across_batch_boundaries() {
    let (tx, mut rx) = channel();
    tx.send(1);
    tx.send(2);
    // The first recv swaps both queued values into the read-ahead buffer.
    assert_eq!(rx.recv(), Some(1));
    tx.send(3);
    // The buffered value precedes anything sent later.
    assert_eq!(rx.recv(), Some(2));
    assert_eq!(rx.recv(), Some(3));
    drop(tx);
    assert_eq!(rx.recv(), None);
}

#[test]
fn fifo_across_cloned_senders() {
    let (tx, mut rx) = channel();
    let tx2 = tx.clone();
    tx.send(1);
    tx2.send(2);
    tx.send(3);
    drop(tx);
    drop(tx2);
    assert_eq!(rx.recv(), Some(1));
    assert_eq!(rx.recv(), Some(2));
    assert_eq!(rx.recv(), Some(3));
    assert_eq!(rx.recv(), None);
}

#[test]
fn clone_shares_the_channel() {
    let (tx, mut rx) = channel();
    let tx2 = tx.clone();
    drop(tx);
    // A value sent on the clone reaches the one receiver.
    tx2.send(5);
    drop(tx2);
    assert_eq!(rx.recv(), Some(5));
    assert_eq!(rx.recv(), None);
}

#[test]
fn clones_dropped_in_any_order_keep_the_count_right() {
    let (tx, mut rx) = channel::<i32>();
    let a = tx.clone();
    let b = tx.clone();
    let c = a.clone();
    drop(b);
    drop(tx);
    drop(c);
    // One sender is still alive, so nothing is lost yet.
    a.send(7);
    drop(a);
    assert_eq!(rx.recv(), Some(7));
    assert_eq!(rx.recv(), None);
}

#[test]
fn exhaustion_is_permanent() {
    let (tx, mut rx) = channel();
    tx.send(4);
    drop(tx);
    assert_eq!(rx.next(), Some(4));
    assert_eq!(rx.next(), None);
    assert_eq!(rx.next(), None);
    assert_eq!(rx.recv(), None);
}

#[test]
fn empty_channel_ends_immediately() {
    let (tx, mut rx) = channel::<u64>();
    drop(tx);
    assert_eq!(rx.recv(), None);
    assert_eq!(rx.recv(), None);
}

#[test]
fn sequence_adapter_yields_arrival_order() {
    let (tx, mut rx) = channel();
    let tx2 = tx.clone();
    tx.send(10);
    tx2.send(20);
    tx.send(30);
    drop(tx);
    drop(tx2);
    let mut seen = Vec::new();
    while let Some(val) = rx.next() {
        seen.push(val);
    }
    assert_eq!(seen, vec![10, 20, 30]);
}
