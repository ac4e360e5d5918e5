use ownership::channel::{make_channel, RecvError, TryRecvError};
use ownership::concurrency_notes::Messages;

#[test]
fn three_senders_four_messages_each() {
    let (mut ch, tx0, rx) = make_channel::<String>();
    let tx1 = ch.clone_sender(&tx0);
    let tx2 = ch.clone_sender(&tx0);

    // The senders interleave; arrival order at the shared queue is FIFO.
    for seq in 0..4 {
        ch.send(&tx0, format!("from sender 0, sequence {seq}")).expect("receiver is live");
        ch.send(&tx1, format!("from sender 1, sequence {seq}")).expect("receiver is live");
        ch.send(&tx2, format!("from sender 2, sequence {seq}")).expect("receiver is live");
    }

    ch.drop_sender(tx0);
    ch.drop_sender(tx1);
    assert!(!ch.is_closed(), "one sender still live");
    ch.drop_sender(tx2);
    assert!(ch.is_closed(), "closed exactly when the last sender is gone");

    assert_eq!(ch.queued(), 12);
    let received = ch.recv_all(&rx);
    assert_eq!(ch.queued(), 0);
    assert_eq!(received.len(), 12, "iterating to exhaustion yields every message");

    // Each sender's messages arrive in that sender's send order.
    for sender in 0..3 {
        let of_sender: Vec<&String> = received
            .iter()
            .filter(|m| m.starts_with(&format!("from sender {sender},")))
            .collect();
        let expected: Vec<String> =
            (0..4).map(|seq| format!("from sender {sender}, sequence {seq}")).collect();
        assert_eq!(of_sender.len(), 4);
        for (got, want) in of_sender.iter().zip(expected.iter()) {
            assert_eq!(*got, want);
        }
    }

    // Exhausted and closed: the stream has ended.
    assert_eq!(ch.recv(&rx), Err(RecvError::Disconnected));
}

#[test]
fn recv_on_closed_empty_channel_disconnects_immediately() {
    let (mut ch, tx, rx) = make_channel::<u32>();
    ch.drop_sender(tx);
    assert_eq!(ch.recv(&rx), Err(RecvError::Disconnected));
}

#[test]
fn try_recv_tells_empty_from_disconnected() {
    let (mut ch, tx, rx) = make_channel::<u32>();
    assert_eq!(ch.try_recv(&rx), Err(TryRecvError::Empty));

    ch.send(&tx, 9).expect("receiver is live");
    assert_eq!(ch.try_recv(&rx), Ok(9));

    ch.drop_sender(tx);
    assert_eq!(ch.try_recv(&rx), Err(TryRecvError::Disconnected));
}

#[test]
fn send_fails_once_receiver_is_gone() {
    let (mut ch, tx, rx) = make_channel::<&'static str>();
    ch.send(&tx, "reaches the queue").expect("receiver is live");
    ch.drop_receiver(rx);
    let err = ch.send(&tx, "bounces").expect_err("receiver is gone");
    assert_eq!(err.0, "bounces");
    ch.drop_sender(tx);
}

#[test]
fn messages_walkthrough_collects_in_order() {
    let got = Messages::collect_four();
    assert_eq!(got, vec!["hi", "from", "the", "thread"]);
}
