use mpsc_channel::channel_only_channel::Channel;
use mpsc_channel::tx_rx_channel::NoMoreSenderErr;
use mpsc_channel::tx_rx_channel;

#[test]
fn channel_only_channel_basic_send_recv() {
    let ch = Channel::<u32>::new();
    ch.send(1);
    ch.send(2);
    assert_eq!(ch.recv(), Some(1));
    assert_eq!(ch.recv(), Some(2));
}

#[test]
fn tx_rx_channel_naive_send_recv() {
    let (test_tx, test_rx) = tx_rx_channel::channel::<u32>();
    let _ = test_tx.send(42);
    assert_eq!(test_rx.tx_unaware_recv(), Some(42));
}

#[test]
fn rx_err_for_no_tx_before_blocking() {
    let (test_tx, test_rx) = tx_rx_channel::channel::<u32>();
    let _ = test_tx.send(42);
    assert_eq!(test_rx.recv().unwrap(), 42);
    drop(test_tx);
    assert!(test_rx.recv().is_err())
}

#[test]
fn tx_err_for_no_rx() {
    let (test_tx, test_rx) = tx_rx_channel::channel::<u32>();
    drop(test_rx);
    assert_eq!(test_tx.send(42).unwrap_err().0, 42);
}

#[test]
fn send_then_recv_then_exhausted() {
    let (tx, rx) = tx_rx_channel::channel::<i32>();
    assert!(tx.send(42).is_ok());
    assert_eq!(rx.recv(), Ok(42));
    drop(tx);
    assert_eq!(rx.recv(), Err(NoMoreSenderErr));
}

#[test]
fn send_after_receiver_dropped_returns_value() {
    let (tx, rx) = tx_rx_channel::channel::<i32>();
    drop(rx);
    let err = tx.send(7).unwrap_err();
    assert_eq!(err.0, 7);
}

#[test]
fn fifo_over_several_senders() {
    let (tx, rx) = tx_rx_channel::channel::<u32>();
    let tx2 = tx.clone();
    let tx3 = tx2.clone();
    assert!(tx.send(1).is_ok());
    assert!(tx3.send(2).is_ok());
    assert!(tx2.send(3).is_ok());
    assert!(tx.send(4).is_ok());
    assert_eq!(rx.recv(), Ok(1));
    assert_eq!(rx.recv(), Ok(2));
    assert_eq!(rx.recv(), Ok(3));
    assert_eq!(rx.recv(), Ok(4));
}

#[test]
fn exhaustion_is_permanent() {
    let (tx, rx) = tx_rx_channel::channel::<u32>();
    assert!(tx.send(5).is_ok());
    drop(tx);
    assert_eq!(rx.recv(), Ok(5));
    for _ in 0..5 {
        assert_eq!(rx.recv(), Err(NoMoreSenderErr));
    }
}

#[test]
fn queued_messages_outlive_the_senders() {
    let (tx, rx) = tx_rx_channel::channel::<u32>();
    assert!(tx.send(10).is_ok());
    assert!(tx.send(11).is_ok());
    drop(tx);
    assert_eq!(rx.recv(), Ok(10));
    assert_eq!(rx.recv(), Ok(11));
    assert_eq!(rx.recv(), Err(NoMoreSenderErr));
}

#[test]
fn duplicated_senders_keep_channel_open() {
    let (tx, rx) = tx_rx_channel::channel::<u32>();
    let clones: Vec<_> = (0..3).map(|_| tx.clone()).collect();
    drop(clones);
    assert!(tx.send(8).is_ok());
    assert_eq!(rx.recv(), Ok(8));
    drop(tx);
    assert_eq!(rx.recv(), Err(NoMoreSenderErr));
}
