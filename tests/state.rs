use mpsc_channel::state::{NoMoreSenderErr, SharedInnerMut};

#[test]
fn new_state_has_one_sender_and_must_wait() {
    let s = SharedInnerMut::<u8>::new();
    assert!(s.must_wait());
    assert!(s.queue_is_empty());
}

#[test]
fn push_then_take_in_order() {
    let mut s = SharedInnerMut::<u8>::new();
    assert!(s.push_msg(3).is_ok());
    assert!(s.push_msg(4).is_ok());
    assert!(!s.must_wait());
    assert!(!s.queue_is_empty());
    assert_eq!(s.take_msg(), Ok(3));
    assert_eq!(s.take_msg(), Ok(4));
    assert_eq!(s.take_msg(), Err(NoMoreSenderErr));
}

#[test]
fn closed_receiver_rejects_push() {
    let mut s = SharedInnerMut::<u8>::new();
    s.close_receiver();
    let err = s.push_msg(7).unwrap_err();
    assert_eq!(err.0, 7);
    assert!(s.queue_is_empty());
}

#[test]
fn sender_count_follows_add_and_remove() {
    let mut s = SharedInnerMut::<u8>::new();
    s.add_sender();
    s.add_sender();
    assert!(!s.remove_sender());
    assert!(!s.remove_sender());
    assert!(s.must_wait());
    assert!(s.remove_sender());
    assert!(!s.must_wait());
    assert_eq!(s.take_msg(), Err(NoMoreSenderErr));
    assert!(s.remove_sender());
    assert_eq!(s.take_msg(), Err(NoMoreSenderErr));
}
