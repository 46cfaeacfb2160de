//! The multi-producer, single-consumer channel: any number of `Sender`s, one
//! `Receiver`, one queue behind one lock.
use crate::locking::{guarded, lock, new_condvar, new_mutex, notify_one, share, wait_while};
use crate::state::SharedInnerMut;
pub use crate::state::{NoMoreReceiverErr, NoMoreSenderErr};
use std::sync::{Arc, Condvar, Mutex};
use vstd::prelude::*;

verus! {

/// What the handles of one channel share: the guarded state and the
/// condition on which the receiver waits.
#[verifier::reject_recursive_types(T)]
struct SharedInner<T> {
    inner_mut_data: Mutex<SharedInnerMut<T>>,
    recv_wakeup_flag: Condvar,
}

/// A sending end. Duplicating one counts one more sender; discarding one
/// counts one less, and the last one gone wakes the receiver.
#[verifier::reject_recursive_types(T)]
pub struct Sender<T> {
    shared_inner: Arc<SharedInner<T>>,
}

/// The one receiving end.
#[verifier::reject_recursive_types(T)]
pub struct Receiver<T> {
    shared_inner: Arc<SharedInner<T>>,
}

impl<T> Sender<T> {
    /// Whether `self` and `o` send into the same channel.
    pub closed spec fn same_block(&self, o: &Sender<T>) -> bool {
        self.shared_inner == o.shared_inner
    }

    /// Whether `self` sends to the receiver `r`.
    pub closed spec fn same_channel(&self, r: &Receiver<T>) -> bool {
        self.shared_inner == r.shared_inner
    }

    /// Appends `value` to the queue and wakes the receiver, or hands `value`
    /// back once the receiver is gone.
    pub fn send(&self, value: T) -> (r: Result<(), NoMoreReceiverErr<T>>)
        ensures
            r matches Err(e) ==> e.0 == value,
    {
        let r = {
            let mut guard = lock(&self.shared_inner.inner_mut_data);
            guarded(&mut guard).push_msg(value)
        };
        if r.is_ok() {
            notify_one(&self.shared_inner.recv_wakeup_flag);
        }
        r
    }
}

impl<T> Clone for Sender<T> {
    /// Counts one more sender before the new handle exists.
    fn clone(&self) -> (r: Self)
        ensures
            r.same_block(self),
    {
        {
            let mut guard = lock(&self.shared_inner.inner_mut_data);
            guarded(&mut guard).add_sender();
        }
        Sender { shared_inner: share(&self.shared_inner) }
    }
}

impl<T> Drop for Sender<T> {
    /// Counts one sender less; the last one wakes the receiver, which then
    /// finds that no message can come any more.
    fn drop(&mut self)
        opens_invariants none
        no_unwind
    {
        let none_left = {
            let mut guard = lock(&self.shared_inner.inner_mut_data);
            guarded(&mut guard).remove_sender()
        };
        if none_left {
            notify_one(&self.shared_inner.recv_wakeup_flag);
        }
    }
}

impl<T> Receiver<T> {
    /// Blocks until a message is queued and takes the oldest, paying no
    /// attention to the senders: with none left and nothing queued it waits
    /// for ever. `None` would mean a wake-up with nothing queued, which the
    /// wait rules out.
    pub fn tx_unaware_recv(&self) -> (r: Option<T>) {
        let guard = lock(&self.shared_inner.inner_mut_data);
        let mut guard = wait_while(
            &self.shared_inner.recv_wakeup_flag,
            guard,
            |s: &mut SharedInnerMut<T>| s.queue_is_empty(),
        );
        match guarded(&mut guard).take_msg() {
            Ok(msg) => Some(msg),
            Err(_) => None,
        }
    }

    /// Blocks while nothing is queued and a sender is left; then takes the
    /// oldest message, or fails with `NoMoreSenderErr` when nothing is queued
    /// and no sender is left.
    pub fn recv(&self) -> (r: Result<T, NoMoreSenderErr>) {
        let guard = lock(&self.shared_inner.inner_mut_data);
        let mut guard = wait_while(
            &self.shared_inner.recv_wakeup_flag,
            guard,
            |s: &mut SharedInnerMut<T>| s.must_wait(),
        );
        guarded(&mut guard).take_msg()
    }
}

impl<T> Drop for Receiver<T> {
    /// Records that the receiver is gone, so that later sends fail.
    fn drop(&mut self)
        opens_invariants none
        no_unwind
    {
        let mut guard = lock(&self.shared_inner.inner_mut_data);
        guarded(&mut guard).close_receiver();
    }
}

/// A sender that shares its block with a sender of a channel sends to that
/// channel's receiver too; so does every clone of a clone.
pub proof fn lemma_same_block_same_channel<T>(a: &Sender<T>, b: &Sender<T>, r: &Receiver<T>)
    requires
        a.same_block(b),
        b.same_channel(r),
    ensures
        a.same_channel(r),
        b.same_block(a),
{
}

/// A new channel: one sender and the receiver over an empty queue.
pub fn channel<T>() -> (r: (Sender<T>, Receiver<T>))
    ensures
        r.0.same_channel(&r.1),
{
    let new_shared_inner = Arc::new(
        SharedInner {
            inner_mut_data: new_mutex(SharedInnerMut::new()),
            recv_wakeup_flag: new_condvar(),
        },
    );
    (
        Sender { shared_inner: share(&new_shared_inner) },
        Receiver { shared_inner: new_shared_inner },
    )
}

} // verus!
