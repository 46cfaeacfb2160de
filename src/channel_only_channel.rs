//! The single-handle channel: one value shared by reference among the
//! threads that send and the one that receives, with no count of senders
//! and no closing.
use crate::locking::{guarded, lock, new_condvar, new_mutex, notify_one, wait_while};
use std::collections::VecDeque;
use std::sync::{Condvar, Mutex};
use vstd::prelude::*;

verus! {

/// Whether no message is queued.
fn queue_is_empty<T>(q: &VecDeque<T>) -> (r: bool)
    ensures
        r == (q@.len() == 0),
{
    q.len() == 0
}

/// A queue behind a lock, and the condition on which a receiver waits.
#[verifier::reject_recursive_types(T)]
pub struct Channel<T> {
    msg_queue: Mutex<VecDeque<T>>,
    recv_wakeup_flag: Condvar,
}

impl<T> Channel<T> {
    /// An empty channel.
    pub fn new() -> Self {
        Channel { msg_queue: new_mutex(VecDeque::new()), recv_wakeup_flag: new_condvar() }
    }

    /// Appends `value` to the queue and wakes a waiting receiver.
    pub fn send(&self, value: T) {
        {
            let mut guard = lock(&self.msg_queue);
            guarded(&mut guard).push_back(value);
        }
        notify_one(&self.recv_wakeup_flag);
    }

    /// Blocks until a message is queued and takes the oldest. `None` would
    /// mean a wake-up with nothing queued, which the wait rules out.
    pub fn recv(&self) -> Option<T> {
        let guard = lock(&self.msg_queue);
        let mut guard = wait_while(
            &self.recv_wakeup_flag,
            guard,
            |q: &mut VecDeque<T>| queue_is_empty(q),
        );
        guarded(&mut guard).pop_front()
    }
}

} // verus!
