//! The data that every handle of one channel shares under its lock, and the
//! decisions that `send`, `recv`, duplication and discard make on it.
use std::collections::VecDeque;
use vstd::prelude::*;

verus! {

/// Returned by a send once the receiving end is gone; it carries the value
/// that could not be delivered.
pub struct NoMoreReceiverErr<T>(pub T);

/// Returned by a receive when the queue is empty and no sender is left.
#[derive(Debug, PartialEq, Eq, Structural)]
pub struct NoMoreSenderErr;

/// The abstract state of a channel.
pub ghost struct ChannelModel<T> {
    /// Messages sent and not yet received, oldest first.
    pub queue: Seq<T>,
    /// Number of live senders.
    pub senders: nat,
    /// Whether the receiver still exists.
    pub receiver_live: bool,
}

/// The state after a send of `v`: appended while the receiver lives,
/// unchanged otherwise.
pub open spec fn after_send<T>(m: ChannelModel<T>, v: T) -> ChannelModel<T> {
    if m.receiver_live {
        ChannelModel { queue: m.queue.push(v), ..m }
    } else {
        m
    }
}

/// What a send of `v` returns.
pub open spec fn send_result<T>(m: ChannelModel<T>, v: T) -> Result<(), NoMoreReceiverErr<T>> {
    if m.receiver_live {
        Ok(())
    } else {
        Err(NoMoreReceiverErr(v))
    }
}

/// The state after one receive once the wait is over: the front leaves the
/// queue if there is one.
pub open spec fn after_recv<T>(m: ChannelModel<T>) -> ChannelModel<T> {
    if m.queue.len() > 0 {
        ChannelModel { queue: m.queue.drop_first(), ..m }
    } else {
        m
    }
}

/// What one receive returns once the wait is over.
pub open spec fn recv_result<T>(m: ChannelModel<T>) -> Result<T, NoMoreSenderErr> {
    if m.queue.len() > 0 {
        Ok(m.queue[0])
    } else {
        Err(NoMoreSenderErr)
    }
}

/// Whether a receive has to block: nothing is queued and a sender may still
/// send.
pub open spec fn must_block<T>(m: ChannelModel<T>) -> bool {
    m.queue.len() == 0 && m.senders > 0
}

/// The state after a sender is duplicated. The count is held in a `usize`;
/// it cannot reach `usize::MAX` in practice, since each sender also holds a
/// reference count that the allocator bounds far below that.
pub open spec fn after_add_sender<T>(m: ChannelModel<T>) -> ChannelModel<T> {
    if m.senders < usize::MAX {
        ChannelModel { senders: m.senders + 1, ..m }
    } else {
        m
    }
}

/// The state after a sender is discarded.
pub open spec fn after_remove_sender<T>(m: ChannelModel<T>) -> ChannelModel<T> {
    if m.senders > 0 {
        ChannelModel { senders: (m.senders - 1) as nat, ..m }
    } else {
        m
    }
}

/// The state after the receiver is discarded.
pub open spec fn after_close<T>(m: ChannelModel<T>) -> ChannelModel<T> {
    ChannelModel { receiver_live: false, ..m }
}

/// The lock-protected part of a channel.
pub struct SharedInnerMut<T> {
    msg_queue: VecDeque<T>,
    sender_cnt: usize,
    receiver_live: bool,
}

impl<T> View for SharedInnerMut<T> {
    type V = ChannelModel<T>;

    closed spec fn view(&self) -> ChannelModel<T> {
        ChannelModel {
            queue: self.msg_queue@,
            senders: self.sender_cnt as nat,
            receiver_live: self.receiver_live,
        }
    }
}

impl<T> SharedInnerMut<T> {
    /// The state of a new channel: nothing queued, one sender, a live
    /// receiver.
    pub fn new() -> (s: Self)
        ensures
            s@.queue == Seq::<T>::empty(),
            s@.senders == 1,
            s@.receiver_live,
    {
        SharedInnerMut { msg_queue: VecDeque::new(), sender_cnt: 1, receiver_live: true }
    }

    /// Appends `value` while the receiver lives; otherwise hands it back.
    pub fn push_msg(&mut self, value: T) -> (r: Result<(), NoMoreReceiverErr<T>>)
        ensures
            final(self)@ == after_send(old(self)@, value),
            r == send_result(old(self)@, value),
    {
        if self.receiver_live {
            self.msg_queue.push_back(value);
            Ok(())
        } else {
            Err(NoMoreReceiverErr(value))
        }
    }

    /// Whether a receive has to wait for a message or for the last sender to
    /// go.
    pub fn must_wait(&self) -> (r: bool)
        ensures
            r == must_block(self@),
    {
        self.msg_queue.len() == 0 && self.sender_cnt > 0
    }

    /// Whether no message is queued.
    pub fn queue_is_empty(&self) -> (r: bool)
        ensures
            r == (self@.queue.len() == 0),
    {
        self.msg_queue.len() == 0
    }

    /// Takes the oldest message, or reports that none is queued. Called once
    /// waiting is over, when an empty queue means that no sender is left.
    pub fn take_msg(&mut self) -> (r: Result<T, NoMoreSenderErr>)
        ensures
            final(self)@ == after_recv(old(self)@),
            r == recv_result(old(self)@),
    {
        match self.msg_queue.pop_front() {
            Some(msg) => Ok(msg),
            None => Err(NoMoreSenderErr),
        }
    }

    /// Counts one more sender.
    pub fn add_sender(&mut self)
        ensures
            final(self)@ == after_add_sender(old(self)@),
    {
        if self.sender_cnt < usize::MAX {
            self.sender_cnt = self.sender_cnt + 1;
        }
    }

    /// Counts one sender less; returns whether none is left, which is when
    /// the receiver has to be woken.
    pub fn remove_sender(&mut self) -> (none_left: bool)
        ensures
            final(self)@ == after_remove_sender(old(self)@),
            none_left == (final(self)@.senders == 0),
        opens_invariants none
        no_unwind
    {
        if self.sender_cnt > 0 {
            self.sender_cnt = self.sender_cnt - 1;
        }
        self.sender_cnt == 0
    }

    /// Records that the receiver is gone.
    pub fn close_receiver(&mut self)
        ensures
            final(self)@ == after_close(old(self)@),
        opens_invariants none
        no_unwind
    {
        self.receiver_live = false;
    }
}

} // verus!
