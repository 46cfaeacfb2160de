//! What holds of a channel over several operations, stated on the model of
//! `state` that the operations' own contracts use.
use crate::state::{
    after_add_sender, after_close, after_recv, after_remove_sender, after_send, must_block,
    recv_result, send_result, ChannelModel, NoMoreReceiverErr, NoMoreSenderErr,
};
use vstd::prelude::*;

verus! {

/// The state after sending each of `vs` in turn.
pub open spec fn after_sends<T>(m: ChannelModel<T>, vs: Seq<T>) -> ChannelModel<T>
    decreases vs.len(),
{
    if vs.len() == 0 {
        m
    } else {
        after_send(after_sends(m, vs.drop_last()), vs.last())
    }
}

/// What `n` receives in a row return, with no send in between.
pub open spec fn received<T>(m: ChannelModel<T>, n: nat) -> Seq<Result<T, NoMoreSenderErr>>
    decreases n,
{
    if n == 0 {
        Seq::empty()
    } else {
        seq![recv_result(m)] + received(after_recv(m), (n - 1) as nat)
    }
}

/// The state after `k` duplications of a sender.
pub open spec fn after_adds<T>(m: ChannelModel<T>, k: nat) -> ChannelModel<T>
    decreases k,
{
    if k == 0 {
        m
    } else {
        after_add_sender(after_adds(m, (k - 1) as nat))
    }
}

/// The state after `k` senders are discarded.
pub open spec fn after_removes<T>(m: ChannelModel<T>, k: nat) -> ChannelModel<T>
    decreases k,
{
    if k == 0 {
        m
    } else {
        after_remove_sender(after_removes(m, (k - 1) as nat))
    }
}

proof fn lemma_sends_append<T>(m: ChannelModel<T>, vs: Seq<T>)
    requires
        m.receiver_live,
    ensures
        after_sends(m, vs).queue == m.queue + vs,
        after_sends(m, vs).senders == m.senders,
        after_sends(m, vs).receiver_live,
    decreases vs.len(),
{
    if vs.len() > 0 {
        lemma_sends_append(m, vs.drop_last());
        assert(m.queue + vs.drop_last() + seq![vs.last()] =~= m.queue + vs);
    }
}

proof fn lemma_received_prefix<T>(m: ChannelModel<T>, n: nat)
    requires
        n <= m.queue.len(),
    ensures
        received(m, n) == m.queue.take(n as int).map_values(|v: T| Ok::<T, NoMoreSenderErr>(v)),
    decreases n,
{
    if n > 0 {
        lemma_received_prefix(after_recv(m), (n - 1) as nat);
        assert(received(m, n) =~= m.queue.take(n as int).map_values(
            |v: T| Ok::<T, NoMoreSenderErr>(v),
        ));
    }
}

/// Messages come out in the order in which they were sent: after sends of
/// `vs` into an empty channel whose receiver lives, as many receives return
/// exactly `vs`, in order, whichever senders sent them.
pub proof fn law_fifo<T>(m: ChannelModel<T>, vs: Seq<T>)
    requires
        m.receiver_live,
        m.queue.len() == 0,
    ensures
        received(after_sends(m, vs), vs.len()) == vs.map_values(
            |v: T| Ok::<T, NoMoreSenderErr>(v),
        ),
{
    lemma_sends_append(m, vs);
    lemma_received_prefix(after_sends(m, vs), vs.len());
    assert(m.queue + vs =~= vs);
    assert(vs.take(vs.len() as int) =~= vs);
}

/// Once no sender is left and nothing is queued, a receive does not block,
/// fails with `NoMoreSenderErr` and leaves the state as it was, so that any
/// number of receives all fail; discarding yet another sender changes
/// nothing either.
pub proof fn law_exhaustion<T>(m: ChannelModel<T>, n: nat)
    requires
        m.senders == 0,
        m.queue.len() == 0,
    ensures
        !must_block(m),
        recv_result(m) == Err::<T, NoMoreSenderErr>(NoMoreSenderErr),
        after_recv(m) == m,
        after_remove_sender(m) == m,
        received(m, n) == Seq::new(n, |i: int| Err::<T, NoMoreSenderErr>(NoMoreSenderErr)),
    decreases n,
{
    if n > 0 {
        law_exhaustion(m, (n - 1) as nat);
        assert(received(m, n) =~= Seq::new(n, |i: int| Err::<T, NoMoreSenderErr>(NoMoreSenderErr)));
    }
}

/// Once the receiver is gone, a send fails, hands back exactly the value
/// sent and leaves the state as it was.
pub proof fn law_closed_receiver<T>(m: ChannelModel<T>, v: T)
    ensures
        send_result(after_close(m), v) == Err::<(), NoMoreReceiverErr<T>>(NoMoreReceiverErr(v)),
        after_send(after_close(m), v) == after_close(m),
{
}

/// A send that the receiver can still get ends any wait: after it the
/// queue is not empty, so a receiver that re-checks under the lock does not
/// block and gets the oldest message queued.
pub proof fn law_send_ends_wait<T>(m: ChannelModel<T>, v: T)
    requires
        m.receiver_live,
    ensures
        !must_block(after_send(m, v)),
        recv_result(after_send(m, v)) == Ok::<T, NoMoreSenderErr>(m.queue.push(v)[0]),
{
}

/// Discarding the last sender ends any wait on an empty queue: a receiver
/// that re-checks under the lock does not block and fails with
/// `NoMoreSenderErr`.
pub proof fn law_last_sender_ends_wait<T>(m: ChannelModel<T>)
    requires
        m.senders == 1,
        m.queue.len() == 0,
    ensures
        !must_block(after_remove_sender(m)),
        recv_result(after_remove_sender(m)) == Err::<T, NoMoreSenderErr>(NoMoreSenderErr),
{
}

proof fn lemma_adds<T>(m: ChannelModel<T>, k: nat)
    requires
        m.senders + k <= usize::MAX,
    ensures
        after_adds(m, k) == (ChannelModel { senders: m.senders + k, ..m }),
    decreases k,
{
    if k > 0 {
        lemma_adds(m, (k - 1) as nat);
    }
}

proof fn lemma_removes<T>(m: ChannelModel<T>, k: nat)
    requires
        k <= m.senders,
    ensures
        after_removes(m, k) == (ChannelModel { senders: (m.senders - k) as nat, ..m }),
    decreases k,
{
    if k > 0 {
        lemma_removes(m, (k - 1) as nat);
    }
}

/// Duplicating a sender `k` times and then discarding `k` of the handles
/// leaves the channel with as many senders as before, so at least one;
/// discarding every handle leaves none, and a receive on an empty queue
/// then fails with `NoMoreSenderErr` instead of blocking.
pub proof fn law_duplication<T>(m: ChannelModel<T>, k: nat)
    requires
        m.senders >= 1,
        m.senders + k <= usize::MAX,
    ensures
        after_removes(after_adds(m, k), k).senders == m.senders,
        after_removes(after_adds(m, k), k).senders > 0,
        after_removes(after_adds(m, k), k + m.senders).senders == 0,
        m.queue.len() == 0 ==> !must_block(after_removes(after_adds(m, k), k + m.senders)),
        m.queue.len() == 0 ==> recv_result(after_removes(after_adds(m, k), k + m.senders))
            == Err::<T, NoMoreSenderErr>(NoMoreSenderErr),
{
    lemma_adds(m, k);
    lemma_removes(after_adds(m, k), k);
    lemma_removes(after_adds(m, k), k + m.senders);
}

} // verus!
