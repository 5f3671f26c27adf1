//! A mathematical model of one channel, and the laws the channel obeys.
//!
//! The executable code acts on the shared state only under the lock, and
//! each locked transition carries an exact contract over the sequences
//! involved.  This module restates those transitions over a single ghost
//! value — the receiver's read-ahead buffer, the shared queue and the live
//! sender count seen together — and proves the ordering, accounting and
//! termination laws of the channel over it.

use vstd::prelude::*;

verus! {

/// Everything that determines what a channel will deliver: the values the
/// receiver has already drained but not yet returned, the values still in
/// the shared queue, and the number of live senders.
pub ghost struct ChannelModel<T> {
    pub buffered: Seq<T>,
    pub queued: Seq<T>,
    pub senders: nat,
}

/// The stream still owed to the receiver, oldest first: the read-ahead
/// buffer strictly precedes the shared queue.
pub open spec fn pending<T>(m: ChannelModel<T>) -> Seq<T> {
    m.buffered + m.queued
}

/// What `Sender::send` does to the state it finds under the lock: the
/// value enters at the back of the shared queue.
pub open spec fn send_step<T>(m: ChannelModel<T>, value: T) -> ChannelModel<T> {
    ChannelModel { queued: m.queued.push(value), ..m }
}

/// What cloning a sender does to the state under the lock.
pub open spec fn clone_step<T>(m: ChannelModel<T>) -> ChannelModel<T> {
    ChannelModel { senders: m.senders + 1, ..m }
}

/// What dropping a sender does to the state under the lock.
pub open spec fn drop_step<T>(m: ChannelModel<T>) -> ChannelModel<T> {
    ChannelModel {
        senders: if m.senders > 0 { (m.senders - 1) as nat } else { 0 },
        ..m
    }
}

/// True when a call to `recv` returns instead of parking: something is
/// pending, or no sender is left to wait for.
pub open spec fn recv_ready<T>(m: ChannelModel<T>) -> bool {
    pending(m).len() > 0 || m.senders == 0
}

/// What one returning call to `recv` does and yields: the front of the
/// read-ahead buffer without touching the shared queue; on an empty buffer
/// the whole shared queue is swapped in and its front yielded; and with
/// nothing pending at all, end of stream.
pub open spec fn recv_step<T>(m: ChannelModel<T>) -> (ChannelModel<T>, Option<T>) {
    if m.buffered.len() > 0 {
        (ChannelModel { buffered: m.buffered.skip(1), ..m }, Some(m.buffered[0]))
    } else if m.queued.len() > 0 {
        (
            ChannelModel { buffered: m.queued.skip(1), queued: Seq::<T>::empty(), ..m },
            Some(m.queued[0]),
        )
    } else {
        (m, None)
    }
}

/// Sending appends to the pending stream: a value sent later is delivered
/// later, whichever sender sent it.
pub proof fn lemma_send_appends<T>(m: ChannelModel<T>, value: T)
    ensures
        pending(send_step(m, value)) == pending(m).push(value),
        send_step(m, value).senders == m.senders,
{
    assert(m.buffered + m.queued.push(value) =~= (m.buffered + m.queued).push(value));
}

/// First in, first out: whenever anything is pending, `recv` yields
/// exactly the oldest pending value and leaves the rest in order — the
/// batched swap into the read-ahead buffer never reorders anything.
pub proof fn lemma_recv_yields_oldest<T>(m: ChannelModel<T>)
    requires
        pending(m).len() > 0,
    ensures
        recv_step(m).1 == Some(pending(m)[0]),
        pending(recv_step(m).0) == pending(m).skip(1),
        recv_step(m).0.senders == m.senders,
{
    if m.buffered.len() > 0 {
        assert(pending(m)[0] == m.buffered[0]);
        assert(m.buffered.skip(1) + m.queued =~= (m.buffered + m.queued).skip(1));
    } else {
        assert(m.buffered + m.queued =~= m.queued);
        assert(pending(m)[0] == m.queued[0]);
        assert(m.queued.skip(1) + Seq::<T>::empty() =~= (m.buffered + m.queued).skip(1));
    }
}

/// Once the last sender is gone the receiver never parks: `recv` is ready
/// to return, with a value or with end of stream.
pub proof fn lemma_ready_once_senders_gone<T>(m: ChannelModel<T>)
    requires
        m.senders == 0,
    ensures
        recv_ready(m),
{
}

/// End of stream is reported exactly when the sender count has reached
/// zero and nothing sent remains undelivered; as long as a sender lives,
/// `recv` never claims the stream is over.
pub proof fn lemma_end_of_stream_iff<T>(m: ChannelModel<T>)
    ensures
        recv_step(m).1 is None <==> pending(m).len() == 0,
        recv_ready(m) ==> (recv_step(m).1 is None <==> (m.senders == 0 && pending(m).len()
            == 0)),
{
}

/// Cloning a sender and dropping one restore the count exactly, in
/// whichever order the two happen, and touch no queued value; so k clones
/// followed by k drops, however interleaved, leave the channel as it was.
pub proof fn lemma_clone_drop_accounting<T>(m: ChannelModel<T>)
    ensures
        drop_step(clone_step(m)) == m,
        m.senders > 0 ==> clone_step(drop_step(m)) == m,
        clone_step(m).senders == m.senders + 1,
        m.senders > 0 ==> drop_step(m).senders == m.senders - 1,
        pending(clone_step(m)) == pending(m),
        pending(drop_step(m)) == pending(m),
{
}

/// The state a fresh pair from [`crate::channel`] starts in: nothing
/// queued, nothing read ahead, one live sender.
pub open spec fn initial_model<T>() -> ChannelModel<T> {
    ChannelModel { buffered: Seq::<T>::empty(), queued: Seq::<T>::empty(), senders: 1 }
}

/// A whole sequence of values sent one after the other, by any mix of
/// senders: under the lock each send is one `send_step`.
pub open spec fn send_all<T>(m: ChannelModel<T>, values: Seq<T>) -> ChannelModel<T>
    decreases values.len(),
{
    if values.len() == 0 {
        m
    } else {
        send_all(send_step(m, values[0]), values.skip(1))
    }
}

/// Sends enter the pending stream in the order they happened, whichever
/// senders performed them, and leave the live count alone.
pub proof fn lemma_send_all_appends<T>(m: ChannelModel<T>, values: Seq<T>)
    ensures
        pending(send_all(m, values)) == pending(m) + values,
        send_all(m, values).senders == m.senders,
    decreases values.len(),
{
    if values.len() == 0 {
        assert(pending(m) + values =~= pending(m));
    } else {
        lemma_send_appends(m, values[0]);
        lemma_send_all_appends(send_step(m, values[0]), values.skip(1));
        assert(pending(m).push(values[0]) + values.skip(1) =~= pending(m) + values);
    }
}

/// Driving the receiver to exhaustion once the senders are gone: the
/// stream of values still delivered, in order.
pub open spec fn drained<T>(m: ChannelModel<T>) -> Seq<T>
    decreases pending(m).len(),
{
    if m.buffered.len() > 0 || m.queued.len() > 0 {
        seq![pending(m)[0]] + drained(recv_step(m).0)
    } else {
        Seq::<T>::empty()
    }
}

/// Iteration exhaustion: with no sender left, repeated calls to `recv`
/// deliver exactly the pending values, in arrival order, and then the
/// stream ends — finite and single-pass.
pub proof fn lemma_drained_is_pending<T>(m: ChannelModel<T>)
    requires
        m.senders == 0,
    ensures
        drained(m) == pending(m),
    decreases pending(m).len(),
{
    if m.buffered.len() > 0 || m.queued.len() > 0 {
        lemma_recv_yields_oldest(m);
        lemma_drained_is_pending(recv_step(m).0);
        assert(seq![pending(m)[0]] + pending(m).skip(1) =~= pending(m));
    } else {
        assert(pending(m) =~= Seq::<T>::empty());
    }
}

/// The whole story of the concrete scenario every channel user writes:
/// starting from a fresh pair, any sequence of values is sent, the one
/// sender is dropped, and the receiver, driven to exhaustion, yields
/// exactly that sequence — same values, same order — and then end of
/// stream.
pub proof fn lemma_fifo_round_trip<T>(values: Seq<T>)
    ensures
        drained(drop_step(send_all(initial_model::<T>(), values))) == values,
        drop_step(send_all(initial_model::<T>(), values)).senders == 0,
{
    let loaded = send_all(initial_model::<T>(), values);
    lemma_send_all_appends(initial_model::<T>(), values);
    assert(pending(initial_model::<T>()) + values =~= values);
    lemma_drained_is_pending(drop_step(loaded));
    assert(pending(drop_step(loaded)) =~= pending(loaded));
}

} // verus!
