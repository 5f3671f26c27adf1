//! An unbounded multi-sender, single-receiver in-process channel.
//!
//! Any number of [`Sender`] handles enqueue values under one mutex and
//! signal a condition variable; the single [`Receiver`] drains a private
//! read-ahead buffer without locking and, when that runs dry, swaps the
//! whole shared queue into the buffer in one critical section.  When the
//! queue is empty and every sender has been dropped, [`Receiver::recv`]
//! reports end of stream by returning `None`.
//!
//! The state the lock protects and every transition applied to it are
//! verified; the mutex, condition variable and reference-counted handle
//! themselves are trusted primitives declared in [`sync`].

pub mod model;
mod sync;

use std::collections::VecDeque;
use std::sync::Arc;
use std::sync::Condvar;
use std::sync::Mutex;
use vstd::prelude::*;

verus! {

/// The state protected by the channel's mutex: the values sent but not
/// yet taken by the receiver, oldest first, and the number of live
/// `Sender` handles.
pub(crate) struct Shared<T> {
    pub(crate) queue: VecDeque<T>,
    pub(crate) senders: usize,
}

impl<T> Shared<T> {
    /// True exactly when a receiver finding this state must keep waiting:
    /// nothing is queued, yet a sender that could still enqueue remains.
    pub(crate) fn must_wait(&self) -> (r: bool)
        ensures
            r == (self.queue@.len() == 0 && self.senders > 0),
    {
        self.queue.len() == 0 && self.senders > 0
    }

    /// Appends a value at the back of the queue; the sender count is
    /// untouched.
    pub(crate) fn enqueue(&mut self, value: T)
        ensures
            final(self).queue@ == old(self).queue@.push(value),
            final(self).senders == old(self).senders,
    {
        self.queue.push_back(value);
    }

    /// The receiver's one locked step: take the front value and move the
    /// entire rest of the queue into the receiver's (empty) read-ahead
    /// buffer, or report that nothing is queued.  Order is preserved
    /// exactly and the sender count is untouched.
    pub(crate) fn take_batch(&mut self, buffer: &mut VecDeque<T>) -> (r: Option<T>)
        requires
            old(buffer)@.len() == 0,
        ensures
            final(self).senders == old(self).senders,
            old(self).queue@.len() > 0 ==> {
                &&& r == Some(old(self).queue@[0])
                &&& final(buffer)@ == old(self).queue@.skip(1)
                &&& final(self).queue@.len() == 0
            },
            old(self).queue@.len() == 0 ==> {
                &&& r is None
                &&& final(buffer)@ == old(buffer)@
                &&& final(self).queue@ == old(self).queue@
            },
            ({
                let step = crate::model::recv_step(crate::model::ChannelModel {
                    buffered: old(buffer)@,
                    queued: old(self).queue@,
                    senders: old(self).senders as nat,
                });
                &&& r == step.1
                &&& final(buffer)@ == step.0.buffered
                &&& final(self).queue@ == step.0.queued
                &&& final(self).senders as nat == step.0.senders
            }),
    {
        match self.queue.pop_front() {
            Some(value) => {
                core::mem::swap(buffer, &mut self.queue);
                proof {
                    assert(self.queue@ =~= Seq::<T>::empty());
                }
                Some(value)
            },
            None => None,
        }
    }

    /// Accounts for one more live sender.  The count saturates at
    /// `usize::MAX`, a value no real program can reach since every live
    /// handle occupies memory of its own.
    pub(crate) fn add_sender(&mut self)
        ensures
            old(self).senders < usize::MAX ==> final(self).senders == old(self).senders + 1,
            old(self).senders == usize::MAX ==> final(self).senders == old(self).senders,
            final(self).queue@ == old(self).queue@,
        no_unwind
    {
        if self.senders < usize::MAX {
            self.senders = self.senders + 1;
        }
    }

    /// Accounts for one live sender fewer and reports whether it was the
    /// last one, in which case the parked receiver must be woken.
    pub(crate) fn remove_sender(&mut self) -> (last: bool)
        ensures
            old(self).senders > 0 ==> final(self).senders == old(self).senders - 1,
            old(self).senders == 0 ==> final(self).senders == 0,
            last == (final(self).senders == 0),
            final(self).queue@ == old(self).queue@,
        opens_invariants none
        no_unwind
    {
        if self.senders > 0 {
            self.senders = self.senders - 1;
        }
        self.senders == 0
    }
}

/// The block jointly owned by every handle of one channel: the lock-guarded
/// state and the condition the receiver parks on.
#[verifier::reject_recursive_types(T)]
pub(crate) struct Inner<T> {
    pub(crate) shared: Mutex<Shared<T>>,
    pub(crate) available: Condvar,
}

/// A cloneable handle that enqueues values into the channel.
#[verifier::reject_recursive_types(T)]
pub struct Sender<T> {
    pub(crate) inner: Arc<Inner<T>>,
}

/// The unique handle that dequeues values from the channel.
#[verifier::reject_recursive_types(T)]
pub struct Receiver<T> {
    pub(crate) inner: Arc<Inner<T>>,
    pub(crate) buffer: VecDeque<T>,
}

impl<T> Sender<T> {
    /// True when both handles belong to one channel.
    pub closed spec fn same_channel(&self, other: &Sender<T>) -> bool {
        self.inner == other.inner
    }

    /// True when this sender feeds the given receiver.
    pub closed spec fn feeds(&self, rx: &Receiver<T>) -> bool {
        self.inner == rx.inner
    }

    /// Appends `value` at the back of the shared queue and wakes the
    /// receiver.  Never blocks for more than the lock and never fails:
    /// capacity is unbounded, and a channel whose receiver is gone simply
    /// accumulates the value.
    pub fn send(&self, value: T) {
        let mut g = crate::sync::lock(&self.inner.shared);
        let shared = crate::sync::guard_get(&mut g);
        shared.enqueue(value);
        crate::sync::unlock(g);
        crate::sync::notify(&self.inner.available);
    }
}

impl<T> Clone for Sender<T> {
    /// Produces one more handle to the same channel, raising the live
    /// sender count under the lock before the new handle exists.
    fn clone(&self) -> (r: Self)
        ensures
            r.same_channel(self),
    {
        let mut g = crate::sync::lock(&self.inner.shared);
        let shared = crate::sync::guard_get(&mut g);
        shared.add_sender();
        crate::sync::unlock(g);
        Sender { inner: crate::sync::clone_handle(&self.inner) }
    }
}

impl<T> Drop for Sender<T> {
    /// Lowers the live sender count under the lock; the last departing
    /// sender signals the condition once, so a receiver parked on an empty
    /// queue wakes and observes end of stream instead of waiting forever.
    fn drop(&mut self)
        opens_invariants none
        no_unwind
    {
        let mut g = crate::sync::lock(&self.inner.shared);
        let shared = crate::sync::guard_get(&mut g);
        let last = shared.remove_sender();
        crate::sync::unlock(g);
        if last {
            crate::sync::notify(&self.inner.available);
        }
    }
}

impl<T> Receiver<T> {
    /// The values already drained from the shared queue and not yet
    /// returned, oldest first; everything here precedes, in arrival
    /// order, whatever still sits in the shared queue.
    pub closed spec fn buffered(&self) -> Seq<T> {
        self.buffer@
    }

    /// True when both values are handles of one channel.
    pub closed spec fn same_channel(&self, other: &Receiver<T>) -> bool {
        self.inner == other.inner
    }

    /// Returns the next value of the stream in global arrival order, or
    /// `None` once every sender is gone and everything sent has been
    /// returned.  The front of the read-ahead buffer is served without
    /// locking; an empty buffer is refilled by swapping out the whole
    /// shared queue in one critical section, after parking until the
    /// queue is non-empty or no sender remains.
    pub fn recv(&mut self) -> (r: Option<T>)
        ensures
            final(self).same_channel(old(self)),
            old(self).buffered().len() > 0 ==> {
                &&& r == Some(old(self).buffered()[0])
                &&& final(self).buffered() == old(self).buffered().skip(1)
            },
            r is None ==> {
                &&& old(self).buffered().len() == 0
                &&& final(self).buffered().len() == 0
            },
    {
        match self.buffer.pop_front() {
            Some(value) => Some(value),
            None => {
                let g = crate::sync::lock(&self.inner.shared);
                let mut g = crate::sync::wait_until_ready(&self.inner.available, g);
                let shared = crate::sync::guard_get(&mut g);
                let r = shared.take_batch(&mut self.buffer);
                crate::sync::unlock(g);
                r
            },
        }
    }

    /// The pull-based sequence view of the stream: each call yields the
    /// next value, and the stream is exhausted for good once `None` has
    /// been returned, since the sender count can never rise from zero.
    pub fn next(&mut self) -> (r: Option<T>)
        ensures
            final(self).same_channel(old(self)),
            old(self).buffered().len() > 0 ==> {
                &&& r == Some(old(self).buffered()[0])
                &&& final(self).buffered() == old(self).buffered().skip(1)
            },
            r is None ==> {
                &&& old(self).buffered().len() == 0
                &&& final(self).buffered().len() == 0
            },
    {
        self.recv()
    }
}

/// Creates a connected pair: a first live sender and the channel's one
/// receiver, over an initially empty queue.
pub fn channel<T>() -> (r: (Sender<T>, Receiver<T>))
    ensures
        r.0.feeds(&r.1),
        r.1.buffered().len() == 0,
{
    let shared = Shared { queue: VecDeque::new(), senders: 1 };
    let inner = Arc::new(Inner { shared: crate::sync::new_mutex(shared), available: crate::sync::new_condvar() });
    let rx_inner = crate::sync::clone_handle(&inner);
    (Sender { inner }, Receiver { inner: rx_inner, buffer: VecDeque::new() })
}

} // verus!
