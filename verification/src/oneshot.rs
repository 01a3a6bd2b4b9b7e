//! A model of the one-shot channel that carries a relocated unit of work's
//! result back to its awaiter.
//!
//! The channel protocol is what matters to the core: exactly one value is
//! ever sent; the receiver observes either that value, or closure when the
//! sender went away without sending; and a sender whose receiver is gone
//! gets its value back immediately instead of blocking. A driver that uses
//! a real cross-thread channel must exhibit the same protocol.

use vstd::prelude::*;

verus! {

/// The joint state of a one-shot channel's two ends.
#[derive(Debug, PartialEq, Eq)]
pub enum OneShot<T> {
    /// Both ends live; nothing sent yet.
    Idle,
    /// A value was sent and awaits the receiver.
    Sent(T),
    /// The receiver took the sent value.
    Taken,
    /// The sender went away without sending.
    SenderGone,
    /// The receiver went away; a send can no longer be observed.
    ReceiverGone,
}

/// One observation by the receiving end.
#[derive(Debug, PartialEq, Eq)]
pub enum ChannelPoll<T> {
    /// Nothing has arrived yet.
    Pending,
    /// The sent value arrived.
    Delivered(T),
    /// The sender is gone and nothing will ever arrive.
    Closed,
}

impl<T> OneShot<T> {
    /// What `send` returns: delivery into an idle channel succeeds; a
    /// channel whose receiver is gone hands the value straight back.
    pub open spec fn send_result(self, v: T) -> Result<(), T> {
        if self is Idle {
            Ok(())
        } else {
            Err(v)
        }
    }

    /// Channel state after `send`.
    pub open spec fn send_next(self, v: T) -> OneShot<T> {
        if self is Idle {
            OneShot::Sent(v)
        } else {
            self
        }
    }

    /// What the receiver observes on one poll.
    pub open spec fn receive_result(self) -> ChannelPoll<T> {
        match self {
            OneShot::Idle => ChannelPoll::Pending,
            OneShot::Sent(v) => ChannelPoll::Delivered(v),
            OneShot::SenderGone => ChannelPoll::Closed,
            _ => ChannelPoll::Pending,
        }
    }

    /// Channel state after one receiver poll.
    pub open spec fn receive_next(self) -> OneShot<T> {
        if self is Sent {
            OneShot::Taken
        } else {
            self
        }
    }

    /// A fresh channel with both ends live.
    pub fn new() -> (r: Self)
        ensures
            r == OneShot::<T>::Idle,
    {
        OneShot::Idle
    }

    /// Send the value. At most one send ever happens on a channel: the
    /// states that follow a send are excluded here. If the receiver is
    /// gone the value comes back at once — the sender is never blocked and
    /// nothing is lost silently.
    pub fn send(&mut self, v: T) -> (r: Result<(), T>)
        requires
            (*old(self)) is Idle || (*old(self)) is ReceiverGone,
        ensures
            r == old(self).send_result(v),
            *final(self) == old(self).send_next(v),
    {
        let idle = match self {
            OneShot::Idle => true,
            _ => false,
        };
        if idle {
            *self = OneShot::Sent(v);
            Ok(())
        } else {
            Err(v)
        }
    }

    /// One poll by the receiving end. A channel already drained, or whose
    /// receiver is gone, is not polled again.
    pub fn poll_receive(&mut self) -> (r: ChannelPoll<T>)
        requires
            (*old(self)) is Idle || (*old(self)) is Sent || (*old(self)) is SenderGone,
        ensures
            r == old(self).receive_result(),
            *final(self) == old(self).receive_next(),
    {
        let mut prev = OneShot::Taken;
        core::mem::swap(self, &mut prev);
        match prev {
            OneShot::Idle => {
                *self = OneShot::Idle;
                ChannelPoll::Pending
            },
            OneShot::Sent(v) => ChannelPoll::Delivered(v),
            OneShot::SenderGone => {
                *self = OneShot::SenderGone;
                ChannelPoll::Closed
            },
            _ => unreached(),
        }
    }

    /// The sender goes away without sending; the receiver will observe
    /// closure, never an indefinite `Pending`.
    pub fn drop_sender(&mut self)
        requires
            (*old(self)) is Idle,
        ensures
            *final(self) == OneShot::<T>::SenderGone,
    {
        *self = OneShot::SenderGone;
    }

    /// The receiver goes away; any later send will get its value back.
    pub fn drop_receiver(&mut self)
        requires
            (*old(self)) is Idle,
        ensures
            *final(self) == OneShot::<T>::ReceiverGone,
    {
        *self = OneShot::ReceiverGone;
    }
}

/// Cancellation safety, channel half: after the receiver is dropped, a
/// send neither blocks nor loses the value silently — it completes at once
/// and returns the value to the sender, leaving the channel unchanged.
pub proof fn lemma_send_after_receiver_gone<T>(v: T)
    ensures
        OneShot::<T>::ReceiverGone.send_result(v) == Err::<(), T>(v),
        OneShot::<T>::ReceiverGone.send_next(v) == OneShot::<T>::ReceiverGone,
{
}

/// A sender that vanished without sending is still observable: the
/// receiver sees `Closed`, not an indefinite `Pending`.
pub proof fn lemma_closure_is_observed<T>()
    ensures
        OneShot::<T>::SenderGone.receive_result() == ChannelPoll::<T>::Closed,
{
}

} // verus!
