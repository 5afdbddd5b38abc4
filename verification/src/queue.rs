//! Command channels and the request/response correlation logic.
//!
//! A channel is one virtual queue together with its dedicated request-side
//! DMA buffer.  The driver serializes a request into the head of the buffer,
//! submits the paired request/response chain, rings the doorbell if needed,
//! busy-polls until the device reports the chain consumed, and pops the
//! completion.  The queue hardware itself is outside work; the channel
//! tracks the driver's view of the exchange and guarantees that a caller
//! holding the channel for the whole submit-to-pop sequence observes the
//! completion token of its own submission and no other.

use vstd::prelude::*;

use crate::zeroed_bytes;

verus! {

/// Length in bytes of a channel's request-side DMA buffer: one page.
pub const BUFFER_LEN: usize = 4096;

/// The driver's view of the exchange in flight on a channel.
#[derive(Clone, Copy, Debug, PartialEq, Eq, Structural)]
pub enum ChannelState {
    /// No submission is outstanding.
    Idle,
    /// A descriptor chain was submitted; the device owns the buffers.
    Submitted,
    /// The device reported the chain consumed; the completion waits to be
    /// popped.
    Completed,
}

/// One command channel: a virtual queue plus its dedicated request DMA
/// buffer.  At most one exchange is in flight per channel; a submission on a
/// busy channel is refused, never queued behind another.
#[derive(Clone, Debug)]
pub struct Channel {
    /// Index of the backing virtual queue on the transport.
    pub queue_index: u16,
    /// The request-side DMA buffer; requests are written at its head.
    pub buffer: Vec<u8>,
    pub state: ChannelState,
    /// Completion token of the exchange in flight; meaningful outside
    /// `Idle`.
    pub in_flight: u64,
    /// Token the next submission will receive.
    pub next_token: u64,
    /// Whether the doorbell still has to be rung for the submitted chain.
    pub pending_notify: bool,
}

/// Relation: `post` is `pre` after a successful submission that was handed
/// the completion token `t`.
pub open spec fn submits(pre: Channel, post: Channel, t: u64) -> bool {
    &&& pre.state == ChannelState::Idle
    &&& t == pre.next_token
    &&& post.state == ChannelState::Submitted
    &&& post.in_flight == t
    &&& post.next_token == t + 1
    &&& post.queue_index == pre.queue_index
}

/// Relation: `post` is `pre` after the device reported the in-flight chain
/// consumed.
pub open spec fn completes(pre: Channel, post: Channel) -> bool {
    &&& pre.state == ChannelState::Submitted
    &&& post == (Channel { state: ChannelState::Completed, ..pre })
}

/// Relation: `post` is `pre` after the completion token `t` was popped.
pub open spec fn pops(pre: Channel, post: Channel, t: u64) -> bool {
    &&& pre.state == ChannelState::Completed
    &&& t == pre.in_flight
    &&& post == (Channel { state: ChannelState::Idle, ..pre })
}

impl Channel {
    /// The request buffer spans exactly one DMA page.
    pub open spec fn wf(self) -> bool {
        self.buffer@.len() == BUFFER_LEN
    }

    /// A fresh, idle channel over the queue with the given index, with a
    /// zeroed request buffer.
    pub fn new(queue_index: u16) -> (r: Self)
        ensures
            r.wf(),
            r.queue_index == queue_index,
            r.state == ChannelState::Idle,
            r.in_flight == 0,
            r.next_token == 0,
            r.pending_notify == false,
            forall|i: int| 0 <= i < BUFFER_LEN ==> r.buffer@[i] == 0u8,
    {
        Channel {
            queue_index,
            buffer: zeroed_bytes(BUFFER_LEN),
            state: ChannelState::Idle,
            in_flight: 0,
            next_token: 0,
            pending_notify: false,
        }
    }

    /// Writes `req` at the head of the request buffer and submits the
    /// paired request/response descriptor chain.  Returns the completion
    /// token, or `None` when the channel already has an exchange in flight
    /// (the transport-level submission failure).
    pub fn send_request(&mut self, req: &Vec<u8>) -> (r: Option<u64>)
        requires
            old(self).wf(),
            req@.len() <= BUFFER_LEN,
            old(self).next_token < u64::MAX,
        ensures
            final(self).wf(),
            (r is Some) <==> old(self).state == ChannelState::Idle,
            r is None ==> *final(self) == *old(self),
            r matches Some(t) ==> {
                &&& submits(*old(self), *final(self), t)
                &&& final(self).buffer@ == req@ + old(self).buffer@.skip(req@.len() as int)
                &&& final(self).pending_notify == true
            },
    {
        match self.state {
            ChannelState::Idle => {
                let n = req.len();
                let mut i: usize = 0;
                while i < n
                    invariant
                        n == req@.len(),
                        n <= BUFFER_LEN,
                        i <= n,
                        self.buffer@.len() == BUFFER_LEN,
                        forall|j: int| 0 <= j < i ==> self.buffer@[j] == req@[j],
                        forall|j: int|
                            i <= j < BUFFER_LEN ==> self.buffer@[j] == old(self).buffer@[j],
                        self.state == old(self).state,
                        self.in_flight == old(self).in_flight,
                        self.next_token == old(self).next_token,
                        self.queue_index == old(self).queue_index,
                        self.pending_notify == old(self).pending_notify,
                    decreases n - i,
                {
                    self.buffer.set(i, req[i]);
                    i = i + 1;
                }
                let token = self.next_token;
                self.next_token = token + 1;
                self.in_flight = token;
                self.state = ChannelState::Submitted;
                self.pending_notify = true;
                proof {
                    assert(self.buffer@ =~= req@ + old(self).buffer@.skip(req@.len() as int));
                }
                Some(token)
            },
            _ => None,
        }
    }

    /// Whether the doorbell still has to be rung for the submitted chain.
    pub fn should_notify(&self) -> (r: bool)
        ensures
            r == self.pending_notify,
    {
        self.pending_notify
    }

    /// Rings the doorbell; the chain needs no further notification.
    pub fn notify(&mut self)
        ensures
            *final(self) == (Channel { pending_notify: false, ..*old(self) }),
    {
        self.pending_notify = false;
    }

    /// Records the device's report that the in-flight chain was consumed.
    /// This is the outside event of an exchange: the surrounding driver
    /// calls it when its poll of the queue observes the completion.
    pub fn deliver_completion(&mut self)
        requires
            old(self).state == ChannelState::Submitted,
        ensures
            completes(*old(self), *final(self)),
    {
        self.state = ChannelState::Completed;
    }

    /// Whether a completed exchange waits to be popped; the busy-poll loop
    /// spins on this predicate.
    pub fn can_pop(&self) -> (r: bool)
        ensures
            r == (self.state == ChannelState::Completed),
    {
        match self.state {
            ChannelState::Completed => true,
            _ => false,
        }
    }

    /// Pops the completed exchange, handing ownership of the buffers back
    /// to the driver, and returns its completion token: always the token of
    /// this channel's own submission.
    pub fn pop_used(&mut self) -> (t: u64)
        requires
            old(self).state == ChannelState::Completed,
        ensures
            pops(*old(self), *final(self), t),
    {
        self.state = ChannelState::Idle;
        self.in_flight
    }
}

/// Law: two exchanges run to completion, one after the other, on the same
/// channel each pop the token of their own submission, and the two tokens
/// differ.  A caller that holds the channel exclusively for its whole
/// submit-to-pop sequence therefore never observes another caller's
/// completion.
pub proof fn lemma_exchange_isolation(
    a0: Channel,
    a1: Channel,
    a2: Channel,
    a3: Channel,
    b1: Channel,
    b2: Channel,
    b3: Channel,
    s1: u64,
    p1: u64,
    s2: u64,
    p2: u64,
)
    requires
        submits(a0, a1, s1),
        completes(a1, a2),
        pops(a2, a3, p1),
        submits(a3, b1, s2),
        completes(b1, b2),
        pops(b2, b3, p2),
    ensures
        p1 == s1,
        p2 == s2,
        p1 != p2,
{
}

} // verus!
