//! A multi-producer, single-consumer FIFO channel.
//!
//! [`make_channel`] yields the shared queue state together with its first
//! [`Sender`] and the one [`Receiver`]. Senders are cloneable and counted
//! with the same ghost discipline as the shared-ownership counters; the
//! channel closes exactly when the live-sender count reaches 0, after which
//! already queued messages remain consumable but nothing new can arrive.
//! Sends fail only once the receiver is gone.
//!
//! Messages keep FIFO order across all senders combined: a send appends to
//! the queue and a receive takes its front, and the contracts state both
//! exactly.
//!
//! Receiving blocks until a message exists or the channel is closed; the
//! blocking itself is the runtime's affair, so [`Channel::recv`] describes
//! the call that goes through — a queue that could still grow is waited on,
//! not failed.

use std::collections::VecDeque;
use vstd::prelude::*;

verus! {

broadcast use vstd::set::group_set_axioms;

/// The channel is closed (the receiver is gone); the undelivered message is
/// handed back.
#[derive(Debug)]
pub struct SendError<T>(pub T);

/// Every sender is gone and the queue is empty: no message will ever arrive.
#[derive(Debug, PartialEq, Eq, Structural, Clone, Copy)]
pub enum RecvError {
    Disconnected,
}

/// Why a non-blocking receive yielded no message.
#[derive(Debug, PartialEq, Eq, Structural, Clone, Copy)]
pub enum TryRecvError {
    /// No message is ready, but a live sender could still provide one.
    Empty,
    /// Every sender is gone and the queue is empty.
    Disconnected,
}

/// One live sending end of a channel.
pub struct Sender {
    id: Ghost<int>,
}

impl Sender {
    /// The ghost identity distinguishing this sender from its clones.
    pub closed spec fn id(self) -> int {
        self.id@
    }
}

/// The one receiving end of a channel.
pub struct Receiver {
    held: (),
}

/// The shared state of a channel: the FIFO queue, the count of live senders,
/// and whether the receiver is still there.
pub struct Channel<T> {
    buffer: VecDeque<T>,
    senders: usize,
    receiver_live: bool,
    live: Ghost<Set<int>>,
    next_id: Ghost<int>,
}

impl<T> Channel<T> {
    /// The queued messages, oldest first.
    pub closed spec fn queue(self) -> Seq<T> {
        self.buffer@
    }

    /// The number of live senders.
    pub closed spec fn senders(self) -> int {
        self.senders as int
    }

    /// The identities of the senders that are currently live.
    pub closed spec fn sender_handles(self) -> Set<int> {
        self.live@
    }

    /// Whether `s` is a live sender of this channel.
    pub open spec fn holds_sender(self, s: Sender) -> bool {
        self.sender_handles().contains(s.id())
    }

    /// Whether the receiver is still there.
    pub closed spec fn receiver_live(self) -> bool {
        self.receiver_live
    }

    /// The channel is closed for receiving exactly when the live-sender
    /// count has reached 0.
    pub open spec fn is_closed_spec(self) -> bool {
        self.senders() == 0
    }

    /// The sender-counting invariant, the discipline the shared-ownership
    /// counters use: the count equals the number of live sender handles.
    pub closed spec fn wf(self) -> bool {
        &&& self.live@.finite()
        &&& self.senders as int == self.live@.len()
        &&& forall|i: int| self.live@.contains(i) ==> 0 <= i < self.next_id@
    }

    /// Clones a live sender, raising the live-sender count by 1.
    pub fn clone_sender(&mut self, s: &Sender) -> (t: Sender)
        requires
            old(self).wf(),
            old(self).holds_sender(*s),
            old(self).senders() < usize::MAX,
        ensures
            final(self).wf(),
            final(self).senders() == old(self).senders() + 1,
            final(self).queue() == old(self).queue(),
            final(self).receiver_live() == old(self).receiver_live(),
            final(self).sender_handles() == old(self).sender_handles().insert(t.id()),
            final(self).holds_sender(t),
            final(self).holds_sender(*s),
    {
        let ghost fresh = self.next_id@;
        self.senders = self.senders + 1;
        proof {
            self.live@ = self.live@.insert(fresh);
            self.next_id@ = self.next_id@ + 1;
        }
        Sender { id: Ghost(fresh) }
    }

    /// Drops a live sender. When the count reaches 0 the channel is closed:
    /// nothing further can be enqueued, but queued messages remain.
    pub fn drop_sender(&mut self, s: Sender)
        requires
            old(self).wf(),
            old(self).holds_sender(s),
        ensures
            final(self).wf(),
            final(self).senders() == old(self).senders() - 1,
            final(self).queue() == old(self).queue(),
            final(self).receiver_live() == old(self).receiver_live(),
            final(self).sender_handles() == old(self).sender_handles().remove(s.id()),
    {
        self.senders = self.senders - 1;
        proof {
            self.live@ = self.live@.remove(s.id@);
        }
    }

    /// Drops the receiver: later sends fail, and queued messages are gone
    /// with the queue once every sender is dropped too.
    pub fn drop_receiver(&mut self, r: Receiver)
        requires
            old(self).wf(),
        ensures
            final(self).wf(),
            !final(self).receiver_live(),
            final(self).queue() == old(self).queue(),
            final(self).senders() == old(self).senders(),
            final(self).sender_handles() == old(self).sender_handles(),
    {
        let _ = r;
        self.receiver_live = false;
    }

    /// Enqueues `value` at the back of the queue. Fails, handing the value
    /// back, exactly when the channel is already closed because the receiver
    /// was dropped.
    pub fn send(&mut self, s: &Sender, value: T) -> (r: Result<(), SendError<T>>)
        requires
            old(self).wf(),
            old(self).holds_sender(*s),
        ensures
            final(self).wf(),
            final(self).senders() == old(self).senders(),
            final(self).sender_handles() == old(self).sender_handles(),
            final(self).receiver_live() == old(self).receiver_live(),
            r is Ok <==> old(self).receiver_live(),
            r is Ok ==> final(self).queue() == old(self).queue().push(value),
            r matches Err(e) ==> e.0 == value && final(self).queue() == old(self).queue(),
    {
        let _ = s;
        if self.receiver_live {
            self.buffer.push_back(value);
            Ok(())
        } else {
            Err(SendError(value))
        }
    }

    /// Receives the oldest message. The call that goes through is either one
    /// that finds a message or one that finds the channel closed with an
    /// empty queue; with live senders and an empty queue a receiver waits
    /// instead, so that case is excluded here rather than answered wrongly.
    pub fn recv(&mut self, r: &Receiver) -> (out: Result<T, RecvError>)
        requires
            old(self).wf(),
            old(self).queue().len() > 0 || old(self).is_closed_spec(),
        ensures
            final(self).wf(),
            final(self).senders() == old(self).senders(),
            final(self).sender_handles() == old(self).sender_handles(),
            final(self).receiver_live() == old(self).receiver_live(),
            old(self).queue().len() > 0 ==> (out matches Ok(v) && v == old(self).queue()[0]
                && final(self).queue() == old(self).queue().drop_first()),
            old(self).queue().len() == 0 ==> out == Err::<T, RecvError>(RecvError::Disconnected)
                && final(self).queue() == old(self).queue(),
    {
        let _ = r;
        match self.buffer.pop_front() {
            Some(v) => Ok(v),
            None => Err(RecvError::Disconnected),
        }
    }

    /// Receives without blocking: the oldest message if one is ready,
    /// `Empty` if a live sender could still provide one, `Disconnected` once
    /// every sender is gone and the queue is empty.
    pub fn try_recv(&mut self, r: &Receiver) -> (out: Result<T, TryRecvError>)
        requires
            old(self).wf(),
        ensures
            final(self).wf(),
            final(self).senders() == old(self).senders(),
            final(self).sender_handles() == old(self).sender_handles(),
            final(self).receiver_live() == old(self).receiver_live(),
            old(self).queue().len() > 0 ==> (out matches Ok(v) && v == old(self).queue()[0]
                && final(self).queue() == old(self).queue().drop_first()),
            old(self).queue().len() == 0 && old(self).is_closed_spec() ==> out == Err::<
                T,
                TryRecvError,
            >(TryRecvError::Disconnected) && final(self).queue() == old(self).queue(),
            old(self).queue().len() == 0 && !old(self).is_closed_spec() ==> out == Err::<
                T,
                TryRecvError,
            >(TryRecvError::Empty) && final(self).queue() == old(self).queue(),
    {
        let _ = r;
        match self.buffer.pop_front() {
            Some(v) => Ok(v),
            None => if self.senders == 0 {
                Err(TryRecvError::Disconnected)
            } else {
                Err(TryRecvError::Empty)
            },
        }
    }

    /// Receives until disconnection, the way iterating the receiver does:
    /// once every sender is gone, the messages still queued come out in FIFO
    /// order and the sequence ends.
    pub fn recv_all(&mut self, r: &Receiver) -> (out: Vec<T>)
        requires
            old(self).wf(),
            old(self).is_closed_spec(),
        ensures
            final(self).wf(),
            final(self).senders() == old(self).senders(),
            final(self).sender_handles() == old(self).sender_handles(),
            final(self).receiver_live() == old(self).receiver_live(),
            out@ == old(self).queue(),
            final(self).queue().len() == 0,
    {
        let mut out: Vec<T> = Vec::new();
        loop
            invariant
                self.wf(),
                self.senders() == old(self).senders(),
                self.sender_handles() == old(self).sender_handles(),
                self.receiver_live() == old(self).receiver_live(),
                self.is_closed_spec(),
                out@ + self.queue() == old(self).queue(),
            ensures
                self.wf(),
                self.senders() == old(self).senders(),
                self.sender_handles() == old(self).sender_handles(),
                self.receiver_live() == old(self).receiver_live(),
                out@ + self.queue() == old(self).queue(),
                self.queue().len() == 0,
            decreases self.queue().len(),
        {
            match self.recv(r) {
                Ok(v) => {
                    out.push(v);
                },
                Err(RecvError::Disconnected) => {
                    break ;
                },
            }
        }
        proof {
            assert(out@ =~= old(self).queue());
        }
        out
    }

    /// The number of messages queued right now.
    pub fn queued(&self) -> (n: usize)
        ensures
            n == self.queue().len(),
    {
        self.buffer.len()
    }

    /// Whether the channel is closed: every sender has been dropped.
    pub fn is_closed(&self) -> (r: bool)
        ensures
            r == self.is_closed_spec(),
    {
        self.senders == 0
    }
}

/// Creates a channel: the shared queue state, its first sender, and the one
/// receiver.
pub fn make_channel<T>() -> (r: (Channel<T>, Sender, Receiver))
    ensures
        r.0.wf(),
        r.0.queue().len() == 0,
        r.0.senders() == 1,
        r.0.receiver_live(),
        r.0.holds_sender(r.1),
{
    let channel = Channel {
        buffer: VecDeque::new(),
        senders: 1,
        receiver_live: true,
        live: Ghost(Set::empty().insert(0int)),
        next_id: Ghost(1int),
    };
    proof {
        assert(channel.live@.len() == 1);
    }
    (channel, Sender { id: Ghost(0int) }, Receiver { held: () })
}

} // verus!
