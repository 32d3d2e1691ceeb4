//! The bridge: the only object that the tick loop touches.

use crate::channel::{
    bounded_channel, offer, pending, poll, unbounded_channel, Polled, Refusal, MAX_CAPACITY,
};
use crate::message::{has_close, Message, SendError};
use crate::reader::ReaderTask;
use crate::writer::{lemma_outbound_in_order, outbound_of, WriterTask};
use vstd::prelude::*;

verus! {

/// True when the only message of `msgs` that ends the inbound direction, if
/// any, is the last one.
pub open spec fn ends_only_last(msgs: Seq<Message>) -> bool {
    forall|i: int| 0 <= i < msgs.len() - 1 ==> !(#[trigger] msgs[i]).ends_inbound()
}

/// True when `Close`, if it occurs in `msgs`, is the last message.
pub open spec fn close_only_last(msgs: Seq<Message>) -> bool {
    forall|i: int| 0 <= i < msgs.len() - 1 ==> !((#[trigger] msgs[i]) is Close)
}

/// The producing end of the outbound channel and the consuming end of the
/// inbound one. Neither of its operations blocks.
pub struct Bridge {
    out_tx: crossbeam_channel::Sender<Message>,
    in_rx: crossbeam_channel::Receiver<Message>,
    out_open: bool,
    in_open: bool,
    sent: Ghost<Seq<Message>>,
    received: Ghost<Seq<Message>>,
}

/// A bridge with the two tasks that serve it, each holding the other end of
/// one of its channels.
pub struct Link {
    pub bridge: Bridge,
    pub reader: ReaderTask,
    pub writer: WriterTask,
}

impl Link {
    pub open spec fn fresh(self) -> bool {
        &&& self.bridge.wf()
        &&& self.bridge.sent() == Seq::<Message>::empty()
        &&& self.bridge.received() == Seq::<Message>::empty()
        &&& self.bridge.outbound_open()
        &&& self.bridge.inbound_open()
        &&& self.reader.wf()
        &&& self.reader.seen() == Seq::<crate::message::Incoming>::empty()
        &&& !self.reader.is_done()
        &&& self.writer.wf()
        &&& self.writer.taken() == Seq::<Message>::empty()
        &&& !self.writer.is_done()
    }

    /// Creates the two channels: the outbound one holds at most `capacity`
    /// messages, and `Bridge::send` refuses a message that finds it full; the
    /// inbound one has no capacity, so that the reader never drops a frame
    /// nor waits, since the tick loop drains it on every tick. With
    /// `capacity` 0 the outbound channel holds nothing: `send` then succeeds
    /// only while the writer task is waiting, and otherwise gets `Full`.
    pub fn new(capacity: usize) -> (r: Link)
        requires
            capacity <= MAX_CAPACITY,
        ensures
            r.fresh(),
    {
        let (out_tx, out_rx) = bounded_channel(capacity);
        let (in_tx, in_rx) = unbounded_channel();
        let bridge = Bridge {
            out_tx,
            in_rx,
            out_open: true,
            in_open: true,
            sent: Ghost(Seq::empty()),
            received: Ghost(Seq::empty()),
        };
        Link { bridge, reader: ReaderTask::new(in_tx), writer: WriterTask::new(out_rx) }
    }
}

impl Bridge {
    /// The messages that the outbound channel accepted, in the order sent.
    pub closed spec fn sent(&self) -> Seq<Message> {
        self.sent@
    }

    /// The messages drained from the inbound channel, in the order drained.
    pub closed spec fn received(&self) -> Seq<Message> {
        self.received@
    }

    /// False once `Close` was sent or the writer task was seen to be gone.
    pub closed spec fn outbound_open(&self) -> bool {
        self.out_open
    }

    /// False once a terminal message was drained or the reader task was seen
    /// to be gone.
    pub closed spec fn inbound_open(&self) -> bool {
        self.in_open
    }

    pub closed spec fn wf(&self) -> bool {
        &&& close_only_last(self.sent@)
        &&& has_close(self.sent@) ==> !self.out_open
        &&& ends_only_last(self.received@)
        &&& self.received@.len() > 0 && self.received@.last().ends_inbound() ==> !self.in_open
    }

    /// True while `send` may still put a message on the outbound channel.
    pub fn is_outbound_open(&self) -> (r: bool)
        ensures
            r == self.outbound_open(),
    {
        self.out_open
    }

    /// True while `tick` may still find messages on the inbound channel.
    pub fn is_inbound_open(&self) -> (r: bool)
        ensures
            r == self.inbound_open(),
    {
        self.in_open
    }

    /// Puts `msg` on the outbound channel without blocking. Once `Close` has
    /// been sent, or the writer task was found gone, every later message is
    /// refused with `ChannelClosed`. A full channel refuses with `Full`. What
    /// the channel's answer leads to is `settle`'s contract.
    pub fn send(&mut self, msg: Message) -> (r: Result<(), SendError>)
        requires
            old(self).wf(),
        ensures
            final(self).wf(),
            final(self).received() == old(self).received(),
            final(self).inbound_open() == old(self).inbound_open(),
            !old(self).outbound_open() ==> r == Err::<(), SendError>(SendError::ChannelClosed),
            r is Ok ==> final(self).sent() == old(self).sent().push(msg),
            r is Ok ==> final(self).outbound_open() == !(msg is Close),
            r is Err ==> final(self).sent() == old(self).sent(),
            r == Err::<(), SendError>(SendError::Full) ==> final(self).outbound_open() == old(self).outbound_open(),
            r == Err::<(), SendError>(SendError::ChannelClosed) ==> !final(self).outbound_open(),
    {
        if !self.out_open {
            return Err(SendError::ChannelClosed);
        }
        let closes = match &msg {
            Message::Close => true,
            _ => false,
        };
        let ghost m = msg;
        assert(closes == (m is Close));
        let offered = offer(&self.out_tx, msg);
        let r = self.settle(closes, offered);
        if r.is_ok() {
            proof {
                assert(!has_close(self.sent@));
                self.sent@ = self.sent@.push(m);
                assert(self.sent@.drop_last() =~= old(self).sent@);
                assert forall|i: int| 0 <= i < self.sent@.len() - 1 implies !((#[trigger] self.sent@[i]) is Close) by {
                    assert(self.sent@.drop_last()[i] == self.sent@[i]);
                }
            }
        }
        r
    }

    /// What the channel's answer to an offered message leads to: an accepted
    /// message is sent, and `Close` (`closes`) then shuts the outbound side;
    /// a full channel refuses the message and stays open; a channel whose
    /// writer task is gone refuses it with `ChannelClosed` and shuts the
    /// outbound side for good. The message itself is recorded by `send`.
    pub fn settle(&mut self, closes: bool, offered: Result<(), Refusal>) -> (r: Result<(), SendError>)
        requires
            old(self).wf(),
            old(self).outbound_open(),
        ensures
            final(self).wf(),
            final(self).sent() == old(self).sent(),
            final(self).received() == old(self).received(),
            final(self).inbound_open() == old(self).inbound_open(),
            r is Ok <==> offered is Ok,
            offered is Ok ==> final(self).outbound_open() == !closes,
            r == Err::<(), SendError>(SendError::Full) <==> offered == Err::<(), Refusal>(Refusal::Full),
            offered == Err::<(), Refusal>(Refusal::Full) ==> final(self).outbound_open(),
            r == Err::<(), SendError>(SendError::ChannelClosed) <==> offered == Err::<(), Refusal>(Refusal::Disconnected),
            offered == Err::<(), Refusal>(Refusal::Disconnected) ==> !final(self).outbound_open(),
    {
        match offered {
            Ok(()) => {
                if closes {
                    self.out_open = false;
                }
                Ok(())
            },
            Err(Refusal::Full) => Err(SendError::Full),
            Err(Refusal::Disconnected) => {
                self.out_open = false;
                Err(SendError::ChannelClosed)
            },
        }
    }

    /// Takes the result of one poll of the inbound channel into `out`: a
    /// message is appended and drained, and a `Close` or an `Error`, which
    /// the reader task sends last, shuts the inbound side; an empty channel
    /// leaves everything as it is; a channel whose reader task is gone shuts
    /// the inbound side. Returns whether to poll again.
    pub fn take_polled(&mut self, p: Polled, out: &mut Vec<Message>) -> (go_on: bool)
        requires
            old(self).wf(),
            old(self).inbound_open(),
        ensures
            final(self).wf(),
            final(self).sent() == old(self).sent(),
            final(self).outbound_open() == old(self).outbound_open(),
            p matches Polled::Got(m) ==> {
                &&& final(out)@ == old(out)@.push(m)
                &&& final(self).received() == old(self).received().push(m)
                &&& go_on == !m.ends_inbound()
                &&& final(self).inbound_open() == go_on
            },
            p is Empty ==> !go_on && final(out)@ == old(out)@ && final(self).received() == old(self).received()
                && final(self).inbound_open(),
            p is Disconnected ==> !go_on && final(out)@ == old(out)@ && final(self).received() == old(self).received()
                && !final(self).inbound_open(),
    {
        match p {
            Polled::Got(m) => {
                let ends = match &m {
                    Message::Close => true,
                    Message::Error(_) => true,
                    Message::Text(_) => false,
                };
                let ghost before = self.received@;
                proof {
                    self.received@ = self.received@.push(m);
                }
                out.push(m);
                assert forall|j: int| 0 <= j < self.received@.len() - 1 implies
                    !(#[trigger] self.received@[j]).ends_inbound() by {
                    assert(self.received@[j] == before[j]);
                }
                if ends {
                    self.in_open = false;
                }
                !ends
            },
            Polled::Empty => false,
            Polled::Disconnected => {
                self.in_open = false;
                false
            },
        }
    }

    /// Takes the messages that the inbound channel holds when the call
    /// begins (at most one more), in the order they were put there, without
    /// blocking. It stops after a `Close` or an `Error`, which the reader task
    /// sends last: from then on, and once the reader task is found gone, it
    /// returns nothing.
    pub fn tick(&mut self) -> (r: Vec<Message>)
        requires
            old(self).wf(),
        ensures
            final(self).wf(),
            final(self).sent() == old(self).sent(),
            final(self).outbound_open() == old(self).outbound_open(),
            final(self).received() == old(self).received() + r@,
            !old(self).inbound_open() ==> r@.len() == 0,
            !old(self).inbound_open() ==> !final(self).inbound_open(),
            ends_only_last(r@),
            r@.len() > 0 && r@.last().ends_inbound() ==> !final(self).inbound_open(),
    {
        let mut out: Vec<Message> = Vec::new();
        if !self.in_open {
            assert(self.received@ + out@ =~= self.received@);
            return out;
        }
        // One poll past the count, so that an empty channel whose producer
        // is gone is noticed.
        let held: usize = pending(&self.in_rx);
        let n: usize = if held < usize::MAX { held + 1 } else { held };
        let mut i: usize = 0;
        let ghost start = self.received@;
        assert(start + out@ =~= start);
        while i < n
            invariant_except_break
                self.inbound_open(),
            invariant
                self.wf(),
                start == old(self).received(),
                self.sent() == old(self).sent(),
                self.outbound_open() == old(self).outbound_open(),
                self.received() == start + out@,
            decreases n - i,
        {
            let p = poll(&self.in_rx);
            let go_on = self.take_polled(p, &mut out);
            assert(self.received() =~= start + out@);
            if !go_on {
                break;
            }
            i = i + 1;
        }
        assert forall|j: int| 0 <= j < out@.len() - 1 implies !(#[trigger] out@[j]).ends_inbound() by {
            assert(out@[j] == self.received()[start.len() + j]);
        }
        assert(out@.len() > 0 ==> out@.last() == self.received().last());
        out
    }
}

/// Order is kept from the bridge on: the frames written for the messages
/// that the bridge has sent, taken in the order sent, are those messages'
/// frames in that order, `Close` last if it was sent.
pub proof fn lemma_sent_reaches_wire(bridge: &Bridge)
    requires
        bridge.wf(),
    ensures
        outbound_of(bridge.sent()) == bridge.sent().map_values(|m: Message| m.frame()),
{
    lemma_outbound_in_order(bridge.sent());
}

} // verus!
