//! The reader task: from frames received on the inbound half of the
//! connection to messages on the inbound channel.

use crate::channel::{offer, Refusal};
use crate::message::{Incoming, Message};
use vstd::prelude::*;

verus! {

impl Incoming {
    /// A frame or failure after which the reader receives nothing more.
    pub open spec fn ends_reading(self) -> bool {
        self is Close || self is Failure
    }

    /// The message that this frame becomes on the inbound channel, if any.
    pub open spec fn message(self) -> Option<Message> {
        match self {
            Incoming::Text(p) => Some(Message::Text(p)),
            Incoming::Close => Some(Message::Close),
            Incoming::Failure(r) => Some(Message::Error(r)),
            _ => None,
        }
    }
}

/// True when some event of `events` ends the reading.
pub open spec fn reading_ended(events: Seq<Incoming>) -> bool {
    exists|i: int| 0 <= i < events.len() && (#[trigger] events[i]).ends_reading()
}

/// The messages that the reader forwards for `events`, received in this
/// order: one for each text frame, close or failure, up to and including
/// the first event that ends the reading.
pub open spec fn inbound_of(events: Seq<Incoming>) -> Seq<Message>
    decreases events.len(),
{
    if events.len() == 0 {
        Seq::empty()
    } else {
        let before = events.drop_last();
        if reading_ended(before) {
            inbound_of(before)
        } else {
            match events.last().message() {
                Some(m) => inbound_of(before).push(m),
                None => inbound_of(before),
            }
        }
    }
}

/// What the reader's loop does after an event.
#[derive(Clone, Copy, Debug, PartialEq, Eq, Structural)]
pub enum ReaderStep {
    /// Receive the next frame.
    Continue,
    /// The task has terminated: receive nothing more.
    Stop,
}

impl ReaderStep {
    /// What follows an event, given whether it ends the reading and the
    /// inbound channel's answer to the message forwarded for it, if one was:
    /// the task stops exactly when the event ends the reading or the
    /// channel's consumer is gone.
    pub fn after(ends: bool, offered: Option<Result<(), Refusal>>) -> (r: ReaderStep)
        ensures
            r == ReaderStep::Stop <==> (ends || offered == Some(Err::<(), Refusal>(Refusal::Disconnected))),
    {
        if ends {
            return ReaderStep::Stop;
        }
        match offered {
            Some(Err(Refusal::Disconnected)) => ReaderStep::Stop,
            _ => ReaderStep::Continue,
        }
    }
}

/// The reader task's decisions, with the producing end of the inbound
/// channel. The loop that receives frames from the transport feeds each one
/// to `on_event` and stops when it answers `Stop`.
pub struct ReaderTask {
    tx: crossbeam_channel::Sender<Message>,
    done: bool,
    seen: Ghost<Seq<Incoming>>,
    forwarded: Ghost<Seq<Message>>,
}

impl ReaderTask {
    /// The events that the task has handled while running, in order.
    pub closed spec fn seen(&self) -> Seq<Incoming> {
        self.seen@
    }

    /// The messages that the task has put on the inbound channel, in order.
    pub closed spec fn forwarded(&self) -> Seq<Message> {
        self.forwarded@
    }

    /// True once the task has terminated.
    pub closed spec fn is_done(&self) -> bool {
        self.done
    }

    pub closed spec fn wf(&self) -> bool {
        &&& self.forwarded@ == inbound_of(self.seen@)
        &&& reading_ended(self.seen@) ==> self.done
    }

    pub(crate) fn new(tx: crossbeam_channel::Sender<Message>) -> (r: ReaderTask)
        ensures
            r.wf(),
            r.seen() == Seq::<Incoming>::empty(),
            !r.is_done(),
    {
        ReaderTask { tx, done: false, seen: Ghost(Seq::empty()), forwarded: Ghost(Seq::empty()) }
    }

    /// True once the task has terminated.
    pub fn done(&self) -> (r: bool)
        ensures
            r == self.is_done(),
    {
        self.done
    }

    /// Handles one received frame, or the failure that ended a receive:
    /// forwards the message it becomes, if any, and says whether to go on.
    /// A close frame or a failure terminates the task, and so does an inbound
    /// channel whose consumer is gone, as `ReaderStep::after` states. Ping
    /// and pong frames are answered by the transport and forward nothing.
    pub fn on_event(&mut self, ev: Incoming) -> (r: ReaderStep)
        requires
            old(self).wf(),
        ensures
            final(self).wf(),
            old(self).is_done() ==> r == ReaderStep::Stop && final(self).seen() == old(self).seen(),
            !old(self).is_done() ==> final(self).seen() == old(self).seen().push(ev),
            !old(self).is_done() ==> final(self).forwarded() == match ev.message() {
                Some(m) => old(self).forwarded().push(m),
                None => old(self).forwarded(),
            },
            final(self).forwarded() == inbound_of(final(self).seen()),
            final(self).is_done() == (r == ReaderStep::Stop),
            old(self).is_done() || ev.ends_reading() ==> r == ReaderStep::Stop,
            !old(self).is_done() && (ev is Ping || ev is Pong || ev is Other) ==> r == ReaderStep::Continue,
    {
        if self.done {
            return ReaderStep::Stop;
        }
        let ghost before = self.seen@;
        assert(!reading_ended(before));
        self.seen = Ghost(self.seen@.push(ev));
        assert(self.seen@.drop_last() == before);
        let ends = match &ev {
            Incoming::Close => true,
            Incoming::Failure(_) => true,
            _ => false,
        };
        let m = match ev {
            Incoming::Text(p) => Some(Message::Text(p)),
            Incoming::Close => Some(Message::Close),
            Incoming::Failure(r) => Some(Message::Error(r)),
            _ => None,
        };
        let offered = match m {
            Some(m) => {
                proof {
                    self.forwarded@ = self.forwarded@.push(m);
                }
                Some(offer(&self.tx, m))
            },
            None => None,
        };
        if ends {
            assert(self.seen@[self.seen@.len() - 1].ends_reading());
        }
        let step = ReaderStep::after(ends, offered);
        if step == ReaderStep::Stop {
            self.done = true;
        }
        step
    }
}

/// Order is kept: for text frames received in some order, the messages
/// forwarded are their texts, in that order.
pub proof fn lemma_inbound_in_order(texts: Seq<String>)
    ensures
        inbound_of(texts.map_values(|p: String| Incoming::Text(p)))
            == texts.map_values(|p: String| Message::Text(p)),
    decreases texts.len(),
{
    let events = texts.map_values(|p: String| Incoming::Text(p));
    if texts.len() > 0 {
        lemma_inbound_in_order(texts.drop_last());
        assert(events.drop_last() =~= texts.drop_last().map_values(|p: String| Incoming::Text(p)));
        assert(!reading_ended(events.drop_last()));
        assert(inbound_of(events) =~= texts.map_values(|p: String| Message::Text(p)));
    }
}

/// Reading ends at a close frame or a failure: whatever arrives after it
/// forwards nothing.
pub proof fn lemma_nothing_after_end(before: Seq<Incoming>, last: Incoming, after: Seq<Incoming>)
    requires
        last.ends_reading(),
    ensures
        inbound_of(before.push(last) + after) == inbound_of(before.push(last)),
    decreases after.len(),
{
    let ended = before.push(last);
    if after.len() == 0 {
        assert(ended + after =~= ended);
    } else {
        let s = ended + after;
        assert(s.drop_last() =~= ended + after.drop_last());
        assert(s.drop_last()[before.len() as int].ends_reading());
        lemma_nothing_after_end(before, last, after.drop_last());
    }
}

} // verus!
