//! The writer task: from messages on the outbound channel to frames written
//! on the outbound half of the connection.

use crate::channel::{wait_for, Polled};
use crate::bridge::close_only_last;
use crate::message::{has_close, Message, WireFrame, WriteOutcome};
use vstd::prelude::*;

verus! {

impl Message {
    /// The frame that this message is written as.
    pub open spec fn frame(self) -> WireFrame {
        match self {
            Message::Text(p) => WireFrame::Text(p),
            Message::Error(p) => WireFrame::Text(p),
            Message::Close => WireFrame::Close,
        }
    }
}

/// The frames written for `msgs`, taken from the outbound channel in this
/// order: one for each message up to and including the first `Close`, and
/// none after it.
pub open spec fn outbound_of(msgs: Seq<Message>) -> Seq<WireFrame>
    decreases msgs.len(),
{
    if msgs.len() == 0 {
        Seq::empty()
    } else {
        let before = msgs.drop_last();
        if has_close(before) {
            outbound_of(before)
        } else {
            outbound_of(before).push(msgs.last().frame())
        }
    }
}

/// What the writer's loop does next.
#[derive(Clone, Debug, PartialEq, Eq)]
pub enum WriterAction {
    /// Write a text frame, then report the outcome to `on_write_result`.
    WriteText(String),
    /// Write a close frame; the task has terminated.
    WriteClose,
    /// Nothing came: flush what the transport has queued (a pong, for
    /// instance) and ask again.
    Flush,
    /// The task has terminated: write nothing more.
    Stop,
}

impl WriterAction {
    pub open spec fn writes(self) -> Option<WireFrame> {
        match self {
            WriterAction::WriteText(p) => Some(WireFrame::Text(p)),
            WriterAction::WriteClose => Some(WireFrame::Close),
            _ => None,
        }
    }
}

/// The writer task's decisions, with the consuming end of the outbound
/// channel. The loop that owns the transport's outbound half asks `next` what
/// to do, does it, and reports each write's outcome.
pub struct WriterTask {
    rx: crossbeam_channel::Receiver<Message>,
    done: bool,
    taken: Ghost<Seq<Message>>,
    written: Ghost<Seq<WireFrame>>,
}

impl WriterTask {
    /// The messages that the task has taken from the outbound channel, in order.
    pub closed spec fn taken(&self) -> Seq<Message> {
        self.taken@
    }

    /// The frames that the task has asked to write, in order.
    pub closed spec fn written(&self) -> Seq<WireFrame> {
        self.written@
    }

    /// True once the task has terminated.
    pub closed spec fn is_done(&self) -> bool {
        self.done
    }

    pub closed spec fn wf(&self) -> bool {
        &&& self.written@ == outbound_of(self.taken@)
        &&& has_close(self.taken@) ==> self.done
    }

    pub(crate) fn new(rx: crossbeam_channel::Receiver<Message>) -> (r: WriterTask)
        ensures
            r.wf(),
            r.taken() == Seq::<Message>::empty(),
            !r.is_done(),
    {
        WriterTask { rx, done: false, taken: Ghost(Seq::empty()), written: Ghost(Seq::empty()) }
    }

    /// True once the task has terminated.
    pub fn done(&self) -> (r: bool)
        ensures
            r == self.is_done(),
    {
        self.done
    }

    /// Waits up to `wait_millis` milliseconds for the next outbound message
    /// and says what to write for it. The wait suspends the calling thread
    /// rather than polling. `Close` is written last: the task then
    /// terminates, as it does when every producer of the channel is gone.
    /// What each result of the wait leads to is `on_polled`'s contract.
    pub fn next(&mut self, wait_millis: u64) -> (r: WriterAction)
        requires
            old(self).wf(),
        ensures
            final(self).wf(),
            final(self).written() == outbound_of(final(self).taken()),
            old(self).is_done() ==> r == WriterAction::Stop && final(self).taken() == old(self).taken(),
            r.writes() is None ==> final(self).taken() == old(self).taken(),
            r.writes() matches Some(f) ==> {
                &&& final(self).taken().len() == old(self).taken().len() + 1
                &&& final(self).taken().drop_last() == old(self).taken()
                &&& f == final(self).taken().last().frame()
                &&& final(self).written() == old(self).written().push(f)
            },
            final(self).is_done() == (old(self).is_done() || r == WriterAction::WriteClose
                || r == WriterAction::Stop),
            r == WriterAction::Stop ==> final(self).is_done(),
    {
        if self.done {
            return WriterAction::Stop;
        }
        let p = wait_for(&self.rx, wait_millis);
        self.on_polled(p)
    }

    /// Says what to write for the result of one wait on the outbound
    /// channel: a message is taken and its frame written, and `Close` ends
    /// the task; nothing within the wait asks for a flush; a channel whose
    /// producers are all gone ends the task.
    pub fn on_polled(&mut self, p: Polled) -> (r: WriterAction)
        requires
            old(self).wf(),
            !old(self).is_done(),
        ensures
            final(self).wf(),
            p matches Polled::Got(m) ==> {
                &&& final(self).taken() == old(self).taken().push(m)
                &&& final(self).written() == old(self).written().push(m.frame())
                &&& r.writes() == Some(m.frame())
                &&& final(self).is_done() == (m is Close)
            },
            p is Empty ==> r == WriterAction::Flush && final(self).taken() == old(self).taken()
                && !final(self).is_done(),
            p is Disconnected ==> r == WriterAction::Stop && final(self).taken() == old(self).taken()
                && final(self).is_done(),
    {
        let ghost before = self.taken@;
        match p {
            Polled::Got(m) => {
                proof {
                    self.taken@ = self.taken@.push(m);
                    assert(self.taken@.drop_last() == before);
                    self.written@ = self.written@.push(m.frame());
                }
                match m {
                    Message::Close => {
                        assert(self.taken@[self.taken@.len() - 1] is Close);
                        self.done = true;
                        WriterAction::WriteClose
                    },
                    Message::Text(p) => WriterAction::WriteText(p),
                    Message::Error(p) => WriterAction::WriteText(p),
                }
            },
            Polled::Empty => WriterAction::Flush,
            Polled::Disconnected => {
                self.done = true;
                WriterAction::Stop
            },
        }
    }

    /// Takes the outcome of writing a text frame. A failed write is not
    /// retried and does not end the task; a closed connection does.
    pub fn on_write_result(&mut self, outcome: &WriteOutcome)
        requires
            old(self).wf(),
        ensures
            final(self).wf(),
            final(self).taken() == old(self).taken(),
            final(self).written() == old(self).written(),
            final(self).is_done() == (old(self).is_done() || outcome is ConnectionClosed),
    {
        match outcome {
            WriteOutcome::ConnectionClosed => {
                self.done = true;
            },
            WriteOutcome::Written => {},
            WriteOutcome::Failed(_) => {},
        }
    }
}

/// Order is kept: for messages in which `Close` comes last if at all (as the
/// bridge sends them), the frames written are those of the messages, in the
/// order the messages were taken.
pub proof fn lemma_outbound_in_order(msgs: Seq<Message>)
    requires
        close_only_last(msgs),
    ensures
        outbound_of(msgs) == msgs.map_values(|m: Message| m.frame()),
    decreases msgs.len(),
{
    if msgs.len() > 0 {
        let before = msgs.drop_last();
        assert(close_only_last(before));
        lemma_outbound_in_order(before);
        if has_close(before) {
            let i = choose|i: int| 0 <= i < before.len() && (#[trigger] before[i]) is Close;
            assert(msgs[i] == before[i]);
        }
        assert(outbound_of(msgs) =~= msgs.map_values(|m: Message| m.frame()));
    }
}

/// `Close` is the last frame written: whatever follows it in the outbound
/// channel adds nothing, and a close frame ends what is written.
pub proof fn lemma_close_is_last(before: Seq<Message>, after: Seq<Message>)
    ensures
        outbound_of(before.push(Message::Close) + after) == outbound_of(before.push(Message::Close)),
        !has_close(before) ==> outbound_of(before.push(Message::Close)).last() == WireFrame::Close,
    decreases after.len(),
{
    let closed = before.push(Message::Close);
    if after.len() == 0 {
        assert(closed + after =~= closed);
    } else {
        let s = closed + after;
        assert(s.drop_last() =~= closed + after.drop_last());
        assert(s.drop_last()[before.len() as int] is Close);
        lemma_close_is_last(before, after.drop_last());
    }
    assert(closed.drop_last() =~= before);
}

} // verus!
