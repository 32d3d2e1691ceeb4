//! The values that cross the boundary between the tick loop and the tasks.

use vstd::prelude::*;
use vstd::string::StringExecFns;

verus! {

/// What travels on either channel: a closed set of variants.
#[derive(Clone, Debug, PartialEq, Eq)]
pub enum Message {
    Text(String),
    Error(String),
    Close,
}

/// A frame as the reader task receives it from the transport, or the
/// transport-level failure that ended the receive.
#[derive(Clone, Debug, PartialEq, Eq)]
pub enum Incoming {
    Text(String),
    Ping,
    Pong,
    Close,
    /// Any other frame kind (binary data, for instance).
    Other,
    /// The transport failed; the description says why.
    Failure(String),
}

/// A frame the writer task puts on the wire.
#[derive(Clone, Debug, PartialEq, Eq)]
pub enum WireFrame {
    Text(String),
    Close,
}

/// How writing one frame turned out.
#[derive(Clone, Debug, PartialEq, Eq)]
pub enum WriteOutcome {
    Written,
    /// The write failed, but the connection may still be usable.
    Failed(String),
    /// The connection is closed: nothing more can be written.
    ConnectionClosed,
}

/// Why `Bridge::send` refused a message.
#[derive(Clone, Copy, Debug, PartialEq, Eq, Structural)]
pub enum SendError {
    /// The writer task has terminated, or `Close` was already enqueued.
    ChannelClosed,
    /// The outbound channel is at capacity; the message was not enqueued.
    Full,
}

/// Why a connection could not be established.
#[derive(Clone, Copy, Debug, PartialEq, Eq, Structural)]
pub enum ConnectError {
    /// The endpoint could not be parsed, resolved or reached.
    Unreachable,
    /// A secure channel could not be set up.
    Tls,
    /// The peer answered but did not accept the WebSocket handshake.
    Handshake,
}

impl Message {
    /// A message after which the reader sends nothing more.
    pub open spec fn ends_inbound(self) -> bool {
        self is Close || self is Error
    }
}

/// True when `Close` occurs somewhere in `msgs`.
pub open spec fn has_close(msgs: Seq<Message>) -> bool {
    exists|i: int| 0 <= i < msgs.len() && (#[trigger] msgs[i]) is Close
}

/// The line that a host shows for an inbound message.
pub open spec fn described(m: Message) -> Seq<char> {
    match m {
        Message::Text(p) => "MESSAGE: "@ + p@,
        Message::Error(p) => "ERROR: "@ + p@,
        Message::Close => "Server requested close"@,
    }
}

impl Message {
    /// The line that a host shows for this message: the payload of a text
    /// or an error behind a label, or a fixed notice for `Close`.
    pub fn describe(&self) -> (r: String)
        ensures
            r@ == described(*self),
    {
        match self {
            Message::Text(p) => {
                let mut line = String::from_str("MESSAGE: ");
                line.append(p.as_str());
                line
            },
            Message::Error(p) => {
                let mut line = String::from_str("ERROR: ");
                line.append(p.as_str());
                line
            },
            Message::Close => String::from_str("Server requested close"),
        }
    }
}

} // verus!
