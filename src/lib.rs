//! A bridge between a duplex WebSocket-style connection, pumped by two
//! background tasks, and a synchronous tick loop that must never wait on I/O.
//!
//! The tick loop touches only the [`Bridge`]: it drains inbound messages once
//! per tick and enqueues outbound ones. The [`ReaderTask`] and the
//! [`WriterTask`] hold the other ends of the two channels and decide, frame by
//! frame, what crosses the boundary. The [`Session`] tracks the connection's
//! lifecycle.

mod channel;

pub mod bridge;
pub mod message;
pub mod reader;
pub mod session;
pub mod writer;

pub use bridge::{Bridge, Link};
pub use channel::{Polled, Refusal, MAX_CAPACITY};
pub use message::{ConnectError, Incoming, Message, SendError, WireFrame, WriteOutcome};
pub use reader::{ReaderStep, ReaderTask};
pub use session::{ConnectionState, Session, TransitionError};
pub use writer::{WriterAction, WriterTask};
