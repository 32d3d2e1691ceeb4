//! The two channels, from crossbeam-channel.
//!
//! What a channel holds changes under the other thread's hands, so the
//! wrappers below promise nothing about which outcome a call has: the
//! verified code around them is correct for every outcome.

use crate::message::Message;
use vstd::prelude::*;

verus! {

#[verifier::external_type_specification]
#[verifier::external_body]
#[verifier::reject_recursive_types(T)]
pub struct ExSender<T>(crossbeam_channel::Sender<T>);

#[verifier::external_type_specification]
#[verifier::external_body]
#[verifier::reject_recursive_types(T)]
pub struct ExReceiver<T>(crossbeam_channel::Receiver<T>);

/// The largest capacity accepted for the outbound channel. crossbeam-channel
/// allocates every slot of a bounded channel up front (its own panics start
/// only near 2^62 slots); this bound keeps that allocation modest.
pub const MAX_CAPACITY: usize = 1048576;

/// Why a message was not put on a channel.
#[derive(Clone, Copy, Debug, PartialEq, Eq, Structural)]
pub enum Refusal {
    Full,
    Disconnected,
}

/// What one receive attempt gave.
#[derive(Clone, Debug, PartialEq, Eq)]
pub enum Polled {
    Got(Message),
    Empty,
    Disconnected,
}

/// Relies on crossbeam_channel::bounded: a channel holding at most `cap`
/// messages; with `cap` 0, a message passes only when a receiver is waiting.
#[verifier::external_body]
pub(crate) fn bounded_channel(cap: usize) -> (crossbeam_channel::Sender<Message>, crossbeam_channel::Receiver<Message>)
    requires
        cap <= MAX_CAPACITY,
{
    crossbeam_channel::bounded(cap)
}

/// Relies on crossbeam_channel::unbounded: a channel without a capacity.
#[verifier::external_body]
pub(crate) fn unbounded_channel() -> (crossbeam_channel::Sender<Message>, crossbeam_channel::Receiver<Message>) {
    crossbeam_channel::unbounded()
}

/// Relies on crossbeam_channel::Sender::try_send: never blocks; refuses the
/// message when the channel is full or every receiver is gone.
#[verifier::external_body]
pub(crate) fn offer(tx: &crossbeam_channel::Sender<Message>, m: Message) -> Result<(), Refusal> {
    match tx.try_send(m) {
        Ok(()) => Ok(()),
        Err(crossbeam_channel::TrySendError::Full(_)) => Err(Refusal::Full),
        Err(crossbeam_channel::TrySendError::Disconnected(_)) => Err(Refusal::Disconnected),
    }
}

/// Relies on crossbeam_channel::Receiver::try_recv: never blocks; takes the
/// oldest message if there is one.
#[verifier::external_body]
pub(crate) fn poll(rx: &crossbeam_channel::Receiver<Message>) -> Polled {
    match rx.try_recv() {
        Ok(m) => Polled::Got(m),
        Err(crossbeam_channel::TryRecvError::Empty) => Polled::Empty,
        Err(crossbeam_channel::TryRecvError::Disconnected) => Polled::Disconnected,
    }
}

/// Relies on crossbeam_channel::Receiver::len: how many messages the channel
/// holds at the moment of the call.
#[verifier::external_body]
pub(crate) fn pending(rx: &crossbeam_channel::Receiver<Message>) -> usize {
    rx.len()
}

/// Relies on crossbeam_channel::Receiver::recv_timeout: suspends the calling
/// thread until a message comes, every sender is gone, or `millis`
/// milliseconds pass, which gives `Empty`.
#[verifier::external_body]
pub(crate) fn wait_for(rx: &crossbeam_channel::Receiver<Message>, millis: u64) -> Polled {
    match rx.recv_timeout(std::time::Duration::from_millis(millis)) {
        Ok(m) => Polled::Got(m),
        Err(crossbeam_channel::RecvTimeoutError::Timeout) => Polled::Empty,
        Err(crossbeam_channel::RecvTimeoutError::Disconnected) => Polled::Disconnected,
    }
}

} // verus!
