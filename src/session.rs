//! The connection's lifecycle.

use crate::bridge::Link;
use crate::channel::MAX_CAPACITY;
use crate::message::ConnectError;
use vstd::prelude::*;

verus! {

/// Where a connection stands. States only move forward: nothing leaves
/// `Closed` or `Failed`.
#[derive(Clone, Copy, Debug, PartialEq, Eq, Structural)]
pub enum ConnectionState {
    Disconnected,
    Connecting,
    Connected,
    Closing,
    Closed,
    Failed(ConnectError),
}

impl ConnectionState {
    /// How far along the lifecycle the state is.
    pub open spec fn stage(self) -> nat {
        match self {
            ConnectionState::Disconnected => 0,
            ConnectionState::Connecting => 1,
            ConnectionState::Connected => 2,
            ConnectionState::Closing => 3,
            ConnectionState::Closed => 4,
            ConnectionState::Failed(_) => 4,
        }
    }

    pub open spec fn is_final(self) -> bool {
        self is Closed || self is Failed
    }

    /// The moves that the lifecycle allows.
    pub open spec fn may_move(self, to: ConnectionState) -> bool {
        match self {
            ConnectionState::Disconnected => to is Connecting,
            ConnectionState::Connecting => to is Connected || to is Failed,
            ConnectionState::Connected => to is Closing || to is Closed || to is Failed,
            ConnectionState::Closing => to is Closed || to is Failed,
            _ => false,
        }
    }
}

/// Why a state change was refused.
#[derive(Clone, Copy, Debug, PartialEq, Eq, Structural)]
pub enum TransitionError {
    /// The lifecycle does not allow the move from the current state.
    NotAllowed,
}

/// One connection attempt and what became of it.
pub struct Session {
    state: ConnectionState,
}

impl Session {
    pub closed spec fn current(&self) -> ConnectionState {
        self.state
    }

    /// A session that has not tried to connect yet.
    pub fn new() -> (r: Session)
        ensures
            r.current() == ConnectionState::Disconnected,
    {
        Session { state: ConnectionState::Disconnected }
    }

    pub fn state(&self) -> (r: ConnectionState)
        ensures
            r == self.current(),
    {
        self.state
    }

    /// Moves to `to` where the lifecycle allows it, and otherwise leaves the
    /// state as it is.
    pub fn advance(&mut self, to: ConnectionState) -> (r: Result<(), TransitionError>)
        ensures
            r is Ok <==> old(self).current().may_move(to),
            r is Ok ==> final(self).current() == to,
            r is Err ==> final(self).current() == old(self).current(),
    {
        let allowed = match self.state {
            ConnectionState::Disconnected => match to {
                ConnectionState::Connecting => true,
                _ => false,
            },
            ConnectionState::Connecting => match to {
                ConnectionState::Connected => true,
                ConnectionState::Failed(_) => true,
                _ => false,
            },
            ConnectionState::Connected => match to {
                ConnectionState::Closing => true,
                ConnectionState::Closed => true,
                ConnectionState::Failed(_) => true,
                _ => false,
            },
            ConnectionState::Closing => match to {
                ConnectionState::Closed => true,
                ConnectionState::Failed(_) => true,
                _ => false,
            },
            _ => false,
        };
        if allowed {
            self.state = to;
            Ok(())
        } else {
            Err(TransitionError::NotAllowed)
        }
    }

    /// Ends a connect attempt with its outcome. On success the session is
    /// `Connected` and the bridge and its two tasks are created, the outbound
    /// channel holding at most `capacity` messages; on failure the session is
    /// `Failed` with the error, which is returned, and nothing is created.
    pub fn finish_connect(&mut self, outcome: Result<(), ConnectError>, capacity: usize) -> (r: Result<Link, ConnectError>)
        requires
            old(self).current() == ConnectionState::Connecting,
            capacity <= MAX_CAPACITY,
        ensures
            outcome is Ok <==> r is Ok,
            outcome is Ok ==> final(self).current() == ConnectionState::Connected,
            r matches Ok(link) ==> link.fresh(),
            outcome matches Err(e) ==> r == Err::<Link, ConnectError>(e)
                && final(self).current() == ConnectionState::Failed(e),
    {
        match outcome {
            Ok(()) => {
                self.state = ConnectionState::Connected;
                Ok(Link::new(capacity))
            },
            Err(e) => {
                self.state = ConnectionState::Failed(e);
                Err(e)
            },
        }
    }
}

/// The lifecycle only moves forward.
pub proof fn lemma_moves_forward(from: ConnectionState, to: ConnectionState)
    requires
        from.may_move(to),
    ensures
        to.stage() > from.stage(),
{
}

/// No move leaves `Closed` or `Failed`: a finished connection is never
/// resurrected.
pub proof fn lemma_no_resurrection(from: ConnectionState, to: ConnectionState)
    requires
        from.is_final(),
    ensures
        !from.may_move(to),
{
}

} // verus!
