//! The error kinds of a game session.

use vstd::prelude::*;

verus! {

/// What can go wrong during a session.
#[derive(Clone, Copy, Debug, PartialEq, Eq, Structural)]
pub enum SessionError {
    /// A binary payload whose length is not that of a state frame.
    MalformedFrame,
    /// The server answered a match request with a status outside the accepted set.
    MatchRequestRejected,
    /// An assignment payload lacks a game id, an opponent id or a side.
    InvalidAssignment,
    /// The start call was refused or the streaming connection could not be opened.
    ConnectFailed,
    /// A transmission failed on an established connection.
    SendFailed,
    /// The request that leaves the matchmaking queue failed.
    QueueCancelFailed,
}

impl SessionError {
    /// Whether the error ends the match: every kind but a malformed frame,
    /// which is dropped, and a failed queue removal, which is only reported.
    pub open spec fn spec_is_fatal(self) -> bool {
        !(self is MalformedFrame) && !(self is QueueCancelFailed)
    }

    /// The error in words, for the user.
    pub open spec fn spec_message(self) -> Seq<char> {
        match self {
            SessionError::MalformedFrame => "malformed state frame"@,
            SessionError::MatchRequestRejected => "match request rejected"@,
            SessionError::InvalidAssignment => "invalid match assignment"@,
            SessionError::ConnectFailed => "connection failed"@,
            SessionError::SendFailed => "send failed"@,
            SessionError::QueueCancelFailed => "could not leave the matchmaking queue"@,
        }
    }

    /// The error in words, for the user.
    pub fn message(&self) -> (text: String)
        ensures
            text@ == self.spec_message(),
    {
        match self {
            SessionError::MalformedFrame => String::from_str("malformed state frame"),
            SessionError::MatchRequestRejected => String::from_str("match request rejected"),
            SessionError::InvalidAssignment => String::from_str("invalid match assignment"),
            SessionError::ConnectFailed => String::from_str("connection failed"),
            SessionError::SendFailed => String::from_str("send failed"),
            SessionError::QueueCancelFailed => String::from_str(
                "could not leave the matchmaking queue",
            ),
        }
    }

    /// Whether the error ends the match.
    pub fn is_fatal(&self) -> (fatal: bool)
        ensures
            fatal == self.spec_is_fatal(),
    {
        match self {
            SessionError::MalformedFrame => false,
            SessionError::QueueCancelFailed => false,
            _ => true,
        }
    }
}

} // verus!
