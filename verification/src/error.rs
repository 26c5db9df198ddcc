//! The failures that end a connection.

use crate::reconnect::{notice_of, CloseFrame, CloseNotice};
use vstd::prelude::*;

verus! {

/// How the server broke the protocol. Each of these ends the connection and
/// the session with it: what the server said cannot be trusted any more.
#[derive(Clone, Copy, Debug, PartialEq, Eq, Structural)]
pub enum ProtocolError {
    /// The first envelope of a connection was not a greeting.
    ExpectedHello,
    /// The greeting names no heartbeat interval, or names zero.
    MalformedHello,
    /// Before the session was ready, an event other than `READY` arrived.
    ExpectedReady,
    /// `READY` names no session id or no address to resume at.
    MalformedReady,
    /// An opcode that has no place in the current phase.
    UnexpectedOpcode,
}

/// Why the gateway could not go on with its connection.
#[derive(Debug)]
pub enum DiscordGatewayError {
    /// An envelope could not be sent.
    SendFail(String),
    /// There is no connection.
    SocketIsNone,
    /// The connection was closed, with the close frame if one came.
    SocketClosed(Option<CloseFrame>),
    /// The connection could not be opened.
    ConnectionFail,
    /// The server broke the protocol.
    Protocol(ProtocolError),
}

/// The mathematical form of a [`DiscordGatewayError`].
pub enum Failure {
    SendFail(Seq<char>),
    SocketIsNone,
    SocketClosed(Option<CloseNotice>),
    ConnectionFail,
    Protocol(ProtocolError),
}

impl View for DiscordGatewayError {
    type V = Failure;

    open spec fn view(&self) -> Failure {
        match self {
            DiscordGatewayError::SendFail(reason) => Failure::SendFail(reason@),
            DiscordGatewayError::SocketIsNone => Failure::SocketIsNone,
            DiscordGatewayError::SocketClosed(frame) => Failure::SocketClosed(notice_of(*frame)),
            DiscordGatewayError::ConnectionFail => Failure::ConnectionFail,
            DiscordGatewayError::Protocol(error) => Failure::Protocol(*error),
        }
    }
}

} // verus!
