//! The operation codes of the gateway protocol.

use vstd::prelude::*;

verus! {

/// What an envelope asks for or announces.
#[derive(Clone, Copy, Debug, PartialEq, Eq, Structural)]
pub enum Opcode {
    /// An application event pushed by the server.
    Dispatch,
    /// A heartbeat, or the server's request for one.
    Heartbeat,
    /// The client presents its credentials and opens a new session.
    Identify,
    /// The client asks to continue an earlier session.
    Resume,
    /// The server asks the client to reconnect and resume.
    Reconnect,
    /// The server declares the session invalid.
    InvalidSession,
    /// The server's greeting; it carries the heartbeat interval.
    Hello,
    /// The server acknowledges a heartbeat.
    HeartbeatAck,
}

/// The number that stands for an opcode on the wire.
pub open spec fn wire_code(opcode: Opcode) -> u8 {
    match opcode {
        Opcode::Dispatch => 0,
        Opcode::Heartbeat => 1,
        Opcode::Identify => 2,
        Opcode::Resume => 6,
        Opcode::Reconnect => 7,
        Opcode::InvalidSession => 9,
        Opcode::Hello => 10,
        Opcode::HeartbeatAck => 11,
    }
}

/// The opcode that a number on the wire stands for, if it stands for one.
pub open spec fn opcode_of(code: u64) -> Option<Opcode> {
    if code == 0 {
        Some(Opcode::Dispatch)
    } else if code == 1 {
        Some(Opcode::Heartbeat)
    } else if code == 2 {
        Some(Opcode::Identify)
    } else if code == 6 {
        Some(Opcode::Resume)
    } else if code == 7 {
        Some(Opcode::Reconnect)
    } else if code == 9 {
        Some(Opcode::InvalidSession)
    } else if code == 10 {
        Some(Opcode::Hello)
    } else if code == 11 {
        Some(Opcode::HeartbeatAck)
    } else {
        None
    }
}

impl Opcode {
    /// The number written for this opcode.
    pub fn code(self) -> (code: u8)
        ensures
            code == wire_code(self),
    {
        match self {
            Opcode::Dispatch => 0,
            Opcode::Heartbeat => 1,
            Opcode::Identify => 2,
            Opcode::Resume => 6,
            Opcode::Reconnect => 7,
            Opcode::InvalidSession => 9,
            Opcode::Hello => 10,
            Opcode::HeartbeatAck => 11,
        }
    }

    /// Reads an opcode from its number; `None` for a number that names none.
    pub fn from_code(code: u64) -> (opcode: Option<Opcode>)
        ensures
            opcode == opcode_of(code),
    {
        match code {
            0 => Some(Opcode::Dispatch),
            1 => Some(Opcode::Heartbeat),
            2 => Some(Opcode::Identify),
            6 => Some(Opcode::Resume),
            7 => Some(Opcode::Reconnect),
            9 => Some(Opcode::InvalidSession),
            10 => Some(Opcode::Hello),
            11 => Some(Opcode::HeartbeatAck),
            _ => None,
        }
    }
}

/// Writing an opcode and reading the number back gives the opcode again, and
/// a number that reads as an opcode is the number written for it.
pub proof fn lemma_opcode_code_round_trip(opcode: Opcode, code: u64)
    ensures
        opcode_of(wire_code(opcode) as u64) == Some(opcode),
        opcode_of(code) == Some(opcode) ==> wire_code(opcode) == code,
{
}

} // verus!
