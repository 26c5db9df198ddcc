//! What the client sends: heartbeats and the two handshakes.

use crate::event::{Envelope, GatewayEvent};
use crate::json::{
    insert_member, json_members, json_null, json_str, json_u64, new_members, null_value,
    number_value, object_value, string_value,
};
use crate::opcode::Opcode;
use vstd::prelude::*;

verus! {

/// A message from client to server, by what it says.
#[derive(Debug)]
pub enum Outbound {
    /// A heartbeat with the last sequence number seen, if any.
    Heartbeat { sequence: Option<u32> },
    /// The opening of a new session.
    Identify { token: String, intents: u32 },
    /// The request to continue an earlier session after `sequence`.
    Resume { token: String, session_id: String, sequence: Option<u32> },
}

/// The mathematical form of an [`Outbound`].
pub enum Message {
    Heartbeat { sequence: Option<u32> },
    Identify { token: Seq<char>, intents: u32 },
    Resume { token: Seq<char>, session_id: Seq<char>, sequence: Option<u32> },
}

impl View for Outbound {
    type V = Message;

    open spec fn view(&self) -> Message {
        match self {
            Outbound::Heartbeat { sequence } => Message::Heartbeat { sequence: *sequence },
            Outbound::Identify { token, intents } => Message::Identify {
                token: token@,
                intents: *intents,
            },
            Outbound::Resume { token, session_id, sequence } => Message::Resume {
                token: token@,
                session_id: session_id@,
                sequence: *sequence,
            },
        }
    }
}

/// A document is a sequence number as it is sent: the number, or `null` when
/// there is none.
pub open spec fn is_sequence(doc: serde_json::Value, sequence: Option<u32>) -> bool {
    match sequence {
        Some(n) => json_u64(doc) == Some(n as u64) && !json_null(doc),
        None => json_null(doc) && json_u64(doc) is None,
    }
}

/// A document is the string `text`.
pub open spec fn is_text(doc: serde_json::Value, text: Seq<char>) -> bool {
    json_str(doc) == Some(text)
}

/// A document is the description of this client: an object with exactly the
/// members `os`, `browser` and `device`.
pub open spec fn is_properties(doc: serde_json::Value) -> bool {
    let members = json_members(doc);
    &&& members.dom() =~= set!["os"@, "browser"@, "device"@]
    &&& is_text(members["os"@], "linux"@)
    &&& is_text(members["browser"@], "disco"@)
    &&& is_text(members["device"@], "disco"@)
}

/// A document is the payload of `Identify`: an object with exactly the
/// members `token`, `properties` and `intents`.
pub open spec fn is_identify(doc: serde_json::Value, token: Seq<char>, intents: u32) -> bool {
    let members = json_members(doc);
    &&& members.dom() =~= set!["token"@, "properties"@, "intents"@]
    &&& is_text(members["token"@], token)
    &&& is_properties(members["properties"@])
    &&& json_u64(members["intents"@]) == Some(intents as u64)
}

/// A document is the payload of `Resume`: an object with exactly the members
/// `token`, `session_id` and `seq`.
pub open spec fn is_resume(
    doc: serde_json::Value,
    token: Seq<char>,
    session_id: Seq<char>,
    sequence: Option<u32>,
) -> bool {
    let members = json_members(doc);
    &&& members.dom() =~= set!["token"@, "session_id"@, "seq"@]
    &&& is_text(members["token"@], token)
    &&& is_text(members["session_id"@], session_id)
    &&& is_sequence(members["seq"@], sequence)
}

/// A document is the payload of a message.
pub open spec fn is_payload(doc: serde_json::Value, message: Message) -> bool {
    match message {
        Message::Heartbeat { sequence } => is_sequence(doc, sequence),
        Message::Identify { token, intents } => is_identify(doc, token, intents),
        Message::Resume { token, session_id, sequence } => is_resume(
            doc,
            token,
            session_id,
            sequence,
        ),
    }
}

/// The opcode under which a message travels.
pub open spec fn opcode_for(message: Message) -> Opcode {
    match message {
        Message::Heartbeat { .. } => Opcode::Heartbeat,
        Message::Identify { .. } => Opcode::Identify,
        Message::Resume { .. } => Opcode::Resume,
    }
}

/// An envelope carries a message: it has the message's opcode and payload,
/// and neither sequence number nor event tag.
pub open spec fn carries(envelope: Envelope, message: Message) -> bool {
    &&& envelope.opcode == opcode_for(message)
    &&& envelope.sequence is None
    &&& envelope.event_type is None
    &&& envelope.data matches Some(doc) && is_payload(doc, message)
}

/// Builds a sequence number as it is sent.
fn sequence_value(sequence: Option<u32>) -> (doc: serde_json::Value)
    ensures
        is_sequence(doc, sequence),
{
    match sequence {
        Some(n) => number_value(n as u64),
        None => null_value(),
    }
}

/// Builds the description of this client.
fn properties_value() -> (doc: serde_json::Value)
    ensures
        is_properties(doc),
{
    proof {
        reveal_strlit("os");
        reveal_strlit("browser");
        reveal_strlit("device");
        assert("os"@.len() == 2 && "browser"@.len() == 7 && "device"@.len() == 6);
    }
    let mut members = new_members();
    insert_member(&mut members, "os".to_owned(), string_value("linux"));
    insert_member(&mut members, "browser".to_owned(), string_value("disco"));
    insert_member(&mut members, "device".to_owned(), string_value("disco"));
    object_value(members)
}

impl Outbound {
    /// The opcode under which this message travels.
    pub fn opcode(&self) -> (opcode: Opcode)
        ensures
            opcode == opcode_for(self@),
    {
        match self {
            Outbound::Heartbeat { .. } => Opcode::Heartbeat,
            Outbound::Identify { .. } => Opcode::Identify,
            Outbound::Resume { .. } => Opcode::Resume,
        }
    }

    /// Builds the payload of this message.
    pub fn payload(&self) -> (doc: serde_json::Value)
        ensures
            is_payload(doc, self@),
    {
        match self {
            Outbound::Heartbeat { sequence } => sequence_value(*sequence),
            Outbound::Identify { token, intents } => {
                proof {
                    reveal_strlit("token");
                    reveal_strlit("properties");
                    reveal_strlit("intents");
                    assert("token"@.len() == 5 && "properties"@.len() == 10 && "intents"@.len()
                        == 7);
                }
                let mut members = new_members();
                insert_member(&mut members, "token".to_owned(), string_value(token.as_str()));
                insert_member(&mut members, "properties".to_owned(), properties_value());
                insert_member(&mut members, "intents".to_owned(), number_value(*intents as u64));
                object_value(members)
            },
            Outbound::Resume { token, session_id, sequence } => {
                proof {
                    reveal_strlit("token");
                    reveal_strlit("session_id");
                    reveal_strlit("seq");
                    assert("token"@.len() == 5 && "session_id"@.len() == 10 && "seq"@.len() == 3);
                }
                let mut members = new_members();
                insert_member(&mut members, "token".to_owned(), string_value(token.as_str()));
                let session = string_value(session_id.as_str());
                insert_member(&mut members, "session_id".to_owned(), session);
                insert_member(&mut members, "seq".to_owned(), sequence_value(*sequence));
                object_value(members)
            },
        }
    }

    /// Builds the envelope that carries this message.
    pub fn to_event(&self) -> (event: GatewayEvent)
        ensures
            carries(event@, self@),
            event@.well_formed(),
    {
        GatewayEvent::control(self.opcode(), Some(self.payload()))
    }
}

} // verus!
