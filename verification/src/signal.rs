//! What an inbound envelope means to the session.
//!
//! The session decides on plain values. This module reads them out of an
//! envelope: the opcode, the event tag, and the few members of the payload
//! that the session itself needs.

use crate::event::{tag_view, Envelope, EventTag, EventType, GatewayEvent};
use crate::json::{as_bool, as_str, as_u64, json_bool, json_members, json_str, json_u64, member};
use crate::opcode::Opcode;
use vstd::prelude::*;

verus! {

/// The meaning of one inbound envelope.
#[derive(Debug)]
pub enum Signal {
    /// The server's greeting, with the heartbeat interval in milliseconds.
    Hello { heartbeat_interval: u64 },
    /// A greeting that names no interval, or names zero.
    MalformedHello,
    /// The server asks for a heartbeat at once.
    HeartbeatRequest,
    /// The server acknowledges a heartbeat.
    HeartbeatAck,
    /// The session is ready; it can later be resumed under this id, at this
    /// address.
    Ready { session_id: String, resume_url: String },
    /// `READY` without a session id or without an address.
    MalformedReady,
    /// The session has been resumed; all missed events were replayed.
    Resumed,
    /// Any other dispatched event.
    Event,
    /// The server asks the client to reconnect and resume.
    Reconnect,
    /// The server declares the session invalid, and says whether it can be
    /// resumed all the same.
    InvalidSession { resumable: bool },
    /// An opcode that only clients send.
    Unexpected,
}

/// The mathematical form of a [`Signal`].
pub enum Meaning {
    Hello { heartbeat_interval: u64 },
    MalformedHello,
    HeartbeatRequest,
    HeartbeatAck,
    Ready { session_id: Seq<char>, resume_url: Seq<char> },
    MalformedReady,
    Resumed,
    Event,
    Reconnect,
    InvalidSession { resumable: bool },
    Unexpected,
}

impl View for Signal {
    type V = Meaning;

    open spec fn view(&self) -> Meaning {
        match self {
            Signal::Hello { heartbeat_interval } => Meaning::Hello {
                heartbeat_interval: *heartbeat_interval,
            },
            Signal::MalformedHello => Meaning::MalformedHello,
            Signal::HeartbeatRequest => Meaning::HeartbeatRequest,
            Signal::HeartbeatAck => Meaning::HeartbeatAck,
            Signal::Ready { session_id, resume_url } => Meaning::Ready {
                session_id: session_id@,
                resume_url: resume_url@,
            },
            Signal::MalformedReady => Meaning::MalformedReady,
            Signal::Resumed => Meaning::Resumed,
            Signal::Event => Meaning::Event,
            Signal::Reconnect => Meaning::Reconnect,
            Signal::InvalidSession { resumable } => Meaning::InvalidSession {
                resumable: *resumable,
            },
            Signal::Unexpected => Meaning::Unexpected,
        }
    }
}

/// What the session reads from a payload, whatever the opcode.
#[derive(Debug)]
pub struct Payload {
    /// The number under `heartbeat_interval`.
    pub heartbeat_interval: Option<u64>,
    /// The string under `session_id`.
    pub session_id: Option<String>,
    /// The string under `resume_gateway_url`.
    pub resume_url: Option<String>,
    /// The payload itself, if it is a boolean.
    pub flag: Option<bool>,
}

/// The mathematical form of a [`Payload`].
pub struct Facts {
    pub heartbeat_interval: Option<u64>,
    pub session_id: Option<Seq<char>>,
    pub resume_url: Option<Seq<char>>,
    pub flag: Option<bool>,
}

/// The mathematical form of a string that may be missing.
pub open spec fn text_view(text: Option<String>) -> Option<Seq<char>> {
    match text {
        Some(text) => Some(text@),
        None => None,
    }
}

impl View for Payload {
    type V = Facts;

    open spec fn view(&self) -> Facts {
        Facts {
            heartbeat_interval: self.heartbeat_interval,
            session_id: text_view(self.session_id),
            resume_url: text_view(self.resume_url),
            flag: self.flag,
        }
    }
}

/// The string under `key` in a payload, if the payload is an object that has
/// one.
pub open spec fn text_member(data: Option<serde_json::Value>, key: Seq<char>) -> Option<
    Seq<char>,
> {
    match data {
        Some(doc) => if json_members(doc).contains_key(key) {
            json_str(json_members(doc)[key])
        } else {
            None
        },
        None => None,
    }
}

/// The number under `key` in a payload, if the payload is an object that has
/// one.
pub open spec fn number_member(data: Option<serde_json::Value>, key: Seq<char>) -> Option<u64> {
    match data {
        Some(doc) => if json_members(doc).contains_key(key) {
            json_u64(json_members(doc)[key])
        } else {
            None
        },
        None => None,
    }
}

/// What the session reads from a payload.
pub open spec fn facts_of(data: Option<serde_json::Value>) -> Facts {
    Facts {
        heartbeat_interval: number_member(data, "heartbeat_interval"@),
        session_id: text_member(data, "session_id"@),
        resume_url: text_member(data, "resume_gateway_url"@),
        flag: match data {
            Some(doc) => json_bool(doc),
            None => None,
        },
    }
}

/// What an envelope means, given its opcode, its tag and what its payload
/// says.
///
/// A greeting must name an interval above zero. `READY` must name the session
/// and the address to resume at. An invalidated session can be resumed only
/// if the payload is `true`. `Identify` and `Resume` are never sent by a
/// server.
pub open spec fn interpret_spec(opcode: Opcode, tag: Option<EventTag>, facts: Facts) -> Meaning {
    match opcode {
        Opcode::Dispatch => match tag {
            Some(EventTag::Ready) => match (facts.session_id, facts.resume_url) {
                (Some(session_id), Some(resume_url)) => Meaning::Ready { session_id, resume_url },
                _ => Meaning::MalformedReady,
            },
            Some(EventTag::Resumed) => Meaning::Resumed,
            _ => Meaning::Event,
        },
        Opcode::Heartbeat => Meaning::HeartbeatRequest,
        Opcode::HeartbeatAck => Meaning::HeartbeatAck,
        Opcode::Hello => match facts.heartbeat_interval {
            Some(interval) => if interval > 0 {
                Meaning::Hello { heartbeat_interval: interval }
            } else {
                Meaning::MalformedHello
            },
            None => Meaning::MalformedHello,
        },
        Opcode::Reconnect => Meaning::Reconnect,
        Opcode::InvalidSession => Meaning::InvalidSession { resumable: facts.flag == Some(true) },
        Opcode::Identify | Opcode::Resume => Meaning::Unexpected,
    }
}

/// What an envelope means to the session.
pub open spec fn meaning_of(envelope: Envelope) -> Meaning {
    interpret_spec(envelope.opcode, envelope.event_type, facts_of(envelope.data))
}

/// Reads the string under `key` from a payload.
fn text_in(data: &Option<serde_json::Value>, key: &str) -> (text: Option<String>)
    ensures
        text_view(text) == text_member(*data, key@),
{
    match data {
        Some(doc) => match member(doc, key) {
            Some(found) => match as_str(found) {
                Some(text) => Some(text.to_owned()),
                None => None,
            },
            None => None,
        },
        None => None,
    }
}

/// Reads the number under `key` from a payload.
fn number_in(data: &Option<serde_json::Value>, key: &str) -> (number: Option<u64>)
    ensures
        number == number_member(*data, key@),
{
    match data {
        Some(doc) => match member(doc, key) {
            Some(found) => as_u64(found),
            None => None,
        },
        None => None,
    }
}

impl Payload {
    /// Reads from a payload what the session needs.
    pub fn read(data: &Option<serde_json::Value>) -> (payload: Payload)
        ensures
            payload@ == facts_of(*data),
    {
        Payload {
            heartbeat_interval: number_in(data, "heartbeat_interval"),
            session_id: text_in(data, "session_id"),
            resume_url: text_in(data, "resume_gateway_url"),
            flag: match data {
                Some(doc) => as_bool(doc),
                None => None,
            },
        }
    }
}

/// Says what an envelope means, given its opcode, its tag and what its
/// payload says.
pub fn interpret(opcode: Opcode, tag: &Option<EventType>, payload: Payload) -> (signal: Signal)
    ensures
        signal@ == interpret_spec(opcode, tag_view(*tag), payload@),
{
    match opcode {
        Opcode::Dispatch => match tag {
            Some(EventType::Ready) => match (payload.session_id, payload.resume_url) {
                (Some(session_id), Some(resume_url)) => Signal::Ready { session_id, resume_url },
                _ => Signal::MalformedReady,
            },
            Some(EventType::Resumed) => Signal::Resumed,
            _ => Signal::Event,
        },
        Opcode::Heartbeat => Signal::HeartbeatRequest,
        Opcode::HeartbeatAck => Signal::HeartbeatAck,
        Opcode::Hello => match payload.heartbeat_interval {
            Some(interval) => {
                if interval > 0 {
                    Signal::Hello { heartbeat_interval: interval }
                } else {
                    Signal::MalformedHello
                }
            },
            None => Signal::MalformedHello,
        },
        Opcode::Reconnect => Signal::Reconnect,
        Opcode::InvalidSession => Signal::InvalidSession {
            resumable: match payload.flag {
                Some(flag) => flag,
                None => false,
            },
        },
        Opcode::Identify | Opcode::Resume => Signal::Unexpected,
    }
}

/// Reads what an envelope means to the session.
pub fn classify(event: &GatewayEvent) -> (signal: Signal)
    ensures
        signal@ == meaning_of(event@),
{
    interpret(event.opcode, &event.event_type, Payload::read(&event.data))
}

} // verus!
