//! Envelopes to and from JSON text.
//!
//! The text itself is read and written by `serde_json`; what is decided here
//! is which JSON documents are envelopes, and which envelope each one is.

use crate::event::{tag_of, tag_text, Envelope, EventTag, EventType, GatewayEvent};
use crate::json::{
    as_str, as_u64, clone_value, insert_member, is_null, json_members, json_null, json_parse,
    json_render, json_str, json_u64, member, new_members, number_value, object_value, parse_value,
    render_value, string_value,
};
use crate::opcode::{opcode_of, wire_code, Opcode};
use vstd::prelude::*;

verus! {

/// Why a frame is no envelope. None of these ends the connection: the frame
/// is dropped and the session goes on.
#[derive(Clone, Copy, Debug, PartialEq, Eq, Structural)]
pub enum DecodeError {
    /// The text is not JSON.
    Malformed,
    /// The document has no `op` member, or is no object at all.
    MissingOpcode,
    /// `op` is not a number that names an opcode.
    UnknownOpcode,
    /// `s` of a dispatch is not an integer that fits 32 unsigned bits.
    InvalidSequence,
    /// `t` of a dispatch is not a string.
    InvalidEventType,
}

/// What reading one member of a document gave.
#[derive(Debug)]
pub enum Member<T> {
    /// The member is not there, or is `null`.
    Missing,
    /// The member is there, but is not of the kind asked for.
    Mismatch,
    /// The member is there and holds this.
    Found(T),
}

/// The mathematical form of a member that was read as text.
pub open spec fn text_of(member: Member<String>) -> Member<Seq<char>> {
    match member {
        Member::Missing => Member::Missing,
        Member::Mismatch => Member::Mismatch,
        Member::Found(text) => Member::Found(text@),
    }
}

/// A member that is there and is not `null`.
pub open spec fn present(members: Map<Seq<char>, serde_json::Value>, key: Seq<char>) -> bool {
    members.contains_key(key) && !json_null(members[key])
}

/// The member under `key`, read as a number.
pub open spec fn number_at(members: Map<Seq<char>, serde_json::Value>, key: Seq<char>) -> Member<
    u64,
> {
    if !present(members, key) {
        Member::Missing
    } else {
        match json_u64(members[key]) {
            Some(n) => Member::Found(n),
            None => Member::Mismatch,
        }
    }
}

/// The member under `key`, read as text.
pub open spec fn text_at(members: Map<Seq<char>, serde_json::Value>, key: Seq<char>) -> Member<
    Seq<char>,
> {
    if !present(members, key) {
        Member::Missing
    } else {
        match json_str(members[key]) {
            Some(text) => Member::Found(text),
            None => Member::Mismatch,
        }
    }
}

/// The member under `key` as it stands, `null` included.
pub open spec fn payload_at(members: Map<Seq<char>, serde_json::Value>, key: Seq<char>) -> Option<
    serde_json::Value,
> {
    if members.contains_key(key) {
        Some(members[key])
    } else {
        None
    }
}

/// The sequence number of a dispatch, from what its `s` member gave: a
/// number must fit 32 unsigned bits.
pub open spec fn sequence_from(member: Member<u64>) -> Result<Option<u32>, DecodeError> {
    match member {
        Member::Missing => Ok(None),
        Member::Mismatch => Err(DecodeError::InvalidSequence),
        Member::Found(n) => if n <= u32::MAX {
            Ok(Some(n as u32))
        } else {
            Err(DecodeError::InvalidSequence)
        },
    }
}

/// The event tag of a dispatch, from what its `t` member gave.
pub open spec fn tag_from(member: Member<Seq<char>>) -> Result<Option<EventTag>, DecodeError> {
    match member {
        Member::Missing => Ok(None),
        Member::Mismatch => Err(DecodeError::InvalidEventType),
        Member::Found(text) => Ok(Some(tag_of(text))),
    }
}

/// The envelope that the four members of a document make, or why they make
/// none.
///
/// The opcode is required and must name one. The payload is taken as it
/// stands. Sequence number and tag count only in a dispatch; there a
/// sequence number of the wrong kind is reported before a tag of the wrong
/// kind.
pub open spec fn assemble_spec(
    op: Member<u64>,
    data: Option<serde_json::Value>,
    sequence: Member<u64>,
    tag: Member<Seq<char>>,
) -> Result<Envelope, DecodeError> {
    match op {
        Member::Missing => Err(DecodeError::MissingOpcode),
        Member::Mismatch => Err(DecodeError::UnknownOpcode),
        Member::Found(code) => match opcode_of(code) {
            None => Err(DecodeError::UnknownOpcode),
            Some(Opcode::Dispatch) => match sequence_from(sequence) {
                Err(error) => Err(error),
                Ok(sequence) => match tag_from(tag) {
                    Err(error) => Err(error),
                    Ok(event_type) => Ok(
                        Envelope { opcode: Opcode::Dispatch, data, sequence, event_type },
                    ),
                },
            },
            Some(opcode) => Ok(Envelope { opcode, data, sequence: None, event_type: None }),
        },
    }
}

/// The envelope that a JSON document is, or why it is none: what its members
/// `op`, `d`, `s` and `t` make.
pub open spec fn read_envelope(doc: serde_json::Value) -> Result<Envelope, DecodeError> {
    let members = json_members(doc);
    assemble_spec(
        number_at(members, "op"@),
        payload_at(members, "d"@),
        number_at(members, "s"@),
        text_at(members, "t"@),
    )
}

/// The envelope that a text is, or why it is none.
pub open spec fn decode_spec(text: Seq<char>) -> Result<Envelope, DecodeError> {
    match json_parse(text) {
        Some(doc) => read_envelope(doc),
        None => Err(DecodeError::Malformed),
    }
}

/// The mathematical form of what decoding returns.
pub open spec fn decoded(result: Result<GatewayEvent, DecodeError>) -> Result<
    Envelope,
    DecodeError,
> {
    match result {
        Ok(event) => Ok(event@),
        Err(error) => Err(error),
    }
}

/// The result of decoding an envelope without error.
pub open spec fn accepted(envelope: Envelope) -> Result<Envelope, DecodeError> {
    Ok(envelope)
}

/// A JSON document says exactly what an envelope holds: `op` always, and each
/// of `d`, `s` and `t` if and only if the envelope has it.
pub open spec fn written(doc: serde_json::Value, envelope: Envelope) -> bool {
    let members = json_members(doc);
    &&& forall|key: Seq<char>| #[trigger]
        members.contains_key(key) ==> key == "op"@ || key == "d"@ || key == "s"@ || key == "t"@
    &&& present(members, "op"@)
    &&& json_u64(members["op"@]) == Some(wire_code(envelope.opcode) as u64)
    &&& match envelope.data {
        Some(data) => members.contains_key("d"@) && members["d"@] == data,
        None => !members.contains_key("d"@),
    }
    &&& match envelope.sequence {
        Some(n) => present(members, "s"@) && json_u64(members["s"@]) == Some(n as u64),
        None => !members.contains_key("s"@),
    }
    &&& match envelope.event_type {
        Some(tag) => present(members, "t"@) && json_str(members["t"@]) == Some(tag_text(tag)),
        None => !members.contains_key("t"@),
    }
}

/// Reads the member under `key` as a number.
fn number_member(doc: &serde_json::Value, key: &str) -> (found: Member<u64>)
    ensures
        found == number_at(json_members(*doc), key@),
{
    match member(doc, key) {
        None => Member::Missing,
        Some(value) => {
            if is_null(value) {
                Member::Missing
            } else {
                match as_u64(value) {
                    Some(n) => Member::Found(n),
                    None => Member::Mismatch,
                }
            }
        },
    }
}

/// Reads the member under `key` as text.
fn text_member(doc: &serde_json::Value, key: &str) -> (found: Member<String>)
    ensures
        text_of(found) == text_at(json_members(*doc), key@),
{
    match member(doc, key) {
        None => Member::Missing,
        Some(value) => {
            if is_null(value) {
                Member::Missing
            } else {
                match as_str(value) {
                    Some(text) => Member::Found(text.to_owned()),
                    None => Member::Mismatch,
                }
            }
        },
    }
}

/// Reads the member under `key` as it stands.
fn payload_member(doc: &serde_json::Value, key: &str) -> (found: Option<serde_json::Value>)
    ensures
        found == payload_at(json_members(*doc), key@),
{
    match member(doc, key) {
        Some(value) => Some(clone_value(value)),
        None => None,
    }
}

/// Makes an envelope of the four members of a document.
///
/// Fails with `MissingOpcode` if there is no opcode, and with `UnknownOpcode`
/// if it is no number or names no opcode. For a dispatch, fails with
/// `InvalidSequence` if the sequence number is of the wrong kind or exceeds
/// 32 bits, else with `InvalidEventType` if the tag is of the wrong kind.
/// Every envelope that comes out is well formed.
pub fn assemble(
    op: Member<u64>,
    data: Option<serde_json::Value>,
    sequence: Member<u64>,
    tag: Member<String>,
) -> (r: Result<GatewayEvent, DecodeError>)
    ensures
        decoded(r) == assemble_spec(op, data, sequence, text_of(tag)),
        r matches Ok(event) ==> event@.well_formed(),
{
    let opcode = match op {
        Member::Missing => { return Err(DecodeError::MissingOpcode); },
        Member::Mismatch => { return Err(DecodeError::UnknownOpcode); },
        Member::Found(code) => match Opcode::from_code(code) {
            Some(opcode) => opcode,
            None => { return Err(DecodeError::UnknownOpcode); },
        },
    };
    match opcode {
        Opcode::Dispatch => {
            let sequence = match sequence {
                Member::Missing => None,
                Member::Mismatch => { return Err(DecodeError::InvalidSequence); },
                Member::Found(n) => {
                    if n > 0xFFFF_FFFF {
                        return Err(DecodeError::InvalidSequence);
                    }
                    Some(n as u32)
                },
            };
            let event_type = match tag {
                Member::Missing => None,
                Member::Mismatch => { return Err(DecodeError::InvalidEventType); },
                Member::Found(text) => Some(EventType::from_tag(text.as_str())),
            };
            Ok(GatewayEvent { opcode: Opcode::Dispatch, data, sequence, event_type })
        },
        opcode => Ok(GatewayEvent { opcode, data, sequence: None, event_type: None }),
    }
}

/// Reads an envelope from a parsed JSON document.
pub fn envelope_from_json(doc: &serde_json::Value) -> (r: Result<GatewayEvent, DecodeError>)
    ensures
        decoded(r) == read_envelope(*doc),
        r matches Ok(event) ==> event@.well_formed(),
{
    assemble(
        number_member(doc, "op"),
        payload_member(doc, "d"),
        number_member(doc, "s"),
        text_member(doc, "t"),
    )
}

/// Decodes one text frame.
///
/// A text that is not JSON, or whose document is no envelope, is reported as
/// a [`DecodeError`]; every other text gives the envelope it stands for.
pub fn decode(text: &str) -> (r: Result<GatewayEvent, DecodeError>)
    ensures
        decoded(r) == decode_spec(text@),
        r matches Ok(event) ==> event@.well_formed(),
{
    match parse_value(text) {
        Ok(doc) => envelope_from_json(&doc),
        Err(_) => Err(DecodeError::Malformed),
    }
}

/// A document that says what an envelope holds reads back as that envelope.
pub proof fn lemma_written_reads_back(doc: serde_json::Value, envelope: Envelope)
    requires
        written(doc, envelope),
        envelope.well_formed(),
    ensures
        read_envelope(doc) == accepted(envelope),
{
    crate::opcode::lemma_opcode_code_round_trip(envelope.opcode, 0);
    if let Some(tag) = envelope.event_type {
        crate::event::lemma_tag_round_trip(seq![], tag);
    }
}

/// Builds the JSON document of an envelope.
///
/// The document has the members `op`, and `d`, `s`, `t` where the envelope
/// has them, in that order; a well-formed envelope reads back from it.
pub fn envelope_to_json(event: GatewayEvent) -> (doc: serde_json::Value)
    ensures
        written(doc, event@),
        event@.well_formed() ==> read_envelope(doc) == accepted(event@),
{
    proof {
        reveal_strlit("op");
        reveal_strlit("d");
        reveal_strlit("s");
        reveal_strlit("t");
        assert("op"@.len() == 2 && "d"@.len() == 1 && "s"@.len() == 1 && "t"@.len() == 1);
        assert("d"@[0] != "s"@[0] && "d"@[0] != "t"@[0] && "s"@[0] != "t"@[0]);
    }
    let ghost envelope = event@;
    let GatewayEvent { opcode, data, sequence, event_type } = event;
    let mut members = new_members();
    let code: u64 = opcode.code() as u64;
    insert_member(&mut members, "op".to_owned(), number_value(code));
    if let Some(data) = data {
        insert_member(&mut members, "d".to_owned(), data);
    }
    if let Some(n) = sequence {
        insert_member(&mut members, "s".to_owned(), number_value(n as u64));
    }
    if let Some(tag) = event_type {
        let text = tag.tag();
        insert_member(&mut members, "t".to_owned(), string_value(text.as_str()));
    }
    let doc = object_value(members);
    proof {
        if envelope.well_formed() {
            lemma_written_reads_back(doc, envelope);
        }
    }
    doc
}

/// `text` is what `serde_json` writes for `doc`, and `doc` says what the
/// envelope holds.
pub open spec fn rendered(
    doc: serde_json::Value,
    envelope: Envelope,
    text: Option<String>,
) -> bool {
    &&& written(doc, envelope)
    &&& match text {
        Some(text) => json_render(doc) == Some(text@),
        None => json_render(doc) is None,
    }
}

/// `text` is what encoding an envelope may return: what `serde_json` writes
/// for some document that says what the envelope holds.
pub open spec fn encoded(envelope: Envelope, text: Option<String>) -> bool {
    exists|doc: serde_json::Value| #[trigger] rendered(doc, envelope, text)
}

/// Encodes an envelope as one text frame.
///
/// The text is what `serde_json` writes for a document that says what the
/// envelope holds; `None` if it writes none.
pub fn encode(event: GatewayEvent) -> (r: Option<String>)
    ensures
        encoded(event@, r),
{
    let doc = envelope_to_json(event);
    match render_value(&doc) {
        Ok(text) => {
            assert(rendered(doc, event@, Some(text)));
            Some(text)
        },
        Err(_) => {
            assert(rendered(doc, event@, None));
            None
        },
    }
}

} // verus!
