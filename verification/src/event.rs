//! The protocol envelope and the tag that names an application event.

use crate::opcode::Opcode;
use vstd::prelude::*;

verus! {

/// The tag of a dispatched event. Tags the session itself cares about have a
/// variant of their own; every other tag is kept as it came.
#[derive(Debug)]
pub enum EventType {
    Hello,
    Ready,
    Resumed,
    MessageCreate,
    /// A tag this crate gives no meaning to, kept verbatim.
    Other(String),
}

/// The mathematical form of an [`EventType`].
pub enum EventTag {
    Hello,
    Ready,
    Resumed,
    MessageCreate,
    Other(Seq<char>),
}

impl View for EventType {
    type V = EventTag;

    open spec fn view(&self) -> EventTag {
        match self {
            EventType::Hello => EventTag::Hello,
            EventType::Ready => EventTag::Ready,
            EventType::Resumed => EventTag::Resumed,
            EventType::MessageCreate => EventTag::MessageCreate,
            EventType::Other(text) => EventTag::Other(text@),
        }
    }
}

/// The text that stands for a tag on the wire.
pub open spec fn tag_text(tag: EventTag) -> Seq<char> {
    match tag {
        EventTag::Hello => "HELLO"@,
        EventTag::Ready => "READY"@,
        EventTag::Resumed => "RESUMED"@,
        EventTag::MessageCreate => "MESSAGE_CREATE"@,
        EventTag::Other(text) => text,
    }
}

/// The tag that a text on the wire stands for. Every text stands for one.
pub open spec fn tag_of(text: Seq<char>) -> EventTag {
    if text == "HELLO"@ {
        EventTag::Hello
    } else if text == "READY"@ {
        EventTag::Ready
    } else if text == "RESUMED"@ {
        EventTag::Resumed
    } else if text == "MESSAGE_CREATE"@ {
        EventTag::MessageCreate
    } else {
        EventTag::Other(text)
    }
}

/// A tag is canonical unless it is `Other` around a text that has a variant
/// of its own.
pub open spec fn is_canonical(tag: EventTag) -> bool {
    tag matches EventTag::Other(text) ==> tag_of(text) == tag
}

impl EventType {
    /// Reads a tag from its text.
    pub fn from_tag(text: &str) -> (tag: EventType)
        ensures
            tag@ == tag_of(text@),
            is_canonical(tag@),
    {
        let owned = text.to_owned();
        if owned == "HELLO".to_owned() {
            EventType::Hello
        } else if owned == "READY".to_owned() {
            EventType::Ready
        } else if owned == "RESUMED".to_owned() {
            EventType::Resumed
        } else if owned == "MESSAGE_CREATE".to_owned() {
            EventType::MessageCreate
        } else {
            EventType::Other(owned)
        }
    }

    /// The text written for this tag.
    pub fn tag(&self) -> (text: String)
        ensures
            text@ == tag_text(self@),
    {
        match self {
            EventType::Hello => "HELLO".to_owned(),
            EventType::Ready => "READY".to_owned(),
            EventType::Resumed => "RESUMED".to_owned(),
            EventType::MessageCreate => "MESSAGE_CREATE".to_owned(),
            EventType::Other(text) => text.clone(),
        }
    }
}

/// Reading a text as a tag and writing the tag gives the text again; writing
/// a canonical tag and reading the text gives the tag again.
pub proof fn lemma_tag_round_trip(text: Seq<char>, tag: EventTag)
    ensures
        tag_text(tag_of(text)) == text,
        is_canonical(tag_of(text)),
        is_canonical(tag) ==> tag_of(tag_text(tag)) == tag,
{
    reveal_strlit("HELLO");
    reveal_strlit("READY");
    reveal_strlit("RESUMED");
    reveal_strlit("MESSAGE_CREATE");
    assert("HELLO"@.len() == 5 && "READY"@.len() == 5);
    assert("RESUMED"@.len() == 7 && "MESSAGE_CREATE"@.len() == 14);
    assert("HELLO"@[0] != "READY"@[0]);
}

/// One message of the protocol, in either direction.
#[derive(Debug)]
pub struct GatewayEvent {
    /// What the message asks for or announces.
    pub opcode: Opcode,
    /// The payload; its shape depends on the opcode.
    pub data: Option<serde_json::Value>,
    /// The position of a dispatched event in the session's stream.
    pub sequence: Option<u32>,
    /// The tag of a dispatched event.
    pub event_type: Option<EventType>,
}

/// The mathematical form of a tag that may be missing.
pub open spec fn tag_view(tag: Option<EventType>) -> Option<EventTag> {
    match tag {
        Some(tag) => Some(tag@),
        None => None,
    }
}

/// The mathematical form of a [`GatewayEvent`].
pub struct Envelope {
    pub opcode: Opcode,
    pub data: Option<serde_json::Value>,
    pub sequence: Option<u32>,
    pub event_type: Option<EventTag>,
}

impl View for GatewayEvent {
    type V = Envelope;

    open spec fn view(&self) -> Envelope {
        Envelope {
            opcode: self.opcode,
            data: self.data,
            sequence: self.sequence,
            event_type: tag_view(self.event_type),
        }
    }
}

impl Envelope {
    /// Only a dispatch carries a sequence number or an event tag, and a tag
    /// it carries is canonical.
    pub open spec fn well_formed(self) -> bool {
        &&& self.opcode != Opcode::Dispatch ==> self.sequence is None && self.event_type is None
        &&& self.event_type matches Some(tag) ==> is_canonical(tag)
    }
}

impl GatewayEvent {
    /// An envelope that is no dispatch: it has an opcode and may have a
    /// payload, nothing else.
    pub fn control(opcode: Opcode, data: Option<serde_json::Value>) -> (event: GatewayEvent)
        ensures
            event@ == (Envelope { opcode, data, sequence: None, event_type: None }),
            opcode != Opcode::Dispatch ==> event@.well_formed(),
    {
        GatewayEvent { opcode, data, sequence: None, event_type: None }
    }
}

} // verus!
