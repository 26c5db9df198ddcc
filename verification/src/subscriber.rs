//! Which handler of the hosting application an event goes to.

use crate::event::{Envelope, EventTag, EventType, GatewayEvent};
use crate::model::{Outcome, Session};
use crate::opcode::Opcode;
use vstd::prelude::*;

verus! {

/// A handler of the hosting application.
#[derive(Clone, Copy, Debug, PartialEq, Eq, Structural)]
pub enum Handler {
    /// For `HELLO`.
    Hello,
    /// For `READY`.
    Ready,
    /// For `RESUMED`.
    Resumed,
    /// For `MESSAGE_CREATE`.
    MessageCreate,
    /// For every event whose tag has no handler of its own, and for an event
    /// without a tag. The application sees the payload as it came.
    Untyped,
}

/// The handler an envelope goes to: a dispatched event goes to the handler of
/// its tag, or to the untyped one; no other envelope goes to any.
pub open spec fn handler_of(envelope: Envelope) -> Option<Handler> {
    if envelope.opcode != Opcode::Dispatch {
        None
    } else {
        Some(
            match envelope.event_type {
                Some(EventTag::Hello) => Handler::Hello,
                Some(EventTag::Ready) => Handler::Ready,
                Some(EventTag::Resumed) => Handler::Resumed,
                Some(EventTag::MessageCreate) => Handler::MessageCreate,
                Some(EventTag::Other(_)) | None => Handler::Untyped,
            },
        )
    }
}

/// Picks the handler that an event goes to.
pub fn route(event: &GatewayEvent) -> (handler: Option<Handler>)
    ensures
        handler == handler_of(event@),
{
    match event.opcode {
        Opcode::Dispatch => Some(
            match &event.event_type {
                Some(EventType::Hello) => Handler::Hello,
                Some(EventType::Ready) => Handler::Ready,
                Some(EventType::Resumed) => Handler::Resumed,
                Some(EventType::MessageCreate) => Handler::MessageCreate,
                Some(EventType::Other(_)) | None => Handler::Untyped,
            },
        ),
        _ => None,
    }
}

/// Whatever the session hands on has a handler to go to: no event is dropped
/// for its tag.
pub proof fn lemma_every_delivery_has_a_handler(session: Session, envelope: Envelope)
    ensures
        session.receive(envelope).1 matches Ok(Outcome::Deliver(delivered)) ==> delivered
            == envelope && handler_of(delivered) is Some,
{
}

} // verus!
