//! Laws of the session: what holds across steps.

use crate::codec::{accepted, decode_spec, read_envelope, written};
use crate::error::{Failure, ProtocolError};
use crate::event::{Envelope, EventTag};
use crate::json::{json_parse, json_render};
use crate::model::{later, Arrival, Outcome, Phase, Response, Session, Target, Ticket};
use crate::opcode::Opcode;
use crate::outbound::{carries, Message};
use crate::reconnect::{forbids_resume, resumable_after, CloseNotice};
use crate::signal::{meaning_of, number_member, text_member, Meaning};
use vstd::prelude::*;

verus! {

/// The session after it received one envelope.
#[verifier::opaque]
pub open spec fn step(session: Session, envelope: Envelope) -> Session {
    session.receive(envelope).0
}

/// The session after it received a run of envelopes, one after the other.
pub open spec fn after(session: Session, envelopes: Seq<Envelope>) -> Session
    decreases envelopes.len(),
{
    if envelopes.len() == 0 {
        session
    } else {
        step(after(session, envelopes.drop_last()), envelopes.last())
    }
}

/// The highest sequence number in a run of envelopes.
pub open spec fn highest(envelopes: Seq<Envelope>) -> Option<u32>
    decreases envelopes.len(),
{
    if envelopes.len() == 0 {
        None
    } else {
        later(highest(envelopes.drop_last()), envelopes.last().sequence)
    }
}

/// The session takes envelopes in: it has a transport and is not shutting
/// down.
pub open spec fn receiving(session: Session) -> bool {
    !session.closed && session.phase != Phase::Closing
}

/// The envelope at position `i` of a run was taken in and did not end the
/// session for good.
pub open spec fn taken_at(session: Session, envelopes: Seq<Envelope>, i: int) -> bool {
    &&& receiving(after(session, envelopes.subrange(0, i)))
    &&& after(session, envelopes.subrange(0, i + 1)).phase != Phase::Disconnected
}

/// Every envelope of a run was taken in, and none of them ended the session
/// for good.
pub open spec fn taken_in(session: Session, envelopes: Seq<Envelope>) -> bool {
    forall|i: int| 0 <= i < envelopes.len() ==> #[trigger] taken_at(session, envelopes, i)
}

/// One envelope never lowers the sequence counter: either the counter is the
/// later of what it was and what the envelope carries, or the envelope was
/// not taken in, or it ended the session for good.
pub proof fn lemma_sequence_never_decreases(session: Session, envelope: Envelope)
    ensures
        step(session, envelope) == session.receive(envelope).0,
        ({
            let next = step(session, envelope);
            ||| next.sequence == later(session.sequence, envelope.sequence)
            ||| !receiving(session) && next == session
            ||| next.phase == Phase::Disconnected && next.sequence is None
        }),
{
    reveal(step);
}

/// After any run of envelopes that were taken in, the sequence counter is the
/// highest sequence number seen so far.
pub proof fn lemma_sequence_is_highest_seen(session: Session, envelopes: Seq<Envelope>)
    requires
        taken_in(session, envelopes),
    ensures
        after(session, envelopes).sequence == later(session.sequence, highest(envelopes)),
    decreases envelopes.len(),
{
    if envelopes.len() > 0 {
        let front = envelopes.drop_last();
        let n = front.len() as int;
        assert forall|i: int| 0 <= i < front.len() implies #[trigger] taken_at(
            session,
            front,
            i,
        ) by {
            assert(taken_at(session, envelopes, i));
            assert(front.subrange(0, i) == envelopes.subrange(0, i));
            assert(front.subrange(0, i + 1) == envelopes.subrange(0, i + 1));
        }
        lemma_sequence_is_highest_seen(session, front);
        assert(taken_at(session, envelopes, n));
        assert(envelopes.subrange(0, n) == front);
        assert(envelopes.subrange(0, n + 1) == envelopes);
        let before = after(session, front);
        assert(receiving(before) && after(session, envelopes).phase != Phase::Disconnected);
        lemma_sequence_never_decreases(before, envelopes.last());
    }
}

/// An envelope that an established session takes in its stride: an event, a
/// request for a heartbeat, or an acknowledgement.
pub open spec fn routine(envelope: Envelope) -> bool {
    envelope.opcode == Opcode::Dispatch || envelope.opcode == Opcode::Heartbeat || envelope.opcode
        == Opcode::HeartbeatAck
}

/// One routine envelope leaves an established session established and moves
/// its sequence counter to the later position.
proof fn lemma_routine_step(session: Session, envelope: Envelope)
    requires
        session.phase == Phase::Connected,
        !session.closed,
        routine(envelope),
    ensures
        step(session, envelope).phase == Phase::Connected,
        !step(session, envelope).closed,
        step(session, envelope).sequence == later(session.sequence, envelope.sequence),
{
    reveal(step);
}

/// An established session that receives any run of routine envelopes, in any
/// order of their sequence numbers, stays established, and its sequence
/// counter is the highest number seen so far.
pub proof fn lemma_sequence_while_connected(session: Session, envelopes: Seq<Envelope>)
    requires
        session.phase == Phase::Connected,
        !session.closed,
        forall|i: int| 0 <= i < envelopes.len() ==> routine(#[trigger] envelopes[i]),
    ensures
        after(session, envelopes).phase == Phase::Connected,
        !after(session, envelopes).closed,
        after(session, envelopes).sequence == later(session.sequence, highest(envelopes)),
        taken_in(session, envelopes),
    decreases envelopes.len(),
{
    if envelopes.len() > 0 {
        let front = envelopes.drop_last();
        lemma_sequence_while_connected(session, front);
        lemma_routine_step(after(session, front), envelopes.last());
        assert forall|i: int| 0 <= i < envelopes.len() implies #[trigger] taken_at(
            session,
            envelopes,
            i,
        ) by {
            let upto = envelopes.subrange(0, i);
            let past = envelopes.subrange(0, i + 1);
            assert(past.drop_last() == upto);
            assert(past.last() == envelopes[i]);
            assert forall|k: int| 0 <= k < upto.len() implies routine(#[trigger] upto[k]) by {
                assert(upto[k] == envelopes[k]);
            }
            lemma_sequence_while_connected(session, upto);
            lemma_routine_step(after(session, upto), envelopes[i]);
        }
    } else {
        assert forall|i: int| 0 <= i < envelopes.len() implies #[trigger] taken_at(
            session,
            envelopes,
            i,
        ) by {}
    }
}

/// A tick calls for a heartbeat if and only if the interval is known and
/// has passed since the last heartbeat, and the last heartbeats did not all
/// go unanswered. The heartbeat carries the sequence counter. Once it is
/// sent, nothing has elapsed and none is owed.
pub proof fn lemma_heartbeat_when_due(session: Session, now: u64)
    requires
        session.wf(),
    ensures
        session.tick(now).1 is Send <==> session.heartbeat.interval > 0
            && session.heartbeat.elapsed(now) >= session.heartbeat.interval
            && !session.heartbeat.expired(),
        session.tick(now).1 matches Response::Send(message) ==> message == (Message::Heartbeat {
            sequence: session.sequence,
        }),
        !session.closed ==> session.heartbeat_sent(now).heartbeat.elapsed(now) == 0,
        session.heartbeat_sent(now).tick(now).1 is Nothing,
{
}

/// While connecting, a greeting that names an interval moves the session to
/// `AwaitingHello`, sets the interval and calls for the handshake at once;
/// an envelope with any other opcode is a protocol error and ends the
/// session.
pub proof fn lemma_greeting_while_connecting(session: Session, envelope: Envelope)
    requires
        !session.closed,
        session.phase == Phase::Connecting,
    ensures
        ({
            let (next, result) = session.receive(envelope);
            &&& envelope.opcode == Opcode::Hello ==> (match number_member(
                envelope.data,
                "heartbeat_interval"@,
            ) {
                Some(interval) => interval > 0 ==> next.phase == Phase::AwaitingHello
                    && next.heartbeat.interval == interval && result == Ok::<Outcome, Failure>(
                    Outcome::Send(session.observe(envelope.sequence).handshake()),
                ),
                None => result == Err::<Outcome, Failure>(
                    Failure::Protocol(ProtocolError::MalformedHello),
                ),
            })
            &&& envelope.opcode != Opcode::Hello ==> result == Err::<Outcome, Failure>(
                Failure::Protocol(ProtocolError::ExpectedHello),
            ) && next.phase == Phase::Disconnected
        }),
{
}

/// Once the opening of a new session was sent, `READY` establishes the
/// session and leaves the ticket for resuming it; any other dispatched event
/// before `READY` is a protocol error and ends the session.
pub proof fn lemma_ready_while_identifying(session: Session, envelope: Envelope)
    requires
        !session.closed,
        session.phase == Phase::AwaitingHello,
        session.ticket is None,
        envelope.opcode == Opcode::Dispatch,
    ensures
        session.handshake() is Identify,
        session.handshake_sent().phase == Phase::Identifying,
        ({
            let (next, result) = session.handshake_sent().receive(envelope);
            let session_id = text_member(envelope.data, "session_id"@);
            let resume_url = text_member(envelope.data, "resume_gateway_url"@);
            &&& envelope.event_type == Some(EventTag::Ready) && session_id is Some
                && resume_url is Some ==> next.phase == Phase::Connected && next.ticket == Some(
                Ticket { session_id: session_id->0, resume_url: resume_url->0 },
            ) && result == Ok::<Outcome, Failure>(Outcome::Deliver(envelope))
            &&& envelope.event_type != Some(EventTag::Ready) ==> next.phase == Phase::Disconnected
                && result == Err::<Outcome, Failure>(
                Failure::Protocol(ProtocolError::ExpectedReady),
            )
        }),
{
}

/// After a connection that held a ticket ends in a way that allows resuming,
/// the session keeps ticket and sequence, reconnects at the ticket's address,
/// and answers the greeting with a request to resume after the last
/// sequence number, not with the opening of a new session.
pub proof fn lemma_resumable_end_resumes(
    session: Session,
    notice: Option<CloseNotice>,
    interval: u64,
)
    requires
        receiving(session),
        session.ticket is Some,
        resumable_after(notice),
        interval > 0,
    ensures
        ({
            let ended = session.lost(notice);
            let (greeted, result) = ended.connect().apply(
                None,
                Meaning::Hello { heartbeat_interval: interval },
            );
            &&& ended.phase == Phase::Resuming
            &&& ended.ticket == session.ticket
            &&& ended.sequence == session.sequence
            &&& ended.target() == Some(Target::Resume(session.ticket->0.resume_url))
            &&& ended.connect().phase == Phase::Connecting
            &&& result == Ok::<Response, Failure>(
                Response::Send(
                    Message::Resume {
                        token: session.token,
                        session_id: session.ticket->0.session_id,
                        sequence: session.sequence,
                    },
                ),
            )
            &&& greeted.handshake_sent().phase == Phase::Resuming
        }),
{
}

/// After a connection ends in a way that forbids resuming, ticket and
/// sequence are gone, the session reconnects at the public address, and
/// answers the greeting with the opening of a new session.
pub proof fn lemma_final_end_identifies(
    session: Session,
    notice: Option<CloseNotice>,
    interval: u64,
)
    requires
        !session.closed,
        !resumable_after(notice),
        interval > 0,
    ensures
        ({
            let ended = session.lost(notice);
            let (greeted, result) = ended.connect().apply(
                None,
                Meaning::Hello { heartbeat_interval: interval },
            );
            &&& ended.phase == Phase::Disconnected
            &&& ended.ticket is None
            &&& ended.sequence is None
            &&& ended.target() == Some(Target::Default)
            &&& ended.connect().phase == Phase::Connecting
            &&& result == Ok::<Response, Failure>(
                Response::Send(
                    Message::Identify { token: session.token, intents: session.intents },
                ),
            )
            &&& greeted.handshake_sent().phase == Phase::Identifying
        }),
{
}

/// A session that the server invalidates without leave to resume, or whose
/// connection closes on a failed authentication, ends for good.
pub proof fn lemma_invalid_session_ends_for_good(
    session: Session,
    envelope: Envelope,
    reason: Seq<char>,
)
    requires
        session.greeted(),
        meaning_of(envelope) == (Meaning::InvalidSession { resumable: false }),
    ensures
        session.receive(envelope).0 == session.observe(envelope.sequence).ended(false),
        session.receive(envelope).0.phase == Phase::Disconnected,
        session.receive(envelope).0.ticket is None,
        session.receive(envelope).0.sequence is None,
        forbids_resume(4004),
        !resumable_after(Some(CloseNotice { code: 4004, reason })),
{
}

/// Attempts to connect are spaced out and bounded: every wait is positive and
/// within the cap, at most the allowed number of attempts are granted in a
/// row, and an established session starts the count anew.
pub proof fn lemma_reconnects_are_spaced_out(session: Session, envelope: Envelope, entropy: u64)
    requires
        session.wf(),
    ensures
        session.retry(entropy).1 is None <==> session.backoff.attempts
            >= session.backoff.max_attempts,
        session.retry(entropy).1 matches Some(wait) ==> 0 < wait <= session.backoff.cap
            && session.retry(entropy).0.backoff.attempts == session.backoff.attempts + 1,
        session.receive(envelope).0.phase == Phase::Connected && session.phase != Phase::Connected
            ==> session.receive(envelope).0.backoff.attempts == 0,
{
    if session.backoff.attempts < session.backoff.max_attempts {
        crate::reconnect::lemma_backoff_never_hot_loops(session.backoff, entropy);
    }
}

/// A frame that is no envelope changes nothing and is no failure: the
/// session is what it was, the frame after it is taken as if the bad one had
/// never come, and two events around it are handed on in their order.
pub proof fn lemma_malformed_frame_is_dropped(
    session: Session,
    first: Seq<char>,
    bad: Seq<char>,
    second: Seq<char>,
)
    requires
        decode_spec(bad) is Err,
    ensures
        ({
            let (one, first_result) = session.poll(Arrival::Text(first));
            let (two, bad_result) = one.poll(Arrival::Text(bad));
            let (three, second_result) = two.poll(Arrival::Text(second));
            &&& two == one
            &&& !one.closed ==> bad_result == Ok::<Outcome, Failure>(
                Outcome::Discard(decode_spec(bad)->Err_0),
            )
            &&& (three, second_result) == one.poll(Arrival::Text(second))
            &&& session.phase == Phase::Connected && !session.closed ==> (forall|
                a: Envelope,
                b: Envelope,
            |
                decode_spec(first) == accepted(a) && decode_spec(second) == accepted(b)
                    && meaning_of(a) is Event && meaning_of(b) is Event ==> first_result == Ok::<
                    Outcome,
                    Failure,
                >(Outcome::Deliver(a)) && second_result == Ok::<Outcome, Failure>(
                    Outcome::Deliver(b),
                ))
        }),
{
}

/// The document written for a heartbeat reads back as the same envelope,
/// opcode and payload; and so does the text written for it, wherever
/// `serde_json` reads that text back as the document it was written from.
pub proof fn lemma_heartbeat_reads_back(
    doc: serde_json::Value,
    envelope: Envelope,
    sequence: Option<u32>,
    text: Seq<char>,
)
    requires
        carries(envelope, Message::Heartbeat { sequence }),
        written(doc, envelope),
    ensures
        read_envelope(doc) == accepted(envelope),
        read_envelope(doc) matches Ok(read) && read.opcode == Opcode::Heartbeat && read.data
            == envelope.data,
        json_render(doc) == Some(text) && json_parse(text) == Some(doc) ==> decode_spec(text)
            == accepted(envelope),
{
    crate::codec::lemma_written_reads_back(doc, envelope);
}

} // verus!
