//! The session state machine, as mathematics.
//!
//! A [`Session`] is what the gateway knows between two steps; each function
//! here says what one step makes of it. The executable gateway is proved to
//! take exactly these steps.

use crate::codec::{decode_spec, DecodeError};
use crate::error::{Failure, ProtocolError};
use crate::event::Envelope;
use crate::heartbeat::{Beat, HeartbeatModel};
use crate::opcode::Opcode;
use crate::outbound::Message;
use crate::reconnect::{resumable_after, BackoffModel, CloseNotice};
use crate::signal::{meaning_of, Meaning};
use vstd::prelude::*;

verus! {

/// Where a session stands in the life of its connection.
#[derive(Clone, Copy, Debug, PartialEq, Eq, Structural)]
pub enum Phase {
    /// No connection, and no session to take up again.
    Disconnected,
    /// The connection is being opened; the server's greeting is awaited.
    Connecting,
    /// The greeting has come; the handshake is on its way out.
    AwaitingHello,
    /// A new session was asked for; `READY` is awaited.
    Identifying,
    /// An earlier session is being taken up again: either the connection is
    /// still to be opened, or the missed events are being replayed.
    Resuming,
    /// The session is established.
    Connected,
    /// The client is shutting the connection down.
    Closing,
}

/// What a session needs to be resumed.
pub struct Ticket {
    pub session_id: Seq<char>,
    pub resume_url: Seq<char>,
}

/// Where to connect.
pub enum Target {
    /// The gateway's public address.
    Default,
    /// The address that the server named for resuming the session.
    Resume(Seq<char>),
}

/// What the session asks of its caller after a step.
pub enum Response {
    /// Nothing.
    Nothing,
    /// Send this message.
    Send(Message),
    /// Hand the envelope just received to the subscriber.
    Deliver,
    /// Close the transport: the session has ended this connection.
    Close,
}

/// What the gateway asks of its caller after a frame.
pub enum Outcome {
    Nothing,
    Send(Message),
    Deliver(Envelope),
    Close,
    /// The frame was no envelope and was dropped.
    Discard(DecodeError),
}

/// What the transport delivered.
pub enum Arrival {
    /// Nothing within the bounded wait, or a frame that is no text.
    Idle,
    /// A text frame.
    Text(Seq<char>),
    /// The connection was closed, with the close frame if one came.
    Closed(Option<CloseNotice>),
    /// Receiving failed.
    Failed,
}

/// The state of a session.
pub struct Session {
    pub phase: Phase,
    /// There is no transport.
    pub closed: bool,
    /// The highest sequence number seen in this session.
    pub sequence: Option<u32>,
    pub heartbeat: HeartbeatModel,
    /// What the server gave out for resuming the session.
    pub ticket: Option<Ticket>,
    pub token: Seq<char>,
    pub intents: u32,
    /// How long to wait before connecting again.
    pub backoff: BackoffModel,
}

/// The later of two positions in the event stream, where `None` is before
/// every position.
pub open spec fn later(a: Option<u32>, b: Option<u32>) -> Option<u32> {
    match (a, b) {
        (None, _) => b,
        (_, None) => a,
        (Some(x), Some(y)) => if x >= y {
            a
        } else {
            b
        },
    }
}

/// The outcome that goes with a response to a given envelope.
pub open spec fn outcome_of(response: Response, envelope: Envelope) -> Outcome {
    match response {
        Response::Nothing => Outcome::Nothing,
        Response::Send(message) => Outcome::Send(message),
        Response::Deliver => Outcome::Deliver(envelope),
        Response::Close => Outcome::Close,
    }
}

impl Session {
    /// A session that has never been connected.
    pub open spec fn fresh(
        token: Seq<char>,
        intents: u32,
        now: u64,
        backoff: BackoffModel,
    ) -> Session {
        Session {
            phase: Phase::Disconnected,
            closed: true,
            sequence: None,
            heartbeat: HeartbeatModel::idle(now),
            ticket: None,
            token,
            intents,
            backoff,
        }
    }

    /// The session is past the greeting on an open connection.
    pub open spec fn greeted(self) -> bool {
        !self.closed && (self.phase == Phase::AwaitingHello || self.phase == Phase::Identifying
            || self.phase == Phase::Resuming || self.phase == Phase::Connected)
    }

    /// What holds of a session at every step.
    ///
    /// Without a transport the phase is `Disconnected` or `Resuming`, and in
    /// no other phase is the transport missing. The heartbeat interval is
    /// known exactly while the session is past the greeting. A session that
    /// is resuming or connected holds a ticket; one that is identifying holds
    /// none; one that is disconnected holds neither ticket nor sequence. The
    /// backoff is usable.
    pub open spec fn wf(self) -> bool {
        &&& self.backoff.valid()
        &&& self.closed ==> self.phase == Phase::Disconnected || self.phase == Phase::Resuming
        &&& self.phase == Phase::Disconnected ==> self.closed
        &&& self.heartbeat.interval > 0 <==> self.greeted()
        &&& self.phase == Phase::Resuming || self.phase == Phase::Connected ==> self.ticket is Some
        &&& self.phase == Phase::Identifying ==> self.ticket is None
        &&& self.phase == Phase::Disconnected ==> self.ticket is None && self.sequence is None
    }

    /// The session after it saw an envelope's sequence number: the counter
    /// is the highest number seen.
    pub open spec fn observe(self, sequence: Option<u32>) -> Session {
        Session { sequence: later(self.sequence, sequence), ..self }
    }

    /// The session after its connection ended.
    ///
    /// If the end allows it and the session holds a ticket, the session waits
    /// to be resumed and keeps ticket and sequence. Otherwise, and always
    /// after a shutdown by the client, both are dropped.
    pub open spec fn ended(self, resumable: bool) -> Session {
        if resumable && self.ticket is Some && self.phase != Phase::Closing {
            Session {
                phase: Phase::Resuming,
                closed: true,
                heartbeat: self.heartbeat.stopped(),
                ..self
            }
        } else {
            Session {
                phase: Phase::Disconnected,
                closed: true,
                heartbeat: self.heartbeat.stopped(),
                ticket: None,
                sequence: None,
                ..self
            }
        }
    }

    /// The session after the server broke the protocol, and the failure to
    /// report.
    pub open spec fn violation(self, error: ProtocolError) -> (Session, Result<Response, Failure>) {
        (self.ended(false), Err(Failure::Protocol(error)))
    }

    /// Where a session without transport connects: at the address on its
    /// ticket if it holds one, else at the gateway's public address. `None`
    /// while there is a transport.
    pub open spec fn target(self) -> Option<Target> {
        if !self.closed {
            None
        } else {
            match self.ticket {
                Some(ticket) => Some(Target::Resume(ticket.resume_url)),
                None => Some(Target::Default),
            }
        }
    }

    /// The session after it set out to connect.
    pub open spec fn connect(self) -> Session {
        if self.closed {
            Session { phase: Phase::Connecting, closed: false, ..self }
        } else {
            self
        }
    }

    /// The session after the connection could not be opened.
    pub open spec fn connect_failed(self) -> Session {
        if self.phase == Phase::Connecting {
            self.ended(true)
        } else {
            self
        }
    }

    /// The handshake that follows the greeting: a request to resume if the
    /// session holds a ticket, else the opening of a new session.
    pub open spec fn handshake(self) -> Message {
        match self.ticket {
            Some(ticket) => Message::Resume {
                token: self.token,
                session_id: ticket.session_id,
                sequence: self.sequence,
            },
            None => Message::Identify { token: self.token, intents: self.intents },
        }
    }

    /// The session after the handshake was sent.
    pub open spec fn handshake_sent(self) -> Session {
        if self.phase == Phase::AwaitingHello && !self.closed {
            Session {
                phase: if self.ticket is Some {
                    Phase::Resuming
                } else {
                    Phase::Identifying
                },
                ..self
            }
        } else {
            self
        }
    }

    /// The session after a heartbeat was sent at `now`.
    pub open spec fn heartbeat_sent(self, now: u64) -> Session {
        if self.closed {
            self
        } else {
            Session { heartbeat: self.heartbeat.sent(now), ..self }
        }
    }

    /// The session after a message with this opcode was sent at `now`: a
    /// heartbeat restarts the timer, a handshake moves the session on, and
    /// nothing else is ever sent.
    pub open spec fn sent(self, opcode: Opcode, now: u64) -> Session {
        match opcode {
            Opcode::Heartbeat => self.heartbeat_sent(now),
            Opcode::Identify | Opcode::Resume => self.handshake_sent(),
            _ => self,
        }
    }

    /// What a tick of the scheduler at `now` makes of the session: nothing
    /// while no heartbeat is owed; a heartbeat with the sequence counter when
    /// one is owed; the end of the connection, open to resuming, when the
    /// last heartbeats went unanswered.
    pub open spec fn tick(self, now: u64) -> (Session, Response) {
        if self.closed {
            (self, Response::Nothing)
        } else {
            match self.heartbeat.tick(now) {
                Beat::Idle => (self, Response::Nothing),
                Beat::Send => (
                    self,
                    Response::Send(Message::Heartbeat { sequence: self.sequence }),
                ),
                Beat::Expired => (self.ended(true), Response::Close),
            }
        }
    }

    /// While connecting: the first envelope must be a greeting with a usable
    /// interval. It starts the scheduler and calls for the handshake.
    pub open spec fn greet(self, meaning: Meaning) -> (Session, Result<Response, Failure>) {
        match meaning {
            Meaning::Hello { heartbeat_interval } => if heartbeat_interval > 0 {
                (
                    Session {
                        phase: Phase::AwaitingHello,
                        heartbeat: self.heartbeat.started(heartbeat_interval),
                        ..self
                    },
                    Ok(Response::Send(self.handshake())),
                )
            } else {
                self.violation(ProtocolError::MalformedHello)
            },
            Meaning::MalformedHello => self.violation(ProtocolError::MalformedHello),
            _ => self.violation(ProtocolError::ExpectedHello),
        }
    }

    /// A dispatched event, by phase. While identifying only `READY` is taken:
    /// it establishes the session and leaves the ticket. While resuming,
    /// events are replayed until `RESUMED` establishes the session again.
    /// Every event that is taken is handed on. An established session has
    /// its backoff rewound: the next reconnect waits as the first did.
    pub open spec fn dispatched(self, meaning: Meaning) -> (Session, Result<Response, Failure>) {
        match self.phase {
            Phase::Identifying => match meaning {
                Meaning::Ready { session_id, resume_url } => (
                    Session {
                        phase: Phase::Connected,
                        ticket: Some(Ticket { session_id, resume_url }),
                        backoff: self.backoff.rewound(),
                        ..self
                    },
                    Ok(Response::Deliver),
                ),
                Meaning::MalformedReady => self.violation(ProtocolError::MalformedReady),
                _ => self.violation(ProtocolError::ExpectedReady),
            },
            Phase::Resuming => match meaning {
                Meaning::Resumed => (
                    Session { phase: Phase::Connected, backoff: self.backoff.rewound(), ..self },
                    Ok(Response::Deliver),
                ),
                _ => (self, Ok(Response::Deliver)),
            },
            Phase::Connected => (self, Ok(Response::Deliver)),
            _ => self.violation(ProtocolError::UnexpectedOpcode),
        }
    }

    /// Past the greeting: heartbeats are answered and acknowledged, the
    /// server's wish to reconnect and an invalidated session end the
    /// connection, events are dispatched, and anything else breaks the
    /// protocol.
    pub open spec fn converse(self, meaning: Meaning) -> (Session, Result<Response, Failure>) {
        match meaning {
            Meaning::HeartbeatRequest => (
                self,
                Ok(Response::Send(Message::Heartbeat { sequence: self.sequence })),
            ),
            Meaning::HeartbeatAck => (
                Session { heartbeat: self.heartbeat.acknowledged(), ..self },
                Ok(Response::Nothing),
            ),
            Meaning::Reconnect => (self.ended(true), Ok(Response::Close)),
            Meaning::InvalidSession { resumable } => (self.ended(resumable), Ok(Response::Close)),
            Meaning::Ready { .. } | Meaning::MalformedReady | Meaning::Resumed | Meaning::Event =>
                self.dispatched(meaning),
            Meaning::Hello { .. } | Meaning::MalformedHello | Meaning::Unexpected => self.violation(
                ProtocolError::UnexpectedOpcode,
            ),
        }
    }

    /// What one inbound envelope makes of the session, given its sequence
    /// number and its meaning.
    ///
    /// Without a transport the envelope is refused and nothing changes;
    /// during shutdown it is ignored. Otherwise the sequence number is
    /// observed first, and the meaning is taken according to the phase.
    pub open spec fn apply(self, sequence: Option<u32>, meaning: Meaning) -> (
        Session,
        Result<Response, Failure>,
    ) {
        if self.closed {
            (self, Err(Failure::SocketIsNone))
        } else if self.phase == Phase::Closing {
            (self, Ok(Response::Nothing))
        } else if self.phase == Phase::Connecting {
            self.observe(sequence).greet(meaning)
        } else {
            self.observe(sequence).converse(meaning)
        }
    }

    /// What one inbound envelope makes of the session.
    pub open spec fn receive(self, envelope: Envelope) -> (Session, Result<Outcome, Failure>) {
        let (next, result) = self.apply(envelope.sequence, meaning_of(envelope));
        (
            next,
            match result {
                Ok(response) => Ok(outcome_of(response, envelope)),
                Err(failure) => Err(failure),
            },
        )
    }

    /// The session after the transport was lost, with or without a close
    /// frame.
    pub open spec fn lost(self, notice: Option<CloseNotice>) -> Session {
        if self.closed {
            self
        } else {
            self.ended(resumable_after(notice))
        }
    }

    /// What one arrival from the transport makes of the session.
    ///
    /// A text that is no envelope is dropped and changes nothing. A closed or
    /// failed transport ends the connection and is reported as such.
    pub open spec fn poll(self, arrival: Arrival) -> (Session, Result<Outcome, Failure>) {
        if self.closed {
            (self, Err(Failure::SocketIsNone))
        } else {
            match arrival {
                Arrival::Idle => (self, Ok(Outcome::Nothing)),
                Arrival::Text(text) => match decode_spec(text) {
                    Ok(envelope) => self.receive(envelope),
                    Err(error) => (self, Ok(Outcome::Discard(error))),
                },
                Arrival::Closed(notice) => (self.lost(notice), Err(Failure::SocketClosed(notice))),
                Arrival::Failed => (self.lost(None), Err(Failure::SocketClosed(None))),
            }
        }
    }

    /// What asking for the next attempt to connect makes of the session: the
    /// wait before the attempt, and one attempt more on the books; or `None`
    /// and no change when no attempt is left.
    pub open spec fn retry(self, entropy: u64) -> (Session, Option<u64>) {
        if self.backoff.exhausted() {
            (self, None)
        } else {
            (
                Session { backoff: self.backoff.advanced(), ..self },
                Some(self.backoff.delay(entropy) as u64),
            )
        }
    }

    /// The session after the client asked to shut down: an open connection
    /// is closing, and without one the session is over.
    pub open spec fn close(self) -> Session {
        if self.closed {
            self.ended(false)
        } else {
            Session { phase: Phase::Closing, heartbeat: self.heartbeat.stopped(), ..self }
        }
    }
}

/// A session that has never been connected is well formed, if its backoff
/// is usable.
pub proof fn lemma_fresh_is_well_formed(
    token: Seq<char>,
    intents: u32,
    now: u64,
    backoff: BackoffModel,
)
    requires
        backoff.valid(),
    ensures
        Session::fresh(token, intents, now, backoff).wf(),
{
}

/// Every step keeps a session well formed.
pub proof fn lemma_steps_keep_well_formed(session: Session)
    requires
        session.wf(),
    ensures
        session.connect().wf(),
        session.connect_failed().wf(),
        session.handshake_sent().wf(),
        session.close().wf(),
        forall|resumable: bool| (#[trigger] session.ended(resumable)).wf(),
        forall|notice: Option<CloseNotice>| (#[trigger] session.lost(notice)).wf(),
        forall|now: u64| (#[trigger] session.heartbeat_sent(now)).wf(),
        forall|opcode: Opcode, now: u64| (#[trigger] session.sent(opcode, now)).wf(),
        forall|now: u64| (#[trigger] session.tick(now)).0.wf(),
        forall|sequence: Option<u32>, meaning: Meaning|
            (#[trigger] session.apply(sequence, meaning)).0.wf(),
        forall|envelope: Envelope| (#[trigger] session.receive(envelope)).0.wf(),
        forall|arrival: Arrival| (#[trigger] session.poll(arrival)).0.wf(),
        forall|entropy: u64| (#[trigger] session.retry(entropy)).0.wf(),
{
}

} // verus!
