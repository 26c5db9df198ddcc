//! The gateway: the session state machine in executable form.
//!
//! The gateway owns no socket and reads no clock. Its caller opens and closes
//! the transport, sends what the gateway asks to be sent, and reports what
//! arrived and when. Every method takes exactly the step that
//! [`Session`](crate::model::Session) describes.

use crate::codec::{decode, DecodeError};
use crate::error::{DiscordGatewayError, Failure, ProtocolError};
use crate::event::GatewayEvent;
use crate::heartbeat::{Beat, Heartbeat};
use crate::model::{
    lemma_steps_keep_well_formed, Arrival, Outcome, Phase, Response, Session, Target, Ticket,
};
use crate::opcode::Opcode;
use crate::outbound::Outbound;
use crate::reconnect::{can_resume_after, notice_of, Backoff, CloseFrame};
use crate::signal::{classify, Signal};
use vstd::prelude::*;
use vstd::string::StringExecFns;

verus! {

/// What a session needs to be resumed.
#[derive(Debug)]
pub struct ResumeToken {
    /// The id of the session.
    pub session_id: String,
    /// The address at which the server takes the session back.
    pub resume_url: String,
}

impl View for ResumeToken {
    type V = Ticket;

    open spec fn view(&self) -> Ticket {
        Ticket { session_id: self.session_id@, resume_url: self.resume_url@ }
    }
}

/// Where to connect.
#[derive(Debug)]
pub enum Endpoint {
    /// The gateway's public address.
    Default,
    /// The address that the server named for resuming the session.
    Resume(String),
}

impl View for Endpoint {
    type V = Target;

    open spec fn view(&self) -> Target {
        match self {
            Endpoint::Default => Target::Default,
            Endpoint::Resume(url) => Target::Resume(url@),
        }
    }
}

/// The address to connect to: the gateway's public address with the protocol
/// version and the encoding, or the address for resuming with the same two.
pub open spec fn url_of(target: Target) -> Seq<char> {
    match target {
        Target::Default => "wss://gateway.discord.gg/?v=10&encoding=json"@,
        Target::Resume(url) => url + "/?v=10&encoding=json"@,
    }
}

impl Endpoint {
    /// The address to connect to.
    pub fn url(&self) -> (url: String)
        ensures
            url@ == url_of(self@),
    {
        match self {
            Endpoint::Default => "wss://gateway.discord.gg/?v=10&encoding=json".to_owned(),
            Endpoint::Resume(url) => url.clone().concat("/?v=10&encoding=json"),
        }
    }
}

/// What the session asks of its caller after a step.
#[derive(Debug)]
pub enum Reaction {
    /// Nothing.
    Nothing,
    /// Send this message.
    Send(Outbound),
    /// Hand the envelope just received to the subscriber.
    Deliver,
    /// Close the transport: the session has ended this connection.
    Close,
}

impl View for Reaction {
    type V = Response;

    open spec fn view(&self) -> Response {
        match self {
            Reaction::Nothing => Response::Nothing,
            Reaction::Send(outbound) => Response::Send(outbound@),
            Reaction::Deliver => Response::Deliver,
            Reaction::Close => Response::Close,
        }
    }
}

/// What the gateway asks of its caller after a frame.
#[derive(Debug)]
pub enum Action {
    /// Nothing.
    Nothing,
    /// Send this message.
    Send(Outbound),
    /// Hand this envelope to the subscriber.
    Deliver(GatewayEvent),
    /// Close the transport: the session has ended this connection.
    Close,
    /// The frame was no envelope and was dropped; the session goes on.
    Discard(DecodeError),
}

impl View for Action {
    type V = Outcome;

    open spec fn view(&self) -> Outcome {
        match self {
            Action::Nothing => Outcome::Nothing,
            Action::Send(outbound) => Outcome::Send(outbound@),
            Action::Deliver(event) => Outcome::Deliver(event@),
            Action::Close => Outcome::Close,
            Action::Discard(error) => Outcome::Discard(*error),
        }
    }
}

/// What the transport delivered.
#[derive(Debug)]
pub enum Frame {
    /// Nothing within the bounded wait, or a frame that is no text.
    Idle,
    /// A text frame.
    Text(String),
    /// The connection was closed, with the close frame if one came.
    Closed(Option<CloseFrame>),
    /// Receiving failed.
    Failed,
}

impl View for Frame {
    type V = Arrival;

    open spec fn view(&self) -> Arrival {
        match self {
            Frame::Idle => Arrival::Idle,
            Frame::Text(text) => Arrival::Text(text@),
            Frame::Closed(frame) => Arrival::Closed(notice_of(*frame)),
            Frame::Failed => Arrival::Failed,
        }
    }
}

/// The mathematical form of a step's result.
pub open spec fn reacted(result: Result<Reaction, DiscordGatewayError>) -> Result<
    Response,
    Failure,
> {
    match result {
        Ok(reaction) => Ok(reaction@),
        Err(error) => Err(error@),
    }
}

/// The mathematical form of a frame's result.
pub open spec fn acted(result: Result<Action, DiscordGatewayError>) -> Result<Outcome, Failure> {
    match result {
        Ok(action) => Ok(action@),
        Err(error) => Err(error@),
    }
}

/// The mathematical form of an endpoint that may be missing.
pub open spec fn target_of(endpoint: Option<Endpoint>) -> Option<Target> {
    match endpoint {
        Some(endpoint) => Some(endpoint@),
        None => None,
    }
}

/// The session of one bot identity. It lasts across connections.
#[derive(Debug)]
pub struct DiscordGateway {
    phase: Phase,
    socket_closed: bool,
    sequence: Option<u32>,
    heartbeat: Heartbeat,
    resume: Option<ResumeToken>,
    token: String,
    intents: u32,
    backoff: Backoff,
}

impl View for DiscordGateway {
    type V = Session;

    closed spec fn view(&self) -> Session {
        Session {
            phase: self.phase,
            closed: self.socket_closed,
            sequence: self.sequence,
            heartbeat: self.heartbeat@,
            ticket: match self.resume {
                Some(resume) => Some(resume@),
                None => None,
            },
            token: self.token@,
            intents: self.intents,
            backoff: self.backoff@,
        }
    }
}

impl DiscordGateway {
    /// A gateway that has never been connected. `now` is the current reading
    /// of the clock; the heartbeat timer counts from it. `backoff` spaces out
    /// the attempts to connect.
    pub fn new(token: String, intents: u32, now: u64, backoff: Backoff) -> (gateway:
        DiscordGateway)
        ensures
            gateway@ == Session::fresh(token@, intents, now, backoff@),
            gateway@.wf(),
    {
        // A backoff in hand is a valid one; asking it anything brings that to light.
        let _ = backoff.attempts();
        DiscordGateway {
            phase: Phase::Disconnected,
            socket_closed: true,
            sequence: None,
            heartbeat: Heartbeat::new(now),
            resume: None,
            token,
            intents,
            backoff,
        }
    }

    /// Whether there is no transport.
    pub fn is_closed(&self) -> (closed: bool)
        ensures
            closed == self@.closed,
    {
        self.socket_closed
    }

    /// The phase the session is in.
    pub fn phase(&self) -> (phase: Phase)
        ensures
            phase == self@.phase,
    {
        self.phase
    }

    /// The highest sequence number seen in this session.
    pub fn sequence(&self) -> (sequence: Option<u32>)
        ensures
            sequence == self@.sequence,
    {
        self.sequence
    }

    /// The heartbeat interval that the server named, 0 if none.
    pub fn heartbeat_interval(&self) -> (interval: u64)
        ensures
            interval == self@.heartbeat.interval,
    {
        self.heartbeat.interval()
    }

    /// Whether the session holds what it needs to be resumed.
    pub fn can_resume(&self) -> (held: bool)
        ensures
            held == self@.ticket is Some,
    {
        self.resume.is_some()
    }

    /// The id under which the server knows the session, once it is ready.
    pub fn session_id(&self) -> (id: Option<String>)
        ensures
            match id {
                Some(id) => self@.ticket matches Some(ticket) && ticket.session_id == id@,
                None => self@.ticket is None,
            },
    {
        match &self.resume {
            Some(resume) => Some(resume.session_id.clone()),
            None => None,
        }
    }

    /// Ends the connection in the session's books.
    fn end(&mut self, resumable: bool)
        ensures
            final(self)@ == old(self)@.ended(resumable),
    {
        self.heartbeat.stop();
        self.socket_closed = true;
        if resumable && self.resume.is_some() && self.phase != Phase::Closing {
            self.phase = Phase::Resuming;
        } else {
            self.phase = Phase::Disconnected;
            self.resume = None;
            self.sequence = None;
        }
    }

    /// Ends the connection because the server broke the protocol.
    fn violate(&mut self, error: ProtocolError) -> (result: Result<Reaction, DiscordGatewayError>)
        ensures
            (final(self)@, reacted(result)) == old(self)@.violation(error),
    {
        self.end(false);
        Err(DiscordGatewayError::Protocol(error))
    }

    /// Builds the handshake that follows the greeting.
    fn handshake(&self) -> (outbound: Outbound)
        ensures
            outbound@ == self@.handshake(),
    {
        match &self.resume {
            Some(resume) => Outbound::Resume {
                token: self.token.clone(),
                session_id: resume.session_id.clone(),
                sequence: self.sequence,
            },
            None => Outbound::Identify { token: self.token.clone(), intents: self.intents },
        }
    }

    /// Takes note of an envelope's sequence number.
    fn observe(&mut self, sequence: Option<u32>)
        ensures
            final(self)@ == old(self)@.observe(sequence),
    {
        match (self.sequence, sequence) {
            (None, _) => {
                self.sequence = sequence;
            },
            (_, None) => {},
            (Some(x), Some(y)) => {
                if x < y {
                    self.sequence = sequence;
                }
            },
        }
    }

    /// Sets out to connect.
    ///
    /// Without a transport, the session starts connecting and the result is
    /// where to connect: at the address for resuming if the session can be
    /// resumed, else at the gateway's public address. With a transport
    /// nothing happens and the result is `None`.
    pub fn connect(&mut self) -> (endpoint: Option<Endpoint>)
        ensures
            final(self)@ == old(self)@.connect(),
            target_of(endpoint) == old(self)@.target(),
            old(self)@.wf() ==> final(self)@.wf(),
    {
        proof {
            if self@.wf() {
                lemma_steps_keep_well_formed(self@);
            }
        }
        if !self.socket_closed {
            return None;
        }
        let endpoint = match &self.resume {
            Some(resume) => Endpoint::Resume(resume.resume_url.clone()),
            None => Endpoint::Default,
        };
        self.phase = Phase::Connecting;
        self.socket_closed = false;
        Some(endpoint)
    }

    /// Records that the connection could not be opened and gives the failure
    /// to report. The session goes back to waiting: to be resumed if it holds
    /// a ticket, else disconnected.
    pub fn connect_failed(&mut self) -> (error: DiscordGatewayError)
        ensures
            final(self)@ == old(self)@.connect_failed(),
            error@ == Failure::ConnectionFail,
            old(self)@.wf() ==> final(self)@.wf(),
    {
        proof {
            if self@.wf() {
                lemma_steps_keep_well_formed(self@);
            }
        }
        if self.phase == Phase::Connecting {
            self.end(true);
        }
        DiscordGatewayError::ConnectionFail
    }

    /// Records that the handshake was sent: the session is now identifying,
    /// or resuming if it holds a ticket.
    pub fn handshake_sent(&mut self)
        ensures
            final(self)@ == old(self)@.handshake_sent(),
            old(self)@.wf() ==> final(self)@.wf(),
    {
        proof {
            if self@.wf() {
                lemma_steps_keep_well_formed(self@);
            }
        }
        if self.phase == Phase::AwaitingHello && !self.socket_closed {
            if self.resume.is_some() {
                self.phase = Phase::Resuming;
            } else {
                self.phase = Phase::Identifying;
            }
        }
    }

    /// Asks the scheduler at `now`.
    ///
    /// The result is a heartbeat to send, carrying the sequence counter, if
    /// and only if the interval is known, at least that long has passed since
    /// the last heartbeat, and fewer than the allowed number of heartbeats
    /// are unanswered. If too many are, the connection is ended, open to
    /// resuming, and the result asks to close the transport.
    pub fn heart_beat(&mut self, now: u64) -> (reaction: Reaction)
        ensures
            (final(self)@, reaction@) == old(self)@.tick(now),
            old(self)@.wf() ==> final(self)@.wf(),
    {
        proof {
            if self@.wf() {
                lemma_steps_keep_well_formed(self@);
            }
        }
        if self.socket_closed {
            return Reaction::Nothing;
        }
        match self.heartbeat.tick(now) {
            Beat::Idle => Reaction::Nothing,
            Beat::Send => Reaction::Send(Outbound::Heartbeat { sequence: self.sequence }),
            Beat::Expired => {
                self.end(true);
                Reaction::Close
            },
        }
    }

    /// Records that a heartbeat was sent at `now`: the timer counts from
    /// `now` again.
    pub fn heartbeat_sent(&mut self, now: u64)
        ensures
            final(self)@ == old(self)@.heartbeat_sent(now),
            old(self)@.wf() ==> final(self)@.wf(),
    {
        proof {
            if self@.wf() {
                lemma_steps_keep_well_formed(self@);
            }
        }
        if !self.socket_closed {
            self.heartbeat.record_sent(now);
        }
    }

    /// Records that a message with this opcode was sent at `now`: after a
    /// heartbeat the timer counts from `now` again; after a handshake the
    /// session is identifying or resuming.
    pub fn sent(&mut self, opcode: Opcode, now: u64)
        ensures
            final(self)@ == old(self)@.sent(opcode, now),
            old(self)@.wf() ==> final(self)@.wf(),
    {
        match opcode {
            Opcode::Heartbeat => self.heartbeat_sent(now),
            Opcode::Identify | Opcode::Resume => self.handshake_sent(),
            _ => {},
        }
    }

    /// Records that sending failed and gives the failure to report. The
    /// connection is over; the session can be resumed if it holds a ticket.
    pub fn send_failed(&mut self, reason: String) -> (error: DiscordGatewayError)
        ensures
            final(self)@ == old(self)@.lost(None),
            error@ == Failure::SendFail(reason@),
            old(self)@.wf() ==> final(self)@.wf(),
    {
        proof {
            if self@.wf() {
                lemma_steps_keep_well_formed(self@);
            }
        }
        if !self.socket_closed {
            self.end(true);
        }
        DiscordGatewayError::SendFail(reason)
    }

    /// Takes the first envelope of a connection.
    fn greet(&mut self, signal: Signal) -> (result: Result<Reaction, DiscordGatewayError>)
        ensures
            (final(self)@, reacted(result)) == old(self)@.greet(signal@),
    {
        match signal {
            Signal::Hello { heartbeat_interval } => {
                if heartbeat_interval > 0 {
                    let handshake = self.handshake();
                    self.phase = Phase::AwaitingHello;
                    self.heartbeat.start(heartbeat_interval);
                    Ok(Reaction::Send(handshake))
                } else {
                    self.violate(ProtocolError::MalformedHello)
                }
            },
            Signal::MalformedHello => self.violate(ProtocolError::MalformedHello),
            _ => self.violate(ProtocolError::ExpectedHello),
        }
    }

    /// Takes a dispatched event.
    fn dispatched(&mut self, signal: Signal) -> (result: Result<Reaction, DiscordGatewayError>)
        ensures
            (final(self)@, reacted(result)) == old(self)@.dispatched(signal@),
    {
        match self.phase {
            Phase::Identifying => match signal {
                Signal::Ready { session_id, resume_url } => {
                    self.phase = Phase::Connected;
                    self.resume = Some(ResumeToken { session_id, resume_url });
                    self.backoff.reset();
                    Ok(Reaction::Deliver)
                },
                Signal::MalformedReady => self.violate(ProtocolError::MalformedReady),
                _ => self.violate(ProtocolError::ExpectedReady),
            },
            Phase::Resuming => match signal {
                Signal::Resumed => {
                    self.phase = Phase::Connected;
                    self.backoff.reset();
                    Ok(Reaction::Deliver)
                },
                _ => Ok(Reaction::Deliver),
            },
            Phase::Connected => Ok(Reaction::Deliver),
            _ => self.violate(ProtocolError::UnexpectedOpcode),
        }
    }

    /// Takes an envelope past the greeting.
    fn converse(&mut self, signal: Signal) -> (result: Result<Reaction, DiscordGatewayError>)
        ensures
            (final(self)@, reacted(result)) == old(self)@.converse(signal@),
    {
        match signal {
            Signal::HeartbeatRequest => Ok(
                Reaction::Send(Outbound::Heartbeat { sequence: self.sequence }),
            ),
            Signal::HeartbeatAck => {
                self.heartbeat.record_ack();
                Ok(Reaction::Nothing)
            },
            Signal::Reconnect => {
                self.end(true);
                Ok(Reaction::Close)
            },
            Signal::InvalidSession { resumable } => {
                self.end(resumable);
                Ok(Reaction::Close)
            },
            Signal::Hello { .. } | Signal::MalformedHello | Signal::Unexpected => self.violate(
                ProtocolError::UnexpectedOpcode,
            ),
            signal => self.dispatched(signal),
        }
    }

    /// Takes one inbound envelope, given as its sequence number and its
    /// meaning, and says what to do about it.
    ///
    /// Without a transport the envelope is refused with `SocketIsNone`;
    /// during shutdown it is ignored. Otherwise the sequence counter becomes
    /// the highest number seen and the session moves as its phase and the
    /// meaning demand; an envelope that has no place in the phase ends the
    /// connection and the session with a protocol error.
    pub fn apply(&mut self, sequence: Option<u32>, signal: Signal) -> (result: Result<
        Reaction,
        DiscordGatewayError,
    >)
        ensures
            (final(self)@, reacted(result)) == old(self)@.apply(sequence, signal@),
            old(self)@.wf() ==> final(self)@.wf(),
    {
        proof {
            if self@.wf() {
                lemma_steps_keep_well_formed(self@);
            }
        }
        if self.socket_closed {
            return Err(DiscordGatewayError::SocketIsNone);
        }
        if self.phase == Phase::Closing {
            return Ok(Reaction::Nothing);
        }
        self.observe(sequence);
        if self.phase == Phase::Connecting {
            self.greet(signal)
        } else {
            self.converse(signal)
        }
    }

    /// Takes one inbound envelope and says what to do about it. An envelope
    /// that is to be handed to the subscriber comes back in the result.
    pub fn receive(&mut self, event: GatewayEvent) -> (result: Result<Action, DiscordGatewayError>)
        ensures
            (final(self)@, acted(result)) == old(self)@.receive(event@),
            old(self)@.wf() ==> final(self)@.wf(),
    {
        let signal = classify(&event);
        match self.apply(event.sequence, signal) {
            Ok(Reaction::Nothing) => Ok(Action::Nothing),
            Ok(Reaction::Send(outbound)) => Ok(Action::Send(outbound)),
            Ok(Reaction::Deliver) => Ok(Action::Deliver(event)),
            Ok(Reaction::Close) => Ok(Action::Close),
            Err(error) => Err(error),
        }
    }

    /// Takes what the transport delivered and says what to do about it.
    ///
    /// Without a transport the result is `SocketIsNone`. A text frame is
    /// decoded and received; a text that is no envelope is dropped, which
    /// changes nothing and is no failure. A closed or failed transport ends
    /// the connection: the session waits to be resumed if the close code
    /// allows it and it holds a ticket, and is disconnected otherwise; the
    /// result is `SocketClosed` with the close frame, if one came.
    pub fn poll_event(&mut self, frame: Frame) -> (result: Result<Action, DiscordGatewayError>)
        ensures
            (final(self)@, acted(result)) == old(self)@.poll(frame@),
            old(self)@.wf() ==> final(self)@.wf(),
    {
        proof {
            if self@.wf() {
                lemma_steps_keep_well_formed(self@);
            }
        }
        if self.socket_closed {
            return Err(DiscordGatewayError::SocketIsNone);
        }
        match frame {
            Frame::Idle => Ok(Action::Nothing),
            Frame::Text(text) => match decode(text.as_str()) {
                Ok(event) => self.receive(event),
                Err(error) => Ok(Action::Discard(error)),
            },
            Frame::Closed(close) => {
                self.end(can_resume_after(&close));
                Err(DiscordGatewayError::SocketClosed(close))
            },
            Frame::Failed => {
                self.end(true);
                Err(DiscordGatewayError::SocketClosed(None))
            },
        }
    }

    /// Asks for the next attempt to connect, after a connection ended or
    /// could not be opened. The result is how long to wait before the
    /// attempt, in milliseconds, or `None` when no attempt is left. `entropy`
    /// is any number drawn at random; it picks the wait between half of what
    /// the backoff allows and all of it.
    pub fn retry_delay(&mut self, entropy: u64) -> (wait: Option<u64>)
        ensures
            (final(self)@, wait) == old(self)@.retry(entropy),
            old(self)@.wf() ==> final(self)@.wf(),
            wait matches Some(ms) ==> 0 < ms <= old(self)@.backoff.cap,
    {
        proof {
            if self@.wf() {
                lemma_steps_keep_well_formed(self@);
            }
        }
        self.backoff.next_delay(entropy)
    }

    /// How many attempts to connect were made since the session was last
    /// established.
    pub fn attempts(&self) -> (attempts: u32)
        ensures
            attempts == self@.backoff.attempts,
    {
        self.backoff.attempts()
    }

    /// Asks to shut down. With a transport, the session is closing and the
    /// result is `true`: the caller closes the transport and reports its
    /// end. Without one the session is over, and the result is `false`.
    pub fn close(&mut self) -> (must_close: bool)
        ensures
            final(self)@ == old(self)@.close(),
            must_close == !old(self)@.closed,
            old(self)@.wf() ==> final(self)@.wf(),
    {
        proof {
            if self@.wf() {
                lemma_steps_keep_well_formed(self@);
            }
        }
        if self.socket_closed {
            self.end(false);
            false
        } else {
            self.phase = Phase::Closing;
            self.heartbeat.stop();
            true
        }
    }
}

} // verus!
