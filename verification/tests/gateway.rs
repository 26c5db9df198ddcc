use disco::codec::{decode, encode, DecodeError};
use disco::error::{DiscordGatewayError, ProtocolError};
use disco::event::EventType;
use disco::gateway::{Action, DiscordGateway, Endpoint, Frame, Reaction};
use disco::intents::Intents;
use disco::model::Phase;
use disco::opcode::Opcode;
use disco::outbound::Outbound;
use disco::reconnect::{Backoff, CloseFrame};
use disco::signal::{classify, Signal};
use disco::subscriber::{route, Handler};

const HELLO: &str = r#"{"op":10,"d":{"heartbeat_interval":41250}}"#;
const READY: &str = r#"{"op":0,"d":{"v":10,"session_id":"abc","resume_gateway_url":"wss://resume.example"},"s":1,"t":"READY"}"#;
const DEFAULT_URL: &str = "wss://gateway.discord.gg/?v=10&encoding=json";

fn text(frame: &str) -> Frame {
    Frame::Text(frame.to_string())
}

fn new_gateway() -> DiscordGateway {
    let backoff = Backoff::new(1000, 60_000, 5).unwrap();
    DiscordGateway::new("secret".to_string(), Intents::GuildMessages.bits(), 0, backoff)
}

fn greeted() -> DiscordGateway {
    let mut gateway = new_gateway();
    assert!(gateway.connect().is_some());
    assert!(matches!(gateway.poll_event(text(HELLO)), Ok(Action::Send(_))));
    gateway
}

fn identifying() -> DiscordGateway {
    let mut gateway = greeted();
    gateway.handshake_sent();
    assert_eq!(gateway.phase(), Phase::Identifying);
    gateway
}

fn connected() -> DiscordGateway {
    let mut gateway = identifying();
    assert!(matches!(gateway.poll_event(text(READY)), Ok(Action::Deliver(_))));
    assert_eq!(gateway.phase(), Phase::Connected);
    gateway
}

fn close_frame(code: u16) -> Frame {
    Frame::Closed(Some(CloseFrame { code, reason: "bye".to_string() }))
}

#[test]
fn a_new_gateway_is_disconnected() {
    let gateway = new_gateway();
    assert!(gateway.is_closed());
    assert_eq!(gateway.phase(), Phase::Disconnected);
    assert_eq!(gateway.sequence(), None);
    assert_eq!(gateway.heartbeat_interval(), 0);
    assert!(!gateway.can_resume());
    assert_eq!(gateway.session_id(), None);
}

#[test]
fn polling_without_a_connection_is_refused() {
    let mut gateway = new_gateway();
    assert!(matches!(gateway.poll_event(text(HELLO)), Err(DiscordGatewayError::SocketIsNone)));
    assert!(matches!(gateway.poll_event(Frame::Idle), Err(DiscordGatewayError::SocketIsNone)));
    assert!(matches!(
        gateway.apply(Some(5), Signal::Event),
        Err(DiscordGatewayError::SocketIsNone)
    ));
    assert_eq!(gateway.phase(), Phase::Disconnected);
    assert_eq!(gateway.sequence(), None);
    assert!(matches!(gateway.heart_beat(u64::MAX), Reaction::Nothing));
}

#[test]
fn connecting_goes_to_the_public_address_first() {
    let mut gateway = new_gateway();
    match gateway.connect() {
        Some(endpoint) => {
            assert!(matches!(endpoint, Endpoint::Default));
            assert_eq!(endpoint.url(), DEFAULT_URL);
        },
        None => panic!("no endpoint"),
    }
    assert_eq!(gateway.phase(), Phase::Connecting);
    assert!(!gateway.is_closed());
    assert!(gateway.connect().is_none());
    assert_eq!(gateway.phase(), Phase::Connecting);
}

#[test]
fn a_failed_connection_leaves_the_gateway_disconnected() {
    let mut gateway = new_gateway();
    gateway.connect();
    assert!(matches!(gateway.connect_failed(), DiscordGatewayError::ConnectionFail));
    assert_eq!(gateway.phase(), Phase::Disconnected);
    assert!(gateway.is_closed());
    assert!(matches!(gateway.connect(), Some(Endpoint::Default)));
}

#[test]
fn hello_while_connecting_sets_the_interval_and_calls_for_identify() {
    let mut gateway = new_gateway();
    gateway.connect();
    match gateway.poll_event(text(HELLO)) {
        Ok(Action::Send(Outbound::Identify { token, intents })) => {
            assert_eq!(token, "secret");
            assert_eq!(intents, 512);
        },
        other => panic!("unexpected {:?}", other),
    }
    assert_eq!(gateway.phase(), Phase::AwaitingHello);
    assert_eq!(gateway.heartbeat_interval(), 41250);
    gateway.handshake_sent();
    assert_eq!(gateway.phase(), Phase::Identifying);
}

#[test]
fn anything_but_hello_while_connecting_is_a_protocol_error() {
    for frame in [
        r#"{"op":0,"d":{},"s":1,"t":"MESSAGE_CREATE"}"#,
        READY,
        r#"{"op":1}"#,
        r#"{"op":2}"#,
        r#"{"op":6}"#,
        r#"{"op":7}"#,
        r#"{"op":9,"d":true}"#,
        r#"{"op":11}"#,
    ] {
        let mut gateway = new_gateway();
        gateway.connect();
        assert!(
            matches!(
                gateway.poll_event(text(frame)),
                Err(DiscordGatewayError::Protocol(ProtocolError::ExpectedHello))
            ),
            "{}",
            frame
        );
        assert_eq!(gateway.phase(), Phase::Disconnected);
        assert!(gateway.is_closed());
    }
}

#[test]
fn a_greeting_without_interval_is_a_protocol_error() {
    for frame in [
        r#"{"op":10}"#,
        r#"{"op":10,"d":null}"#,
        r#"{"op":10,"d":{}}"#,
        r#"{"op":10,"d":{"heartbeat_interval":0}}"#,
        r#"{"op":10,"d":{"heartbeat_interval":"41250"}}"#,
        r#"{"op":10,"d":{"heartbeat_interval":-5}}"#,
        r#"{"op":10,"d":41250}"#,
    ] {
        let mut gateway = new_gateway();
        gateway.connect();
        assert!(
            matches!(
                gateway.poll_event(text(frame)),
                Err(DiscordGatewayError::Protocol(ProtocolError::MalformedHello))
            ),
            "{}",
            frame
        );
        assert_eq!(gateway.phase(), Phase::Disconnected);
    }
}

#[test]
fn ready_after_identify_connects_and_records_the_session() {
    let mut gateway = identifying();
    match gateway.poll_event(text(READY)) {
        Ok(Action::Deliver(event)) => {
            assert!(matches!(event.event_type, Some(EventType::Ready)));
            assert_eq!(route(&event), Some(Handler::Ready));
        },
        other => panic!("unexpected {:?}", other),
    }
    assert_eq!(gateway.phase(), Phase::Connected);
    assert_eq!(gateway.session_id(), Some("abc".to_string()));
    assert!(gateway.can_resume());
    assert_eq!(gateway.sequence(), Some(1));
}

#[test]
fn no_other_event_is_taken_before_ready() {
    for frame in [
        r#"{"op":0,"d":{},"s":1,"t":"MESSAGE_CREATE"}"#,
        r#"{"op":0,"d":{},"s":1,"t":"RESUMED"}"#,
        r#"{"op":0,"d":{},"s":1,"t":"GUILD_CREATE"}"#,
        r#"{"op":0,"d":{},"s":1}"#,
    ] {
        let mut gateway = identifying();
        assert!(
            matches!(
                gateway.poll_event(text(frame)),
                Err(DiscordGatewayError::Protocol(ProtocolError::ExpectedReady))
            ),
            "{}",
            frame
        );
        assert_eq!(gateway.phase(), Phase::Disconnected);
        assert_eq!(gateway.sequence(), None);
    }
}

#[test]
fn ready_without_session_is_a_protocol_error() {
    for frame in [
        r#"{"op":0,"d":{"session_id":"abc"},"s":1,"t":"READY"}"#,
        r#"{"op":0,"d":{"resume_gateway_url":"wss://x"},"s":1,"t":"READY"}"#,
        r#"{"op":0,"d":{"session_id":7,"resume_gateway_url":"wss://x"},"s":1,"t":"READY"}"#,
        r#"{"op":0,"s":1,"t":"READY"}"#,
    ] {
        let mut gateway = identifying();
        assert!(
            matches!(
                gateway.poll_event(text(frame)),
                Err(DiscordGatewayError::Protocol(ProtocolError::MalformedReady))
            ),
            "{}",
            frame
        );
        assert_eq!(gateway.phase(), Phase::Disconnected);
    }
}

#[test]
fn a_dispatch_before_the_handshake_is_out_is_a_protocol_error() {
    let mut gateway = greeted();
    assert!(matches!(
        gateway.poll_event(text(READY)),
        Err(DiscordGatewayError::Protocol(ProtocolError::UnexpectedOpcode))
    ));
    assert_eq!(gateway.phase(), Phase::Disconnected);
}

#[test]
fn end_to_end_hello_identify_heartbeat() {
    let mut gateway = new_gateway();
    let endpoint = gateway.connect().unwrap();
    assert_eq!(endpoint.url(), DEFAULT_URL);
    let action = gateway.poll_event(text(HELLO)).unwrap();
    let identify = match action {
        Action::Send(outbound) => outbound,
        other => panic!("unexpected {:?}", other),
    };
    assert_eq!(
        encode(identify.to_event()).unwrap(),
        r#"{"op":2,"d":{"token":"secret","properties":{"os":"linux","browser":"disco","device":"disco"},"intents":512}}"#
    );
    gateway.handshake_sent();
    assert!(matches!(gateway.heart_beat(1), Reaction::Nothing));
    assert!(matches!(gateway.heart_beat(41249), Reaction::Nothing));
    let beat = match gateway.heart_beat(41250) {
        Reaction::Send(outbound) => outbound,
        other => panic!("unexpected {:?}", other),
    };
    assert_eq!(encode(beat.to_event()).unwrap(), r#"{"op":1,"d":null}"#);
    gateway.heartbeat_sent(41250);
    assert!(matches!(gateway.heart_beat(41250), Reaction::Nothing));
    assert!(matches!(gateway.heart_beat(82499), Reaction::Nothing));
    assert!(matches!(gateway.heart_beat(82500), Reaction::Send(Outbound::Heartbeat { sequence: None })));
}

#[test]
fn end_to_end_out_of_order_sequence_does_not_regress() {
    let mut gateway = connected();
    let first = r#"{"op":0,"d":{"content":"a"},"s":3,"t":"MESSAGE_CREATE"}"#;
    let second = r#"{"op":0,"d":{"content":"b"},"s":2,"t":"MESSAGE_CREATE"}"#;
    assert!(matches!(gateway.poll_event(text(first)), Ok(Action::Deliver(_))));
    assert_eq!(gateway.sequence(), Some(3));
    assert!(matches!(gateway.poll_event(text(second)), Ok(Action::Deliver(_))));
    assert_eq!(gateway.sequence(), Some(3));
    match gateway.heart_beat(41250) {
        Reaction::Send(outbound) => {
            assert_eq!(encode(outbound.to_event()).unwrap(), r#"{"op":1,"d":3}"#)
        },
        other => panic!("unexpected {:?}", other),
    }
}

#[test]
fn the_sequence_counter_is_the_highest_seen() {
    let mut gateway = connected();
    let mut highest = 1u32;
    for s in [5u32, 2, 9, 9, 0, 7, 100, 3, 4_000_000_000, 12] {
        let frame = format!(r#"{{"op":0,"d":null,"s":{},"t":"TYPING_START"}}"#, s);
        assert!(matches!(gateway.poll_event(text(&frame)), Ok(Action::Deliver(_))));
        highest = highest.max(s);
        assert_eq!(gateway.sequence(), Some(highest));
    }
    assert!(matches!(gateway.poll_event(text(r#"{"op":0,"d":null}"#)), Ok(Action::Deliver(_))));
    assert_eq!(gateway.sequence(), Some(highest));
    assert!(matches!(gateway.poll_event(text(r#"{"op":11}"#)), Ok(Action::Nothing)));
    assert_eq!(gateway.sequence(), Some(highest));
}

#[test]
fn a_malformed_frame_between_two_events_changes_nothing() {
    let mut gateway = connected();
    let mut twin = connected();
    let first = r#"{"op":0,"d":{"content":"a"},"s":2,"t":"MESSAGE_CREATE"}"#;
    let second = r#"{"op":0,"d":{"content":"b"},"s":3,"t":"MESSAGE_CREATE"}"#;
    let mut delivered = Vec::new();
    for frame in [first, "{not json", second] {
        match gateway.poll_event(text(frame)) {
            Ok(Action::Deliver(event)) => delivered.push(event.sequence),
            Ok(Action::Discard(error)) => assert_eq!(error, DecodeError::Malformed),
            other => panic!("unexpected {:?}", other),
        }
        assert_eq!(gateway.phase(), Phase::Connected);
        assert!(!gateway.is_closed());
    }
    assert_eq!(delivered, vec![Some(2), Some(3)]);
    for frame in [first, second] {
        assert!(matches!(twin.poll_event(text(frame)), Ok(Action::Deliver(_))));
    }
    assert_eq!(format!("{:?}", gateway), format!("{:?}", twin));
}

#[test]
fn every_kind_of_bad_frame_is_dropped() {
    let mut gateway = connected();
    let before = format!("{:?}", gateway);
    for (frame, error) in [
        ("", DecodeError::Malformed),
        ("{}", DecodeError::MissingOpcode),
        (r#"{"op":99}"#, DecodeError::UnknownOpcode),
        (r#"{"op":0,"s":"1"}"#, DecodeError::InvalidSequence),
        (r#"{"op":0,"s":1,"t":1}"#, DecodeError::InvalidEventType),
    ] {
        match gateway.poll_event(text(frame)) {
            Ok(Action::Discard(found)) => assert_eq!(found, error),
            other => panic!("unexpected {:?}", other),
        }
        assert_eq!(format!("{:?}", gateway), before);
    }
}

#[test]
fn an_idle_poll_changes_nothing() {
    let mut gateway = connected();
    let before = format!("{:?}", gateway);
    assert!(matches!(gateway.poll_event(Frame::Idle), Ok(Action::Nothing)));
    assert_eq!(format!("{:?}", gateway), before);
}

#[test]
fn the_server_can_ask_for_a_heartbeat() {
    let mut gateway = connected();
    assert!(matches!(
        gateway.poll_event(text(r#"{"op":1,"d":null}"#)),
        Ok(Action::Send(Outbound::Heartbeat { sequence: Some(1) }))
    ));
    let mut gateway = greeted();
    assert!(matches!(
        gateway.poll_event(text(r#"{"op":1}"#)),
        Ok(Action::Send(Outbound::Heartbeat { sequence: None }))
    ));
    assert_eq!(gateway.phase(), Phase::AwaitingHello);
}

#[test]
fn two_unanswered_heartbeats_end_the_connection() {
    let mut gateway = connected();
    assert!(matches!(gateway.heart_beat(41250), Reaction::Send(_)));
    gateway.heartbeat_sent(41250);
    assert!(matches!(gateway.heart_beat(82500), Reaction::Send(_)));
    gateway.heartbeat_sent(82500);
    assert!(matches!(gateway.heart_beat(123749), Reaction::Nothing));
    assert!(matches!(gateway.heart_beat(123750), Reaction::Close));
    assert!(gateway.is_closed());
    assert_eq!(gateway.phase(), Phase::Resuming);
    assert_eq!(gateway.sequence(), Some(1));
    assert_eq!(gateway.heartbeat_interval(), 0);
}

#[test]
fn an_acknowledged_heartbeat_keeps_the_connection() {
    let mut gateway = connected();
    let mut now = 0u64;
    for _ in 0..10 {
        now += 41250;
        assert!(matches!(gateway.heart_beat(now), Reaction::Send(_)));
        gateway.heartbeat_sent(now);
        assert!(matches!(gateway.poll_event(text(r#"{"op":11}"#)), Ok(Action::Nothing)));
    }
    assert_eq!(gateway.phase(), Phase::Connected);
}

#[test]
fn a_resumable_closure_resumes_with_the_last_sequence() {
    for closure in [Frame::Closed(None), close_frame(1006), close_frame(4000), Frame::Failed] {
        let mut gateway = connected();
        gateway.poll_event(text(r#"{"op":0,"d":{},"s":41,"t":"MESSAGE_CREATE"}"#)).unwrap();
        assert!(matches!(gateway.poll_event(closure), Err(DiscordGatewayError::SocketClosed(_))));
        assert!(gateway.is_closed());
        assert_eq!(gateway.phase(), Phase::Resuming);
        assert_eq!(gateway.sequence(), Some(41));
        assert_eq!(gateway.session_id(), Some("abc".to_string()));
        let endpoint = gateway.connect().unwrap();
        assert_eq!(endpoint.url(), "wss://resume.example/?v=10&encoding=json");
        assert_eq!(gateway.phase(), Phase::Connecting);
        let resume = match gateway.poll_event(text(HELLO)) {
            Ok(Action::Send(outbound)) => outbound,
            other => panic!("unexpected {:?}", other),
        };
        assert!(matches!(resume, Outbound::Resume { .. }));
        assert_eq!(
            encode(resume.to_event()).unwrap(),
            r#"{"op":6,"d":{"token":"secret","session_id":"abc","seq":41}}"#
        );
        gateway.handshake_sent();
        assert_eq!(gateway.phase(), Phase::Resuming);
        assert!(!gateway.is_closed());
        let replay = r#"{"op":0,"d":{},"s":42,"t":"MESSAGE_CREATE"}"#;
        assert!(matches!(gateway.poll_event(text(replay)), Ok(Action::Deliver(_))));
        assert_eq!(gateway.phase(), Phase::Resuming);
        let resumed = r#"{"op":0,"d":{},"s":43,"t":"RESUMED"}"#;
        assert!(matches!(gateway.poll_event(text(resumed)), Ok(Action::Deliver(_))));
        assert_eq!(gateway.phase(), Phase::Connected);
        assert_eq!(gateway.sequence(), Some(43));
    }
}

#[test]
fn the_close_frame_comes_back_in_the_error() {
    let mut gateway = connected();
    match gateway.poll_event(close_frame(4000)) {
        Err(DiscordGatewayError::SocketClosed(Some(frame))) => {
            assert_eq!(frame.code, 4000);
            assert_eq!(frame.reason, "bye");
        },
        other => panic!("unexpected {:?}", other),
    }
    let mut gateway = connected();
    assert!(matches!(
        gateway.poll_event(Frame::Closed(None)),
        Err(DiscordGatewayError::SocketClosed(None))
    ));
}

#[test]
fn a_non_resumable_closure_clears_the_session() {
    for code in [4004u16, 4007, 4009, 4010, 4011, 4012, 4013, 4014] {
        let mut gateway = connected();
        gateway.poll_event(text(r#"{"op":0,"d":{},"s":41,"t":"MESSAGE_CREATE"}"#)).unwrap();
        assert!(matches!(
            gateway.poll_event(close_frame(code)),
            Err(DiscordGatewayError::SocketClosed(Some(_)))
        ));
        assert!(gateway.is_closed());
        assert_eq!(gateway.phase(), Phase::Disconnected);
        assert_eq!(gateway.sequence(), None);
        assert_eq!(gateway.session_id(), None);
        assert!(!gateway.can_resume());
        assert!(matches!(gateway.connect(), Some(Endpoint::Default)));
        match gateway.poll_event(text(HELLO)) {
            Ok(Action::Send(Outbound::Identify { token, intents })) => {
                assert_eq!((token.as_str(), intents), ("secret", 512));
            },
            other => panic!("unexpected {:?}", other),
        }
        gateway.handshake_sent();
        assert_eq!(gateway.phase(), Phase::Identifying);
    }
}

#[test]
fn a_closure_before_ready_cannot_be_resumed() {
    let mut gateway = identifying();
    assert!(matches!(
        gateway.poll_event(Frame::Closed(None)),
        Err(DiscordGatewayError::SocketClosed(None))
    ));
    assert_eq!(gateway.phase(), Phase::Disconnected);
    assert!(matches!(gateway.connect(), Some(Endpoint::Default)));
}

#[test]
fn the_server_can_ask_to_reconnect() {
    let mut gateway = connected();
    assert!(matches!(gateway.poll_event(text(r#"{"op":7,"d":null}"#)), Ok(Action::Close)));
    assert!(gateway.is_closed());
    assert_eq!(gateway.phase(), Phase::Resuming);
    assert_eq!(gateway.sequence(), Some(1));
    assert!(matches!(gateway.connect(), Some(Endpoint::Resume(_))));
}

#[test]
fn an_invalid_session_ends_as_its_flag_says() {
    let mut gateway = connected();
    assert!(matches!(gateway.poll_event(text(r#"{"op":9,"d":true}"#)), Ok(Action::Close)));
    assert_eq!(gateway.phase(), Phase::Resuming);
    assert!(gateway.can_resume());
    for frame in [r#"{"op":9,"d":false}"#, r#"{"op":9}"#, r#"{"op":9,"d":null}"#, r#"{"op":9,"d":1}"#] {
        let mut gateway = connected();
        assert!(matches!(gateway.poll_event(text(frame)), Ok(Action::Close)), "{}", frame);
        assert_eq!(gateway.phase(), Phase::Disconnected);
        assert!(!gateway.can_resume());
        assert_eq!(gateway.sequence(), None);
    }
}

#[test]
fn opcodes_with_no_place_end_the_session() {
    for frame in [HELLO, r#"{"op":2}"#, r#"{"op":6}"#, r#"{"op":10}"#] {
        let mut gateway = connected();
        assert!(
            matches!(
                gateway.poll_event(text(frame)),
                Err(DiscordGatewayError::Protocol(ProtocolError::UnexpectedOpcode))
            ),
            "{}",
            frame
        );
        assert_eq!(gateway.phase(), Phase::Disconnected);
        assert!(!gateway.can_resume());
    }
}

#[test]
fn a_failed_send_ends_the_connection_resumably() {
    let mut gateway = connected();
    match gateway.send_failed("broken pipe".to_string()) {
        DiscordGatewayError::SendFail(reason) => assert_eq!(reason, "broken pipe"),
        other => panic!("unexpected {:?}", other),
    }
    assert!(gateway.is_closed());
    assert_eq!(gateway.phase(), Phase::Resuming);
    let mut gateway = greeted();
    gateway.send_failed("x".to_string());
    assert_eq!(gateway.phase(), Phase::Disconnected);
}

#[test]
fn a_failed_reconnect_keeps_waiting_to_resume() {
    let mut gateway = connected();
    gateway.poll_event(Frame::Closed(None)).unwrap_err();
    assert!(gateway.connect().is_some());
    assert!(matches!(gateway.connect_failed(), DiscordGatewayError::ConnectionFail));
    assert_eq!(gateway.phase(), Phase::Resuming);
    assert!(gateway.is_closed());
    assert!(matches!(gateway.connect(), Some(Endpoint::Resume(_))));
}

#[test]
fn shutting_down_is_terminal() {
    let mut gateway = connected();
    assert!(gateway.close());
    assert_eq!(gateway.phase(), Phase::Closing);
    assert!(!gateway.is_closed());
    assert!(gateway.close());
    assert_eq!(gateway.phase(), Phase::Closing);
    assert!(matches!(gateway.heart_beat(u64::MAX), Reaction::Nothing));
    let event = r#"{"op":0,"d":{},"s":50,"t":"MESSAGE_CREATE"}"#;
    assert!(matches!(gateway.poll_event(text(event)), Ok(Action::Nothing)));
    assert_eq!(gateway.sequence(), Some(1));
    assert!(matches!(
        gateway.poll_event(Frame::Closed(None)),
        Err(DiscordGatewayError::SocketClosed(None))
    ));
    assert_eq!(gateway.phase(), Phase::Disconnected);
    assert!(gateway.is_closed());
    assert!(!gateway.can_resume());
    assert_eq!(gateway.sequence(), None);
    assert!(!gateway.close());
    assert_eq!(gateway.phase(), Phase::Disconnected);
}

#[test]
fn shutting_down_while_waiting_to_resume_drops_the_session() {
    let mut gateway = connected();
    gateway.poll_event(Frame::Closed(None)).unwrap_err();
    assert_eq!(gateway.phase(), Phase::Resuming);
    assert!(!gateway.close());
    assert_eq!(gateway.phase(), Phase::Disconnected);
    assert!(!gateway.can_resume());
}

#[test]
fn events_reach_the_handler_of_their_tag() {
    let cases = [
        (r#"{"op":0,"d":{},"s":2,"t":"MESSAGE_CREATE"}"#, Handler::MessageCreate),
        (r#"{"op":0,"d":{},"s":2,"t":"READY"}"#, Handler::Ready),
        (r#"{"op":0,"d":{},"s":2,"t":"RESUMED"}"#, Handler::Resumed),
        (r#"{"op":0,"d":{},"s":2,"t":"HELLO"}"#, Handler::Hello),
        (r#"{"op":0,"d":{},"s":2,"t":"GUILD_CREATE"}"#, Handler::Untyped),
        (r#"{"op":0,"d":{},"s":2}"#, Handler::Untyped),
    ];
    for (frame, handler) in cases {
        let mut gateway = connected();
        match gateway.poll_event(text(frame)) {
            Ok(Action::Deliver(event)) => assert_eq!(route(&event), Some(handler)),
            other => panic!("unexpected {:?}", other),
        }
        assert_eq!(gateway.phase(), Phase::Connected);
        assert_eq!(gateway.session_id(), Some("abc".to_string()));
    }
    assert_eq!(route(&decode(HELLO).unwrap()), None);
    assert_eq!(route(&decode(r#"{"op":11}"#).unwrap()), None);
}

#[test]
fn envelopes_are_classified_by_opcode_tag_and_payload() {
    assert!(matches!(
        classify(&decode(HELLO).unwrap()),
        Signal::Hello { heartbeat_interval: 41250 }
    ));
    assert!(matches!(classify(&decode(r#"{"op":10,"d":{}}"#).unwrap()), Signal::MalformedHello));
    match classify(&decode(READY).unwrap()) {
        Signal::Ready { session_id, resume_url } => {
            assert_eq!(session_id, "abc");
            assert_eq!(resume_url, "wss://resume.example");
        },
        other => panic!("unexpected {:?}", other),
    }
    assert!(matches!(
        classify(&decode(r#"{"op":0,"t":"READY","d":[]}"#).unwrap()),
        Signal::MalformedReady
    ));
    assert!(matches!(classify(&decode(r#"{"op":0,"t":"RESUMED"}"#).unwrap()), Signal::Resumed));
    assert!(matches!(classify(&decode(r#"{"op":0,"t":"X"}"#).unwrap()), Signal::Event));
    assert!(matches!(classify(&decode(r#"{"op":0}"#).unwrap()), Signal::Event));
    assert!(matches!(classify(&decode(r#"{"op":1}"#).unwrap()), Signal::HeartbeatRequest));
    assert!(matches!(classify(&decode(r#"{"op":11}"#).unwrap()), Signal::HeartbeatAck));
    assert!(matches!(classify(&decode(r#"{"op":7}"#).unwrap()), Signal::Reconnect));
    assert!(matches!(
        classify(&decode(r#"{"op":9,"d":true}"#).unwrap()),
        Signal::InvalidSession { resumable: true }
    ));
    assert!(matches!(
        classify(&decode(r#"{"op":9,"d":false}"#).unwrap()),
        Signal::InvalidSession { resumable: false }
    ));
    assert!(matches!(classify(&decode(r#"{"op":2}"#).unwrap()), Signal::Unexpected));
    assert!(matches!(classify(&decode(r#"{"op":6}"#).unwrap()), Signal::Unexpected));
}

#[test]
fn receiving_an_envelope_is_polling_its_text() {
    let mut gateway = connected();
    let event = decode(r#"{"op":0,"d":{"x":1},"s":8,"t":"MESSAGE_CREATE"}"#).unwrap();
    match gateway.receive(event) {
        Ok(Action::Deliver(event)) => {
            assert_eq!(event.opcode, Opcode::Dispatch);
            assert_eq!(event.sequence, Some(8));
            assert_eq!(event.data.unwrap()["x"].as_u64(), Some(1));
        },
        other => panic!("unexpected {:?}", other),
    }
    assert_eq!(gateway.sequence(), Some(8));
    assert!(matches!(gateway.apply(Some(6), Signal::Event), Ok(Reaction::Deliver)));
    assert_eq!(gateway.sequence(), Some(8));
    assert!(matches!(gateway.apply(Some(11), Signal::HeartbeatAck), Ok(Reaction::Nothing)));
    assert_eq!(gateway.sequence(), Some(11));
}

#[test]
fn reconnects_are_spaced_out_and_bounded() {
    let mut gateway = new_gateway();
    let mut waits = Vec::new();
    loop {
        assert!(gateway.connect().is_some());
        gateway.connect_failed();
        match gateway.retry_delay(0) {
            Some(wait) => waits.push(wait),
            None => break,
        }
    }
    assert_eq!(waits, vec![1000, 2000, 4000, 8000, 16000]);
    assert_eq!(gateway.attempts(), 5);
    assert_eq!(gateway.retry_delay(0), None);
}

#[test]
fn an_established_session_rewinds_the_backoff() {
    let mut gateway = new_gateway();
    assert_eq!(gateway.retry_delay(0), Some(1000));
    assert_eq!(gateway.retry_delay(0), Some(2000));
    gateway.connect();
    gateway.poll_event(text(HELLO)).unwrap();
    gateway.handshake_sent();
    assert_eq!(gateway.attempts(), 2);
    gateway.poll_event(text(READY)).unwrap();
    assert_eq!(gateway.attempts(), 0);
    gateway.poll_event(Frame::Closed(None)).unwrap_err();
    assert_eq!(gateway.retry_delay(7), Some(1000 - 7));
    assert_eq!(gateway.retry_delay(0), Some(2000));
    gateway.connect();
    gateway.poll_event(text(HELLO)).unwrap();
    gateway.handshake_sent();
    assert_eq!(gateway.attempts(), 2);
    gateway.poll_event(text(r#"{"op":0,"d":{},"s":2,"t":"MESSAGE_CREATE"}"#)).unwrap();
    assert_eq!(gateway.attempts(), 2);
    gateway.poll_event(text(r#"{"op":0,"d":{},"s":3,"t":"RESUMED"}"#)).unwrap();
    assert_eq!(gateway.attempts(), 0);
}

#[test]
fn what_was_sent_moves_the_session_on() {
    let mut gateway = greeted();
    gateway.sent(Opcode::Dispatch, 5);
    gateway.sent(Opcode::HeartbeatAck, 5);
    assert_eq!(gateway.phase(), Phase::AwaitingHello);
    gateway.sent(Opcode::Heartbeat, 41250);
    assert_eq!(gateway.phase(), Phase::AwaitingHello);
    assert!(matches!(gateway.heart_beat(82499), Reaction::Nothing));
    assert!(matches!(gateway.heart_beat(82500), Reaction::Send(_)));
    gateway.sent(Opcode::Identify, 41251);
    assert_eq!(gateway.phase(), Phase::Identifying);
    assert!(matches!(gateway.heart_beat(82500), Reaction::Send(_)));
}
