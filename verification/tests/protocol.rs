//! End-to-end checks of the protocol core: framing, the envelope codec,
//! the handshake decision, dispatch, and the session state machine.

use userhub::SessionError;
use userhub::envelope::{
    SocketMessage, SocketMessageTarget, SocketMessageType, decode_envelope, encode_envelope,
};
use userhub::frames::decode_frames;
use userhub::registry::{MessageRequest, MessageResponse, resolve};
use userhub::session::{HandshakeError, SessionCore, SessionState, frame_text};

const TERM: &str = "\u{1e}";

fn minimal_subscription_status_payload() -> String {
    "{\"ConnectionId\":\"conn-1\",\"SequenceNumber\":7,\"MillisecondsBeforeHandlingReconnect\":4000,\"NamespaceSequenceNumbers\":{\"ChatNotifications\":12}}".to_string()
}

fn open_session() -> SessionCore {
    let mut core = SessionCore::new();
    let request = core.start_handshake();
    assert_eq!(request, format!("{}{}", "{\"protocol\":\"json\",\"version\":1}", TERM));
    core.on_handshake_message(&format!("{{}}{}", TERM)).unwrap();
    assert_eq!(core.state, SessionState::Open);
    core
}

#[test]
fn frame_splitting_counts_and_order() {
    let empty = decode_frames("");
    assert_eq!(empty.len(), 0);

    let one = decode_frames(&format!("{{\"type\":6}}{}", TERM));
    assert_eq!(one, vec!["{\"type\":6}".to_string()]);

    let two = decode_frames(&format!("{{\"a\":1}}{}{{\"b\":2}}{}", TERM, TERM));
    assert_eq!(two, vec!["{\"a\":1}".to_string(), "{\"b\":2}".to_string()]);

    // An unterminated tail still forms a frame; an interior empty
    // document is kept, a trailing one is not.
    let tail = decode_frames(&format!("{}x", TERM));
    assert_eq!(tail, vec!["".to_string(), "x".to_string()]);
}

#[test]
fn envelope_round_trip_ping() {
    let ping = SocketMessage { kind: SocketMessageType::Ping, target: None, arguments: None };
    let frame = encode_envelope(&ping);
    assert_eq!(frame, format!("{{\"type\":6}}{}", TERM));
    let frames = decode_frames(&frame);
    assert_eq!(frames.len(), 1);
    let back = decode_envelope(&frames[0]).unwrap();
    assert_eq!(back, ping);
}

#[test]
fn envelope_round_trip_invocation_with_escapes() {
    let inv = SocketMessage {
        kind: SocketMessageType::Invocation,
        target: Some(SocketMessageTarget::SubscriptionStatus),
        arguments: Some(vec![
            "ignored".to_string(),
            "{\"ConnectionId\":\"a\\\\b\"}".to_string(),
        ]),
    };
    let frame = encode_envelope(&inv);
    let frames = decode_frames(&frame);
    assert_eq!(frames.len(), 1);
    let back = decode_envelope(&frames[0]).unwrap();
    assert_eq!(back, inv);
}

#[test]
fn envelope_round_trip_control_characters() {
    // Control characters in an argument are escaped, so they can never
    // break the framing, and they come back intact.
    let inv = SocketMessage {
        kind: SocketMessageType::Invocation,
        target: Some(SocketMessageTarget::CommunicationChannels),
        arguments: Some(vec!["ignored".to_string(), "tab\there\u{1e}and more".to_string()]),
    };
    let frame = encode_envelope(&inv);
    let frames = decode_frames(&frame);
    assert_eq!(frames.len(), 1);
    let back = decode_envelope(&frames[0]).unwrap();
    assert_eq!(back, inv);
}

#[test]
fn envelope_decode_rejects_malformed() {
    assert_eq!(decode_envelope("not json"), Err(SessionError::Parse));
    assert_eq!(decode_envelope("{\"target\":\"subscriptionStatus\"}"), Err(SessionError::Parse));
    assert_eq!(decode_envelope("{\"type\":3}"), Err(SessionError::Parse));
    assert_eq!(decode_envelope("{\"type\":1,\"target\":7}"), Err(SessionError::Parse));
}

#[test]
fn envelope_unknown_target_is_ignorable() {
    // A target name the client does not recognize decodes as no target,
    // so the invocation is skipped without aborting the batch.
    let m = decode_envelope("{\"type\":1,\"target\":\"unknownTarget\"}").unwrap();
    assert_eq!(m.kind, SocketMessageType::Invocation);
    assert_eq!(m.target, None);
    assert_eq!(resolve(&m), Ok(None));
}

#[test]
fn handshake_acceptance() {
    // A null error accepts.
    let mut core = SessionCore::new();
    core.start_handshake();
    assert_eq!(core.on_handshake_message(&format!("{{\"error\":null}}{}", TERM)), Ok(()));
    assert_eq!(core.state, SessionState::Open);

    // An absent error field accepts too.
    let mut core = SessionCore::new();
    core.start_handshake();
    assert_eq!(core.on_handshake_message(&format!("{{}}{}", TERM)), Ok(()));
    assert_eq!(core.state, SessionState::Open);

    // Any non-null error rejects.
    let mut core = SessionCore::new();
    core.start_handshake();
    assert_eq!(
        core.on_handshake_message(&format!("{{\"error\":\"unsupported\"}}{}", TERM)),
        Err(HandshakeError::Rejected)
    );
    assert_eq!(core.state, SessionState::Closed);

    // A response that is not a handshake document is malformed.
    let mut core = SessionCore::new();
    core.start_handshake();
    assert_eq!(
        core.on_handshake_message(&format!("garbage{}", TERM)),
        Err(HandshakeError::MalformedResponse)
    );

    // The stream ending first is its own failure.
    let mut core = SessionCore::new();
    core.start_handshake();
    assert_eq!(core.on_handshake_stream_end(), HandshakeError::StreamClosed);
    assert_eq!(core.state, SessionState::Closed);

    // A non-text transport message is treated as malformed.
    let mut core = SessionCore::new();
    core.start_handshake();
    assert_eq!(core.on_handshake_non_text(), HandshakeError::MalformedResponse);
}

#[test]
fn dispatch_subscription_status() {
    let inv = SocketMessage {
        kind: SocketMessageType::Invocation,
        target: Some(SocketMessageTarget::SubscriptionStatus),
        arguments: Some(vec!["ignored".to_string(), minimal_subscription_status_payload()]),
    };
    let resolved = resolve(&inv).unwrap();
    match resolved {
        Some(MessageResponse::SubscriptionStatus(p)) => {
            assert_eq!(p.connection_id, "conn-1");
            assert_eq!(p.sequence_number, 7);
            assert_eq!(p.milliseconds_before_handling_reconnect, 4000);
            assert_eq!(p.namespace_sequence_numbers.chat_notifications, Some(12));
            assert_eq!(p.namespace_sequence_numbers.voice_notifications, None);
        }
        other => panic!("unexpected dispatch result: {:?}", other),
    }
}

#[test]
fn dispatch_unrecognized_target_is_silent() {
    let inv = SocketMessage {
        kind: SocketMessageType::Invocation,
        target: None,
        arguments: None,
    };
    assert_eq!(resolve(&inv), Ok(None));
}

#[test]
fn dispatch_missing_payload_argument_fails() {
    let inv = SocketMessage {
        kind: SocketMessageType::Invocation,
        target: Some(SocketMessageTarget::SubscriptionStatus),
        arguments: Some(vec!["ignored".to_string()]),
    };
    assert_eq!(resolve(&inv), Err(SessionError::Decode));

    let inv = SocketMessage {
        kind: SocketMessageType::Invocation,
        target: Some(SocketMessageTarget::SubscriptionStatus),
        arguments: None,
    };
    assert_eq!(resolve(&inv), Err(SessionError::Decode));
}

#[test]
fn dispatch_bad_payload_field_fails() {
    let inv = SocketMessage {
        kind: SocketMessageType::Invocation,
        target: Some(SocketMessageTarget::SubscriptionStatus),
        arguments: Some(vec![
            "ignored".to_string(),
            "{\"ConnectionId\":5}".to_string(),
        ]),
    };
    assert_eq!(resolve(&inv), Err(SessionError::Decode));

    let inv = SocketMessage {
        kind: SocketMessageType::Invocation,
        target: Some(SocketMessageTarget::SubscriptionStatus),
        arguments: Some(vec!["ignored".to_string(), "not json".to_string()]),
    };
    assert_eq!(resolve(&inv), Err(SessionError::Parse));
}

#[test]
fn ping_request_wire_form() {
    let core = open_session();
    let frame = core.encode_request(&MessageRequest::Ping);
    assert_eq!(frame, format!("{{\"type\":6}}{}", TERM));
}

#[test]
fn send_text_appends_terminator() {
    assert_eq!(frame_text("abc"), format!("abc{}", TERM));
    assert_eq!(frame_text(""), TERM);
}

#[test]
fn read_scenario_two_frames() {
    let core = open_session();
    let inv = SocketMessage {
        kind: SocketMessageType::Invocation,
        target: Some(SocketMessageTarget::SubscriptionStatus),
        arguments: Some(vec!["ignored".to_string(), minimal_subscription_status_payload()]),
    };
    let transport = format!("{{\"type\":6}}{}{}", TERM, encode_envelope(&inv));
    let batch = core.on_text_message(&transport).unwrap();
    assert_eq!(batch.len(), 2);
    assert_eq!(batch[0], MessageResponse::Ping);
    match &batch[1] {
        MessageResponse::SubscriptionStatus(p) => {
            assert_eq!(p.connection_id, "conn-1");
            assert_eq!(p.sequence_number, 7);
        }
        other => panic!("unexpected second message: {:?}", other),
    }
}

#[test]
fn read_batch_fails_fast_on_bad_frame() {
    let core = open_session();
    let transport = format!("{{\"type\":6}}{}broken{}", TERM, TERM);
    assert_eq!(core.on_text_message(&transport), Err(SessionError::Parse));
}

#[test]
fn read_skips_unrecognized_invocations() {
    let core = open_session();
    let transport = format!("{{\"type\":1}}{}{{\"type\":6}}{}", TERM, TERM);
    let batch = core.on_text_message(&transport).unwrap();
    assert_eq!(batch, vec![MessageResponse::Ping]);

    // An invocation naming an event the client does not recognize is
    // dropped just as silently; the rest of the batch survives.
    let transport = format!(
        "{{\"type\":1,\"target\":\"somethingNew\",\"arguments\":[\"a\",\"b\"]}}{}{{\"type\":6}}{}",
        TERM, TERM
    );
    let batch = core.on_text_message(&transport).unwrap();
    assert_eq!(batch, vec![MessageResponse::Ping]);
}

#[test]
fn idempotent_close() {
    let mut core = open_session();
    assert!(core.close());
    assert_eq!(core.state, SessionState::Closed);
    // A second close is a no-op: still closed, no close frame owed.
    assert!(!core.close());
    assert_eq!(core.state, SessionState::Closed);
}
