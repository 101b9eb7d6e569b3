use gateway::events::EventType;
use gateway::events::GatewayEvent;
use gateway::events::Transport;
use gateway::multiplexer::run_session;
use gateway::multiplexer::SessionOutput;
use gateway::session::ChannelInput;
use gateway::session::Phase;
use gateway::session::ReplyAction;
use gateway::session::Session;
use gateway::session::StepResult;

fn expect_emit(o: &SessionOutput) -> &GatewayEvent {
    match o {
        SessionOutput::Emit(e) => e,
        SessionOutput::Reply(_) => panic!("expected an emitted event"),
    }
}

fn expect_reply(o: &SessionOutput) -> &ReplyAction {
    match o {
        SessionOutput::Reply(r) => r,
        SessionOutput::Emit(_) => panic!("expected a reply"),
    }
}

#[test]
fn bi_stream_hello_scenario() {
    let id = b"11111111-2222-3333-4444-555555555555".to_vec();
    let log = run_session(
        id.clone(),
        vec![ChannelInput::BiPayload(b"hello from browser".to_vec())],
        b"client disconnected".to_vec(),
    );
    assert_eq!(log.len(), 4);

    let connected = expect_emit(&log[0]);
    assert_eq!(connected.event_type, EventType::Connected);
    assert_eq!(connected.connection_id, id);
    assert_eq!(connected.transport, Transport::Session);
    assert!(connected.payload.is_none());

    let msg = expect_emit(&log[1]);
    assert_eq!(msg.event_type, EventType::MessageReceived);
    assert_eq!(msg.connection_id, id);
    assert_eq!(msg.transport, Transport::Bi);
    assert_eq!(msg.payload.as_deref(), Some(b"hello from browser".as_slice()));

    match expect_reply(&log[2]) {
        ReplyAction::WriteSameStream(b) => assert_eq!(b, &b"ACK".to_vec()),
        _ => panic!("bidirectional payloads are answered on the same stream"),
    }

    let disc = expect_emit(&log[3]);
    assert_eq!(disc.event_type, EventType::Disconnected);
    assert_eq!(disc.connection_id, id);
    assert_eq!(disc.transport, Transport::Session);
    assert_eq!(disc.payload.as_deref(), Some(b"client disconnected".as_slice()));
}

#[test]
fn uni_stream_replies_on_new_uni_stream() {
    let id = b"id-uni".to_vec();
    let log = run_session(
        id.clone(),
        vec![ChannelInput::UniPayload(b"one way".to_vec())],
        b"done".to_vec(),
    );
    assert_eq!(log.len(), 4);
    let msg = expect_emit(&log[1]);
    assert_eq!(msg.transport, Transport::Uni);
    assert_eq!(msg.payload.as_deref(), Some(b"one way".as_slice()));
    match expect_reply(&log[2]) {
        ReplyAction::OpenUniAndWrite(b) => assert_eq!(b, &b"ACK".to_vec()),
        _ => panic!("unidirectional payloads are answered on a new unidirectional stream"),
    }
}

#[test]
fn datagram_replies_with_one_ack_datagram() {
    let id = b"id-dgram".to_vec();
    let log = run_session(
        id.clone(),
        vec![ChannelInput::DatagramPayload(b"ping".to_vec())],
        b"done".to_vec(),
    );
    assert_eq!(log.len(), 4);
    let msg = expect_emit(&log[1]);
    assert_eq!(msg.transport, Transport::Datagram);
    match expect_reply(&log[2]) {
        ReplyAction::SendDatagram(b) => assert_eq!(b, &b"ACK".to_vec()),
        _ => panic!("datagram payloads are answered with a new datagram"),
    }
    let replies = log
        .iter()
        .filter(|o| matches!(o, SessionOutput::Reply(_)))
        .count();
    assert_eq!(replies, 1);
}

#[test]
fn invalid_utf8_terminates_session() {
    let id = b"id-bad".to_vec();
    let log = run_session(
        id.clone(),
        vec![
            ChannelInput::BiPayload(b"fine".to_vec()),
            ChannelInput::DatagramPayload(vec![0xff, 0xfe]),
            ChannelInput::BiPayload(b"never handled".to_vec()),
        ],
        b"unused".to_vec(),
    );
    // connected, one echoed message with its reply, then disconnected.
    assert_eq!(log.len(), 4);
    let disc = expect_emit(&log[3]);
    assert_eq!(disc.event_type, EventType::Disconnected);
    assert_eq!(disc.payload.as_deref(), Some(b"invalid utf-8 payload".as_slice()));
}

#[test]
fn closed_streams_are_skipped() {
    let id = b"id-skip".to_vec();
    let log = run_session(
        id.clone(),
        vec![
            ChannelInput::BiClosed,
            ChannelInput::UniClosed,
            ChannelInput::BiPayload(b"x".to_vec()),
        ],
        b"bye".to_vec(),
    );
    assert_eq!(log.len(), 4);
    let msg = expect_emit(&log[1]);
    assert_eq!(msg.transport, Transport::Bi);
}

#[test]
fn connected_once_first_disconnected_once_last() {
    let id = b"id-order".to_vec();
    let log = run_session(
        id.clone(),
        vec![
            ChannelInput::DatagramPayload(b"a".to_vec()),
            ChannelInput::BiClosed,
            ChannelInput::UniPayload(b"b".to_vec()),
            ChannelInput::BiPayload(b"c".to_vec()),
        ],
        b"closed".to_vec(),
    );
    let mut connected_at = Vec::new();
    let mut disconnected_at = Vec::new();
    for (k, o) in log.iter().enumerate() {
        if let SessionOutput::Emit(e) = o {
            assert_eq!(e.connection_id, id);
            match e.event_type {
                EventType::Connected => connected_at.push(k),
                EventType::Disconnected => disconnected_at.push(k),
                EventType::MessageReceived => {
                    assert!(!connected_at.is_empty());
                    assert!(disconnected_at.is_empty());
                }
            }
        }
    }
    assert_eq!(connected_at, vec![0]);
    assert_eq!(disconnected_at, vec![log.len() - 1]);
}

#[test]
fn fifty_concurrent_sessions_no_cross_delivery() {
    let mut logs = Vec::new();
    for k in 0..50 {
        let id = format!("session-{k}").into_bytes();
        let payload = format!("datagram payload {k}").into_bytes();
        logs.push((
            id.clone(),
            payload.clone(),
            run_session(
                id,
                vec![ChannelInput::DatagramPayload(payload)],
                b"done".to_vec(),
            ),
        ));
    }
    for (id, payload, log) in &logs {
        assert_eq!(log.len(), 4);
        for o in log {
            if let SessionOutput::Emit(e) = o {
                assert_eq!(&e.connection_id, id);
            }
        }
        let msg = expect_emit(&log[1]);
        assert_eq!(msg.payload.as_deref(), Some(payload.as_slice()));
        match expect_reply(&log[2]) {
            ReplyAction::SendDatagram(b) => assert_eq!(b, &b"ACK".to_vec()),
            _ => panic!("datagram payloads are answered with a new datagram"),
        }
    }
}

#[test]
fn empty_payload_is_echoed() {
    let id = b"id-empty".to_vec();
    let log = run_session(
        id.clone(),
        vec![ChannelInput::DatagramPayload(Vec::new())],
        b"done".to_vec(),
    );
    assert_eq!(log.len(), 4);
    let msg = expect_emit(&log[1]);
    assert_eq!(msg.payload.as_deref(), Some(b"".as_slice()));
    match expect_reply(&log[2]) {
        ReplyAction::SendDatagram(b) => assert_eq!(b, &b"ACK".to_vec()),
        _ => panic!("datagram payloads are answered with a new datagram"),
    }
}

#[test]
fn full_buffer_payload_is_echoed() {
    let id = b"id-big".to_vec();
    let payload = vec![b'a'; 65536];
    let log = run_session(
        id.clone(),
        vec![ChannelInput::BiPayload(payload.clone())],
        b"done".to_vec(),
    );
    assert_eq!(log.len(), 4);
    let msg = expect_emit(&log[1]);
    assert_eq!(msg.payload.as_deref(), Some(payload.as_slice()));
}

#[test]
fn session_state_machine_lifecycle() {
    let (mut session, connected) = Session::begin(b"sid".to_vec());
    assert_eq!(session.phase, Phase::Active);
    assert_eq!(connected.event_type, EventType::Connected);

    let step = session.handle(ChannelInput::BiPayload(b"hi".to_vec()));
    match step {
        StepResult::Echo { event, reply } => {
            assert_eq!(event.event_type, EventType::MessageReceived);
            assert_eq!(event.transport, Transport::Bi);
            assert!(matches!(reply, ReplyAction::WriteSameStream(_)));
        }
        _ => panic!("a valid payload is echoed"),
    }
    assert_eq!(session.phase, Phase::Active);

    let step = session.handle(ChannelInput::UniPayload(vec![0x80]));
    match step {
        StepResult::Fail { reason } => assert_eq!(reason, b"invalid utf-8 payload".to_vec()),
        _ => panic!("an invalid payload ends the session"),
    }
    assert_eq!(session.phase, Phase::Ended);

    let disc = session.finish(b"decode failure".to_vec());
    assert_eq!(session.phase, Phase::Closed);
    assert_eq!(disc.event_type, EventType::Disconnected);
    assert_eq!(disc.payload.as_deref(), Some(b"decode failure".as_slice()));
}
