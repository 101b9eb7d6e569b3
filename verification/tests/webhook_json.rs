use gateway::events::ChannelKind;
use gateway::events::GatewayEvent;
use gateway::json::event_to_json;
use gateway::webhook::WebhookSink;

#[test]
fn message_event_json_is_exact() {
    let e = GatewayEvent::message(
        b"11111111-2222-3333-4444-555555555555".to_vec(),
        ChannelKind::Bi,
        b"hello from browser".to_vec(),
    );
    let body = event_to_json(&e);
    assert_eq!(
        body,
        br#"{"type":"message_received","connection_id":"11111111-2222-3333-4444-555555555555","transport":"webtransport/bi","payload":"hello from browser"}"#.to_vec()
    );
}

#[test]
fn connected_event_json_omits_payload() {
    let e = GatewayEvent::connected(b"cid".to_vec());
    let body = event_to_json(&e);
    assert_eq!(
        body,
        br#"{"type":"connected","connection_id":"cid","transport":"webtransport"}"#.to_vec()
    );
}

#[test]
fn disconnected_event_json_carries_reason() {
    let e = GatewayEvent::disconnected(b"cid".to_vec(), b"client closed".to_vec());
    let body = event_to_json(&e);
    assert_eq!(
        body,
        br#"{"type":"disconnected","connection_id":"cid","transport":"webtransport","payload":"client closed"}"#.to_vec()
    );
}

#[test]
fn uni_and_datagram_transport_labels() {
    let e = GatewayEvent::message(b"c".to_vec(), ChannelKind::Uni, b"p".to_vec());
    let body = event_to_json(&e);
    assert_eq!(
        body,
        br#"{"type":"message_received","connection_id":"c","transport":"webtransport/uni","payload":"p"}"#.to_vec()
    );
    let e = GatewayEvent::message(b"c".to_vec(), ChannelKind::Datagram, b"p".to_vec());
    let body = event_to_json(&e);
    assert_eq!(
        body,
        br#"{"type":"message_received","connection_id":"c","transport":"webtransport/dgram","payload":"p"}"#.to_vec()
    );
}

#[test]
fn json_escapes_quotes_backslashes_and_controls() {
    let e = GatewayEvent::message(
        b"c".to_vec(),
        ChannelKind::Bi,
        b"a\"b\\c\nd\re\tf\x08g\x0ch\x01i\x1fj".to_vec(),
    );
    let body = event_to_json(&e);
    assert_eq!(
        body,
        br#"{"type":"message_received","connection_id":"c","transport":"webtransport/bi","payload":"a\"b\\c\nd\re\tf\bg\fh\u0001i\u001fj"}"#.to_vec()
    );
}

#[test]
fn json_passes_multibyte_utf8_through() {
    let payload = "héllo ✓ 🎉".as_bytes().to_vec();
    let e = GatewayEvent::message(b"c".to_vec(), ChannelKind::Bi, payload.clone());
    let body = event_to_json(&e);
    let v: serde_json::Value = serde_json::from_slice(&body).unwrap();
    assert_eq!(v["payload"], "héllo ✓ 🎉");
}

#[test]
fn json_parses_as_expected_document() {
    let e = GatewayEvent::message(b"abc".to_vec(), ChannelKind::Datagram, b"pay load".to_vec());
    let body = event_to_json(&e);
    let v: serde_json::Value = serde_json::from_slice(&body).unwrap();
    assert_eq!(v["type"], "message_received");
    assert_eq!(v["connection_id"], "abc");
    assert_eq!(v["transport"], "webtransport/dgram");
    assert_eq!(v["payload"], "pay load");
    assert_eq!(v.as_object().unwrap().len(), 4);

    let e = GatewayEvent::connected(b"abc".to_vec());
    let v: serde_json::Value = serde_json::from_slice(&event_to_json(&e)).unwrap();
    assert_eq!(v.as_object().unwrap().len(), 3);
    assert!(v.get("payload").is_none());
}

#[test]
fn webhook_disabled_without_url() {
    let sink = WebhookSink::new(None);
    assert!(!sink.enabled());
    let e = GatewayEvent::connected(b"c".to_vec());
    assert!(sink.request_for(&e).is_none());
}

#[test]
fn webhook_posts_event_json_to_configured_url() {
    let sink = WebhookSink::new(Some(b"http://localhost:9000/hook".to_vec()));
    assert!(sink.enabled());
    let e = GatewayEvent::connected(b"c".to_vec());
    let req = sink.request_for(&e).unwrap();
    assert_eq!(req.url, b"http://localhost:9000/hook".to_vec());
    assert_eq!(req.body, event_to_json(&e));
}

#[test]
fn webhook_config_never_changes_echo_outputs() {
    // The echo path takes no sink: replaying the same inputs yields the
    // same outputs whether or not a webhook URL is configured.
    let run = || {
        gateway::multiplexer::run_session(
            b"c".to_vec(),
            vec![gateway::session::ChannelInput::BiPayload(b"hi".to_vec())],
            b"done".to_vec(),
        )
    };
    let with_sink = WebhookSink::new(Some(b"http://unreachable.invalid/".to_vec()));
    let without_sink = WebhookSink::new(None);
    let a = run();
    let b = run();
    assert_eq!(a.len(), b.len());
    // Both sinks see the same message event; only delivery differs.
    if let gateway::multiplexer::SessionOutput::Emit(e) = &a[1] {
        assert!(with_sink.request_for(e).is_some());
        assert!(without_sink.request_for(e).is_none());
    } else {
        panic!("expected the message event");
    }
}
