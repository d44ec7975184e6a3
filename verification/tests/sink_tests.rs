use chat_relay::json::{assemble_payload, chat_payload, frame_payload};
use chat_relay::message::Message;
use chat_relay::sink::{delivered, format_echo, DeliveryOutcome, Sink, SinkAction};

fn chat(username: &str, content: &str) -> Message {
    Message::Chat { username: username.to_string(), content: content.to_string() }
}

#[test]
fn echo_line_joins_username_and_content() {
    assert_eq!(format_echo("Ann", "hi all"), "Ann: hi all");
    assert_eq!(format_echo("", ""), ": ");
}

#[test]
fn sink_without_destination_only_echoes() {
    let mut sink = Sink::new(String::new());
    assert!(!sink.has_destination());
    assert_eq!(
        sink.consume(&chat("Ann", "hi all")),
        SinkAction::Echo { line: "Ann: hi all".to_string() }
    );
    assert!(!sink.is_stopped());
}

#[test]
fn sink_with_destination_delivers_the_serialised_notification() {
    let mut sink = Sink::new("https://example.invalid/hook".to_string());
    assert!(sink.has_destination());
    assert_eq!(sink.destination(), "https://example.invalid/hook");
    assert_eq!(
        sink.consume(&chat("Bob [Sol Empire]", "hello")),
        SinkAction::Deliver {
            line: "Bob [Sol Empire]: hello".to_string(),
            payload: "{\"username\":\"Bob [Sol Empire]\",\"content\":\"hello\"}".to_string(),
        }
    );
}

#[test]
fn sink_stops_at_the_sentinel_only() {
    let mut sink = Sink::new(String::new());
    for i in 0..5 {
        let action = sink.consume(&chat("Ann", &format!("message {}", i)));
        assert!(matches!(action, SinkAction::Echo { .. }));
        assert!(!sink.is_stopped());
    }
    assert_eq!(sink.consume(&Message::Disconnect), SinkAction::Stop);
    assert!(sink.is_stopped());
}

#[test]
fn stopped_sink_echoes_nothing_more() {
    let mut sink = Sink::new("https://example.invalid/hook".to_string());
    assert_eq!(sink.consume(&Message::Disconnect), SinkAction::Stop);
    assert_eq!(sink.consume(&chat("Ann", "too late")), SinkAction::Stop);
    assert_eq!(sink.consume(&Message::Disconnect), SinkAction::Stop);
    assert!(sink.is_stopped());
}

#[test]
fn decide_reports_a_notification_without_payload() {
    let mut sink = Sink::new("https://example.invalid/hook".to_string());
    assert_eq!(
        sink.decide(&chat("Ann", "hi"), None),
        SinkAction::Report {
            line: "Ann: hi".to_string(),
            diagnostic: "failed to send message".to_string(),
        }
    );
    assert!(!sink.is_stopped());
    assert_eq!(
        sink.decide(&chat("Ann", "hi"), Some("{}".to_string())),
        SinkAction::Deliver { line: "Ann: hi".to_string(), payload: "{}".to_string() }
    );
}

#[test]
fn decide_without_destination_ignores_the_payload() {
    let mut sink = Sink::new(String::new());
    assert_eq!(
        sink.decide(&chat("Ann", "hi"), Some("{}".to_string())),
        SinkAction::Echo { line: "Ann: hi".to_string() }
    );
    assert_eq!(sink.decide(&Message::Disconnect, Some("{}".to_string())), SinkAction::Stop);
    assert!(sink.is_stopped());
}

#[test]
fn status_decides_whether_a_delivery_counts() {
    assert!(!delivered(DeliveryOutcome::Responded { status: 199 }));
    assert!(delivered(DeliveryOutcome::Responded { status: 200 }));
    assert!(delivered(DeliveryOutcome::Responded { status: 204 }));
    assert!(delivered(DeliveryOutcome::Responded { status: 299 }));
    assert!(!delivered(DeliveryOutcome::Responded { status: 300 }));
    assert!(!delivered(DeliveryOutcome::Responded { status: 404 }));
    assert!(!delivered(DeliveryOutcome::Responded { status: 500 }));
    assert!(!delivered(DeliveryOutcome::Responded { status: 0 }));
    assert!(!delivered(DeliveryOutcome::Responded { status: u16::MAX }));
    assert!(!delivered(DeliveryOutcome::TransportError));
}

#[test]
fn settle_reports_failures_only() {
    let sink = Sink::new("https://example.invalid/hook".to_string());
    assert_eq!(sink.settle(DeliveryOutcome::Responded { status: 204 }), None);
    assert_eq!(
        sink.settle(DeliveryOutcome::Responded { status: 429 }),
        Some("failed to send message".to_string())
    );
    assert_eq!(
        sink.settle(DeliveryOutcome::TransportError),
        Some("failed to send message".to_string())
    );
}

#[test]
fn scenario_unreachable_destination() {
    let mut sink = Sink::new("https://unreachable.invalid/hook".to_string());
    let first = sink.consume(&chat("Ann", "one"));
    assert_eq!(
        first,
        SinkAction::Deliver {
            line: "Ann: one".to_string(),
            payload: "{\"username\":\"Ann\",\"content\":\"one\"}".to_string(),
        }
    );
    assert_eq!(
        sink.settle(DeliveryOutcome::TransportError),
        Some("failed to send message".to_string())
    );
    assert!(!sink.is_stopped());
    let second = sink.consume(&chat("Bob", "two"));
    assert_eq!(
        second,
        SinkAction::Deliver {
            line: "Bob: two".to_string(),
            payload: "{\"username\":\"Bob\",\"content\":\"two\"}".to_string(),
        }
    );
    assert_eq!(sink.settle(DeliveryOutcome::Responded { status: 204 }), None);
    assert_eq!(sink.consume(&Message::Disconnect), SinkAction::Stop);
}

#[test]
fn delivery_outcomes_do_not_change_what_follows() {
    let queue = vec![chat("Ann", "one"), chat("Bob", "two"), chat("Eve", "three")];
    let run = |outcome: DeliveryOutcome| {
        let mut sink = Sink::new("https://example.invalid/hook".to_string());
        let mut actions = Vec::new();
        for n in &queue {
            actions.push(sink.consume(n));
            let _ = sink.settle(outcome);
        }
        actions.push(sink.consume(&Message::Disconnect));
        (actions, sink.is_stopped())
    };
    let ok = run(DeliveryOutcome::Responded { status: 200 });
    let refused = run(DeliveryOutcome::Responded { status: 500 });
    let lost = run(DeliveryOutcome::TransportError);
    assert_eq!(ok, refused);
    assert_eq!(ok, lost);
    assert_eq!(ok.0.len(), 4);
    assert!(ok.1);
}

#[test]
fn frame_holds_two_members_in_order() {
    assert_eq!(frame_payload("\"a\"", "\"b\""), "{\"username\":\"a\",\"content\":\"b\"}");
    assert_eq!(frame_payload("", ""), "{\"username\":,\"content\":}");
}

#[test]
fn payload_escapes_what_json_requires() {
    assert_eq!(
        chat_payload("Bob", "hello"),
        Some("{\"username\":\"Bob\",\"content\":\"hello\"}".to_string())
    );
    assert_eq!(
        chat_payload("a\"b", "back\\slash\nnew line\ttab"),
        Some("{\"username\":\"a\\\"b\",\"content\":\"back\\\\slash\\nnew line\\ttab\"}".to_string())
    );
    assert_eq!(
        chat_payload("", "\u{1}"),
        Some("{\"username\":\"\",\"content\":\"\\u0001\"}".to_string())
    );
}

#[test]
fn payload_reads_back_as_the_notification() {
    let username = "Zoë \"the\" <b>Brave</b> [Sol Empire]";
    let content = "line one\nline two \\ {\"not\": \"json\"} \u{1F600}";
    let payload = chat_payload(username, content).expect("strings serialise");
    let value: serde_json::Value = serde_json::from_str(&payload).expect("payload is JSON");
    let object = value.as_object().expect("payload is an object");
    assert_eq!(object.len(), 2);
    assert_eq!(object.get("username").and_then(|v| v.as_str()), Some(username));
    assert_eq!(object.get("content").and_then(|v| v.as_str()), Some(content));
    assert!(payload.starts_with("{\"username\":\""));
}

#[test]
fn body_needs_both_serialised_texts() {
    let username = || Some("\"Ann\"".to_string());
    let content = || Some("\"hi\"".to_string());
    assert_eq!(
        assemble_payload(username(), content()),
        Some("{\"username\":\"Ann\",\"content\":\"hi\"}".to_string())
    );
    assert_eq!(assemble_payload(None, content()), None);
    assert_eq!(assemble_payload(username(), None), None);
    assert_eq!(assemble_payload(None, None), None);
}

#[test]
fn every_text_gets_a_payload() {
    let samples = ["", " ", "plain", "\u{0}\u{1f}\u{7f}", "\"\\/", "\u{fffd}\u{10ffff}", "a\r\nb"];
    for username in samples {
        for content in samples {
            let payload = chat_payload(username, content).expect("strings serialise");
            let value: serde_json::Value = serde_json::from_str(&payload).expect("valid JSON");
            assert_eq!(value["username"].as_str(), Some(username));
            assert_eq!(value["content"].as_str(), Some(content));
        }
    }
}
