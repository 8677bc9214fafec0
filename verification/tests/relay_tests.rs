use agent_bridge::event::AgentEvent;
use agent_bridge::event::Emission;
use agent_bridge::event::Message;
use agent_bridge::event::Notification;
use agent_bridge::event::notify;
use agent_bridge::relay::Relay;
use agent_bridge::relay::StreamItem;
use agent_bridge::relay::VecSink;
use agent_bridge::relay::run_relay;

fn msg(content: &str) -> Message {
    Message { content: content.to_string() }
}

fn open_sink() -> VecSink {
    VecSink::new(usize::MAX, "sink closed".to_string())
}

#[test]
fn all_events_forwarded_in_order() {
    let items = vec![
        StreamItem::Event(AgentEvent::Message(msg("hello"))),
        StreamItem::Event(AgentEvent::McpNotification {
            id: "srv-1".to_string(),
            notification: "progress".to_string(),
        }),
        StreamItem::Event(AgentEvent::ModelChange {
            model: "m-large".to_string(),
            mode: "auto".to_string(),
        }),
        StreamItem::Event(AgentEvent::HistoryReplaced(vec![msg("a"), msg("b")])),
    ];
    let mut sink = open_sink();
    let r = run_relay(items, &mut sink);
    assert_eq!(r, Ok(()));
    assert_eq!(sink.accepted.len(), 4);
    assert_eq!(
        sink.accepted[0],
        Emission::Event(Notification::Message { message: msg("hello") })
    );
    assert_eq!(
        sink.accepted[1],
        Emission::Event(Notification::McpNotification {
            id: "srv-1".to_string(),
            notification: "progress".to_string(),
        })
    );
    assert_eq!(
        sink.accepted[2],
        Emission::Event(Notification::ModelChange {
            model: "m-large".to_string(),
            mode: "auto".to_string(),
        })
    );
    assert_eq!(
        sink.accepted[3],
        Emission::Event(Notification::HistoryReplaced { conversation: vec![msg("a"), msg("b")] })
    );
}

#[test]
fn tags_follow_the_source_variant() {
    let tags: Vec<String> = vec![
        notify(AgentEvent::Message(msg("x"))).tag(),
        notify(AgentEvent::McpNotification {
            id: "i".to_string(),
            notification: "n".to_string(),
        })
        .tag(),
        notify(AgentEvent::ModelChange { model: "m".to_string(), mode: "chat".to_string() }).tag(),
        notify(AgentEvent::HistoryReplaced(vec![])).tag(),
    ];
    assert_eq!(
        tags,
        vec![
            "message".to_string(),
            "mcp_notification".to_string(),
            "model_change".to_string(),
            "history_replaced".to_string(),
        ]
    );
}

#[test]
fn channels_separate_events_from_errors() {
    let ev = Emission::Event(Notification::Message { message: msg("x") });
    let er = Emission::Error("boom".to_string());
    assert_eq!(ev.channel(), "agent-event".to_string());
    assert_eq!(er.channel(), "agent-error".to_string());
}

#[test]
fn empty_stream_completes_with_no_emission() {
    let mut sink = open_sink();
    let r = run_relay(Vec::new(), &mut sink);
    assert_eq!(r, Ok(()));
    assert!(sink.accepted.is_empty());
}

#[test]
fn stream_error_after_two_successes() {
    let items = vec![
        StreamItem::Event(AgentEvent::Message(msg("one"))),
        StreamItem::Event(AgentEvent::Message(msg("two"))),
        StreamItem::Failed("model unreachable".to_string()),
        StreamItem::Event(AgentEvent::Message(msg("never"))),
    ];
    let mut sink = open_sink();
    let r = run_relay(items, &mut sink);
    assert_eq!(r, Err("model unreachable".to_string()));
    assert_eq!(sink.accepted.len(), 3);
    assert_eq!(
        sink.accepted[0],
        Emission::Event(Notification::Message { message: msg("one") })
    );
    assert_eq!(
        sink.accepted[1],
        Emission::Event(Notification::Message { message: msg("two") })
    );
    assert_eq!(sink.accepted[2], Emission::Error("model unreachable".to_string()));
}

#[test]
fn stream_error_first_yields_one_error_notification() {
    let items = vec![StreamItem::Failed("bad request".to_string())];
    let mut sink = open_sink();
    let r = run_relay(items, &mut sink);
    assert_eq!(r, Err("bad request".to_string()));
    assert_eq!(sink.accepted, vec![Emission::Error("bad request".to_string())]);
}

#[test]
fn sink_refusing_first_notification_fails_invocation() {
    let items = vec![
        StreamItem::Event(AgentEvent::Message(msg("hello"))),
        StreamItem::Event(AgentEvent::Message(msg("world"))),
    ];
    let mut sink = VecSink::new(0, "sink closed".to_string());
    let r = run_relay(items, &mut sink);
    assert_eq!(r, Err("sink closed".to_string()));
    assert!(sink.accepted.is_empty());
}

#[test]
fn sink_refusing_error_notification_fails_with_sink_reason() {
    let items = vec![StreamItem::Failed("boom".to_string())];
    let mut sink = VecSink::new(0, "sink closed".to_string());
    let r = run_relay(items, &mut sink);
    assert_eq!(r, Err("sink closed".to_string()));
    assert!(sink.accepted.is_empty());
}

#[test]
fn sink_refusal_mid_stream_stops_forwarding() {
    let items = vec![
        StreamItem::Event(AgentEvent::Message(msg("one"))),
        StreamItem::Event(AgentEvent::Message(msg("two"))),
        StreamItem::Event(AgentEvent::Message(msg("three"))),
    ];
    let mut sink = VecSink::new(1, "sink closed".to_string());
    let r = run_relay(items, &mut sink);
    assert_eq!(r, Err("sink closed".to_string()));
    assert_eq!(
        sink.accepted,
        vec![Emission::Event(Notification::Message { message: msg("one") })]
    );
}

#[test]
fn machine_walks_one_clean_reply() {
    let mut relay = Relay::new();
    assert!(relay.is_ready());
    let out = relay.on_item(Some(StreamItem::Event(AgentEvent::Message(msg("hi")))));
    assert_eq!(
        out,
        Some(Emission::Event(Notification::Message { message: msg("hi") }))
    );
    relay.on_verdict(Ok(()));
    assert!(relay.is_ready());
    let out = relay.on_item(None);
    assert_eq!(out, None);
    assert!(relay.is_done());
    assert_eq!(relay.into_result(), Ok(()));
}

#[test]
fn machine_ends_on_stream_error_once_notified() {
    let mut relay = Relay::new();
    let out = relay.on_item(Some(StreamItem::Failed("boom".to_string())));
    assert_eq!(out, Some(Emission::Error("boom".to_string())));
    relay.on_verdict(Ok(()));
    assert!(relay.is_done());
    assert_eq!(relay.into_result(), Err("boom".to_string()));
}

#[test]
fn machine_ends_on_sink_failure_with_sink_reason() {
    let mut relay = Relay::new();
    let out = relay.on_item(Some(StreamItem::Event(AgentEvent::Message(msg("hi")))));
    assert!(out.is_some());
    relay.on_verdict(Err("window gone".to_string()));
    assert!(relay.is_done());
    assert_eq!(relay.into_result(), Err("window gone".to_string()));
}

#[test]
fn consecutive_replies_do_not_interleave() {
    let first = vec![
        StreamItem::Event(AgentEvent::Message(msg("a1"))),
        StreamItem::Event(AgentEvent::Message(msg("a2"))),
    ];
    let second = vec![StreamItem::Event(AgentEvent::Message(msg("b1")))];
    let mut sink = open_sink();
    assert_eq!(run_relay(first, &mut sink), Ok(()));
    let first_count = sink.accepted.len();
    assert_eq!(run_relay(second, &mut sink), Ok(()));
    assert_eq!(first_count, 2);
    assert_eq!(sink.accepted.len(), 3);
    assert_eq!(
        sink.accepted,
        vec![
            Emission::Event(Notification::Message { message: msg("a1") }),
            Emission::Event(Notification::Message { message: msg("a2") }),
            Emission::Event(Notification::Message { message: msg("b1") }),
        ]
    );
}
