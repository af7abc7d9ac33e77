use sway_ipc::{
    decode_header, subscribe_payload, ByteOrder, Event, EventListener, EventType, Header,
    ListenerError, ListenerState, HEADER_LEN,
};

fn streaming() -> EventListener {
    let mut l = EventListener::new();
    l.subscribe(ByteOrder::Little, &vec![EventType::Workspace]);
    assert_eq!(l.accept_ack(Some(true)), Ok(()));
    l
}

#[test]
fn subscribe_payload_lists_names_in_order() {
    assert_eq!(subscribe_payload(&vec![]), b"[]".to_vec());
    assert_eq!(subscribe_payload(&vec![EventType::Workspace]), br#"["workspace"]"#.to_vec());
    assert_eq!(
        subscribe_payload(&vec![EventType::Window, EventType::BarStateUpdate, EventType::Tick]),
        br#"["window","bar_state_update","tick"]"#.to_vec()
    );
}

#[test]
fn subscribe_sends_one_request_then_waits_for_the_ack() {
    let mut l = EventListener::new();
    assert_eq!(l.state(), ListenerState::Idle);
    let frame = l.subscribe(ByteOrder::Little, &vec![EventType::Workspace]);
    assert_eq!(l.state(), ListenerState::Subscribing);
    let h = decode_header(ByteOrder::Little, &frame[..HEADER_LEN]).unwrap();
    assert_eq!(h, Header { length: 13, type_code: 2 });
    assert_eq!(&frame[HEADER_LEN..], br#"["workspace"]"#);
    // The reply is taken as the acknowledgement, never as an event.
    assert_eq!(
        l.next_event(2, br#"{"success":true}"#.to_vec()),
        Err(ListenerError::NotStreaming)
    );
    assert_eq!(l.state(), ListenerState::Subscribing);
    assert_eq!(l.accept_ack(Some(true)), Ok(()));
    assert_eq!(l.state(), ListenerState::Streaming);
    assert!(l.is_streaming());
}

#[test]
fn refused_subscription_closes() {
    let mut l = EventListener::new();
    l.subscribe(ByteOrder::Little, &vec![EventType::Mode]);
    assert_eq!(l.accept_ack(Some(false)), Err(ListenerError::SubscriptionRefused));
    assert_eq!(l.state(), ListenerState::Closed);
    let mut m = EventListener::new();
    m.subscribe(ByteOrder::Big, &vec![EventType::Mode]);
    assert_eq!(m.accept_ack(None), Err(ListenerError::SubscriptionRefused));
    assert_eq!(m.state(), ListenerState::Closed);
}

#[test]
fn workspace_event_is_dispatched() {
    let mut l = streaming();
    let payload = br#"{"change":"focus"}"#.to_vec();
    assert_eq!(
        l.next_event(0x8000_0000, payload.clone()),
        Ok(Event { kind: Some(EventType::Workspace), type_code: 0x8000_0000, payload })
    );
}

#[test]
fn malformed_event_payload_is_isolated() {
    let mut l = streaming();
    assert_eq!(
        l.next_event(0x8000_0000, b"{\"change\":".to_vec()),
        Err(ListenerError::Decode { type_code: 0x8000_0000, payload: b"{\"change\":".to_vec() })
    );
    assert_eq!(l.state(), ListenerState::Streaming);
    let next = l.next_event(0x8000_0007, br#"{"payload":""}"#.to_vec()).unwrap();
    assert_eq!(next.kind, Some(EventType::Tick));
}

#[test]
fn empty_and_trailing_payloads_are_decode_errors() {
    let mut l = streaming();
    assert!(matches!(l.next_event(0x8000_0000, vec![]), Err(ListenerError::Decode { .. })));
    assert!(matches!(
        l.next_event(0x8000_0000, b"{} x".to_vec()),
        Err(ListenerError::Decode { .. })
    ));
    assert!(l.next_event(0x8000_0000, b" [1, 2] ".to_vec()).is_ok());
}

#[test]
fn accept_frame_follows_the_given_check() {
    let mut l = streaming();
    assert!(l.accept_frame(0x8000_0000, b"not json".to_vec(), true).is_ok());
    assert!(matches!(
        l.accept_frame(0x8000_0000, b"{}".to_vec(), false),
        Err(ListenerError::Decode { .. })
    ));
}

#[test]
fn unknown_event_code_is_surfaced() {
    let mut l = streaming();
    let ev = l.next_event(0x8000_0009, b"{}".to_vec()).unwrap();
    assert_eq!(ev.kind, None);
    assert_eq!(ev.type_code, 0x8000_0009);
}

#[test]
fn reply_code_on_event_stream_is_a_violation() {
    let mut l = streaming();
    assert_eq!(l.next_event(7, b"{}".to_vec()), Err(ListenerError::ProtocolViolation(7)));
    assert_eq!(l.state(), ListenerState::Closed);
    assert!(!l.is_streaming());
    assert_eq!(l.next_event(0x8000_0000, b"{}".to_vec()), Err(ListenerError::NotStreaming));
    assert_eq!(l.state(), ListenerState::Closed);
}

#[test]
fn closing_stops_the_stream() {
    let mut l = streaming();
    l.close();
    assert_eq!(l.state(), ListenerState::Closed);
    assert_eq!(l.next_event(0x8000_0000, b"{}".to_vec()), Err(ListenerError::NotStreaming));
}

#[test]
fn idle_listener_yields_nothing() {
    let mut l = EventListener::new();
    assert_eq!(l.next_event(0x8000_0000, b"{}".to_vec()), Err(ListenerError::NotStreaming));
    assert_eq!(l.state(), ListenerState::Idle);
}
