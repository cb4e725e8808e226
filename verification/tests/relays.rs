use protocols::sse::{broadcast_event, tick_event, BROADCAST_CAPACITY};
use protocols::ws::{chat_inbound, chat_outbound, echo_step, ChatInbound, Frame, Incoming};

#[test]
fn ticks_count_from_zero() {
    let first = tick_event(0);
    assert_eq!(first.event, "tick");
    assert_eq!(first.data, "0");
    let later = tick_event(42);
    assert_eq!(later.event, "tick");
    assert_eq!(later.data, "42");
}

#[test]
fn published_text_becomes_message_event() {
    let event = broadcast_event(Ok("hello SSE".to_string())).unwrap();
    assert_eq!(event.event, "message");
    assert_eq!(event.data, "hello SSE");
}

#[test]
fn lagged_subscriber_gets_no_event() {
    assert!(broadcast_event(Err(3)).is_none());
}

#[test]
fn channel_capacity() {
    assert_eq!(BROADCAST_CAPACITY, 64);
}

#[test]
fn echo_sends_back_what_it_reads() {
    assert_eq!(echo_step(Incoming::Received("hi".to_string())), Some("hi".to_string()));
    assert_eq!(echo_step::<String>(Incoming::Ended), None);
    assert_eq!(echo_step::<String>(Incoming::Failed), None);
}

#[test]
fn chat_publishes_text_frames() {
    match chat_inbound(Incoming::Received(Frame::Text("hello".to_string()))) {
        ChatInbound::Publish(text) => assert_eq!(text, "hello"),
        _ => panic!("expected publish"),
    }
    assert!(matches!(chat_inbound(Incoming::Received(Frame::Close)), ChatInbound::Stop));
    assert!(matches!(chat_inbound(Incoming::Received(Frame::Binary(vec![1]))), ChatInbound::Ignore));
    assert!(matches!(chat_inbound(Incoming::Received(Frame::Ping(vec![]))), ChatInbound::Ignore));
    assert!(matches!(chat_inbound(Incoming::Ended), ChatInbound::Stop));
    assert!(matches!(chat_inbound(Incoming::Failed), ChatInbound::Stop));
}

#[test]
fn chat_forwards_channel_texts() {
    match chat_outbound::<()>(Ok("hello".to_string())) {
        Some(Frame::Text(text)) => assert_eq!(text, "hello"),
        _ => panic!("expected a text frame"),
    }
    assert!(chat_outbound::<()>(Err(())).is_none());
}
