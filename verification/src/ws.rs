use vstd::prelude::*;

verus! {

/// A WebSocket frame, as far as the relays tell frames apart.
pub enum Frame {
    Text(String),
    Binary(Vec<u8>),
    Ping(Vec<u8>),
    Pong(Vec<u8>),
    Close,
}

/// What the next read from a WebSocket gave.
pub enum Incoming<M> {
    Received(M),
    Ended,
    Failed,
}

/// What the chat relay does with a frame from its client.
pub enum ChatInbound {
    /// Publish this text to every chat member.
    Publish(String),
    /// Stop reading from this client.
    Stop,
    /// Read on.
    Ignore,
}

/// The echo endpoint: what it reads it sends back unchanged, and it stops
/// once the socket ends or fails.
pub fn echo_step<M>(incoming: Incoming<M>) -> (reply: Option<M>)
    ensures
        match incoming {
            Incoming::Received(m) => reply == Some(m),
            _ => reply is None,
        },
{
    match incoming {
        Incoming::Received(m) => Some(m),
        _ => None,
    }
}

/// The chat endpoint's reading side: text frames are published, a close
/// frame, the end of the socket or a failure stops reading, and every other
/// frame is passed over.
pub fn chat_inbound(incoming: Incoming<Frame>) -> (action: ChatInbound)
    ensures
        match incoming {
            Incoming::Received(Frame::Text(t)) => action matches ChatInbound::Publish(p) && p@ == t@,
            Incoming::Received(Frame::Close) => action is Stop,
            Incoming::Received(_) => action is Ignore,
            _ => action is Stop,
        },
{
    match incoming {
        Incoming::Received(Frame::Text(t)) => ChatInbound::Publish(t),
        Incoming::Received(Frame::Close) => ChatInbound::Stop,
        Incoming::Received(_) => ChatInbound::Ignore,
        _ => ChatInbound::Stop,
    }
}

/// The chat endpoint's writing side: each text that the channel delivers is
/// sent to the client as a text frame; an error from the channel (the member
/// fell behind, or the channel closed) stops it.
pub fn chat_outbound<E>(received: Result<String, E>) -> (frame: Option<Frame>)
    ensures
        match received {
            Ok(t) => frame matches Some(Frame::Text(f)) && f@ == t@,
            Err(_) => frame is None,
        },
{
    match received {
        Ok(t) => Some(Frame::Text(t)),
        Err(_) => None,
    }
}

} // verus!
