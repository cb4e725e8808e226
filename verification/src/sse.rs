use crate::decimal::{decimal, format_usize};
use vstd::prelude::*;
use vstd::string::*;

verus! {

/// How many messages a relay channel keeps for subscribers that fall
/// behind.
pub const BROADCAST_CAPACITY: usize = 64;

/// A server-sent event: its name and its data.
pub struct SseEvent {
    pub event: String,
    pub data: String,
}

/// The name `tick`.
pub open spec fn tick_name() -> Seq<char> {
    seq!['t', 'i', 'c', 'k']
}

/// The name `message`.
pub open spec fn message_name() -> Seq<char> {
    seq!['m', 'e', 's', 's', 'a', 'g', 'e']
}

/// The event that the ticker sends for its `index`-th tick, counting from
/// zero: named `tick`, with the index as data.
pub fn tick_event(index: usize) -> (e: SseEvent)
    ensures
        e.event@ == tick_name(),
        e.data@ == decimal(index as int),
{
    proof {
        reveal_strlit("tick");
    }
    SseEvent { event: String::from_str("tick"), data: format_usize(index) }
}

/// What a subscriber's relay stream yields for what it received from the
/// channel: a `message` event for a published text, nothing when it fell
/// behind by the given number of messages.
pub fn broadcast_event(received: Result<String, u64>) -> (e: Option<SseEvent>)
    ensures
        match received {
            Ok(text) => e matches Some(ev) && ev.event@ == message_name() && ev.data@ == text@,
            Err(_) => e is None,
        },
{
    match received {
        Ok(text) => {
            proof {
                reveal_strlit("message");
            }
            Some(SseEvent { event: String::from_str("message"), data: text })
        },
        Err(_) => None,
    }
}

} // verus!
