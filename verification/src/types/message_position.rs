//! Position of one message in a found-messages listing.

use vstd::prelude::*;

verus! {

/// Contains information about a message in a specific position.
#[derive(Clone, Copy, Debug)]
pub struct MessagePosition {
    /// 0-based message position in the full list of suitable messages
    pub position: i32,
    /// Message identifier
    pub message_id: i64,
    /// Point in time (Unix timestamp) when the message was sent
    pub date: i32,
}

impl Default for MessagePosition {
    fn default() -> (r: Self)
        ensures
            r == (MessagePosition { position: 0, message_id: 0, date: 0 }),
    {
        MessagePosition { position: 0, message_id: 0, date: 0 }
    }
}

} // verus!
