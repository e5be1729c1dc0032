//! Who sent a message: a user, or a chat on its own behalf.

use vstd::prelude::*;

verus! {

/// Contains information about the sender of a message.
#[derive(Clone, Copy, Debug)]
pub enum MessageSender {
    /// No sender chosen yet.
    _Default,
    /// The message was sent on behalf of a chat
    Chat {
        /// Identifier of the chat that sent the message
        chat_id: i64,
    },
    /// The message was sent by a known user
    User {
        /// Identifier of the user that sent the message
        user_id: i64,
    },
}

impl Default for MessageSender {
    fn default() -> (r: Self)
        ensures
            r == MessageSender::_Default,
    {
        MessageSender::_Default
    }
}

impl MessageSender {
    /// True exactly when no sender was chosen.
    pub fn _is_default(&self) -> (r: bool)
        ensures
            r == (*self == MessageSender::_Default),
    {
        match self {
            MessageSender::_Default => true,
            _ => false,
        }
    }
}

} // verus!
