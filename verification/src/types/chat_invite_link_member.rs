//! A chat member who joined through an invite link.

use vstd::prelude::*;

verus! {

/// Describes a chat member joined a chat via an invite link.
#[derive(Clone, Copy, Debug)]
pub struct ChatInviteLinkMember {
    /// User identifier
    pub user_id: i64,
    /// Point in time (Unix timestamp) when the user joined the chat
    pub joined_chat_date: i32,
    /// User identifier of the chat administrator that approved the user
    pub approver_user_id: i64,
}

impl Default for ChatInviteLinkMember {
    fn default() -> (r: Self)
        ensures
            r == (ChatInviteLinkMember { user_id: 0, joined_chat_date: 0, approver_user_id: 0 }),
    {
        ChatInviteLinkMember { user_id: 0, joined_chat_date: 0, approver_user_id: 0 }
    }
}

} // verus!
