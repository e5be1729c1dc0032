//! A list of chat members who joined through an invite link.

use vstd::prelude::*;
use crate::types::chat_invite_link_member::ChatInviteLinkMember;
use crate::types::correlation::{fresh_extra, is_fresh_extra};
use crate::types::{text_of, RObject};

verus! {

/// Contains a list of chat members joined a chat via an invite link.
#[derive(Debug)]
pub struct ChatInviteLinkMembers {
    extra: Option<String>,
    client_id: Option<i32>,
    /// Approximate total number of chat members found
    total_count: i32,
    /// List of chat members, joined a chat via an invite link
    members: Vec<ChatInviteLinkMember>,
}

/// Mathematical value of a [`ChatInviteLinkMembers`].
pub struct ChatInviteLinkMembersView {
    pub extra: Option<Seq<char>>,
    pub client_id: Option<i32>,
    pub total_count: i32,
    pub members: Seq<ChatInviteLinkMember>,
}

impl View for ChatInviteLinkMembers {
    type V = ChatInviteLinkMembersView;

    closed spec fn view(&self) -> ChatInviteLinkMembersView {
        ChatInviteLinkMembersView {
            extra: text_of(self.extra),
            client_id: self.client_id,
            total_count: self.total_count,
            members: self.members@,
        }
    }
}

impl Default for ChatInviteLinkMembers {
    /// The empty record: no routing metadata, every field at its default.
    fn default() -> (r: Self)
        ensures
            r@ == Self::default_view(),
    {
        let r = ChatInviteLinkMembers {
            extra: None,
            client_id: None,
            total_count: 0,
            members: Vec::new(),
        };
        r
    }
}

impl Clone for ChatInviteLinkMembers {
    fn clone(&self) -> (r: Self)
        ensures
            r@ == self@,
    {
        let members = self.members.clone();
        assert(members@ =~= self.members@);
        ChatInviteLinkMembers {
            extra: match &self.extra {
                Some(s) => Some(s.clone()),
                None => None,
            },
            client_id: self.client_id,
            total_count: self.total_count,
            members,
        }
    }
}

impl RObject for ChatInviteLinkMembers {
    open spec fn extra_spec(&self) -> Option<Seq<char>> {
        self@.extra
    }

    open spec fn client_id_spec(&self) -> Option<i32> {
        self@.client_id
    }

    fn extra(&self) -> (r: Option<&str>) {
        match &self.extra {
            Some(s) => Some(s.as_str()),
            None => None,
        }
    }

    fn client_id(&self) -> (r: Option<i32>) {
        self.client_id
    }
}

impl ChatInviteLinkMembers {
    /// Value of the empty record.
    pub open spec fn default_view() -> ChatInviteLinkMembersView {
        ChatInviteLinkMembersView {
            extra: None,
            client_id: None,
            total_count: 0,
            members: Seq::empty(),
        }
    }

    /// Value a builder starts from, given its routing metadata.
    pub open spec fn initial_view(
        extra: Option<Seq<char>>,
        client_id: Option<i32>,
    ) -> ChatInviteLinkMembersView {
        ChatInviteLinkMembersView { extra, client_id, ..Self::default_view() }
    }

    /// Starts a builder whose record carries a fresh correlation identifier
    /// and, in every other field, its default.
    pub fn builder() -> (b: RTDChatInviteLinkMembersBuilder)
        ensures
            b@.extra.is_some(),
            is_fresh_extra(b@.extra.unwrap()),
            b@ == Self::initial_view(b@.extra, None),
    {
        Self::builder_with(Some(fresh_extra()), None)
    }

    /// Starts a builder from the given routing metadata. Every other field
    /// has its default.
    pub fn builder_with(
        extra: Option<String>,
        client_id: Option<i32>,
    ) -> (b: RTDChatInviteLinkMembersBuilder)
        ensures
            b@ == Self::initial_view(text_of(extra), client_id),
    {
        let mut inner = ChatInviteLinkMembers::default();
        inner.extra = extra;
        inner.client_id = client_id;
        RTDChatInviteLinkMembersBuilder { inner }
    }

    /// Assembles a record from the values of all its fields, as they come
    /// off the wire.
    pub fn from_parts(
        extra: Option<String>,
        client_id: Option<i32>,
        total_count: i32,
        members: Vec<ChatInviteLinkMember>,
    ) -> (r: Self)
        ensures
            r@ == (ChatInviteLinkMembersView {
                extra: text_of(extra),
                client_id,
                total_count,
                members: members@,
            }),
    {
        ChatInviteLinkMembers { extra, client_id, total_count, members }
    }

    pub fn total_count(&self) -> (r: i32)
        ensures
            r == self@.total_count,
    {
        self.total_count
    }

    pub fn members(&self) -> (r: &Vec<ChatInviteLinkMember>)
        ensures
            r@ == self@.members,
    {
        &self.members
    }
}

/// Fluent builder of a [`ChatInviteLinkMembers`].
pub struct RTDChatInviteLinkMembersBuilder {
    inner: ChatInviteLinkMembers,
}

impl View for RTDChatInviteLinkMembersBuilder {
    type V = ChatInviteLinkMembersView;

    closed spec fn view(&self) -> ChatInviteLinkMembersView {
        self.inner@
    }
}

impl RTDChatInviteLinkMembersBuilder {
    /// A copy of the record built so far.
    pub fn build(&self) -> (r: ChatInviteLinkMembers)
        ensures
            r@ == self@,
    {
        self.inner.clone()
    }

    pub fn total_count(&mut self, total_count: i32) -> (ret: &mut Self)
        ensures
            ret@ == (ChatInviteLinkMembersView { total_count, ..old(self)@ }),
            *final(self) == *final(ret),
    {
        self.inner.total_count = total_count;
        self
    }

    pub fn members(&mut self, members: Vec<ChatInviteLinkMember>) -> (ret: &mut Self)
        ensures
            ret@ == (ChatInviteLinkMembersView { members: members@, ..old(self)@ }),
            *final(self) == *final(ret),
    {
        self.inner.members = members;
        self
    }
}

impl AsRef<ChatInviteLinkMembers> for ChatInviteLinkMembers {
    fn as_ref(&self) -> (r: &ChatInviteLinkMembers)
        ensures
            r == self,
    {
        self
    }
}

impl AsRef<ChatInviteLinkMembers> for RTDChatInviteLinkMembersBuilder {
    fn as_ref(&self) -> (r: &ChatInviteLinkMembers)
        ensures
            r@ == self@,
    {
        &self.inner
    }
}

} // verus!
