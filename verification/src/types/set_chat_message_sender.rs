//! Request: select the sender under which messages go out in a chat.

use vstd::prelude::*;
use crate::types::correlation::{fresh_extra, is_fresh_extra};
use crate::types::message_sender::MessageSender;
use crate::types::{text_of, RFunction, RObject};

verus! {

/// Selects a message sender to send messages in a chat.
#[derive(Debug)]
pub struct SetChatMessageSender {
    extra: Option<String>,
    client_id: Option<i32>,
    /// Chat identifier
    chat_id: i64,
    /// New message sender for the chat
    message_sender_id: MessageSender,
    td_type: String,
}

/// Mathematical value of a [`SetChatMessageSender`].
pub struct SetChatMessageSenderView {
    pub extra: Option<Seq<char>>,
    pub client_id: Option<i32>,
    pub chat_id: i64,
    pub message_sender_id: MessageSender,
    pub td_type: Seq<char>,
}

impl View for SetChatMessageSender {
    type V = SetChatMessageSenderView;

    closed spec fn view(&self) -> SetChatMessageSenderView {
        SetChatMessageSenderView {
            extra: text_of(self.extra),
            client_id: self.client_id,
            chat_id: self.chat_id,
            message_sender_id: self.message_sender_id,
            td_type: self.td_type@,
        }
    }
}

impl Default for SetChatMessageSender {
    /// The empty record: no routing metadata, every field at its default.
    fn default() -> (r: Self)
        ensures
            r@ == Self::default_view(),
    {
        let r = SetChatMessageSender {
            extra: None,
            client_id: None,
            chat_id: 0,
            message_sender_id: MessageSender::_Default,
            td_type: String::new(),
        };
        r
    }
}

impl Clone for SetChatMessageSender {
    fn clone(&self) -> (r: Self)
        ensures
            r@ == self@,
    {
        SetChatMessageSender {
            extra: match &self.extra {
                Some(s) => Some(s.clone()),
                None => None,
            },
            client_id: self.client_id,
            chat_id: self.chat_id,
            message_sender_id: self.message_sender_id,
            td_type: self.td_type.clone(),
        }
    }
}

impl RObject for SetChatMessageSender {
    open spec fn extra_spec(&self) -> Option<Seq<char>> {
        self@.extra
    }

    open spec fn client_id_spec(&self) -> Option<i32> {
        self@.client_id
    }

    fn extra(&self) -> (r: Option<&str>) {
        match &self.extra {
            Some(s) => Some(s.as_str()),
            None => None,
        }
    }

    fn client_id(&self) -> (r: Option<i32>) {
        self.client_id
    }
}

impl RFunction for SetChatMessageSender {
    open spec fn td_type_spec(&self) -> Seq<char> {
        self@.td_type
    }

    fn td_type(&self) -> (r: &str) {
        self.td_type.as_str()
    }
}

impl SetChatMessageSender {
    /// The tag naming the remote operation.
    pub open spec fn tag() -> Seq<char> {
        "setChatMessageSender"@
    }

    /// Value of the empty record.
    pub open spec fn default_view() -> SetChatMessageSenderView {
        SetChatMessageSenderView {
            extra: None,
            client_id: None,
            chat_id: 0,
            message_sender_id: MessageSender::_Default,
            td_type: Seq::empty(),
        }
    }

    /// Value a builder starts from, given its routing metadata.
    pub open spec fn initial_view(
        extra: Option<Seq<char>>,
        client_id: Option<i32>,
    ) -> SetChatMessageSenderView {
        SetChatMessageSenderView { extra, client_id, td_type: Self::tag(), ..Self::default_view() }
    }

    /// Starts a builder whose record carries a fresh correlation identifier
    /// and the operation tag; every other field has its default.
    pub fn builder() -> (b: RTDSetChatMessageSenderBuilder)
        ensures
            b@.extra.is_some(),
            is_fresh_extra(b@.extra.unwrap()),
            b@ == Self::initial_view(b@.extra, None),
    {
        Self::builder_with(Some(fresh_extra()), None)
    }

    /// Starts a builder from the given routing metadata. The record carries the
    /// operation tag; every other field has its default.
    pub fn builder_with(
        extra: Option<String>,
        client_id: Option<i32>,
    ) -> (b: RTDSetChatMessageSenderBuilder)
        ensures
            b@ == Self::initial_view(text_of(extra), client_id),
    {
        let mut inner = SetChatMessageSender::default();
        inner.extra = extra;
        inner.client_id = client_id;
        inner.td_type = "setChatMessageSender".to_string();
        RTDSetChatMessageSenderBuilder { inner }
    }

    /// Assembles a record from the values of all its fields, as they come
    /// off the wire.
    pub fn from_parts(
        extra: Option<String>,
        client_id: Option<i32>,
        chat_id: i64,
        message_sender_id: MessageSender,
        td_type: String,
    ) -> (r: Self)
        ensures
            r@ == (SetChatMessageSenderView {
                extra: text_of(extra),
                client_id,
                chat_id,
                message_sender_id,
                td_type: td_type@,
            }),
    {
        SetChatMessageSender { extra, client_id, chat_id, message_sender_id, td_type }
    }

    pub fn chat_id(&self) -> (r: i64)
        ensures
            r == self@.chat_id,
    {
        self.chat_id
    }

    pub fn message_sender_id(&self) -> (r: &MessageSender)
        ensures
            *r == self@.message_sender_id,
    {
        &self.message_sender_id
    }
}

/// Fluent builder of a [`SetChatMessageSender`].
pub struct RTDSetChatMessageSenderBuilder {
    inner: SetChatMessageSender,
}

impl View for RTDSetChatMessageSenderBuilder {
    type V = SetChatMessageSenderView;

    closed spec fn view(&self) -> SetChatMessageSenderView {
        self.inner@
    }
}

impl RTDSetChatMessageSenderBuilder {
    /// A copy of the record built so far.
    pub fn build(&self) -> (r: SetChatMessageSender)
        ensures
            r@ == self@,
    {
        self.inner.clone()
    }

    pub fn chat_id(&mut self, chat_id: i64) -> (ret: &mut Self)
        ensures
            ret@ == (SetChatMessageSenderView { chat_id, ..old(self)@ }),
            *final(self) == *final(ret),
    {
        self.inner.chat_id = chat_id;
        self
    }

    pub fn message_sender_id(&mut self, message_sender_id: &MessageSender) -> (ret: &mut Self)
        ensures
            ret@ == (SetChatMessageSenderView {
                message_sender_id: *message_sender_id,
                ..old(self)@
            }),
            *final(self) == *final(ret),
    {
        self.inner.message_sender_id = *message_sender_id;
        self
    }
}

impl AsRef<SetChatMessageSender> for SetChatMessageSender {
    fn as_ref(&self) -> (r: &SetChatMessageSender)
        ensures
            r == self,
    {
        self
    }
}

impl AsRef<SetChatMessageSender> for RTDSetChatMessageSenderBuilder {
    fn as_ref(&self) -> (r: &SetChatMessageSender)
        ensures
            r@ == self@,
    {
        &self.inner
    }
}

} // verus!
