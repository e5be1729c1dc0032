//! Request: list the administrators of a chat with their custom titles.

use vstd::prelude::*;
use crate::types::correlation::{fresh_extra, is_fresh_extra};
use crate::types::{text_of, RFunction, RObject};

verus! {

/// Returns a list of administrators of the chat with their custom titles.
#[derive(Debug)]
pub struct GetChatAdministrators {
    extra: Option<String>,
    client_id: Option<i32>,
    /// Chat identifier
    chat_id: i64,
    td_type: String,
}

/// Mathematical value of a [`GetChatAdministrators`].
pub struct GetChatAdministratorsView {
    pub extra: Option<Seq<char>>,
    pub client_id: Option<i32>,
    pub chat_id: i64,
    pub td_type: Seq<char>,
}

impl View for GetChatAdministrators {
    type V = GetChatAdministratorsView;

    closed spec fn view(&self) -> GetChatAdministratorsView {
        GetChatAdministratorsView {
            extra: text_of(self.extra),
            client_id: self.client_id,
            chat_id: self.chat_id,
            td_type: self.td_type@,
        }
    }
}

impl Default for GetChatAdministrators {
    /// The empty record: no routing metadata, every field at its default.
    fn default() -> (r: Self)
        ensures
            r@ == Self::default_view(),
    {
        let r = GetChatAdministrators {
            extra: None,
            client_id: None,
            chat_id: 0,
            td_type: String::new(),
        };
        r
    }
}

impl Clone for GetChatAdministrators {
    fn clone(&self) -> (r: Self)
        ensures
            r@ == self@,
    {
        GetChatAdministrators {
            extra: match &self.extra {
                Some(s) => Some(s.clone()),
                None => None,
            },
            client_id: self.client_id,
            chat_id: self.chat_id,
            td_type: self.td_type.clone(),
        }
    }
}

impl RObject for GetChatAdministrators {
    open spec fn extra_spec(&self) -> Option<Seq<char>> {
        self@.extra
    }

    open spec fn client_id_spec(&self) -> Option<i32> {
        self@.client_id
    }

    fn extra(&self) -> (r: Option<&str>) {
        match &self.extra {
            Some(s) => Some(s.as_str()),
            None => None,
        }
    }

    fn client_id(&self) -> (r: Option<i32>) {
        self.client_id
    }
}

impl RFunction for GetChatAdministrators {
    open spec fn td_type_spec(&self) -> Seq<char> {
        self@.td_type
    }

    fn td_type(&self) -> (r: &str) {
        self.td_type.as_str()
    }
}

impl GetChatAdministrators {
    /// The tag naming the remote operation.
    pub open spec fn tag() -> Seq<char> {
        "getChatAdministrators"@
    }

    /// Value of the empty record.
    pub open spec fn default_view() -> GetChatAdministratorsView {
        GetChatAdministratorsView {
            extra: None,
            client_id: None,
            chat_id: 0,
            td_type: Seq::empty(),
        }
    }

    /// Value a builder starts from, given its routing metadata.
    pub open spec fn initial_view(
        extra: Option<Seq<char>>,
        client_id: Option<i32>,
    ) -> GetChatAdministratorsView {
        GetChatAdministratorsView { extra, client_id, td_type: Self::tag(), ..Self::default_view() }
    }

    /// Starts a builder whose record carries a fresh correlation identifier
    /// and the operation tag; every other field has its default.
    pub fn builder() -> (b: GetChatAdministratorsBuilder)
        ensures
            b@.extra.is_some(),
            is_fresh_extra(b@.extra.unwrap()),
            b@ == Self::initial_view(b@.extra, None),
    {
        Self::builder_with(Some(fresh_extra()), None)
    }

    /// Starts a builder from the given routing metadata. The record carries the
    /// operation tag; every other field has its default.
    pub fn builder_with(
        extra: Option<String>,
        client_id: Option<i32>,
    ) -> (b: GetChatAdministratorsBuilder)
        ensures
            b@ == Self::initial_view(text_of(extra), client_id),
    {
        let mut inner = GetChatAdministrators::default();
        inner.extra = extra;
        inner.client_id = client_id;
        inner.td_type = "getChatAdministrators".to_string();
        GetChatAdministratorsBuilder { inner }
    }

    /// Assembles a record from the values of all its fields, as they come
    /// off the wire.
    pub fn from_parts(
        extra: Option<String>,
        client_id: Option<i32>,
        chat_id: i64,
        td_type: String,
    ) -> (r: Self)
        ensures
            r@ == (GetChatAdministratorsView {
                extra: text_of(extra),
                client_id,
                chat_id,
                td_type: td_type@,
            }),
    {
        GetChatAdministrators { extra, client_id, chat_id, td_type }
    }

    pub fn chat_id(&self) -> (r: i64)
        ensures
            r == self@.chat_id,
    {
        self.chat_id
    }
}

/// Fluent builder of a [`GetChatAdministrators`].
pub struct GetChatAdministratorsBuilder {
    inner: GetChatAdministrators,
}

/// Alias of [`GetChatAdministratorsBuilder`] for callers that use the prefixed name.
pub type RTDGetChatAdministratorsBuilder = GetChatAdministratorsBuilder;

impl View for GetChatAdministratorsBuilder {
    type V = GetChatAdministratorsView;

    closed spec fn view(&self) -> GetChatAdministratorsView {
        self.inner@
    }
}

impl GetChatAdministratorsBuilder {
    /// A copy of the record built so far.
    pub fn build(&self) -> (r: GetChatAdministrators)
        ensures
            r@ == self@,
    {
        self.inner.clone()
    }

    pub fn chat_id(&mut self, chat_id: i64) -> (ret: &mut Self)
        ensures
            ret@ == (GetChatAdministratorsView { chat_id, ..old(self)@ }),
            *final(self) == *final(ret),
    {
        self.inner.chat_id = chat_id;
        self
    }
}

impl AsRef<GetChatAdministrators> for GetChatAdministrators {
    fn as_ref(&self) -> (r: &GetChatAdministrators)
        ensures
            r == self,
    {
        self
    }
}

impl AsRef<GetChatAdministrators> for GetChatAdministratorsBuilder {
    fn as_ref(&self) -> (r: &GetChatAdministrators)
        ensures
            r@ == self@,
    {
        &self.inner
    }
}

} // verus!
