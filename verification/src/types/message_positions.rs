//! A list of message positions.

use vstd::prelude::*;
use crate::types::correlation::{fresh_extra, is_fresh_extra};
use crate::types::message_position::MessagePosition;
use crate::types::{text_of, RObject};

verus! {

/// Contains a list of message positions.
#[derive(Debug)]
pub struct MessagePositions {
    extra: Option<String>,
    client_id: Option<i32>,
    /// Total number of messages found
    total_count: i32,
    /// List of message positions
    positions: Vec<MessagePosition>,
}

/// Mathematical value of a [`MessagePositions`].
pub struct MessagePositionsView {
    pub extra: Option<Seq<char>>,
    pub client_id: Option<i32>,
    pub total_count: i32,
    pub positions: Seq<MessagePosition>,
}

impl View for MessagePositions {
    type V = MessagePositionsView;

    closed spec fn view(&self) -> MessagePositionsView {
        MessagePositionsView {
            extra: text_of(self.extra),
            client_id: self.client_id,
            total_count: self.total_count,
            positions: self.positions@,
        }
    }
}

impl Default for MessagePositions {
    /// The empty record: no routing metadata, every field at its default.
    fn default() -> (r: Self)
        ensures
            r@ == Self::default_view(),
    {
        let r = MessagePositions {
            extra: None,
            client_id: None,
            total_count: 0,
            positions: Vec::new(),
        };
        r
    }
}

impl Clone for MessagePositions {
    fn clone(&self) -> (r: Self)
        ensures
            r@ == self@,
    {
        let positions = self.positions.clone();
        assert(positions@ =~= self.positions@);
        MessagePositions {
            extra: match &self.extra {
                Some(s) => Some(s.clone()),
                None => None,
            },
            client_id: self.client_id,
            total_count: self.total_count,
            positions,
        }
    }
}

impl RObject for MessagePositions {
    open spec fn extra_spec(&self) -> Option<Seq<char>> {
        self@.extra
    }

    open spec fn client_id_spec(&self) -> Option<i32> {
        self@.client_id
    }

    fn extra(&self) -> (r: Option<&str>) {
        match &self.extra {
            Some(s) => Some(s.as_str()),
            None => None,
        }
    }

    fn client_id(&self) -> (r: Option<i32>) {
        self.client_id
    }
}

impl MessagePositions {
    /// Value of the empty record.
    pub open spec fn default_view() -> MessagePositionsView {
        MessagePositionsView {
            extra: None,
            client_id: None,
            total_count: 0,
            positions: Seq::empty(),
        }
    }

    /// Value a builder starts from, given its routing metadata.
    pub open spec fn initial_view(
        extra: Option<Seq<char>>,
        client_id: Option<i32>,
    ) -> MessagePositionsView {
        MessagePositionsView { extra, client_id, ..Self::default_view() }
    }

    /// Starts a builder whose record carries a fresh correlation identifier
    /// and, in every other field, its default.
    pub fn builder() -> (b: RTDMessagePositionsBuilder)
        ensures
            b@.extra.is_some(),
            is_fresh_extra(b@.extra.unwrap()),
            b@ == Self::initial_view(b@.extra, None),
    {
        Self::builder_with(Some(fresh_extra()), None)
    }

    /// Starts a builder from the given routing metadata. Every other field
    /// has its default.
    pub fn builder_with(
        extra: Option<String>,
        client_id: Option<i32>,
    ) -> (b: RTDMessagePositionsBuilder)
        ensures
            b@ == Self::initial_view(text_of(extra), client_id),
    {
        let mut inner = MessagePositions::default();
        inner.extra = extra;
        inner.client_id = client_id;
        RTDMessagePositionsBuilder { inner }
    }

    /// Assembles a record from the values of all its fields, as they come
    /// off the wire.
    pub fn from_parts(
        extra: Option<String>,
        client_id: Option<i32>,
        total_count: i32,
        positions: Vec<MessagePosition>,
    ) -> (r: Self)
        ensures
            r@ == (MessagePositionsView {
                extra: text_of(extra),
                client_id,
                total_count,
                positions: positions@,
            }),
    {
        MessagePositions { extra, client_id, total_count, positions }
    }

    pub fn total_count(&self) -> (r: i32)
        ensures
            r == self@.total_count,
    {
        self.total_count
    }

    pub fn positions(&self) -> (r: &Vec<MessagePosition>)
        ensures
            r@ == self@.positions,
    {
        &self.positions
    }
}

/// Fluent builder of a [`MessagePositions`].
pub struct RTDMessagePositionsBuilder {
    inner: MessagePositions,
}

impl View for RTDMessagePositionsBuilder {
    type V = MessagePositionsView;

    closed spec fn view(&self) -> MessagePositionsView {
        self.inner@
    }
}

impl RTDMessagePositionsBuilder {
    /// A copy of the record built so far.
    pub fn build(&self) -> (r: MessagePositions)
        ensures
            r@ == self@,
    {
        self.inner.clone()
    }

    pub fn total_count(&mut self, total_count: i32) -> (ret: &mut Self)
        ensures
            ret@ == (MessagePositionsView { total_count, ..old(self)@ }),
            *final(self) == *final(ret),
    {
        self.inner.total_count = total_count;
        self
    }

    pub fn positions(&mut self, positions: Vec<MessagePosition>) -> (ret: &mut Self)
        ensures
            ret@ == (MessagePositionsView { positions: positions@, ..old(self)@ }),
            *final(self) == *final(ret),
    {
        self.inner.positions = positions;
        self
    }
}

impl AsRef<MessagePositions> for MessagePositions {
    fn as_ref(&self) -> (r: &MessagePositions)
        ensures
            r == self,
    {
        self
    }
}

impl AsRef<MessagePositions> for RTDMessagePositionsBuilder {
    fn as_ref(&self) -> (r: &MessagePositions)
        ensures
            r@ == self@,
    {
        &self.inner
    }
}

} // verus!
