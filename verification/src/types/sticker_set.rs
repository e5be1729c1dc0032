//! A sticker set.

use vstd::prelude::*;
use crate::types::closed_vector_path::{ClosedVectorPath, VectorPathCommand};
use crate::types::correlation::{fresh_extra, is_fresh_extra};
use crate::types::emojis::Emojis;
use crate::types::sticker::Sticker;
use crate::types::sticker_type::StickerType;
use crate::types::thumbnail::Thumbnail;
use crate::types::{text_of, RObject};

verus! {

/// Represents a sticker set.
#[derive(Debug)]
pub struct StickerSet {
    extra: Option<String>,
    client_id: Option<i32>,
    /// Identifier of the sticker set
    id: i64,
    /// Title of the sticker set
    title: String,
    /// Name of the sticker set
    name: String,
    /// Sticker set thumbnail in WEBP, TGS, or WEBM format with width and height 100; may be absent
    thumbnail: Option<Thumbnail>,
    /// Sticker set thumbnail's outline represented as a list of closed vector paths; may be empty
    thumbnail_outline: Vec<ClosedVectorPath>,
    /// True, if the sticker set has been installed by the current user
    is_installed: bool,
    /// True, if the sticker set has been archived
    is_archived: bool,
    /// True, if the sticker set is official
    is_official: bool,
    /// Type of the stickers in the set
    sticker_type: StickerType,
    /// True for already viewed trending sticker sets
    is_viewed: bool,
    /// List of stickers in this set
    stickers: Vec<Sticker>,
    /// A list of emoji corresponding to the stickers in the same order
    emojis: Vec<Emojis>,
}

/// Mathematical value of a [`StickerSet`].
pub struct StickerSetView {
    pub extra: Option<Seq<char>>,
    pub client_id: Option<i32>,
    pub id: i64,
    pub title: Seq<char>,
    pub name: Seq<char>,
    pub thumbnail: Option<Thumbnail>,
    pub thumbnail_outline: Seq<Seq<VectorPathCommand>>,
    pub is_installed: bool,
    pub is_archived: bool,
    pub is_official: bool,
    pub sticker_type: StickerType,
    pub is_viewed: bool,
    pub stickers: Seq<Sticker>,
    pub emojis: Seq<Seq<Seq<char>>>,
}

impl View for StickerSet {
    type V = StickerSetView;

    closed spec fn view(&self) -> StickerSetView {
        StickerSetView {
            extra: text_of(self.extra),
            client_id: self.client_id,
            id: self.id,
            title: self.title@,
            name: self.name@,
            thumbnail: self.thumbnail,
            thumbnail_outline: ClosedVectorPath::views(self.thumbnail_outline@),
            is_installed: self.is_installed,
            is_archived: self.is_archived,
            is_official: self.is_official,
            sticker_type: self.sticker_type,
            is_viewed: self.is_viewed,
            stickers: self.stickers@,
            emojis: Emojis::views(self.emojis@),
        }
    }
}

impl Default for StickerSet {
    /// The empty record: no routing metadata, every field at its default.
    fn default() -> (r: Self)
        ensures
            r@ == Self::default_view(),
    {
        let r = StickerSet {
            extra: None,
            client_id: None,
            id: 0,
            title: String::new(),
            name: String::new(),
            thumbnail: None,
            thumbnail_outline: Vec::new(),
            is_installed: false,
            is_archived: false,
            is_official: false,
            sticker_type: StickerType::_Default,
            is_viewed: false,
            stickers: Vec::new(),
            emojis: Vec::new(),
        };
        assert(r@.thumbnail_outline =~= Seq::empty());
        assert(r@.emojis =~= Seq::empty());
        r
    }
}

impl Clone for StickerSet {
    fn clone(&self) -> (r: Self)
        ensures
            r@ == self@,
    {
        let thumbnail_outline = ClosedVectorPath::clone_all(&self.thumbnail_outline);
        let stickers = self.stickers.clone();
        assert(stickers@ =~= self.stickers@);
        let emojis = Emojis::clone_all(&self.emojis);
        StickerSet {
            extra: match &self.extra {
                Some(s) => Some(s.clone()),
                None => None,
            },
            client_id: self.client_id,
            id: self.id,
            title: self.title.clone(),
            name: self.name.clone(),
            thumbnail: self.thumbnail,
            thumbnail_outline,
            is_installed: self.is_installed,
            is_archived: self.is_archived,
            is_official: self.is_official,
            sticker_type: self.sticker_type,
            is_viewed: self.is_viewed,
            stickers,
            emojis,
        }
    }
}

impl RObject for StickerSet {
    open spec fn extra_spec(&self) -> Option<Seq<char>> {
        self@.extra
    }

    open spec fn client_id_spec(&self) -> Option<i32> {
        self@.client_id
    }

    fn extra(&self) -> (r: Option<&str>) {
        match &self.extra {
            Some(s) => Some(s.as_str()),
            None => None,
        }
    }

    fn client_id(&self) -> (r: Option<i32>) {
        self.client_id
    }
}

impl StickerSet {
    /// Value of the empty record.
    pub open spec fn default_view() -> StickerSetView {
        StickerSetView {
            extra: None,
            client_id: None,
            id: 0,
            title: Seq::empty(),
            name: Seq::empty(),
            thumbnail: None,
            thumbnail_outline: Seq::empty(),
            is_installed: false,
            is_archived: false,
            is_official: false,
            sticker_type: StickerType::_Default,
            is_viewed: false,
            stickers: Seq::empty(),
            emojis: Seq::empty(),
        }
    }

    /// Value a builder starts from, given its routing metadata.
    pub open spec fn initial_view(
        extra: Option<Seq<char>>,
        client_id: Option<i32>,
    ) -> StickerSetView {
        StickerSetView { extra, client_id, ..Self::default_view() }
    }

    /// Starts a builder whose record carries a fresh correlation identifier
    /// and, in every other field, its default.
    pub fn builder() -> (b: RTDStickerSetBuilder)
        ensures
            b@.extra.is_some(),
            is_fresh_extra(b@.extra.unwrap()),
            b@ == Self::initial_view(b@.extra, None),
    {
        Self::builder_with(Some(fresh_extra()), None)
    }

    /// Starts a builder from the given routing metadata. Every other field
    /// has its default.
    pub fn builder_with(
        extra: Option<String>,
        client_id: Option<i32>,
    ) -> (b: RTDStickerSetBuilder)
        ensures
            b@ == Self::initial_view(text_of(extra), client_id),
    {
        let mut inner = StickerSet::default();
        inner.extra = extra;
        inner.client_id = client_id;
        RTDStickerSetBuilder { inner }
    }

    /// Assembles a record from the values of all its fields, as they come
    /// off the wire.
    pub fn from_parts(
        extra: Option<String>,
        client_id: Option<i32>,
        id: i64,
        title: String,
        name: String,
        thumbnail: Option<Thumbnail>,
        thumbnail_outline: Vec<ClosedVectorPath>,
        is_installed: bool,
        is_archived: bool,
        is_official: bool,
        sticker_type: StickerType,
        is_viewed: bool,
        stickers: Vec<Sticker>,
        emojis: Vec<Emojis>,
    ) -> (r: Self)
        ensures
            r@ == (StickerSetView {
                extra: text_of(extra),
                client_id,
                id,
                title: title@,
                name: name@,
                thumbnail,
                thumbnail_outline: ClosedVectorPath::views(thumbnail_outline@),
                is_installed,
                is_archived,
                is_official,
                sticker_type,
                is_viewed,
                stickers: stickers@,
                emojis: Emojis::views(emojis@),
            }),
    {
        StickerSet {
            extra,
            client_id,
            id,
            title,
            name,
            thumbnail,
            thumbnail_outline,
            is_installed,
            is_archived,
            is_official,
            sticker_type,
            is_viewed,
            stickers,
            emojis,
        }
    }

    pub fn id(&self) -> (r: i64)
        ensures
            r == self@.id,
    {
        self.id
    }

    pub fn title(&self) -> (r: &String)
        ensures
            r@ == self@.title,
    {
        &self.title
    }

    pub fn name(&self) -> (r: &String)
        ensures
            r@ == self@.name,
    {
        &self.name
    }

    pub fn thumbnail(&self) -> (r: &Option<Thumbnail>)
        ensures
            *r == self@.thumbnail,
    {
        &self.thumbnail
    }

    pub fn thumbnail_outline(&self) -> (r: &Vec<ClosedVectorPath>)
        ensures
            ClosedVectorPath::views(r@) == self@.thumbnail_outline,
    {
        &self.thumbnail_outline
    }

    pub fn is_installed(&self) -> (r: bool)
        ensures
            r == self@.is_installed,
    {
        self.is_installed
    }

    pub fn is_archived(&self) -> (r: bool)
        ensures
            r == self@.is_archived,
    {
        self.is_archived
    }

    pub fn is_official(&self) -> (r: bool)
        ensures
            r == self@.is_official,
    {
        self.is_official
    }

    pub fn sticker_type(&self) -> (r: &StickerType)
        ensures
            *r == self@.sticker_type,
    {
        &self.sticker_type
    }

    pub fn is_viewed(&self) -> (r: bool)
        ensures
            r == self@.is_viewed,
    {
        self.is_viewed
    }

    pub fn stickers(&self) -> (r: &Vec<Sticker>)
        ensures
            r@ == self@.stickers,
    {
        &self.stickers
    }

    pub fn emojis(&self) -> (r: &Vec<Emojis>)
        ensures
            Emojis::views(r@) == self@.emojis,
    {
        &self.emojis
    }
}

/// Fluent builder of a [`StickerSet`].
pub struct RTDStickerSetBuilder {
    inner: StickerSet,
}

impl View for RTDStickerSetBuilder {
    type V = StickerSetView;

    closed spec fn view(&self) -> StickerSetView {
        self.inner@
    }
}

impl RTDStickerSetBuilder {
    /// A copy of the record built so far.
    pub fn build(&self) -> (r: StickerSet)
        ensures
            r@ == self@,
    {
        self.inner.clone()
    }

    pub fn id(&mut self, id: i64) -> (ret: &mut Self)
        ensures
            ret@ == (StickerSetView { id, ..old(self)@ }),
            *final(self) == *final(ret),
    {
        self.inner.id = id;
        self
    }

    pub fn title(&mut self, title: &str) -> (ret: &mut Self)
        ensures
            ret@ == (StickerSetView { title: title@, ..old(self)@ }),
            *final(self) == *final(ret),
    {
        self.inner.title = title.to_string();
        self
    }

    pub fn name(&mut self, name: &str) -> (ret: &mut Self)
        ensures
            ret@ == (StickerSetView { name: name@, ..old(self)@ }),
            *final(self) == *final(ret),
    {
        self.inner.name = name.to_string();
        self
    }

    pub fn thumbnail(&mut self, thumbnail: &Thumbnail) -> (ret: &mut Self)
        ensures
            ret@ == (StickerSetView { thumbnail: Some(*thumbnail), ..old(self)@ }),
            *final(self) == *final(ret),
    {
        self.inner.thumbnail = Some(*thumbnail);
        self
    }

    pub fn thumbnail_outline(
        &mut self,
        thumbnail_outline: Vec<ClosedVectorPath>,
    ) -> (ret: &mut Self)
        ensures
            ret@ == (StickerSetView {
                thumbnail_outline: ClosedVectorPath::views(thumbnail_outline@),
                ..old(self)@
            }),
            *final(self) == *final(ret),
    {
        self.inner.thumbnail_outline = thumbnail_outline;
        self
    }

    pub fn is_installed(&mut self, is_installed: bool) -> (ret: &mut Self)
        ensures
            ret@ == (StickerSetView { is_installed, ..old(self)@ }),
            *final(self) == *final(ret),
    {
        self.inner.is_installed = is_installed;
        self
    }

    pub fn is_archived(&mut self, is_archived: bool) -> (ret: &mut Self)
        ensures
            ret@ == (StickerSetView { is_archived, ..old(self)@ }),
            *final(self) == *final(ret),
    {
        self.inner.is_archived = is_archived;
        self
    }

    pub fn is_official(&mut self, is_official: bool) -> (ret: &mut Self)
        ensures
            ret@ == (StickerSetView { is_official, ..old(self)@ }),
            *final(self) == *final(ret),
    {
        self.inner.is_official = is_official;
        self
    }

    pub fn sticker_type(&mut self, sticker_type: &StickerType) -> (ret: &mut Self)
        ensures
            ret@ == (StickerSetView { sticker_type: *sticker_type, ..old(self)@ }),
            *final(self) == *final(ret),
    {
        self.inner.sticker_type = *sticker_type;
        self
    }

    pub fn is_viewed(&mut self, is_viewed: bool) -> (ret: &mut Self)
        ensures
            ret@ == (StickerSetView { is_viewed, ..old(self)@ }),
            *final(self) == *final(ret),
    {
        self.inner.is_viewed = is_viewed;
        self
    }

    pub fn stickers(&mut self, stickers: Vec<Sticker>) -> (ret: &mut Self)
        ensures
            ret@ == (StickerSetView { stickers: stickers@, ..old(self)@ }),
            *final(self) == *final(ret),
    {
        self.inner.stickers = stickers;
        self
    }

    pub fn emojis(&mut self, emojis: Vec<Emojis>) -> (ret: &mut Self)
        ensures
            ret@ == (StickerSetView { emojis: Emojis::views(emojis@), ..old(self)@ }),
            *final(self) == *final(ret),
    {
        self.inner.emojis = emojis;
        self
    }
}

impl AsRef<StickerSet> for StickerSet {
    fn as_ref(&self) -> (r: &StickerSet)
        ensures
            r == self,
    {
        self
    }
}

impl AsRef<StickerSet> for RTDStickerSetBuilder {
    fn as_ref(&self) -> (r: &StickerSet)
        ensures
            r@ == self@,
    {
        &self.inner
    }
}

} // verus!
