//! A notification sound.

use vstd::prelude::*;
use crate::types::correlation::{fresh_extra, is_fresh_extra};
use crate::types::file::File;
use crate::types::{text_of, RObject};

verus! {

/// Describes a notification sound in MP3 format.
#[derive(Debug)]
pub struct NotificationSound {
    extra: Option<String>,
    client_id: Option<i32>,
    /// Unique identifier of the notification sound
    id: i64,
    /// Duration of the sound, in seconds
    duration: i32,
    /// Point in time (Unix timestamp) when the sound was created
    date: i32,
    /// Title of the notification sound
    title: String,
    /// Arbitrary data, defined while the sound was uploaded
    data: String,
    /// File containing the sound
    sound: File,
}

/// Mathematical value of a [`NotificationSound`].
pub struct NotificationSoundView {
    pub extra: Option<Seq<char>>,
    pub client_id: Option<i32>,
    pub id: i64,
    pub duration: i32,
    pub date: i32,
    pub title: Seq<char>,
    pub data: Seq<char>,
    pub sound: File,
}

impl View for NotificationSound {
    type V = NotificationSoundView;

    closed spec fn view(&self) -> NotificationSoundView {
        NotificationSoundView {
            extra: text_of(self.extra),
            client_id: self.client_id,
            id: self.id,
            duration: self.duration,
            date: self.date,
            title: self.title@,
            data: self.data@,
            sound: self.sound,
        }
    }
}

impl Default for NotificationSound {
    /// The empty record: no routing metadata, every field at its default.
    fn default() -> (r: Self)
        ensures
            r@ == Self::default_view(),
    {
        let r = NotificationSound {
            extra: None,
            client_id: None,
            id: 0,
            duration: 0,
            date: 0,
            title: String::new(),
            data: String::new(),
            sound: File { id: 0, size: 0, expected_size: 0 },
        };
        r
    }
}

impl Clone for NotificationSound {
    fn clone(&self) -> (r: Self)
        ensures
            r@ == self@,
    {
        NotificationSound {
            extra: match &self.extra {
                Some(s) => Some(s.clone()),
                None => None,
            },
            client_id: self.client_id,
            id: self.id,
            duration: self.duration,
            date: self.date,
            title: self.title.clone(),
            data: self.data.clone(),
            sound: self.sound,
        }
    }
}

impl RObject for NotificationSound {
    open spec fn extra_spec(&self) -> Option<Seq<char>> {
        self@.extra
    }

    open spec fn client_id_spec(&self) -> Option<i32> {
        self@.client_id
    }

    fn extra(&self) -> (r: Option<&str>) {
        match &self.extra {
            Some(s) => Some(s.as_str()),
            None => None,
        }
    }

    fn client_id(&self) -> (r: Option<i32>) {
        self.client_id
    }
}

impl NotificationSound {
    /// Value of the empty record.
    pub open spec fn default_view() -> NotificationSoundView {
        NotificationSoundView {
            extra: None,
            client_id: None,
            id: 0,
            duration: 0,
            date: 0,
            title: Seq::empty(),
            data: Seq::empty(),
            sound: File { id: 0, size: 0, expected_size: 0 },
        }
    }

    /// Value a builder starts from, given its routing metadata.
    pub open spec fn initial_view(
        extra: Option<Seq<char>>,
        client_id: Option<i32>,
    ) -> NotificationSoundView {
        NotificationSoundView { extra, client_id, ..Self::default_view() }
    }

    /// Starts a builder whose record carries a fresh correlation identifier
    /// and, in every other field, its default.
    pub fn builder() -> (b: RTDNotificationSoundBuilder)
        ensures
            b@.extra.is_some(),
            is_fresh_extra(b@.extra.unwrap()),
            b@ == Self::initial_view(b@.extra, None),
    {
        Self::builder_with(Some(fresh_extra()), None)
    }

    /// Starts a builder from the given routing metadata. Every other field
    /// has its default.
    pub fn builder_with(
        extra: Option<String>,
        client_id: Option<i32>,
    ) -> (b: RTDNotificationSoundBuilder)
        ensures
            b@ == Self::initial_view(text_of(extra), client_id),
    {
        let mut inner = NotificationSound::default();
        inner.extra = extra;
        inner.client_id = client_id;
        RTDNotificationSoundBuilder { inner }
    }

    /// Assembles a record from the values of all its fields, as they come
    /// off the wire.
    pub fn from_parts(
        extra: Option<String>,
        client_id: Option<i32>,
        id: i64,
        duration: i32,
        date: i32,
        title: String,
        data: String,
        sound: File,
    ) -> (r: Self)
        ensures
            r@ == (NotificationSoundView {
                extra: text_of(extra),
                client_id,
                id,
                duration,
                date,
                title: title@,
                data: data@,
                sound,
            }),
    {
        NotificationSound { extra, client_id, id, duration, date, title, data, sound }
    }

    pub fn id(&self) -> (r: i64)
        ensures
            r == self@.id,
    {
        self.id
    }

    pub fn duration(&self) -> (r: i32)
        ensures
            r == self@.duration,
    {
        self.duration
    }

    pub fn date(&self) -> (r: i32)
        ensures
            r == self@.date,
    {
        self.date
    }

    pub fn title(&self) -> (r: &String)
        ensures
            r@ == self@.title,
    {
        &self.title
    }

    pub fn data(&self) -> (r: &String)
        ensures
            r@ == self@.data,
    {
        &self.data
    }

    pub fn sound(&self) -> (r: &File)
        ensures
            *r == self@.sound,
    {
        &self.sound
    }
}

/// Fluent builder of a [`NotificationSound`].
pub struct RTDNotificationSoundBuilder {
    inner: NotificationSound,
}

impl View for RTDNotificationSoundBuilder {
    type V = NotificationSoundView;

    closed spec fn view(&self) -> NotificationSoundView {
        self.inner@
    }
}

impl RTDNotificationSoundBuilder {
    /// A copy of the record built so far.
    pub fn build(&self) -> (r: NotificationSound)
        ensures
            r@ == self@,
    {
        self.inner.clone()
    }

    pub fn id(&mut self, id: i64) -> (ret: &mut Self)
        ensures
            ret@ == (NotificationSoundView { id, ..old(self)@ }),
            *final(self) == *final(ret),
    {
        self.inner.id = id;
        self
    }

    pub fn duration(&mut self, duration: i32) -> (ret: &mut Self)
        ensures
            ret@ == (NotificationSoundView { duration, ..old(self)@ }),
            *final(self) == *final(ret),
    {
        self.inner.duration = duration;
        self
    }

    pub fn date(&mut self, date: i32) -> (ret: &mut Self)
        ensures
            ret@ == (NotificationSoundView { date, ..old(self)@ }),
            *final(self) == *final(ret),
    {
        self.inner.date = date;
        self
    }

    pub fn title(&mut self, title: &str) -> (ret: &mut Self)
        ensures
            ret@ == (NotificationSoundView { title: title@, ..old(self)@ }),
            *final(self) == *final(ret),
    {
        self.inner.title = title.to_string();
        self
    }

    pub fn data(&mut self, data: &str) -> (ret: &mut Self)
        ensures
            ret@ == (NotificationSoundView { data: data@, ..old(self)@ }),
            *final(self) == *final(ret),
    {
        self.inner.data = data.to_string();
        self
    }

    pub fn sound(&mut self, sound: &File) -> (ret: &mut Self)
        ensures
            ret@ == (NotificationSoundView { sound: *sound, ..old(self)@ }),
            *final(self) == *final(ret),
    {
        self.inner.sound = *sound;
        self
    }
}

impl AsRef<NotificationSound> for NotificationSound {
    fn as_ref(&self) -> (r: &NotificationSound)
        ensures
            r == self,
    {
        self
    }
}

impl AsRef<NotificationSound> for RTDNotificationSoundBuilder {
    fn as_ref(&self) -> (r: &NotificationSound)
        ensures
            r@ == self@,
    {
        &self.inner
    }
}

} // verus!
