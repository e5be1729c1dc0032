//! The schema entities, one module each, and the traits they share.

use vstd::prelude::*;

pub mod chat_invite_link_member;
pub mod chat_invite_link_members;
pub mod closed_vector_path;
pub mod correlation;
pub mod emojis;
pub mod file;
pub mod get_chat_administrators;
pub mod message_position;
pub mod message_positions;
pub mod message_sender;
pub mod notification_sound;
pub mod set_chat_message_sender;
pub mod sticker;
pub mod sticker_set;
pub mod sticker_type;
pub mod thumbnail;

pub use self::chat_invite_link_member::ChatInviteLinkMember;
pub use self::chat_invite_link_members::{
    ChatInviteLinkMembers, ChatInviteLinkMembersView, RTDChatInviteLinkMembersBuilder,
};
pub use self::closed_vector_path::{ClosedVectorPath, Point, VectorPathCommand};
pub use self::correlation::{is_fresh_extra, is_hyphen_position, is_lower_hex};
pub use self::emojis::Emojis;
pub use self::file::File;
pub use self::get_chat_administrators::{
    GetChatAdministrators, GetChatAdministratorsBuilder, GetChatAdministratorsView,
    RTDGetChatAdministratorsBuilder,
};
pub use self::message_position::MessagePosition;
pub use self::message_positions::{
    MessagePositions, MessagePositionsView, RTDMessagePositionsBuilder,
};
pub use self::message_sender::MessageSender;
pub use self::notification_sound::{
    NotificationSound, NotificationSoundView, RTDNotificationSoundBuilder,
};
pub use self::set_chat_message_sender::{
    RTDSetChatMessageSenderBuilder, SetChatMessageSender, SetChatMessageSenderView,
};
pub use self::sticker::Sticker;
pub use self::sticker_set::{RTDStickerSetBuilder, StickerSet, StickerSetView};
pub use self::sticker_type::StickerType;
pub use self::thumbnail::{Thumbnail, ThumbnailFormat};

verus! {

/// The text of an optional string.
pub open spec fn text_of(s: Option<String>) -> Option<Seq<char>> {
    match s {
        Some(t) => Some(t@),
        None => None,
    }
}

/// What every entity exposes to the runtime that dispatches it.
pub trait RObject {
    /// The correlation identifier as a mathematical value.
    spec fn extra_spec(&self) -> Option<Seq<char>>;

    /// The session identifier as a mathematical value.
    spec fn client_id_spec(&self) -> Option<i32>;

    /// The correlation identifier attached to this entity, if any.
    fn extra(&self) -> (r: Option<&str>)
        ensures
            r.is_some() == self.extra_spec().is_some(),
            r.is_some() ==> r.unwrap()@ == self.extra_spec().unwrap(),
    ;

    /// The session this entity belongs to, if any.
    fn client_id(&self) -> (r: Option<i32>)
        ensures
            r == self.client_id_spec(),
    ;
}

/// An entity that names a remote operation.
pub trait RFunction: RObject {
    /// The operation tag as a mathematical value.
    spec fn td_type_spec(&self) -> Seq<char>;

    /// The tag naming the remote operation this request invokes.
    fn td_type(&self) -> (r: &str)
        ensures
            r@ == self.td_type_spec(),
    ;
}

} // verus!
