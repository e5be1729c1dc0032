use tdlib_types::types::{
    ChatInviteLinkMembers, GetChatAdministrators, MessagePositions, NotificationSound, RObject,
    SetChatMessageSender, StickerSet,
};

fn has_fresh_shape(s: &str) -> bool {
    let b = s.as_bytes();
    if b.len() != 36 {
        return false;
    }
    for (i, c) in b.iter().enumerate() {
        let hyphen = i == 8 || i == 13 || i == 18 || i == 23;
        if hyphen {
            if *c != b'-' {
                return false;
            }
        } else if !(c.is_ascii_digit() || (b'a'..=b'f').contains(c)) {
            return false;
        }
    }
    b[14] == b'4' && matches!(b[19], b'8' | b'9' | b'a' | b'b')
}

#[test]
fn shape_helper_accepts_and_rejects() {
    assert!(has_fresh_shape("936da01f-9abd-4d9d-80c7-02af85c822a8"));
    assert!(!has_fresh_shape("936DA01F-9ABD-4D9D-80C7-02AF85C822A8"));
    assert!(!has_fresh_shape("936da01f-9abd-1d9d-80c7-02af85c822a8"));
    assert!(!has_fresh_shape("936da01f-9abd-4d9d-c0c7-02af85c822a8"));
    assert!(!has_fresh_shape("936da01f9abd4d9d80c702af85c822a8"));
    assert!(!has_fresh_shape(""));
}

#[test]
fn sticker_set_builder_draws_a_fresh_extra() {
    let built = StickerSet::builder().build();
    let extra = built.extra().expect("a fresh record carries an identifier");
    assert_eq!(extra.len(), 36);
    assert!(has_fresh_shape(extra));
    assert_eq!(built.client_id(), None);
}

#[test]
fn message_positions_builder_draws_a_fresh_extra() {
    let built = MessagePositions::builder().build();
    assert!(has_fresh_shape(built.extra().unwrap()));
    assert_eq!(built.client_id(), None);
}

#[test]
fn notification_sound_builder_draws_a_fresh_extra() {
    let built = NotificationSound::builder().build();
    assert!(has_fresh_shape(built.extra().unwrap()));
    assert_eq!(built.client_id(), None);
}

#[test]
fn chat_invite_link_members_builder_draws_a_fresh_extra() {
    let built = ChatInviteLinkMembers::builder().build();
    assert!(has_fresh_shape(built.extra().unwrap()));
    assert_eq!(built.client_id(), None);
}

#[test]
fn request_builders_draw_a_fresh_extra() {
    let a = GetChatAdministrators::builder().build();
    let b = SetChatMessageSender::builder().build();
    assert!(has_fresh_shape(a.extra().unwrap()));
    assert!(has_fresh_shape(b.extra().unwrap()));
    assert_eq!(a.client_id(), None);
    assert_eq!(b.client_id(), None);
}

#[test]
fn many_fresh_extras_all_have_the_shape() {
    for _ in 0..200 {
        let built = GetChatAdministrators::builder().build();
        assert!(has_fresh_shape(built.extra().unwrap()));
    }
}

#[test]
fn two_builders_draw_different_extras() {
    let a = GetChatAdministrators::builder().build();
    let b = GetChatAdministrators::builder().build();
    assert_ne!(a.extra().unwrap(), b.extra().unwrap());
}

#[test]
fn build_keeps_the_extra_of_its_builder() {
    let builder = StickerSet::builder();
    let first = builder.build();
    let second = builder.build();
    assert_eq!(first.extra(), second.extra());
}

#[test]
fn builder_with_takes_the_given_metadata() {
    let built = NotificationSound::builder_with(Some("abc".to_string()), Some(7)).build();
    assert_eq!(built.extra(), Some("abc"));
    assert_eq!(built.client_id(), Some(7));

    let bare = MessagePositions::builder_with(None, None).build();
    assert_eq!(bare.extra(), None);
    assert_eq!(bare.client_id(), None);

    let negative = ChatInviteLinkMembers::builder_with(Some(String::new()), Some(-1)).build();
    assert_eq!(negative.extra(), Some(""));
    assert_eq!(negative.client_id(), Some(-1));
}

#[test]
fn default_records_carry_no_metadata() {
    assert_eq!(StickerSet::default().extra(), None);
    assert_eq!(StickerSet::default().client_id(), None);
    assert_eq!(MessagePositions::default().extra(), None);
    assert_eq!(NotificationSound::default().extra(), None);
    assert_eq!(ChatInviteLinkMembers::default().extra(), None);
    assert_eq!(GetChatAdministrators::default().extra(), None);
    assert_eq!(SetChatMessageSender::default().client_id(), None);
}
