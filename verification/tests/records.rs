use tdlib_types::types::{
    ChatInviteLinkMember, ChatInviteLinkMembers, ClosedVectorPath, Emojis, File, MessagePosition,
    MessagePositions, NotificationSound, Point, RObject, Sticker, StickerSet, StickerType,
    Thumbnail, ThumbnailFormat, VectorPathCommand,
};

fn position(position: i32, message_id: i64, date: i32) -> MessagePosition {
    MessagePosition { position, message_id, date }
}

#[test]
fn message_positions_defaults() {
    let built = MessagePositions::builder().build();
    assert_eq!(built.total_count(), 0);
    assert!(built.positions().is_empty());
}

#[test]
fn message_positions_fields_round_trip() {
    let list = vec![position(0, 100, 1_600_000_000), position(1, 101, 1_600_000_060)];
    let built = MessagePositions::builder().total_count(2).positions(list).build();
    assert_eq!(built.total_count(), 2);
    assert_eq!(built.positions().len(), 2);
    assert_eq!(built.positions()[0].position, 0);
    assert_eq!(built.positions()[0].message_id, 100);
    assert_eq!(built.positions()[0].date, 1_600_000_000);
    assert_eq!(built.positions()[1].position, 1);
    assert_eq!(built.positions()[1].message_id, 101);
    assert_eq!(built.positions()[1].date, 1_600_000_060);
}

#[test]
fn message_positions_build_is_a_snapshot() {
    let mut builder = MessagePositions::builder();
    builder.positions(vec![position(4, 5, 6)]);
    let first = builder.build();
    builder.positions(Vec::new()).total_count(-3);
    let second = builder.build();
    assert_eq!(first.positions().len(), 1);
    assert_eq!(first.total_count(), 0);
    assert_eq!(second.positions().len(), 0);
    assert_eq!(second.total_count(), -3);
}

#[test]
fn message_positions_as_ref_and_clone() {
    let mut builder = MessagePositions::builder();
    builder.total_count(1).positions(vec![position(9, 8, 7)]);
    let inner: &MessagePositions = builder.as_ref();
    assert_eq!(inner.total_count(), 1);
    let copy = inner.clone();
    assert_eq!(copy.positions()[0].message_id, 8);
    assert_eq!(copy.extra(), inner.extra());
    let same: &MessagePositions = copy.as_ref();
    assert_eq!(same.positions()[0].position, 9);
}

#[test]
fn message_position_default_is_zero() {
    let p = MessagePosition::default();
    assert_eq!((p.position, p.message_id, p.date), (0, 0, 0));
}

#[test]
fn chat_invite_link_members_defaults() {
    let built = ChatInviteLinkMembers::builder().build();
    assert_eq!(built.total_count(), 0);
    assert!(built.members().is_empty());
}

#[test]
fn chat_invite_link_members_fields_round_trip() {
    let members = vec![
        ChatInviteLinkMember { user_id: 1, joined_chat_date: 10, approver_user_id: 0 },
        ChatInviteLinkMember { user_id: 2, joined_chat_date: 20, approver_user_id: 99 },
        ChatInviteLinkMember { user_id: 3, joined_chat_date: 30, approver_user_id: 99 },
    ];
    let built = ChatInviteLinkMembers::builder().members(members).total_count(3).build();
    assert_eq!(built.total_count(), 3);
    assert_eq!(built.members().len(), 3);
    assert_eq!(built.members()[0].user_id, 1);
    assert_eq!(built.members()[1].joined_chat_date, 20);
    assert_eq!(built.members()[2].approver_user_id, 99);
}

#[test]
fn chat_invite_link_members_as_ref_and_clone() {
    let mut builder = ChatInviteLinkMembers::builder_with(None, Some(1));
    builder.total_count(i32::MAX);
    let inner: &ChatInviteLinkMembers = builder.as_ref();
    assert_eq!(inner.total_count(), i32::MAX);
    let copy = builder.build().clone();
    assert_eq!(copy.total_count(), i32::MAX);
    assert_eq!(copy.client_id(), Some(1));
    let same: &ChatInviteLinkMembers = copy.as_ref();
    assert!(same.members().is_empty());
    let d = ChatInviteLinkMember::default();
    assert_eq!((d.user_id, d.joined_chat_date, d.approver_user_id), (0, 0, 0));
}

#[test]
fn notification_sound_defaults() {
    let built = NotificationSound::builder().build();
    assert_eq!(built.id(), 0);
    assert_eq!(built.duration(), 0);
    assert_eq!(built.date(), 0);
    assert_eq!(built.title(), "");
    assert_eq!(built.data(), "");
    assert_eq!(built.sound().id, 0);
    assert_eq!(built.sound().size, 0);
    assert_eq!(built.sound().expected_size, 0);
}

#[test]
fn notification_sound_fields_round_trip() {
    let file = File { id: 11, size: 2048, expected_size: 4096 };
    let built = NotificationSound::builder()
        .id(5_000_000_000)
        .duration(3)
        .date(1_650_000_000)
        .title("Chime")
        .data("opaque")
        .sound(&file)
        .build();
    assert_eq!(built.id(), 5_000_000_000);
    assert_eq!(built.duration(), 3);
    assert_eq!(built.date(), 1_650_000_000);
    assert_eq!(built.title(), "Chime");
    assert_eq!(built.data(), "opaque");
    assert_eq!(built.sound().id, 11);
    assert_eq!(built.sound().size, 2048);
    assert_eq!(built.sound().expected_size, 4096);
}

#[test]
fn notification_sound_setters_leave_other_fields() {
    let mut builder = NotificationSound::builder();
    builder.title("a").data("b");
    builder.title("c");
    builder.duration(1).date(2).id(3);
    let built = builder.build();
    assert_eq!(built.title(), "c");
    assert_eq!(built.data(), "b");
    assert_eq!((built.id(), built.duration(), built.date()), (3, 1, 2));
}

#[test]
fn notification_sound_keeps_non_ascii_text() {
    let built = NotificationSound::builder().title("Glöckchen 🔔").build();
    assert_eq!(built.title(), "Glöckchen 🔔");
    assert_eq!(built.clone().title(), "Glöckchen 🔔");
}

#[test]
fn notification_sound_as_ref_and_clone() {
    let mut builder = NotificationSound::builder();
    builder.title("t").sound(&File { id: 1, size: 2, expected_size: 3 });
    let inner: &NotificationSound = builder.as_ref();
    assert_eq!(inner.title(), "t");
    let built = builder.build();
    let copy = built.clone();
    assert_eq!(copy.sound().size, 2);
    assert_eq!(copy.extra(), built.extra());
    let same: &NotificationSound = copy.as_ref();
    assert_eq!(same.title(), "t");
    let f = File::default();
    assert_eq!((f.id, f.size, f.expected_size), (0, 0, 0));
}

fn line(x_bits: u64, y_bits: u64) -> VectorPathCommand {
    VectorPathCommand::Line { end_point: Point { x_bits, y_bits } }
}

fn emoji_list(items: &[&str]) -> Emojis {
    Emojis { emojis: items.iter().map(|s| s.to_string()).collect() }
}

#[test]
fn sticker_set_defaults() {
    let built = StickerSet::builder().build();
    assert_eq!(built.id(), 0);
    assert_eq!(built.title(), "");
    assert_eq!(built.name(), "");
    assert!(built.thumbnail().is_none());
    assert!(built.thumbnail_outline().is_empty());
    assert!(!built.is_installed());
    assert!(!built.is_archived());
    assert!(!built.is_official());
    assert!(built.sticker_type()._is_default());
    assert!(!built.is_viewed());
    assert!(built.stickers().is_empty());
    assert!(built.emojis().is_empty());
}

#[test]
fn sticker_set_fields_round_trip() {
    let thumbnail = Thumbnail {
        format: ThumbnailFormat::Webp,
        width: 100,
        height: 100,
        file: File { id: 7, size: 1, expected_size: 1 },
    };
    let outline = vec![
        ClosedVectorPath { commands: vec![line(1, 2), line(3, 4)] },
        ClosedVectorPath { commands: Vec::new() },
    ];
    let sticker = Sticker {
        set_id: 42,
        width: 512,
        height: 512,
        sticker_type: StickerType::Regular,
        sticker: File { id: 8, size: 9, expected_size: 10 },
    };
    let built = StickerSet::builder()
        .id(42)
        .title("Cats")
        .name("cats_by_someone")
        .thumbnail(&thumbnail)
        .thumbnail_outline(outline)
        .is_installed(true)
        .is_archived(false)
        .is_official(true)
        .sticker_type(&StickerType::Regular)
        .is_viewed(true)
        .stickers(vec![sticker])
        .emojis(vec![emoji_list(&["😺", "😸"]), emoji_list(&[])])
        .build();
    assert_eq!(built.id(), 42);
    assert_eq!(built.title(), "Cats");
    assert_eq!(built.name(), "cats_by_someone");
    let t = built.thumbnail().as_ref().unwrap();
    assert!(matches!(t.format, ThumbnailFormat::Webp));
    assert_eq!((t.width, t.height, t.file.id), (100, 100, 7));
    assert_eq!(built.thumbnail_outline().len(), 2);
    assert_eq!(built.thumbnail_outline()[0].commands.len(), 2);
    assert!(matches!(
        built.thumbnail_outline()[0].commands[1],
        VectorPathCommand::Line { end_point: Point { x_bits: 3, y_bits: 4 } }
    ));
    assert!(built.thumbnail_outline()[1].commands.is_empty());
    assert!(built.is_installed());
    assert!(!built.is_archived());
    assert!(built.is_official());
    assert!(matches!(built.sticker_type(), StickerType::Regular));
    assert!(built.is_viewed());
    assert_eq!(built.stickers().len(), 1);
    assert_eq!(built.stickers()[0].set_id, 42);
    assert_eq!(built.stickers()[0].sticker.expected_size, 10);
    assert_eq!(built.emojis().len(), 2);
    assert_eq!(built.emojis()[0].emojis, vec!["😺".to_string(), "😸".to_string()]);
    assert!(built.emojis()[1].emojis.is_empty());
}

#[test]
fn sticker_set_setters_leave_other_fields() {
    let mut builder = StickerSet::builder_with(Some("k".to_string()), Some(5));
    builder.title("first").name("n").is_archived(true);
    builder.title("second");
    builder.is_installed(true).is_installed(false);
    let built = builder.build();
    assert_eq!(built.title(), "second");
    assert_eq!(built.name(), "n");
    assert!(built.is_archived());
    assert!(!built.is_installed());
    assert_eq!(built.extra(), Some("k"));
    assert_eq!(built.client_id(), Some(5));
    assert!(built.thumbnail().is_none());
}

#[test]
fn sticker_set_build_is_a_deep_snapshot() {
    let mut builder = StickerSet::builder();
    builder.emojis(vec![emoji_list(&["a"])]);
    builder.thumbnail_outline(vec![ClosedVectorPath { commands: vec![line(5, 6)] }]);
    let first = builder.build();
    builder.emojis(vec![emoji_list(&["b", "c"]), emoji_list(&["d"])]);
    builder.thumbnail_outline(Vec::new());
    let second = builder.build();
    assert_eq!(first.emojis().len(), 1);
    assert_eq!(first.emojis()[0].emojis, vec!["a".to_string()]);
    assert_eq!(first.thumbnail_outline().len(), 1);
    assert_eq!(second.emojis().len(), 2);
    assert_eq!(second.emojis()[0].emojis, vec!["b".to_string(), "c".to_string()]);
    assert_eq!(second.emojis()[1].emojis, vec!["d".to_string()]);
    assert!(second.thumbnail_outline().is_empty());
}

#[test]
fn sticker_set_as_ref_and_clone() {
    let mut builder = StickerSet::builder();
    builder.id(-1).sticker_type(&StickerType::Mask);
    let inner: &StickerSet = builder.as_ref();
    assert_eq!(inner.id(), -1);
    let built = builder.build();
    let copy = built.clone();
    assert_eq!(copy.id(), -1);
    assert!(matches!(copy.sticker_type(), StickerType::Mask));
    assert_eq!(copy.extra(), built.extra());
    let same: &StickerSet = copy.as_ref();
    assert_eq!(same.id(), -1);
}

#[test]
fn sticker_type_default_is_the_unset_variant() {
    assert!(StickerType::default()._is_default());
    assert!(!StickerType::Regular._is_default());
    assert!(!StickerType::Mask._is_default());
    assert!(!StickerType::CustomEmoji._is_default());
}

#[test]
fn nested_defaults_are_empty() {
    assert!(Emojis::default().emojis.is_empty());
    assert!(ClosedVectorPath::default().commands.is_empty());
    let t = Thumbnail::default();
    assert!(matches!(t.format, ThumbnailFormat::_Default));
    assert_eq!((t.width, t.height, t.file.id), (0, 0, 0));
    assert!(matches!(ThumbnailFormat::default(), ThumbnailFormat::_Default));
    let s = Sticker::default();
    assert!(s.sticker_type._is_default());
    assert_eq!((s.set_id, s.width, s.height, s.sticker.id), (0, 0, 0, 0));
}

#[test]
fn emoji_lists_copy_item_by_item() {
    let lists = vec![emoji_list(&["x", "y"]), emoji_list(&[]), emoji_list(&["z"])];
    let copy = Emojis::clone_all(&lists);
    assert_eq!(copy.len(), 3);
    assert_eq!(copy[0].emojis, vec!["x".to_string(), "y".to_string()]);
    assert!(copy[1].emojis.is_empty());
    assert_eq!(copy[2].emojis, vec!["z".to_string()]);
    assert_eq!(lists[0].clone().emojis, vec!["x".to_string(), "y".to_string()]);
    assert!(Emojis::clone_all(&Vec::new()).is_empty());
}

#[test]
fn vector_paths_copy_item_by_item() {
    let bits = 1.5f64.to_bits();
    let curve = VectorPathCommand::CubicBezierCurve {
        start_control_point: Point { x_bits: bits, y_bits: 0 },
        end_control_point: Point { x_bits: 1, y_bits: 2 },
        end_point: Point { x_bits: 3, y_bits: 4 },
    };
    let paths = vec![ClosedVectorPath { commands: vec![curve, line(7, 8)] }];
    let copy = ClosedVectorPath::clone_all(&paths);
    assert_eq!(copy.len(), 1);
    assert_eq!(copy[0].commands.len(), 2);
    match copy[0].commands[0] {
        VectorPathCommand::CubicBezierCurve {
            start_control_point,
            end_control_point,
            end_point,
        } => {
            assert_eq!(f64::from_bits(start_control_point.x_bits), 1.5);
            assert_eq!((end_control_point.x_bits, end_control_point.y_bits), (1, 2));
            assert_eq!((end_point.x_bits, end_point.y_bits), (3, 4));
        }
        _ => panic!("the first command is a curve"),
    }
    assert!(matches!(
        paths[0].clone().commands[1],
        VectorPathCommand::Line { end_point: Point { x_bits: 7, y_bits: 8 } }
    ));
}

#[test]
fn records_assemble_from_their_parts() {
    let m =
        MessagePositions::from_parts(Some("m".to_string()), Some(2), 1, vec![position(1, 2, 3)]);
    assert_eq!(m.extra(), Some("m"));
    assert_eq!(m.client_id(), Some(2));
    assert_eq!(m.total_count(), 1);
    assert_eq!(m.positions()[0].date, 3);

    let c = ChatInviteLinkMembers::from_parts(None, None, 4, Vec::new());
    assert_eq!(c.extra(), None);
    assert_eq!(c.total_count(), 4);
    assert!(c.members().is_empty());

    let n = NotificationSound::from_parts(
        None,
        Some(3),
        9,
        8,
        7,
        "title".to_string(),
        "data".to_string(),
        File { id: 6, size: 5, expected_size: 4 },
    );
    assert_eq!(n.client_id(), Some(3));
    assert_eq!((n.id(), n.duration(), n.date()), (9, 8, 7));
    assert_eq!(n.title(), "title");
    assert_eq!(n.data(), "data");
    assert_eq!((n.sound().id, n.sound().size, n.sound().expected_size), (6, 5, 4));

    let s = StickerSet::from_parts(
        Some("s".to_string()),
        None,
        1,
        "t".to_string(),
        "n".to_string(),
        None,
        vec![ClosedVectorPath { commands: vec![line(1, 1)] }],
        true,
        false,
        true,
        StickerType::CustomEmoji,
        false,
        Vec::new(),
        vec![emoji_list(&["e"])],
    );
    assert_eq!(s.extra(), Some("s"));
    assert_eq!(s.id(), 1);
    assert_eq!(s.title(), "t");
    assert_eq!(s.name(), "n");
    assert!(s.thumbnail().is_none());
    assert_eq!(s.thumbnail_outline().len(), 1);
    assert!(s.is_installed() && !s.is_archived() && s.is_official() && !s.is_viewed());
    assert!(matches!(s.sticker_type(), StickerType::CustomEmoji));
    assert!(s.stickers().is_empty());
    assert_eq!(s.emojis()[0].emojis, vec!["e".to_string()]);
}
