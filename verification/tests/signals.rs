use bulletin::ad::Ad;
use bulletin::config::{Config, Template};
use bulletin::entity::{
    filter_private, CallbackResponse, Content, MediaKind, MediaText, MessageModel, MsgCommon,
    PhotoSize, ReplyModel, Signal, SignalKind, Target, UpdateModel, UserAction,
};
use bulletin::group::{group_step, GroupDirective, GroupMessage, GroupMessageKind};
use bulletin::markup::tags_markup;
use bulletin::parse::{parse_u32, parse_u64};
use bulletin::persistent::MutationQueue;
use bulletin::entity::EntityKind;
use bulletin::group::matches_command;

fn message(chat_id: i64, media: MediaKind) -> UpdateModel {
    UpdateModel::Message(MessageModel {
        id: 1,
        chat_id,
        chat_is_private: true,
        url: None,
        common: Some(MsgCommon {
            from: Some(chat_id as u64),
            sender_chat_id: None,
            media,
            reply: None,
            forward_from: None,
        }),
    })
}

fn text_media(t: &str) -> MediaKind {
    MediaKind::Text(MediaText { text: t.to_string(), entities: Vec::new() })
}

#[test]
fn commands_and_content_become_signals() {
    let sig = Signal::from_update(message(7, text_media("/create"))).unwrap();
    assert_eq!(sig.chat_id, 7);
    assert!(matches!(sig.kind, SignalKind::UserAction(UserAction::Create)));

    let sig = Signal::from_update(message(7, text_media("hello"))).unwrap();
    assert!(matches!(sig.kind, SignalKind::Content(Content::Text(_))));

    assert!(Signal::from_update(UpdateModel::Other).is_none());
    assert!(Signal::from_update(UpdateModel::JoinRequest { user_id: 5 }).is_none());
}

#[test]
fn photos_keep_their_largest_size() {
    let media = MediaKind::Photo {
        sizes: vec![
            PhotoSize { height: 100, file_id: "small".to_string() },
            PhotoSize { height: 800, file_id: "large".to_string() },
            PhotoSize { height: 400, file_id: "middle".to_string() },
        ],
        caption: Some("look".to_string()),
        caption_entities: Vec::new(),
    };
    let sig = Signal::from_update(message(7, media)).unwrap();
    match sig.kind {
        SignalKind::Content(Content::TextAndPhoto(t, id)) => {
            assert_eq!(t.text, "look");
            assert_eq!(id, "large");
        },
        other => panic!("expected text and photo, got {:?}", other),
    }
}

#[test]
fn callback_payloads_come_back_as_signals() {
    let data = CallbackResponse::Target(Target::Buy).to_msg_text().unwrap();
    let sig = Signal::from_update(UpdateModel::CallbackQuery {
        chat_id: Some(7),
        chat_is_private: Some(true),
        data: Some(data),
    })
    .unwrap();
    assert_eq!(sig.chat_id, 7);
    assert!(matches!(sig.kind, SignalKind::UserAction(UserAction::Target(Target::Buy))));

    let none = Signal::from_update(UpdateModel::CallbackQuery {
        chat_id: Some(7),
        chat_is_private: Some(true),
        data: Some("????".to_string()),
    });
    assert!(none.is_none());
}

#[test]
fn filter_private_reads_the_chat_kind() {
    assert!(filter_private(&message(7, text_media("hi"))));
    let mut group = message(7, text_media("hi"));
    if let UpdateModel::Message(m) = &mut group {
        m.chat_is_private = false;
    }
    assert!(!filter_private(&group));
    assert!(!filter_private(&UpdateModel::Other));
}

#[test]
fn price_parsing_accepts_digits_only() {
    assert_eq!(parse_u32("1500"), Some(1500));
    assert_eq!(parse_u32("0"), Some(0));
    assert_eq!(parse_u32("004"), Some(4));
    assert_eq!(parse_u32(""), None);
    assert_eq!(parse_u32("12a"), None);
    assert_eq!(parse_u32(" 15"), None);
    assert_eq!(parse_u32("4294967295"), Some(u32::MAX));
    assert_eq!(parse_u32("4294967296"), None);
    assert_eq!(parse_u64("18446744073709551615"), Some(u64::MAX));
    assert_eq!(parse_u64("18446744073709551616"), None);
}

#[test]
fn templates_apply_overrides_in_order() {
    let defaults = Template::default_templates();
    assert_eq!(defaults.len(), 31);
    assert_eq!(defaults[Template::MuteCommand.index()], "!mute");
    let created = Template::create(vec![
        (2, "first".to_string()),
        (2, "second".to_string()),
        (500, "ignored".to_string()),
    ]);
    assert_eq!(created.len(), 31);
    assert_eq!(created[2], "second");
    assert_eq!(created[0], defaults[0]);
}

#[test]
fn command_matching_folds_case() {
    assert!(matches_command("!MUTE", "!mute"));
    assert!(matches_command("!mute", "!mute"));
    assert!(!matches_command("!mute it", "!mute"));
}

fn group_conf() -> Config {
    Config {
        token: String::new(),
        channel: -100,
        global_admin: None,
        admins: vec![(42, "Admin".to_string())],
        banned: Vec::new(),
        tags: Vec::new(),
        templates: Template::default_templates(),
        flags: bulletin::flags::ONLY_SUBSCRIBERS,
        queue: MutationQueue::new(),
    }
}

fn group_msg(author: u64, kind: GroupMessageKind) -> GroupMessage {
    GroupMessage {
        id: 3,
        chat_id: -200,
        sender_chat_id: None,
        url: "https://example.invalid/3".to_string(),
        author,
        kind,
    }
}

#[test]
fn comments_notify_the_true_author_unless_self() {
    let conf = group_conf();
    let msg = group_msg(9, GroupMessageKind::Comment { thread: 12, replied_author: 8 });
    assert_eq!(
        group_step(&conf, &msg, true),
        GroupDirective::NotifyAuthor { author: 8, thread: 12 }
    );
    let own = group_msg(8, GroupMessageKind::Comment { thread: 12, replied_author: 8 });
    assert_eq!(group_step(&conf, &own, true), GroupDirective::Nothing);
}

#[test]
fn mute_and_ban_are_admin_commands() {
    let conf = group_conf();
    let msg = group_msg(9, GroupMessageKind::Mute(8));
    assert_eq!(group_step(&conf, &msg, true), GroupDirective::AdminsOnly);
    let msg = group_msg(42, GroupMessageKind::Mute(8));
    assert_eq!(group_step(&conf, &msg, true), GroupDirective::Restrict(8));
    let msg = group_msg(42, GroupMessageKind::Ban(8));
    assert_eq!(group_step(&conf, &msg, true), GroupDirective::BanBoth(8));
}

#[test]
fn alien_messages_are_deleted_case_by_case() {
    let conf = group_conf();
    let service = group_msg(bulletin::group::TELEGRAM_SERVICE_USER, GroupMessageKind::Dumb);
    assert_eq!(group_step(&conf, &service, false), GroupDirective::Nothing);
    let anon = group_msg(bulletin::group::ANONYMOUS_ADMIN_USER, GroupMessageKind::Dumb);
    assert_eq!(group_step(&conf, &anon, false), GroupDirective::Nothing);
    let mut linked = group_msg(bulletin::group::CHANNEL_BOT_USER, GroupMessageKind::Dumb);
    linked.sender_chat_id = Some(conf.channel);
    assert_eq!(group_step(&conf, &linked, false), GroupDirective::Nothing);
    let mut foreign = group_msg(bulletin::group::CHANNEL_BOT_USER, GroupMessageKind::Dumb);
    foreign.sender_chat_id = Some(-300);
    assert_eq!(group_step(&conf, &foreign, false), GroupDirective::Delete);
    let outsider = group_msg(9, GroupMessageKind::Dumb);
    assert_eq!(group_step(&conf, &outsider, false), GroupDirective::Delete);
    assert_eq!(group_step(&conf, &outsider, true), GroupDirective::Nothing);
    let mut open_conf = group_conf();
    open_conf.flags = 0;
    assert_eq!(group_step(&open_conf, &outsider, false), GroupDirective::Nothing);
}

#[test]
fn reply_chains_classify_comments_and_commands() {
    let conf = group_conf();
    let relayed_media = MediaKind::Text(MediaText {
        text: "the post".to_string(),
        entities: vec![EntityKind::TextLink { query: Some("321".to_string()) }],
    });
    let base = MessageModel {
        id: 3,
        chat_id: -200,
        chat_is_private: false,
        url: Some("https://example.invalid/3".to_string()),
        common: Some(MsgCommon {
            from: Some(9),
            sender_chat_id: None,
            media: text_media("nice!"),
            reply: Some(ReplyModel {
                id: 12,
                is_common: true,
                from: Some(bulletin::group::TELEGRAM_SERVICE_USER),
                media: relayed_media,
            }),
            forward_from: None,
        }),
    };
    let classified = GroupMessage::from_message(base.clone(), &conf).unwrap();
    assert_eq!(classified.kind, GroupMessageKind::Comment { thread: 12, replied_author: 321 });

    let mut ban = base.clone();
    if let Some(c) = &mut ban.common {
        c.media = text_media("!BAN");
    }
    let classified = GroupMessage::from_message(ban, &conf).unwrap();
    assert_eq!(classified.kind, GroupMessageKind::Ban(321));

    let mut mute = base.clone();
    if let Some(c) = &mut mute.common {
        c.media = text_media("!Mute");
        if let Some(r) = &mut c.reply {
            r.from = Some(8);
        }
    }
    let classified = GroupMessage::from_message(mute, &conf).unwrap();
    assert_eq!(classified.kind, GroupMessageKind::Mute(8));

    let mut plain = base;
    plain.common = Some(MsgCommon {
        from: Some(9),
        sender_chat_id: None,
        media: text_media("hello"),
        reply: None,
        forward_from: None,
    });
    let classified = GroupMessage::from_message(plain, &conf).unwrap();
    assert_eq!(classified.kind, GroupMessageKind::Dumb);
}

#[test]
fn tag_keyboard_rows_hold_three_buttons() {
    let mut ad = Ad::new(Target::Sell, 5);
    ad.add_tag("b".to_string());
    let tags: Vec<String> =
        vec!["a".to_string(), "b".to_string(), "c".to_string(), "d".to_string()];
    let rows = tags_markup(&ad, &tags, 11);
    assert_eq!(rows.len(), 2);
    assert_eq!(rows[0].len(), 3);
    assert_eq!(rows[1].len(), 1);
    assert!(!rows[0][0].selected);
    assert!(rows[0][1].selected);
    assert!(matches!(rows[0][1].callback, CallbackResponse::RemoveTag(_, 11)));
    assert!(matches!(rows[0][0].callback, CallbackResponse::AddTag(_, 11)));

    let rows = tags_markup(&ad, &Vec::new(), 11);
    assert_eq!(rows.len(), 1);
    assert_eq!(rows[0][0].tag, "notag");
}

#[test]
fn ad_fill_caps_photos_and_keeps_last_text() {
    let mut ad = Ad::new(Target::Buy, 7);
    ad.fill(Content::Text(MediaText { text: "one".to_string(), entities: Vec::new() }));
    ad.fill(Content::TextAndPhoto(
        MediaText { text: "two".to_string(), entities: Vec::new() },
        "p1".to_string(),
    ));
    assert_eq!(ad.text, "two");
    assert_eq!(ad.photos, vec!["p1".to_string()]);
    for i in 0..12 {
        ad.fill(Content::Photo(format!("photo{}", i)));
    }
    assert_eq!(ad.photos.len(), 10);
}

#[test]
fn keyboard_rows_depend_on_admin_standing() {
    let conf = group_conf();
    let admin_rows = conf.keyboard(42);
    assert_eq!(admin_rows.len(), 3);
    let user_rows = conf.keyboard(9);
    assert_eq!(user_rows.len(), 1);
}
