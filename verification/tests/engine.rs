use bulletin::ad::Ad;
use bulletin::config::{Config, Template};
use bulletin::entity::{
    AdminAction, Content, EntityKind, MediaText, SignalKind, Target, UserAction,
};
use bulletin::fsm::{ad_published, preview_shown, process_join_request, Response, SignalCtx, State};
use bulletin::persistent::{BanInfo, DBAction, MutationQueue};
use bulletin::entity::invoke_author;

fn fresh_config() -> Config {
    Config {
        token: String::new(),
        channel: -100200,
        global_admin: Some(1),
        admins: vec![(42, "Admin".to_string())],
        banned: Vec::new(),
        tags: vec!["велосипеды".to_string(), "мебель".to_string()],
        templates: Template::default_templates(),
        flags: 0,
        queue: MutationQueue::new(),
    }
}

fn user_ctx(user_id: u64) -> SignalCtx {
    SignalCtx { user_id, is_member: true, forward_author: None, suspect_name: String::new() }
}

fn text(t: &str) -> Content {
    Content::Text(MediaText { text: t.to_string(), entities: Vec::new() })
}

#[test]
fn publish_funnel_reaches_ready_with_a_published_ad() {
    let mut conf = fresh_config();
    let ctx = user_ctx(7);

    let (s, r) = State::Ready.process(&mut conf, SignalKind::UserAction(UserAction::Create), &ctx);
    assert_eq!(s, State::ActionWaiting);
    assert_eq!(r, Response::RequestTarget);

    let (s, _) = s.process(&mut conf, SignalKind::UserAction(UserAction::Target(Target::Sell)), &ctx);
    assert_eq!(s, State::PriceWaiting(Target::Sell));

    let (s, _) = s.process(&mut conf, SignalKind::Content(text("1500")), &ctx);
    match &s {
        State::Filling(ad) => {
            assert_eq!(ad.target, Target::Sell);
            assert_eq!(ad.price, 1500);
        },
        other => panic!("expected filling, got {:?}", other),
    }

    let (s, r) = s.process(&mut conf, SignalKind::Content(text("nice bike")), &ctx);
    assert_eq!(r, Response::Prompt(Template::ContinueFilling));
    match &s {
        State::Filling(ad) => assert_eq!(ad.text, "nice bike"),
        other => panic!("expected filling, got {:?}", other),
    }

    let (s, r) = s.process(&mut conf, SignalKind::UserAction(UserAction::Publish), &ctx);
    let ad = match r {
        Response::ShowPreview(ad) => ad,
        other => panic!("expected preview directive, got {:?}", other),
    };
    assert!(matches!(s, State::Filling(_)));
    let (s, r) = preview_shown(ad, true);
    assert!(matches!(s, State::Preview(_)));
    assert_eq!(r, Response::Prompt(Template::IsAllCorrect));

    let (s, r) = s.process(&mut conf, SignalKind::UserAction(UserAction::Yes), &ctx);
    let ad = match r {
        Response::ConfirmPublish(ad) => ad,
        other => panic!("expected publish directive, got {:?}", other),
    };
    assert!(matches!(s, State::Preview(_)));
    let (s, r) = ad_published(ad, true);
    assert_eq!(s, State::Ready);
    assert_eq!(r, Response::Prompt(Template::Published));
}

#[test]
fn not_a_price_keeps_waiting() {
    let mut conf = fresh_config();
    let ctx = user_ctx(7);
    let (s, r) = State::PriceWaiting(Target::Buy).process(
        &mut conf,
        SignalKind::Content(text("abc")),
        &ctx,
    );
    assert_eq!(s, State::PriceWaiting(Target::Buy));
    assert_eq!(r, Response::Prompt(Template::NotAPrice));
}

#[test]
fn ban_flow_is_admins_only_and_needs_an_attributed_post() {
    let mut conf = fresh_config();
    let outsider = user_ctx(7);
    let (s, r) = State::Ready.process(&mut conf, SignalKind::AdminAction(AdminAction::Ban), &outsider);
    assert_eq!(s, State::Ready);
    assert_eq!(r, Response::Prompt(Template::AdminsOnly));

    let admin = user_ctx(42);
    let (s, r) = State::Ready.process(&mut conf, SignalKind::AdminAction(AdminAction::Ban), &admin);
    assert_eq!(s, State::WaitForward);
    assert_eq!(r, Response::AskForwardSuspect);

    let (s, r) = s.process(&mut conf, SignalKind::Content(text("no attribution here")), &admin);
    assert_eq!(s, State::WaitForward);
    assert_eq!(r, Response::NotAPost);
}

#[test]
fn unban_removes_the_user_and_enqueues_exactly_one_event() {
    let mut conf = fresh_config();
    conf.banned.push((99, BanInfo { name: "N".to_string(), cause: "spam".to_string() }));
    let admin = user_ctx(42);
    let (s, r) = State::WaitSelectBanned.process(
        &mut conf,
        SignalKind::AdminAction(AdminAction::UserToUnban(99)),
        &admin,
    );
    assert_eq!(s, State::Ready);
    assert_eq!(r, Response::UnbanApplied);
    assert!(conf.is_banned(99).is_none());
    assert_eq!(conf.queue.events.len(), 1);
    match &conf.queue.events[0] {
        DBAction::Unban(u) => assert_eq!(*u, 99),
        other => panic!("expected an unban event, got {:?}", other),
    }
}

#[test]
fn banned_chat_is_short_circuited_from_any_state() {
    let mut conf = fresh_config();
    conf.banned.push((7, BanInfo { name: "N".to_string(), cause: "spam".to_string() }));
    let ctx = user_ctx(7);
    let states = vec![
        State::Ready,
        State::ActionWaiting,
        State::PriceWaiting(Target::Buy),
        State::Filling(Ad::new(Target::Sell, 10)),
        State::Preview(Ad::new(Target::Sell, 10)),
        State::WaitSelectBanned,
        State::Subscribing,
    ];
    for st in states {
        let (s, r) = st.process(&mut conf, SignalKind::UserAction(UserAction::Help), &ctx);
        assert_eq!(s, State::Ready);
        match r {
            Response::BannedNotice(cause) => assert_eq!(cause, "spam"),
            other => panic!("expected the banned notice, got {:?}", other),
        }
    }
}

#[test]
fn create_turns_non_subscribers_away_when_the_flag_is_set() {
    let mut conf = fresh_config();
    conf.flags = bulletin::flags::ONLY_SUBSCRIBERS | bulletin::flags::APPROVE_SUBSCRIBE;
    let ctx = SignalCtx {
        user_id: 7,
        is_member: false,
        forward_author: None,
        suspect_name: String::new(),
    };
    let (s, r) = State::Ready.process(&mut conf, SignalKind::UserAction(UserAction::Create), &ctx);
    assert_eq!(s, State::Ready);
    assert_eq!(r, Response::NotSubscriber { invite: true });
}

#[test]
fn ask_and_recommend_skip_pricing() {
    let mut conf = fresh_config();
    let ctx = user_ctx(7);
    let (s, _) = State::ActionWaiting.process(
        &mut conf,
        SignalKind::UserAction(UserAction::Target(Target::Ask)),
        &ctx,
    );
    match s {
        State::Filling(ad) => {
            assert_eq!(ad.target, Target::Ask);
            assert_eq!(ad.price, 0);
        },
        other => panic!("expected filling, got {:?}", other),
    }
}

#[test]
fn tag_toggles_update_the_draft() {
    let mut conf = fresh_config();
    let ctx = user_ctx(7);
    let state = State::Filling(Ad::new(Target::Sell, 5));
    let (s, _) = state.process(
        &mut conf,
        SignalKind::UserAction(UserAction::AddTag("мебель".to_string(), 11)),
        &ctx,
    );
    match &s {
        State::Filling(ad) => assert_eq!(ad.tags, vec!["мебель".to_string()]),
        other => panic!("expected filling, got {:?}", other),
    }
    let (s, _) = s.process(
        &mut conf,
        SignalKind::UserAction(UserAction::RemoveTag("мебель".to_string(), 11)),
        &ctx,
    );
    match &s {
        State::Filling(ad) => assert!(ad.tags.is_empty()),
        other => panic!("expected filling, got {:?}", other),
    }
}

#[test]
fn wait_cause_writes_the_ban() {
    let mut conf = fresh_config();
    let admin = SignalCtx {
        user_id: 42,
        is_member: true,
        forward_author: None,
        suspect_name: "Suspect".to_string(),
    };
    let (s, r) = State::WaitCause(555).process(
        &mut conf,
        SignalKind::Content(text("flooding")),
        &admin,
    );
    assert_eq!(s, State::Ready);
    assert_eq!(r, Response::BanApplied);
    let info = conf.is_banned(555).expect("the ban must be recorded");
    assert_eq!(info.name, "Suspect");
    assert_eq!(info.cause, "flooding");
    assert_eq!(conf.queue.events.len(), 1);
    match &conf.queue.events[0] {
        DBAction::Ban { id, name, cause } => {
            assert_eq!(*id, 555);
            assert_eq!(name, "Suspect");
            assert_eq!(cause, "flooding");
        },
        other => panic!("expected a ban event, got {:?}", other),
    }
}

#[test]
fn forwarded_admin_candidate_is_added() {
    let mut conf = fresh_config();
    let admin = SignalCtx {
        user_id: 42,
        is_member: true,
        forward_author: Some((777, "New Admin".to_string())),
        suspect_name: String::new(),
    };
    let (s, r) = State::WaitForwardForAdmin.process(
        &mut conf,
        SignalKind::Content(text("any message")),
        &admin,
    );
    assert_eq!(s, State::Ready);
    assert_eq!(r, Response::AdminAdded);
    assert!(conf.is_admin(777));
}

#[test]
fn join_requests_respect_the_ban_set() {
    let mut conf = fresh_config();
    conf.banned.push((5, BanInfo { name: "N".to_string(), cause: "spam".to_string() }));
    let (s, r) = process_join_request(&conf, 5);
    assert!(s.is_none());
    assert!(matches!(r, Response::BannedNotice(_)));
    let (s, r) = process_join_request(&conf, 6);
    assert_eq!(s, Some(State::Subscribing));
    assert_eq!(r, Response::Prompt(Template::SubscribeInfo));
}

#[test]
fn failed_post_keeps_the_conversation_where_it_was() {
    let ad = Ad::new(Target::Sell, 10);
    let (s, r) = preview_shown(ad.clone(), false);
    assert_eq!(s, State::Filling(ad.clone()));
    assert_eq!(r, Response::PostFailed);
    let (s, r) = ad_published(ad.clone(), false);
    assert_eq!(s, State::Preview(ad));
    assert_eq!(r, Response::PostFailed);
}

#[test]
fn ban_subscribe_records_the_ban() {
    let mut conf = fresh_config();
    let admin = SignalCtx {
        user_id: 42,
        is_member: true,
        forward_author: None,
        suspect_name: "Applicant".to_string(),
    };
    let (s, r) = State::Ready.process(
        &mut conf,
        SignalKind::AdminAction(AdminAction::BanSubscribe(888)),
        &admin,
    );
    assert_eq!(s, State::Ready);
    assert_eq!(r, Response::BanJoin(888));
    assert!(conf.is_banned(888).is_some());
    assert_eq!(conf.queue.events.len(), 1);
}

#[test]
fn invoke_author_reads_the_attribution_link_first() {
    let content = Content::Text(MediaText {
        text: "post".to_string(),
        entities: vec![EntityKind::TextLink { query: Some("123".to_string()) }],
    });
    assert_eq!(invoke_author(&content), Some(123));
    let content = Content::Text(MediaText {
        text: "post".to_string(),
        entities: vec![
            EntityKind::TextLink { query: None },
            EntityKind::TextMention { user: 456 },
        ],
    });
    assert_eq!(invoke_author(&content), Some(456));
    let content = Content::Text(MediaText { text: "post".to_string(), entities: Vec::new() });
    assert_eq!(invoke_author(&content), None);
}
