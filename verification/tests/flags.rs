use bulletin::flags::FeatureFlags;
use bulletin::config::Config;
use bulletin::config::Template;
use bulletin::flags::{APPROVE_SUBSCRIBE, ONLY_SUBSCRIBERS, WITHOUT_DONATE};
use bulletin::persistent::MutationQueue;

#[test]
fn test_flags() {
    let mut f: i32 = 0b1001;
    assert!(f.check_flag(0b1));
    assert!(f.check_flag(0b1000));
    f.toggle_flag(0b1);
    f.toggle_flag(0b100);
    assert_eq!(0b1100, f);
}

#[test]
fn flag_helpers_follow_the_bitset() {
    let mut conf = Config {
        token: String::new(),
        channel: -100,
        global_admin: None,
        admins: Vec::new(),
        banned: Vec::new(),
        tags: Vec::new(),
        templates: Template::default_templates(),
        flags: 0,
        queue: MutationQueue::new(),
    };
    assert!(!conf.only_subscribers());
    assert!(!conf.approve_subscribe());
    assert!(conf.donate_enabled());
    conf.flags = ONLY_SUBSCRIBERS | APPROVE_SUBSCRIBE | WITHOUT_DONATE;
    assert!(conf.only_subscribers());
    assert!(conf.approve_subscribe());
    assert!(!conf.donate_enabled());
}
