use bulletin::persistent::{BanInfo, BotInfo, DBAction, MutationQueue};
use bulletin::worker::{FanIn, Store, TenantRecord};
use bulletin::supervisor::Registry;
use bulletin::supervisor::{should_shutdown, ApiFailure};

fn record_eq(a: &TenantRecord, b: &TenantRecord) -> bool {
    a.admins == b.admins && a.banned == b.banned && a.info == b.info
}

#[test]
fn reapplying_an_event_changes_nothing() {
    let events: Vec<fn() -> DBAction> = vec![
        || DBAction::AddAdmin(5, "Name".to_string()),
        || DBAction::RemoveAdmin(5),
        || DBAction::Ban { id: 9, name: "N".to_string(), cause: "spam".to_string() },
        || DBAction::Unban(9),
        || DBAction::SetInfo(BotInfo {
            username: "bot".to_string(),
            channel_name: "board".to_string(),
            invite_link: None,
        }),
    ];
    for make in events {
        let mut once = TenantRecord::new();
        once.apply(DBAction::AddAdmin(1, "Seed".to_string()));
        once.apply(DBAction::Ban { id: 2, name: "S".to_string(), cause: "c".to_string() });
        let mut twice_base = TenantRecord::new();
        twice_base.apply(DBAction::AddAdmin(1, "Seed".to_string()));
        twice_base.apply(DBAction::Ban { id: 2, name: "S".to_string(), cause: "c".to_string() });
        once.apply(make());
        twice_base.apply(make());
        twice_base.apply(make());
        assert!(record_eq(&once, &twice_base), "reapplying {:?} changed the record", make());
    }
}

#[test]
fn one_tenants_events_apply_in_enqueued_order() {
    let mut q = MutationQueue::new();
    q.push(DBAction::AddAdmin(5, "first".to_string()));
    q.push(DBAction::RemoveAdmin(5));
    q.push(DBAction::AddAdmin(5, "second".to_string()));
    let mut fan = FanIn::new();
    fan.register(1, q);
    let mut store = Store::new();
    loop {
        let (worked, _) = fan.drain_pass(&mut store);
        fan.sweep();
        if !worked {
            break;
        }
    }
    assert_eq!(store.tenants.len(), 1);
    assert_eq!(store.tenants[0].0, 1);
    assert_eq!(store.tenants[0].1.admins, vec![(5u64, "second".to_string())]);
}

#[test]
fn restart_race_leaves_one_registered_queue() {
    let mut stale = MutationQueue::new();
    stale.push(DBAction::Unban(5));
    stale.close();
    let fresh = MutationQueue::new();
    let mut fan = FanIn::new();
    fan.register(1, stale);
    fan.register(1, fresh);
    assert_eq!(fan.queues.len(), 2);

    let mut store = Store::new();
    fan.drain_pass(&mut store);
    fan.sweep();

    assert_eq!(fan.queues.len(), 1);
    assert_eq!(fan.queues[0].0, 1);
    assert!(!fan.queues[0].1.closed);
}

#[test]
fn inserting_an_existing_key_replaces_in_place() {
    let mut rec = TenantRecord::new();
    rec.apply(DBAction::AddAdmin(5, "first".to_string()));
    rec.apply(DBAction::AddAdmin(6, "other".to_string()));
    rec.apply(DBAction::AddAdmin(5, "renamed".to_string()));
    assert_eq!(
        rec.admins,
        vec![(5u64, "renamed".to_string()), (6u64, "other".to_string())]
    );
}

#[test]
fn a_pass_without_work_reports_idle() {
    let mut fan = FanIn::new();
    fan.register(1, MutationQueue::new());
    let mut store = Store::new();
    let (worked, _) = fan.drain_pass(&mut store);
    assert!(!worked);
    assert!(store.tenants.is_empty());
}

#[test]
fn events_fan_in_per_tenant() {
    let mut q1 = MutationQueue::new();
    q1.push(DBAction::AddAdmin(5, "a".to_string()));
    let mut q2 = MutationQueue::new();
    q2.push(DBAction::Ban { id: 6, name: "n".to_string(), cause: "c".to_string() });
    let mut fan = FanIn::new();
    fan.register(1, q1);
    fan.register(2, q2);
    let mut store = Store::new();
    fan.drain_pass(&mut store);
    assert_eq!(store.tenants.len(), 2);
    assert_eq!(store.tenants[0].0, 1);
    assert_eq!(store.tenants[0].1.admins, vec![(5u64, "a".to_string())]);
    assert_eq!(store.tenants[1].0, 2);
    assert_eq!(
        store.tenants[1].1.banned,
        vec![(6u64, BanInfo { name: "n".to_string(), cause: "c".to_string() })]
    );
}

#[test]
fn supervisor_start_and_stop_drive_the_registry() {
    let mut reg: Registry<u32> = Registry::new();
    assert!(reg.start(1, 10, false).is_none());
    assert!(!reg.contains(1));
    let control = reg.start(1, 10, true).expect("a valid credential starts the tenant");
    match control {
        DBAction::AddListener(id, q) => {
            assert_eq!(id, 1);
            assert!(q.events.is_empty());
            assert!(!q.closed);
        },
        other => panic!("expected the register event, got {:?}", other),
    }
    assert!(reg.contains(1));
    let again = reg.start(1, 11, true);
    assert!(again.is_some());
    assert_eq!(reg.entries.len(), 1);
    assert_eq!(reg.stop(1), Some(11));
    assert!(!reg.contains(1));
    assert_eq!(reg.stop(1), None);
}

#[test]
fn shutdown_is_reserved_for_revoked_credentials() {
    assert!(should_shutdown(ApiFailure::NotFound));
    assert!(!should_shutdown(ApiFailure::Other));
}
