//! Durable-state records and the mutation events that carry changes from a
//! running tenant to the persistence worker.

use vstd::prelude::*;

verus! {

/// Who a banned user is and why they were banned.
#[derive(Debug, Clone, PartialEq, Eq)]
pub struct BanInfo {
    pub name: String,
    pub cause: String,
}

/// Display information of a running tenant: its own account name, the name
/// of its target board, and the board's invite link if one exists.
#[derive(Debug, Clone, PartialEq, Eq)]
pub struct BotInfo {
    pub username: String,
    pub channel_name: String,
    pub invite_link: Option<String>,
}

impl Default for BotInfo {
    fn default() -> (r: Self)
        ensures
            r.username@ == "undefined"@,
            r.channel_name@ == "undefined"@,
            r.invite_link is None,
    {
        Self {
            username: "undefined".to_owned(),
            channel_name: "undefined".to_owned(),
            invite_link: None,
        }
    }
}

/// One per-tenant mutation queue: the events a running tenant has produced
/// and not yet handed to the worker, and whether the producing side has
/// closed it for good.
#[derive(Debug)]
pub struct MutationQueue {
    pub events: Vec<DBAction>,
    pub closed: bool,
}

impl MutationQueue {
    pub fn new() -> (r: Self)
        ensures
            r.events@ =~= Seq::<DBAction>::empty(),
            !r.closed,
    {
        Self { events: Vec::new(), closed: false }
    }

    /// Enqueues one event at the back, keeping arrival order.
    pub fn push(&mut self, action: DBAction)
        ensures
            final(self).events@ == old(self).events@.push(action),
            final(self).closed == old(self).closed,
    {
        self.events.push(action);
    }

    /// Marks the producing side as gone; the worker drops the queue once it
    /// is also empty.
    pub fn close(&mut self)
        ensures
            final(self).events@ == old(self).events@,
            final(self).closed,
    {
        self.closed = true;
    }
}

/// A durable-state mutation, consumed by the persistence worker.
/// `AddListener` is the worker's control event: it registers a fresh
/// tenant queue rather than changing any record.
#[derive(Debug)]
pub enum DBAction {
    AddListener(i64, MutationQueue),
    AddAdmin(u64, String),
    RemoveAdmin(u64),
    SetInfo(BotInfo),
    Ban { id: u64, name: String, cause: String },
    Unban(u64),
}

/// The durable snapshot of one tenant, as the store hands it out when the
/// tenant is started.
#[derive(Debug, Clone, PartialEq, Eq)]
pub struct BulletinConfig {
    pub token: String,
    pub channel: i64,
    pub admins: Vec<(u64, String)>,
    pub banned: Vec<(u64, BanInfo)>,
    pub templates: Vec<(usize, String)>,
    pub tags: Vec<String>,
    pub flags: i32,
}

} // verus!
