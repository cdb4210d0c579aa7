//! The write-behind persistence worker: a fan-in over every running
//! tenant's mutation queue, draining events and applying them to the
//! durable store, one pass at a time.
//!
//! The store itself is modelled as the record it keeps per tenant; the
//! SQL that realises each operation lives outside the library, and is
//! held to being idempotent at the row level, which `apply` makes exact.

use vstd::prelude::*;
use crate::kvlist::{kv_insert, kv_remove, spec_insert, spec_remove, unique_keys};
use crate::persistent::{BanInfo, BotInfo, DBAction, MutationQueue};

verus! {

/// The durable record of one tenant, as far as mutation events touch it.
#[derive(Debug)]
pub struct TenantRecord {
    pub admins: Vec<(u64, String)>,
    pub banned: Vec<(u64, BanInfo)>,
    pub info: Option<BotInfo>,
}

impl TenantRecord {
    pub open spec fn wf(self) -> bool {
        &&& unique_keys(self.admins@)
        &&& unique_keys(self.banned@)
    }

    pub fn new() -> (r: Self)
        ensures
            r.admins@ =~= Seq::<(u64, String)>::empty(),
            r.banned@ =~= Seq::<(u64, BanInfo)>::empty(),
            r.info is None,
            r.wf(),
    {
        TenantRecord { admins: Vec::new(), banned: Vec::new(), info: None }
    }

    /// Applies one mutation event to the record: insert-or-replace for
    /// additions, delete-if-present for removals, so that reapplying a
    /// delivered event cannot change the record again. The worker's
    /// control event changes nothing here.
    pub fn apply(&mut self, action: DBAction)
        ensures
            spec_apply_rel(*old(self), action, *final(self)),
            old(self).wf() ==> final(self).wf(),
    {
        match action {
            DBAction::AddListener(_, _) => {},
            DBAction::AddAdmin(id, name) => {
                kv_insert(&mut self.admins, id, name);
            },
            DBAction::RemoveAdmin(id) => {
                kv_remove(&mut self.admins, id);
            },
            DBAction::SetInfo(info) => {
                self.info = Some(info);
            },
            DBAction::Ban { id, name, cause } => {
                kv_insert(&mut self.banned, id, BanInfo { name, cause });
            },
            DBAction::Unban(id) => {
                kv_remove(&mut self.banned, id);
            },
        }
    }
}

/// What one event does to a tenant's durable record.
pub open spec fn spec_apply_rel(pre: TenantRecord, action: DBAction, post: TenantRecord) -> bool {
    match action {
        DBAction::AddListener(_, _) => post == pre,
        DBAction::AddAdmin(id, name) => post.admins@ == spec_insert(pre.admins@, id, name)
            && post.banned == pre.banned && post.info == pre.info,
        DBAction::RemoveAdmin(id) => post.admins@ == spec_remove(pre.admins@, id) && post.banned
            == pre.banned && post.info == pre.info,
        DBAction::SetInfo(info) => post.info == Some(info) && post.admins == pre.admins
            && post.banned == pre.banned,
        DBAction::Ban { id, name, cause } => post.banned@ == spec_insert(
            pre.banned@,
            id,
            BanInfo { name, cause },
        ) && post.admins == pre.admins && post.info == pre.info,
        DBAction::Unban(id) => post.banned@ == spec_remove(pre.banned@, id) && post.admins
            == pre.admins && post.info == pre.info,
    }
}

/// Applying the same event twice leaves the record exactly as applying it
/// once: the store's row-level idempotence.
pub proof fn lemma_apply_idempotent(
    pre: TenantRecord,
    action: DBAction,
    once: TenantRecord,
    twice: TenantRecord,
)
    requires
        pre.wf(),
        spec_apply_rel(pre, action, once),
        spec_apply_rel(once, action, twice),
    ensures
        twice.admins@ == once.admins@,
        twice.banned@ == once.banned@,
        twice.info == once.info,
{
    match action {
        DBAction::AddListener(_, _) => {},
        DBAction::AddAdmin(id, name) => {
            lemma_insert_twice(pre.admins@, id, name);
        },
        DBAction::RemoveAdmin(id) => {
            lemma_remove_twice(pre.admins@, id);
        },
        DBAction::SetInfo(_) => {},
        DBAction::Ban { id, name, cause } => {
            lemma_insert_twice(pre.banned@, id, BanInfo { name, cause });
        },
        DBAction::Unban(id) => {
            lemma_remove_twice(pre.banned@, id);
        },
    }
}

proof fn lemma_insert_twice<V>(s: Seq<(u64, V)>, k: u64, v: V)
    requires
        unique_keys(s),
    ensures
        spec_insert(spec_insert(s, k, v), k, v) == spec_insert(s, k, v),
{
    crate::kvlist::lemma_key_index(s, k);
    crate::kvlist::lemma_insert_unique(s, k, v);
    let once = spec_insert(s, k, v);
    match crate::kvlist::key_index(s, k) {
        Some(i) => {
            assert(once[i].0 == k);
            crate::kvlist::lemma_key_index_unique(once, k, i);
            assert(spec_insert(once, k, v) =~= once);
        },
        None => {
            assert(once[once.len() - 1].0 == k);
            crate::kvlist::lemma_key_index_unique(once, k, once.len() - 1);
            assert(spec_insert(once, k, v) =~= once);
        },
    }
}

proof fn lemma_remove_twice<V>(s: Seq<(u64, V)>, k: u64)
    requires
        unique_keys(s),
    ensures
        spec_remove(spec_remove(s, k), k) == spec_remove(s, k),
{
    crate::kvlist::lemma_key_index(s, k);
    crate::kvlist::lemma_remove_unique(s, k);
    let once = spec_remove(s, k);
    crate::kvlist::lemma_key_index(once, k);
    match crate::kvlist::key_index(once, k) {
        Some(j) => {
            assert(crate::kvlist::has_key(once, k)) by {
                assert(crate::kvlist::keys(once)[j] == once[j].0);
                assert(crate::kvlist::keys(once).contains(crate::kvlist::keys(once)[j]));
            }
            assert(false);
        },
        None => {},
    }
}


// ---------------------------------------------------------------------
// The multi-tenant store model.
// ---------------------------------------------------------------------

/// The tenant ids of the store, in order.
pub open spec fn tkeys(s: Seq<(i64, TenantRecord)>) -> Seq<i64> {
    s.map_values(|p: (i64, TenantRecord)| p.0)
}

/// The position of a tenant's record.
pub open spec fn tindex(s: Seq<(i64, TenantRecord)>, id: i64) -> Option<int> {
    tkeys(s).index_of_first(id)
}

/// The durable store: one record per tenant, and the ghost log of every
/// mutation applied, in application order.
pub struct Store {
    pub tenants: Vec<(i64, TenantRecord)>,
    pub applied: Ghost<Seq<(i64, DBAction)>>,
}

impl Store {
    pub open spec fn wf(self) -> bool {
        &&& forall|i: int, j: int|
            0 <= i < j < self.tenants@.len() ==> tkeys(self.tenants@)[i] != tkeys(self.tenants@)[j]
        &&& forall|i: int| 0 <= i < self.tenants@.len() ==> (#[trigger] self.tenants@[i].1).wf()
    }

    pub fn new() -> (r: Self)
        ensures
            r.tenants@ =~= Seq::<(i64, TenantRecord)>::empty(),
            r.applied@ =~= Seq::<(i64, DBAction)>::empty(),
            r.wf(),
    {
        Store { tenants: Vec::new(), applied: Ghost(Seq::empty()) }
    }

    /// Applies one event to one tenant's record, creating the record the
    /// first time that tenant is written.
    pub fn apply(&mut self, bot_id: i64, action: DBAction)
        ensures
            store_apply_rel(*old(self), bot_id, action, *final(self)),
            old(self).wf() ==> final(self).wf(),
    {
        let ghost a0 = action;
        proof {
            tkeys(self.tenants@).index_of_first_ensures(bot_id);
        }
        let idx = find_tenant(&self.tenants, bot_id);
        match idx {
            Some(i) => {
                proof {
                    assert(tkeys(old(self).tenants@)[i as int] == old(self).tenants@[i as int].0);
                }
                let (tid, mut rec) = self.tenants.remove(i);
                let ghost rec0 = rec;
                proof {
                    if old(self).wf() {
                        assert(old(self).tenants@[i as int].1.wf());
                    }
                }
                rec.apply(action);
                let ghost rec2 = rec;
                self.tenants.insert(i, (tid, rec));
                proof {
                    self.applied@ = old(self).applied@.push((bot_id, a0));
                    assert(self.tenants@ =~= old(self).tenants@.update(i as int, (tid, rec2)));
                    assert(tid == bot_id);
                    assert(rec0 == old(self).tenants@[i as int].1);
                    if old(self).wf() {
                        assert(tkeys(self.tenants@) =~= tkeys(old(self).tenants@));
                        assert forall|k: int|
                            0 <= k < self.tenants@.len() implies (
                        #[trigger] self.tenants@[k].1).wf() by {
                            if k != i {
                                assert(self.tenants@[k] == old(self).tenants@[k]);
                            }
                        }
                    }
                }
            },
            None => {
                let mut rec = TenantRecord::new();
                let ghost r0 = rec;
                rec.apply(action);
                let ghost rec2 = rec;
                self.tenants.push((bot_id, rec));
                proof {
                    self.applied@ = old(self).applied@.push((bot_id, a0));
                    assert(self.tenants@ =~= old(self).tenants@.push((bot_id, rec2)));
                    assert(exists|w: TenantRecord|
                        w.admins@.len() == 0 && w.banned@.len() == 0 && w.info is None
                            && spec_apply_rel(w, a0, self.tenants@.last().1)) by {
                        assert(r0.admins@.len() == 0 && r0.banned@.len() == 0 && r0.info is None
                            && spec_apply_rel(r0, a0, self.tenants@.last().1));
                    }
                    if old(self).wf() {
                        lemma_tkeys_push(old(self).tenants@, bot_id, rec2);
                        assert forall|k: int|
                            0 <= k < self.tenants@.len() implies (
                        #[trigger] self.tenants@[k].1).wf() by {
                            if k < self.tenants@.len() - 1 {
                                assert(self.tenants@[k] == old(self).tenants@[k]);
                            }
                        }
                    }
                }
            },
        }
    }
}

/// What one application does to the store: the addressed record is
/// stepped by the event, every other record stays, and the log grows by
/// exactly that event.
pub open spec fn store_apply_rel(pre: Store, id: i64, action: DBAction, post: Store) -> bool {
    &&& post.applied@ == pre.applied@.push((id, action))
    &&& match tindex(pre.tenants@, id) {
        Some(i) => {
            &&& post.tenants@.len() == pre.tenants@.len()
            &&& forall|j: int| 0 <= j < pre.tenants@.len() && j != i ==> post.tenants@[j] == pre.tenants@[j]
            &&& post.tenants@[i].0 == id
            &&& spec_apply_rel(pre.tenants@[i].1, action, post.tenants@[i].1)
        },
        None => {
            &&& post.tenants@.len() == pre.tenants@.len() + 1
            &&& forall|j: int| 0 <= j < pre.tenants@.len() ==> post.tenants@[j] == pre.tenants@[j]
            &&& post.tenants@.last().0 == id
            &&& exists|r0: TenantRecord|
                r0.admins@.len() == 0 && r0.banned@.len() == 0 && r0.info is None
                    && spec_apply_rel(r0, action, post.tenants@.last().1)
        },
    }
}

/// A run of applications: `trace` holds the store before and after each
/// event of the list, in order.
pub open spec fn store_trace_ok(trace: Seq<Store>, events: Seq<(i64, DBAction)>) -> bool {
    &&& trace.len() == events.len() + 1
    &&& forall|k: int|
        0 <= k < events.len() ==> store_apply_rel(
            trace[k],
            (#[trigger] events[k]).0,
            events[k].1,
            trace[k + 1],
        )
}

proof fn lemma_tkeys_push(s: Seq<(i64, TenantRecord)>, id: i64, rec: TenantRecord)
    requires
        forall|i: int, j: int| 0 <= i < j < s.len() ==> tkeys(s)[i] != tkeys(s)[j],
        tindex(s, id) is None,
    ensures
        forall|i: int, j: int|
            0 <= i < j < s.push((id, rec)).len() ==> tkeys(s.push((id, rec)))[i] != tkeys(
                s.push((id, rec)),
            )[j],
{
    tkeys(s).index_of_first_ensures(id);
    let out = s.push((id, rec));
    assert(tkeys(out) =~= tkeys(s).push(id));
    assert forall|i: int, j: int| 0 <= i < j < out.len() implies tkeys(out)[i] != tkeys(out)[j] by {
        if j == out.len() - 1 {
            assert(tkeys(s).contains(tkeys(s)[i]));
        }
    }
}

fn find_tenant(v: &Vec<(i64, TenantRecord)>, id: i64) -> (r: Option<usize>)
    ensures
        match r {
            Some(i) => tindex(v@, id) == Some(i as int),
            None => tindex(v@, id) is None,
        },
{
    proof {
        tkeys(v@).index_of_first_ensures(id);
    }
    let mut i: usize = 0;
    while i < v.len()
        invariant
            i <= v@.len(),
            forall|j: int| 0 <= j < i ==> v@[j].0 != id,
        decreases v.len() - i,
    {
        if v[i].0 == id {
            proof {
                tkeys(v@).index_of_first_ensures(id);
                assert(tkeys(v@)[i as int] == id);
                match tindex(v@, id) {
                    Some(idx) => {
                        if idx < i {
                            assert(tkeys(v@)[idx] == v@[idx].0);
                        } else if idx > i as int {
                            assert(tkeys(v@)[i as int] != id);
                        }
                    },
                    None => {
                        assert(tkeys(v@).contains(tkeys(v@)[i as int]));
                    },
                }
            }
            return Some(i);
        }
        i += 1;
    }
    proof {
        tkeys(v@).index_of_first_ensures(id);
        if tkeys(v@).contains(id) {
            let j = choose|j: int| 0 <= j < tkeys(v@).len() && tkeys(v@)[j] == id;
            assert(v@[j].0 != id);
        }
    }
    None
}

// ---------------------------------------------------------------------
// The fan-in of tenant queues.
// ---------------------------------------------------------------------

/// The registration list: every queue the worker currently watches, in
/// the order the tenants registered.
#[derive(Debug)]
pub struct FanIn {
    pub queues: Vec<(i64, MutationQueue)>,
}

/// The fan-in reduced to what ordering is about: each queue's tenant id
/// and its pending events.
pub open spec fn abs_queues(qs: Seq<(i64, MutationQueue)>) -> Seq<(i64, Seq<DBAction>)> {
    qs.map_values(|q: (i64, MutationQueue)| (q.0, q.1.events@))
}

/// What one pass applies: the front event of every nonempty queue, in
/// registration order.
pub open spec fn fronts(qs: Seq<(i64, Seq<DBAction>)>) -> Seq<(i64, DBAction)>
    decreases qs.len(),
{
    if qs.len() == 0 {
        Seq::empty()
    } else {
        (if qs[0].1.len() > 0 {
            seq![(qs[0].0, qs[0].1[0])]
        } else {
            Seq::empty()
        }) + fronts(qs.drop_first())
    }
}

/// One pass advances every nonempty queue by one event.
pub open spec fn step_queues(qs: Seq<(i64, Seq<DBAction>)>) -> Seq<(i64, Seq<DBAction>)> {
    qs.map_values(
        |q: (i64, Seq<DBAction>)|
            (
                q.0,
                if q.1.len() > 0 {
                    q.1.drop_first()
                } else {
                    q.1
                },
            ),
    )
}

/// Everything a run of `k` passes applies, in order.
pub open spec fn run_log(qs: Seq<(i64, Seq<DBAction>)>, k: nat) -> Seq<(i64, DBAction)>
    decreases k,
{
    if k == 0 {
        Seq::empty()
    } else {
        fronts(qs) + run_log(step_queues(qs), (k - 1) as nat)
    }
}

/// The pending events of the tenant's queue, or nothing if it has none.
pub open spec fn pending_of(qs: Seq<(i64, Seq<DBAction>)>, id: i64) -> Seq<DBAction>
    decreases qs.len(),
{
    if qs.len() == 0 {
        Seq::empty()
    } else if qs[0].0 == id {
        qs[0].1
    } else {
        pending_of(qs.drop_first(), id)
    }
}

/// The registration list without the queues whose producer closed them
/// and whose events are all applied.
pub open spec fn live_queues(qs: Seq<(i64, MutationQueue)>) -> Seq<(i64, MutationQueue)>
    decreases qs.len(),
{
    if qs.len() == 0 {
        qs
    } else {
        let rest = live_queues(qs.drop_first());
        if qs[0].1.closed && qs[0].1.events@.len() == 0 {
            rest
        } else {
            seq![qs[0]] + rest
        }
    }
}

/// No two queues belong to the same tenant.
pub open spec fn distinct_ids(qs: Seq<(i64, Seq<DBAction>)>) -> bool {
    forall|i: int, j: int| 0 <= i < j < qs.len() ==> (#[trigger] qs[i]).0 != (#[trigger] qs[j]).0
}

impl FanIn {
    pub fn new() -> (r: Self)
        ensures
            r.queues@ =~= Seq::<(i64, MutationQueue)>::empty(),
    {
        FanIn { queues: Vec::new() }
    }

    /// Registers a tenant's fresh queue; a restart registers a new queue
    /// without unregistering the stale one, which leaves once its
    /// producer closes it and it runs dry.
    pub fn register(&mut self, id: i64, queue: MutationQueue)
        ensures
            final(self).queues@ == old(self).queues@.push((id, queue)),
    {
        self.queues.push((id, queue));
    }

    /// One pass: drains one pending event from every currently-registered
    /// queue, in registration order, and applies each to the store.
    /// Reports whether any work was found, so the caller can back off
    /// when a whole pass found none.
    pub fn drain_pass(&mut self, store: &mut Store) -> (r: (bool, Ghost<Seq<Store>>))
        ensures
            final(self).queues@.len() == old(self).queues@.len(),
            forall|i: int|
                0 <= i < old(self).queues@.len() ==> (#[trigger] final(self).queues@[i]).0
                    == old(self).queues@[i].0 && final(self).queues@[i].1.closed == old(
                    self,
                ).queues@[i].1.closed,
            abs_queues(final(self).queues@) == step_queues(abs_queues(old(self).queues@)),
            final(store).applied@ == old(store).applied@ + fronts(abs_queues(old(self).queues@)),
            store_trace_ok(r.1@, fronts(abs_queues(old(self).queues@))),
            r.1@.first() == *old(store),
            r.1@.last() == *final(store),
            old(store).wf() ==> final(store).wf(),
            r.0 == (fronts(abs_queues(old(self).queues@)).len() > 0),
    {
        let ghost qs0 = abs_queues(self.queues@);
        let ghost trace = seq![*store];
        let mut worked = false;
        let mut i: usize = 0;
        while i < self.queues.len()
            invariant
                i <= self.queues@.len(),
                self.queues@.len() == old(self).queues@.len(),
                forall|j: int|
                    0 <= j < old(self).queues@.len() ==> (#[trigger] self.queues@[j]).0 == old(
                        self,
                    ).queues@[j].0 && self.queues@[j].1.closed == old(self).queues@[j].1.closed,
                qs0 == abs_queues(old(self).queues@),
                forall|j: int|
                    i <= j < old(self).queues@.len() ==> #[trigger] self.queues@[j].1.events@
                        == old(self).queues@[j].1.events@,
                forall|j: int|
                    0 <= j < i ==> #[trigger] self.queues@[j].1.events@ == step_queues(qs0)[j].1,
                store.applied@ == old(store).applied@ + fronts(qs0.take(i as int)),
                store_trace_ok(trace, fronts(qs0.take(i as int))),
                trace.first() == *old(store),
                trace.last() == *store,
                old(store).wf() ==> store.wf(),
                worked == (fronts(qs0.take(i as int)).len() > 0),
            decreases self.queues.len() - i,
        {
            let ghost store_pre = *store;
            let ghost done = fronts(qs0.take(i as int));
            proof {
                lemma_fronts_snoc(qs0, i as int);
            }
            let ghost evs0 = self.queues@[i as int].1.events@;
            proof {
                assert(evs0 == old(self).queues@[i as int].1.events@);
                assert(qs0[i as int].1 == evs0);
                assert(qs0[i as int].0 == old(self).queues@[i as int].0);
            }
            if self.queues[i].1.events.len() > 0 {
                let ghost qprev = self.queues@;
                let id = self.queues[i].0;
                let (tid, mut q) = self.queues.remove(i);
                let ghost q_pre = q;
                let ev = q.events.remove(0);
                let ghost q2 = q;
                proof {
                    assert(q_pre.events@ == evs0);
                    assert(ev == evs0[0]);
                    assert(q2.events@ =~= evs0.drop_first());
                }
                store.apply(id, ev);
                self.queues.insert(i, (tid, q));
                proof {
                    assert(self.queues@ =~= qprev.update(i as int, (tid, q2)));
                    assert(q2.closed == qprev[i as int].1.closed);
                    assert(forall|j: int|
                        0 <= j < qprev.len() && j != i ==> self.queues@[j] == qprev[j]);
                    assert(id == qs0[i as int].0);
                    assert(ev == qs0[i as int].1[0]);
                    assert(evs0.len() > 0);
                    assert(done.push((id, ev)) =~= done + seq![(id, ev)]);
                    assert(fronts(qs0.take(i + 1)) =~= done.push((id, ev)));
                    let stepped = done.push((id, ev));
                    trace = trace.push(*store);
                    assert(store_apply_rel(store_pre, id, ev, *store));
                    assert(trace.last() == *store);
                    assert(store_trace_ok(trace, stepped)) by {
                        assert forall|k: int| 0 <= k < stepped.len() implies store_apply_rel(
                            trace[k],
                            (#[trigger] stepped[k]).0,
                            stepped[k].1,
                            trace[k + 1],
                        ) by {
                            if k < stepped.len() - 1 {
                                assert(trace[k] == trace.drop_last()[k]);
                                assert(trace[k + 1] == trace.drop_last()[k + 1]);
                                assert(stepped[k] == done[k]);
                            } else {
                                assert(trace[k] == store_pre);
                                assert(trace[k + 1] == *store);
                                assert(stepped[k] == (id, ev));
                            }
                        }
                    }
                    assert(store.applied@ =~= old(store).applied@ + fronts(qs0.take(i + 1)));
                    assert(self.queues@[i as int].1.events@ == step_queues(qs0)[i as int].1);
                }
                worked = true;
            } else {
                proof {
                    assert(fronts(qs0.take(i + 1)) =~= fronts(qs0.take(i as int)));
                    assert(store.applied@ =~= old(store).applied@ + fronts(qs0.take(i + 1)));
                    assert(self.queues@[i as int].1.events@ == step_queues(qs0)[i as int].1);
                }
            }
            i += 1;
        }
        proof {
            assert(qs0.take(qs0.len() as int) =~= qs0);
            assert(abs_queues(self.queues@) =~= step_queues(qs0));
        }
        (worked, Ghost(trace))
    }

    /// Removes every queue whose producer has closed it and whose pending
    /// events are all applied: a fully stopped tenant leaves the fan-in.
    pub fn sweep(&mut self)
        ensures
            final(self).queues@ == live_queues(old(self).queues@),
    {
        let ghost orig = self.queues@;
        let mut i: usize = 0;
        let ghost j: int = 0;
        proof {
            assert(self.queues@ =~= self.queues@.take(i as int) + orig.skip(j));
        }
        while i < self.queues.len()
            invariant
                0 <= j <= orig.len(),
                i as int <= j,
                i <= self.queues@.len(),
                self.queues@ == self.queues@.take(i as int) + orig.skip(j),
                live_queues(orig) == self.queues@.take(i as int) + live_queues(orig.skip(j)),
            decreases orig.len() - j,
        {
            let ghost pre = self.queues@;
            proof {
                assert(orig.skip(j)[0] == pre[i as int]);
                assert(orig.skip(j).drop_first() =~= orig.skip(j + 1));
            }
            let keep = !(self.queues[i].1.closed && self.queues[i].1.events.len() == 0);
            if keep {
                i += 1;
                proof {
                    j = j + 1;
                    assert(live_queues(orig.skip(j - 1)) =~= seq![pre[i - 1]] + live_queues(
                        orig.skip(j),
                    ));
                    assert(self.queues@.take(i as int) =~= pre.take(i - 1).push(pre[i - 1]));
                    assert(live_queues(orig) =~= self.queues@.take(i as int) + live_queues(
                        orig.skip(j),
                    ));
                    assert(self.queues@ =~= self.queues@.take(i as int) + orig.skip(j));
                }
            } else {
                self.queues.remove(i);
                proof {
                    j = j + 1;
                    assert(live_queues(orig.skip(j - 1)) =~= live_queues(orig.skip(j)));
                    assert(self.queues@.take(i as int) =~= pre.take(i as int));
                    assert(live_queues(orig) =~= self.queues@.take(i as int) + live_queues(
                        orig.skip(j),
                    ));
                    assert(self.queues@ =~= self.queues@.take(i as int) + orig.skip(j));
                }
            }
        }
        proof {
            assert(orig.skip(j).len() == 0);
            assert(live_queues(orig.skip(j)) =~= Seq::<(i64, MutationQueue)>::empty());
            assert(self.queues@ =~= self.queues@.take(i as int));
            assert(self.queues@ =~= live_queues(orig));
        }
    }
}

proof fn lemma_fronts_snoc(qs: Seq<(i64, Seq<DBAction>)>, i: int)
    requires
        0 <= i < qs.len(),
    ensures
        fronts(qs.take(i + 1)) == fronts(qs.take(i)) + (if qs[i].1.len() > 0 {
            seq![(qs[i].0, qs[i].1[0])]
        } else {
            Seq::<(i64, DBAction)>::empty()
        }),
    decreases i,
{
    if i == 0 {
        assert(qs.take(1)[0] == qs[0]);
        assert(qs.take(1).drop_first() =~= Seq::<(i64, Seq<DBAction>)>::empty());
        assert(qs.take(0) =~= Seq::<(i64, Seq<DBAction>)>::empty());
        assert(fronts(qs.take(1)) =~= fronts(qs.take(0)) + (if qs[0].1.len() > 0 {
            seq![(qs[0].0, qs[0].1[0])]
        } else {
            Seq::<(i64, DBAction)>::empty()
        }));
    } else {
        lemma_fronts_snoc(qs.drop_first(), i - 1);
        assert(qs.take(i + 1).drop_first() =~= qs.drop_first().take(i));
        assert(qs.take(i).drop_first() =~= qs.drop_first().take(i - 1));
        assert(qs.take(i + 1)[0] == qs[0]);
        assert(qs.take(i)[0] == qs[0]);
        assert(qs.drop_first()[i - 1] == qs[i]);
        assert(fronts(qs.take(i + 1)) =~= fronts(qs.take(i)) + (if qs[i].1.len() > 0 {
            seq![(qs[i].0, qs[i].1[0])]
        } else {
            Seq::<(i64, DBAction)>::empty()
        }));
    }
}



// ---------------------------------------------------------------------
// Per-tenant ordering.
// ---------------------------------------------------------------------

/// The events of the log that belong to one tenant, in log order.
pub open spec fn project(log: Seq<(i64, DBAction)>, id: i64) -> Seq<DBAction>
    decreases log.len(),
{
    if log.len() == 0 {
        Seq::empty()
    } else {
        (if log[0].0 == id {
            seq![log[0].1]
        } else {
            Seq::<DBAction>::empty()
        }) + project(log.drop_first(), id)
    }
}

proof fn lemma_project_concat(a: Seq<(i64, DBAction)>, b: Seq<(i64, DBAction)>, id: i64)
    ensures
        project(a + b, id) == project(a, id) + project(b, id),
    decreases a.len(),
{
    if a.len() == 0 {
        assert(a + b =~= b);
        assert(project(a, id) + project(b, id) =~= project(b, id));
    } else {
        lemma_project_concat(a.drop_first(), b, id);
        assert((a + b).drop_first() =~= a.drop_first() + b);
        assert((a + b)[0] == a[0]);
        assert(project(a + b, id) =~= project(a, id) + project(b, id));
    }
}

proof fn lemma_pending_absent(qs: Seq<(i64, Seq<DBAction>)>, id: i64)
    requires
        forall|i: int| 0 <= i < qs.len() ==> (#[trigger] qs[i]).0 != id,
    ensures
        pending_of(qs, id) == Seq::<DBAction>::empty(),
    decreases qs.len(),
{
    if qs.len() > 0 {
        assert(qs[0].0 != id);
        lemma_pending_absent(qs.drop_first(), id);
    }
}

proof fn lemma_fronts_project_absent(qs: Seq<(i64, Seq<DBAction>)>, id: i64)
    requires
        forall|i: int| 0 <= i < qs.len() ==> (#[trigger] qs[i]).0 != id,
    ensures
        project(fronts(qs), id) == Seq::<DBAction>::empty(),
    decreases qs.len(),
{
    if qs.len() == 0 {
    } else {
        lemma_fronts_project_absent(qs.drop_first(), id);
        let head = if qs[0].1.len() > 0 {
            seq![(qs[0].0, qs[0].1[0])]
        } else {
            Seq::<(i64, DBAction)>::empty()
        };
        lemma_project_concat(head, fronts(qs.drop_first()), id);
        assert(qs[0].0 != id);
        if qs[0].1.len() > 0 {
            assert(head.drop_first() =~= Seq::<(i64, DBAction)>::empty());
            assert(project(head.drop_first(), id) =~= Seq::<DBAction>::empty());
        }
        assert(project(head, id) =~= Seq::<DBAction>::empty());
        assert(project(fronts(qs), id) =~= Seq::<DBAction>::empty());
    }
}

/// What one pass contributes to one tenant: that tenant's front event and
/// nothing else.
proof fn lemma_fronts_project(qs: Seq<(i64, Seq<DBAction>)>, id: i64)
    requires
        distinct_ids(qs),
    ensures
        project(fronts(qs), id) == if pending_of(qs, id).len() > 0 {
            seq![pending_of(qs, id)[0]]
        } else {
            Seq::<DBAction>::empty()
        },
    decreases qs.len(),
{
    if qs.len() == 0 {
    } else {
        let head = if qs[0].1.len() > 0 {
            seq![(qs[0].0, qs[0].1[0])]
        } else {
            Seq::<(i64, DBAction)>::empty()
        };
        lemma_project_concat(head, fronts(qs.drop_first()), id);
        if qs[0].1.len() > 0 {
            assert(head.drop_first() =~= Seq::<(i64, DBAction)>::empty());
            assert(project(head.drop_first(), id) =~= Seq::<DBAction>::empty());
        }
        if qs[0].0 == id {
            assert(forall|i: int|
                0 <= i < qs.drop_first().len() ==> (#[trigger] qs.drop_first()[i]).0 != id) by {
                assert(forall|i: int|
                    0 <= i < qs.drop_first().len() ==> qs.drop_first()[i] == qs[i + 1]);
            }
            lemma_fronts_project_absent(qs.drop_first(), id);
            assert(project(fronts(qs), id) =~= project(head, id));
            assert(pending_of(qs, id) == qs[0].1);
            if qs[0].1.len() > 0 {
                assert(project(head, id) =~= seq![qs[0].1[0]]);
            } else {
                assert(project(head, id) =~= Seq::<DBAction>::empty());
            }
        } else {
            assert(distinct_ids(qs.drop_first())) by {
                assert(forall|i: int|
                    0 <= i < qs.drop_first().len() ==> qs.drop_first()[i] == qs[i + 1]);
            }
            lemma_fronts_project(qs.drop_first(), id);
            assert(project(head, id) =~= Seq::<DBAction>::empty());
            assert(pending_of(qs, id) == pending_of(qs.drop_first(), id));
            assert(project(fronts(qs), id) =~= project(fronts(qs.drop_first()), id));
        }
    }
}

/// One pass advances one tenant's pending events by exactly its front.
proof fn lemma_pending_step(qs: Seq<(i64, Seq<DBAction>)>, id: i64)
    ensures
        pending_of(step_queues(qs), id) == if pending_of(qs, id).len() > 0 {
            pending_of(qs, id).drop_first()
        } else {
            pending_of(qs, id)
        },
    decreases qs.len(),
{
    if qs.len() == 0 {
        assert(step_queues(qs).len() == 0);
    } else {
        lemma_pending_step(qs.drop_first(), id);
        assert(step_queues(qs).drop_first() =~= step_queues(qs.drop_first()));
        assert(step_queues(qs)[0].0 == qs[0].0);
        assert(step_queues(qs)[0].1 == if qs[0].1.len() > 0 {
            qs[0].1.drop_first()
        } else {
            qs[0].1
        });
    }
}

proof fn lemma_distinct_step(qs: Seq<(i64, Seq<DBAction>)>)
    requires
        distinct_ids(qs),
    ensures
        distinct_ids(step_queues(qs)),
{
    assert forall|i: int, j: int|
        0 <= i < j < step_queues(qs).len() implies (#[trigger] step_queues(qs)[i]).0 != (
    #[trigger] step_queues(qs)[j]).0 by {
        assert(step_queues(qs)[i].0 == qs[i].0);
        assert(step_queues(qs)[j].0 == qs[j].0);
    }
}

/// The ordering guarantee of the persistence worker: over any number of
/// passes, the events applied on behalf of one tenant are exactly the
/// first of that tenant's enqueued events, in the order they were
/// enqueued. Across different tenants no order is promised.
pub proof fn lemma_worker_fifo(qs: Seq<(i64, Seq<DBAction>)>, id: i64, k: nat)
    requires
        distinct_ids(qs),
    ensures
        project(run_log(qs, k), id) == pending_of(qs, id).take(
            if k <= pending_of(qs, id).len() {
                k as int
            } else {
                pending_of(qs, id).len() as int
            },
        ),
    decreases k,
{
    let pending = pending_of(qs, id);
    if k == 0 {
        assert(pending.take(0) =~= Seq::<DBAction>::empty());
    } else {
        lemma_fronts_project(qs, id);
        lemma_distinct_step(qs);
        lemma_pending_step(qs, id);
        lemma_worker_fifo(step_queues(qs), id, (k - 1) as nat);
        lemma_project_concat(fronts(qs), run_log(step_queues(qs), (k - 1) as nat), id);
        if pending.len() == 0 {
            assert(pending.take(0) =~= Seq::<DBAction>::empty());
            assert(project(run_log(qs, k), id) =~= Seq::<DBAction>::empty());
        } else {
            let m = if k - 1 <= pending.drop_first().len() {
                k - 1
            } else {
                pending.drop_first().len() as int
            };
            let total = if k <= pending.len() {
                k as int
            } else {
                pending.len() as int
            };
            assert(project(run_log(qs, k), id) =~= seq![pending[0]] + pending.drop_first().take(
                m,
            ));
            assert(seq![pending[0]] + pending.drop_first().take(m) =~= pending.take(total));
        }
    }
}

} // verus!
