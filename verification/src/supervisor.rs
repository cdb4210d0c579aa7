//! The tenant supervisor's registry: which tenants are running, each with
//! the stop capability its event loop answers to. Starting wires the
//! tenant's fresh mutation queue and hands back the control event that
//! registers it with the persistence worker; stopping surrenders the
//! handle so the caller can await a graceful shutdown.

use vstd::prelude::*;
use crate::persistent::{DBAction, MutationQueue};

verus! {

/// The ids of the registry, in order.
pub open spec fn rkeys<H>(s: Seq<(i64, H)>) -> Seq<i64> {
    s.map_values(|p: (i64, H)| p.0)
}

/// The position of a tenant's entry.
pub open spec fn rindex<H>(s: Seq<(i64, H)>, id: i64) -> Option<int> {
    rkeys(s).index_of_first(id)
}

pub open spec fn runique<H>(s: Seq<(i64, H)>) -> bool {
    forall|i: int, j: int| 0 <= i < j < s.len() ==> rkeys(s)[i] != rkeys(s)[j]
}

/// Insert-or-replace into the registry.
pub open spec fn rinsert<H>(s: Seq<(i64, H)>, id: i64, h: H) -> Seq<(i64, H)> {
    match rindex(s, id) {
        Some(i) => s.update(i, (id, h)),
        None => s.push((id, h)),
    }
}

/// Delete-if-present from the registry.
pub open spec fn rremove<H>(s: Seq<(i64, H)>, id: i64) -> Seq<(i64, H)> {
    match rindex(s, id) {
        Some(i) => s.remove(i),
        None => s,
    }
}

/// The registry of running tenants, keyed by tenant id. The caller
/// serializes access to it; its critical sections hold no other work.
pub struct Registry<H> {
    pub entries: Vec<(i64, H)>,
}

impl<H> Registry<H> {
    /// Each running tenant has exactly one live handle.
    pub open spec fn wf(self) -> bool {
        runique(self.entries@)
    }

    pub fn new() -> (r: Self)
        ensures
            r.entries@ =~= Seq::<(i64, H)>::empty(),
            r.wf(),
    {
        Registry { entries: Vec::new() }
    }

    /// Brings a tenant up, if its credential probe succeeded: the handle
    /// enters the registry and the returned control event carries the
    /// tenant's fresh, empty mutation queue for the persistence worker.
    /// A failed probe changes nothing and registers nothing.
    pub fn start(&mut self, id: i64, handle: H, credential_ok: bool) -> (r: Option<DBAction>)
        ensures
            !credential_ok ==> final(self).entries@ == old(self).entries@ && r is None,
            credential_ok ==> final(self).entries@ == rinsert(old(self).entries@, id, handle) && (
            r matches Some(a) && (a matches DBAction::AddListener(i, q) && i == id && q.events@
                =~= Seq::<DBAction>::empty() && !q.closed)),
            old(self).wf() ==> final(self).wf(),
    {
        if !credential_ok {
            return None;
        }
        proof {
            lemma_rindex(self.entries@, id);
            if runique(self.entries@) {
                lemma_rinsert_unique(self.entries@, id, handle);
            }
        }
        match find_entry(&self.entries, id) {
            Some(i) => {
                self.entries[i] = (id, handle);
            },
            None => {
                self.entries.push((id, handle));
            },
        }
        Some(DBAction::AddListener(id, MutationQueue::new()))
    }

    /// Takes a tenant down: its entry leaves the registry and the handle
    /// comes back so the caller can signal the loop and await it.
    pub fn stop(&mut self, id: i64) -> (r: Option<H>)
        ensures
            final(self).entries@ == rremove(old(self).entries@, id),
            match rindex(old(self).entries@, id) {
                Some(i) => r == Some(old(self).entries@[i].1),
                None => r is None,
            },
            old(self).wf() ==> final(self).wf(),
    {
        proof {
            lemma_rindex(self.entries@, id);
            if runique(self.entries@) {
                lemma_rremove_unique(self.entries@, id);
            }
        }
        match find_entry(&self.entries, id) {
            Some(i) => {
                let (_, h) = self.entries.remove(i);
                Some(h)
            },
            None => None,
        }
    }

    /// Whether a tenant is currently running.
    pub fn contains(&self, id: i64) -> (r: bool)
        ensures
            r == rkeys(self.entries@).contains(id),
    {
        proof {
            lemma_rindex(self.entries@, id);
        }
        match find_entry(&self.entries, id) {
            Some(_) => true,
            None => false,
        }
    }
}

/// The platform failures that matter to supervision: a revoked or invalid
/// credential surfaces as the account no longer being found, and only
/// that failure shuts the tenant down.
#[derive(Clone, Copy, Debug, PartialEq, Eq)]
pub enum ApiFailure {
    NotFound,
    Other,
}

/// Whether a platform error must stop the tenant's event loop.
pub fn should_shutdown(e: ApiFailure) -> (r: bool)
    ensures
        r == (e == ApiFailure::NotFound),
{
    match e {
        ApiFailure::NotFound => true,
        ApiFailure::Other => false,
    }
}

proof fn lemma_rindex<H>(s: Seq<(i64, H)>, id: i64)
    ensures
        match rindex(s, id) {
            Some(i) => 0 <= i < s.len() && s[i].0 == id && rkeys(s).contains(id) && (forall|j: int|
                0 <= j < i ==> s[j].0 != id),
            None => !rkeys(s).contains(id),
        },
{
    rkeys(s).index_of_first_ensures(id);
    match rindex(s, id) {
        Some(i) => {
            assert(rkeys(s)[i] == s[i].0);
            assert forall|j: int| 0 <= j < i implies s[j].0 != id by {
                assert(rkeys(s)[j] == s[j].0);
            }
        },
        None => {},
    }
}

proof fn lemma_rinsert_unique<H>(s: Seq<(i64, H)>, id: i64, h: H)
    requires
        runique(s),
    ensures
        runique(rinsert(s, id, h)),
{
    lemma_rindex(s, id);
    let out = rinsert(s, id, h);
    match rindex(s, id) {
        Some(i) => {
            assert(rkeys(out) =~= rkeys(s));
        },
        None => {
            assert(rkeys(out) =~= rkeys(s).push(id));
            assert forall|a: int, b: int| 0 <= a < b < out.len() implies rkeys(out)[a] != rkeys(
                out,
            )[b] by {
                if b == out.len() - 1 {
                    assert(rkeys(s).contains(rkeys(s)[a]));
                }
            }
        },
    }
}

proof fn lemma_rremove_unique<H>(s: Seq<(i64, H)>, id: i64)
    requires
        runique(s),
    ensures
        runique(rremove(s, id)),
{
    lemma_rindex(s, id);
    let out = rremove(s, id);
    match rindex(s, id) {
        Some(i) => {
            assert forall|a: int, b: int| 0 <= a < b < out.len() implies rkeys(out)[a] != rkeys(
                out,
            )[b] by {
                assert(rkeys(out)[a] == out[a].0);
                assert(rkeys(out)[b] == out[b].0);
                assert(out[a] == if a < i {
                    s[a]
                } else {
                    s[a + 1]
                });
                assert(out[b] == if b < i {
                    s[b]
                } else {
                    s[b + 1]
                });
                assert(rkeys(s)[if a < i {
                    a
                } else {
                    a + 1
                }] == s[if a < i {
                    a
                } else {
                    a + 1
                }].0);
                assert(rkeys(s)[if b < i {
                    b
                } else {
                    b + 1
                }] == s[if b < i {
                    b
                } else {
                    b + 1
                }].0);
            }
        },
        None => {},
    }
}

fn find_entry<H>(v: &Vec<(i64, H)>, id: i64) -> (r: Option<usize>)
    ensures
        match r {
            Some(i) => rindex(v@, id) == Some(i as int),
            None => rindex(v@, id) is None,
        },
{
    proof {
        lemma_rindex(v@, id);
    }
    let mut i: usize = 0;
    while i < v.len()
        invariant
            i <= v@.len(),
            forall|j: int| 0 <= j < i ==> v@[j].0 != id,
        decreases v.len() - i,
    {
        if v[i].0 == id {
            proof {
                rkeys(v@).index_of_first_ensures(id);
                assert(rkeys(v@)[i as int] == id);
                match rindex(v@, id) {
                    Some(idx) => {
                        if idx < i {
                            assert(rkeys(v@)[idx] == v@[idx].0);
                        } else if idx > i as int {
                            assert(rkeys(v@)[i as int] != id);
                        }
                    },
                    None => {
                        assert(rkeys(v@).contains(rkeys(v@)[i as int]));
                    },
                }
            }
            return Some(i);
        }
        i += 1;
    }
    proof {
        lemma_rindex(v@, id);
        if rkeys(v@).contains(id) {
            let j = choose|j: int| 0 <= j < rkeys::<H>(v@).len() && rkeys::<H>(v@)[j] == id;
            assert(v@[j].0 != id);
        }
    }
    None
}

} // verus!
