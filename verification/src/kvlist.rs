//! Association lists with unique keys: the in-memory form this library
//! gives to the admin set, the ban set and the other keyed collections.

use vstd::prelude::*;

verus! {

/// The keys of an association list, in order.
pub open spec fn keys<V>(s: Seq<(u64, V)>) -> Seq<u64> {
    s.map_values(|p: (u64, V)| p.0)
}

/// Every key occurs at most once.
pub open spec fn unique_keys<V>(s: Seq<(u64, V)>) -> bool {
    forall|i: int, j: int| 0 <= i < j < s.len() ==> keys(s)[i] != keys(s)[j]
}

/// The position of a key's first occurrence.
pub open spec fn key_index<V>(s: Seq<(u64, V)>, k: u64) -> Option<int> {
    keys(s).index_of_first(k)
}

/// The value stored under a key.
pub open spec fn spec_get<V>(s: Seq<(u64, V)>, k: u64) -> Option<V> {
    match key_index(s, k) {
        Some(i) => Some(s[i].1),
        None => None,
    }
}

pub open spec fn has_key<V>(s: Seq<(u64, V)>, k: u64) -> bool {
    keys(s).contains(k)
}

/// Insert-or-replace: a present key keeps its position, an absent one goes
/// to the back.
pub open spec fn spec_insert<V>(s: Seq<(u64, V)>, k: u64, v: V) -> Seq<(u64, V)> {
    match key_index(s, k) {
        Some(i) => s.update(i, (k, v)),
        None => s.push((k, v)),
    }
}

/// Delete-if-present.
pub open spec fn spec_remove<V>(s: Seq<(u64, V)>, k: u64) -> Seq<(u64, V)> {
    match key_index(s, k) {
        Some(i) => s.remove(i),
        None => s,
    }
}

pub proof fn lemma_key_index<V>(s: Seq<(u64, V)>, k: u64)
    ensures
        match key_index(s, k) {
            Some(i) => 0 <= i < s.len() && s[i].0 == k && has_key(s, k) && (forall|j: int|
                0 <= j < i ==> s[j].0 != k),
            None => !has_key(s, k),
        },
{
    keys(s).index_of_first_ensures(k);
    match key_index(s, k) {
        Some(i) => {
            assert(keys(s)[i] == s[i].0);
            assert forall|j: int| 0 <= j < i implies s[j].0 != k by {
                assert(keys(s)[j] == s[j].0);
            }
        },
        None => {},
    }
}

/// With unique keys, a present key is found exactly where it sits.
pub proof fn lemma_key_index_unique<V>(s: Seq<(u64, V)>, k: u64, i: int)
    requires
        unique_keys(s),
        0 <= i < s.len(),
        s[i].0 == k,
    ensures
        key_index(s, k) == Some(i),
{
    lemma_key_index(s, k);
    assert(keys(s)[i] == k);
    match key_index(s, k) {
        Some(j) => {
            if j < i {
                assert(keys(s)[j] == k);
            } else if j > i {
                assert(s[j].0 != k);
            }
        },
        None => {
            assert(keys(s).contains(keys(s)[i]));
        },
    }
}

pub proof fn lemma_insert_unique<V>(s: Seq<(u64, V)>, k: u64, v: V)
    requires
        unique_keys(s),
    ensures
        unique_keys(spec_insert(s, k, v)),
        keys(spec_insert(s, k, v)) == if has_key(s, k) {
            keys(s)
        } else {
            keys(s).push(k)
        },
{
    lemma_key_index(s, k);
    let out = spec_insert(s, k, v);
    match key_index(s, k) {
        Some(i) => {
            assert(keys(out) =~= keys(s));
        },
        None => {
            assert(keys(out) =~= keys(s).push(k));
            assert forall|a: int, b: int| 0 <= a < b < out.len() implies keys(out)[a]
                != keys(out)[b] by {
                if b == out.len() - 1 {
                    assert(keys(s).contains(keys(s)[a]));
                }
            }
        },
    }
}

pub proof fn lemma_remove_unique<V>(s: Seq<(u64, V)>, k: u64)
    requires
        unique_keys(s),
    ensures
        unique_keys(spec_remove(s, k)),
        !has_key(spec_remove(s, k), k),
{
    lemma_key_index(s, k);
    let out = spec_remove(s, k);
    match key_index(s, k) {
        Some(i) => {
            assert forall|a: int, b: int| 0 <= a < b < out.len() implies keys(out)[a]
                != keys(out)[b] by {
                assert(keys(out)[a] == if a < i {
                    keys(s)[a]
                } else {
                    keys(s)[a + 1]
                });
                assert(keys(out)[b] == if b < i {
                    keys(s)[b]
                } else {
                    keys(s)[b + 1]
                });
            }
            if has_key(out, k) {
                let j = choose|j: int| 0 <= j < keys::<V>(out).len() && keys::<V>(out)[j] == k;
                if j < i {
                    assert(out[j] == s[j]);
                    assert(s[j].0 != k);
                    assert(false);
                } else {
                    assert(out[j] == s[j + 1]);
                    assert(keys(s)[i] == k);
                    assert(keys(s)[j + 1] == k);
                    assert(keys(s)[i] != keys(s)[j + 1]);
                    assert(false);
                }
            }
        },
        None => {},
    }
}

/// Finds the position of a key.
pub fn find_index<V>(v: &Vec<(u64, V)>, k: u64) -> (r: Option<usize>)
    ensures
        match r {
            Some(i) => key_index(v@, k) == Some(i as int),
            None => key_index(v@, k) is None,
        },
{
    proof {
        lemma_key_index(v@, k);
    }
    let mut i: usize = 0;
    while i < v.len()
        invariant
            i <= v@.len(),
            forall|j: int| 0 <= j < i ==> v@[j].0 != k,
        decreases v.len() - i,
    {
        if v[i].0 == k {
            proof {
                keys(v@).index_of_first_ensures(k);
                assert(keys(v@)[i as int] == k);
                match key_index(v@, k) {
                    Some(idx) => {
                        if idx < i {
                            assert(v@[idx].0 == k);
                        } else if idx > i as int {
                            assert(keys(v@)[i as int] != k);
                        }
                    },
                    None => {
                        assert(keys(v@).contains(keys(v@)[i as int]));
                    },
                }
            }
            return Some(i);
        }
        i += 1;
    }
    proof {
        lemma_key_index(v@, k);
        if has_key(v@, k) {
            let j = choose|j: int| 0 <= j < keys::<V>(v@).len() && keys::<V>(v@)[j] == k;
            assert(v@[j].0 != k);
        }
    }
    None
}

/// Insert-or-replace in place.
pub fn kv_insert<V>(v: &mut Vec<(u64, V)>, k: u64, val: V)
    ensures
        final(v)@ == spec_insert(old(v)@, k, val),
        unique_keys(old(v)@) ==> unique_keys(final(v)@),
{
    proof {
        lemma_key_index(old(v)@, k);
        if unique_keys(old(v)@) {
            lemma_insert_unique(old(v)@, k, val);
        }
    }
    match find_index(v, k) {
        Some(i) => {
            v[i] = (k, val);
        },
        None => {
            v.push((k, val));
        },
    }
}

/// Delete-if-present in place; hands back the removed value.
pub fn kv_remove<V>(v: &mut Vec<(u64, V)>, k: u64) -> (r: Option<V>)
    ensures
        final(v)@ == spec_remove(old(v)@, k),
        r == spec_get(old(v)@, k),
        unique_keys(old(v)@) ==> unique_keys(final(v)@),
{
    proof {
        lemma_key_index(old(v)@, k);
        if unique_keys(old(v)@) {
            lemma_remove_unique(old(v)@, k);
        }
    }
    match find_index(v, k) {
        Some(i) => {
            let (_, val) = v.remove(i);
            Some(val)
        },
        None => None,
    }
}

/// Looks a key up, handing back a reference to its value.
pub fn kv_get<'a, V>(v: &'a Vec<(u64, V)>, k: u64) -> (r: Option<&'a V>)
    ensures
        match r {
            Some(val) => spec_get(v@, k) == Some(*val),
            None => spec_get(v@, k) is None,
        },
{
    proof {
        lemma_key_index(v@, k);
    }
    match find_index(v, k) {
        Some(i) => Some(&v[i].1),
        None => None,
    }
}

/// Whether a key is present.
pub fn kv_contains<V>(v: &Vec<(u64, V)>, k: u64) -> (r: bool)
    ensures
        r == has_key(v@, k),
{
    proof {
        lemma_key_index(v@, k);
    }
    match find_index(v, k) {
        Some(_) => true,
        None => false,
    }
}

} // verus!
