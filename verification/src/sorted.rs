//! String-keyed association lists kept sorted by key, each key at most once:
//! the library's stand-in for a `BTreeMap<String, V>`.
use vstd::prelude::*;
use crate::text::{seq_lt, str_eq, str_lt, lemma_seq_lt_irreflexive, lemma_seq_lt_transitive,
    lemma_seq_lt_total, lemma_seq_lt_asymmetric};

verus! {

/// Keys strictly increase along the list, so no key occurs twice.
pub open spec fn keys_sorted<V>(e: Seq<(String, V)>) -> bool {
    forall|i: int, j: int| 0 <= i < j < e.len() ==> seq_lt(#[trigger] e[i].0@, #[trigger] e[j].0@)
}

/// Whether some entry has key `k`.
pub open spec fn has_key<V>(e: Seq<(String, V)>, k: Seq<char>) -> bool {
    exists|i: int| 0 <= i < e.len() && #[trigger] e[i].0@ == k
}

/// The position of an entry with key `k` (meaningful when `has_key`).
pub open spec fn key_index<V>(e: Seq<(String, V)>, k: Seq<char>) -> int {
    choose|i: int| 0 <= i < e.len() && #[trigger] e[i].0@ == k
}

/// The list read as a finite map from keys to values.
pub open spec fn entries_map<V>(e: Seq<(String, V)>) -> Map<Seq<char>, V> {
    Map::new(|k: Seq<char>| has_key(e, k), |k: Seq<char>| e[key_index(e, k)].1)
}


/// In a sorted list an entry is found at exactly one position.
pub proof fn lemma_sorted_unique<V>(e: Seq<(String, V)>, i: int, j: int)
    requires
        keys_sorted(e),
        0 <= i < e.len(),
        0 <= j < e.len(),
        e[i].0@ == e[j].0@,
    ensures
        i == j,
{
    if i < j {
        lemma_seq_lt_irreflexive(e[i].0@);
    } else if j < i {
        lemma_seq_lt_irreflexive(e[i].0@);
    }
}

/// In a sorted list, the map reads the value at the key's position.
pub proof fn lemma_map_at<V>(e: Seq<(String, V)>, i: int)
    requires
        keys_sorted(e),
        0 <= i < e.len(),
    ensures
        entries_map(e).contains_key(e[i].0@),
        entries_map(e)[e[i].0@] == e[i].1,
{
    assert(has_key(e, e[i].0@));
    let j = key_index(e, e[i].0@);
    lemma_sorted_unique(e, i, j);
}

/// The position of the entry with key `key`, if there is one.
pub fn find_key<V>(entries: &Vec<(String, V)>, key: &str) -> (r: Option<usize>)
    ensures
        match r {
            Some(i) => i < entries@.len() && entries@[i as int].0@ == key@,
            None => !has_key(entries@, key@),
        },
{
    let mut i: usize = 0;
    while i < entries.len()
        invariant
            i <= entries@.len(),
            forall|j: int| 0 <= j < i ==> entries@[j].0@ != key@,
        decreases entries@.len() - i,
    {
        if str_eq(entries[i].0.as_str(), key) {
            return Some(i);
        }
        i = i + 1;
    }
    None
}

/// The value stored under `key`, if any (`BTreeMap::get`).
pub fn get_value<'a, V>(entries: &'a Vec<(String, V)>, key: &str) -> (r: Option<&'a V>)
    requires
        keys_sorted(entries@),
    ensures
        match r {
            Some(v) => entries_map(entries@).contains_key(key@) && *v == entries_map(entries@)[key@],
            None => !entries_map(entries@).contains_key(key@),
        },
{
    match find_key(entries, key) {
        Some(i) => {
            proof { lemma_map_at(entries@, i as int); }
            Some(&entries[i].1)
        },
        None => None,
    }
}

/// Stores `value` under `key`, replacing an earlier value (`BTreeMap::insert`).
pub fn insert_entry<V>(entries: &mut Vec<(String, V)>, key: String, value: V)
    requires
        keys_sorted(old(entries)@),
    ensures
        keys_sorted(final(entries)@),
        entries_map(final(entries)@) == entries_map(old(entries)@).insert(key@, value),
{
    let ghost old_e = entries@;
    let mut p: usize = 0;
    while p < entries.len() && str_lt(entries[p].0.as_str(), key.as_str())
        invariant
            entries@ == old_e,
            p <= entries@.len(),
            forall|j: int| 0 <= j < p ==> seq_lt(#[trigger] entries@[j].0@, key@),
        decreases entries@.len() - p,
    {
        p = p + 1;
    }
    // Every entry from `p` on has a key at or above `key`.
    assert forall|j: int| p <= j < old_e.len() implies !seq_lt(#[trigger] old_e[j].0@, key@) by {
        if j > p {
            if seq_lt(old_e[j].0@, key@) {
                lemma_seq_lt_total(old_e[p as int].0@, key@);
                if old_e[p as int].0@ != key@ {
                    assert(seq_lt(old_e[p as int].0@, old_e[j].0@));
                    lemma_seq_lt_asymmetric(key@, old_e[p as int].0@);
                    lemma_seq_lt_transitive(key@, old_e[p as int].0@, old_e[j].0@);
                    lemma_seq_lt_asymmetric(key@, old_e[j].0@);
                } else {
                    lemma_seq_lt_asymmetric(old_e[p as int].0@, old_e[j].0@);
                }
            }
        }
    }
    if p < entries.len() && str_eq(entries[p].0.as_str(), key.as_str()) {
        let ghost k = key@;
        entries.set(p, (key, value));
        assert(keys_sorted(entries@)) by {
            assert forall|i: int, j: int| 0 <= i < j < entries@.len() implies
                seq_lt(#[trigger] entries@[i].0@, #[trigger] entries@[j].0@) by {
                assert(old_e[i].0@ == entries@[i].0@ || i == p);
                assert(old_e[j].0@ == entries@[j].0@ || j == p);
                assert(seq_lt(old_e[i].0@, old_e[j].0@));
            }
        }
        assert(entries_map(entries@) =~= entries_map(old_e).insert(k, entries@[p as int].1)) by {
            lemma_map_at(entries@, p as int);
            assert forall|q: Seq<char>| #[trigger] entries_map(entries@).contains_key(q)
                <==> entries_map(old_e).insert(k, entries@[p as int].1).contains_key(q) by {
                if has_key(entries@, q) {
                    let i = key_index(entries@, q);
                    if i != p {
                        assert(old_e[i].0@ == q);
                    }
                }
                if has_key(old_e, q) {
                    let i = key_index(old_e, q);
                    assert(entries@[i].0@ == q || i == p);
                }
            }
            assert forall|q: Seq<char>| #[trigger] entries_map(entries@).contains_key(q) implies
                entries_map(entries@)[q] == entries_map(old_e).insert(k, entries@[p as int].1)[q] by {
                let i = key_index(entries@, q);
                lemma_map_at(entries@, i);
                if q != k {
                    assert(i != p);
                    assert(old_e[i] == entries@[i]);
                    lemma_map_at(old_e, i);
                }
            }
        }
    } else {
        let ghost k = key@;
        let ghost v = value;
        entries.insert(p, (key, value));
        assert(entries@ =~= old_e.insert(p as int, (entries@[p as int].0, v)));
        assert forall|j: int| 0 <= j < old_e.len() implies
            #[trigger] old_e[j].0@ != k by {
            if j < p {
                lemma_seq_lt_irreflexive(k);
            } else {
                if j == p {
                } else {
                    lemma_seq_lt_total(old_e[p as int].0@, k);
                    if old_e[p as int].0@ == k {
                    } else {
                        lemma_seq_lt_asymmetric(old_e[p as int].0@, old_e[j].0@);
                        if old_e[j].0@ == k {
                            assert(seq_lt(k, old_e[p as int].0@));
                            lemma_seq_lt_asymmetric(k, old_e[p as int].0@);
                        }
                    }
                }
            }
        }
        assert(keys_sorted(entries@)) by {
            assert forall|i: int, j: int| 0 <= i < j < entries@.len() implies
                seq_lt(#[trigger] entries@[i].0@, #[trigger] entries@[j].0@) by {
                if i < p && j < p {
                    assert(entries@[i] == old_e[i] && entries@[j] == old_e[j]);
                } else if i < p && j == p {
                } else if i < p && j > p {
                    assert(entries@[j] == old_e[j - 1]);
                    assert(entries@[i] == old_e[i]);
                } else if i == p {
                    assert(entries@[j] == old_e[j - 1]);
                    assert(!seq_lt(old_e[j - 1].0@, k));
                    lemma_seq_lt_total(old_e[j - 1].0@, k);
                } else {
                    assert(entries@[i] == old_e[i - 1] && entries@[j] == old_e[j - 1]);
                }
            }
        }
        assert(entries_map(entries@) =~= entries_map(old_e).insert(k, v)) by {
            lemma_map_at(entries@, p as int);
            assert forall|q: Seq<char>| #[trigger] entries_map(entries@).contains_key(q)
                <==> entries_map(old_e).insert(k, v).contains_key(q) by {
                if has_key(entries@, q) {
                    let i = key_index(entries@, q);
                    if i < p {
                        assert(old_e[i].0@ == q);
                    } else if i > p {
                        assert(old_e[i - 1].0@ == q);
                    }
                }
                if has_key(old_e, q) {
                    let i = key_index(old_e, q);
                    if i < p {
                        assert(entries@[i].0@ == q);
                    } else {
                        assert(entries@[i + 1].0@ == q);
                    }
                }
            }
            assert forall|q: Seq<char>| #[trigger] entries_map(entries@).contains_key(q) implies
                entries_map(entries@)[q] == entries_map(old_e).insert(k, v)[q] by {
                let i = key_index(entries@, q);
                lemma_map_at(entries@, i);
                if i < p {
                    assert(entries@[i] == old_e[i]);
                    lemma_map_at(old_e, i);
                } else if i > p {
                    assert(entries@[i] == old_e[i - 1]);
                    lemma_map_at(old_e, i - 1);
                }
            }
        }
    }
}

/// Removes the entry with key `key`; returns whether there was one (`BTreeMap::remove`).
pub fn remove_entry<V>(entries: &mut Vec<(String, V)>, key: &str) -> (found: bool)
    requires
        keys_sorted(old(entries)@),
    ensures
        keys_sorted(final(entries)@),
        found == entries_map(old(entries)@).contains_key(key@),
        entries_map(final(entries)@) == entries_map(old(entries)@).remove(key@),
{
    let ghost old_e = entries@;
    match find_key(entries, key) {
        None => {
            assert(entries_map(old_e).remove(key@) =~= entries_map(old_e));
            false
        },
        Some(p) => {
            entries.remove(p);
            assert(entries@ =~= old_e.remove(p as int));
            assert(keys_sorted(entries@)) by {
                assert forall|i: int, j: int| 0 <= i < j < entries@.len() implies
                    seq_lt(#[trigger] entries@[i].0@, #[trigger] entries@[j].0@) by {
                    let oi = if i < p { i } else { i + 1 };
                    let oj = if j < p { j } else { j + 1 };
                    assert(entries@[i] == old_e[oi] && entries@[j] == old_e[oj]);
                }
            }
            assert(entries_map(entries@) =~= entries_map(old_e).remove(key@)) by {
                assert forall|q: Seq<char>| #[trigger] entries_map(entries@).contains_key(q)
                    <==> entries_map(old_e).remove(key@).contains_key(q) by {
                    if has_key(entries@, q) {
                        let i = key_index(entries@, q);
                        let oi = if i < p { i } else { i + 1 };
                        assert(old_e[oi].0@ == q);
                        if q == key@ {
                            lemma_sorted_unique(old_e, oi, p as int);
                        }
                    }
                    if has_key(old_e, q) && q != key@ {
                        let i = key_index(old_e, q);
                        if i < p {
                            assert(entries@[i].0@ == q);
                        } else {
                            assert(i != p);
                            assert(entries@[i - 1].0@ == q);
                        }
                    }
                }
                assert forall|q: Seq<char>| #[trigger] entries_map(entries@).contains_key(q) implies
                    entries_map(entries@)[q] == entries_map(old_e).remove(key@)[q] by {
                    let i = key_index(entries@, q);
                    lemma_map_at(entries@, i);
                    let oi = if i < p { i } else { i + 1 };
                    assert(entries@[i] == old_e[oi]);
                    lemma_map_at(old_e, oi);
                }
            }
            proof { lemma_map_at(old_e, p as int); }
            true
        },
    }
}

} // verus!
