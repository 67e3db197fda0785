//! Records stored under byte-string keys, searched in storage order.

use vstd::prelude::*;

use crate::bytes::bytes_eq;

verus! {

/// The record stored under the first occurrence of `key`, if there is one.
pub open spec fn find_by_key<T>(entries: Seq<(Vec<u8>, T)>, key: Seq<u8>) -> Option<T>
    decreases entries.len(),
{
    if entries.len() == 0 {
        None
    } else if entries[0].0@ == key {
        Some(entries[0].1)
    } else {
        find_by_key(entries.drop_first(), key)
    }
}

/// Every key occurs at most once.
pub open spec fn keys_unique<T>(entries: Seq<(Vec<u8>, T)>) -> bool {
    forall|i: int, j: int|
        0 <= i < j < entries.len() ==> #[trigger] entries[i].0@ != #[trigger] entries[j].0@
}

/// The index of the first entry stored under `key`.
pub fn position_by_key<T>(entries: &Vec<(Vec<u8>, T)>, key: &Vec<u8>) -> (r: Option<usize>)
    ensures
        match r {
            Some(i) => i < entries.len() && find_by_key(entries@, key@) == Some(entries@[i as int].1),
            None => find_by_key(entries@, key@) is None,
        },
{
    let mut i: usize = 0;
    assert(entries@.subrange(0, entries@.len() as int) =~= entries@);
    while i < entries.len()
        invariant
            i <= entries.len(),
            find_by_key(entries@, key@) == find_by_key(
                entries@.subrange(i as int, entries@.len() as int),
                key@,
            ),
        decreases entries.len() - i,
    {
        let ghost rest = entries@.subrange(i as int, entries@.len() as int);
        if bytes_eq(&entries[i].0, key) {
            return Some(i);
        }
        assert(rest.drop_first() =~= entries@.subrange(i + 1, entries@.len() as int));
        i = i + 1;
    }
    None
}

/// Under unique keys, the record found under the key of an entry is that
/// entry's record.
pub proof fn lemma_find_unique_key<T>(entries: Seq<(Vec<u8>, T)>, i: int)
    requires
        keys_unique(entries),
        0 <= i < entries.len(),
    ensures
        find_by_key(entries, entries[i].0@) == Some(entries[i].1),
    decreases entries.len(),
{
    if i > 0 {
        let rest = entries.drop_first();
        assert(rest[i - 1] == entries[i]);
        assert(entries[0].0@ != entries[i].0@);
        assert forall|a: int, b: int| 0 <= a < b < rest.len() implies #[trigger] rest[a].0@
            != #[trigger] rest[b].0@ by {
            assert(rest[a] == entries[a + 1] && rest[b] == entries[b + 1]);
        }
        lemma_find_unique_key(rest, i - 1);
    }
}

/// A record is found under `key` exactly when some entry has that key.
pub proof fn lemma_find_some_iff_present<T>(entries: Seq<(Vec<u8>, T)>, key: Seq<u8>)
    ensures
        find_by_key(entries, key) is Some <==> exists|i: int|
            0 <= i < entries.len() && #[trigger] entries[i].0@ == key,
    decreases entries.len(),
{
    if entries.len() > 0 {
        let rest = entries.drop_first();
        lemma_find_some_iff_present(rest, key);
        if exists|i: int| 0 <= i < entries.len() && #[trigger] entries[i].0@ == key {
            let i = choose|i: int| 0 <= i < entries.len() && #[trigger] entries[i].0@ == key;
            if i > 0 {
                assert(rest[i - 1] == entries[i]);
            }
        }
        if exists|i: int| 0 <= i < rest.len() && #[trigger] rest[i].0@ == key {
            let i = choose|i: int| 0 <= i < rest.len() && #[trigger] rest[i].0@ == key;
            assert(rest[i] == entries[i + 1]);
        }
    }
}

/// A lookup gives the record of the first entry stored under `key`: the
/// result is `Some(v)` only when some entry has that key, the first such
/// entry holding `v`; keys that are not stored give `None`.
pub proof fn lemma_find_by_key_first_match<T>(entries: Seq<(Vec<u8>, T)>, key: Seq<u8>)
    ensures
        find_by_key(entries, key) is None <==> forall|i: int|
            0 <= i < entries.len() ==> #[trigger] entries[i].0@ != key,
        find_by_key(entries, key) matches Some(v) ==> exists|i: int|
            0 <= i < entries.len() && #[trigger] entries[i].0@ == key && entries[i].1 == v
                && forall|j: int| 0 <= j < i ==> #[trigger] entries[j].0@ != key,
    decreases entries.len(),
{
    if entries.len() > 0 {
        let rest = entries.drop_first();
        lemma_find_by_key_first_match(rest, key);
        if entries[0].0@ != key {
            if find_by_key(rest, key) is None {
                assert forall|i: int| 0 <= i < entries.len() implies #[trigger] entries[i].0@
                    != key by {
                    if i > 0 {
                        assert(rest[i - 1] == entries[i]);
                    }
                }
            } else {
                let v = find_by_key(rest, key)->0;
                let k = choose|k: int|
                    0 <= k < rest.len() && #[trigger] rest[k].0@ == key && rest[k].1 == v
                        && forall|j: int| 0 <= j < k ==> #[trigger] rest[j].0@ != key;
                assert(entries[k + 1] == rest[k]);
                assert forall|j: int| 0 <= j < k + 1 implies #[trigger] entries[j].0@ != key by {
                    if j > 0 {
                        assert(rest[j - 1] == entries[j]);
                    }
                }
            }
        }
    }
}

} // verus!
