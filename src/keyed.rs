//! Sequences of entries keyed by name, in the order in which the keys first
//! arrived, and the update that overwrites an entry in place or appends it.
use vstd::prelude::*;

verus! {

/// Some entry has key `k`.
pub open spec fn has_key<V>(s: Seq<(Seq<char>, V)>, k: Seq<char>) -> bool {
    exists|i: int| 0 <= i < s.len() && #[trigger] s[i].0 == k
}

/// `i` is the first position whose key is `k`.
pub open spec fn is_first_key_index<V>(s: Seq<(Seq<char>, V)>, k: Seq<char>, i: int) -> bool {
    &&& 0 <= i < s.len()
    &&& s[i].0 == k
    &&& forall|j: int| 0 <= j < i ==> #[trigger] s[j].0 != k
}

/// The first position whose key is `k` (meaningful where `has_key(s, k)`).
pub open spec fn key_index<V>(s: Seq<(Seq<char>, V)>, k: Seq<char>) -> int {
    choose|i: int| is_first_key_index(s, k, i)
}

/// The entries after storing `v` under `k`: the entry with that key keeps its
/// place and takes the new value, otherwise the pair goes last.
pub open spec fn upserted<V>(s: Seq<(Seq<char>, V)>, k: Seq<char>, v: V) -> Seq<(Seq<char>, V)> {
    if has_key(s, k) {
        s.update(key_index(s, k), (k, v))
    } else {
        s.push((k, v))
    }
}

/// The value stored under `k`, if any.
pub open spec fn lookup<V>(s: Seq<(Seq<char>, V)>, k: Seq<char>) -> Option<V> {
    if has_key(s, k) {
        Some(s[key_index(s, k)].1)
    } else {
        None
    }
}

/// The entries of a vector of named values, with each key seen as its characters.
pub open spec fn key_views<V>(s: Seq<(String, V)>) -> Seq<(Seq<char>, V)> {
    s.map_values(|e: (String, V)| (e.0@, e.1))
}

pub proof fn lemma_first_key_index<V>(s: Seq<(Seq<char>, V)>, k: Seq<char>, i: int)
    requires
        is_first_key_index(s, k, i),
    ensures
        has_key(s, k),
        key_index(s, k) == i,
{
    assert(s[i].0 == k);
    let j = key_index(s, k);
    assert(is_first_key_index(s, k, j));
    if j < i {
        assert(s[j].0 != k);
    } else if i < j {
        assert(s[i].0 != k);
    }
}

pub proof fn lemma_no_key<V>(s: Seq<(Seq<char>, V)>, k: Seq<char>)
    requires
        forall|j: int| 0 <= j < s.len() ==> #[trigger] s[j].0 != k,
    ensures
        !has_key(s, k),
{
}

/// Where some entry has key `k`, a first such entry exists.
pub proof fn lemma_first_key_exists<V>(s: Seq<(Seq<char>, V)>, k: Seq<char>, w: int)
    requires
        0 <= w < s.len(),
        s[w].0 == k,
    ensures
        is_first_key_index(s, k, key_index(s, k)),
    decreases w,
{
    if exists|j: int| 0 <= j < w && #[trigger] s[j].0 == k {
        let j = choose|j: int| 0 <= j < w && #[trigger] s[j].0 == k;
        lemma_first_key_exists(s, k, j);
    } else {
        assert(is_first_key_index(s, k, w));
    }
}

/// Where some entry has key `k`, `key_index` finds the first one.
pub proof fn lemma_key_index_valid<V>(s: Seq<(Seq<char>, V)>, k: Seq<char>)
    requires
        has_key(s, k),
    ensures
        is_first_key_index(s, k, key_index(s, k)),
{
    let w = choose|w: int| 0 <= w < s.len() && #[trigger] s[w].0 == k;
    lemma_first_key_exists(s, k, w);
}

/// Two entry sequences with the same keys in the same order.
pub open spec fn same_keys<V, W>(a: Seq<(Seq<char>, V)>, b: Seq<(Seq<char>, W)>) -> bool {
    &&& a.len() == b.len()
    &&& forall|i: int| 0 <= i < a.len() ==> #[trigger] a[i].0 == b[i].0
}

/// Sequences with the same keys find a key at the same place.
pub proof fn lemma_same_keys_index<V, W>(a: Seq<(Seq<char>, V)>, b: Seq<(Seq<char>, W)>, k: Seq<char>)
    requires
        same_keys(a, b),
    ensures
        has_key(a, k) == has_key(b, k),
        has_key(a, k) ==> is_first_key_index(a, k, key_index(a, k)),
        has_key(a, k) ==> key_index(a, k) == key_index(b, k),
{
    if has_key(a, k) {
        let w = choose|w: int| 0 <= w < a.len() && #[trigger] a[w].0 == k;
        lemma_first_key_exists(a, k, w);
        let i = key_index(a, k);
        assert(b[i].0 == k);
        assert forall|j: int| 0 <= j < i implies #[trigger] b[j].0 != k by {
            assert(a[j].0 != k);
        }
        assert(is_first_key_index(b, k, i));
        lemma_first_key_index(b, k, i);
    } else if has_key(b, k) {
        let w = choose|w: int| 0 <= w < b.len() && #[trigger] b[w].0 == k;
        assert(a[w].0 == k);
    }
}

/// Stores `value` under `key`: the first entry with an equal key is
/// overwritten in place, otherwise the pair is appended.
pub fn upsert<V>(entries: &mut Vec<(String, V)>, key: String, value: V)
    ensures
        key_views(final(entries)@) == upserted(key_views(old(entries)@), key@, value),
{
    let ghost s = key_views(entries@);
    let n = entries.len();
    let mut i: usize = 0;
    while i < n
        invariant
            n == entries.len(),
            i <= n,
            s == key_views(entries@),
            s == key_views(old(entries)@),
            forall|j: int| 0 <= j < i ==> #[trigger] s[j].0 != key@,
        decreases n - i,
    {
        assert(s[i as int].0 == entries@[i as int].0@);
        if entries[i].0 == key {
            proof {
                lemma_first_key_index(s, key@, i as int);
            }
            entries.set(i, (key, value));
            assert(key_views(entries@) =~= upserted(s, key@, value));
            return;
        }
        i = i + 1;
    }
    proof {
        lemma_no_key(s, key@);
    }
    entries.push((key, value));
    assert(key_views(entries@) =~= upserted(s, key@, value));
}

/// The value stored under `key`, found by a scan.
pub fn find<'a, V>(entries: &'a Vec<(String, V)>, key: &str) -> (r: Option<&'a V>)
    ensures
        r matches Some(v) ==> lookup(key_views(entries@), key@) == Some(*v),
        r is None ==> lookup(key_views(entries@), key@) is None,
{
    let ghost s = key_views(entries@);
    let owned = key.to_owned();
    let mut i: usize = 0;
    while i < entries.len()
        invariant
            i <= entries.len(),
            owned@ == key@,
            s == key_views(entries@),
            forall|j: int| 0 <= j < i ==> #[trigger] s[j].0 != key@,
        decreases entries.len() - i,
    {
        assert(s[i as int].0 == entries@[i as int].0@);
        if entries[i].0 == owned {
            proof {
                lemma_first_key_index(s, key@, i as int);
            }
            assert(s[i as int].1 == entries@[i as int].1);
            return Some(&entries[i].1);
        }
        i = i + 1;
    }
    proof {
        lemma_no_key(s, key@);
    }
    None
}

} // verus!
