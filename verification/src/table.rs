//! Association lists keyed by address: the storage behind the ledger.
use crate::pubkey::Pubkey;
use vstd::prelude::*;

verus! {

/// No address keys two entries.
pub open spec fn unique<V>(s: Seq<(Pubkey, V)>) -> bool {
    forall|i: int, j: int| 0 <= i < j < s.len() ==> s[i].0 != s[j].0
}

/// Some entry is keyed by `key`.
pub open spec fn has_key<V>(s: Seq<(Pubkey, V)>, key: Pubkey) -> bool {
    exists|i: int| 0 <= i < s.len() && (#[trigger] s[i]).0 == key
}

/// The place of an entry keyed by `key`.
pub open spec fn place_of<V>(s: Seq<(Pubkey, V)>, key: Pubkey) -> int {
    choose|i: int| 0 <= i < s.len() && (#[trigger] s[i]).0 == key
}

/// The entries as a map from address to value.
pub open spec fn as_map<V>(s: Seq<(Pubkey, V)>) -> Map<Pubkey, V> {
    Map::new(|key: Pubkey| has_key(s, key), |key: Pubkey| s[place_of(s, key)].1)
}

/// The sum of a measure over the values of all entries.
pub open spec fn total<V>(s: Seq<(Pubkey, V)>, f: spec_fn(V) -> nat) -> nat
    decreases s.len(),
{
    if s.len() == 0 {
        0
    } else {
        total(s.drop_last(), f) + f(s.last().1)
    }
}

/// The map holds each entry under its key.
pub proof fn lemma_entry<V>(s: Seq<(Pubkey, V)>, i: int)
    requires
        unique(s),
        0 <= i < s.len(),
    ensures
        as_map(s).contains_key(s[i].0),
        as_map(s)[s[i].0] == s[i].1,
        place_of(s, s[i].0) == i,
{
    assert(has_key(s, s[i].0));
    let p = place_of(s, s[i].0);
    assert(p == i) by {
        if p < i {
            assert(s[p].0 != s[i].0);
        } else if i < p {
            assert(s[i].0 != s[p].0);
        }
    }
}

/// Replacing the value of an entry replaces it in the map.
pub proof fn lemma_update<V>(s: Seq<(Pubkey, V)>, i: int, value: V)
    requires
        unique(s),
        0 <= i < s.len(),
    ensures
        unique(s.update(i, (s[i].0, value))),
        as_map(s.update(i, (s[i].0, value))) == as_map(s).insert(s[i].0, value),
{
    let t = s.update(i, (s[i].0, value));
    assert(unique(t)) by {
        assert forall|a: int, b: int| 0 <= a < b < t.len() implies t[a].0 != t[b].0 by {
            assert(t[a].0 == s[a].0);
            assert(t[b].0 == s[b].0);
        }
    }
    assert forall|key: Pubkey| has_key(t, key) == has_key(s, key) by {
        if has_key(s, key) {
            let p = place_of(s, key);
            assert(t[p].0 == key);
        }
        if has_key(t, key) {
            let p = place_of(t, key);
            assert(s[p].0 == key);
        }
    }
    assert forall|key: Pubkey| has_key(t, key) implies #[trigger] as_map(t)[key] == as_map(
        s,
    ).insert(s[i].0, value)[key] by {
        let p = place_of(t, key);
        lemma_entry(t, p);
        lemma_entry(s, p);
    }
    assert(as_map(t) =~= as_map(s).insert(s[i].0, value));
}

/// Appending an entry under a fresh key inserts it into the map.
pub proof fn lemma_push<V>(s: Seq<(Pubkey, V)>, key: Pubkey, value: V)
    requires
        unique(s),
        !has_key(s, key),
    ensures
        unique(s.push((key, value))),
        as_map(s.push((key, value))) == as_map(s).insert(key, value),
{
    let t = s.push((key, value));
    assert(unique(t)) by {
        assert forall|a: int, b: int| 0 <= a < b < t.len() implies t[a].0 != t[b].0 by {
            if b == s.len() {
                assert(s[a].0 != key);
            }
        }
    }
    assert forall|k: Pubkey| has_key(t, k) == (has_key(s, k) || k == key) by {
        if has_key(s, k) {
            let p = place_of(s, k);
            assert(t[p].0 == k);
        }
        if k == key {
            assert(t[s.len() as int].0 == k);
        }
        if has_key(t, k) {
            let p = place_of(t, k);
            if p < s.len() {
                assert(s[p].0 == k);
            }
        }
    }
    assert forall|k: Pubkey| has_key(t, k) implies #[trigger] as_map(t)[k] == as_map(s).insert(
        key,
        value,
    )[k] by {
        let p = place_of(t, k);
        lemma_entry(t, p);
        if p < s.len() {
            assert(s[p].0 == k);
            lemma_entry(s, p);
        }
    }
    assert(as_map(t) =~= as_map(s).insert(key, value));
}

/// Removing an entry removes its key from the map.
pub proof fn lemma_remove<V>(s: Seq<(Pubkey, V)>, i: int)
    requires
        unique(s),
        0 <= i < s.len(),
    ensures
        unique(s.remove(i)),
        as_map(s.remove(i)) == as_map(s).remove(s[i].0),
{
    let t = s.remove(i);
    assert forall|a: int| 0 <= a < t.len() implies #[trigger] t[a] == s[if a < i {
        a
    } else {
        a + 1
    }] by {}
    assert(unique(t)) by {
        assert forall|a: int, b: int| 0 <= a < b < t.len() implies t[a].0 != t[b].0 by {
            let a2 = if a < i { a } else { a + 1 };
            let b2 = if b < i { b } else { b + 1 };
            assert(t[a] == s[a2]);
            assert(t[b] == s[b2]);
        }
    }
    assert forall|k: Pubkey| has_key(t, k) == (has_key(s, k) && k != s[i].0) by {
        if has_key(s, k) && k != s[i].0 {
            let p = place_of(s, k);
            let q = if p < i { p } else { p - 1 };
            assert(t[q] == s[p]);
        }
        if has_key(t, k) {
            let q = place_of(t, k);
            let p = if q < i { q } else { q + 1 };
            assert(t[q] == s[p]);
            assert(s[p].0 == k);
            if p < i {
                assert(s[p].0 != s[i].0);
            } else {
                assert(s[i].0 != s[p].0);
            }
        }
    }
    assert forall|k: Pubkey| has_key(t, k) implies #[trigger] as_map(t)[k] == as_map(s).remove(
        s[i].0,
    )[k] by {
        let q = place_of(t, k);
        let p = if q < i { q } else { q + 1 };
        assert(t[q] == s[p]);
        lemma_entry(t, q);
        lemma_entry(s, p);
    }
    assert(as_map(t) =~= as_map(s).remove(s[i].0));
}

/// Appending an entry adds its measure to the total.
pub proof fn lemma_total_push<V>(s: Seq<(Pubkey, V)>, e: (Pubkey, V), f: spec_fn(V) -> nat)
    ensures
        total(s.push(e), f) == total(s, f) + f(e.1),
{
    assert(s.push(e).drop_last() =~= s);
}

/// Replacing an entry exchanges its measure in the total.
pub proof fn lemma_total_update<V>(
    s: Seq<(Pubkey, V)>,
    i: int,
    e: (Pubkey, V),
    f: spec_fn(V) -> nat,
)
    requires
        0 <= i < s.len(),
    ensures
        total(s.update(i, e), f) + f(s[i].1) == total(s, f) + f(e.1),
    decreases s.len(),
{
    if i == s.len() - 1 {
        assert(s.update(i, e).drop_last() =~= s.drop_last());
    } else {
        lemma_total_update(s.drop_last(), i, e, f);
        assert(s.update(i, e).drop_last() =~= s.drop_last().update(i, e));
    }
}

/// Removing an entry takes its measure out of the total.
pub proof fn lemma_total_remove<V>(s: Seq<(Pubkey, V)>, i: int, f: spec_fn(V) -> nat)
    requires
        0 <= i < s.len(),
    ensures
        total(s.remove(i), f) + f(s[i].1) == total(s, f),
    decreases s.len(),
{
    if i == s.len() - 1 {
        assert(s.remove(i) =~= s.drop_last());
    } else {
        lemma_total_remove(s.drop_last(), i, f);
        assert(s.remove(i).drop_last() =~= s.drop_last().remove(i));
        assert(s.remove(i).last() == s.last());
    }
}

/// Two distinct entries together measure no more than the total.
pub proof fn lemma_total_covers<V>(s: Seq<(Pubkey, V)>, i: int, j: int, f: spec_fn(V) -> nat)
    requires
        0 <= i < s.len(),
        0 <= j < s.len(),
    ensures
        f(s[i].1) <= total(s, f),
        i != j ==> f(s[i].1) + f(s[j].1) <= total(s, f),
{
    lemma_total_remove(s, i, f);
    if i != j {
        let rest = s.remove(i);
        let k = if j < i { j } else { j - 1 };
        assert(rest[k] == s[j]);
        lemma_total_remove(rest, k, f);
    }
}

/// The total of a prefix grows by the measure of the next entry, and never
/// exceeds the total of the whole.
pub proof fn lemma_total_prefix<V>(s: Seq<(Pubkey, V)>, k: int, f: spec_fn(V) -> nat)
    requires
        0 <= k <= s.len(),
    ensures
        total(s.take(k), f) <= total(s, f),
        k < s.len() ==> total(s.take(k + 1), f) == total(s.take(k), f) + f(s[k].1),
    decreases s.len(),
{
    if k < s.len() {
        assert(s.take(k + 1).drop_last() =~= s.take(k));
        lemma_total_prefix(s.drop_last(), k, f);
        assert(s.drop_last().take(k) =~= s.take(k));
    } else {
        assert(s.take(k) =~= s);
    }
}

/// Finds the place of the entry keyed by `key`.
pub fn find<V>(entries: &Vec<(Pubkey, V)>, key: &Pubkey) -> (place: Option<usize>)
    ensures
        match place {
            Some(i) => i < entries@.len() && entries@[i as int].0 == *key,
            None => !has_key(entries@, *key),
        },
{
    let mut i: usize = 0;
    while i < entries.len()
        invariant
            i <= entries@.len(),
            forall|j: int| 0 <= j < i ==> (#[trigger] entries@[j]).0 != *key,
        decreases entries@.len() - i,
    {
        if entries[i].0 == *key {
            return Some(i);
        }
        i += 1;
    }
    None
}

/// Copies the entries.
pub fn copy_entries<V: Copy>(entries: &Vec<(Pubkey, V)>) -> (copy: Vec<(Pubkey, V)>)
    ensures
        copy@ == entries@,
{
    let mut copy: Vec<(Pubkey, V)> = Vec::new();
    let mut i: usize = 0;
    while i < entries.len()
        invariant
            i <= entries@.len(),
            copy@ == entries@.take(i as int),
        decreases entries@.len() - i,
    {
        let entry = entries[i];
        copy.push(entry);
        proof {
            assert(copy@ =~= entries@.take(i + 1));
        }
        i += 1;
    }
    proof {
        assert(entries@.take(i as int) =~= entries@);
    }
    copy
}

} // verus!
