//! Small keyed tables: sequences of pairs with one entry per key (the model
//! of the name-keyed maps of the services), and vectors of records kept in
//! increasing order of a `u32` key (the id-keyed maps of windows), with the
//! facts about replacing and adding an entry.

use vstd::prelude::*;

verus! {

/// Whether no two entries share a key.
pub open spec fn keys_unique<K, V>(t: Seq<(K, V)>) -> bool {
    forall|i: int, j: int| 0 <= i < j < t.len() ==> (#[trigger] t[i]).0 != (#[trigger] t[j]).0
}

/// The value stored under a key, if any.
pub open spec fn entry_of<K, V>(t: Seq<(K, V)>, k: K) -> Option<V>
    decreases t.len(),
{
    if t.len() == 0 {
        None
    } else if t.last().0 == k {
        Some(t.last().1)
    } else {
        entry_of(t.drop_last(), k)
    }
}

/// A key absent from every entry has no value.
pub proof fn lemma_entry_absent<K, V>(t: Seq<(K, V)>, k: K)
    requires
        forall|j: int| 0 <= j < t.len() ==> (#[trigger] t[j]).0 != k,
    ensures
        entry_of(t, k) is None,
    decreases t.len(),
{
    if t.len() > 0 {
        let t2 = t.drop_last();
        assert forall|j: int| 0 <= j < t2.len() implies (#[trigger] t2[j]).0 != k by {
            assert(t2[j] == t[j]);
        }
        lemma_entry_absent(t2, k);
    }
}

/// The entry at a position is the value of its key.
pub proof fn lemma_entry_at<K, V>(t: Seq<(K, V)>, i: int)
    requires
        keys_unique(t),
        0 <= i < t.len(),
    ensures
        entry_of(t, t[i].0) == Some(t[i].1),
    decreases t.len(),
{
    if i != t.len() - 1 {
        let t2 = t.drop_last();
        assert(t.last().0 != t[i].0);
        assert forall|a: int, b: int| 0 <= a < b < t2.len() implies (#[trigger] t2[a]).0 != (#[trigger] t2[b]).0 by {
            assert(t2[a] == t[a]);
            assert(t2[b] == t[b]);
        }
        assert(t2[i] == t[i]);
        lemma_entry_at(t2, i);
    }
}

/// Replacing the entry at a position with one of the same key changes the
/// value of that key only.
pub proof fn lemma_entry_set<K, V>(t: Seq<(K, V)>, i: int, e: (K, V))
    requires
        keys_unique(t),
        0 <= i < t.len(),
        t[i].0 == e.0,
    ensures
        keys_unique(t.update(i, e)),
        entry_of(t.update(i, e), e.0) == Some(e.1),
        forall|k: K| k != e.0 ==> entry_of(t.update(i, e), k) == entry_of(t, k),
    decreases t.len(),
{
    let d = t.update(i, e);
    assert forall|a: int, b: int| 0 <= a < b < d.len() implies (#[trigger] d[a]).0 != (#[trigger] d[b]).0 by {
        assert(d[a].0 == t[a].0);
        assert(d[b].0 == t[b].0);
    }
    if i == t.len() - 1 {
        assert(d.drop_last() =~= t.drop_last());
        assert(d.last() == e);
        assert forall|k: K| k != e.0 implies entry_of(d, k) == entry_of(t, k) by {
            assert(entry_of(d, k) == entry_of(d.drop_last(), k));
            assert(entry_of(t, k) == entry_of(t.drop_last(), k));
        }
    } else {
        let t2 = t.drop_last();
        assert(t.last().0 != e.0);
        assert forall|a: int, b: int| 0 <= a < b < t2.len() implies (#[trigger] t2[a]).0 != (#[trigger] t2[b]).0 by {
            assert(t2[a] == t[a]);
            assert(t2[b] == t[b]);
        }
        lemma_entry_set(t2, i, e);
        assert(d.drop_last() =~= t2.update(i, e));
        assert(d.last() == t.last());
        assert forall|k: K| k != e.0 implies entry_of(d, k) == entry_of(t, k) by {
            if t.last().0 != k {
                assert(entry_of(d, k) == entry_of(d.drop_last(), k));
                assert(entry_of(t, k) == entry_of(t2, k));
            }
        }
    }
}

/// Adding an entry for a new key gives that key its value and leaves the
/// other keys as they were.
pub proof fn lemma_entry_push<K, V>(t: Seq<(K, V)>, e: (K, V))
    requires
        keys_unique(t),
        entry_of(t, e.0) is None,
    ensures
        keys_unique(t.push(e)),
        entry_of(t.push(e), e.0) == Some(e.1),
        forall|k: K| k != e.0 ==> entry_of(t.push(e), k) == entry_of(t, k),
{
    let d = t.push(e);
    assert(d.drop_last() =~= t);
    assert forall|a: int, b: int| 0 <= a < b < d.len() implies (#[trigger] d[a]).0 != (#[trigger] d[b]).0 by {
        if b == t.len() {
            assert(d[a] == t[a]);
            lemma_entry_at(t, a);
        }
    }
}

/// A record with a `u32` key.
pub trait Keyed {
    /// The key of the record.
    spec fn key(&self) -> u32;

    /// The key of the record, computed.
    fn key_of(&self) -> (k: u32)
        ensures
            k == self.key(),
    ;
}

/// Whether the keys strictly increase along the sequence (so no key occurs twice).
pub open spec fn keys_increasing<T: Keyed>(s: Seq<T>) -> bool {
    forall|i: int, j: int| 0 <= i < j < s.len() ==> (#[trigger] s[i]).key() < (#[trigger] s[j]).key()
}

/// Whether some record has key `k`.
pub open spec fn has_key<T: Keyed>(s: Seq<T>, k: u32) -> bool {
    exists|i: int| 0 <= i < s.len() && (#[trigger] s[i]).key() == k
}

/// The record with key `k`, if any.
pub open spec fn find_key<T: Keyed>(s: Seq<T>, k: u32) -> Option<T> {
    if has_key(s, k) {
        Some(s[choose|i: int| 0 <= i < s.len() && (#[trigger] s[i]).key() == k])
    } else {
        None
    }
}

/// In a table with increasing keys, the record at a position is the one found
/// under its key.
pub proof fn lemma_find_at<T: Keyed>(s: Seq<T>, i: int)
    requires
        keys_increasing(s),
        0 <= i < s.len(),
    ensures
        find_key(s, s[i].key()) == Some(s[i]),
{
    assert(has_key(s, s[i].key()));
    let c = choose|c: int| 0 <= c < s.len() && (#[trigger] s[c]).key() == s[i].key();
    if c < i {
        assert(s[c].key() < s[i].key());
    } else if i < c {
        assert(s[i].key() < s[c].key());
    }
}

/// The position of the record with key `k`, if any.
pub fn position_of_key<T: Keyed>(v: &Vec<T>, k: u32) -> (r: Option<usize>)
    requires
        keys_increasing(v@),
    ensures
        match r {
            Some(i) => i < v.len() && v@[i as int].key() == k && find_key(v@, k) == Some(v@[i as int]),
            None => find_key(v@, k) is None,
        },
{
    let mut i: usize = 0;
    while i < v.len()
        invariant
            i <= v.len(),
            keys_increasing(v@),
            forall|j: int| 0 <= j < i ==> (#[trigger] v@[j]).key() != k,
        decreases v.len() - i,
    {
        if v[i].key_of() == k {
            proof {
                lemma_find_at(v@, i as int);
            }
            return Some(i);
        }
        i = i + 1;
    }
    None
}

/// Stores `x` under its key: it replaces the record with that key, or is
/// inserted where the key order puts it.
pub fn upsert_sorted<T: Keyed>(v: &mut Vec<T>, x: T)
    requires
        keys_increasing(old(v)@),
    ensures
        keys_increasing(final(v)@),
        forall|k: u32| #[trigger] find_key(final(v)@, k) == if k == x.key() {
            Some(x)
        } else {
            find_key(old(v)@, k)
        },
{
    let ghost s = v@;
    let xk = x.key_of();
    let mut i: usize = 0;
    while i < v.len() && v[i].key_of() < xk
        invariant
            v@ == s,
            i <= v.len(),
            keys_increasing(s),
            forall|j: int| 0 <= j < i ==> (#[trigger] s[j]).key() < xk,
        decreases v.len() - i,
    {
        i = i + 1;
    }
    let replace = i < v.len() && v[i].key_of() == xk;
    if replace {
        v.set(i, x);
        let ghost n = v@;
        assert(n == s.update(i as int, x));
        assert forall|a: int, b: int| 0 <= a < b < n.len() implies (#[trigger] n[a]).key() < (#[trigger] n[b]).key() by {
            assert(s[a].key() < s[b].key());
        }
        assert forall|k: u32| #[trigger] find_key(n, k) == if k == x.key() { Some(x) } else { find_key(s, k) } by {
            if k == x.key() {
                lemma_find_at(n, i as int);
            } else if has_key(s, k) {
                let j = choose|j: int| 0 <= j < s.len() && (#[trigger] s[j]).key() == k;
                lemma_find_at(s, j);
                assert(n[j] == s[j]);
                lemma_find_at(n, j);
            } else {
                assert forall|j: int| 0 <= j < n.len() implies (#[trigger] n[j]).key() != k by {
                    if j != i {
                        assert(n[j] == s[j]);
                    }
                }
            }
        }
    } else {
        v.insert(i, x);
        let ghost n = v@;
        assert(n == s.insert(i as int, x));
        assert forall|a: int, b: int| 0 <= a < b < n.len() implies (#[trigger] n[a]).key() < (#[trigger] n[b]).key() by {
            if b < i {
                assert(s[a].key() < s[b].key());
            } else if b == i {
                assert(n[a] == s[a]);
            } else if a < i {
                assert(n[b] == s[b - 1]);
                assert(s[a].key() < xk);
                if (i as int) < b - 1 {
                    assert(s[i as int].key() < s[b - 1].key());
                }
            } else if a == i {
                assert(n[b] == s[b - 1]);
                if (i as int) < b - 1 {
                    assert(s[i as int].key() < s[b - 1].key());
                }
            } else {
                assert(s[a - 1].key() < s[b - 1].key());
            }
        }
        assert forall|k: u32| #[trigger] find_key(n, k) == if k == x.key() { Some(x) } else { find_key(s, k) } by {
            if k == x.key() {
                lemma_find_at(n, i as int);
            } else if has_key(s, k) {
                let j = choose|j: int| 0 <= j < s.len() && (#[trigger] s[j]).key() == k;
                lemma_find_at(s, j);
                if j < i {
                    assert(n[j] == s[j]);
                    lemma_find_at(n, j);
                } else {
                    assert(n[j + 1] == s[j]);
                    lemma_find_at(n, j + 1);
                }
            } else {
                assert forall|j: int| 0 <= j < n.len() implies (#[trigger] n[j]).key() != k by {
                    if j < i {
                        assert(n[j] == s[j]);
                    } else if j > i {
                        assert(n[j] == s[j - 1]);
                    }
                }
            }
        }
    }
}

/// The last record with key `k` in a sequence, if any: what a map keyed by
/// `k` holds after the records were inserted in order.
pub open spec fn last_with_key<T: Keyed>(s: Seq<T>, k: u32) -> Option<T>
    decreases s.len(),
{
    if s.len() == 0 {
        None
    } else if s.last().key() == k {
        Some(s.last())
    } else {
        last_with_key(s.drop_last(), k)
    }
}

/// A table with increasing keys holding, for each key, the last of the
/// records with that key.
pub fn table_from_records<T: Keyed>(records: Vec<T>) -> (t: Vec<T>)
    ensures
        keys_increasing(t@),
        forall|k: u32| #[trigger] find_key(t@, k) == last_with_key(records@, k),
{
    let ghost all = records@;
    assert(all.len() == records.len());
    let mut rest = records;
    let mut t: Vec<T> = Vec::new();
    let mut n: usize = 0;
    while rest.len() > 0
        invariant
            n <= all.len() <= usize::MAX,
            rest@ == all.skip(n as int),
            keys_increasing(t@),
            forall|k: u32| #[trigger] find_key(t@, k) == last_with_key(all.take(n as int), k),
        decreases rest.len(),
    {
        let x = rest.remove(0);
        assert(x == all[n as int]);
        let ghost before = t@;
        upsert_sorted(&mut t, x);
        let ghost pre = all.take(n as int);
        n = n + 1;
        assert(all.take(n as int) =~= pre.push(x));
        assert(pre.push(x).drop_last() =~= pre);
        assert(rest@ =~= all.skip(n as int));
        assert forall|k: u32| #[trigger] find_key(t@, k) == last_with_key(all.take(n as int), k) by {
            assert(find_key(before, k) == last_with_key(pre, k));
        }
    }
    assert(all.take(n as int) =~= all);
    t
}

} // verus!
