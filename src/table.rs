//! Key-to-amount tables kept as lists of entries with distinct keys. An absent
//! key stands for the amount zero.

use crate::amount::Amount;
use vstd::prelude::*;

verus! {

/// The amount recorded for key `k` in `s`, zero when `k` has no entry.
pub open spec fn lookup<K: View>(s: Seq<(K, Amount)>, k: K::V) -> nat
    decreases s.len(),
{
    if s.len() == 0 {
        0
    } else if s.last().0@ == k {
        s.last().1@
    } else {
        lookup(s.drop_last(), k)
    }
}

/// The sum of all amounts recorded in `s`.
pub open spec fn total<K>(s: Seq<(K, Amount)>) -> nat
    decreases s.len(),
{
    if s.len() == 0 {
        0
    } else {
        total(s.drop_last()) + s.last().1@
    }
}

/// No key has two entries.
pub open spec fn unique_keys<K: View>(s: Seq<(K, Amount)>) -> bool {
    forall|i: int, j: int| 0 <= i < j < s.len() ==> s[i].0@ != s[j].0@
}

/// The entry of a key holds the amount that `lookup` reports for it.
pub proof fn lemma_lookup_entry<K: View>(s: Seq<(K, Amount)>, i: int)
    requires
        unique_keys(s),
        0 <= i < s.len(),
    ensures
        lookup(s, s[i].0@) == s[i].1@,
    decreases s.len(),
{
    if i < s.len() - 1 {
        assert(s.drop_last()[i] == s[i]);
        lemma_lookup_entry(s.drop_last(), i);
    }
}

/// A key with no entry has the amount zero.
pub proof fn lemma_lookup_absent<K: View>(s: Seq<(K, Amount)>, k: K::V)
    requires
        forall|i: int| 0 <= i < s.len() ==> s[i].0@ != k,
    ensures
        lookup(s, k) == 0,
    decreases s.len(),
{
    if s.len() > 0 {
        assert(s.last() == s[s.len() - 1]);
        assert forall|i: int| 0 <= i < s.drop_last().len() implies s.drop_last()[i].0@ != k by {
            assert(s.drop_last()[i] == s[i]);
        }
        lemma_lookup_absent(s.drop_last(), k);
    }
}

/// The amounts of two distinct keys together never exceed the total.
pub proof fn lemma_two_lookups_le_total<K: View>(s: Seq<(K, Amount)>, a: K::V, b: K::V)
    requires
        a != b,
    ensures
        lookup(s, a) + lookup(s, b) <= total(s),
    decreases s.len(),
{
    if s.len() > 0 {
        lemma_two_lookups_le_total(s.drop_last(), a, b);
        lemma_lookup_le_total(s.drop_last(), a);
        lemma_lookup_le_total(s.drop_last(), b);
    }
}

/// The amount of one key never exceeds the total.
pub proof fn lemma_lookup_le_total<K: View>(s: Seq<(K, Amount)>, a: K::V)
    ensures
        lookup(s, a) <= total(s),
    decreases s.len(),
{
    if s.len() > 0 {
        lemma_lookup_le_total(s.drop_last(), a);
    }
}

/// Replacing entry `i` by one with the same key changes that key's amount
/// alone, and the total by the difference.
pub proof fn lemma_update<K: View>(s: Seq<(K, Amount)>, i: int, e: (K, Amount))
    requires
        unique_keys(s),
        0 <= i < s.len(),
        e.0@ == s[i].0@,
    ensures
        unique_keys(s.update(i, e)),
        total(s.update(i, e)) + s[i].1@ == total(s) + e.1@,
        forall|k: K::V|
            #[trigger] lookup(s.update(i, e), k) == if k == e.0@ {
                e.1@
            } else {
                lookup(s, k)
            },
    decreases s.len(),
{
    let t = s.update(i, e);
    assert forall|a: int, b: int| 0 <= a < b < t.len() implies t[a].0@ != t[b].0@ by {
        assert(t[a].0@ == s[a].0@ && t[b].0@ == s[b].0@);
    }
    if i == s.len() - 1 {
        assert(t.drop_last() =~= s.drop_last());
        assert forall|k: K::V| #[trigger] lookup(t, k) == if k == e.0@ {
            e.1@
        } else {
            lookup(s, k)
        } by {
            if k != e.0@ {
                assert(s.last() == s[i]);
            }
        }
    } else {
        let d = s.drop_last();
        assert(t.drop_last() =~= d.update(i, e));
        assert(d[i] == s[i]);
        assert forall|a: int, b: int| 0 <= a < b < d.len() implies d[a].0@ != d[b].0@ by {
            assert(d[a] == s[a] && d[b] == s[b]);
        }
        lemma_update(d, i, e);
        assert(t.last() == s.last());
        assert(s.last() == s[s.len() - 1]);
        assert forall|k: K::V| #[trigger] lookup(t, k) == if k == e.0@ {
            e.1@
        } else {
            lookup(s, k)
        } by {
            assert(lookup(t.drop_last(), k) == lookup(d.update(i, e), k));
            if k == e.0@ {
                assert(s.last().0@ != s[i].0@);
            }
        }
    }
}

/// Appending an entry for a new key records its amount and adds it to the
/// total.
pub proof fn lemma_push<K: View>(s: Seq<(K, Amount)>, e: (K, Amount))
    requires
        unique_keys(s),
        forall|i: int| 0 <= i < s.len() ==> s[i].0@ != e.0@,
    ensures
        unique_keys(s.push(e)),
        total(s.push(e)) == total(s) + e.1@,
        forall|k: K::V|
            #[trigger] lookup(s.push(e), k) == if k == e.0@ {
                e.1@
            } else {
                lookup(s, k)
            },
{
    assert(s.push(e).drop_last() =~= s);
    assert forall|a: int, b: int| 0 <= a < b < s.push(e).len() implies s.push(e)[a].0@ != s.push(
        e,
    )[b].0@ by {
        if b == s.len() {
            assert(s.push(e)[a] == s[a]);
        } else {
            assert(s.push(e)[a] == s[a] && s.push(e)[b] == s[b]);
        }
    }
}

} // verus!
