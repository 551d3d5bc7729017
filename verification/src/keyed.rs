//! Lists of entries in the order of their keys, each key once.

use crate::text::{before, lemma_before_total, lemma_before_transitive, same, stands_before};
use vstd::prelude::*;

verus! {

/// Entries by the characters of their keys.
pub open spec fn keyed<V>(entries: Seq<(String, V)>) -> Seq<(Seq<char>, V)> {
    entries.map_values(|e: (String, V)| (e.0@, e.1))
}

/// What stands under a key.
pub open spec fn lookup<V>(s: Seq<(Seq<char>, V)>, key: Seq<char>) -> Option<V>
    decreases s.len(),
{
    if s.len() == 0 {
        None
    } else if s[0].0 == key {
        Some(s[0].1)
    } else {
        lookup(s.skip(1), key)
    }
}

/// The entries with a value put under a key, in the place that the order of
/// the keys gives it.
pub open spec fn put<V>(s: Seq<(Seq<char>, V)>, key: Seq<char>, value: V) -> Seq<(Seq<char>, V)>
    decreases s.len(),
{
    if s.len() == 0 {
        seq![(key, value)]
    } else if s[0].0 == key {
        seq![(key, value)] + s.skip(1)
    } else if before(key, s[0].0) {
        seq![(key, value)] + s
    } else {
        seq![s[0]] + put(s.skip(1), key, value)
    }
}

/// Whether the keys stand in order, each once.
pub open spec fn in_order<V>(s: Seq<(Seq<char>, V)>) -> bool {
    forall|i: int, j: int| 0 <= i < j < s.len() ==> before(#[trigger] s[i].0, #[trigger] s[j].0)
}

/// What has been put under a key is found there, and what stood under the
/// other keys still stands there.
pub proof fn law_put_then_lookup<V>(
    s: Seq<(Seq<char>, V)>,
    key: Seq<char>,
    value: V,
    other: Seq<char>,
)
    ensures
        lookup(put(s, key, value), other) == if other == key {
            Some(value)
        } else {
            lookup(s, other)
        },
    decreases s.len(),
{
    reveal_with_fuel(lookup, 2);
    let r = put(s, key, value);
    if s.len() == 0 {
        assert(r.skip(1) =~= Seq::empty());
    } else if s[0].0 == key {
        assert(r.skip(1) =~= s.skip(1));
    } else if before(key, s[0].0) {
        assert(r.skip(1) =~= s);
    } else {
        law_put_then_lookup(s.skip(1), key, value, other);
        assert(r.skip(1) =~= put(s.skip(1), key, value));
    }
}

/// Putting keeps the keys in order, each once.
pub proof fn law_put_keeps_order<V>(s: Seq<(Seq<char>, V)>, key: Seq<char>, value: V)
    requires
        in_order(s),
    ensures
        in_order(put(s, key, value)),
        forall|i: int|
            #![trigger put(s, key, value)[i]]
            0 <= i < put(s, key, value).len() ==> put(s, key, value)[i].0 == key || exists|j: int|
                0 <= j < s.len() && put(s, key, value)[i].0 == (#[trigger] s[j]).0,
    decreases s.len(),
{
    let r = put(s, key, value);
    if s.len() == 0 {
    } else if s[0].0 == key {
        assert forall|i: int, j: int| 0 <= i < j < r.len() implies before(
            #[trigger] r[i].0,
            #[trigger] r[j].0,
        ) by {
            assert(r[i].0 == s[i].0 && r[j].0 == s[j].0);
        }
        assert forall|i: int| #![trigger r[i]] 0 <= i < r.len() implies r[i].0 == key || exists|j: int|
            0 <= j < s.len() && r[i].0 == (#[trigger] s[j]).0 by {
            assert(r[i].0 == s[i].0);
        }
    } else if before(key, s[0].0) {
        assert forall|i: int, j: int| 0 <= i < j < r.len() implies before(
            #[trigger] r[i].0,
            #[trigger] r[j].0,
        ) by {
            assert(r[j] == s[j - 1]);
            if i > 0 {
                assert(r[i] == s[i - 1]);
            } else if j > 1 {
                lemma_before_transitive(key, s[0].0, s[j - 1].0);
            }
        }
        assert forall|i: int| #![trigger r[i]] 0 <= i < r.len() implies r[i].0 == key || exists|j: int|
            0 <= j < s.len() && r[i].0 == (#[trigger] s[j]).0 by {
            if i > 0 {
                assert(r[i].0 == s[i - 1].0);
            }
        }
    } else {
        lemma_before_total(key, s[0].0);
        let t = s.skip(1);
        assert forall|i: int, j: int| 0 <= i < j < t.len() implies before(
            #[trigger] t[i].0,
            #[trigger] t[j].0,
        ) by {
            assert(t[i] == s[i + 1] && t[j] == s[j + 1]);
        }
        law_put_keeps_order(t, key, value);
        let q = put(t, key, value);
        assert forall|i: int, j: int| 0 <= i < j < r.len() implies before(
            #[trigger] r[i].0,
            #[trigger] r[j].0,
        ) by {
            assert(r[j] == q[j - 1]);
            if i > 0 {
                assert(r[i] == q[i - 1]);
            } else if q[j - 1].0 != key {
                let k = choose|k: int| 0 <= k < t.len() && q[j - 1].0 == (#[trigger] t[k]).0;
                assert(t[k] == s[k + 1]);
            }
        }
        assert forall|i: int| #![trigger r[i]] 0 <= i < r.len() implies r[i].0 == key || exists|j: int|
            0 <= j < s.len() && r[i].0 == (#[trigger] s[j]).0 by {
            if i == 0 {
                assert(r[i].0 == s[0].0);
            } else {
                assert(r[i] == q[i - 1]);
                if q[i - 1].0 != key {
                    let k = choose|k: int| 0 <= k < t.len() && q[i - 1].0 == (#[trigger] t[k]).0;
                    assert(t[k] == s[k + 1]);
                }
            }
        }
    }
}

/// Every entry after putting is the one that was put or one that was there.
pub proof fn lemma_put_entries<V>(s: Seq<(Seq<char>, V)>, key: Seq<char>, value: V, i: int)
    requires
        0 <= i < put(s, key, value).len(),
    ensures
        put(s, key, value)[i] == (key, value) || s.contains(put(s, key, value)[i]),
    decreases s.len(),
{
    let r = put(s, key, value);
    if s.len() == 0 {
    } else if s[0].0 == key {
        if i > 0 {
            assert(r[i] == s[i]);
        }
    } else if before(key, s[0].0) {
        if i > 0 {
            assert(r[i] == s[i - 1]);
        }
    } else if i == 0 {
        assert(r[0] == s[0]);
    } else {
        let t = s.skip(1);
        lemma_put_entries(t, key, value, i - 1);
        assert(r[i] == put(t, key, value)[i - 1]);
        if t.contains(r[i]) {
            let k = choose|k: int| 0 <= k < t.len() && t[k] == r[i];
            assert(s[k + 1] == r[i]);
        }
    }
}

/// Entries with their values seen through `f`.
pub open spec fn seen<V, W>(s: Seq<(Seq<char>, V)>, f: spec_fn(V) -> W) -> Seq<(Seq<char>, W)> {
    s.map_values(|e: (Seq<char>, V)| (e.0, f(e.1)))
}

/// Putting a value and then seeing it is seeing it and then putting it.
pub proof fn lemma_put_seen<V, W>(
    s: Seq<(Seq<char>, V)>,
    key: Seq<char>,
    value: V,
    f: spec_fn(V) -> W,
)
    ensures
        seen(put(s, key, value), f) == put(seen(s, f), key, f(value)),
    decreases s.len(),
{
    let r = put(s, key, value);
    if s.len() == 0 {
        assert(seen(r, f) =~= put(seen(s, f), key, f(value)));
    } else if s[0].0 == key || before(key, s[0].0) {
        assert(seen(r, f) =~= put(seen(s, f), key, f(value)));
    } else {
        lemma_put_seen(s.skip(1), key, value, f);
        assert(seen(s, f).skip(1) =~= seen(s.skip(1), f));
        assert(seen(r, f) =~= seq![seen(s, f)[0]] + seen(put(s.skip(1), key, value), f));
    }
}

/// Looking a value up and then seeing it is seeing it and then looking it up.
pub proof fn lemma_lookup_seen<V, W>(s: Seq<(Seq<char>, V)>, key: Seq<char>, f: spec_fn(V) -> W)
    ensures
        lookup(seen(s, f), key) == match lookup(s, key) {
            Some(v) => Some(f(v)),
            None => None,
        },
    decreases s.len(),
{
    if s.len() > 0 && s[0].0 != key {
        lemma_lookup_seen(s.skip(1), key, f);
        assert(seen(s, f).skip(1) =~= seen(s.skip(1), f));
    }
}

/// The index at which a key stands is the first that has it.
proof fn lemma_lookup_at<V>(s: Seq<(Seq<char>, V)>, key: Seq<char>, i: int)
    requires
        0 <= i <= s.len(),
        forall|j: int| 0 <= j < i ==> (#[trigger] s[j]).0 != key,
    ensures
        i == s.len() ==> lookup(s, key) is None,
        i < s.len() && s[i].0 == key ==> lookup(s, key) == Some(s[i].1),
    decreases i,
{
    if i > 0 {
        assert(s[0].0 != key);
        assert forall|j: int| 0 <= j < i - 1 implies (#[trigger] s.skip(1)[j]).0 != key by {
            assert(s.skip(1)[j] == s[j + 1]);
        }
        lemma_lookup_at(s.skip(1), key, i - 1);
    }
}

/// Where a key stands, if it does.
pub fn index_of<V>(entries: &Vec<(String, V)>, key: &str) -> (r: Option<usize>)
    ensures
        match r {
            Some(i) => i < entries@.len() && entries@[i as int].0@ == key@ && lookup(
                keyed(entries@),
                key@,
            ) == Some(entries@[i as int].1) && forall|j: int|
                0 <= j < i ==> (#[trigger] entries@[j]).0@ != key@,
            None => lookup(keyed(entries@), key@) is None,
        },
{
    let ghost s = keyed(entries@);
    let mut i: usize = 0;
    while i < entries.len()
        invariant
            i <= entries@.len(),
            s == keyed(entries@),
            forall|j: int| 0 <= j < i ==> (#[trigger] s[j]).0 != key@,
            forall|j: int| 0 <= j < i ==> (#[trigger] entries@[j]).0@ != key@,
        decreases entries@.len() - i,
    {
        if same(entries[i].0.as_str(), key) {
            proof {
                lemma_lookup_at(s, key@, i as int);
            }
            return Some(i);
        }
        assert(s[i as int].0 != key@);
        i += 1;
    }
    proof {
        lemma_lookup_at(s, key@, i as int);
    }
    None
}

/// What stands under a key.
pub fn find<'a, V>(entries: &'a Vec<(String, V)>, key: &str) -> (r: Option<&'a V>)
    ensures
        match r {
            Some(v) => lookup(keyed(entries@), key@) == Some(*v),
            None => lookup(keyed(entries@), key@) is None,
        },
{
    match index_of(entries, key) {
        Some(i) => Some(&entries[i].1),
        None => None,
    }
}

/// How putting goes past the entries that stand before the key.
proof fn lemma_put_at<V>(s: Seq<(Seq<char>, V)>, key: Seq<char>, value: V, i: int)
    requires
        0 <= i <= s.len(),
        forall|j: int|
            0 <= j < i ==> (#[trigger] s[j]).0 != key && !before(key, s[j].0),
    ensures
        put(s, key, value) == s.take(i) + put(s.skip(i), key, value),
    decreases i,
{
    if i == 0 {
        assert(s.skip(0) =~= s);
        assert(s.take(0) + put(s, key, value) =~= put(s, key, value));
    } else {
        assert(s[0].0 != key && !before(key, s[0].0));
        assert forall|j: int| 0 <= j < i - 1 implies (#[trigger] s.skip(1)[j]).0 != key && !before(
            key,
            s.skip(1)[j].0,
        ) by {
            assert(s.skip(1)[j] == s[j + 1]);
        }
        lemma_put_at(s.skip(1), key, value, i - 1);
        assert(s.skip(1).skip(i - 1) =~= s.skip(i));
        assert(s.take(i) =~= seq![s[0]] + s.skip(1).take(i - 1));
        assert(put(s, key, value) =~= s.take(i) + put(s.skip(i), key, value));
    }
}

/// A value whose key stands after all the others is put at the end.
pub proof fn lemma_put_last<V>(s: Seq<(Seq<char>, V)>, i: int)
    requires
        in_order(s),
        0 <= i < s.len(),
    ensures
        put(s.take(i), s[i].0, s[i].1) == s.take(i + 1),
{
    let t = s.take(i);
    assert forall|j: int| 0 <= j < i implies (#[trigger] t[j]).0 != s[i].0 && !before(
        s[i].0,
        t[j].0,
    ) by {
        assert(before(s[j].0, s[i].0));
        lemma_before_total(s[j].0, s[i].0);
    }
    lemma_put_at(t, s[i].0, s[i].1, i);
    assert(t.skip(i) =~= Seq::empty());
    assert(s.take(i + 1) =~= t + seq![(s[i].0, s[i].1)]);
}

/// Puts a value under a key, in the place that the order of the keys gives it.
pub fn put_entry<V>(entries: &mut Vec<(String, V)>, key: String, value: V)
    ensures
        keyed(final(entries)@) == put(keyed(old(entries)@), key@, value),
{
    let ghost s = keyed(entries@);
    let ghost all = entries@;
    let mut i: usize = 0;
    while i < entries.len() && !same(entries[i].0.as_str(), key.as_str()) && !stands_before(
        key.as_str(),
        entries[i].0.as_str(),
    )
        invariant
            i <= entries@.len(),
            entries@ == all,
            s == keyed(all),
            forall|j: int| 0 <= j < i ==> (#[trigger] s[j]).0 != key@ && !before(key@, s[j].0),
        decreases entries@.len() - i,
    {
        assert(s[i as int].0 != key@);
        i += 1;
    }
    proof {
        lemma_put_at(s, key@, value, i as int);
    }
    if i < entries.len() && same(entries[i].0.as_str(), key.as_str()) {
        assert(s.skip(i as int)[0] == s[i as int]);
        assert(put(s.skip(i as int), key@, value) =~= seq![(key@, value)] + s.skip(i as int).skip(
            1,
        ));
        let ghost k = key@;
        entries.set(i, (key, value));
        assert(keyed(entries@) =~= s.take(i as int) + (seq![(k, value)] + s.skip(i as int).skip(1)));
    } else {
        let ghost k = key@;
        proof {
            if i < all.len() {
                assert(s.skip(i as int)[0] == s[i as int]);
            }
            assert(put(s.skip(i as int), k, value) =~= seq![(k, value)] + s.skip(i as int));
        }
        entries.insert(i, (key, value));
        assert(keyed(entries@) =~= s.take(i as int) + (seq![(k, value)] + s.skip(i as int)));
    }
}

} // verus!
