//! Lists by what their items are.

use crate::text::{same, texts};
use vstd::prelude::*;

verus! {

/// What the items of a list are.
pub open spec fn views<T: View>(s: Seq<T>) -> Seq<T::V> {
    s.map_values(|t: T| t@)
}

/// As many items as the list has.
pub broadcast proof fn lemma_views_len<T: View>(s: Seq<T>)
    ensures
        #[trigger] views(s).len() == s.len(),
{
}

/// One item more at the end.
pub broadcast proof fn lemma_views_push<T: View>(s: Seq<T>, t: T)
    ensures
        #[trigger] views(s.push(t)) == views(s).push(t@),
{
    assert(views(s.push(t)) =~= views(s).push(t@));
}

/// Another item in the place of one.
pub broadcast proof fn lemma_views_update<T: View>(s: Seq<T>, i: int, t: T)
    requires
        0 <= i < s.len(),
    ensures
        #[trigger] views(s.update(i, t)) == views(s).update(i, t@),
{
    assert(views(s.update(i, t)) =~= views(s).update(i, t@));
}

/// One item less.
pub broadcast proof fn lemma_views_remove<T: View>(s: Seq<T>, i: int)
    requires
        0 <= i < s.len(),
    ensures
        #[trigger] views(s.remove(i)) == views(s).remove(i),
{
    assert(views(s.remove(i)) =~= views(s).remove(i));
}

/// One item more in the middle.
pub broadcast proof fn lemma_views_insert<T: View>(s: Seq<T>, i: int, t: T)
    requires
        0 <= i <= s.len(),
    ensures
        #[trigger] views(s.insert(i, t)) == views(s).insert(i, t@),
{
    assert(views(s.insert(i, t)) =~= views(s).insert(i, t@));
}

/// Nothing where there is nothing.
pub broadcast proof fn lemma_views_empty<T: View>(s: Seq<T>)
    requires
        s.len() == 0,
    ensures
        #[trigger] views(s) == Seq::<T::V>::empty(),
{
    assert(views(s) =~= Seq::<T::V>::empty());
}

/// How a list and what its items are change together.
pub broadcast group group_views {
    lemma_views_len,
    lemma_views_push,
    lemma_views_update,
    lemma_views_remove,
    lemma_views_insert,
    lemma_views_empty,
}

/// The first place, from `i` on, at which a name stands.
pub open spec fn first_from(names: Seq<Seq<char>>, name: Seq<char>, i: int) -> Option<int>
    decreases names.len() - i,
{
    if i < 0 || i >= names.len() {
        None
    } else if names[i] == name {
        Some(i)
    } else {
        first_from(names, name, i + 1)
    }
}

/// The first place at which a name stands.
pub open spec fn first_at(names: Seq<Seq<char>>, name: Seq<char>) -> Option<int> {
    first_from(names, name, 0)
}

/// Where a name is found it stands, and nowhere before; where it is not found
/// it does not stand.
pub proof fn lemma_first_from(names: Seq<Seq<char>>, name: Seq<char>, i: int)
    requires
        0 <= i,
    ensures
        match first_from(names, name, i) {
            Some(k) => i <= k < names.len() && names[k] == name && forall|j: int|
                i <= j < k ==> #[trigger] names[j] != name,
            None => forall|j: int| i <= j < names.len() ==> #[trigger] names[j] != name,
        },
    decreases names.len() - i,
{
    if i < names.len() && names[i] != name {
        lemma_first_from(names, name, i + 1);
    }
}

/// A name is found exactly where the list contains it.
pub proof fn lemma_first_at_contains(names: Seq<Seq<char>>, name: Seq<char>)
    ensures
        first_at(names, name) is Some <==> names.contains(name),
{
    lemma_first_from(names, name, 0);
}

/// The first place at which a text stands in a list.
pub fn text_position(list: &Vec<String>, id: &str) -> (r: Option<usize>)
    ensures
        match r {
            Some(i) => first_at(texts(list@), id@) == Some(i as int) && i < list@.len(),
            None => first_at(texts(list@), id@) is None,
        },
{
    let mut i: usize = 0;
    while i < list.len()
        invariant
            i <= list@.len(),
            first_from(texts(list@), id@, i as int) == first_at(texts(list@), id@),
        decreases list@.len() - i,
    {
        if same(list[i].as_str(), id) {
            return Some(i);
        }
        i += 1;
    }
    None
}

/// A list of texts without one of them.
pub open spec fn without(list: Seq<Seq<char>>, id: Seq<char>) -> Seq<Seq<char>> {
    list.filter(|t: Seq<char>| t != id)
}

/// Takes a text out of a list, wherever it stands.
pub fn remove_text(list: &Vec<String>, id: &str) -> (r: Vec<String>)
    ensures
        texts(r@) == without(texts(list@), id@),
{
    let mut out: Vec<String> = Vec::new();
    let mut i: usize = 0;
    let ghost all = texts(list@);
    let ghost keep = |t: Seq<char>| t != id@;
    proof {
        reveal(Seq::filter);
    }
    assert(texts(out@) =~= all.take(0).filter(keep));
    while i < list.len()
        invariant
            i <= list@.len(),
            all == texts(list@),
            keep == (|t: Seq<char>| t != id@),
            texts(out@) == all.take(i as int).filter(keep),
        decreases list@.len() - i,
    {
        proof {
            reveal(Seq::filter);
            assert(all.take(i + 1).drop_last() =~= all.take(i as int));
            assert(all.take(i + 1).last() == list@[i as int]@);
        }
        if !same(list[i].as_str(), id) {
            let ghost before = out@;
            out.push(list[i].clone());
            assert(texts(out@) =~= texts(before).push(list@[i as int]@));
        }
        i += 1;
    }
    assert(all.take(all.len() as int) =~= all);
    out
}

/// A copy of a list of texts.
pub fn copy_texts(list: &Vec<String>) -> (r: Vec<String>)
    ensures
        texts(r@) == texts(list@),
{
    let mut out: Vec<String> = Vec::new();
    let mut i: usize = 0;
    while i < list.len()
        invariant
            i <= list@.len(),
            out@.len() == i,
            forall|j: int| 0 <= j < i ==> (#[trigger] out@[j])@ == list@[j]@,
        decreases list@.len() - i,
    {
        out.push(list[i].clone());
        i += 1;
    }
    assert(texts(out@) =~= texts(list@));
    out
}

} // verus!
