//! Lists of ids without one of them.

use crate::lists::without;
use vstd::prelude::*;

verus! {

/// Whether an id is another one.
pub open spec fn is_other(id: Seq<char>) -> spec_fn(Seq<char>) -> bool {
    |other: Seq<char>| other != id
}

/// The ids without one of them.
pub open spec fn others(ids: Seq<Seq<char>>, id: Seq<char>) -> Seq<Seq<char>> {
    ids.filter(is_other(id))
}

/// A list without an id holds the others.
pub proof fn lemma_without(ids: Seq<Seq<char>>, id: Seq<char>)
    ensures
        without(ids, id) == others(ids, id),
    decreases ids.len(),
{
    reveal(Seq::filter);
    if ids.len() > 0 {
        lemma_without(ids.drop_last(), id);
    } else {
        assert(without(ids, id) =~= others(ids, id));
    }
}

/// Nothing is taken out of ids among which one does not stand.
pub proof fn lemma_no_others(ids: Seq<Seq<char>>, id: Seq<char>)
    requires
        forall|k: int| 0 <= k < ids.len() ==> #[trigger] ids[k] != id,
    ensures
        others(ids, id) == ids,
    decreases ids.len(),
{
    reveal(Seq::filter);
    if ids.len() > 0 {
        lemma_no_others(ids.drop_last(), id);
        assert(ids.drop_last().push(ids.last()) =~= ids);
    } else {
        assert(others(ids, id) =~= ids);
    }
}

/// None of the others is the id, and each of them is there.
pub proof fn lemma_others(ids: Seq<Seq<char>>, id: Seq<char>)
    ensures
        forall|k: int| 0 <= k < others(ids, id).len() ==> #[trigger] others(ids, id)[k] != id,
    decreases ids.len(),
{
    reveal(Seq::filter);
    if ids.len() > 0 {
        lemma_others(ids.drop_last(), id);
    }
}

/// Another id is among the others.
pub proof fn lemma_among_others(ids: Seq<Seq<char>>, id: Seq<char>, j: int) -> (k: int)
    requires
        0 <= j < ids.len(),
        ids[j] != id,
    ensures
        0 <= k < others(ids, id).len(),
        others(ids, id)[k] == ids[j],
    decreases ids.len(),
{
    reveal(Seq::filter);
    if j == ids.len() - 1 {
        others(ids, id).len() - 1
    } else {
        lemma_among_others(ids.drop_last(), id, j)
    }
}

/// The others of two lists, one behind the other.
pub proof fn lemma_others_of_both(a: Seq<Seq<char>>, b: Seq<Seq<char>>, id: Seq<char>)
    ensures
        others(a + b, id) == others(a, id) + others(b, id),
{
    Seq::filter_distributes_over_add(a, b, is_other(id));
}

/// An id alone has no others.
pub proof fn lemma_others_of_one(id: Seq<char>)
    ensures
        others(seq![id], id) == Seq::<Seq<char>>::empty(),
{
    reveal(Seq::filter);
    reveal_with_fuel(Seq::filter, 3);
    assert(seq![id].drop_last() =~= Seq::<Seq<char>>::empty());
    assert(others(seq![id], id) =~= Seq::<Seq<char>>::empty());
}

/// An id between two lists adds nothing to their others.
proof fn lemma_one_between(ahead: Seq<Seq<char>>, behind: Seq<Seq<char>>, id: Seq<char>)
    ensures
        others(ahead + seq![id] + behind, id) == others(ahead, id) + others(behind, id),
{
    lemma_others_of_both(ahead + seq![id], behind, id);
    lemma_others_of_both(ahead, seq![id], id);
    lemma_others_of_one(id);
    assert(others(ahead, id) + Seq::<Seq<char>>::empty() =~= others(ahead, id));
}

/// A list cut in two, and with an id put between.
proof fn lemma_cut(mid: Seq<Seq<char>>, id: Seq<char>, at: int)
    requires
        0 <= at <= mid.len(),
    ensures
        mid.insert(at, id) == mid.take(at) + seq![id] + mid.skip(at),
        mid.take(at) + mid.skip(at) == mid,
{
    assert(mid.insert(at, id) =~= mid.take(at) + seq![id] + mid.skip(at));
    assert(mid.take(at) + mid.skip(at) =~= mid);
}

/// Whether an id stands nowhere in a list.
pub open spec fn is_missing(ids: Seq<Seq<char>>, id: Seq<char>) -> bool {
    others(ids, id) == ids
}

/// An id that is put among others has the same others.
pub proof fn lemma_put_among(mid: Seq<Seq<char>>, id: Seq<char>, at: int)
    requires
        0 <= at <= mid.len(),
        is_missing(mid.take(at), id),
        is_missing(mid.skip(at), id),
    ensures
        others(mid.insert(at, id), id) == mid,
{
    lemma_cut(mid, id, at);
    lemma_one_between(mid.take(at), mid.skip(at), id);
}

/// The first and the last of others are others.
pub proof fn lemma_parts_of_others(ids: Seq<Seq<char>>, id: Seq<char>, at: int)
    requires
        0 <= at <= others(ids, id).len(),
    ensures
        is_missing(others(ids, id).take(at), id),
        is_missing(others(ids, id).skip(at), id),
{
    lemma_others(ids, id);
    let mid = others(ids, id);
    assert forall|k: int| 0 <= k < mid.take(at).len() implies #[trigger] mid.take(at)[k] != id by {
        assert(mid.take(at)[k] == mid[k]);
    }
    assert forall|k: int| 0 <= k < mid.skip(at).len() implies #[trigger] mid.skip(at)[k] != id by {
        assert(mid.skip(at)[k] == mid[at + k]);
    }
    lemma_no_others(mid.take(at), id);
    lemma_no_others(mid.skip(at), id);
}

} // verus!
