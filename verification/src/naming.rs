//! What the names in requests stand for.

use crate::lists::{first_at, lemma_first_from};
use crate::locate::{
    current_index, lemma_pane_place, lemma_surface_found, lemma_surface_place, pane_at, pane_place,
    reference_index, surface_at, surface_place, workspace_index,
};
use crate::model::{pane_ids, workspace_ids, StateView, WorkspaceView};
use crate::soundness::{all_whole, is_whole};
use crate::text::{
    decimal, digits_value, is_digit, is_white, lowered, number_digits, parsed, trim_end, trim_start,
    trimmed,
};
use vstd::prelude::*;

verus! {

// ---------------------------------------------------------------------------
// Numbers and spelling

/// The digits of a number write that number.
pub proof fn lemma_decimal(n: nat)
    ensures
        decimal(n).len() > 0,
        forall|i: int| 0 <= i < decimal(n).len() ==> is_digit(#[trigger] decimal(n)[i]),
        digits_value(decimal(n)) == n,
    decreases n,
{
    reveal_with_fuel(digits_value, 2);
    if n < 10 {
        assert(decimal(n).drop_last() =~= Seq::<char>::empty());
    } else {
        lemma_decimal(n / 10);
        assert(decimal(n).drop_last() =~= decimal(n / 10));
    }
}

/// A number that was written in decimal is read as the number that it is, unless
/// it is too large.
pub proof fn law_written_numbers_are_read_back(n: nat, max: nat)
    ensures
        parsed(decimal(n), max) == (if n <= max {
            Some(n)
        } else {
            None
        }),
{
    lemma_decimal(n);
    assert(is_digit(decimal(n)[0]));
    assert(number_digits(decimal(n)) == decimal(n));
}

/// What is left where white space is taken off the start.
proof fn lemma_trim_start(s: Seq<char>) -> (n: int)
    ensures
        0 <= n <= s.len(),
        trim_start(s) == s.skip(n),
        n < s.len() ==> !is_white(s[n]),
        forall|i: int| 0 <= i < n ==> is_white(#[trigger] s[i]),
    decreases s.len(),
{
    if s.len() > 0 && is_white(s[0]) {
        let m = lemma_trim_start(s.skip(1));
        assert(s.skip(1).skip(m) =~= s.skip(m + 1));
        assert forall|i: int| 0 <= i < m + 1 implies is_white(#[trigger] s[i]) by {
            if i > 0 {
                assert(s.skip(1)[i - 1] == s[i]);
            }
        }
        m + 1
    } else {
        assert(s.skip(0) =~= s);
        0
    }
}

/// What is left where white space is taken off the end.
proof fn lemma_trim_end(s: Seq<char>) -> (n: int)
    ensures
        0 <= n <= s.len(),
        trim_end(s) == s.take(n),
        n > 0 ==> !is_white(s[n - 1]),
        forall|i: int| n <= i < s.len() ==> is_white(#[trigger] s[i]),
    decreases s.len(),
{
    if s.len() > 0 && is_white(s.last()) {
        let m = lemma_trim_end(s.drop_last());
        assert(s.drop_last().take(m) =~= s.take(m));
        assert forall|i: int| m <= i < s.len() implies is_white(#[trigger] s[i]) by {
            if i < s.len() - 1 {
                assert(s.drop_last()[i] == s[i]);
            }
        }
        m
    } else {
        assert(s.take(s.len() as int) =~= s);
        s.len() as int
    }
}

/// Trimming cuts a text out between white space, and leaves none at its ends.
pub proof fn law_trimming_takes_white_space_off(s: Seq<char>)
    ensures
        exists|a: int, b: int|
            0 <= a <= b <= s.len() && trimmed(s) == #[trigger] s.subrange(a, b) && (forall|i: int|
                0 <= i < a || b <= i < s.len() ==> is_white(#[trigger] s[i])),
        trimmed(s).len() > 0 ==> !is_white(trimmed(s)[0]) && !is_white(trimmed(s).last()),
{
    let a = lemma_trim_start(s);
    let rest = s.skip(a);
    let n = lemma_trim_end(rest);
    let b = a + n;
    assert(rest.take(n) =~= s.subrange(a, b));
    assert forall|i: int| 0 <= i < a || b <= i < s.len() implies is_white(#[trigger] s[i]) by {
        if i >= b {
            assert(rest[i - a] == s[i]);
        }
    }
    if n > 0 {
        assert(rest[0] == s[a]);
        assert(trimmed(s)[0] == rest[0]);
        assert(trimmed(s).last() == rest[n - 1]);
    }
}

/// Writing a text in small letters changes the capitals from A to Z into the
/// letters from a to z, each into its own, and nothing else.
pub proof fn law_lowering_changes_capitals(s: Seq<char>, i: int)
    requires
        0 <= i < s.len(),
    ensures
        lowered(s).len() == s.len(),
        'A' <= s[i] <= 'Z' ==> lowered(s)[i] as int - 'a' as int == s[i] as int - 'A' as int,
        !('A' <= s[i] <= 'Z') ==> lowered(s)[i] == s[i],
{
}

// ---------------------------------------------------------------------------
// Ids

/// In a session that is whole a surface is named by its id.
pub proof fn law_an_id_names_its_surface(s: StateView, w: int, i: int)
    requires
        all_whole(s.workspaces),
        0 <= w < s.workspaces.len(),
        0 <= i < s.workspaces[w].surfaces.len(),
    ensures
        surface_at(s, s.workspaces[w].surfaces[i].id) == Some((w, i)),
        surface_place(s.workspaces, s.workspaces[w].surfaces[i].id, 0) == Some((w, i)),
{
    let id = s.workspaces[w].surfaces[i].id;
    assert(is_whole(s.workspaces[w]));
    assert(reference_index(s.workspaces[w].surfaces[i].id, "surface"@) is None);
    lemma_surface_found(s.workspaces, w, i, 0);
    lemma_surface_place(s.workspaces, id, 0);
    let (v, j) = surface_place(s.workspaces, id, 0)->0;
    assert(s.workspaces[v].surfaces[j].id == s.workspaces[w].surfaces[i].id);
}

/// A pane that stands in the lists is found.
proof fn lemma_pane_found(list: Seq<WorkspaceView>, w: int, i: int, from: int)
    requires
        0 <= from <= w < list.len(),
        0 <= i < list[w].panes.len(),
    ensures
        pane_place(list, list[w].panes[i].id, from) is Some,
    decreases w - from,
{
    let id = list[w].panes[i].id;
    let ids = pane_ids(list[from].panes);
    lemma_first_from(ids, id, 0);
    if from == w {
        assert(ids[i] == id);
    } else if first_at(ids, id) is None {
        lemma_pane_found(list, w, i, from + 1);
    }
}

/// In a session that is whole a pane is named by its id.
pub proof fn law_an_id_names_its_pane(s: StateView, w: int, i: int)
    requires
        all_whole(s.workspaces),
        0 <= w < s.workspaces.len(),
        0 <= i < s.workspaces[w].panes.len(),
    ensures
        pane_at(s, s.workspaces[w].panes[i].id) matches Some((v, j)) && 0 <= v < s.workspaces.len()
            && 0 <= j < s.workspaces[v].panes.len() && s.workspaces[v].panes[j].id
            == s.workspaces[w].panes[i].id,
{
    let id = s.workspaces[w].panes[i].id;
    assert(is_whole(s.workspaces[w]));
    assert(reference_index(s.workspaces[w].panes[i].id, "pane"@) is None);
    lemma_pane_found(s.workspaces, w, i, 0);
    lemma_pane_place(s.workspaces, id, 0);
}

/// A workspace is named by its id, unless that reads as a reference.
pub proof fn law_an_id_names_its_workspace(s: StateView, w: int)
    requires
        0 <= w < s.workspaces.len(),
        reference_index(s.workspaces[w].id, "workspace"@) is None,
        forall|v: int| 0 <= v < w ==> (#[trigger] s.workspaces[v]).id != s.workspaces[w].id,
    ensures
        workspace_index(s, s.workspaces[w].id) == Some(w),
{
    let ids = workspace_ids(s.workspaces);
    lemma_first_from(ids, s.workspaces[w].id, 0);
    assert(ids[w] == s.workspaces[w].id);
    let k = first_at(ids, s.workspaces[w].id)->0;
    assert(ids[k] == s.workspaces[k].id);
}

// ---------------------------------------------------------------------------
// References

/// A reference to a place: a kind, a colon and the place, counted from one.
pub open spec fn reference(kind: Seq<char>, n: nat) -> Seq<char> {
    kind + seq![':'] + decimal(n)
}

/// A reference is read as the place that it names, counted from zero.
proof fn lemma_reference(kind: Seq<char>, n: nat)
    requires
        1 <= n <= usize::MAX,
    ensures
        reference_index(reference(kind, n), kind) == Some((n - 1) as usize),
{
    let name = reference(kind, n);
    reveal_strlit(":");
    assert(name.take(kind.len() as int) =~= kind);
    let rest = name.skip(kind.len() as int);
    assert(rest =~= seq![':'] + decimal(n));
    assert(":"@ =~= seq![':']);
    assert(rest.take(1) =~= ":"@);
    assert(rest.skip(1) =~= decimal(n));
    law_written_numbers_are_read_back(n, usize::MAX as nat);
}

/// A reference names a workspace by its place in the list, and panes and
/// surfaces by their places in the current workspace, counted from one.
pub proof fn law_references_count_from_one(s: StateView, n: nat)
    requires
        1 <= n <= usize::MAX,
        current_index(s) is Some,
    ensures
        n <= s.workspaces.len() ==> workspace_index(s, reference("workspace"@, n)) == Some(n - 1),
        n > s.workspaces.len() ==> workspace_index(s, reference("workspace"@, n)) is None,
        ({
            let w = current_index(s)->0;
            &&& n <= s.workspaces[w].panes.len() ==> pane_at(s, reference("pane"@, n)) == Some(
                (w, n - 1),
            )
            &&& n <= s.workspaces[w].surfaces.len() ==> surface_at(s, reference("surface"@, n))
                == Some((w, n - 1))
        }),
{
    lemma_reference("workspace"@, n);
    lemma_reference("pane"@, n);
    lemma_reference("surface"@, n);
}

} // verus!
