//! Ids are given once: in a session that started from nothing no two workspaces,
//! panes, surfaces or notifications have the same one.

use crate::app_state::AppView;
use crate::automation::{automated, automation_act, automation_place, showing};
use crate::acting::ActView;
use crate::browsing::{
    browser_place, gone_along, gone_to, history_stepped, navigated, webview_focused, HistoryStep,
};
use crate::dispatch::{command_line_turn, line_turn, naming_workspace};
use crate::host::ReplyView;
use crate::ids::{law_ordinals_make_ids_different, uuid};
use crate::input::{
    history_cleared, lemma_target_place, payload, sent, surface_cleared, target_place, Sending,
};
use crate::json::JsonView;
use crate::lists::{first_at, lemma_first_from};
use crate::locate::{
    lemma_pane_at, lemma_surface_at, lemma_surface_place, pane_at, surface_at, surface_named,
    surface_place,
};
use crate::model::{
    pane_ids, NotificationView, PaneView, StateView, SurfaceView, WorkspaceView,
};
use crate::moving::{move_plan, surface_moved, surface_moved_state, MovePlanView};
use crate::notifications::{notification_created, without_notifications, Clock};
use crate::panes::{pane_created, pane_plan, pane_resized, panes_swapped};
use crate::routing::{
    browser_turn, method_turn, notification_turn, opens_pane, pane_turn, surface_turn,
    with_browser_kind, workspace_turn,
};
use crate::rpc::{Readings, RequestView};
use crate::session::started;
use crate::soundness::{
    all_whole, gives_new_ids, is_used, law_every_line_keeps_all_whole, lemma_moving_surface, lemma_origin,
    lemma_pane_plan, lemma_surface_plan, origin,
};
use crate::surfaces::{
    focused_by_id, lemma_named_surface, surface_closed, surface_created, surface_focused, surface_plan, surface_raised,
};
use crate::system::SurroundingsView;
use crate::workspaces::{
    requested_workspace, selected_by_id, splits_equalized, with_terminal_workspace, workspace_closed, workspace_created, workspace_renamed,
};
use vstd::prelude::*;

verus! {

/// Whether an id was made, in a namespace, from an ordinal below `n`.
pub open spec fn is_own(namespace: Seq<char>, id: Seq<char>, n: u64) -> bool {
    exists|k: u64, t: u64| k < n && id == #[trigger] uuid(namespace, k, t)
}

/// Whether the ids of all surfaces were made from ordinals below `n`.
pub open spec fn surfaces_are_own(list: Seq<WorkspaceView>, n: u64) -> bool {
    forall|w: int, i: int|
        0 <= w < list.len() && 0 <= i < list[w].surfaces.len() ==> is_own(
            "surface"@,
            (#[trigger] list[w].surfaces[i]).id,
            n,
        )
}

/// Whether the ids of all panes were made from ordinals below `n`.
pub open spec fn panes_are_own(list: Seq<WorkspaceView>, n: u64) -> bool {
    forall|w: int, p: int|
        0 <= w < list.len() && 0 <= p < list[w].panes.len() ==> is_own(
            "pane"@,
            (#[trigger] list[w].panes[p]).id,
            n,
        )
}

/// Whether no two panes have the same id.
pub open spec fn panes_differ(list: Seq<WorkspaceView>) -> bool {
    forall|w: int, p: int, v: int, q: int|
        0 <= w < list.len() && 0 <= v < list.len() && 0 <= p < list[w].panes.len() && 0 <= q
            < list[v].panes.len() && (#[trigger] list[w].panes[p]).id == (
        #[trigger] list[v].panes[q]).id ==> w == v && p == q
}

/// Whether the ids of all workspaces were made from ordinals below `n`.
pub open spec fn workspaces_are_own(list: Seq<WorkspaceView>, n: u64) -> bool {
    forall|w: int| 0 <= w < list.len() ==> is_own("workspace"@, (#[trigger] list[w]).id, n)
}

/// Whether no two workspaces have the same id.
pub open spec fn workspaces_differ(list: Seq<WorkspaceView>) -> bool {
    forall|w: int, v: int|
        0 <= w < list.len() && 0 <= v < list.len() && (#[trigger] list[w]).id == (
        #[trigger] list[v]).id ==> w == v
}

/// Whether the ids of all workspaces, panes and surfaces were made from
/// ordinals below `n`, and no two workspaces and no two panes have the same one.
pub open spec fn are_own(list: Seq<WorkspaceView>, n: u64) -> bool {
    &&& surfaces_are_own(list, n)
    &&& panes_are_own(list, n)
    &&& panes_differ(list)
    &&& workspaces_are_own(list, n)
    &&& workspaces_differ(list)
}

/// Whether the ids of all notifications were made from ordinals below `n`, and
/// no two are the same.
pub open spec fn notifications_are_own(list: Seq<NotificationView>, n: u64) -> bool {
    &&& forall|i: int|
        0 <= i < list.len() ==> is_own("notification"@, (#[trigger] list[i]).id, n)
    &&& forall|i: int, j: int|
        0 <= i < list.len() && 0 <= j < list.len() && (#[trigger] list[i]).id == (
        #[trigger] list[j]).id ==> i == j
}

/// Whether the ids of all that a state holds were made from ordinals below `n`.
pub open spec fn holds_own(s: StateView, n: u64) -> bool {
    are_own(s.workspaces, n) && notifications_are_own(s.notifications, n)
}

/// How many ordinals make different ids.
pub const ORDINALS: u64 = 0x1000_0000_0000_0000;

/// Whether all that a shell holds has an id that the shell gave, and the shell
/// can give more.
pub open spec fn is_numbered(app: AppView) -> bool {
    &&& app.next_ordinal + 3 < ORDINALS
    &&& holds_own(app.state, app.next_ordinal)
}

/// An id with a higher ordinal is another one.
proof fn lemma_higher(namespace: Seq<char>, id: Seq<char>, n: u64, ordinal: u64, nanos: u64)
    requires
        is_own(namespace, id, n),
        n <= ordinal < ORDINALS,
    ensures
        id != uuid(namespace, ordinal, nanos),
{
    let (k, t) = choose|k: u64, t: u64| k < n && id == #[trigger] uuid(namespace, k, t);
    law_ordinals_make_ids_different(namespace, k, ordinal, t, nanos);
}

/// An id with a higher ordinal is that of no surface.
proof fn lemma_new_id(list: Seq<WorkspaceView>, n: u64, ordinal: u64, nanos: u64)
    requires
        are_own(list, n),
        n <= ordinal < ORDINALS,
    ensures
        !is_used(list, uuid("surface"@, ordinal, nanos)),
{
    let id = uuid("surface"@, ordinal, nanos);
    if is_used(list, id) {
        let (w, i) = choose|w: int, i: int|
            0 <= w < list.len() && 0 <= i < list[w].surfaces.len() && (
            #[trigger] list[w].surfaces[i]).id == id;
        lemma_higher("surface"@, list[w].surfaces[i].id, n, ordinal, nanos);
    }
}

/// Where every surface has an id that the shell gave, the ids that it gives
/// next are new.
pub proof fn law_numbered_ids_are_new(app: AppView, nanos: u64)
    requires
        is_numbered(app),
    ensures
        gives_new_ids(app, nanos),
{
    let n = app.next_ordinal;
    lemma_new_id(app.state.workspaces, n, n, nanos);
    lemma_new_id(app.state.workspaces, n, (n + 1) as u64, nanos);
    lemma_new_id(app.state.workspaces, n, (n + 2) as u64, nanos);
}

// ---------------------------------------------------------------------------
// Lists

/// An id that was made from a lower ordinal.
proof fn lemma_still_own(namespace: Seq<char>, id: Seq<char>, n: u64, m: u64)
    requires
        is_own(namespace, id, n),
        n <= m,
    ensures
        is_own(namespace, id, m),
{
    let (k, t) = choose|k: u64, t: u64| k < n && id == #[trigger] uuid(namespace, k, t);
    assert(k < m && id == uuid(namespace, k, t));
}

/// Ids that were made from lower ordinals.
proof fn lemma_more(list: Seq<WorkspaceView>, n: u64, m: u64)
    requires
        are_own(list, n),
        n <= m,
    ensures
        are_own(list, m),
{
    assert forall|w: int, i: int| 0 <= w < list.len() && 0 <= i < list[w].surfaces.len() implies is_own(
        "surface"@,
        (#[trigger] list[w].surfaces[i]).id,
        m,
    ) by {
        lemma_still_own("surface"@, list[w].surfaces[i].id, n, m);
    }
    assert forall|w: int, p: int| 0 <= w < list.len() && 0 <= p < list[w].panes.len() implies is_own(
        "pane"@,
        (#[trigger] list[w].panes[p]).id,
        m,
    ) by {
        lemma_still_own("pane"@, list[w].panes[p].id, n, m);
    }
    assert forall|w: int| 0 <= w < list.len() implies is_own(
        "workspace"@,
        (#[trigger] list[w]).id,
        m,
    ) by {
        lemma_still_own("workspace"@, list[w].id, n, m);
    }
}

/// Ids of notifications that were made from lower ordinals.
proof fn lemma_more_notifications(list: Seq<NotificationView>, n: u64, m: u64)
    requires
        notifications_are_own(list, n),
        n <= m,
    ensures
        notifications_are_own(list, m),
{
    assert forall|i: int| 0 <= i < list.len() implies is_own(
        "notification"@,
        (#[trigger] list[i]).id,
        m,
    ) by {
        lemma_still_own("notification"@, list[i].id, n, m);
    }
}

/// Whether panes have no ids but those of others, and no two the same one where
/// no two of the others have.
spec fn brings_no_pane(from: Seq<PaneView>, to: Seq<PaneView>) -> bool {
    &&& forall|p: int| 0 <= p < to.len() ==> pane_ids(from).contains((#[trigger] to[p]).id)
    &&& pane_ids(from).no_duplicates() ==> pane_ids(to).no_duplicates()
}

/// Panes with the same ids.
proof fn lemma_same_panes(from: Seq<PaneView>, to: Seq<PaneView>)
    requires
        to.len() == from.len(),
        forall|p: int| 0 <= p < to.len() ==> (#[trigger] to[p]).id == from[p].id,
    ensures
        brings_no_pane(from, to),
{
    assert(pane_ids(to) =~= pane_ids(from));
    assert forall|p: int| 0 <= p < to.len() implies pane_ids(from).contains(
        (#[trigger] to[p]).id,
    ) by {
        assert(pane_ids(from)[p] == to[p].id);
    }
}

/// Some of the panes.
proof fn lemma_some_panes(from: Seq<PaneView>, keep: spec_fn(PaneView) -> bool)
    ensures
        brings_no_pane(from, from.filter(keep)),
    decreases from.len(),
{
    reveal(Seq::filter);
    let to = from.filter(keep);
    let ids = pane_ids(from);
    if from.len() > 0 {
        let rest = from.drop_last();
        let left = rest.filter(keep);
        lemma_some_panes(rest, keep);
        assert(pane_ids(rest) =~= ids.drop_last());
        assert(ids.last() == from.last().id);
        assert forall|p: int| 0 <= p < to.len() implies ids.contains((#[trigger] to[p]).id) by {
            if p < left.len() {
                assert(pane_ids(rest).contains(left[p].id));
                let q = pane_ids(rest).index_of(left[p].id);
                assert(ids[q] == left[p].id);
            } else {
                assert(ids[from.len() - 1] == to[p].id);
            }
        }
        if ids.no_duplicates() {
            assert(pane_ids(rest).no_duplicates());
            if keep(from.last()) {
                assert(pane_ids(to) =~= pane_ids(left).push(from.last().id));
                assert forall|p: int| 0 <= p < left.len() implies (#[trigger] pane_ids(left)[p])
                    != from.last().id by {
                    assert(pane_ids(rest).contains(left[p].id));
                    let q = pane_ids(rest).index_of(left[p].id);
                    assert(ids[q] == left[p].id);
                    assert(ids[q] != ids[from.len() - 1]);
                }
            } else {
                assert(pane_ids(to) =~= pane_ids(left));
            }
        }
    } else {
        assert(to =~= from);
    }
}

/// The panes of one of the workspaces.
proof fn lemma_panes_differ(list: Seq<WorkspaceView>, w: int)
    requires
        panes_differ(list),
        0 <= w < list.len(),
    ensures
        pane_ids(list[w].panes).no_duplicates(),
{
    let panes = list[w].panes;
    assert forall|p: int, q: int| 0 <= p < panes.len() && 0 <= q < panes.len() && p
        != q implies pane_ids(panes)[p] != pane_ids(panes)[q] by {
        assert(list[w].panes[p].id != list[w].panes[q].id);
    }
}

/// The pane that a pane comes from.
proof fn lemma_pane_source(from: Seq<PaneView>, to: Seq<PaneView>, p: int) -> (q: int)
    requires
        brings_no_pane(from, to),
        0 <= p < to.len(),
    ensures
        0 <= q < from.len(),
        from[q].id == to[p].id,
{
    assert(pane_ids(from).contains(to[p].id));
    pane_ids(from).index_of(to[p].id)
}

/// Another workspace in the place of one, with its id, and no other panes.
proof fn lemma_put(list: Seq<WorkspaceView>, w: int, now: WorkspaceView, n: u64)
    requires
        are_own(list, n),
        0 <= w < list.len(),
        now.id == list[w].id,
        brings_no_pane(list[w].panes, now.panes),
        forall|i: int|
            0 <= i < now.surfaces.len() ==> is_own(
                "surface"@,
                (#[trigger] now.surfaces[i]).id,
                n,
            ),
    ensures
        are_own(list.update(w, now), n),
{
    let after = list.update(w, now);
    assert forall|v: int, i: int| 0 <= v < after.len() && 0 <= i < after[v].surfaces.len() implies is_own(
        "surface"@,
        (#[trigger] after[v].surfaces[i]).id,
        n,
    ) by {
        if v == w {
            assert(is_own("surface"@, now.surfaces[i].id, n));
        } else {
            assert(is_own("surface"@, list[v].surfaces[i].id, n));
        }
    }
    assert forall|v: int| 0 <= v < after.len() implies is_own(
        "workspace"@,
        (#[trigger] after[v]).id,
        n,
    ) by {
        assert(after[v].id == list[v].id);
    }
    assert forall|v: int, u: int|
        0 <= v < after.len() && 0 <= u < after.len() && (#[trigger] after[v]).id == (
        #[trigger] after[u]).id implies v == u by {
        assert(after[v].id == list[v].id && after[u].id == list[u].id);
    }
    assert forall|v: int, p: int| 0 <= v < after.len() && 0 <= p < after[v].panes.len() implies is_own(
        "pane"@,
        (#[trigger] after[v].panes[p]).id,
        n,
    ) by {
        let q = if v == w {
            lemma_pane_source(list[w].panes, now.panes, p)
        } else {
            p
        };
        assert(is_own("pane"@, list[v].panes[q].id, n));
    }
    lemma_panes_differ(list, w);
    assert forall|v: int, p: int, u: int, q: int|
        0 <= v < after.len() && 0 <= u < after.len() && 0 <= p < after[v].panes.len() && 0 <= q
            < after[u].panes.len() && (#[trigger] after[v].panes[p]).id == (
        #[trigger] after[u].panes[q]).id implies v == u && p == q by {
        let a = if v == w {
            lemma_pane_source(list[w].panes, now.panes, p)
        } else {
            p
        };
        let b = if u == w {
            lemma_pane_source(list[w].panes, now.panes, q)
        } else {
            q
        };
        assert(list[v].panes[a].id == list[u].panes[b].id);
        if v == w && p != q {
            assert(pane_ids(now.panes)[p] == now.panes[p].id);
            assert(pane_ids(now.panes)[q] == now.panes[q].id);
        }
    }
}

/// A workspace that has its id, and whose panes and surfaces have theirs.
proof fn lemma_same_ids(list: Seq<WorkspaceView>, w: int, now: WorkspaceView, n: u64)
    requires
        are_own(list, n),
        0 <= w < list.len(),
        now.id == list[w].id,
        now.panes.len() == list[w].panes.len(),
        forall|p: int|
            0 <= p < now.panes.len() ==> (#[trigger] now.panes[p]).id == list[w].panes[p].id,
        now.surfaces.len() == list[w].surfaces.len(),
        forall|i: int|
            0 <= i < now.surfaces.len() ==> (#[trigger] now.surfaces[i]).id
                == list[w].surfaces[i].id,
    ensures
        are_own(list.update(w, now), n),
{
    assert forall|i: int| 0 <= i < now.surfaces.len() implies is_own(
        "surface"@,
        (#[trigger] now.surfaces[i]).id,
        n,
    ) by {
        assert(is_own("surface"@, list[w].surfaces[i].id, n));
    }
    lemma_same_panes(list[w].panes, now.panes);
    lemma_put(list, w, now, n);
}

/// A surface that keeps its id.
proof fn lemma_changed_surface(s: StateView, w: int, i: int, surface: SurfaceView, n: u64)
    requires
        are_own(s.workspaces, n),
        0 <= w < s.workspaces.len(),
        0 <= i < s.workspaces[w].surfaces.len(),
        surface.id == s.workspaces[w].surfaces[i].id,
    ensures
        are_own(s.with_surface(w, i, surface).workspaces, n),
{
    let now = WorkspaceView {
        surfaces: s.workspaces[w].surfaces.update(i, surface),
        ..s.workspaces[w]
    };
    lemma_same_ids(s.workspaces, w, now, n);
}

/// One surface more, with an id that was just given.
proof fn lemma_added_surface(
    list: Seq<WorkspaceView>,
    w: int,
    now: WorkspaceView,
    surface: SurfaceView,
    n: u64,
    m: u64,
    nanos: u64,
)
    requires
        are_own(list, n),
        0 <= w < list.len(),
        now.id == list[w].id,
        brings_no_pane(list[w].panes, now.panes),
        now.surfaces == list[w].surfaces.push(surface),
        exists|k: u64| k < m && surface.id == #[trigger] uuid("surface"@, k, nanos),
        n <= m,
    ensures
        are_own(list.update(w, now), m),
{
    lemma_more(list, n, m);
    assert forall|i: int| 0 <= i < now.surfaces.len() implies is_own(
        "surface"@,
        (#[trigger] now.surfaces[i]).id,
        m,
    ) by {
        if i < list[w].surfaces.len() {
            assert(is_own("surface"@, list[w].surfaces[i].id, m));
        } else {
            assert(is_own("surface"@, surface.id, m));
        }
    }
    lemma_put(list, w, now, m);
}

/// One pane more, with an id that no pane has.
proof fn lemma_added_pane(list: Seq<WorkspaceView>, w: int, now: WorkspaceView, pane: PaneView, n: u64)
    requires
        are_own(list, n),
        0 <= w < list.len(),
        now.id == list[w].id,
        now.surfaces == list[w].surfaces,
        now.panes == list[w].panes.push(pane),
        is_own("pane"@, pane.id, n),
        forall|v: int, p: int|
            0 <= v < list.len() && 0 <= p < list[v].panes.len() ==> (
            #[trigger] list[v].panes[p]).id != pane.id,
    ensures
        are_own(list.update(w, now), n),
{
    let after = list.update(w, now);
    assert forall|v: int, i: int| 0 <= v < after.len() && 0 <= i < after[v].surfaces.len() implies is_own(
        "surface"@,
        (#[trigger] after[v].surfaces[i]).id,
        n,
    ) by {
        assert(is_own("surface"@, list[v].surfaces[i].id, n));
    }
    assert forall|v: int| 0 <= v < after.len() implies is_own(
        "workspace"@,
        (#[trigger] after[v]).id,
        n,
    ) by {
        assert(after[v].id == list[v].id);
    }
    assert forall|v: int, u: int|
        0 <= v < after.len() && 0 <= u < after.len() && (#[trigger] after[v]).id == (
        #[trigger] after[u]).id implies v == u by {
        assert(after[v].id == list[v].id && after[u].id == list[u].id);
    }
    assert forall|v: int, p: int| 0 <= v < after.len() && 0 <= p < after[v].panes.len() implies is_own(
        "pane"@,
        (#[trigger] after[v].panes[p]).id,
        n,
    ) by {
        if p < list[v].panes.len() {
            assert(is_own("pane"@, list[v].panes[p].id, n));
        }
    }
    assert forall|v: int, p: int, u: int, q: int|
        0 <= v < after.len() && 0 <= u < after.len() && 0 <= p < after[v].panes.len() && 0 <= q
            < after[u].panes.len() && (#[trigger] after[v].panes[p]).id == (
        #[trigger] after[u].panes[q]).id implies v == u && p == q by {
        let a_old = p < list[v].panes.len();
        let b_old = q < list[u].panes.len();
        if a_old {
            assert(after[v].panes[p] == list[v].panes[p]);
        }
        if b_old {
            assert(after[u].panes[q] == list[u].panes[q]);
        }
    }
}

/// One workspace more, with an id that no workspace has, and one pane, with an
/// id that no pane has.
proof fn lemma_added_workspace(list: Seq<WorkspaceView>, now: WorkspaceView, n: u64)
    requires
        are_own(list, n),
        is_own("workspace"@, now.id, n),
        forall|v: int| 0 <= v < list.len() ==> (#[trigger] list[v]).id != now.id,
        now.panes.len() == 1,
        is_own("pane"@, now.panes[0].id, n),
        forall|v: int, p: int|
            0 <= v < list.len() && 0 <= p < list[v].panes.len() ==> (
            #[trigger] list[v].panes[p]).id != now.panes[0].id,
        forall|i: int|
            0 <= i < now.surfaces.len() ==> is_own(
                "surface"@,
                (#[trigger] now.surfaces[i]).id,
                n,
            ),
    ensures
        are_own(list.push(now), n),
{
    let after = list.push(now);
    assert forall|v: int, i: int| 0 <= v < after.len() && 0 <= i < after[v].surfaces.len() implies is_own(
        "surface"@,
        (#[trigger] after[v].surfaces[i]).id,
        n,
    ) by {
        if v == list.len() {
            assert(is_own("surface"@, now.surfaces[i].id, n));
        } else {
            assert(is_own("surface"@, list[v].surfaces[i].id, n));
        }
    }
    assert forall|v: int, p: int| 0 <= v < after.len() && 0 <= p < after[v].panes.len() implies is_own(
        "pane"@,
        (#[trigger] after[v].panes[p]).id,
        n,
    ) by {
        if v < list.len() {
            assert(is_own("pane"@, list[v].panes[p].id, n));
        }
    }
    assert forall|v: int, p: int, u: int, q: int|
        0 <= v < after.len() && 0 <= u < after.len() && 0 <= p < after[v].panes.len() && 0 <= q
            < after[u].panes.len() && (#[trigger] after[v].panes[p]).id == (
        #[trigger] after[u].panes[q]).id implies v == u && p == q by {
        if v < list.len() {
            assert(after[v].panes[p] == list[v].panes[p]);
        }
        if u < list.len() {
            assert(after[u].panes[q] == list[u].panes[q]);
        }
    }
    assert forall|v: int| 0 <= v < after.len() implies is_own(
        "workspace"@,
        (#[trigger] after[v]).id,
        n,
    ) by {
        if v < list.len() {
            assert(is_own("workspace"@, list[v].id, n));
        }
    }
    assert forall|v: int, u: int|
        0 <= v < after.len() && 0 <= u < after.len() && (#[trigger] after[v]).id == (
        #[trigger] after[u]).id implies v == u by {
        if v < list.len() {
            assert(after[v] == list[v]);
        }
        if u < list.len() {
            assert(after[u] == list[u]);
        }
    }
}

/// One workspace more, whose ids were just given.
proof fn lemma_new_workspace(
    list: Seq<WorkspaceView>,
    now: WorkspaceView,
    n: u64,
    m: u64,
    nanos: u64,
)
    requires
        are_own(list, n),
        n + 2 <= m <= n + 3,
        n + 3 < ORDINALS,
        now.id == uuid("workspace"@, n, nanos),
        now.panes.len() == 1,
        now.panes[0].id == uuid("pane"@, (n + 1) as u64, nanos),
        forall|i: int|
            0 <= i < now.surfaces.len() ==> m == n + 3 && (#[trigger] now.surfaces[i]).id == uuid(
                "surface"@,
                (n + 2) as u64,
                nanos,
            ),
    ensures
        are_own(list.push(now), m),
{
    lemma_more(list, n, m);
    assert forall|v: int| 0 <= v < list.len() implies (#[trigger] list[v]).id != now.id by {
        lemma_higher("workspace"@, list[v].id, n, n, nanos);
    }
    assert forall|v: int, p: int|
        0 <= v < list.len() && 0 <= p < list[v].panes.len() implies (
    #[trigger] list[v].panes[p]).id != now.panes[0].id by {
        lemma_higher("pane"@, list[v].panes[p].id, n, (n + 1) as u64, nanos);
    }
    assert forall|i: int| 0 <= i < now.surfaces.len() implies is_own(
        "surface"@,
        (#[trigger] now.surfaces[i]).id,
        m,
    ) by {
        let k = (n + 2) as u64;
        assert(now.surfaces[i].id == uuid("surface"@, k, nanos));
    }
    assert(is_own("workspace"@, now.id, m));
    let k = (n + 1) as u64;
    assert(k < m && now.panes[0].id == uuid("pane"@, k, nanos));
    lemma_added_workspace(list, now, m);
}

/// One workspace less.
proof fn lemma_less(list: Seq<WorkspaceView>, w: int, n: u64)
    requires
        are_own(list, n),
        0 <= w < list.len(),
    ensures
        are_own(list.remove(w), n),
{
    let after = list.remove(w);
    let old_place = |v: int|
        if v < w {
            v
        } else {
            v + 1
        };
    assert forall|v: int| 0 <= v < after.len() implies #[trigger] after[v] == list[old_place(v)] by {}
    assert forall|v: int, i: int| 0 <= v < after.len() && 0 <= i < after[v].surfaces.len() implies is_own(
        "surface"@,
        (#[trigger] after[v].surfaces[i]).id,
        n,
    ) by {
        assert(is_own("surface"@, list[old_place(v)].surfaces[i].id, n));
    }
    assert forall|v: int, p: int| 0 <= v < after.len() && 0 <= p < after[v].panes.len() implies is_own(
        "pane"@,
        (#[trigger] after[v].panes[p]).id,
        n,
    ) by {
        assert(is_own("pane"@, list[old_place(v)].panes[p].id, n));
    }
    assert forall|v: int, p: int, u: int, q: int|
        0 <= v < after.len() && 0 <= u < after.len() && 0 <= p < after[v].panes.len() && 0 <= q
            < after[u].panes.len() && (#[trigger] after[v].panes[p]).id == (
        #[trigger] after[u].panes[q]).id implies v == u && p == q by {
        assert(list[old_place(v)].panes[p].id == list[old_place(u)].panes[q].id);
    }
    assert forall|v: int| 0 <= v < after.len() implies is_own(
        "workspace"@,
        (#[trigger] after[v]).id,
        n,
    ) by {
        assert(is_own("workspace"@, list[old_place(v)].id, n));
    }
    assert forall|v: int, u: int|
        0 <= v < after.len() && 0 <= u < after.len() && (#[trigger] after[v]).id == (
        #[trigger] after[u]).id implies v == u by {
        assert(list[old_place(v)].id == list[old_place(u)].id);
    }
}

// ---------------------------------------------------------------------------
// Requests

/// Whether a session is numbered and whole.
#[verifier::opaque]
spec fn is_sound(app: AppView) -> bool {
    is_numbered(app) && all_whole(app.state.workspaces)
}

/// Whether all that the shell holds has an id that it gave, and it gave at most
/// three since.
#[verifier::opaque]
spec fn is_counted(before: AppView, after: AppView) -> bool {
    &&& holds_own(after.state, after.next_ordinal)
    &&& before.next_ordinal <= after.next_ordinal <= before.next_ordinal + 3
}

/// The requests about workspaces.
proof fn lemma_workspace_created(app: AppView, nanos: u64, params: Option<JsonView>)
    requires
        is_sound(app),
    ensures
        is_counted(app, workspace_created(app, nanos, params).app),
{
    reveal(is_counted);
    reveal(is_sound);
    let list = app.state.workspaces;
    let after = workspace_created(app, nanos, params).app;
    lemma_more_notifications(app.state.notifications, app.next_ordinal, after.next_ordinal);
    let now = after.state.workspaces[list.len() as int];
    lemma_new_workspace(list, now, app.next_ordinal, after.next_ordinal, nanos);
    assert(after.state.workspaces =~= list.push(now));
}

/// The requests that close and change workspaces.
proof fn lemma_workspace_changes(app: AppView, params: Option<JsonView>)
    requires
        is_sound(app),
    ensures
        is_counted(app, workspace_closed(app, params).app),
        is_counted(app, workspace_renamed(app, params).app),
        is_counted(app, splits_equalized(app, params).app),
{
    reveal(is_counted);
    reveal(is_sound);
    let list = app.state.workspaces;
    if let Ok(i) = requested_workspace(app, params) {
        crate::workspaces::lemma_requested_workspace(app, params);
        lemma_less(list, i, app.next_ordinal);
    }
    if let Ok(i) = crate::workspaces::requested_or_active_workspace(app, params) {
        let id = match crate::rpc::workspace_text(params) {
            Some(name) => crate::locate::workspace_named(app.state, name)->Ok_0,
            None => app.state.active_workspace_id->0,
        };
        crate::locate::lemma_workspace_index(app.state, id);
        lemma_same_ids(
            list,
            i,
            WorkspaceView { layout: list[i].layout.equalize(), ..list[i] },
            app.next_ordinal,
        );
        if let Ok(title) = crate::rpc::required(crate::rpc::text1(params, "title"@), "title"@) {
            lemma_same_ids(list, i, WorkspaceView { title, ..list[i] }, app.next_ordinal);
        }
    }
}

/// A new pane.
proof fn lemma_pane_created(app: AppView, nanos: u64, params: Option<JsonView>)
    requires
        is_sound(app),
    ensures
        is_counted(app, pane_created(app, nanos, params).app),
{
    reveal(is_counted);
    reveal(is_sound);
    lemma_pane_plan(app.state, params);
    if let Ok(plan) = pane_plan(app.state, params) {
        let list = app.state.workspaces;
        let after = pane_created(app, nanos, params).app;
        let n = app.next_ordinal;
        let m = after.next_ordinal;
        let now = after.state.workspaces[plan.w];
        let pane = now.panes.last();
        let surface = now.surfaces.last();
        let k = (n + 1) as u64;
        assert(pane.id == uuid("pane"@, n, nanos));
        assert(surface.id == uuid("surface"@, k, nanos));
        assert(is_own("pane"@, pane.id, m));
        lemma_more(list, n, m);
        assert forall|v: int, p: int|
            0 <= v < list.len() && 0 <= p < list[v].panes.len() implies (
        #[trigger] list[v].panes[p]).id != pane.id by {
            lemma_higher("pane"@, list[v].panes[p].id, n, n, nanos);
        }
        let between = WorkspaceView { panes: now.panes, ..list[plan.w] };
        lemma_added_pane(list, plan.w, between, pane, m);
        let half = list.update(plan.w, between);
        lemma_same_panes(between.panes, now.panes);
        lemma_added_surface(half, plan.w, now, surface, m, m, nanos);
        assert(after.state.workspaces =~= half.update(plan.w, now));
        lemma_more_notifications(app.state.notifications, n, m);
    }
}

/// A new surface.
proof fn lemma_surface_created(app: AppView, nanos: u64, params: Option<JsonView>)
    requires
        is_sound(app),
    ensures
        is_counted(app, surface_created(app, nanos, params).app),
{
    reveal(is_counted);
    reveal(is_sound);
    lemma_surface_plan(app.state, params);
    if let Ok(plan) = surface_plan(app.state, params) {
        let list = app.state.workspaces;
        let after = surface_created(app, nanos, params).app;
        let now = after.state.workspaces[plan.w];
        let surface = now.surfaces.last();
        assert(surface.id == uuid("surface"@, app.next_ordinal, nanos));
        lemma_same_panes(list[plan.w].panes, now.panes);
        lemma_more_notifications(app.state.notifications, app.next_ordinal, after.next_ordinal);
        lemma_added_surface(
            list,
            plan.w,
            now,
            surface,
            app.next_ordinal,
            after.next_ordinal,
            nanos,
        );
        assert(after.state.workspaces =~= list.update(plan.w, now));
    }
}

/// A surface that gets the focus.
proof fn lemma_raised(s: StateView, surface: SurfaceView, n: u64)
    requires
        are_own(s.workspaces, n),
    ensures
        are_own(surface_raised(s, surface).workspaces, n),
{
    let moved = s.focused(Some(surface.workspace_id), Some(surface.pane_id), Some(surface.id));
    lemma_pane_at(moved, surface.pane_id);
    if let Some((w, p)) = pane_at(moved, surface.pane_id) {
        lemma_same_ids(s.workspaces, w, surface_raised(s, surface).workspaces[w], n);
    }
}

/// Focus.
proof fn lemma_surface_focused(app: AppView, params: Option<JsonView>, replies: Seq<ReplyView>)
    requires
        is_sound(app),
    ensures
        is_counted(app, surface_focused(app, params, replies).app),
        is_counted(app, webview_focused(app, params, replies).app),
{
    reveal(is_counted);
    reveal(is_sound);
    let s = app.state;
    if let Ok((w, i)) = crate::surfaces::requested_surface(s, params) {
        lemma_raised(s, s.workspaces[w].surfaces[i], app.next_ordinal);
    }
}

/// Input.
proof fn lemma_sent(
    app: AppView,
    params: Option<JsonView>,
    sending: Sending,
    replies: Seq<ReplyView>,
)
    requires
        is_sound(app),
    ensures
        is_counted(app, sent(app, params, sending, replies).app),
{
    reveal(is_counted);
    reveal(is_sound);
    let s = app.state;
    lemma_target_place(s, params);
    if let Ok((w, i)) = target_place(s, params) {
        let old_surface = s.workspaces[w].surfaces[i];
        lemma_changed_surface(
            s,
            w,
            i,
            SurfaceView {
                input_log: old_surface.input_log.push(payload(params, sending)),
                ..old_surface
            },
            app.next_ordinal,
        );
    }
}

/// History.
proof fn lemma_history_cleared(app: AppView, params: Option<JsonView>, replies: Seq<ReplyView>)
    requires
        is_sound(app),
    ensures
        is_counted(app, history_cleared(app, params, replies).app),
{
    reveal(is_counted);
    reveal(is_sound);
    let s = app.state;
    lemma_target_place(s, params);
    if let Ok((w, i)) = target_place(s, params) {
        let old_surface = s.workspaces[w].surfaces[i];
        lemma_changed_surface(s, w, i, surface_cleared(old_surface), app.next_ordinal);
    }
}

/// The panes that are left when a surface is closed.
proof fn lemma_panes_left(w: WorkspaceView, i: int)
    requires
        0 <= i < w.surfaces.len(),
    ensures
        brings_no_pane(w.panes, crate::surfaces::workspace_without(w, i).panes),
{
    let rest = crate::surfaces::panes_without(w.panes, w.surfaces[i].id);
    lemma_same_panes(w.panes, rest);
    lemma_some_panes(rest, |p: PaneView| crate::surfaces::occupied(p));
    let left = crate::surfaces::workspace_without(w, i).panes;
    assert forall|p: int| 0 <= p < left.len() implies pane_ids(w.panes).contains(
        (#[trigger] left[p]).id,
    ) by {
        assert(pane_ids(rest) =~= pane_ids(w.panes));
    }
}

/// A closed surface.
proof fn lemma_surface_closed(app: AppView, params: Option<JsonView>, replies: Seq<ReplyView>)
    requires
        is_sound(app),
    ensures
        is_counted(app, surface_closed(app, params, replies).app),
{
    reveal(is_counted);
    reveal(is_sound);
    let list = app.state.workspaces;
    if let Ok(id) = crate::surfaces::closing_surface(app.state, params) {
        lemma_surface_place(list, id, 0);
        if let Some((w, i)) = surface_place(list, id, 0) {
            let now = crate::surfaces::workspace_without(list[w], i);
            assert forall|k: int| 0 <= k < now.surfaces.len() implies is_own(
                "surface"@,
                (#[trigger] now.surfaces[k]).id,
                app.next_ordinal,
            ) by {
                let j = if k < i {
                    k
                } else {
                    k + 1
                };
                assert(is_own("surface"@, list[w].surfaces[j].id, app.next_ordinal));
            }
            lemma_panes_left(list[w], i);
            lemma_put(list, w, now, app.next_ordinal);
        }
    }
}

/// Whether workspaces and their panes have the ids that others have.
spec fn have_the_names(list: Seq<WorkspaceView>, after: Seq<WorkspaceView>) -> bool {
    &&& after.len() == list.len()
    &&& forall|v: int|
        0 <= v < list.len() ==> (#[trigger] after[v]).id == list[v].id && after[v].panes.len()
            == list[v].panes.len()
    &&& forall|v: int, p: int|
        0 <= v < list.len() && 0 <= p < list[v].panes.len() ==> (
        #[trigger] after[v].panes[p]).id == list[v].panes[p].id
}

/// Workspaces and panes with the same ids.
proof fn lemma_same_names(list: Seq<WorkspaceView>, after: Seq<WorkspaceView>, n: u64)
    requires
        are_own(list, n),
        have_the_names(list, after),
        surfaces_are_own(after, n),
    ensures
        are_own(after, n),
{
    assert forall|v: int, p: int| 0 <= v < after.len() && 0 <= p < after[v].panes.len() implies is_own(
        "pane"@,
        (#[trigger] after[v].panes[p]).id,
        n,
    ) by {
        assert(is_own("pane"@, list[v].panes[p].id, n));
    }
    assert forall|v: int, p: int, u: int, q: int|
        0 <= v < after.len() && 0 <= u < after.len() && 0 <= p < after[v].panes.len() && 0 <= q
            < after[u].panes.len() && (#[trigger] after[v].panes[p]).id == (
        #[trigger] after[u].panes[q]).id implies v == u && p == q by {
        assert(list[v].panes[p].id == list[u].panes[q].id);
    }
    assert forall|v: int| 0 <= v < after.len() implies is_own(
        "workspace"@,
        (#[trigger] after[v]).id,
        n,
    ) by {
        assert(is_own("workspace"@, list[v].id, n));
    }
    assert forall|v: int, u: int|
        0 <= v < after.len() && 0 <= u < after.len() && (#[trigger] after[v]).id == (
        #[trigger] after[u]).id implies v == u by {
        assert(list[v].id == list[u].id);
    }
}

/// A move leaves the ids of workspaces and panes alone.
proof fn lemma_moved_names(s: StateView, plan: MovePlanView)
    requires
        0 <= plan.w < s.workspaces.len(),
        0 <= plan.tw < s.workspaces.len(),
        0 <= plan.tp < s.workspaces[plan.tw].panes.len(),
    ensures
        have_the_names(s.workspaces, surface_moved_state(s, plan).workspaces),
{
}

/// A moved surface.
proof fn lemma_surface_moved(app: AppView, params: Option<JsonView>)
    requires
        is_sound(app),
    ensures
        is_counted(app, surface_moved(app, params).app),
{
    reveal(is_counted);
    reveal(is_sound);
    let s = app.state;
    lemma_moving_surface(s, params);
    if let Ok(plan) = move_plan(s, params) {
        let after = surface_moved_state(s, plan).workspaces;
        assert forall|v: int, k: int|
            0 <= v < after.len() && 0 <= k < after[v].surfaces.len() implies is_own(
            "surface"@,
            (#[trigger] after[v].surfaces[k]).id,
            app.next_ordinal,
        ) by {
            lemma_origin(s, plan, v, k);
            let (w, i) = origin(s, plan, v, k);
            assert(is_own("surface"@, s.workspaces[w].surfaces[i].id, app.next_ordinal));
        }
        lemma_moved_names(s, plan);
        lemma_same_names(s.workspaces, after, app.next_ordinal);
    }
}

/// Swapped and resized panes.
proof fn lemma_pane_changes(app: AppView, params: Option<JsonView>, readings: Readings)
    requires
        is_sound(app),
    ensures
        is_counted(app, panes_swapped(app, params).app),
        is_counted(app, pane_resized(app, params, readings).app),
{
    reveal(is_counted);
    reveal(is_sound);
    let s = app.state;
    let list = s.workspaces;
    let n = app.next_ordinal;
    assert forall|w: int, now: WorkspaceView|
        0 <= w < list.len() && now.surfaces == list[w].surfaces && now.panes == list[w].panes
            && now.id == list[w].id implies are_own(
        #[trigger] list.update(w, now),
        n,
    ) by {
        lemma_same_ids(list, w, now, n);
    }
    assert forall|id: Seq<char>| (#[trigger] pane_at(s, id)) matches Some((w, _)) ==> 0 <= w
        < list.len() by {
        lemma_pane_at(s, id);
    }
}

/// A browser that goes elsewhere.
proof fn lemma_navigated(app: AppView, params: Option<JsonView>, replies: Seq<ReplyView>)
    requires
        is_sound(app),
    ensures
        is_counted(app, navigated(app, params, replies).app),
{
    reveal(is_counted);
    reveal(is_sound);
    let s = app.state;
    lemma_target_place(s, params);
    if let Ok((w, i)) = browser_place(s, params) {
        if let Ok(url) = crate::rpc::required(crate::rpc::text1(params, "url"@), "url"@) {
            let surface = gone_to(s.workspaces[w].surfaces[i], url);
            lemma_changed_surface(s, w, i, surface, app.next_ordinal);
        }
    }
}

/// A browser that goes along its history.
proof fn lemma_history_stepped(
    app: AppView,
    params: Option<JsonView>,
    step: HistoryStep,
    replies: Seq<ReplyView>,
)
    requires
        is_sound(app),
    ensures
        is_counted(app, history_stepped(app, params, step, replies).app),
{
    reveal(is_counted);
    reveal(is_sound);
    let s = app.state;
    lemma_target_place(s, params);
    if let Ok((w, i)) = browser_place(s, params) {
        let surface = gone_along(s.workspaces[w].surfaces[i], step);
        lemma_changed_surface(s, w, i, surface, app.next_ordinal);
    }
}

/// A browser whose page changes.
proof fn lemma_automated(
    app: AppView,
    method: Seq<char>,
    params: Option<JsonView>,
    readings: Readings,
    replies: Seq<ReplyView>,
)
    requires
        is_sound(app),
    ensures
        is_counted(app, automated(app, method, params, readings, replies).app),
{
    reveal(is_counted);
    reveal(is_sound);
    let s = app.state;
    if let Ok(id) = crate::input::target_surface(s, params) {
        lemma_surface_at(s, id);
        if let Ok((w, i)) = automation_place(app, params) {
            let surface = s.workspaces[w].surfaces[i];
            if let ActView::Done(page, _) = automation_act(
                surface,
                method,
                params,
                readings,
                replies,
            ) {
                lemma_changed_surface(s, w, i, showing(surface, page), app.next_ordinal);
            }
        }
    }
}

/// What leaves the workspaces alone.
proof fn lemma_same_list(app: AppView, after: AppView)
    requires
        is_sound(app),
        after.state.workspaces == app.state.workspaces,
        after.state.notifications == app.state.notifications,
        app.next_ordinal <= after.next_ordinal <= app.next_ordinal + 3,
    ensures
        is_counted(app, after),
{
    reveal(is_counted);
    reveal(is_sound);
    lemma_more(app.state.workspaces, app.next_ordinal, after.next_ordinal);
    lemma_more_notifications(app.state.notifications, app.next_ordinal, after.next_ordinal);
}

/// The turns about workspaces.
proof fn lemma_workspace_turns(
    app: AppView,
    method: Seq<char>,
    params: Option<JsonView>,
    clock: Clock,
)
    requires
        is_sound(app),
    ensures
        workspace_turn(app, method, params, clock) matches Some(turn) ==> is_counted(app, turn.app),
{
    if method == "workspace.list"@ || method == "list_workspaces"@ {
        lemma_same_list(app, app);
    } else if method == "workspace.create"@ || method == "new_workspace"@ {
        lemma_workspace_created(app, clock.nanos, params);
    } else if method == "workspace.current"@ {
        lemma_same_list(app, app);
    } else if method == "workspace.select"@ {
        lemma_same_list(app, crate::workspaces::workspace_selected(app, params).app);
    } else {
        lemma_workspace_changes(app, params);
    }
}

/// The turns about surfaces.
proof fn lemma_surface_turns(
    app: AppView,
    method: Seq<char>,
    params: Option<JsonView>,
    clock: Clock,
    replies: Seq<ReplyView>,
)
    requires
        is_sound(app),
    ensures
        surface_turn(app, method, params, clock, replies) matches Some(turn) ==> is_counted(
            app,
            turn.app,
        ),
{
    if method == "surface.list"@ || method == "list_surfaces"@ || method == "list_panels"@ {
        lemma_same_list(app, app);
    } else if method == "surface.create"@ || method == "new_surface"@ {
        lemma_surface_created(app, clock.nanos, params);
    } else if method == "surface.focus"@ {
        lemma_surface_focused(app, params, replies);
    } else if method == "surface.close"@ {
        lemma_surface_closed(app, params, replies);
    } else if method == "surface.move"@ || method == "surface.reorder"@ {
        lemma_surface_moved(app, params);
    } else if method == "surface.send_text"@ {
        lemma_sent(app, params, Sending::Text, replies);
    } else if method == "surface.send_key"@ {
        lemma_sent(app, params, Sending::Key, replies);
    } else if method == "surface.clear_history"@ {
        lemma_history_cleared(app, params, replies);
        lemma_same_list(app, app);
    } else {
        lemma_same_list(app, app);
    }
}

/// The turns about panes.
proof fn lemma_pane_turns(
    app: AppView,
    method: Seq<char>,
    params: Option<JsonView>,
    readings: Readings,
    clock: Clock,
)
    requires
        is_sound(app),
    ensures
        pane_turn(app, method, params, readings, clock) matches Some(turn) ==> is_counted(
            app,
            turn.app,
        ),
{
    if opens_pane(method) {
        lemma_pane_created(app, clock.nanos, params);
    } else if method == "pane.list"@ || method == "pane.surfaces"@ {
        lemma_same_list(app, app);
    } else if method == "pane.focus"@ {
        lemma_same_list(app, crate::panes::pane_focused(app, params).app);
    } else if method == "pane.swap"@ || method == "pane.resize"@ {
        lemma_pane_changes(app, params, readings);
    } else {
        lemma_same_list(app, app);
    }
}

/// The turns about browsers.
proof fn lemma_browser_turns(
    app: AppView,
    method: Seq<char>,
    params: Option<JsonView>,
    readings: Readings,
    clock: Clock,
    replies: Seq<ReplyView>,
)
    requires
        is_sound(app),
    ensures
        browser_turn(app, method, params, readings, clock, replies) matches Some(turn)
            ==> is_counted(app, turn.app),
{
    if method == "browser.open_split"@ {
        lemma_pane_created(app, clock.nanos, with_browser_kind(params));
    } else if method == "browser.navigate"@ {
        lemma_navigated(app, params, replies);
    } else if method == "browser.url.get"@ {
        lemma_same_list(app, app);
    } else if method == "browser.back"@ {
        lemma_history_stepped(app, params, HistoryStep::Back, replies);
    } else if method == "browser.forward"@ {
        lemma_history_stepped(app, params, HistoryStep::Forward, replies);
    } else if method == "browser.reload"@ {
        lemma_same_list(app, app);
    } else if method == "browser.focus_webview"@ {
        lemma_surface_focused(app, params, replies);
    } else if method == "browser.is_webview_focused"@ {
        lemma_same_list(app, app);
    } else {
        lemma_automated(app, method, params, readings, replies);
    }
}

/// The turns about notifications.
proof fn lemma_notification_turns(
    app: AppView,
    method: Seq<char>,
    params: Option<JsonView>,
    clock: Clock,
)
    requires
        is_sound(app),
    ensures
        notification_turn(app, method, params, clock) matches Some(turn) ==> is_counted(
            app,
            turn.app,
        ),
{
    lemma_same_list(app, app);
    lemma_notified(app, clock, params);
}

/// A new notification, and none.
proof fn lemma_notified(app: AppView, clock: Clock, params: Option<JsonView>)
    requires
        is_sound(app),
    ensures
        is_counted(app, notification_created(app, clock, params).app),
        is_counted(app, without_notifications(app)),
{
    reveal(is_counted);
    reveal(is_sound);
    let after = notification_created(app, clock, params).app;
    let n = app.next_ordinal;
    let m = after.next_ordinal;
    let list = app.state.notifications;
    let now = after.state.notifications;
    lemma_more(app.state.workspaces, n, m);
    lemma_more_notifications(list, n, m);
    if m != n {
        let id = now.last().id;
        assert(id == uuid("notification"@, n, clock.nanos));
        assert(is_own("notification"@, id, m));
        assert forall|i: int| 0 <= i < list.len() implies (#[trigger] list[i]).id != id by {
            lemma_higher("notification"@, list[i].id, n, n, clock.nanos);
        }
        assert(now =~= list.push(now.last()));
    }
}

/// The turns of all methods.
proof fn lemma_turns(
    app: AppView,
    method: Seq<char>,
    params: Option<JsonView>,
    readings: Readings,
    surroundings: SurroundingsView,
    clock: Clock,
    replies: Seq<ReplyView>,
)
    requires
        is_sound(app),
    ensures
        method_turn(app, method, params, readings, surroundings, clock, replies) matches Some(turn)
            ==> is_counted(app, turn.app),
{
    lemma_same_list(app, app);
    lemma_workspace_turns(app, method, params, clock);
    lemma_surface_turns(app, method, params, clock, replies);
    lemma_pane_turns(app, method, params, readings, clock);
    lemma_browser_turns(app, method, params, readings, clock, replies);
    lemma_notification_turns(app, method, params, clock);
}

/// A command line.
proof fn lemma_command_line(app: AppView, line: Seq<char>, clock: Clock)
    requires
        is_sound(app),
    ensures
        is_counted(app, command_line_turn(app, line, clock).app),
{
    let word = crate::page::or_empty(
        crate::text::first_word(crate::text::after_first_word(line)),
    );
    let params = Some(naming_workspace(word));
    lemma_same_list(app, app);
    lemma_same_list(app, crate::workspaces::workspace_selected(app, params).app);
    lemma_workspace_changes(app, params);
    let after = crate::workspaces::with_terminal_workspace(
        app,
        clock.nanos,
        "Workspace"@,
        None,
        None,
    );
    assert(is_counted(app, after)) by {
        reveal(is_counted);
        reveal(is_sound);
        let list = app.state.workspaces;
        let now = after.state.workspaces[list.len() as int];
        lemma_new_workspace(list, now, app.next_ordinal, after.next_ordinal, clock.nanos);
        lemma_more_notifications(app.state.notifications, app.next_ordinal, after.next_ordinal);
        assert(after.state.workspaces =~= list.push(now));
    }
}

// ---------------------------------------------------------------------------
// Laws

/// Every line keeps a session whole in which all that there is has an id that
/// the shell gave: all workspaces, panes, surfaces and notifications still have
/// such ids, no two of a kind have the same one, and a line uses up at most three
/// ordinals.
pub proof fn law_every_line_gives_new_ids(
    app: AppView,
    line: Seq<char>,
    request: Option<RequestView>,
    surroundings: SurroundingsView,
    clock: Clock,
    replies: Seq<ReplyView>,
)
    requires
        is_numbered(app),
        all_whole(app.state.workspaces),
    ensures
        ({
            let after = line_turn(app, line, request, surroundings, clock, replies).app;
            &&& all_whole(after.state.workspaces)
            &&& holds_own(after.state, after.next_ordinal)
            &&& app.next_ordinal <= after.next_ordinal <= app.next_ordinal + 3
        }),
{
    assert(is_sound(app)) by {
        reveal(is_sound);
    }
    law_numbered_ids_are_new(app, clock.nanos);
    law_every_line_keeps_all_whole(app, line, request, surroundings, clock, replies);
    match request {
        Some(r) => {
            lemma_turns(app, r.method, r.params, r.readings, surroundings, clock, replies);
            lemma_same_list(app, app);
        },
        None => {
            lemma_command_line(app, line, clock);
        },
    }
    reveal(is_counted);
}

/// What the user does in the window keeps such a session as it should be:
/// selecting a workspace, focusing a surface, opening a workspace, and clearing
/// the notifications.
pub proof fn law_the_window_gives_new_ids(
    app: AppView,
    identifier: Seq<char>,
    title: Seq<char>,
    nanos: u64,
)
    requires
        is_numbered(app),
    ensures
        ({
            let after = with_terminal_workspace(app, nanos, title, None, None);
            &&& holds_own(after.state, after.next_ordinal)
            &&& after.next_ordinal == app.next_ordinal + 3
        }),
        holds_own(selected_by_id(app, identifier).1.state, app.next_ordinal),
        holds_own(focused_by_id(app, identifier).1.state, app.next_ordinal),
        holds_own(without_notifications(app).state, app.next_ordinal),
{
    let s = app.state;
    let list = s.workspaces;
    let after = with_terminal_workspace(app, nanos, title, None, None);
    let now = after.state.workspaces[list.len() as int];
    lemma_new_workspace(list, now, app.next_ordinal, after.next_ordinal, nanos);
    lemma_more_notifications(s.notifications, app.next_ordinal, after.next_ordinal);
    assert(after.state.workspaces =~= list.push(now));
    if let Ok(id) = surface_named(s, identifier) {
        lemma_named_surface(s, identifier);
        lemma_surface_at(s, id);
        let (w, i) = surface_at(s, id)->0;
        let surface = list[w].surfaces[i];
        let panes = list[w].panes;
        lemma_first_from(pane_ids(panes), surface.pane_id, 0);
        if let Some(p) = first_at(pane_ids(panes), surface.pane_id) {
            let pane = PaneView { active_surface_id: Some(surface.id), ..panes[p] };
            let workspace = WorkspaceView { panes: panes.update(p, pane), ..list[w] };
            lemma_same_ids(list, w, workspace, app.next_ordinal);
        }
    }
}

/// In a session that starts from nothing all workspaces, panes and surfaces
/// have ids that the shell gave.
pub proof fn law_a_new_session_is_numbered(nanos: u64)
    ensures
        is_numbered(started(nanos)),
        all_whole(started(nanos).state.workspaces),
{
    let app = started(nanos);
    let bare = crate::session::bare_shell(nanos);
    crate::soundness::law_a_new_session_is_whole(bare, nanos);
    let none = Seq::<WorkspaceView>::empty();
    let now = app.state.workspaces[0];
    lemma_new_workspace(none, now, bare.next_ordinal, app.next_ordinal, nanos);
    assert(app.state.workspaces =~= none.push(now));
}

} // verus!
