//! Where a surface stands after it was moved.

use crate::app_state::AppView;
use crate::host::StepView;
use crate::json::JsonView;
use crate::lists::lemma_first_from;
use crate::locate::{pane_at, surface_at};
use crate::model::{surface_ids, StateView, SurfaceView};
use crate::moving::{
    after_text, before_text, destination_text, insertion, move_plan, pane_minus, pane_plus, state_minus, surface_moved, surface_moved_state,
    MovePlanView,
};
use crate::naming::{law_an_id_names_its_pane, law_an_id_names_its_surface};
use crate::others::{
    lemma_among_others, lemma_others, lemma_parts_of_others, lemma_put_among, lemma_without, others,
};
use crate::rpc::{param, text3, text4};
use crate::soundness::{all_whole, lemma_moving_surface};
use vstd::prelude::*;

verus! {

/// Whether one id stands immediately behind another.
pub open spec fn stands_behind(ids: Seq<Seq<char>>, id: Seq<char>, other: Seq<char>) -> bool {
    exists|k: int| 0 <= k && k + 1 < ids.len() && #[trigger] ids[k] == other && ids[k + 1] == id
}

/// What a pane holds after a surface was put on it.
proof fn lemma_pane_after(s: StateView, plan: MovePlanView, v: int, q: int)
    requires
        0 <= plan.w < s.workspaces.len(),
        0 <= plan.s < s.workspaces[plan.w].surfaces.len(),
        0 <= plan.tw < s.workspaces.len(),
        0 <= plan.tp < s.workspaces[plan.tw].panes.len(),
        0 <= v < s.workspaces.len(),
        0 <= q < s.workspaces[v].panes.len(),
    ensures
        ({
            let old_pane = s.workspaces[v].panes[q];
            let new_pane = surface_moved_state(s, plan).workspaces[v].panes[q];
            let mid = others(old_pane.surface_ids, plan.id);
            &&& surface_moved_state(s, plan).workspaces.len() == s.workspaces.len()
            &&& surface_moved_state(s, plan).workspaces[v].panes.len() == s.workspaces[v].panes.len()
            &&& surface_moved_state(s, plan).workspaces[v].layout == s.workspaces[v].layout
            &&& surface_moved_state(s, plan).workspaces[v].id == s.workspaces[v].id
            &&& new_pane.id == old_pane.id
            &&& if v == plan.tw && q == plan.tp {
                &&& new_pane.surface_ids == mid.insert(
                    insertion(mid, plan.index, plan.before, plan.after),
                    plan.id,
                )
                &&& new_pane.active_surface_id == Some(plan.id)
            } else {
                &&& new_pane.surface_ids == mid
                &&& new_pane.active_surface_id == old_pane.active_surface_id
            }
        }),
{
    let old_pane = s.workspaces[v].panes[q];
    let cleared = state_minus(s, plan.id);
    assert(cleared.workspaces[v].panes[q] == pane_minus(old_pane, plan.id));
    lemma_without(old_pane.surface_ids, plan.id);
    lemma_without(s.workspaces[plan.tw].panes[plan.tp].surface_ids, plan.id);
    let pane = cleared.workspaces[plan.tw].panes[plan.tp];
    let at = insertion(pane.surface_ids, plan.index, plan.before, plan.after);
    let placed = cleared.with_pane(plan.tw, plan.tp, pane_plus(pane, at, plan.id));
    lemma_first_from(surface_ids(placed.workspaces[plan.w].surfaces), plan.id, 0);
    assert(surface_moved_state(s, plan).workspaces[v].panes == placed.workspaces[v].panes);
}

/// A surface that was moved stands once on the pane that it was moved to: behind
/// the surface that it was to stand after, ahead of the one that it was to stand
/// before, at the place that was asked for, counted from one, or else at the end.
/// The other surfaces of the pane keep their order, and no other pane has it.
/// It is on top of its pane, and has the focus.
pub proof fn law_a_moved_surface_stands_where_asked(app: AppView, params: Option<JsonView>)
    requires
        all_whole(app.state.workspaces),
        surface_moved(app, params).step matches StepView::Done(Ok(_)),
    ensures
        move_plan(app.state, params) matches Ok(plan) && ({
            let before = app.state.workspaces;
            let after = surface_moved(app, params).app.state;
            let old_ids = before[plan.tw].panes[plan.tp].surface_ids;
            let new_ids = after.workspaces[plan.tw].panes[plan.tp].surface_ids;
            let asked = param(params, "index"@);
            &&& others(new_ids, plan.id) == others(old_ids, plan.id)
            &&& exists|k: int| 0 <= k < new_ids.len() && #[trigger] new_ids[k] == plan.id
            &&& forall|j: int, k: int|
                0 <= j < new_ids.len() && 0 <= k < new_ids.len() && #[trigger] new_ids[j] == plan.id
                    && #[trigger] new_ids[k] == plan.id ==> j == k
            &&& asked is None && plan.before is None ==> (plan.after matches Some(t) ==> (t != plan.id
                && old_ids.contains(t) ==> stands_behind(new_ids, plan.id, t)))
            &&& asked is None ==> (plan.before matches Some(t) ==> (t != plan.id
                && old_ids.contains(t) ==> stands_behind(new_ids, t, plan.id)))
            &&& asked is None && plan.before is None && plan.after is None ==> new_ids.last()
                == plan.id
            &&& asked matches Some(JsonView::Unsigned(n)) ==> n <= usize::MAX ==> {
                &&& 1 <= n <= new_ids.len() ==> new_ids[n - 1] == plan.id
                &&& n == 0 ==> new_ids[0] == plan.id
                &&& n > new_ids.len() ==> new_ids.last() == plan.id
            }
            &&& forall|v: int, q: int|
                0 <= v < before.len() && 0 <= q < before[v].panes.len() && !(v == plan.tw && q
                    == plan.tp) ==> (#[trigger] after.workspaces[v].panes[q]).surface_ids == others(
                    before[v].panes[q].surface_ids,
                    plan.id,
                )
            &&& after.workspaces[plan.tw].panes[plan.tp].active_surface_id == Some(plan.id)
            &&& after.active_surface_id == Some(plan.id)
            &&& after.active_pane_id == Some(plan.target)
            &&& after.active_workspace_id == Some(before[plan.tw].id)
        }),
{
    let s = app.state;
    let plan = move_plan(s, params)->Ok_0;
    lemma_moving_surface(s, params);
    let after = surface_moved_state(s, plan);
    let old_ids = s.workspaces[plan.tw].panes[plan.tp].surface_ids;
    let mid = others(old_ids, plan.id);
    let at = insertion(mid, plan.index, plan.before, plan.after);
    lemma_pane_after(s, plan, plan.tw, plan.tp);
    if let Some(t) = plan.before {
        lemma_first_from(mid, t, 0);
    }
    if let Some(t) = plan.after {
        lemma_first_from(mid, t, 0);
    }
    lemma_others(old_ids, plan.id);
    lemma_parts_of_others(old_ids, plan.id, at);
    lemma_put_among(mid, plan.id, at);
    let new_ids = mid.insert(at, plan.id);
    assert(new_ids == after.workspaces[plan.tw].panes[plan.tp].surface_ids);
    assert(new_ids[at] == plan.id);
    assert forall|k: int| 0 <= k < new_ids.len() && #[trigger] new_ids[k] == plan.id implies k
        == at by {
        if k < at {
            assert(new_ids[k] == mid[k]);
        } else if k > at {
            assert(new_ids[k] == mid[k - 1]);
        }
    }
    if param(params, "index"@) is None {
        if let Some(t) = plan.before {
            if t != plan.id && old_ids.contains(t) {
                let j = choose|j: int| 0 <= j < old_ids.len() && old_ids[j] == t;
                let k = lemma_among_others(old_ids, plan.id, j);
                assert(mid[k] == t);
                assert(new_ids[at] == plan.id && new_ids[at + 1] == mid[at]);
                assert(stands_behind(new_ids, t, plan.id));
            }
        } else if let Some(t) = plan.after {
            if t != plan.id && old_ids.contains(t) {
                let j = choose|j: int| 0 <= j < old_ids.len() && old_ids[j] == t;
                let k = lemma_among_others(old_ids, plan.id, j);
                assert(mid[k] == t);
                assert(new_ids[at - 1] == mid[at - 1] && new_ids[at] == plan.id);
                assert(stands_behind(new_ids, plan.id, t));
            }
        }
    }
    assert forall|v: int, q: int|
        0 <= v < s.workspaces.len() && 0 <= q < s.workspaces[v].panes.len() && !(v == plan.tw && q
            == plan.tp) implies (#[trigger] after.workspaces[v].panes[q]).surface_ids == others(
        s.workspaces[v].panes[q].surface_ids,
        plan.id,
    ) by {
        lemma_pane_after(s, plan, v, q);
    }
}

/// Whether a text is the id of a surface.
pub open spec fn is_surface_id(s: StateView, id: Seq<char>) -> bool {
    exists|w: int, i: int|
        0 <= w < s.workspaces.len() && 0 <= i < s.workspaces[w].surfaces.len() && (
        #[trigger] s.workspaces[w].surfaces[i]).id == id
}

/// Whether a text is the id of a pane.
pub open spec fn is_pane_id(s: StateView, id: Seq<char>) -> bool {
    exists|w: int, i: int|
        0 <= w < s.workspaces.len() && 0 <= i < s.workspaces[w].panes.len() && (
        #[trigger] s.workspaces[w].panes[i]).id == id
}

/// A surface that is called by its id.
pub proof fn lemma_called_surface(s: StateView, id: Seq<char>)
    requires
        all_whole(s.workspaces),
        is_surface_id(s, id),
    ensures
        surface_at(s, id) matches Some((w, i)) && 0 <= w < s.workspaces.len() && 0 <= i
            < s.workspaces[w].surfaces.len() && s.workspaces[w].surfaces[i].id == id,
{
    let (w, i) = choose|w: int, i: int|
        0 <= w < s.workspaces.len() && 0 <= i < s.workspaces[w].surfaces.len() && (
        #[trigger] s.workspaces[w].surfaces[i]).id == id;
    law_an_id_names_its_surface(s, w, i);
}

/// A pane that is called by its id.
pub proof fn lemma_called_pane(s: StateView, id: Seq<char>)
    requires
        all_whole(s.workspaces),
        is_pane_id(s, id),
    ensures
        pane_at(s, id) matches Some((w, i)) && 0 <= w < s.workspaces.len() && 0 <= i
            < s.workspaces[w].panes.len() && s.workspaces[w].panes[i].id == id,
{
    let (w, i) = choose|w: int, i: int|
        0 <= w < s.workspaces.len() && 0 <= i < s.workspaces[w].panes.len() && (
        #[trigger] s.workspaces[w].panes[i]).id == id;
    law_an_id_names_its_pane(s, w, i);
}

/// A move is about the surface that the request names, beside the neighbour that
/// it names, and to the pane that it names; where it names none, to the pane of
/// the neighbour, and where it names no neighbour, to the pane of the surface.
pub proof fn law_a_move_goes_by_its_names(s: StateView, params: Option<JsonView>)
    requires
        all_whole(s.workspaces),
        move_plan(s, params) is Ok,
    ensures
        ({
            let plan = move_plan(s, params)->Ok_0;
            let name = text3(params, "surface"@, "surfaceId"@, "surface_id"@);
            let ahead = text4(
                params,
                "before"@,
                "beforeSurface"@,
                "before_surface_id"@,
                "beforeSurfaceId"@,
            );
            let behind = text4(
                params,
                "after"@,
                "afterSurface"@,
                "after_surface_id"@,
                "afterSurfaceId"@,
            );
            let pane = text3(params, "pane"@, "paneId"@, "pane_id"@);
            let target = text3(params, "target_pane"@, "targetPane"@, "target_pane_id"@);
            let own = s.workspaces[plan.w].surfaces[plan.s];
            &&& own.id == plan.id
            &&& name matches Some(n) ==> is_surface_id(s, n) ==> plan.id == n
            &&& ahead is None <==> plan.before is None
            &&& behind is None <==> plan.after is None
            &&& ahead matches Some(n) ==> is_surface_id(s, n) ==> plan.before == Some(n)
            &&& behind matches Some(n) ==> is_surface_id(s, n) ==> plan.after == Some(n)
            &&& pane matches Some(n) ==> is_pane_id(s, n) ==> plan.target == n
            &&& pane is None ==> (target matches Some(n) ==> is_pane_id(s, n) ==> plan.target == n)
            &&& pane is None && target is None && ahead is None && behind is None ==> plan.target
                == own.pane_id
            &&& pane is None && target is None ==> (ahead matches Some(n) ==> forall|w: int, i: int|
                0 <= w < s.workspaces.len() && 0 <= i < s.workspaces[w].surfaces.len() && (
                #[trigger] s.workspaces[w].surfaces[i]).id == n ==> plan.target
                    == s.workspaces[w].surfaces[i].pane_id)
            &&& pane is None && target is None && ahead is None ==> (behind matches Some(n)
                ==> forall|w: int, i: int|
                0 <= w < s.workspaces.len() && 0 <= i < s.workspaces[w].surfaces.len() && (
                #[trigger] s.workspaces[w].surfaces[i]).id == n ==> plan.target
                    == s.workspaces[w].surfaces[i].pane_id)
            &&& is_pane_id(s, plan.target) ==> s.workspaces[plan.tw].panes[plan.tp].id == plan.target
        }),
{
    let plan = move_plan(s, params)->Ok_0;
    lemma_moving_surface(s, params);
    if is_pane_id(s, plan.target) {
        lemma_called_pane(s, plan.target);
    }
    if let Some(n) = text3(params, "surface"@, "surfaceId"@, "surface_id"@) {
        if is_surface_id(s, n) {
            lemma_called_surface(s, n);
        }
    }
    if let Some(n) = before_text(params) {
        if is_surface_id(s, n) {
            lemma_called_surface(s, n);
        }
    }
    if let Some(n) = after_text(params) {
        if is_surface_id(s, n) {
            lemma_called_surface(s, n);
        }
    }
    if let Some(n) = destination_text(params) {
        if is_pane_id(s, n) {
            lemma_called_pane(s, n);
        }
    }
    assert forall|w: int, i: int|
        0 <= w < s.workspaces.len() && 0 <= i < s.workspaces[w].surfaces.len() implies surface_at(
        s,
        (#[trigger] s.workspaces[w].surfaces[i]).id,
    ) == Some((w, i)) by {
        law_an_id_names_its_surface(s, w, i);
    }
}

/// The record of a surface that was moved says where it is now, and nothing else
/// of it has changed; the records of all other surfaces are as they were.
pub proof fn law_a_moved_surface_belongs_where_it_stands(app: AppView, params: Option<JsonView>)
    requires
        all_whole(app.state.workspaces),
        surface_moved(app, params).step matches StepView::Done(Ok(_)),
    ensures
        move_plan(app.state, params) matches Ok(plan) && ({
            let before = app.state.workspaces;
            let after = surface_moved(app, params).app.state.workspaces;
            let record = before[plan.w].surfaces[plan.s];
            &&& after.len() == before.len()
            &&& exists|k: int|
                0 <= k < after[plan.tw].surfaces.len() && #[trigger] after[plan.tw].surfaces[k]
                    == (SurfaceView {
                    pane_id: plan.target,
                    workspace_id: if plan.w == plan.tw {
                        record.workspace_id
                    } else {
                        before[plan.tw].id
                    },
                    ..record
                })
            &&& forall|v: int, j: int|
                0 <= v < before.len() && 0 <= j < before[v].surfaces.len() && (
                #[trigger] before[v].surfaces[j]).id != plan.id ==> after[v].surfaces.contains(
                    before[v].surfaces[j],
                )
            &&& forall|v: int|
                0 <= v < before.len() && v != plan.w && v != plan.tw ==> (#[trigger] after[v]).surfaces
                    == before[v].surfaces
            &&& plan.w == plan.tw ==> after[plan.w].surfaces.len() == before[plan.w].surfaces.len()
            &&& plan.w != plan.tw ==> after[plan.w].surfaces.len() + 1
                == before[plan.w].surfaces.len() && after[plan.tw].surfaces.len()
                == before[plan.tw].surfaces.len() + 1
        }),
{
    let s = app.state;
    let plan = move_plan(s, params)->Ok_0;
    lemma_moving_surface(s, params);
    let before = s.workspaces;
    let after = surface_moved_state(s, plan).workspaces;
    let cleared = state_minus(s, plan.id);
    let pane = cleared.workspaces[plan.tw].panes[plan.tp];
    let at = insertion(pane.surface_ids, plan.index, plan.before, plan.after);
    let placed = cleared.with_pane(plan.tw, plan.tp, pane_plus(pane, at, plan.id));
    assert forall|x: int| 0 <= x < before.len() implies (#[trigger] placed.workspaces[x]).surfaces
        == before[x].surfaces && placed.workspaces[x].id == before[x].id by {}
    assert(placed.workspaces[plan.w].surfaces == before[plan.w].surfaces);
    if plan.w == plan.tw {
        assert(after[plan.tw].surfaces[plan.s].id == plan.id);
    } else {
        assert(after[plan.tw].surfaces[before[plan.tw].surfaces.len() as int].id == plan.id);
    }
    assert forall|v: int, j: int|
        0 <= v < before.len() && 0 <= j < before[v].surfaces.len() && (
        #[trigger] before[v].surfaces[j]).id != plan.id implies after[v].surfaces.contains(
        before[v].surfaces[j],
    ) by {
        let k = if plan.w != plan.tw && v == plan.w && j > plan.s {
            j - 1
        } else {
            j
        };
        assert(after[v].surfaces[k] == before[v].surfaces[j]);
    }
}

/// The place that is asked for is where the neighbour says: the one before which
/// something is to stand stands there, and the one behind which it is to stand
/// stands right before it. A place that is given counts from one, and wins over
/// both; without any the place is the end.
pub proof fn law_places_are_beside_their_neighbours(
    ids: Seq<Seq<char>>,
    neighbour: Seq<char>,
    other: Option<Seq<char>>,
    n: usize,
)
    ensures
        ids.contains(neighbour) ==> ({
            let before = insertion(ids, None, Some(neighbour), other);
            let behind = insertion(ids, None, None, Some(neighbour));
            &&& 0 <= before < ids.len() && ids[before] == neighbour
            &&& 0 < behind <= ids.len() && ids[behind - 1] == neighbour
        }),
        !ids.contains(neighbour) ==> insertion(ids, None, Some(neighbour), other) == ids.len()
            && insertion(ids, None, None, Some(neighbour)) == ids.len(),
        insertion(ids, None, None, None) == ids.len(),
        1 <= n <= ids.len() ==> insertion(ids, Some(n), Some(neighbour), other) == n - 1,
        n == 0 ==> insertion(ids, Some(n), Some(neighbour), other) == 0,
        n > ids.len() ==> insertion(ids, Some(n), Some(neighbour), other) == ids.len(),
{
    lemma_first_from(ids, neighbour, 0);
}

} // verus!
