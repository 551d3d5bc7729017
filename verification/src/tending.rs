//! What becomes of workspaces and panes when a request makes, changes or closes
//! them.

use crate::app_state::AppView;
use crate::host::StepView;
use crate::json::JsonView;
use crate::layout::{half_split, law_has_is_a_leaf, LayoutView, SplitDirection};
use crate::lists::lemma_first_from;
use crate::locate::{lemma_workspace_index, pane_at, pane_named, reference_index, workspace_index};
use crate::model::{pane_ids, surface_ids, workspace_ids, SurfaceKind, WorkspaceView};
use crate::opening::{asks_before, requested_direction};
use crate::panes::{pane_created, pane_focused, pane_plan, pane_resized, panes_swapped};
use crate::placing::is_pane_id;
use crate::rpc::{param, text1, text3, text4, Readings};
use crate::soundness::{all_whole, lemma_pane_plan};
use crate::workspaces::{
    lemma_requested_workspace, requested_or_active_workspace, requested_workspace, splits_equalized,
    workspace_closed, workspace_created, workspace_renamed, workspace_selected,
};
use vstd::prelude::*;

verus! {

// ---------------------------------------------------------------------------
// Workspaces

/// What a request calls a workspace.
pub open spec fn called_workspace(params: Option<JsonView>) -> Option<Seq<char>> {
    text3(params, "workspace"@, "workspaceId"@, "workspace_id"@)
}

/// The workspace that a request must name is the one with the id that it names.
proof fn lemma_called_workspace(app: AppView, params: Option<JsonView>)
    ensures
        requested_workspace(app, params) matches Ok(i) ==> 0 <= i < app.state.workspaces.len() && (
        called_workspace(params) matches Some(n) && (reference_index(n, "workspace"@) is None
            ==> app.state.workspaces[i].id == n)),
        requested_or_active_workspace(app, params) matches Ok(i) ==> 0 <= i
            < app.state.workspaces.len(),
{
    lemma_requested_workspace(app, params);
    let ids = workspace_ids(app.state.workspaces);
    if let Some(n) = called_workspace(params) {
        lemma_workspace_index(app.state, n);
        lemma_first_from(ids, n, 0);
        if let Some(k) = workspace_index(app.state, n) {
            assert(ids[k] == app.state.workspaces[k].id);
            lemma_first_from(ids, app.state.workspaces[k].id, 0);
            if let Ok(i) = requested_workspace(app, params) {
                assert(ids[i] == app.state.workspaces[i].id);
            }
            lemma_workspace_index(app.state, app.state.workspaces[k].id);
        }
    }
    if let Some(id) = app.state.active_workspace_id {
        lemma_workspace_index(app.state, id);
    }
}

/// A new workspace stands behind the others, which stay as they are. It has the
/// title that the request gives it, one pane, and the focus. Where the request
/// says how a terminal starts it has that terminal; otherwise it has no surface.
pub proof fn law_a_new_workspace_stands_last(app: AppView, nanos: u64, params: Option<JsonView>)
    ensures
        ({
            let before = app.state.workspaces;
            let after = workspace_created(app, nanos, params).app.state;
            let w = after.workspaces.last();
            let command = text3(params, "command"@, "initial_command"@, "initialCommand"@);
            let directory = text3(params, "working_directory"@, "workingDirectory"@, "cwd"@);
            &&& after.workspaces.drop_last() == before
            &&& text1(params, "title"@) matches Some(title) ==> w.title == title
            &&& text1(params, "title"@) is None ==> w.title == "Workspace"@
            &&& w.panes.len() == 1
            &&& w.panes[0].workspace_id == w.id
            &&& w.layout.leaves() == seq![w.panes[0].id]
            &&& after.active_workspace_id == Some(w.id)
            &&& after.active_pane_id == Some(w.panes[0].id)
            &&& after.notifications == app.state.notifications
            &&& command is None && directory is None ==> w.surfaces.len() == 0
                && w.panes[0].surface_ids.len() == 0 && after.active_surface_id is None
            &&& command is Some || directory is Some ==> {
                &&& w.surfaces.len() == 1
                &&& w.surfaces[0].kind == SurfaceKind::Terminal
                &&& w.surfaces[0].initial_command == command
                &&& w.surfaces[0].working_directory == directory
                &&& w.surfaces[0].pane_id == w.panes[0].id
                &&& w.surfaces[0].workspace_id == w.id
                &&& w.panes[0].surface_ids == seq![w.surfaces[0].id]
                &&& w.panes[0].active_surface_id == Some(w.surfaces[0].id)
                &&& after.active_surface_id == Some(w.surfaces[0].id)
            }
        }),
{
    let after = workspace_created(app, nanos, params).app.state;
    assert(after.workspaces.drop_last() =~= app.state.workspaces);
}

/// Selecting a workspace gives the focus to the one that is named, to its first
/// pane and its first surface, and changes nothing else.
pub proof fn law_a_selected_workspace_has_the_focus(app: AppView, params: Option<JsonView>)
    requires
        workspace_selected(app, params).step matches StepView::Done(Ok(_)),
    ensures
        ({
            let after = workspace_selected(app, params).app.state;
            &&& after.workspaces == app.state.workspaces
            &&& after.notifications == app.state.notifications
            &&& called_workspace(params) matches Some(n) && (reference_index(n, "workspace"@) is None
                ==> after.active_workspace_id == Some(n))
            &&& exists|i: int|
                0 <= i < after.workspaces.len() && after.active_workspace_id == Some(
                    (#[trigger] after.workspaces[i]).id,
                ) && (after.workspaces[i].panes.len() > 0 ==> after.active_pane_id == Some(
                    after.workspaces[i].panes[0].id,
                )) && (after.workspaces[i].surfaces.len() > 0 ==> after.active_surface_id == Some(
                    after.workspaces[i].surfaces[0].id,
                ))
        }),
{
    lemma_called_workspace(app, params);
    let i = requested_workspace(app, params)->Ok_0;
    let after = workspace_selected(app, params).app.state;
    assert(after.active_workspace_id == Some(after.workspaces[i].id));
}

/// Closing a workspace takes away the one that is named and no other. The focus
/// stays where it is, unless it was there: then the first of the others has it.
pub proof fn law_a_closed_workspace_is_gone(app: AppView, params: Option<JsonView>)
    requires
        workspace_closed(app, params).step matches StepView::Done(Ok(_)),
    ensures
        ({
            let before = app.state;
            let after = workspace_closed(app, params).app.state;
            exists|i: int|
                #![trigger before.workspaces[i]]
                {
                    &&& 0 <= i < before.workspaces.len()
                    &&& called_workspace(params) matches Some(n) && (reference_index(
                        n,
                        "workspace"@,
                    ) is None ==> before.workspaces[i].id == n)
                    &&& after.workspaces == before.workspaces.take(i) + before.workspaces.skip(i + 1)
                    &&& after.notifications == before.notifications
                    &&& before.active_workspace_id != Some(before.workspaces[i].id) ==> {
                        &&& after.active_workspace_id == before.active_workspace_id
                        &&& after.active_pane_id == before.active_pane_id
                        &&& after.active_surface_id == before.active_surface_id
                    }
                    &&& before.active_workspace_id == Some(before.workspaces[i].id) ==> {
                        let first = after.workspaces[0];
                        &&& after.active_workspace_id == Some(first.id)
                        &&& first.panes.len() > 0 ==> after.active_pane_id == Some(first.panes[0].id)
                        &&& first.surfaces.len() > 0 ==> after.active_surface_id == Some(
                            first.surfaces[0].id,
                        )
                    }
                }
        }),
{
    lemma_called_workspace(app, params);
    let i = requested_workspace(app, params)->Ok_0;
    let before = app.state.workspaces;
    assert(before.remove(i) =~= before.take(i) + before.skip(i + 1));
    assert(before[i] == app.state.workspaces[i]);
}

/// Renaming a workspace gives it the title that the request says, and changes
/// nothing else; where the request names no workspace it is about the active one.
pub proof fn law_a_renamed_workspace_has_its_title(app: AppView, params: Option<JsonView>)
    requires
        workspace_renamed(app, params).step matches StepView::Done(Ok(_)),
    ensures
        ({
            let before = app.state.workspaces;
            let after = workspace_renamed(app, params).app.state;
            &&& after.active_workspace_id == app.state.active_workspace_id
            &&& after.active_pane_id == app.state.active_pane_id
            &&& after.active_surface_id == app.state.active_surface_id
            &&& after.workspaces.len() == before.len()
            &&& exists|i: int|
                #![trigger before[i]]
                {
                    &&& 0 <= i < before.len()
                    &&& text1(params, "title"@) == Some(after.workspaces[i].title)
                    &&& after.workspaces[i] == (WorkspaceView {
                        title: after.workspaces[i].title,
                        ..before[i]
                    })
                    &&& forall|j: int|
                        0 <= j < before.len() && j != i ==> #[trigger] after.workspaces[j] == before[j]
                    &&& called_workspace(params) matches Some(n) ==> reference_index(
                        n,
                        "workspace"@,
                    ) is None && reference_index(before[i].id, "workspace"@) is None ==> before[i].id
                        == n
                    &&& called_workspace(params) is None ==> (app.state.active_workspace_id matches Some(
                        id,
                    ) && (reference_index(id, "workspace"@) is None ==> before[i].id == id))
                }
        }),
{
    lemma_called_workspace(app, params);
    let i = requested_or_active_workspace(app, params)->Ok_0;
    let before = app.state.workspaces;
    let ids = workspace_ids(before);
    if let Some(n) = called_workspace(params) {
        lemma_workspace_index(app.state, n);
        lemma_first_from(ids, n, 0);
        let k = workspace_index(app.state, n)->0;
        assert(ids[k] == before[k].id);
        lemma_workspace_index(app.state, before[k].id);
        lemma_first_from(ids, before[k].id, 0);
        assert(ids[i] == before[i].id);
    } else if let Some(id) = app.state.active_workspace_id {
        lemma_first_from(ids, id, 0);
        assert(ids[i] == before[i].id);
    }
    assert(before[i] == app.state.workspaces[i]);
}

/// Equalizing the splits of a workspace leaves its panes where they are and its
/// splits in their directions, puts every split in the middle, and changes
/// nothing else.
pub proof fn law_equalized_splits_stand_in_the_middle(app: AppView, params: Option<JsonView>)
    requires
        splits_equalized(app, params).step matches StepView::Done(Ok(_)),
    ensures
        ({
            let before = app.state.workspaces;
            let after = splits_equalized(app, params).app.state.workspaces;
            &&& after.len() == before.len()
            &&& exists|i: int|
                #![trigger before[i]]
                {
                    &&& 0 <= i < before.len()
                    &&& is_evened(before[i].layout, after[i].layout)
                    &&& after[i] == (WorkspaceView { layout: after[i].layout, ..before[i] })
                    &&& forall|j: int|
                        0 <= j < before.len() && j != i ==> #[trigger] after[j] == before[j]
                }
        }),
{
    lemma_called_workspace(app, params);
    let i = requested_or_active_workspace(app, params)->Ok_0;
    lemma_evened(app.state.workspaces[i].layout);
    assert(app.state.workspaces[i] == app.state.workspaces[i]);
}

/// Whether a layout is another one with every split in the middle.
pub open spec fn is_evened(before: LayoutView, after: LayoutView) -> bool
    decreases before,
{
    match (before, after) {
        (LayoutView::Leaf { pane: a }, LayoutView::Leaf { pane: b }) => a == b,
        (
            LayoutView::Split { direction: d, ratio: r, first: a, second: b },
            LayoutView::Split { direction, ratio, first, second },
        ) => {
            &&& direction == d
            &&& ratio == 0x3FE0_0000_0000_0000u64
            &&& is_evened(*a, *first)
            &&& is_evened(*b, *second)
        },
        _ => false,
    }
}

/// Equalizing evens a layout.
proof fn lemma_evened(l: LayoutView)
    ensures
        is_evened(l, l.equalize()),
    decreases l,
{
    match l {
        LayoutView::Leaf { pane } => {},
        LayoutView::Split { direction, ratio, first, second } => {
            lemma_evened(*first);
            lemma_evened(*second);
        },
    }
}

// ---------------------------------------------------------------------------
// New panes

/// Whether a layout has a split in a direction, in the middle, between two panes.
pub open spec fn divides(l: LayoutView, way: SplitDirection, a: Seq<char>, b: Seq<char>) -> bool
    decreases l,
{
    match l {
        LayoutView::Leaf { pane } => false,
        LayoutView::Split { direction, ratio, first, second } => {
            ||| direction == way && ratio == 0x3FE0_0000_0000_0000u64 && *first == (LayoutView::Leaf {
                pane: a,
            }) && *second == (LayoutView::Leaf { pane: b })
            ||| divides(*first, way, a, b)
            ||| divides(*second, way, a, b)
        },
    }
}

/// The leaves of two leaves.
proof fn lemma_two_leaves(way: SplitDirection, a: Seq<char>, b: Seq<char>)
    ensures
        half_split(way, LayoutView::Leaf { pane: a }, LayoutView::Leaf { pane: b }).leaves() == seq![
            a,
            b,
        ],
        divides(
            half_split(way, LayoutView::Leaf { pane: a }, LayoutView::Leaf { pane: b }),
            way,
            a,
            b,
        ),
{
    reveal_with_fuel(LayoutView::leaves, 3);
    assert(half_split(way, LayoutView::Leaf { pane: a }, LayoutView::Leaf { pane: b }).leaves()
        =~= seq![a, b]);
}

/// The place at which a leaf that is split gets its neighbour.
spec fn beside(k: int, ahead: bool) -> int {
    if ahead {
        k
    } else {
        k + 1
    }
}

/// One id more in the first of two lists, and in the second.
proof fn lemma_insert_in_both(a: Seq<Seq<char>>, b: Seq<Seq<char>>, at: int, id: Seq<char>)
    ensures
        0 <= at <= a.len() ==> a.insert(at, id) + b == (a + b).insert(at, id),
        0 <= at <= b.len() ==> a + b.insert(at, id) == (a + b).insert(a.len() + at, id),
{
    if 0 <= at <= a.len() {
        assert(a.insert(at, id) + b =~= (a + b).insert(at, id));
    }
    if 0 <= at <= b.len() {
        assert(a + b.insert(at, id) =~= (a + b).insert(a.len() + at, id));
    }
}

/// Where the leaves of a layout stand after one of them was split.
proof fn lemma_split_at(
    l: LayoutView,
    target: Seq<char>,
    added: Seq<char>,
    way: SplitDirection,
    ahead: bool,
) -> (k: int)
    requires
        l.has(target),
    ensures
        0 <= k < l.leaves().len(),
        l.leaves()[k] == target,
        l.split_at(target, added, way, ahead).leaves() == l.leaves().insert(beside(k, ahead), added),
    decreases l,
{
    match l {
        LayoutView::Leaf { pane } => {
            lemma_two_leaves(way, added, target);
            lemma_two_leaves(way, target, added);
            assert(seq![target].insert(0, added) =~= seq![added, target]);
            assert(seq![target].insert(1, added) =~= seq![target, added]);
            0
        },
        LayoutView::Split { direction, ratio, first, second } => {
            let a = first.leaves();
            let b = second.leaves();
            if first.has(target) {
                let k = lemma_split_at(*first, target, added, way, ahead);
                lemma_insert_in_both(a, b, beside(k, ahead), added);
                k
            } else {
                let k = lemma_split_at(*second, target, added, way, ahead);
                lemma_insert_in_both(a, b, beside(k, ahead), added);
                a.len() + k
            }
        },
    }
}

/// A leaf that is split shares its area with its neighbour.
proof fn lemma_split_divides(
    l: LayoutView,
    target: Seq<char>,
    added: Seq<char>,
    way: SplitDirection,
    ahead: bool,
)
    requires
        l.has(target),
    ensures
        ahead ==> divides(l.split_at(target, added, way, ahead), way, added, target),
        !ahead ==> divides(l.split_at(target, added, way, ahead), way, target, added),
    decreases l,
{
    match l {
        LayoutView::Leaf { pane } => {
            lemma_two_leaves(way, added, target);
            lemma_two_leaves(way, target, added);
        },
        LayoutView::Split { direction, ratio, first, second } => {
            if first.has(target) {
                lemma_split_divides(*first, target, added, way, ahead);
            } else {
                lemma_split_divides(*second, target, added, way, ahead);
            }
        },
    }
}

/// A pane that is added beside another shares its area in halves, in the
/// direction that is asked for, ahead of it or behind it; where the other one is
/// not in the layout, the new pane stands behind everything.
pub proof fn law_a_new_pane_stands_beside_its_target(
    l: LayoutView,
    target: Seq<char>,
    added: Seq<char>,
    way: SplitDirection,
    ahead: bool,
)
    ensures
        ({
            let new = l.insert(Some(target), added, way, ahead);
            &&& l.leaves().contains(target) && ahead ==> divides(new, way, added, target)
                && exists|k: int|
                0 <= k < l.leaves().len() && l.leaves()[k] == target && new.leaves()
                    == #[trigger] l.leaves().insert(k, added)
            &&& l.leaves().contains(target) && !ahead ==> divides(new, way, target, added)
                && exists|k: int|
                0 < k <= l.leaves().len() && l.leaves()[k - 1] == target && new.leaves()
                    == #[trigger] l.leaves().insert(k, added)
            &&& !l.leaves().contains(target) ==> new.leaves() == l.leaves().push(added)
        }),
{
    law_has_is_a_leaf(l, target);
    if l.has(target) {
        let k = lemma_split_at(l, target, added, way, ahead);
        lemma_split_divides(l, target, added, way, ahead);
        if ahead {
            assert(l.insert(Some(target), added, way, ahead).leaves() == l.leaves().insert(k, added));
        } else {
            assert(l.insert(Some(target), added, way, ahead).leaves() == l.leaves().insert(
                k + 1,
                added,
            ));
        }
    } else {
        reveal_with_fuel(LayoutView::leaves, 2);
        assert(l.insert(Some(target), added, way, ahead).leaves() =~= l.leaves().push(added));
    }
}

/// The words for the directions: a pane goes to the left of another or above it,
/// to the right or below; to the right where the request does not say.
pub proof fn law_directions_mean_what_they_say(params: Option<JsonView>)
    ensures
        ({
            let word = text1(params, "direction"@);
            let across = requested_direction(params) == Ok::<
                SplitDirection,
                crate::rpc::ErrorView,
            >(SplitDirection::Horizontal);
            let along = requested_direction(params) == Ok::<
                SplitDirection,
                crate::rpc::ErrorView,
            >(SplitDirection::Vertical);
            &&& word is None ==> across && !asks_before(params)
            &&& word == Some("left"@) ==> across && asks_before(params)
            &&& word == Some("right"@) ==> across && !asks_before(params)
            &&& word == Some("horizontal"@) ==> across && !asks_before(params)
            &&& word == Some("up"@) ==> along && asks_before(params)
            &&& word == Some("top"@) ==> along && asks_before(params)
            &&& word == Some("down"@) ==> along && !asks_before(params)
            &&& word == Some("bottom"@) ==> along && !asks_before(params)
            &&& word == Some("vertical"@) ==> along && !asks_before(params)
        }),
{
    reveal_strlit("left");
    reveal_strlit("right");
    reveal_strlit("horizontal");
    reveal_strlit("up");
    reveal_strlit("top");
    reveal_strlit("down");
    reveal_strlit("bottom");
    reveal_strlit("vertical");
    assert("left"@.len() == 4 && "right"@.len() == 5 && "horizontal"@.len() == 10);
    assert("up"@.len() == 2 && "top"@.len() == 3 && "down"@.len() == 4 && "bottom"@.len() == 6);
    assert("vertical"@.len() == 8 && "left"@[0] == 'l' && "down"@[0] == 'd');
}

/// A request for a new pane adds one pane with one new surface of the kind that
/// it asks for, to one workspace, and gives it the focus. The pane stands beside
/// the one that is to be split, as the direction says.
pub proof fn law_a_new_pane_splits_its_target(app: AppView, nanos: u64, params: Option<JsonView>)
    requires
        pane_created(app, nanos, params).step matches StepView::Done(Ok(_)),
    ensures
        pane_plan(app.state, params) matches Ok(plan) && ({
            let before = app.state.workspaces;
            let after = pane_created(app, nanos, params).app.state;
            let w = before[plan.w];
            let now = after.workspaces[plan.w];
            let pane = now.panes.last();
            let surface = now.surfaces.last();
            let named = text3(params, "pane"@, "paneId"@, "pane_id"@);
            let by_surface = text3(params, "surface"@, "surfaceId"@, "surface_id"@);
            &&& now.panes.drop_last() == w.panes
            &&& now.surfaces.drop_last() == w.surfaces
            &&& now.id == w.id
            &&& now.title == w.title
            &&& pane.surface_ids == seq![surface.id]
            &&& pane.active_surface_id == Some(surface.id)
            &&& pane.workspace_id == w.id
            &&& surface.pane_id == pane.id
            &&& surface.workspace_id == w.id
            &&& after.active_workspace_id == Some(w.id)
            &&& after.active_pane_id == Some(pane.id)
            &&& after.active_surface_id == Some(surface.id)
            &&& after.workspaces.len() == before.len()
            &&& forall|v: int|
                0 <= v < before.len() && v != plan.w ==> #[trigger] after.workspaces[v] == before[v]
            &&& named is None && by_surface is None ==> plan.target == app.state.active_pane_id
            &&& plan.target matches Some(t) ==> pane_ids(w.panes).contains(t)
                && w.layout.leaves().contains(t) ==> {
                &&& asks_before(params) ==> divides(now.layout, plan.direction, pane.id, t)
                &&& !asks_before(params) ==> divides(now.layout, plan.direction, t, pane.id)
                &&& requested_direction(params) == Ok::<SplitDirection, crate::rpc::ErrorView>(
                    plan.direction,
                )
            }
        }),
{
    lemma_pane_plan(app.state, params);
    let plan = pane_plan(app.state, params)->Ok_0;
    let w = app.state.workspaces[plan.w];
    let now = pane_created(app, nanos, params).app.state.workspaces[plan.w];
    assert(now.panes.drop_last() =~= w.panes);
    assert(now.surfaces.drop_last() =~= w.surfaces);
    if let Some(t) = plan.target {
        law_a_new_pane_stands_beside_its_target(
            w.layout,
            t,
            now.panes.last().id,
            plan.direction,
            asks_before(params),
        );
        let ids = pane_ids(now.panes);
        if pane_ids(w.panes).contains(t) {
            let j = choose|j: int| 0 <= j < pane_ids(w.panes).len() && pane_ids(w.panes)[j] == t;
            assert(ids[j] == t);
        }
    }
}

// ---------------------------------------------------------------------------
// Panes

/// Giving a pane the focus gives it to what is on top of the pane too, and
/// changes nothing else.
pub proof fn law_a_focused_pane_has_the_focus(app: AppView, params: Option<JsonView>)
    requires
        pane_focused(app, params).step matches StepView::Done(Ok(_)),
    ensures
        ({
            let after = pane_focused(app, params).app.state;
            &&& after.workspaces == app.state.workspaces
            &&& after.notifications == app.state.notifications
            &&& exists|w: int, p: int|
                #![trigger app.state.workspaces[w].panes[p]]
                {
                    let pane = app.state.workspaces[w].panes[p];
                    &&& 0 <= w < app.state.workspaces.len()
                    &&& 0 <= p < app.state.workspaces[w].panes.len()
                    &&& after.active_pane_id == Some(pane.id)
                    &&& after.active_workspace_id == Some(pane.workspace_id)
                    &&& after.active_surface_id == pane.active_surface_id
                }
        }),
        all_whole(app.state.workspaces) ==> (text3(
            params,
            "pane"@,
            "paneId"@,
            "pane_id"@,
        ) matches Some(n) && (is_pane_id(app.state, n) ==> pane_focused(
            app,
            params,
        ).app.state.active_pane_id == Some(n))),
{
    let s = app.state;
    let n = text3(params, "pane"@, "paneId"@, "pane_id"@)->0;
    let id = pane_named(s, n)->Ok_0;
    crate::locate::lemma_pane_at(s, n);
    crate::locate::lemma_pane_at(s, id);
    let (w, p) = pane_at(s, id)->0;
    assert(s.workspaces[w].panes[p] == s.workspaces[w].panes[p]);
    if all_whole(s.workspaces) && is_pane_id(s, n) {
        crate::placing::lemma_called_pane(s, n);
    }
}

/// Panes that change places: the layout has each where the other was, and all
/// else of it stays. Where the focus moves along it goes to the target.
pub proof fn law_swapped_panes_change_places(app: AppView, params: Option<JsonView>)
    requires
        all_whole(app.state.workspaces),
        panes_swapped(app, params).step matches StepView::Done(Ok(_)),
    ensures
        ({
            let before = app.state.workspaces;
            let after = panes_swapped(app, params).app.state;
            let name = text3(params, "pane"@, "paneId"@, "pane_id"@);
            let other = text4(
                params,
                "target_pane"@,
                "targetPane"@,
                "target_pane_id"@,
                "targetPaneId"@,
            );
            &&& name is Some && other is Some
            &&& after.workspaces.len() == before.len()
            &&& is_pane_id(app.state, name->0) && is_pane_id(app.state, other->0) ==> exists|w: int|
                #![trigger before[w]]
                {
                    &&& 0 <= w < before.len()
                    &&& after.workspaces[w].panes == before[w].panes
                    &&& after.workspaces[w].surfaces == before[w].surfaces
                    &&& are_exchanged(
                        before[w].layout,
                        after.workspaces[w].layout,
                        name->0,
                        other->0,
                    )
                    &&& forall|v: int|
                        0 <= v < before.len() && v != w ==> #[trigger] after.workspaces[v] == before[v]
                }
            &&& param(params, "focus"@) == Some(JsonView::Bool(false)) ==> after.active_pane_id
                == app.state.active_pane_id && after.active_surface_id
                == app.state.active_surface_id
            &&& param(params, "focus"@) is None && is_pane_id(app.state, other->0)
                ==> after.active_pane_id == other
        }),
{
    let s = app.state;
    let name = text3(params, "pane"@, "paneId"@, "pane_id"@)->0;
    let other = text4(
        params,
        "target_pane"@,
        "targetPane"@,
        "target_pane_id"@,
        "targetPaneId"@,
    )->0;
    crate::locate::lemma_pane_at(s, name);
    crate::locate::lemma_pane_at(s, other);
    let a = pane_named(s, name)->Ok_0;
    let b = pane_named(s, other)->Ok_0;
    crate::locate::lemma_pane_at(s, a);
    crate::locate::lemma_pane_at(s, b);
    let (w, _) = pane_at(s, a)->0;
    if is_pane_id(s, name) {
        crate::placing::lemma_called_pane(s, name);
    }
    if is_pane_id(s, other) {
        crate::placing::lemma_called_pane(s, other);
    }
    lemma_exchanged(s.workspaces[w].layout, a, b);
    assert(s.workspaces[w] == s.workspaces[w]);
}

/// Whether a layout is another one with two panes in each other's places.
pub open spec fn are_exchanged(
    before: LayoutView,
    after: LayoutView,
    a: Seq<char>,
    b: Seq<char>,
) -> bool
    decreases before,
{
    match (before, after) {
        (LayoutView::Leaf { pane: old_pane }, LayoutView::Leaf { pane: new_pane }) => {
            &&& old_pane == a ==> new_pane == b
            &&& old_pane == b ==> new_pane == a
            &&& old_pane != a && old_pane != b ==> new_pane == old_pane
        },
        (
            LayoutView::Split { direction: d, ratio: r, first: x, second: y },
            LayoutView::Split { direction, ratio, first, second },
        ) => {
            &&& direction == d
            &&& ratio == r
            &&& are_exchanged(*x, *first, a, b)
            &&& are_exchanged(*y, *second, a, b)
        },
        _ => false,
    }
}

/// Swapping exchanges two panes.
proof fn lemma_exchanged(l: LayoutView, a: Seq<char>, b: Seq<char>)
    ensures
        are_exchanged(l, l.swap(a, b), a, b),
    decreases l,
{
    match l {
        LayoutView::Leaf { pane } => {},
        LayoutView::Split { direction, ratio, first, second } => {
            lemma_exchanged(*first, a, b);
            lemma_exchanged(*second, a, b);
        },
    }
}

/// Resizing sets the ratio of the outermost split of the workspace of a pane: to
/// what was read of the request, kept between a tenth and nine tenths; to a half
/// where it says nothing. All else stays.
pub proof fn law_a_resized_split_has_its_ratio(
    app: AppView,
    params: Option<JsonView>,
    readings: Readings,
)
    requires
        pane_resized(app, params, readings).step matches StepView::Done(Ok(_)),
    ensures
        ({
            let before = app.state.workspaces;
            let after = pane_resized(app, params, readings).app.state;
            &&& after.workspaces.len() == before.len()
            &&& after.active_pane_id == app.state.active_pane_id
            &&& exists|w: int|
                #![trigger before[w]]
                {
                    &&& 0 <= w < before.len()
                    &&& before[w].layout matches LayoutView::Split {
                        direction: d,
                        ratio: r,
                        first: a,
                        second: b,
                    } && after.workspaces[w].layout matches LayoutView::Split {
                        direction,
                        ratio,
                        first,
                        second,
                    } && direction == d && first == a && second == b && ({
                        let least = 0x3FB9_9999_9999_999Au64;
                        let most = 0x3FEC_CCCC_CCCC_CCCDu64;
                        let said = if param(params, "ratio"@) is Some {
                            readings.ratio
                        } else if param(params, "percent"@) is Some {
                            readings.percent
                        } else {
                            None
                        };
                        &&& said is None ==> ratio == 0x3FE0_0000_0000_0000u64
                        &&& said matches Some(bits) ==> {
                            &&& least <= bits <= most ==> ratio == bits
                            &&& bits < least ==> ratio == least
                            &&& most < bits <= 0x7FF0_0000_0000_0000u64 ==> ratio == most
                        }
                    })
                    &&& after.workspaces[w] == (WorkspaceView {
                        layout: after.workspaces[w].layout,
                        ..before[w]
                    })
                    &&& forall|v: int|
                        0 <= v < before.len() && v != w ==> #[trigger] after.workspaces[v] == before[v]
                }
        }),
{
    let s = app.state;
    let id = crate::panes::given_or_active_pane(s, params)->Ok_0->0;
    crate::locate::lemma_pane_at(s, id);
    let (w, _) = pane_at(s, id)->0;
    assert(s.workspaces[w] == s.workspaces[w]);
}

} // verus!
