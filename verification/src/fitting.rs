//! How layouts follow their panes, and in which order texts stand.

use crate::app_state::AppView;
use crate::host::StepView;
use crate::json::{lemma_with_get, JsonView};
use crate::layout::{law_has_is_a_leaf, LayoutView, SplitDirection};
use crate::locate::pane_at;
use crate::notifications::notifications_cleared;
use crate::panes::{last_pane_told, pane_resized, pane_surfaces_told, stack_from};
use crate::placing::{is_pane_id, lemma_called_pane};
use crate::rpc::{text3, Readings};
use crate::soundness::all_whole;
use crate::summary::pane_summary;
use crate::telling::lemma_answer_keys;
use crate::text::before;
use vstd::prelude::*;

verus! {

// ---------------------------------------------------------------------------
// Layouts

/// Where every pane stays, the layout stays as it is: its directions, its ratios
/// and its halves.
pub proof fn law_a_layout_of_panes_that_stay_stays(l: LayoutView, panes: Seq<Seq<char>>)
    requires
        forall|i: int| 0 <= i < l.leaves().len() ==> panes.contains(#[trigger] l.leaves()[i]),
    ensures
        l.prune(panes) == Some(l),
    decreases l,
{
    match l {
        LayoutView::Leaf { pane } => {
            assert(l.leaves()[0] == pane);
        },
        LayoutView::Split { direction, ratio, first, second } => {
            let a = first.leaves();
            let b = second.leaves();
            assert(l.leaves() == a + b);
            assert forall|i: int| 0 <= i < a.len() implies panes.contains(#[trigger] a[i]) by {
                assert(l.leaves()[i] == a[i]);
            }
            assert forall|i: int| 0 <= i < b.len() implies panes.contains(#[trigger] b[i]) by {
                assert(l.leaves()[a.len() + i] == b[i]);
            }
            law_a_layout_of_panes_that_stay_stays(*first, panes);
            law_a_layout_of_panes_that_stay_stays(*second, panes);
        },
    }
}

/// A pane that was put in by a split is gone again when it is taken out.
proof fn lemma_split_and_prune(
    l: LayoutView,
    target: Seq<char>,
    added: Seq<char>,
    way: SplitDirection,
    ahead: bool,
    panes: Seq<Seq<char>>,
)
    requires
        !panes.contains(added),
        forall|i: int| 0 <= i < l.leaves().len() ==> panes.contains(#[trigger] l.leaves()[i]),
    ensures
        l.split_at(target, added, way, ahead).prune(panes) == Some(l),
    decreases l,
{
    law_a_layout_of_panes_that_stay_stays(l, panes);
    match l {
        LayoutView::Leaf { pane } => {
            let leaf = LayoutView::Leaf { pane: added };
            assert(leaf.prune(panes) is None);
            reveal_with_fuel(LayoutView::prune, 3);
        },
        LayoutView::Split { direction, ratio, first, second } => {
            let a = first.leaves();
            let b = second.leaves();
            assert(l.leaves() == a + b);
            assert forall|i: int| 0 <= i < a.len() implies panes.contains(#[trigger] a[i]) by {
                assert(l.leaves()[i] == a[i]);
            }
            assert forall|i: int| 0 <= i < b.len() implies panes.contains(#[trigger] b[i]) by {
                assert(l.leaves()[a.len() + i] == b[i]);
            }
            law_a_layout_of_panes_that_stay_stays(*first, panes);
            law_a_layout_of_panes_that_stay_stays(*second, panes);
            if first.has(target) {
                lemma_split_and_prune(*first, target, added, way, ahead, panes);
            } else {
                lemma_split_and_prune(*second, target, added, way, ahead, panes);
            }
        },
    }
}

/// A new pane that is taken out again leaves the layout as it was before; and
/// where the pane that was to be split is not there, it stands behind all the
/// others.
pub proof fn law_a_new_pane_can_be_taken_out_again(
    l: LayoutView,
    target: Option<Seq<char>>,
    added: Seq<char>,
    way: SplitDirection,
    ahead: bool,
)
    requires
        !l.leaves().contains(added),
    ensures
        l.insert(target, added, way, ahead).prune(l.leaves()) == Some(l),
        (target matches Some(t) ==> !l.leaves().contains(t)) ==> (l.insert(
            target,
            added,
            way,
            ahead,
        ) matches LayoutView::Split { direction, ratio, first, second } && direction == way
            && *first
            == l && *second == (LayoutView::Leaf { pane: added }) && ratio
            == 0x3FE0_0000_0000_0000u64),
{
    let panes = l.leaves();
    law_a_layout_of_panes_that_stay_stays(l, panes);
    if let Some(t) = target {
        law_has_is_a_leaf(l, t);
        if l.has(t) {
            lemma_split_and_prune(l, t, added, way, ahead, panes);
        }
    }
    let leaf = LayoutView::Leaf { pane: added };
    assert(leaf.prune(panes) is None);
    reveal_with_fuel(LayoutView::prune, 2);
}

/// Resizing is in the workspace of the pane that the request names, or of the
/// active one.
pub proof fn law_resizing_is_where_the_pane_is(
    app: AppView,
    params: Option<JsonView>,
    readings: Readings,
    id: Seq<char>,
    v: int,
)
    requires
        all_whole(app.state.workspaces),
        pane_resized(app, params, readings).step matches StepView::Done(Ok(_)),
        is_pane_id(app.state, id),
        text3(params, "pane"@, "paneId"@, "pane_id"@) == Some(id) || (text3(
            params,
            "pane"@,
            "paneId"@,
            "pane_id"@,
        ) is None && app.state.active_pane_id == Some(id)),
        0 <= v < app.state.workspaces.len(),
        forall|p: int|
            0 <= p < app.state.workspaces[v].panes.len() ==> (
            #[trigger] app.state.workspaces[v].panes[p]).id != id,
    ensures
        pane_resized(app, params, readings).app.state.workspaces[v] == app.state.workspaces[v],
{
    lemma_called_pane(app.state, id);
    let (w, p) = pane_at(app.state, id)->0;
    assert(app.state.workspaces[w].panes[p].id == id);
}

// ---------------------------------------------------------------------------
// Panes

/// The active pane, where no other has its id, is told: its id, its workspace and
/// what it is.
pub proof fn law_the_active_pane_is_told(app: AppView, w: int, i: int)
    requires
        all_whole(app.state.workspaces),
        0 <= w < app.state.workspaces.len(),
        0 <= i < app.state.workspaces[w].panes.len(),
        app.state.active_pane_id == Some(app.state.workspaces[w].panes[i].id),
        forall|v: int, j: int|
            0 <= v < app.state.workspaces.len() && 0 <= j < app.state.workspaces[v].panes.len()
                && (v, j)
                != (w, i) ==> (#[trigger] app.state.workspaces[v].panes[j]).id
                != app.state.workspaces[w].panes[i].id,
    ensures
        ({
            let workspace = app.state.workspaces[w];
            let pane = workspace.panes[i];
            last_pane_told(app) matches Ok(v) && v.get("pane_id"@) == Some(JsonView::Text(pane.id))
                && v.get("workspace_id"@) == Some(JsonView::Text(workspace.id)) && v.get("pane"@)
                == Some(pane_summary(app, workspace, i, pane))
        }),
        pane_surfaces_told(app, None) matches Ok(v) && v.get("pane_id"@) == Some(
            JsonView::Text(app.state.workspaces[w].panes[i].id),
        ) && v.get("workspace_id"@) == Some(JsonView::Text(app.state.workspaces[w].id)) && v.get(
            "surfaces"@,
        ) == Some(
            JsonView::Array(
                stack_from(
                    app,
                    app.state.workspaces[w],
                    app.state.workspaces[w].panes[i].surface_ids,
                    0,
                ),
            ),
        ),
{
    broadcast use lemma_with_get;

    lemma_answer_keys();
    let id = app.state.workspaces[w].panes[i].id;
    crate::naming::law_an_id_names_its_pane(app.state, w, i);
    crate::locate::lemma_pane_at(app.state, id);
    crate::locate::lemma_pane_place(app.state.workspaces, id, 0);
    if let Some((v, j)) = pane_at(app.state, id) {
        assert(app.state.workspaces[v].panes[j].id == id);
    }
    if let Some((v, j)) = crate::locate::pane_place(app.state.workspaces, id, 0) {
        assert(app.state.workspaces[v].panes[j].id == id);
    }
}

/// Clearing says how many notifications there were.
pub proof fn law_clearing_says_how_many(app: AppView)
    requires
        app.state.notifications.len() <= u64::MAX,
    ensures
        notifications_cleared(app).step matches StepView::Done(Ok(v))
            && v.get("cleared"@) matches Some(
            JsonView::Unsigned(n),
        ) && n == app.state.notifications.len(),
        notifications_cleared(app).app.state.workspaces == app.state.workspaces,
{
    broadcast use lemma_with_get;

    reveal_strlit("cleared");
}

// ---------------------------------------------------------------------------
// Order

/// Texts stand in the order of the first characters in which they differ, and a
/// text before those that go on from it; no text stands before itself.
pub proof fn law_texts_are_ordered_by_their_characters(
    common: Seq<char>,
    a: char,
    b: char,
    s: Seq<char>,
    t: Seq<char>,
)
    ensures
        a < b ==> before(common + (seq![a] + s), common + (seq![b] + t)),
        a < b ==> !before(common + (seq![b] + t), common + (seq![a] + s)),
        before(common, common + (seq![a] + s)),
        !before(common + (seq![a] + s), common),
        !before(common, common),
    decreases common.len(),
{
    let x = common + (seq![a] + s);
    let y = common + (seq![b] + t);
    if common.len() > 0 {
        let rest = common.skip(1);
        law_texts_are_ordered_by_their_characters(rest, a, b, s, t);
        assert(x.skip(1) =~= rest + (seq![a] + s));
        assert(y.skip(1) =~= rest + (seq![b] + t));
        assert(x[0] == common[0] && y[0] == common[0]);
    } else {
        assert(x[0] == a && y[0] == b);
    }
}

} // verus!
