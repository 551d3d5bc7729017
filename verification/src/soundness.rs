//! What every request keeps: the workspaces stay whole.

use crate::acting::{element_after, form_value, gestured, with_text, ActView};
use crate::app_state::AppView;
use crate::automation::{automated, automation_act, automation_place, load_act, showing};
use crate::browsing::{
    browser_moved, browser_place, gone_along, gone_to, history_stepped, navigated, webview_focused, HistoryStep,
};
use crate::dispatch::{command_line_turn, line_turn, naming_workspace};
use crate::host::ReplyView;
use crate::ids::{hex_digits, lemma_hex_digits_len, uuid};
use crate::input::{history_cleared, lemma_target_place, sent, surface_cleared, Sending};
use crate::json::{hex_char, JsonView};
use crate::keyed::{in_order, lookup};
use crate::layout::{
    law_equalize, law_insert_adds_one_leaf, law_prune_keeps_the_listed_leaves, law_resize_keeps_leaves,
    law_swap_exchanges_leaves, pruned_leaves, swapped, LayoutView,
};
use crate::lists::{first_at, lemma_first_from, without};
use crate::locate::{
    lemma_current_index, lemma_pane_at, lemma_pane_place, lemma_surface_at, lemma_surface_place, pane_at,
    pane_place, reference_index, surface_at, surface_named, surface_place,
};
use crate::model::{pane_ids, surface_ids, workspace_ids, PaneView, StateView, SurfaceView, WorkspaceView};
use crate::moving::{
    insertion, move_plan, pane_minus, pane_plus, state_minus, surface_moved, surface_moved_state,
    MovePlanView,
};
use crate::notifications::{without_notifications, Clock};
use crate::page::{
    law_put_element_keeps_form, law_read_page_is_well_formed, ElementView, PageView,
};
use crate::page_json::{law_loaded_page_is_well_formed, page_in};
use crate::panes::{
    pane_created, pane_focused, pane_plan, pane_resized, panes_exchanged, panes_swapped, with_new_pane,
    PanePlanView,
};
use crate::routing::{
    browser_turn, method_turn, notification_turn, pane_turn, surface_turn, workspace_turn,
};
use crate::rpc::{Readings, RequestView};
use crate::script::GestureView;
use crate::surfaces::{
    focused_by_id, lemma_named_surface, occupied, pane_without, panes_without, surface_closed,
    surface_created, surface_focused, surface_plan, surface_raised, with_new_surface, workspace_without,
};
use crate::system::SurroundingsView;
use crate::text::{after_first_word, first_word};
use crate::workspaces::{
    empty_workspace, selected_by_id, terminal_workspace, with_terminal_workspace, workspace_created,
};
use vstd::prelude::*;

verus! {

// ---------------------------------------------------------------------------
// Whole workspaces

/// Whether a surface stands on a pane of a workspace.
pub open spec fn stands(w: WorkspaceView, id: Seq<char>) -> bool {
    exists|p: int| 0 <= p < w.panes.len() && (#[trigger] w.panes[p]).surface_ids.contains(id)
}

/// Whether the layout of a workspace shows its panes, all of them and nothing
/// else.
pub open spec fn shows_its_panes(w: WorkspaceView) -> bool {
    &&& forall|i: int|
        0 <= i < w.layout.leaves().len() ==> pane_ids(w.panes).contains(
            #[trigger] w.layout.leaves()[i],
        )
    &&& forall|p: int|
        0 <= p < w.panes.len() ==> w.layout.leaves().contains((#[trigger] w.panes[p]).id)
}

/// Whether no pane and no surface is called like a reference to one.
pub open spec fn is_named_plainly(w: WorkspaceView) -> bool {
    &&& forall|p: int|
        0 <= p < w.panes.len() ==> reference_index((#[trigger] w.panes[p]).id, "pane"@) is None
    &&& forall|i: int|
        0 <= i < w.surfaces.len() ==> reference_index(
            (#[trigger] w.surfaces[i]).id,
            "surface"@,
        ) is None
}

/// Whether every surface stands on a pane, and its page is well-formed.
pub open spec fn surfaces_stand(w: WorkspaceView) -> bool {
    forall|i: int|
        0 <= i < w.surfaces.len() ==> stands(w, (#[trigger] w.surfaces[i]).id)
            && w.surfaces[i].browser_state.well_formed()
}

/// Whether a workspace is whole: it has a pane, its layout shows its panes, its
/// surfaces stand on them, and they have plain names.
pub open spec fn is_whole(w: WorkspaceView) -> bool {
    &&& w.panes.len() > 0
    &&& shows_its_panes(w)
    &&& surfaces_stand(w)
    &&& is_named_plainly(w)
}

/// Whether no two surfaces have the same id.
pub open spec fn are_distinct(list: Seq<WorkspaceView>) -> bool {
    forall|w: int, i: int, v: int, j: int|
        0 <= w < list.len() && 0 <= v < list.len() && 0 <= i < list[w].surfaces.len() && 0 <= j
            < list[v].surfaces.len() && (#[trigger] list[w].surfaces[i]).id == (
        #[trigger] list[v].surfaces[j]).id ==> w == v && i == j
}

/// Whether there is a workspace, all are whole, and no two surfaces have the
/// same id.
pub open spec fn all_whole(list: Seq<WorkspaceView>) -> bool {
    &&& list.len() > 0
    &&& forall|w: int| 0 <= w < list.len() ==> is_whole(#[trigger] list[w])
    &&& are_distinct(list)
}

/// Whether a surface with an id is there.
pub open spec fn is_used(list: Seq<WorkspaceView>, id: Seq<char>) -> bool {
    exists|w: int, i: int|
        0 <= w < list.len() && 0 <= i < list[w].surfaces.len() && (
        #[trigger] list[w].surfaces[i]).id == id
}

/// Whether an id is that of one of some surfaces, or of none at all.
pub open spec fn may_be_brought(
    list: Seq<WorkspaceView>,
    from: Seq<SurfaceView>,
    id: Seq<char>,
) -> bool {
    (exists|k: int| 0 <= k < from.len() && (#[trigger] from[k]).id == id) || !is_used(list, id)
}

/// Whether no two surfaces of a workspace have the same id, and each has one
/// that a surface of another had, or that no surface had.
pub open spec fn brings_no_double(
    list: Seq<WorkspaceView>,
    from: Seq<SurfaceView>,
    to: Seq<SurfaceView>,
) -> bool {
    &&& forall|i: int, j: int|
        0 <= i < to.len() && 0 <= j < to.len() && (#[trigger] to[i]).id == (#[trigger] to[j]).id
            ==> i == j
    &&& forall|i: int|
        0 <= i < to.len() ==> #[trigger] may_be_brought(list, from, to[i].id)
}

/// Another whole workspace in the place of one keeps all whole.
proof fn lemma_replaced(list: Seq<WorkspaceView>, w: int, now: WorkspaceView)
    requires
        all_whole(list),
        0 <= w < list.len(),
        is_whole(now),
        brings_no_double(list, list[w].surfaces, now.surfaces),
    ensures
        all_whole(list.update(w, now)),
{
    let after = list.update(w, now);
    assert forall|v: int| 0 <= v < after.len() implies is_whole(#[trigger] after[v]) by {
        if v != w {
            assert(after[v] == list[v]);
        }
    }
    assert forall|a: int, i: int, b: int, j: int|
        0 <= a < after.len() && 0 <= b < after.len() && 0 <= i < after[a].surfaces.len() && 0 <= j
            < after[b].surfaces.len() && (#[trigger] after[a].surfaces[i]).id == (
        #[trigger] after[b].surfaces[j]).id implies a == b && i == j by {
        lemma_no_double(list, w, now, a, i, b, j);
    }
}

/// Two surfaces with one id are the same surface.
proof fn lemma_no_double(
    list: Seq<WorkspaceView>,
    w: int,
    now: WorkspaceView,
    a: int,
    i: int,
    b: int,
    j: int,
)
    requires
        all_whole(list),
        0 <= w < list.len(),
        brings_no_double(list, list[w].surfaces, now.surfaces),
        0 <= a < list.len(),
        0 <= b < list.len(),
        0 <= i < list.update(w, now)[a].surfaces.len(),
        0 <= j < list.update(w, now)[b].surfaces.len(),
        list.update(w, now)[a].surfaces[i].id == list.update(w, now)[b].surfaces[j].id,
    ensures
        a == b && i == j,
{
    let from = list[w].surfaces;
    if a == w && b == w {
        assert(now.surfaces[i].id == now.surfaces[j].id);
    } else if a == w {
        let id = now.surfaces[i].id;
        assert(list[b].surfaces[j].id == id);
        assert(is_used(list, id));
        assert(may_be_brought(list, from, id));
        let k = choose|k: int| 0 <= k < from.len() && (#[trigger] from[k]).id == id;
        assert(list[w].surfaces[k].id == list[b].surfaces[j].id);
    } else if b == w {
        let id = now.surfaces[j].id;
        assert(list[a].surfaces[i].id == id);
        assert(is_used(list, id));
        assert(may_be_brought(list, from, id));
        let k = choose|k: int| 0 <= k < from.len() && (#[trigger] from[k]).id == id;
        assert(list[w].surfaces[k].id == list[a].surfaces[i].id);
    } else {
        assert(list[a].surfaces[i].id == list[b].surfaces[j].id);
    }
}

/// A workspace with the same surfaces brings no double.
proof fn lemma_same_surfaces(list: Seq<WorkspaceView>, w: int, to: Seq<SurfaceView>)
    requires
        all_whole(list),
        0 <= w < list.len(),
        to.len() == list[w].surfaces.len(),
        forall|i: int| 0 <= i < to.len() ==> (#[trigger] to[i]).id == list[w].surfaces[i].id,
    ensures
        brings_no_double(list, list[w].surfaces, to),
{
    let from = list[w].surfaces;
    assert forall|i: int, j: int|
        0 <= i < to.len() && 0 <= j < to.len() && (#[trigger] to[i]).id == (
        #[trigger] to[j]).id implies i == j by {
        assert(list[w].surfaces[i].id == list[w].surfaces[j].id);
    }
    assert forall|i: int| 0 <= i < to.len() implies #[trigger] may_be_brought(
        list,
        from,
        to[i].id,
    ) by {
        assert(from[i].id == to[i].id);
    }
}

// ---------------------------------------------------------------------------
// Changes that leave panes and surfaces where they are

/// Whether two workspaces have the same panes with the same surfaces on them,
/// the same leaves, and surfaces with the same ids.
pub open spec fn is_alike(a: WorkspaceView, b: WorkspaceView) -> bool {
    &&& a.panes.len() == b.panes.len()
    &&& forall|p: int|
        0 <= p < a.panes.len() ==> (#[trigger] a.panes[p]).id == b.panes[p].id
            && a.panes[p].surface_ids == b.panes[p].surface_ids
    &&& a.layout.leaves() == b.layout.leaves()
    &&& a.surfaces.len() == b.surfaces.len()
    &&& forall|i: int| 0 <= i < a.surfaces.len() ==> (#[trigger] a.surfaces[i]).id == b.surfaces[i].id
}

/// A workspace that is like a whole one is whole, if its pages are well-formed.
proof fn lemma_alike(w: WorkspaceView, now: WorkspaceView)
    requires
        is_whole(w),
        is_alike(now, w),
        forall|i: int|
            0 <= i < now.surfaces.len() ==> (#[trigger] now.surfaces[i]).browser_state.well_formed(),
    ensures
        is_whole(now),
{
    assert(pane_ids(now.panes) =~= pane_ids(w.panes));
    assert forall|i: int| 0 <= i < now.surfaces.len() implies stands(
        now,
        (#[trigger] now.surfaces[i]).id,
    ) by {
        assert(stands(w, w.surfaces[i].id));
        let p = choose|p: int|
            0 <= p < w.panes.len() && (#[trigger] w.panes[p]).surface_ids.contains(w.surfaces[i].id);
        assert(now.panes[p].surface_ids.contains(now.surfaces[i].id));
    }
    assert forall|p: int| 0 <= p < now.panes.len() implies now.layout.leaves().contains(
        (#[trigger] now.panes[p]).id,
    ) by {
        assert(w.layout.leaves().contains(w.panes[p].id));
    }
    assert forall|i: int| 0 <= i < now.layout.leaves().len() implies pane_ids(now.panes).contains(
        #[trigger] now.layout.leaves()[i],
    ) by {
        assert(pane_ids(w.panes).contains(w.layout.leaves()[i]));
    }
    assert forall|p: int| 0 <= p < now.panes.len() implies reference_index(
        (#[trigger] now.panes[p]).id,
        "pane"@,
    ) is None by {
        assert(reference_index(w.panes[p].id, "pane"@) is None);
    }
    assert forall|i: int| 0 <= i < now.surfaces.len() implies reference_index(
        (#[trigger] now.surfaces[i]).id,
        "surface"@,
    ) is None by {
        assert(reference_index(w.surfaces[i].id, "surface"@) is None);
    }
}

/// A workspace that is like the one in its place keeps all whole.
proof fn lemma_replaced_alike(list: Seq<WorkspaceView>, w: int, now: WorkspaceView)
    requires
        all_whole(list),
        0 <= w < list.len(),
        is_alike(now, list[w]),
        forall|i: int|
            0 <= i < now.surfaces.len() ==> (#[trigger] now.surfaces[i]).browser_state.well_formed(),
    ensures
        all_whole(list.update(w, now)),
{
    lemma_alike(list[w], now);
    lemma_same_surfaces(list, w, now.surfaces);
    lemma_replaced(list, w, now);
}

/// A workspace whose surfaces are those of a whole one has well-formed pages.
proof fn lemma_pages(w: WorkspaceView, now: WorkspaceView)
    requires
        is_whole(w),
        now.surfaces == w.surfaces,
    ensures
        forall|i: int|
            0 <= i < now.surfaces.len() ==> (#[trigger] now.surfaces[i]).browser_state.well_formed(),
{
    assert forall|i: int| 0 <= i < now.surfaces.len() implies (
    #[trigger] now.surfaces[i]).browser_state.well_formed() by {
        assert(w.surfaces[i].browser_state.well_formed());
    }
}

/// A surface with the same id and a well-formed page in the place of one keeps
/// all whole.
proof fn lemma_with_surface(s: StateView, w: int, i: int, surface: SurfaceView)
    requires
        all_whole(s.workspaces),
        0 <= w < s.workspaces.len(),
        0 <= i < s.workspaces[w].surfaces.len(),
        surface.id == s.workspaces[w].surfaces[i].id,
        surface.browser_state.well_formed(),
    ensures
        all_whole(s.with_surface(w, i, surface).workspaces),
{
    let now = s.with_surface(w, i, surface).workspaces[w];
    lemma_pages(s.workspaces[w], s.workspaces[w]);
    assert forall|j: int| 0 <= j < now.surfaces.len() implies (
    #[trigger] now.surfaces[j]).browser_state.well_formed() by {
        if j != i {
            assert(now.surfaces[j] == s.workspaces[w].surfaces[j]);
        }
    }
    lemma_replaced_alike(s.workspaces, w, now);
}

/// A pane with the same id and the same surfaces in the place of one keeps all
/// whole.
proof fn lemma_with_pane(s: StateView, w: int, p: int, pane: PaneView)
    requires
        all_whole(s.workspaces),
        0 <= w < s.workspaces.len(),
        0 <= p < s.workspaces[w].panes.len(),
        pane.id == s.workspaces[w].panes[p].id,
        pane.surface_ids == s.workspaces[w].panes[p].surface_ids,
    ensures
        all_whole(s.with_pane(w, p, pane).workspaces),
{
    let now = s.with_pane(w, p, pane).workspaces[w];
    lemma_pages(s.workspaces[w], now);
    lemma_replaced_alike(s.workspaces, w, now);
}

/// A layout with the same leaves, or another title, keeps all whole.
proof fn lemma_with_leaves(s: StateView, w: int, now: WorkspaceView)
    requires
        all_whole(s.workspaces),
        0 <= w < s.workspaces.len(),
        now.panes == s.workspaces[w].panes,
        now.surfaces == s.workspaces[w].surfaces,
        now.layout.leaves() == s.workspaces[w].layout.leaves(),
    ensures
        all_whole(s.with_workspace(w, now).workspaces),
{
    lemma_pages(s.workspaces[w], now);
    lemma_replaced_alike(s.workspaces, w, now);
}

// ---------------------------------------------------------------------------
// New names

/// A hexadecimal digit starts no reference.
proof fn lemma_uuid_is_no_reference(namespace: Seq<char>, ordinal: u64, nanos: u64)
    ensures
        reference_index(uuid(namespace, ordinal, nanos), "pane"@) is None,
        reference_index(uuid(namespace, ordinal, nanos), "surface"@) is None,
{
    let id = uuid(namespace, ordinal, nanos);
    let hash = crate::ids::namespace_hash(vstd::utf8::encode_utf8(namespace));
    let high = nanos ^ hash;
    let top = (high / 0x1_0000_0000) as nat;
    lemma_hex_digits_len(top, 8);
    lemma_first_digit(top, 8);
    assert(id[0] == hex_digits(top, 8)[0]);
    reveal_strlit("pane");
    reveal_strlit("surface");
    assert("pane"@[0] == 'p');
    assert("surface"@[0] == 's');
    assert(!crate::text::has_prefix(id, "pane"@)) by {
        if crate::text::has_prefix(id, "pane"@) {
            assert(id.take(4)[0] == "pane"@[0]);
        }
    }
    assert(!crate::text::has_prefix(id, "surface"@)) by {
        if crate::text::has_prefix(id, "surface"@) {
            assert(id.take(7)[0] == "surface"@[0]);
        }
    }
}

/// The first of some hexadecimal digits is one.
proof fn lemma_first_digit(n: nat, width: nat)
    requires
        width > 0,
    ensures
        hex_digits(n, width).len() == width,
        hex_digits(n, width)[0] != 'p',
        hex_digits(n, width)[0] != 's',
    decreases width,
{
    lemma_hex_digits_len(n, width);
    if width == 1 {
        let d = (n % 16) as int;
        assert(hex_digits(n / 16, 0) =~= Seq::<char>::empty());
        assert(hex_digits(n, 1)[0] == hex_char(d));
    } else {
        lemma_first_digit(n / 16, (width - 1) as nat);
    }
}

// ---------------------------------------------------------------------------
// Workspaces

/// One more whole workspace keeps all whole.
proof fn lemma_pushed(list: Seq<WorkspaceView>, now: WorkspaceView)
    requires
        list.len() == 0 || all_whole(list),
        is_whole(now),
        brings_no_double(list, Seq::empty(), now.surfaces),
    ensures
        all_whole(list.push(now)),
{
    let after = list.push(now);
    let n = list.len() as int;
    assert forall|v: int| 0 <= v < after.len() implies is_whole(#[trigger] after[v]) by {
        if v < n {
            assert(after[v] == list[v]);
        }
    }
    assert forall|a: int, i: int, b: int, j: int|
        0 <= a < after.len() && 0 <= b < after.len() && 0 <= i < after[a].surfaces.len() && 0 <= j
            < after[b].surfaces.len() && (#[trigger] after[a].surfaces[i]).id == (
        #[trigger] after[b].surfaces[j]).id implies a == b && i == j by {
        if a == n && b == n {
            assert(now.surfaces[i].id == now.surfaces[j].id);
        } else if a == n {
            assert(list[b].surfaces[j].id == now.surfaces[i].id);
            assert(is_used(list, now.surfaces[i].id));
            assert(may_be_brought(list, Seq::empty(), now.surfaces[i].id));
        } else if b == n {
            assert(list[a].surfaces[i].id == now.surfaces[j].id);
            assert(is_used(list, now.surfaces[j].id));
            assert(may_be_brought(list, Seq::empty(), now.surfaces[j].id));
        } else {
            assert(list[a].surfaces[i].id == list[b].surfaces[j].id);
        }
    }
}

/// One workspace less keeps the others whole.
proof fn lemma_removed(list: Seq<WorkspaceView>, w: int)
    requires
        all_whole(list),
        0 <= w < list.len(),
        list.len() > 1,
    ensures
        all_whole(list.remove(w)),
{
    let after = list.remove(w);
    assert forall|v: int| 0 <= v < after.len() implies is_whole(#[trigger] after[v]) by {
        if v < w {
            assert(after[v] == list[v]);
        } else {
            assert(after[v] == list[v + 1]);
        }
    }
    assert forall|a: int, i: int, b: int, j: int|
        0 <= a < after.len() && 0 <= b < after.len() && 0 <= i < after[a].surfaces.len() && 0 <= j
            < after[b].surfaces.len() && (#[trigger] after[a].surfaces[i]).id == (
        #[trigger] after[b].surfaces[j]).id implies a == b && i == j by {
        let x = if a < w {
            a
        } else {
            a + 1
        };
        let y = if b < w {
            b
        } else {
            b + 1
        };
        assert(after[a] == list[x]);
        assert(after[b] == list[y]);
        assert(list[x].surfaces[i].id == list[y].surfaces[j].id);
    }
}

/// A workspace with one pane of one terminal is whole.
proof fn lemma_terminal_workspace(
    id: Seq<char>,
    pane_id: Seq<char>,
    surface_id: Seq<char>,
    title: Seq<char>,
    command: Option<Seq<char>>,
    directory: Option<Seq<char>>,
)
    requires
        reference_index(pane_id, "pane"@) is None,
        reference_index(surface_id, "surface"@) is None,
    ensures
        is_whole(terminal_workspace(id, pane_id, surface_id, title, command, directory)),
        terminal_workspace(id, pane_id, surface_id, title, command, directory).surfaces.len() == 1,
        terminal_workspace(id, pane_id, surface_id, title, command, directory).surfaces[0].id
            == surface_id,
{
    let w = terminal_workspace(id, pane_id, surface_id, title, command, directory);
    assert(w.layout.leaves() =~= seq![pane_id]);
    assert(pane_ids(w.panes)[0] == pane_id);
    assert(w.layout.leaves()[0] == pane_id);
    assert(w.panes[0].surface_ids[0] == surface_id);
    assert(w.panes[0].surface_ids.contains(surface_id));
    assert(stands(w, surface_id));
}

/// A workspace with one pane and nothing on it is whole.
proof fn lemma_empty_workspace(id: Seq<char>, pane_id: Seq<char>, title: Seq<char>)
    requires
        reference_index(pane_id, "pane"@) is None,
    ensures
        is_whole(empty_workspace(id, pane_id, title)),
        empty_workspace(id, pane_id, title).surfaces.len() == 0,
{
    let w = empty_workspace(id, pane_id, title);
    assert(w.layout.leaves() =~= seq![pane_id]);
    assert(pane_ids(w.panes)[0] == pane_id);
    assert(w.layout.leaves()[0] == pane_id);
}

/// Whether no surface has one of the ids that the shell gives next.
pub open spec fn gives_new_ids(app: AppView, nanos: u64) -> bool {
    let list = app.state.workspaces;
    &&& !is_used(list, app.next_id("surface"@, nanos))
    &&& !is_used(list, app.counted().next_id("surface"@, nanos))
    &&& !is_used(list, app.counted().counted().next_id("surface"@, nanos))
}

/// A new workspace keeps all whole.
proof fn lemma_workspace_created(app: AppView, nanos: u64, params: Option<JsonView>)
    requires
        all_whole(app.state.workspaces),
        gives_new_ids(app, nanos),
    ensures
        all_whole(workspace_created(app, nanos, params).app.state.workspaces),
{
    let id = app.next_id("workspace"@, nanos);
    let pane_id = app.counted().next_id("pane"@, nanos);
    let surface_id = app.counted().counted().next_id("surface"@, nanos);
    let title = crate::workspaces::or_text(crate::rpc::text1(params, "title"@), "Workspace"@);
    let command = crate::rpc::command_text(params);
    let directory = crate::rpc::directory_text(params);
    lemma_uuid_is_no_reference("pane"@, app.counted().next_ordinal, nanos);
    lemma_uuid_is_no_reference("surface"@, app.counted().counted().next_ordinal, nanos);
    lemma_terminal_workspace(id, pane_id, surface_id, title, command, directory);
    lemma_empty_workspace(id, pane_id, title);
    lemma_pushed(
        app.state.workspaces,
        terminal_workspace(id, pane_id, surface_id, title, command, directory),
    );
    lemma_pushed(app.state.workspaces, empty_workspace(id, pane_id, title));
}

/// The requests about workspaces keep all whole.
proof fn lemma_workspace_turns(
    app: AppView,
    method: Seq<char>,
    params: Option<JsonView>,
    clock: Clock,
)
    requires
        all_whole(app.state.workspaces),
        gives_new_ids(app, clock.nanos),
    ensures
        workspace_turn(app, method, params, clock) matches Some(turn) ==> all_whole(
            turn.app.state.workspaces,
        ),
{
    let list = app.state.workspaces;
    lemma_workspace_created(app, clock.nanos, params);
    if let Ok(i) = crate::workspaces::requested_workspace(app, params) {
        crate::workspaces::lemma_requested_workspace(app, params);
        if list.len() != 1 {
            lemma_removed(list, i);
        }
    }
    if let Ok(i) = crate::workspaces::requested_or_active_workspace(app, params) {
        let id = match crate::rpc::workspace_text(params) {
            Some(name) => crate::locate::workspace_named(app.state, name)->Ok_0,
            None => app.state.active_workspace_id->0,
        };
        crate::locate::lemma_workspace_index(app.state, id);
        law_equalize(list[i].layout);
        lemma_with_leaves(
            app.state,
            i,
            WorkspaceView { layout: list[i].layout.equalize(), ..list[i] },
        );
        if let Ok(title) = crate::rpc::required(crate::rpc::text1(params, "title"@), "title"@) {
            lemma_with_leaves(app.state, i, WorkspaceView { title, ..list[i] });
        }
    }
}

// ---------------------------------------------------------------------------
// Panes

/// A new surface shows a well-formed page.
proof fn lemma_opened_page(
    opening: crate::opening::OpeningView,
    id: Seq<char>,
    workspace_id: Seq<char>,
    pane_id: Seq<char>,
)
    ensures
        opening.surface(id, workspace_id, pane_id).browser_state.well_formed(),
        opening.surface(id, workspace_id, pane_id).id == id,
{
    if let Some(url) = opening.page_url() {
        law_read_page_is_well_formed(url);
    }
}

/// The workspace of a new pane stands in the list.
pub proof fn lemma_pane_plan(s: StateView, params: Option<JsonView>)
    ensures
        pane_plan(s, params) matches Ok(plan) ==> 0 <= plan.w < s.workspaces.len(),
{
    if let Ok(plan) = pane_plan(s, params) {
        lemma_current_index(s);
        if let Ok(Some(id)) = crate::panes::given_workspace(s, params) {
            lemma_first_from(workspace_ids(s.workspaces), id, 0);
        }
        if let Some(id) = plan.target {
            lemma_pane_place(s.workspaces, id, 0);
        }
    }
}

/// A workspace stays whole with a new pane that has a new surface.
proof fn lemma_with_new_pane(
    w: WorkspaceView,
    plan: PanePlanView,
    pane_id: Seq<char>,
    surface_id: Seq<char>,
)
    requires
        is_whole(w),
        reference_index(pane_id, "pane"@) is None,
        reference_index(surface_id, "surface"@) is None,
    ensures
        is_whole(with_new_pane(w, plan, pane_id, surface_id)),
{
    let now = with_new_pane(w, plan, pane_id, surface_id);
    let n = w.panes.len() as int;
    let target = match plan.target {
        Some(id) => if pane_ids(now.panes).contains(id) {
            Some(id)
        } else {
            None
        },
        None => None,
    };
    law_insert_adds_one_leaf(w.layout, target, pane_id, plan.direction, plan.ahead);
    let old_leaves = w.layout.leaves();
    let k = choose|k: int|
        0 <= k <= old_leaves.len() && w.layout.insert(
            target,
            pane_id,
            plan.direction,
            plan.ahead,
        ).leaves() == #[trigger] old_leaves.insert(k, pane_id);
    let leaves = now.layout.leaves();
    assert(leaves == old_leaves.insert(k, pane_id));
    assert(pane_ids(now.panes)[n] == pane_id);
    assert forall|i: int| 0 <= i < leaves.len() implies pane_ids(now.panes).contains(
        #[trigger] leaves[i],
    ) by {
        if i != k {
            let j = if i < k {
                i
            } else {
                i - 1
            };
            assert(leaves[i] == old_leaves[j]);
            assert(pane_ids(w.panes).contains(old_leaves[j]));
            let p = choose|p: int| 0 <= p < pane_ids(w.panes).len() && pane_ids(w.panes)[p] == old_leaves[j];
            assert(pane_ids(now.panes)[p] == old_leaves[j]);
        }
    }
    assert forall|p: int| 0 <= p < now.panes.len() implies leaves.contains(
        (#[trigger] now.panes[p]).id,
    ) by {
        if p < n {
            assert(now.panes[p] == w.panes[p]);
            assert(old_leaves.contains(w.panes[p].id));
            let j = choose|j: int| 0 <= j < old_leaves.len() && old_leaves[j] == w.panes[p].id;
            let i = if j < k {
                j
            } else {
                j + 1
            };
            assert(leaves[i] == w.panes[p].id);
        } else {
            assert(leaves[k] == pane_id);
        }
    }
    let surface = plan.opening.surface(surface_id, w.id, pane_id);
    lemma_opened_page(plan.opening, surface_id, w.id, pane_id);
    assert forall|i: int| 0 <= i < now.surfaces.len() implies stands(
        now,
        (#[trigger] now.surfaces[i]).id,
    ) && now.surfaces[i].browser_state.well_formed() && reference_index(
        now.surfaces[i].id,
        "surface"@,
    ) is None by {
        if i < w.surfaces.len() {
            assert(now.surfaces[i] == w.surfaces[i]);
            assert(stands(w, w.surfaces[i].id));
            let p = choose|p: int|
                0 <= p < w.panes.len() && (#[trigger] w.panes[p]).surface_ids.contains(
                    w.surfaces[i].id,
                );
            assert(now.panes[p] == w.panes[p]);
        } else {
            assert(now.surfaces[i] == surface);
            assert(now.panes[n].surface_ids[0] == surface_id);
            assert(now.panes[n].surface_ids.contains(surface_id));
        }
    }
    assert forall|p: int| 0 <= p < now.panes.len() implies reference_index(
        (#[trigger] now.panes[p]).id,
        "pane"@,
    ) is None by {
        if p < n {
            assert(now.panes[p] == w.panes[p]);
        }
    }
}

/// One surface more with a new id brings no double.
proof fn lemma_one_more(list: Seq<WorkspaceView>, w: int, surface: SurfaceView)
    requires
        all_whole(list),
        0 <= w < list.len(),
        !is_used(list, surface.id),
    ensures
        brings_no_double(list, list[w].surfaces, list[w].surfaces.push(surface)),
{
    let from = list[w].surfaces;
    let to = from.push(surface);
    let n = from.len() as int;
    assert forall|i: int, j: int|
        0 <= i < to.len() && 0 <= j < to.len() && (#[trigger] to[i]).id == (
        #[trigger] to[j]).id implies i == j by {
        if i < n && j < n {
            assert(list[w].surfaces[i].id == list[w].surfaces[j].id);
        } else if i < n {
            assert(list[w].surfaces[i].id == surface.id);
        } else if j < n {
            assert(list[w].surfaces[j].id == surface.id);
        }
    }
    assert forall|i: int| 0 <= i < to.len() implies #[trigger] may_be_brought(
        list,
        from,
        to[i].id,
    ) by {
        if i < n {
            assert(from[i].id == to[i].id);
        }
    }
}

/// A new pane keeps all whole.
proof fn lemma_pane_created(app: AppView, nanos: u64, params: Option<JsonView>)
    requires
        all_whole(app.state.workspaces),
        gives_new_ids(app, nanos),
    ensures
        all_whole(pane_created(app, nanos, params).app.state.workspaces),
{
    lemma_pane_plan(app.state, params);
    if let Ok(plan) = pane_plan(app.state, params) {
        let list = app.state.workspaces;
        let pane_id = app.next_id("pane"@, nanos);
        let surface_id = app.counted().next_id("surface"@, nanos);
        lemma_uuid_is_no_reference("pane"@, app.next_ordinal, nanos);
        lemma_uuid_is_no_reference("surface"@, app.counted().next_ordinal, nanos);
        lemma_with_new_pane(list[plan.w], plan, pane_id, surface_id);
        let surface = plan.opening.surface(surface_id, list[plan.w].id, pane_id);
        lemma_opened_page(plan.opening, surface_id, list[plan.w].id, pane_id);
        lemma_one_more(list, plan.w, surface);
        lemma_replaced(list, plan.w, with_new_pane(list[plan.w], plan, pane_id, surface_id));
    }
}

/// What a request calls a pane comes to the plain name of one.
proof fn lemma_pane_named(s: StateView, name: Seq<char>)
    requires
        all_whole(s.workspaces),
    ensures
        crate::locate::pane_named(s, name) matches Ok(id) ==> pane_at(s, id) == pane_place(
            s.workspaces,
            id,
            0,
        ),
{
    lemma_pane_at(s, name);
    if let Some((w, i)) = pane_at(s, name) {
        assert(is_whole(s.workspaces[w]));
        assert(reference_index(s.workspaces[w].panes[i].id, "pane"@) is None);
    }
}

/// A workspace in which two panes have changed places is whole.
proof fn lemma_swapped(w: WorkspaceView, i: int, j: int)
    requires
        is_whole(w),
        0 <= i < w.panes.len(),
        0 <= j < w.panes.len(),
    ensures
        is_whole(
            WorkspaceView { layout: w.layout.swap(w.panes[i].id, w.panes[j].id), ..w },
        ),
{
    let a = w.panes[i].id;
    let b = w.panes[j].id;
    let now = WorkspaceView { layout: w.layout.swap(a, b), ..w };
    let f = |pane: Seq<char>| swapped(pane, a, b);
    law_swap_exchanges_leaves(w.layout, a, b);
    let leaves = now.layout.leaves();
    let old_leaves = w.layout.leaves();
    assert(leaves =~= old_leaves.map_values(f));
    let ids = pane_ids(w.panes);
    assert(ids[i] == a && ids[j] == b);
    assert forall|k: int| 0 <= k < leaves.len() implies ids.contains(#[trigger] leaves[k]) by {
        assert(leaves[k] == swapped(old_leaves[k], a, b));
        assert(ids.contains(old_leaves[k]));
    }
    assert forall|p: int| 0 <= p < now.panes.len() implies leaves.contains(
        (#[trigger] now.panes[p]).id,
    ) by {
        let id = now.panes[p].id;
        let source = swapped(id, a, b);
        assert(old_leaves.contains(w.panes[i].id));
        assert(old_leaves.contains(w.panes[j].id));
        assert(old_leaves.contains(w.panes[p].id));
        assert(old_leaves.contains(source));
        let k = choose|k: int| 0 <= k < old_leaves.len() && old_leaves[k] == source;
        assert(leaves[k] == swapped(source, a, b));
        assert(leaves[k] == id);
    }
    assert forall|k: int| 0 <= k < now.surfaces.len() implies stands(
        now,
        (#[trigger] now.surfaces[k]).id,
    ) && now.surfaces[k].browser_state.well_formed() && reference_index(
        now.surfaces[k].id,
        "surface"@,
    ) is None by {
        assert(stands(w, w.surfaces[k].id));
        let p = choose|p: int|
            0 <= p < w.panes.len() && (#[trigger] w.panes[p]).surface_ids.contains(w.surfaces[k].id);
        assert(now.panes[p].surface_ids.contains(now.surfaces[k].id));
    }
    assert forall|p: int| 0 <= p < now.panes.len() implies reference_index(
        (#[trigger] now.panes[p]).id,
        "pane"@,
    ) is None by {
        assert(reference_index(w.panes[p].id, "pane"@) is None);
    }
}

/// Another layout that leaves a workspace whole keeps all whole.
proof fn lemma_replaced_layout(list: Seq<WorkspaceView>, w: int, layout: LayoutView)
    requires
        all_whole(list),
        0 <= w < list.len(),
        is_whole(WorkspaceView { layout, ..list[w] }),
    ensures
        all_whole(list.update(w, WorkspaceView { layout, ..list[w] })),
{
    lemma_same_surfaces(list, w, list[w].surfaces);
    lemma_replaced(list, w, WorkspaceView { layout, ..list[w] });
}

/// A state in which panes have changed places is whole.
proof fn lemma_panes_exchanged(s: StateView, w: int, i: int, j: int, focus: bool)
    requires
        all_whole(s.workspaces),
        0 <= w < s.workspaces.len(),
        0 <= i < s.workspaces[w].panes.len(),
        0 <= j < s.workspaces[w].panes.len(),
    ensures
        all_whole(
            panes_exchanged(
                s,
                w,
                s.workspaces[w].panes[i].id,
                s.workspaces[w].panes[j].id,
                focus,
            ).workspaces,
        ),
{
    lemma_swapped(s.workspaces[w], i, j);
    lemma_replaced_layout(
        s.workspaces,
        w,
        s.workspaces[w].layout.swap(s.workspaces[w].panes[i].id, s.workspaces[w].panes[j].id),
    );
}

/// The panes that are to change places stand in one workspace.
proof fn lemma_swap_places(s: StateView, name: Seq<char>, target_name: Seq<char>)
    requires
        all_whole(s.workspaces),
    ensures
        match (
            crate::locate::pane_named(s, name),
            crate::locate::pane_named(s, target_name),
        ) {
            (Ok(pane), Ok(target)) => match (pane_at(s, pane), pane_at(s, target)) {
                (Some((w, i)), Some((v, j))) => w == v ==> forall|focus: bool|
                    #![trigger panes_exchanged(s, w, pane, target, focus)]
                    all_whole(panes_exchanged(s, w, pane, target, focus).workspaces),
                _ => true,
            },
            _ => true,
        },
{
    lemma_pane_named(s, name);
    lemma_pane_named(s, target_name);
    if let (Ok(pane), Ok(target)) = (
        crate::locate::pane_named(s, name),
        crate::locate::pane_named(s, target_name),
    ) {
        lemma_pane_place(s.workspaces, pane, 0);
        lemma_pane_place(s.workspaces, target, 0);
        if let (Some((w, i)), Some((v, j))) = (pane_at(s, pane), pane_at(s, target)) {
            if w == v {
                lemma_panes_exchanged(s, w, i, j, true);
                lemma_panes_exchanged(s, w, i, j, false);
                assert forall|focus: bool|
                    #![trigger panes_exchanged(s, w, pane, target, focus)]
                    all_whole(panes_exchanged(s, w, pane, target, focus).workspaces) by {
                    if focus {
                    } else {
                    }
                }
            }
        }
    }
}

/// Panes that change places keep all whole.
proof fn lemma_panes_swapped(app: AppView, params: Option<JsonView>)
    requires
        all_whole(app.state.workspaces),
    ensures
        all_whole(panes_swapped(app, params).app.state.workspaces),
{
    if let Ok(name) = crate::rpc::required(crate::rpc::pane_text(params), "pane"@) {
        if let Ok(target_name) = crate::rpc::required(
            crate::panes::swap_text(params),
            "target_pane_id"@,
        ) {
            lemma_swap_places(app.state, name, target_name);
        }
    }
}

/// The requests about panes keep all whole.
proof fn lemma_pane_turns(
    app: AppView,
    method: Seq<char>,
    params: Option<JsonView>,
    readings: Readings,
    clock: Clock,
)
    requires
        all_whole(app.state.workspaces),
        gives_new_ids(app, clock.nanos),
    ensures
        pane_turn(app, method, params, readings, clock) matches Some(turn) ==> all_whole(
            turn.app.state.workspaces,
        ),
{
    let s = app.state;
    lemma_pane_created(app, clock.nanos, params);
    lemma_panes_swapped(app, params);
    assert(all_whole(pane_focused(app, params).app.state.workspaces));
    assert(all_whole(pane_resized(app, params, readings).app.state.workspaces)) by {
        if let Ok(Some(id)) = crate::panes::given_or_active_pane(s, params) {
            lemma_pane_at(s, id);
            if let Some((w, _)) = pane_at(s, id) {
                let ratio = crate::panes::requested_ratio(params, readings);
                law_resize_keeps_leaves(s.workspaces[w].layout, id, ratio);
                lemma_with_leaves(
                    s,
                    w,
                    WorkspaceView {
                        layout: s.workspaces[w].layout.resize(id, ratio),
                        ..s.workspaces[w]
                    },
                );
            }
        }
    }
}

// ---------------------------------------------------------------------------
// New surfaces

/// The workspace and the pane of a new surface stand in the lists.
pub proof fn lemma_surface_plan(s: StateView, params: Option<JsonView>)
    requires
        all_whole(s.workspaces),
    ensures
        surface_plan(s, params) matches Ok(plan) ==> 0 <= plan.w < s.workspaces.len() && (
        plan.p matches Some(p) && 0 <= p < s.workspaces[plan.w].panes.len()),
{
    if let Ok(plan) = surface_plan(s, params) {
        if let Ok(Some(id)) = crate::panes::given_workspace(s, params) {
            lemma_first_from(workspace_ids(s.workspaces), id, 0);
        }
        if let Ok(Some(id)) = crate::panes::given_pane(s, params) {
            lemma_pane_place(s.workspaces, id, 0);
            lemma_first_from(pane_ids(s.workspaces[plan.w].panes), id, 0);
        }
        if let Some(id) = s.active_pane_id {
            lemma_first_from(pane_ids(s.workspaces[plan.w].panes), id, 0);
        }
        assert(is_whole(s.workspaces[plan.w]));
    }
}

/// A workspace stays whole with a new surface on one of its panes.
proof fn lemma_with_new_surface(w: WorkspaceView, p: int, surface: SurfaceView)
    requires
        is_whole(w),
        0 <= p < w.panes.len(),
        reference_index(surface.id, "surface"@) is None,
        surface.browser_state.well_formed(),
    ensures
        is_whole(with_new_surface(w, p, surface)),
{
    let now = with_new_surface(w, p, surface);
    assert(pane_ids(now.panes) =~= pane_ids(w.panes));
    assert forall|i: int| 0 <= i < now.surfaces.len() implies stands(
        now,
        (#[trigger] now.surfaces[i]).id,
    ) && now.surfaces[i].browser_state.well_formed() && reference_index(
        now.surfaces[i].id,
        "surface"@,
    ) is None by {
        let id = now.surfaces[i].id;
        if i < w.surfaces.len() {
            assert(now.surfaces[i] == w.surfaces[i]);
            assert(stands(w, id));
            let q = choose|q: int|
                0 <= q < w.panes.len() && (#[trigger] w.panes[q]).surface_ids.contains(id);
            let k = choose|k: int|
                0 <= k < w.panes[q].surface_ids.len() && w.panes[q].surface_ids[k] == id;
            assert(now.panes[q].surface_ids[k] == id);
            assert(now.panes[q].surface_ids.contains(id));
        } else {
            let n = w.panes[p].surface_ids.len() as int;
            assert(now.panes[p].surface_ids[n] == id);
            assert(now.panes[p].surface_ids.contains(id));
        }
    }
    assert forall|q: int| 0 <= q < now.panes.len() implies now.layout.leaves().contains(
        (#[trigger] now.panes[q]).id,
    ) && reference_index(now.panes[q].id, "pane"@) is None by {
        assert(now.panes[q].id == w.panes[q].id);
    }
    assert forall|i: int| 0 <= i < now.layout.leaves().len() implies pane_ids(now.panes).contains(
        #[trigger] now.layout.leaves()[i],
    ) by {
        assert(pane_ids(w.panes).contains(w.layout.leaves()[i]));
    }
}

/// A new surface keeps all whole.
proof fn lemma_surface_created(app: AppView, nanos: u64, params: Option<JsonView>)
    requires
        all_whole(app.state.workspaces),
        gives_new_ids(app, nanos),
    ensures
        all_whole(surface_created(app, nanos, params).app.state.workspaces),
{
    lemma_surface_plan(app.state, params);
    if let Ok(plan) = surface_plan(app.state, params) {
        let list = app.state.workspaces;
        let w = list[plan.w];
        let p = plan.p->0;
        let id = app.next_id("surface"@, nanos);
        let surface = plan.opening.surface(id, w.id, w.panes[p].id);
        lemma_uuid_is_no_reference("surface"@, app.next_ordinal, nanos);
        lemma_opened_page(plan.opening, id, w.id, w.panes[p].id);
        assert(is_whole(w));
        lemma_with_new_surface(w, p, surface);
        lemma_one_more(list, plan.w, surface);
        lemma_replaced(list, plan.w, with_new_surface(w, p, surface));
    }
}

/// A surface on top of its pane keeps all whole.
proof fn lemma_raised(s: StateView, surface: SurfaceView)
    requires
        all_whole(s.workspaces),
    ensures
        all_whole(surface_raised(s, surface).workspaces),
{
    let moved = s.focused(Some(surface.workspace_id), Some(surface.pane_id), Some(surface.id));
    lemma_pane_at(moved, surface.pane_id);
    if let Some((w, p)) = pane_at(moved, surface.pane_id) {
        lemma_with_pane(
            moved,
            w,
            p,
            PaneView { active_surface_id: Some(surface.id), ..moved.workspaces[w].panes[p] },
        );
    }
}

// ---------------------------------------------------------------------------
// Closing

/// A list without a text still holds the others.
proof fn lemma_without(list: Seq<Seq<char>>, id: Seq<char>, other: Seq<char>)
    requires
        list.contains(other),
        other != id,
    ensures
        without(list, id).contains(other),
{
    broadcast use vstd::seq_lib::group_filter_ensures;

    let keep = |t: Seq<char>| t != id;
    let k = choose|k: int| 0 <= k < list.len() && list[k] == other;
    assert(keep(list[k]));
    assert(list.filter(keep).contains(list[k]));
}

/// What is left of the panes when a surface is closed: those of the workspace,
/// each without the surface, with their ids.
proof fn lemma_panes_left(w: WorkspaceView, i: int, q: int)
    requires
        0 <= i < w.surfaces.len(),
        0 <= q < workspace_without(w, i).panes.len(),
    ensures
        exists|p: int|
            0 <= p < w.panes.len() && workspace_without(w, i).panes[q] == pane_without(
                #[trigger] w.panes[p],
                w.surfaces[i].id,
            ),
{
    let id = w.surfaces[i].id;
    let rest = panes_without(w.panes, id);
    let panes = workspace_without(w, i).panes;
    if w.surfaces.remove(i).len() > 0 {
        let busy = |p: PaneView| occupied(p);
        assert(panes == rest.filter(busy));
        assert(rest.filter(busy).contains(panes[q]));
        rest.lemma_filter_contains_rev(busy, panes[q]);
        let p = choose|p: int| 0 <= p < rest.len() && rest[p] == panes[q];
        assert(rest[p] == pane_without(w.panes[p], id));
    } else {
        assert(panes[q] == pane_without(w.panes[q], id));
    }
}

/// A pane that still has a surface when another is closed is among those that
/// are left.
proof fn lemma_pane_stays(w: WorkspaceView, i: int, p: int, other: Seq<char>) -> (q: int)
    requires
        0 <= i < w.surfaces.len(),
        0 <= p < w.panes.len(),
        w.panes[p].surface_ids.contains(other),
        other != w.surfaces[i].id,
    ensures
        0 <= q < workspace_without(w, i).panes.len(),
        workspace_without(w, i).panes[q] == pane_without(w.panes[p], w.surfaces[i].id),
        workspace_without(w, i).panes[q].surface_ids.contains(other),
{
    let id = w.surfaces[i].id;
    let rest = panes_without(w.panes, id);
    let panes = workspace_without(w, i).panes;
    let left = pane_without(w.panes[p], id);
    lemma_without(w.panes[p].surface_ids, id, other);
    assert(rest[p] == left);
    if w.surfaces.remove(i).len() > 0 {
        broadcast use vstd::seq_lib::group_filter_ensures;

        let busy = |p: PaneView| occupied(p);
        assert(busy(rest[p]));
        assert(panes == rest.filter(busy));
        assert(rest.filter(busy).contains(rest[p]));
        choose|q: int| 0 <= q < panes.len() && panes[q] == left
    } else {
        assert(panes[p] == left);
        p
    }
}

/// The layout shows the panes that are left when a surface is closed.
proof fn lemma_layout_left(w: WorkspaceView, i: int)
    requires
        is_whole(w),
        0 <= i < w.surfaces.len(),
        workspace_without(w, i).panes.len() > 0,
    ensures
        shows_its_panes(workspace_without(w, i)),
{
    broadcast use vstd::seq_lib::group_filter_ensures;

    let now = workspace_without(w, i);
    let ids = pane_ids(now.panes);
    let old_leaves = w.layout.leaves();
    let keep = |pane: Seq<char>| ids.contains(pane);
    law_prune_keeps_the_listed_leaves(w.layout, ids);
    assert(pruned_leaves(w.layout, ids) == old_leaves.filter(keep));
    assert forall|q: int| 0 <= q < now.panes.len() implies old_leaves.filter(keep).contains(
        (#[trigger] now.panes[q]).id,
    ) by {
        lemma_panes_left(w, i, q);
        let p = choose|p: int|
            0 <= p < w.panes.len() && now.panes[q] == pane_without(
                #[trigger] w.panes[p],
                w.surfaces[i].id,
            );
        assert(now.panes[q].id == w.panes[p].id);
        assert(old_leaves.contains(w.panes[p].id));
        let k = choose|k: int| 0 <= k < old_leaves.len() && old_leaves[k] == w.panes[p].id;
        assert(ids[q] == now.panes[q].id);
        assert(keep(old_leaves[k]));
        assert(old_leaves.filter(keep).contains(old_leaves[k]));
    }
    assert(old_leaves.filter(keep).contains(now.panes[0].id));
    assert(w.layout.prune(ids) is Some);
    let leaves = now.layout.leaves();
    assert(leaves == old_leaves.filter(keep));
    assert forall|k: int| 0 <= k < leaves.len() implies ids.contains(#[trigger] leaves[k]) by {
        assert(keep(old_leaves.filter(keep)[k]));
    }
}

/// A whole workspace is whole without one of its surfaces.
proof fn lemma_workspace_without(list: Seq<WorkspaceView>, w: int, i: int)
    requires
        all_whole(list),
        0 <= w < list.len(),
        0 <= i < list[w].surfaces.len(),
    ensures
        is_whole(workspace_without(list[w], i)),
{
    let old_w = list[w];
    let id = old_w.surfaces[i].id;
    let now = workspace_without(old_w, i);
    assert(is_whole(old_w));
    assert forall|k: int| 0 <= k < now.surfaces.len() implies stands(
        now,
        (#[trigger] now.surfaces[k]).id,
    ) && now.surfaces[k].browser_state.well_formed() && reference_index(
        now.surfaces[k].id,
        "surface"@,
    ) is None by {
        let j = if k < i {
            k
        } else {
            k + 1
        };
        let other = old_w.surfaces[j].id;
        assert(now.surfaces[k] == old_w.surfaces[j]);
        assert(list[w].surfaces[j].id != list[w].surfaces[i].id);
        assert(stands(old_w, other));
        let p = choose|p: int|
            0 <= p < old_w.panes.len() && (#[trigger] old_w.panes[p]).surface_ids.contains(other);
        let q = lemma_pane_stays(old_w, i, p, other);
        assert(now.panes[q].surface_ids.contains(other));
    }
    assert(now.panes.len() > 0) by {
        if now.surfaces.len() > 0 {
            assert(stands(now, now.surfaces[0].id));
        } else {
            assert(now.panes.len() == old_w.panes.len());
        }
    }
    assert forall|q: int| 0 <= q < now.panes.len() implies reference_index(
        (#[trigger] now.panes[q]).id,
        "pane"@,
    ) is None by {
        lemma_panes_left(old_w, i, q);
        let p = choose|p: int|
            0 <= p < old_w.panes.len() && now.panes[q] == pane_without(
                #[trigger] old_w.panes[p],
                id,
            );
        assert(now.panes[q].id == old_w.panes[p].id);
    }
    lemma_layout_left(old_w, i);
}

/// One surface less brings no double.
proof fn lemma_one_less(list: Seq<WorkspaceView>, w: int, i: int)
    requires
        all_whole(list),
        0 <= w < list.len(),
        0 <= i < list[w].surfaces.len(),
    ensures
        brings_no_double(list, list[w].surfaces, list[w].surfaces.remove(i)),
{
    let from = list[w].surfaces;
    let to = from.remove(i);
    assert forall|a: int, b: int|
        0 <= a < to.len() && 0 <= b < to.len() && (#[trigger] to[a]).id == (
        #[trigger] to[b]).id implies a == b by {
        let x = if a < i {
            a
        } else {
            a + 1
        };
        let y = if b < i {
            b
        } else {
            b + 1
        };
        assert(list[w].surfaces[x].id == list[w].surfaces[y].id);
    }
    assert forall|a: int| 0 <= a < to.len() implies #[trigger] may_be_brought(
        list,
        from,
        to[a].id,
    ) by {
        let x = if a < i {
            a
        } else {
            a + 1
        };
        assert(from[x].id == to[a].id);
    }
}

/// Closing a surface keeps all whole.
proof fn lemma_surface_closed(app: AppView, params: Option<JsonView>, replies: Seq<ReplyView>)
    requires
        all_whole(app.state.workspaces),
    ensures
        all_whole(surface_closed(app, params, replies).app.state.workspaces),
{
    let s = app.state;
    if let Ok(id) = crate::surfaces::closing_surface(s, params) {
        lemma_surface_place(s.workspaces, id, 0);
        if let Some((w, i)) = surface_place(s.workspaces, id, 0) {
            lemma_workspace_without(s.workspaces, w, i);
            lemma_one_less(s.workspaces, w, i);
            lemma_replaced(s.workspaces, w, workspace_without(s.workspaces[w], i));
        }
    }
}

// ---------------------------------------------------------------------------
// Moving

/// Whether a pane has kept its id, and all its surfaces but perhaps one.
pub open spec fn keeps_others(before: PaneView, after: PaneView, id: Seq<char>) -> bool {
    &&& after.id == before.id
    &&& forall|other: Seq<char>|
        other != id && #[trigger] before.surface_ids.contains(other) ==> after.surface_ids.contains(
            other,
        )
}

/// Whether a surface of a workspace is one that a whole workspace had, with its
/// id, or is the one that moved and stands on a pane.
pub open spec fn is_settled(before: WorkspaceView, after: WorkspaceView, k: int, id: Seq<char>) -> bool {
    let surface = after.surfaces[k];
    if surface.id == id {
        stands(after, id) && surface.browser_state.well_formed() && reference_index(
            id,
            "surface"@,
        ) is None
    } else {
        exists|j: int|
            0 <= j < before.surfaces.len() && (#[trigger] before.surfaces[j]).id == surface.id
                && before.surfaces[j].browser_state == surface.browser_state
    }
}

/// A workspace is whole after one surface was taken off its panes or put on
/// one, if its surfaces are settled.
proof fn lemma_settled(before: WorkspaceView, after: WorkspaceView, id: Seq<char>)
    requires
        is_whole(before),
        after.layout == before.layout,
        after.panes.len() == before.panes.len(),
        forall|q: int|
            0 <= q < after.panes.len() ==> keeps_others(
                before.panes[q],
                #[trigger] after.panes[q],
                id,
            ),
        forall|k: int|
            0 <= k < after.surfaces.len() ==> #[trigger] is_settled(before, after, k, id),
    ensures
        is_whole(after),
{
    assert(pane_ids(after.panes) =~= pane_ids(before.panes)) by {
        assert forall|q: int| 0 <= q < after.panes.len() implies pane_ids(after.panes)[q] == pane_ids(
            before.panes,
        )[q] by {
            assert(keeps_others(before.panes[q], after.panes[q], id));
        }
    }
    assert forall|q: int| 0 <= q < after.panes.len() implies after.layout.leaves().contains(
        (#[trigger] after.panes[q]).id,
    ) && reference_index(after.panes[q].id, "pane"@) is None by {
        assert(keeps_others(before.panes[q], after.panes[q], id));
        assert(before.layout.leaves().contains(before.panes[q].id));
    }
    assert forall|i: int| 0 <= i < after.layout.leaves().len() implies pane_ids(
        after.panes,
    ).contains(#[trigger] after.layout.leaves()[i]) by {
        assert(pane_ids(before.panes).contains(before.layout.leaves()[i]));
    }
    assert forall|k: int| 0 <= k < after.surfaces.len() implies stands(
        after,
        (#[trigger] after.surfaces[k]).id,
    ) && after.surfaces[k].browser_state.well_formed() && reference_index(
        after.surfaces[k].id,
        "surface"@,
    ) is None by {
        assert(is_settled(before, after, k, id));
        let other = after.surfaces[k].id;
        if other != id {
            let j = choose|j: int|
                0 <= j < before.surfaces.len() && (#[trigger] before.surfaces[j]).id == other
                    && before.surfaces[j].browser_state == after.surfaces[k].browser_state;
            assert(stands(before, before.surfaces[j].id));
            let p = choose|p: int|
                0 <= p < before.panes.len() && (#[trigger] before.panes[p]).surface_ids.contains(
                    other,
                );
            assert(keeps_others(before.panes[p], after.panes[p], id));
            assert(after.panes[p].surface_ids.contains(other));
        }
    }
}

/// A pane without a surface keeps the others.
proof fn lemma_minus_keeps(p: PaneView, id: Seq<char>)
    ensures
        keeps_others(p, pane_minus(p, id), id),
{
    assert forall|other: Seq<char>|
        other != id && #[trigger] p.surface_ids.contains(other) implies pane_minus(
        p,
        id,
    ).surface_ids.contains(other) by {
        lemma_without(p.surface_ids, id, other);
    }
}

/// A pane with a surface put in keeps the others, and has that one.
proof fn lemma_plus_keeps(p: PaneView, at: int, id: Seq<char>)
    requires
        0 <= at <= pane_minus(p, id).surface_ids.len(),
    ensures
        keeps_others(p, pane_plus(pane_minus(p, id), at, id), id),
        pane_plus(pane_minus(p, id), at, id).surface_ids.contains(id),
{
    let mid = pane_minus(p, id);
    let after = pane_plus(mid, at, id);
    lemma_minus_keeps(p, id);
    assert(after.surface_ids[at] == id);
    assert forall|other: Seq<char>|
        other != id && #[trigger] p.surface_ids.contains(other) implies after.surface_ids.contains(
        other,
    ) by {
        assert(mid.surface_ids.contains(other));
        let k = choose|k: int| 0 <= k < mid.surface_ids.len() && mid.surface_ids[k] == other;
        let j = if k < at {
            k
        } else {
            k + 1
        };
        assert(after.surface_ids[j] == other);
    }
}

/// The place at which a surface is put stands in the list, or at its end.
proof fn lemma_insertion(
    ids: Seq<Seq<char>>,
    index: Option<usize>,
    before: Option<Seq<char>>,
    after: Option<Seq<char>>,
)
    ensures
        0 <= insertion(ids, index, before, after) <= ids.len(),
{
    if let Some(id) = before {
        lemma_first_from(ids, id, 0);
    }
    if let Some(id) = after {
        lemma_first_from(ids, id, 0);
    }
}

/// What a request calls a surface comes to the plain name of one, and the
/// surface is found by it.
pub proof fn lemma_moving_surface(s: StateView, params: Option<JsonView>)
    requires
        all_whole(s.workspaces),
    ensures
        move_plan(s, params) matches Ok(plan) ==> 0 <= plan.w < s.workspaces.len() && 0 <= plan.s
            < s.workspaces[plan.w].surfaces.len() && 0 <= plan.tw < s.workspaces.len() && 0 <= plan.tp
            < s.workspaces[plan.tw].panes.len() && s.workspaces[plan.w].surfaces[plan.s].id
            == plan.id && first_at(surface_ids(s.workspaces[plan.w].surfaces), plan.id) == Some(
            plan.s,
        ) && reference_index(plan.id, "surface"@) is None,
{
    crate::moving::lemma_move_plan(s, params);
    if let Ok(plan) = move_plan(s, params) {
        let (w, i) = choose|w: int, i: int|
            0 <= w < s.workspaces.len() && 0 <= i < s.workspaces[w].surfaces.len()
                && #[trigger] s.workspaces[w].surfaces[i].id == plan.id;
        assert(is_whole(s.workspaces[w]));
        assert(reference_index(s.workspaces[w].surfaces[i].id, "surface"@) is None);
        assert(surface_at(s, plan.id) == surface_place(s.workspaces, plan.id, 0));
        lemma_surface_place(s.workspaces, plan.id, 0);
        let ids = surface_ids(s.workspaces[plan.w].surfaces);
        lemma_first_from(ids, plan.id, 0);
        assert(ids[plan.s] == plan.id);
        let k = first_at(ids, plan.id)->0;
        assert(ids[k] == plan.id);
        assert(s.workspaces[plan.w].surfaces[k].id == s.workspaces[plan.w].surfaces[plan.s].id);
    }
}

/// The panes of a workspace after a move.
proof fn lemma_moved_panes(s: StateView, plan: MovePlanView, v: int)
    requires
        0 <= plan.w < s.workspaces.len(),
        0 <= plan.tw < s.workspaces.len(),
        0 <= plan.tp < s.workspaces[plan.tw].panes.len(),
        0 <= v < s.workspaces.len(),
    ensures
        surface_moved_state(s, plan).workspaces.len() == s.workspaces.len(),
        surface_moved_state(s, plan).workspaces[v].layout == s.workspaces[v].layout,
        surface_moved_state(s, plan).workspaces[v].panes.len() == s.workspaces[v].panes.len(),
        forall|q: int|
            0 <= q < s.workspaces[v].panes.len() ==> keeps_others(
                s.workspaces[v].panes[q],
                #[trigger] surface_moved_state(s, plan).workspaces[v].panes[q],
                plan.id,
            ),
        v == plan.tw ==> stands(surface_moved_state(s, plan).workspaces[v], plan.id),
{
    let id = plan.id;
    let cleared = state_minus(s, id);
    let pane = cleared.workspaces[plan.tw].panes[plan.tp];
    let at = insertion(pane.surface_ids, plan.index, plan.before, plan.after);
    let placed = cleared.with_pane(plan.tw, plan.tp, pane_plus(pane, at, id));
    let after = surface_moved_state(s, plan).workspaces[v];
    lemma_insertion(pane.surface_ids, plan.index, plan.before, plan.after);
    lemma_first_from(surface_ids(placed.workspaces[plan.w].surfaces), id, 0);
    assert(after.panes == placed.workspaces[v].panes);
    assert forall|q: int| 0 <= q < s.workspaces[v].panes.len() implies keeps_others(
        s.workspaces[v].panes[q],
        #[trigger] after.panes[q],
        id,
    ) by {
        let old_pane = s.workspaces[v].panes[q];
        lemma_minus_keeps(old_pane, id);
        if v == plan.tw && q == plan.tp {
            assert(pane == pane_minus(old_pane, id));
            lemma_plus_keeps(old_pane, at, id);
        } else {
            assert(after.panes[q] == pane_minus(old_pane, id));
        }
    }
    if v == plan.tw {
        let old_pane = s.workspaces[v].panes[plan.tp];
        assert(pane == pane_minus(old_pane, id));
        lemma_plus_keeps(old_pane, at, id);
        assert(after.panes[plan.tp].surface_ids.contains(id));
    }
}

/// Where a surface stood before a move.
pub open spec fn origin(s: StateView, plan: MovePlanView, v: int, k: int) -> (int, int) {
    if plan.w == plan.tw {
        (v, k)
    } else if v == plan.tw && k == s.workspaces[v].surfaces.len() {
        (plan.w, plan.s)
    } else if v == plan.w && k >= plan.s {
        (v, k + 1)
    } else {
        (v, k)
    }
}

/// The surfaces after a move are those before it, each with its id and page.
pub proof fn lemma_origin(s: StateView, plan: MovePlanView, v: int, k: int)
    requires
        0 <= plan.w < s.workspaces.len(),
        0 <= plan.s < s.workspaces[plan.w].surfaces.len(),
        0 <= plan.tw < s.workspaces.len(),
        0 <= plan.tp < s.workspaces[plan.tw].panes.len(),
        first_at(surface_ids(s.workspaces[plan.w].surfaces), plan.id) == Some(plan.s),
        0 <= v < s.workspaces.len(),
        0 <= k < surface_moved_state(s, plan).workspaces[v].surfaces.len(),
    ensures
        ({
            let (w, i) = origin(s, plan, v, k);
            let surface = surface_moved_state(s, plan).workspaces[v].surfaces[k];
            &&& 0 <= w < s.workspaces.len()
            &&& 0 <= i < s.workspaces[w].surfaces.len()
            &&& surface.id == s.workspaces[w].surfaces[i].id
            &&& surface.browser_state == s.workspaces[w].surfaces[i].browser_state
        }),
{
    let id = plan.id;
    let cleared = state_minus(s, id);
    let pane = cleared.workspaces[plan.tw].panes[plan.tp];
    let at = insertion(pane.surface_ids, plan.index, plan.before, plan.after);
    let placed = cleared.with_pane(plan.tw, plan.tp, pane_plus(pane, at, id));
    assert forall|x: int| 0 <= x < s.workspaces.len() implies (
    #[trigger] placed.workspaces[x]).surfaces == s.workspaces[x].surfaces by {}
    assert(placed.workspaces[plan.w].surfaces == s.workspaces[plan.w].surfaces);
}

/// Moving a surface keeps all whole.
proof fn lemma_surface_moved(app: AppView, params: Option<JsonView>)
    requires
        all_whole(app.state.workspaces),
    ensures
        all_whole(surface_moved(app, params).app.state.workspaces),
{
    let s = app.state;
    lemma_moving_surface(s, params);
    if let Ok(plan) = move_plan(s, params) {
        let list = s.workspaces;
        let after = surface_moved_state(s, plan).workspaces;
        lemma_moved_panes(s, plan, 0);
        assert forall|v: int| 0 <= v < after.len() implies is_whole(#[trigger] after[v]) by {
            lemma_moved_panes(s, plan, v);
            assert forall|k: int| 0 <= k < after[v].surfaces.len() implies #[trigger] is_settled(
                list[v],
                after[v],
                k,
                plan.id,
            ) by {
                lemma_moved_settled(s, plan, v, k);
            }
            assert(is_whole(list[v]));
            lemma_settled(list[v], after[v], plan.id);
        }
        assert forall|a: int, i: int, b: int, j: int|
            0 <= a < after.len() && 0 <= b < after.len() && 0 <= i < after[a].surfaces.len() && 0
                <= j < after[b].surfaces.len() && (#[trigger] after[a].surfaces[i]).id == (
            #[trigger] after[b].surfaces[j]).id implies a == b && i == j by {
            lemma_origin(s, plan, a, i);
            lemma_origin(s, plan, b, j);
            let (w, x) = origin(s, plan, a, i);
            let (v, y) = origin(s, plan, b, j);
            assert(list[w].surfaces[x].id == list[v].surfaces[y].id);
        }
    }
}

/// The surfaces of a workspace are settled after a move.
proof fn lemma_moved_settled(s: StateView, plan: MovePlanView, v: int, k: int)
    requires
        all_whole(s.workspaces),
        0 <= plan.w < s.workspaces.len(),
        0 <= plan.s < s.workspaces[plan.w].surfaces.len(),
        0 <= plan.tw < s.workspaces.len(),
        0 <= plan.tp < s.workspaces[plan.tw].panes.len(),
        s.workspaces[plan.w].surfaces[plan.s].id == plan.id,
        first_at(surface_ids(s.workspaces[plan.w].surfaces), plan.id) == Some(plan.s),
        reference_index(plan.id, "surface"@) is None,
        0 <= v < s.workspaces.len(),
        0 <= k < surface_moved_state(s, plan).workspaces[v].surfaces.len(),
    ensures
        is_settled(
            s.workspaces[v],
            surface_moved_state(s, plan).workspaces[v],
            k,
            plan.id,
        ),
{
    let list = s.workspaces;
    let after = surface_moved_state(s, plan).workspaces[v];
    lemma_origin(s, plan, v, k);
    let (w, i) = origin(s, plan, v, k);
    assert(is_whole(list[w]));
    assert(list[w].surfaces[i].browser_state.well_formed());
    if after.surfaces[k].id == plan.id {
        assert(list[w].surfaces[i].id == list[plan.w].surfaces[plan.s].id);
        lemma_moved_panes(s, plan, v);
    } else {
        assert(list[v].surfaces[i].id == after.surfaces[k].id);
    }
}

// ---------------------------------------------------------------------------
// Pages

/// What is found under a key stands in the list.
proof fn lemma_lookup_stands(elements: Seq<(Seq<char>, ElementView)>, key: Seq<char>)
    ensures
        lookup(elements, key) matches Some(e) ==> exists|i: int|
            0 <= i < elements.len() && (#[trigger] elements[i]).1 == e,
    decreases elements.len(),
{
    if elements.len() > 0 {
        if elements[0].0 == key {
            assert(elements[0].1 == lookup(elements, key)->0);
        } else {
            lemma_lookup_stands(elements.skip(1), key);
            if let Some(e) = lookup(elements, key) {
                let rest = elements.skip(1);
                let i = choose|i: int| 0 <= i < rest.len() && (#[trigger] rest[i]).1 == e;
                assert(elements[i + 1].1 == e);
            }
        }
    }
}

/// A changed element of a well-formed page keeps it well-formed, if it has the
/// attributes it had.
proof fn lemma_element_changed(page: PageView, key: Seq<char>, id: Seq<char>, e: ElementView)
    requires
        page.well_formed(),
        lookup(page.elements, key) is Some,
        e.attrs == lookup(page.elements, key)->0.attrs,
    ensures
        page.with_element(id, e).well_formed(),
{
    lemma_lookup_stands(page.elements, key);
    let found = lookup(page.elements, key)->0;
    let i = choose|i: int| 0 <= i < page.elements.len() && (#[trigger] page.elements[i]).1 == found;
    assert(in_order(page.elements[i].1.attrs));
    law_put_element_keeps_form(page, id, e);
}

/// Another text keeps a page well-formed.
proof fn lemma_with_text(page: PageView, id: Seq<char>, text: Seq<char>)
    requires
        page.well_formed(),
    ensures
        with_text(page, id, text).well_formed(),
{
    if let Some(e) = lookup(page.elements, id) {
        lemma_element_changed(page, id, id, ElementView { text, ..e });
    }
}

/// A gesture keeps a page well-formed.
proof fn lemma_gestured(page: PageView, selector: Seq<char>, g: GestureView)
    requires
        page.well_formed(),
    ensures
        gestured(page, selector, g) matches Ok(after) ==> after.well_formed(),
{
    lemma_with_text(page, "status"@, form_value(page));
    lemma_with_text(
        with_text(page, "status"@, form_value(page)),
        "out"@,
        form_value(page),
    );
    if let Ok(id) = crate::query::element_id(page, selector) {
        if let Some(e) = lookup(page.elements, id) {
            lemma_element_changed(page, id, id, element_after(e, g));
        }
    }
}

/// A request for a page keeps it well-formed.
proof fn lemma_automation_page(
    surface: SurfaceView,
    method: Seq<char>,
    params: Option<JsonView>,
    readings: Readings,
    replies: Seq<ReplyView>,
)
    requires
        surface.browser_state.well_formed(),
    ensures
        automation_act(surface, method, params, readings, replies) matches ActView::Done(page, _)
            ==> page.well_formed(),
{
    let page = surface.browser_state;
    if let Some(value) = crate::rpc::param(params, "state"@) {
        if page_in(value) is Some {
            law_loaded_page_is_well_formed(value);
        }
    }
    assert(load_act(surface.id, page, params, replies) matches ActView::Done(p, _)
        ==> p.well_formed());
    if let Some(Ok(g)) = crate::acting::gesture_for(method, params, readings) {
        if let Some(selector) = crate::rpc::text1(params, "selector"@) {
            lemma_gestured(page, selector, g);
        }
    }
}

// ---------------------------------------------------------------------------
// Surfaces and browsers

/// Whether all is whole.
#[verifier::opaque]
spec fn holds_together(app: AppView) -> bool {
    all_whole(app.state.workspaces)
}

/// The requests about surfaces keep all whole.
proof fn lemma_surface_turns(
    app: AppView,
    method: Seq<char>,
    params: Option<JsonView>,
    clock: Clock,
    replies: Seq<ReplyView>,
)
    requires
        holds_together(app),
        gives_new_ids(app, clock.nanos),
    ensures
        surface_turn(app, method, params, clock, replies) matches Some(turn) ==> holds_together(
            turn.app,
        ),
{
    assert(holds_together(surface_created(app, clock.nanos, params).app)) by {
        reveal(holds_together);
        lemma_surface_created(app, clock.nanos, params);
    }
    assert(holds_together(surface_closed(app, params, replies).app)) by {
        reveal(holds_together);
        lemma_surface_closed(app, params, replies);
    }
    assert(holds_together(surface_moved(app, params).app)) by {
        reveal(holds_together);
        lemma_surface_moved(app, params);
    }
    assert(holds_together(surface_focused(app, params, replies).app)) by {
        reveal(holds_together);
        lemma_surface_focused(app, params, replies);
    }
    assert(holds_together(sent(app, params, Sending::Text, replies).app)) by {
        reveal(holds_together);
        lemma_sent(app, params, Sending::Text, replies);
    }
    assert(holds_together(sent(app, params, Sending::Key, replies).app)) by {
        reveal(holds_together);
        lemma_sent(app, params, Sending::Key, replies);
    }
    assert(holds_together(history_cleared(app, params, replies).app)) by {
        reveal(holds_together);
        lemma_history_cleared(app, params, replies);
    }
}

/// A surface that gets the focus keeps all whole.
proof fn lemma_surface_focused(app: AppView, params: Option<JsonView>, replies: Seq<ReplyView>)
    requires
        all_whole(app.state.workspaces),
    ensures
        all_whole(surface_focused(app, params, replies).app.state.workspaces),
        all_whole(webview_focused(app, params, replies).app.state.workspaces),
{
    if let Ok((w, i)) = crate::surfaces::requested_surface(app.state, params) {
        lemma_raised(app.state, app.state.workspaces[w].surfaces[i]);
    }
}

/// What is sent to a surface keeps all whole.
proof fn lemma_sent(
    app: AppView,
    params: Option<JsonView>,
    sending: Sending,
    replies: Seq<ReplyView>,
)
    requires
        all_whole(app.state.workspaces),
    ensures
        all_whole(sent(app, params, sending, replies).app.state.workspaces),
{
    let s = app.state;
    lemma_target_place(s, params);
    if let Ok((w, i)) = crate::input::target_place(s, params) {
        let old_surface = s.workspaces[w].surfaces[i];
        assert(is_whole(s.workspaces[w]));
        assert(old_surface.browser_state.well_formed());
        lemma_with_surface(
            s,
            w,
            i,
            SurfaceView {
                input_log: old_surface.input_log.push(crate::input::payload(params, sending)),
                ..old_surface
            },
        );
    }
}

/// A surface that is cleared keeps all whole.
proof fn lemma_history_cleared(app: AppView, params: Option<JsonView>, replies: Seq<ReplyView>)
    requires
        all_whole(app.state.workspaces),
    ensures
        all_whole(history_cleared(app, params, replies).app.state.workspaces),
{
    let s = app.state;
    lemma_target_place(s, params);
    if let Ok((w, i)) = crate::input::target_place(s, params) {
        let old_surface = s.workspaces[w].surfaces[i];
        assert(is_whole(s.workspaces[w]));
        assert(old_surface.browser_state.well_formed());
        lemma_with_surface(s, w, i, surface_cleared(old_surface));
    }
}

/// A browser that goes elsewhere keeps all whole.
proof fn lemma_browser_moved(s: StateView, w: int, i: int, surface: SurfaceView)
    requires
        all_whole(s.workspaces),
        0 <= w < s.workspaces.len(),
        0 <= i < s.workspaces[w].surfaces.len(),
        surface.id == s.workspaces[w].surfaces[i].id,
        surface.browser_state.well_formed(),
    ensures
        all_whole(browser_moved(s, w, i, surface).workspaces),
{
    lemma_with_surface(s, w, i, surface);
}

/// Navigation keeps all whole.
proof fn lemma_navigated(app: AppView, params: Option<JsonView>, replies: Seq<ReplyView>)
    requires
        all_whole(app.state.workspaces),
    ensures
        all_whole(navigated(app, params, replies).app.state.workspaces),
{
    let s = app.state;
    lemma_target_place(s, params);
    if let Ok(url) = crate::rpc::required(crate::rpc::text1(params, "url"@), "url"@) {
        if let Ok((w, i)) = browser_place(s, params) {
            law_read_page_is_well_formed(url);
            lemma_browser_moved(s, w, i, gone_to(s.workspaces[w].surfaces[i], url));
        }
    }
}

/// A step in a history keeps all whole.
proof fn lemma_history_stepped(
    app: AppView,
    params: Option<JsonView>,
    step: HistoryStep,
    replies: Seq<ReplyView>,
)
    requires
        all_whole(app.state.workspaces),
    ensures
        all_whole(history_stepped(app, params, step, replies).app.state.workspaces),
{
    let s = app.state;
    lemma_target_place(s, params);
    if let Ok((w, i)) = browser_place(s, params) {
        let surface = gone_along(s.workspaces[w].surfaces[i], step);
        if let Some(url) = surface.url {
            law_read_page_is_well_formed(url);
        }
        lemma_browser_moved(s, w, i, surface);
    }
}

/// A request for a page keeps all whole.
proof fn lemma_automated(
    app: AppView,
    method: Seq<char>,
    params: Option<JsonView>,
    readings: Readings,
    replies: Seq<ReplyView>,
)
    requires
        all_whole(app.state.workspaces),
    ensures
        all_whole(automated(app, method, params, readings, replies).app.state.workspaces),
{
    let s = app.state;
    if let Ok(id) = crate::input::target_surface(s, params) {
        lemma_surface_at(s, id);
        if let Ok((w, i)) = automation_place(app, params) {
            let surface = s.workspaces[w].surfaces[i];
            assert(is_whole(s.workspaces[w]));
            assert(surface.browser_state.well_formed());
            lemma_automation_page(surface, method, params, readings, replies);
            if let ActView::Done(page, value) = automation_act(
                surface,
                method,
                params,
                readings,
                replies,
            ) {
                lemma_with_surface(s, w, i, showing(surface, page));
            }
        }
    }
}

/// The requests about browsers keep all whole.
proof fn lemma_browser_turns(
    app: AppView,
    method: Seq<char>,
    params: Option<JsonView>,
    readings: Readings,
    clock: Clock,
    replies: Seq<ReplyView>,
)
    requires
        holds_together(app),
        gives_new_ids(app, clock.nanos),
    ensures
        browser_turn(app, method, params, readings, clock, replies) matches Some(turn)
            ==> holds_together(turn.app),
{
    let browser = crate::routing::with_browser_kind(params);
    assert(holds_together(pane_created(app, clock.nanos, browser).app)) by {
        reveal(holds_together);
        lemma_pane_created(app, clock.nanos, browser);
    }
    assert(holds_together(navigated(app, params, replies).app)) by {
        reveal(holds_together);
        lemma_navigated(app, params, replies);
    }
    assert(holds_together(history_stepped(app, params, HistoryStep::Back, replies).app)) by {
        reveal(holds_together);
        lemma_history_stepped(app, params, HistoryStep::Back, replies);
    }
    assert(holds_together(history_stepped(app, params, HistoryStep::Forward, replies).app)) by {
        reveal(holds_together);
        lemma_history_stepped(app, params, HistoryStep::Forward, replies);
    }
    assert(holds_together(webview_focused(app, params, replies).app)) by {
        reveal(holds_together);
        lemma_surface_focused(app, params, replies);
    }
    assert(holds_together(automated(app, method, params, readings, replies).app)) by {
        reveal(holds_together);
        lemma_automated(app, method, params, readings, replies);
    }
}

/// A command line keeps all whole.
proof fn lemma_command_line(app: AppView, line: Seq<char>, clock: Clock)
    requires
        all_whole(app.state.workspaces),
        gives_new_ids(app, clock.nanos),
    ensures
        all_whole(command_line_turn(app, line, clock).app.state.workspaces),
{
    let id = app.next_id("workspace"@, clock.nanos);
    let pane_id = app.counted().next_id("pane"@, clock.nanos);
    let surface_id = app.counted().counted().next_id("surface"@, clock.nanos);
    lemma_uuid_is_no_reference("pane"@, app.counted().next_ordinal, clock.nanos);
    lemma_uuid_is_no_reference("surface"@, app.counted().counted().next_ordinal, clock.nanos);
    lemma_terminal_workspace(id, pane_id, surface_id, "Workspace"@, None, None);
    lemma_pushed(
        app.state.workspaces,
        terminal_workspace(id, pane_id, surface_id, "Workspace"@, None, None),
    );
    let word = crate::page::or_empty(first_word(after_first_word(line)));
    let params = Some(naming_workspace(word));
    if let Ok(i) = crate::workspaces::requested_workspace(app, params) {
        crate::workspaces::lemma_requested_workspace(app, params);
        if app.state.workspaces.len() != 1 {
            lemma_removed(app.state.workspaces, i);
        }
    }
}

// ---------------------------------------------------------------------------
// Laws

/// Every request keeps all workspaces whole, as long as the ids that the shell
/// gives next are new: there is a workspace, each has a pane and shows its
/// panes, all of them and nothing else, every surface stands on a pane of its
/// workspace, no two surfaces have one id, and every page is well-formed.
pub proof fn law_every_turn_keeps_all_whole(
    app: AppView,
    method: Seq<char>,
    params: Option<JsonView>,
    readings: Readings,
    surroundings: SurroundingsView,
    clock: Clock,
    replies: Seq<ReplyView>,
)
    requires
        all_whole(app.state.workspaces),
        gives_new_ids(app, clock.nanos),
    ensures
        method_turn(app, method, params, readings, surroundings, clock, replies) matches Some(turn)
            ==> all_whole(turn.app.state.workspaces),
{
    reveal(holds_together);
    lemma_workspace_turns(app, method, params, clock);
    lemma_surface_turns(app, method, params, clock, replies);
    lemma_pane_turns(app, method, params, readings, clock);
    lemma_browser_turns(app, method, params, readings, clock, replies);
    assert(notification_turn(app, method, params, clock) matches Some(turn)
        ==> turn.app.state.workspaces == app.state.workspaces);
}

/// Every line keeps all workspaces whole, as long as the ids that the shell
/// gives next are new.
pub proof fn law_every_line_keeps_all_whole(
    app: AppView,
    line: Seq<char>,
    request: Option<RequestView>,
    surroundings: SurroundingsView,
    clock: Clock,
    replies: Seq<ReplyView>,
)
    requires
        all_whole(app.state.workspaces),
        gives_new_ids(app, clock.nanos),
    ensures
        all_whole(
            line_turn(
                app,
                line,
                request,
                surroundings,
                clock,
                replies,
            ).app.state.workspaces,
        ),
{
    match request {
        Some(r) => {
            law_every_turn_keeps_all_whole(
                app,
                r.method,
                r.params,
                r.readings,
                surroundings,
                clock,
                replies,
            );
        },
        None => {
            lemma_command_line(app, line, clock);
        },
    }
}

/// What the user does in the window keeps all workspaces whole, as long as the
/// ids that the shell gives next are new: selecting a workspace, focusing a
/// surface, opening a workspace, and clearing the notifications.
pub proof fn law_the_window_keeps_all_whole(
    app: AppView,
    identifier: Seq<char>,
    title: Seq<char>,
    nanos: u64,
)
    requires
        all_whole(app.state.workspaces),
        gives_new_ids(app, nanos),
    ensures
        all_whole(selected_by_id(app, identifier).1.state.workspaces),
        all_whole(focused_by_id(app, identifier).1.state.workspaces),
        all_whole(with_terminal_workspace(app, nanos, title, None, None).state.workspaces),
        all_whole(without_notifications(app).state.workspaces),
{
    let s = app.state;
    if let Ok(id) = surface_named(s, identifier) {
        lemma_named_surface(s, identifier);
        lemma_surface_at(s, id);
        let (w, i) = surface_at(s, id)->0;
        let surface = s.workspaces[w].surfaces[i];
        let panes = s.workspaces[w].panes;
        lemma_first_from(pane_ids(panes), surface.pane_id, 0);
        if let Some(p) = first_at(pane_ids(panes), surface.pane_id) {
            lemma_with_pane(
                s,
                w,
                p,
                PaneView { active_surface_id: Some(surface.id), ..panes[p] },
            );
        }
    }
    let id = app.next_id("workspace"@, nanos);
    let pane_id = app.counted().next_id("pane"@, nanos);
    let surface_id = app.counted().counted().next_id("surface"@, nanos);
    lemma_uuid_is_no_reference("pane"@, app.counted().next_ordinal, nanos);
    lemma_uuid_is_no_reference("surface"@, app.counted().counted().next_ordinal, nanos);
    lemma_terminal_workspace(id, pane_id, surface_id, title, None, None);
    lemma_pushed(
        s.workspaces,
        terminal_workspace(id, pane_id, surface_id, title, None, None),
    );
}

/// A session that starts from nothing is whole.
pub proof fn law_a_new_session_is_whole(app: AppView, nanos: u64)
    ensures
        all_whole(crate::session::with_default_state(app, nanos).state.workspaces),
{
    let id = app.next_id("workspace"@, nanos);
    let pane_id = app.counted().next_id("pane"@, nanos);
    let surface_id = app.counted().counted().next_id("surface"@, nanos);
    lemma_uuid_is_no_reference("pane"@, app.counted().next_ordinal, nanos);
    lemma_uuid_is_no_reference("surface"@, app.counted().counted().next_ordinal, nanos);
    lemma_terminal_workspace(id, pane_id, surface_id, "Default"@, None, None);
    let w = terminal_workspace(id, pane_id, surface_id, "Default"@, None, None);
    let none = Seq::<WorkspaceView>::empty();
    lemma_pushed(none, w);
    assert(none.push(w) =~= seq![w]);
}

} // verus!
