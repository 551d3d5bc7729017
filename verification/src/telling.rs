//! What requests and commands are told.

use crate::app_state::AppView;
use crate::dispatch::{command_line_turn, command_turn, naming_workspace, says};
use crate::host::{ReplyView, StepView};
use crate::input::{health_told, target_place};
use crate::json::{lemma_with_get, optional_text_view, JsonView};
use crate::lists::{first_at, lemma_first_from};
use crate::locate::current_index;
use crate::model::{kind_text, pane_ids, surface_ids, PaneView, SurfaceKind, SurfaceView, WorkspaceView};
use crate::notifications::Clock;
use crate::panes::{given_workspace, panes_from, panes_listed, panes_told, stack_from};
use crate::summary::{
    pane_summary, surface_result, surface_summary, workspace_result, workspace_summary,
};
use crate::surfaces::{surfaces_from, surfaces_listed, surfaces_told};
use crate::text::{after_first_word, decimal, first_word, is_white, trim_start, up_to_white};
use crate::workspaces::{identified, workspace_closed, workspace_selected, workspaces_listed};
use vstd::prelude::*;

verus! {

// ---------------------------------------------------------------------------
// Workspaces, panes and surfaces

/// What tells the keys of the answers apart: their lengths and some of their
/// characters.
pub proof fn lemma_answer_keys()
    ensures
        "id"@.len() == 2 && "id"@[0] == 'i' && "id"@[1] == 'd',
        "workspace_id"@.len() == 12 && "workspace_id"@[0] == 'w' && "workspace_id"@[1] == 'o'
            && "workspace_id"@[4] == 's',
        "window_id"@.len() == 9 && "window_id"@[0] == 'w' && "window_id"@[1] == 'i'
            && "window_id"@[4] == 'o',
        "ref"@.len() == 3 && "ref"@[0] == 'r' && "ref"@[1] == 'e',
        "index"@.len() == 5 && "index"@[0] == 'i' && "index"@[1] == 'n' && "index"@[4] == 'x',
        "title"@.len() == 5 && "title"@[0] == 't' && "title"@[1] == 'i' && "title"@[4] == 'e',
        "selected"@.len() == 8 && "selected"@[0] == 's' && "selected"@[1] == 'e'
            && "selected"@[4] == 'c',
        "pane_count"@.len() == 10 && "pane_count"@[0] == 'p' && "pane_count"@[1] == 'a'
            && "pane_count"@[4] == '_',
        "surface_count"@.len() == 13 && "surface_count"@[0] == 's' && "surface_count"@[1] == 'u'
            && "surface_count"@[4] == 'a',
        "workspace_ref"@.len() == 13 && "workspace_ref"@[0] == 'w' && "workspace_ref"@[1] == 'o'
            && "workspace_ref"@[4] == 's',
        "workspace"@.len() == 9 && "workspace"@[0] == 'w' && "workspace"@[1] == 'o'
            && "workspace"@[4] == 's',
        "pane_id"@.len() == 7 && "pane_id"@[0] == 'p' && "pane_id"@[1] == 'a'
            && "pane_id"@[4] == '_',
        "focused"@.len() == 7 && "focused"@[0] == 'f' && "focused"@[1] == 'o'
            && "focused"@[4] == 's',
        "selected_surface_id"@.len() == 19 && "selected_surface_id"@[0] == 's'
            && "selected_surface_id"@[1] == 'e' && "selected_surface_id"@[4] == 'c',
        "surface_id"@.len() == 10 && "surface_id"@[0] == 's' && "surface_id"@[1] == 'u'
            && "surface_id"@[4] == 'a',
        "panel_id"@.len() == 8 && "panel_id"@[0] == 'p' && "panel_id"@[1] == 'a'
            && "panel_id"@[4] == 'l',
        "workspaceId"@.len() == 11 && "workspaceId"@[0] == 'w' && "workspaceId"@[1] == 'o'
            && "workspaceId"@[4] == 's',
        "kind"@.len() == 4 && "kind"@[0] == 'k' && "kind"@[1] == 'i',
        "type"@.len() == 4 && "type"@[0] == 't' && "type"@[1] == 'y',
        "url"@.len() == 3 && "url"@[0] == 'u' && "url"@[1] == 'r',
        "initial_command"@.len() == 15 && "initial_command"@[0] == 'i'
            && "initial_command"@[1] == 'n' && "initial_command"@[4] == 'i',
        "working_directory"@.len() == 17 && "working_directory"@[0] == 'w'
            && "working_directory"@[1] == 'o' && "working_directory"@[4] == 'i',
        "surface_ref"@.len() == 11 && "surface_ref"@[0] == 's' && "surface_ref"@[1] == 'u'
            && "surface_ref"@[4] == 'a',
        "pane_ref"@.len() == 8 && "pane_ref"@[0] == 'p' && "pane_ref"@[1] == 'a'
            && "pane_ref"@[4] == '_',
        "surface"@.len() == 7 && "surface"@[0] == 's' && "surface"@[1] == 'u'
            && "surface"@[4] == 'a',
        "panes"@.len() == 5 && "panes"@[0] == 'p' && "panes"@[1] == 'a' && "panes"@[4] == 's',
        "surfaces"@.len() == 8 && "surfaces"@[0] == 's' && "surfaces"@[1] == 'u'
            && "surfaces"@[4] == 'a',
        "workspaces"@.len() == 10 && "workspaces"@[0] == 'w' && "workspaces"@[1] == 'o'
            && "workspaces"@[4] == 's',
        "pane"@.len() == 4 && "pane"@[0] == 'p' && "pane"@[1] == 'a',
        "platform"@.len() == 8 && "platform"@[0] == 'p' && "platform"@[1] == 'l'
            && "platform"@[4] == 'f',
        "ok"@.len() == 2 && "ok"@[0] == 'o' && "ok"@[1] == 'k',
        "backend"@.len() == 7 && "backend"@[0] == 'b' && "backend"@[1] == 'a'
            && "backend"@[4] == 'e',
        "live_io"@.len() == 7 && "live_io"@[0] == 'l' && "live_io"@[1] == 'i'
            && "live_io"@[4] == '_',
        "terminal"@.len() == 8 && "terminal"@[0] == 't' && "terminal"@[1] == 'e'
            && "terminal"@[4] == 'i',
        "browser_live"@.len() == 12 && "browser_live"@[0] == 'b' && "browser_live"@[1] == 'r'
            && "browser_live"@[4] == 's',
        "text"@.len() == 4 && "text"@[0] == 't' && "text"@[1] == 'e',
        "dialog"@.len() == 6 && "dialog"@[0] == 'd' && "dialog"@[1] == 'i' && "dialog"@[4] == 'o',
        "accepted"@.len() == 8 && "accepted"@[0] == 'a' && "accepted"@[1] == 'c'
            && "accepted"@[4] == 'p',
        "live_webview"@.len() == 12 && "live_webview"@[0] == 'l' && "live_webview"@[1] == 'i'
            && "live_webview"@[4] == '_',
        "download"@.len() == 8 && "download"@[0] == 'd' && "download"@[1] == 'o'
            && "download"@[4] == 'l',
        "frame"@.len() == 5 && "frame"@[0] == 'f' && "frame"@[1] == 'r' && "frame"@[4] == 'e',
        "notification"@.len() == 12 && "notification"@[0] == 'n' && "notification"@[1] == 'o'
            && "notification"@[4] == 'f',
{
    reveal_strlit("id");
    reveal_strlit("workspace_id");
    reveal_strlit("window_id");
    reveal_strlit("ref");
    reveal_strlit("index");
    reveal_strlit("title");
    reveal_strlit("selected");
    reveal_strlit("pane_count");
    reveal_strlit("surface_count");
    reveal_strlit("workspace_ref");
    reveal_strlit("workspace");
    reveal_strlit("pane_id");
    reveal_strlit("focused");
    reveal_strlit("selected_surface_id");
    reveal_strlit("surface_id");
    reveal_strlit("panel_id");
    reveal_strlit("workspaceId");
    reveal_strlit("kind");
    reveal_strlit("type");
    reveal_strlit("url");
    reveal_strlit("initial_command");
    reveal_strlit("working_directory");
    reveal_strlit("surface_ref");
    reveal_strlit("pane_ref");
    reveal_strlit("surface");
    reveal_strlit("panes");
    reveal_strlit("surfaces");
    reveal_strlit("workspaces");
    reveal_strlit("pane");
    reveal_strlit("platform");
    reveal_strlit("ok");
    reveal_strlit("backend");
    reveal_strlit("live_io");
    reveal_strlit("terminal");
    reveal_strlit("browser_live");
    reveal_strlit("text");
    reveal_strlit("dialog");
    reveal_strlit("accepted");
    reveal_strlit("live_webview");
    reveal_strlit("download");
    reveal_strlit("frame");
    reveal_strlit("notification");
}

/// What is told of a workspace is what it is: its id and title, its number,
/// counted from one, whether it is the active one, and how much it holds.
pub proof fn law_workspaces_are_told_as_they_are(app: AppView, index: int, w: WorkspaceView)
    requires
        0 <= index < u64::MAX,
        w.panes.len() <= u64::MAX,
        w.surfaces.len() <= u64::MAX,
    ensures
        ({
            let told = workspace_summary(app, index, w);
            &&& told.get("id"@) == Some(JsonView::Text(w.id))
            &&& told.get("workspace_id"@) == Some(JsonView::Text(w.id))
            &&& told.get("window_id"@) == Some(JsonView::Text(app.window_id))
            &&& told.get("title"@) == Some(JsonView::Text(w.title))
            &&& told.get("ref"@) == Some(
                JsonView::Text("workspace:"@ + decimal((index + 1) as nat)),
            )
            &&& told.get("index"@) matches Some(JsonView::Unsigned(n)) && n == index + 1
            &&& told.get("selected"@) == Some(
                JsonView::Bool(app.state.active_workspace_id == Some(w.id)),
            )
            &&& told.get("pane_count"@) matches Some(JsonView::Unsigned(n)) && n == w.panes.len()
            &&& told.get("surface_count"@) matches Some(JsonView::Unsigned(n)) && n
                == w.surfaces.len()
        }),
        ({
            let told = workspace_result(app, index, w);
            &&& told.get("workspace_id"@) == Some(JsonView::Text(w.id))
            &&& told.get("workspace_ref"@) == Some(
                JsonView::Text("workspace:"@ + decimal((index + 1) as nat)),
            )
            &&& told.get("window_id"@) == Some(JsonView::Text(app.window_id))
            &&& told.get("workspace"@) == Some(workspace_summary(app, index, w))
        }),
{
    broadcast use lemma_with_get;

    lemma_answer_keys();
}

/// What is told of a pane is what it is: its number, how many surfaces it has,
/// whether it has the focus and which surface is on top.
pub proof fn law_panes_are_told_as_they_are(
    app: AppView,
    w: WorkspaceView,
    index: int,
    p: PaneView,
)
    requires
        0 <= index < u64::MAX,
        p.surface_ids.len() <= u64::MAX,
    ensures
        ({
            let told = pane_summary(app, w, index, p);
            &&& told.get("id"@) == Some(JsonView::Text(p.id))
            &&& told.get("pane_id"@) == Some(JsonView::Text(p.id))
            &&& told.get("workspace_id"@) == Some(JsonView::Text(w.id))
            &&& told.get("window_id"@) == Some(JsonView::Text(app.window_id))
            &&& told.get("ref"@) == Some(JsonView::Text("pane:"@ + decimal((index + 1) as nat)))
            &&& told.get("index"@) matches Some(JsonView::Unsigned(n)) && n == index + 1
            &&& told.get("surface_count"@) matches Some(JsonView::Unsigned(n)) && n
                == p.surface_ids.len()
            &&& told.get("focused"@) == Some(JsonView::Bool(app.state.active_pane_id == Some(p.id)))
            &&& p.active_surface_id matches Some(id) ==> told.get("selected_surface_id"@) == Some(
                JsonView::Text(id),
            )
            &&& p.active_surface_id is None ==> told.get("selected_surface_id"@) == Some(
                JsonView::Null,
            )
        }),
{
    broadcast use lemma_with_get;

    lemma_answer_keys();
}

/// What is told of a surface is what it is.
pub proof fn law_surfaces_are_told_as_they_are(
    app: AppView,
    w: WorkspaceView,
    index: int,
    s: SurfaceView,
    p: int,
)
    requires
        0 <= index < u64::MAX,
    ensures
        ({
            let told = surface_summary(app, w, index, s);
            &&& told.get("id"@) == Some(JsonView::Text(s.id))
            &&& told.get("surface_id"@) == Some(JsonView::Text(s.id))
            &&& told.get("panel_id"@) == Some(JsonView::Text(s.id))
            &&& told.get("pane_id"@) == Some(JsonView::Text(s.pane_id))
            &&& told.get("workspace_id"@) == Some(JsonView::Text(w.id))
            &&& told.get("workspaceId"@) == Some(JsonView::Text(w.id))
            &&& told.get("window_id"@) == Some(JsonView::Text(app.window_id))
            &&& told.get("ref"@) == Some(JsonView::Text("surface:"@ + decimal((index + 1) as nat)))
            &&& told.get("index"@) matches Some(JsonView::Unsigned(n)) && n == index + 1
            &&& told.get("title"@) == Some(JsonView::Text(s.title))
            &&& told.get("kind"@) == Some(JsonView::Text(kind_text(s.kind)))
            &&& told.get("type"@) == Some(JsonView::Text(kind_text(s.kind)))
            &&& s.url matches Some(u) ==> told.get("url"@) == Some(JsonView::Text(u))
            &&& s.initial_command matches Some(u) ==> told.get("initial_command"@) == Some(
                JsonView::Text(u),
            )
            &&& s.working_directory matches Some(u) ==> told.get("working_directory"@) == Some(
                JsonView::Text(u),
            )
            &&& told.get("focused"@) == Some(
                JsonView::Bool(app.state.active_surface_id == Some(s.id)),
            )
            &&& 0 <= p < w.panes.len() && w.panes[p].id == s.pane_id && (forall|j: int|
                0 <= j < p ==> (#[trigger] w.panes[j]).id != s.pane_id) ==> told.get("selected"@)
                == Some(JsonView::Bool(w.panes[p].active_surface_id == Some(s.id)))
        }),
{
    broadcast use lemma_with_get;

    lemma_answer_keys();
    if 0 <= p < w.panes.len() && w.panes[p].id == s.pane_id && (forall|j: int|
        0 <= j < p ==> (#[trigger] w.panes[j]).id != s.pane_id) {
        lemma_first_pane(w, s.pane_id, p);
    }
}

/// The first pane with an id is found.
proof fn lemma_first_pane(w: WorkspaceView, id: Seq<char>, p: int)
    requires
        0 <= p < w.panes.len(),
        w.panes[p].id == id,
        forall|j: int| 0 <= j < p ==> (#[trigger] w.panes[j]).id != id,
    ensures
        first_at(pane_ids(w.panes), id) == Some(p),
{
    let ids = pane_ids(w.panes);
    lemma_first_from(ids, id, 0);
    assert(ids[p] == id);
    assert forall|j: int| 0 <= j < p implies #[trigger] ids[j] != id by {
        assert(ids[j] == w.panes[j].id);
    }
}

/// An answer about a surface tells of it, of its pane and of its workspace.
pub proof fn law_answers_tell_of_the_surface(app: AppView, w: int, index: int, p: int)
    requires
        0 <= w < app.state.workspaces.len(),
        0 <= index < app.state.workspaces[w].surfaces.len(),
    ensures
        ({
            let workspace = app.state.workspaces[w];
            let s = workspace.surfaces[index];
            let told = surface_result(app, w, index, s);
            &&& told.get("workspace_id"@) == Some(JsonView::Text(s.workspace_id))
            &&& told.get("pane_id"@) == Some(JsonView::Text(s.pane_id))
            &&& told.get("surface_id"@) == Some(JsonView::Text(s.id))
            &&& told.get("panel_id"@) == Some(JsonView::Text(s.id))
            &&& told.get("surface_ref"@) == Some(
                JsonView::Text("surface:"@ + decimal((index + 1) as nat)),
            )
            &&& told.get("window_id"@) == Some(JsonView::Text(app.window_id))
            &&& told.get("workspace"@) == Some(workspace_summary(app, w, workspace))
            &&& told.get("surface"@) == Some(surface_summary(app, workspace, index, s))
            &&& 0 <= p < workspace.panes.len() && workspace.panes[p].id == s.pane_id
                && (forall|j: int|
                0 <= j < p ==> (#[trigger] workspace.panes[j]).id != s.pane_id) ==> told.get(
                "pane_ref"@,
            ) == Some(JsonView::Text("pane:"@ + decimal((p + 1) as nat)))
        }),
{
    broadcast use lemma_with_get;

    lemma_answer_keys();
    let workspace = app.state.workspaces[w];
    let s = workspace.surfaces[index];
    if 0 <= p < workspace.panes.len() && workspace.panes[p].id == s.pane_id && (forall|j: int|
        0 <= j < p ==> (#[trigger] workspace.panes[j]).id != s.pane_id) {
        lemma_first_pane(workspace, s.pane_id, p);
    }
}

/// What has the focus is told: the workspace, the pane and the surface.
pub proof fn law_the_focus_is_told(app: AppView)
    ensures
        identified(app).get("window_id"@) == Some(JsonView::Text(app.window_id)),
        identified(app).get("focused"@) matches Some(focused) && {
            &&& focused.get("window_id"@) == Some(JsonView::Text(app.window_id))
            &&& focused.get("workspace_id"@) == Some(
                optional_text_view(app.state.active_workspace_id),
            )
            &&& focused.get("pane_id"@) == Some(optional_text_view(app.state.active_pane_id))
            &&& focused.get("surface_id"@) == Some(optional_text_view(app.state.active_surface_id))
        },
{
    broadcast use lemma_with_get;

    lemma_answer_keys();
}

// ---------------------------------------------------------------------------
// Lists

/// The workspaces are listed in their order.
pub proof fn law_workspaces_are_listed_in_order(app: AppView, i: int)
    requires
        0 <= i < app.state.workspaces.len(),
    ensures
        workspaces_listed(app).get("workspaces"@) matches Some(JsonView::Array(list)) && list.len()
            == app.state.workspaces.len() && list[i].get("id"@) == Some(
            JsonView::Text(app.state.workspaces[i].id),
        ) && list[i].get("ref"@) == Some(JsonView::Text("workspace:"@ + decimal((i + 1) as nat))),
{
    broadcast use lemma_with_get;

    lemma_answer_keys();
}

/// Whether one workspace alone has its id.
pub open spec fn is_the_only(app: AppView, k: int) -> bool {
    &&& 0 <= k < app.state.workspaces.len()
    &&& forall|j: int|
        0 <= j < app.state.workspaces.len() && j != k ==> (#[trigger] app.state.workspaces[j]).id
            != app.state.workspaces[k].id
}

/// The panes of one workspace.
proof fn lemma_panes_of(app: AppView, k: int, from: int)
    requires
        is_the_only(app, k),
        0 <= from,
    ensures
        from <= k ==> panes_from(app, Some(app.state.workspaces[k].id), from) == panes_told(
            app,
            app.state.workspaces[k],
        ),
        from > k ==> panes_from(app, Some(app.state.workspaces[k].id), from)
            == Seq::<JsonView>::empty(),
    decreases app.state.workspaces.len() - from,
{
    if from < app.state.workspaces.len() {
        lemma_panes_of(app, k, from + 1);
        if from == k {
            let told = panes_told(app, app.state.workspaces[k]);
            assert(told + Seq::<JsonView>::empty() =~= told);
        } else {
            assert(app.state.workspaces[from].id != app.state.workspaces[k].id);
        }
    }
}

/// The surfaces of one workspace.
proof fn lemma_surfaces_of(app: AppView, k: int, from: int)
    requires
        is_the_only(app, k),
        0 <= from,
    ensures
        from <= k ==> surfaces_from(app, Some(app.state.workspaces[k].id), from) == surfaces_told(
            app,
            app.state.workspaces[k],
        ),
        from > k ==> surfaces_from(app, Some(app.state.workspaces[k].id), from)
            == Seq::<JsonView>::empty(),
    decreases app.state.workspaces.len() - from,
{
    if from < app.state.workspaces.len() {
        lemma_surfaces_of(app, k, from + 1);
        if from == k {
            let told = surfaces_told(app, app.state.workspaces[k]);
            assert(told + Seq::<JsonView>::empty() =~= told);
        } else {
            assert(app.state.workspaces[from].id != app.state.workspaces[k].id);
        }
    }
}

/// The panes and the surfaces of a workspace that a request names are listed, in
/// their order, and no others.
pub proof fn law_a_workspace_is_listed_alone(app: AppView, params: Option<JsonView>, k: int)
    requires
        is_the_only(app, k),
        given_workspace(app.state, params) == Ok::<Option<Seq<char>>, crate::rpc::ErrorView>(
            Some(app.state.workspaces[k].id),
        ),
    ensures
        ({
            let w = app.state.workspaces[k];
            &&& panes_listed(app, params) matches Ok(told) && told.get("panes"@) matches Some(
                JsonView::Array(list),
            ) && list.len() == w.panes.len() && forall|i: int|
                0 <= i < list.len() ==> (#[trigger] list[i]).get("id"@) == Some(
                    JsonView::Text(w.panes[i].id),
                )
            &&& surfaces_listed(app, params) matches Ok(told) && told.get("surfaces"@) matches Some(
                JsonView::Array(list),
            ) && list.len() == w.surfaces.len() && forall|i: int|
                0 <= i < list.len() ==> (#[trigger] list[i]).get("id"@) == Some(
                    JsonView::Text(w.surfaces[i].id),
                )
        }),
{
    broadcast use lemma_with_get;

    lemma_answer_keys();
    lemma_panes_of(app, k, 0);
    lemma_surfaces_of(app, k, 0);
}

/// The panes that stand before those of a workspace in the list of all.
spec fn panes_before(app: AppView, from: int, k: int) -> nat
    decreases k - from,
{
    if from >= k {
        0
    } else {
        app.state.workspaces[from].panes.len() + panes_before(app, from + 1, k)
    }
}

/// The surfaces that stand before those of a workspace in the list of all.
spec fn surfaces_before(app: AppView, from: int, k: int) -> nat
    decreases k - from,
{
    if from >= k {
        0
    } else {
        app.state.workspaces[from].surfaces.len() + surfaces_before(app, from + 1, k)
    }
}

/// Where a pane stands in the list of all.
proof fn lemma_pane_listed(app: AppView, from: int, k: int, i: int)
    requires
        0 <= from <= k < app.state.workspaces.len(),
        0 <= i < app.state.workspaces[k].panes.len(),
    ensures
        ({
            let list = panes_from(app, None, from);
            let at = panes_before(app, from, k) + i;
            &&& at < list.len()
            &&& list[at] == pane_summary(
                app,
                app.state.workspaces[k],
                i,
                app.state.workspaces[k].panes[i],
            )
        }),
    decreases k - from,
{
    if from < k {
        lemma_pane_listed(app, from + 1, k, i);
    }
}

/// Where a surface stands in the list of all.
proof fn lemma_surface_listed(app: AppView, from: int, k: int, i: int)
    requires
        0 <= from <= k < app.state.workspaces.len(),
        0 <= i < app.state.workspaces[k].surfaces.len(),
    ensures
        ({
            let list = surfaces_from(app, None, from);
            let at = surfaces_before(app, from, k) + i;
            &&& at < list.len()
            &&& list[at] == surface_summary(
                app,
                app.state.workspaces[k],
                i,
                app.state.workspaces[k].surfaces[i],
            )
        }),
    decreases k - from,
{
    if from < k {
        lemma_surface_listed(app, from + 1, k, i);
    }
}

/// Whether what is told is told of a thing with an id.
pub open spec fn lists(list: Seq<JsonView>, id: Seq<char>) -> bool {
    exists|at: int|
        0 <= at < list.len() && (#[trigger] list[at]).get("id"@) == Some(JsonView::Text(id))
}

/// Where a request names no workspace, the panes and the surfaces of all of them
/// are listed.
pub proof fn law_all_panes_and_surfaces_are_listed(
    app: AppView,
    params: Option<JsonView>,
    k: int,
    i: int,
)
    requires
        given_workspace(app.state, params) == Ok::<Option<Seq<char>>, crate::rpc::ErrorView>(None),
        0 <= k < app.state.workspaces.len(),
    ensures
        0 <= i < app.state.workspaces[k].panes.len() ==> (panes_listed(app, params) matches Ok(told)
            && told.get("panes"@) matches Some(JsonView::Array(list)) && lists(
            list,
            app.state.workspaces[k].panes[i].id,
        )),
        0 <= i < app.state.workspaces[k].surfaces.len() ==> (surfaces_listed(
            app,
            params,
        ) matches Ok(told) && told.get("surfaces"@) matches Some(JsonView::Array(list)) && lists(
            list,
            app.state.workspaces[k].surfaces[i].id,
        )),
{
    broadcast use lemma_with_get;

    lemma_answer_keys();
    if 0 <= i < app.state.workspaces[k].panes.len() {
        lemma_pane_listed(app, 0, k, i);
        let list = panes_from(app, None, 0);
        let at = panes_before(app, 0, k) + i;
        assert(list[at].get("id"@) == Some(JsonView::Text(app.state.workspaces[k].panes[i].id)));
        assert(lists(list, app.state.workspaces[k].panes[i].id));
        assert(panes_listed(app, params)->Ok_0.get("panes"@) == Some(JsonView::Array(list)));
    }
    if 0 <= i < app.state.workspaces[k].surfaces.len() {
        lemma_surface_listed(app, 0, k, i);
        let list = surfaces_from(app, None, 0);
        let at = surfaces_before(app, 0, k) + i;
        assert(list[at].get("id"@) == Some(JsonView::Text(app.state.workspaces[k].surfaces[i].id)));
        assert(lists(list, app.state.workspaces[k].surfaces[i].id));
        assert(surfaces_listed(app, params)->Ok_0.get("surfaces"@) == Some(JsonView::Array(list)));
    }
}

/// The surfaces of a pane are told in the order in which the pane has them, where
/// all of them are there.
pub proof fn law_the_surfaces_of_a_pane_are_told_in_order(
    app: AppView,
    w: WorkspaceView,
    ids: Seq<Seq<char>>,
    i: int,
)
    requires
        forall|j: int| 0 <= j < ids.len() ==> surface_ids(w.surfaces).contains(#[trigger] ids[j]),
        0 <= i < ids.len(),
    ensures
        stack_from(app, w, ids, 0).len() == ids.len(),
        stack_from(app, w, ids, 0)[i].get("id"@) == Some(JsonView::Text(ids[i])),
{
    lemma_stack(app, w, ids, 0);
}

/// The surfaces of a pane from one on.
proof fn lemma_stack(app: AppView, w: WorkspaceView, ids: Seq<Seq<char>>, from: int)
    requires
        forall|j: int| 0 <= j < ids.len() ==> surface_ids(w.surfaces).contains(#[trigger] ids[j]),
        0 <= from <= ids.len(),
    ensures
        stack_from(app, w, ids, from).len() == ids.len() - from,
        forall|i: int|
            from <= i < ids.len() ==> stack_from(app, w, ids, from)[i - from].get("id"@) == Some(
                JsonView::Text(#[trigger] ids[i]),
            ),
    decreases ids.len() - from,
{
    broadcast use lemma_with_get;

    lemma_answer_keys();
    if from < ids.len() {
        lemma_stack(app, w, ids, from + 1);
        let all = surface_ids(w.surfaces);
        assert(all.contains(ids[from]));
        lemma_first_from(all, ids[from], 0);
        let k = first_at(all, ids[from])->0;
        assert(all[k] == w.surfaces[k].id);
        let rest = stack_from(app, w, ids, from + 1);
        let told = surface_summary(app, w, from, w.surfaces[k]);
        assert(stack_from(app, w, ids, from) == seq![told] + rest);
        assert forall|i: int| from <= i < ids.len() implies stack_from(app, w, ids, from)[i
            - from].get("id"@) == Some(JsonView::Text(#[trigger] ids[i])) by {
            if i > from {
                assert((seq![told] + rest)[i - from] == rest[i - (from + 1)]);
            }
        }
    }
}

// ---------------------------------------------------------------------------
// Health

/// A surface is well unless it is a terminal without life: one that is not on
/// the screen, or that is there and has ended.
pub proof fn law_health_tells_of_the_terminal(
    app: AppView,
    params: Option<JsonView>,
    replies: Seq<ReplyView>,
)
    requires
        target_place(app.state, params) is Ok,
        replies.len() == 2,
    ensures
        ({
            let (w, i) = target_place(app.state, params)->Ok_0;
            let surface = app.state.workspaces[w].surfaces[i];
            let lives = replies[0] matches ReplyView::Terminal(Some(s)) && s.live;
            health_told(app, params, replies) matches StepView::Done(Ok(told)) && {
                &&& told.get("surface_id"@) == Some(JsonView::Text(surface.id))
                &&& told.get("kind"@) == Some(JsonView::Text(kind_text(surface.kind)))
                &&& surface.kind == SurfaceKind::Terminal ==> told.get("ok"@) == Some(
                    JsonView::Bool(lives),
                )
                &&& surface.kind != SurfaceKind::Terminal ==> told.get("ok"@) == Some(
                    JsonView::Bool(true),
                )
                &&& told.get("live_io"@) == Some(JsonView::Bool(lives))
                &&& replies[0] matches ReplyView::Terminal(Some(s)) ==> told.get("backend"@) == Some(
                    JsonView::Text(s.backend),
                )
                &&& replies[0] == ReplyView::Terminal(None) && surface.kind == SurfaceKind::Terminal
                    ==> told.get("backend"@) == Some(JsonView::Text("not-mounted"@))
                &&& surface.kind == SurfaceKind::Browser && replies[1] == ReplyView::Flag(true)
                    ==> told.get("browser_live"@) == Some(JsonView::Bool(true))
                &&& surface.kind != SurfaceKind::Browser || replies[1] == ReplyView::Flag(false)
                    ==> told.get("browser_live"@) == Some(JsonView::Bool(false))
            }
        }),
{
    broadcast use lemma_with_get;

    lemma_answer_keys();
}

// ---------------------------------------------------------------------------
// Commands

/// Whether a text is a word.
pub open spec fn is_word(s: Seq<char>) -> bool {
    s.len() > 0 && forall|i: int| 0 <= i < s.len() ==> !is_white(#[trigger] s[i])
}

/// A word goes up to the white space behind it.
proof fn lemma_word_ends(word: Seq<char>, rest: Seq<char>)
    requires
        forall|i: int| 0 <= i < word.len() ==> !is_white(#[trigger] word[i]),
        rest.len() > 0 ==> is_white(rest[0]),
    ensures
        up_to_white(word + rest) == word,
    decreases word.len(),
{
    let s = word + rest;
    if word.len() > 0 {
        assert(s[0] == word[0]);
        let less = word.skip(1);
        assert forall|i: int| 0 <= i < less.len() implies !is_white(#[trigger] less[i]) by {
            assert(less[i] == word[i + 1]);
        }
        lemma_word_ends(less, rest);
        assert(s.skip(1) =~= less + rest);
        assert(seq![word[0]] + less =~= word);
    } else {
        assert(s =~= rest);
        assert(up_to_white(s) =~= word);
    }
}

/// The first word of a line, and what stands behind it.
pub proof fn law_a_line_starts_with_its_first_word(word: Seq<char>, rest: Seq<char>)
    requires
        is_word(word),
        rest.len() > 0 ==> is_white(rest[0]),
    ensures
        first_word(word + rest) == Some(word),
        after_first_word(word + rest) == rest,
        first_word(seq![' '] + word) == Some(word),
{
    let s = word + rest;
    assert(s[0] == word[0]);
    assert(trim_start(s) == s);
    lemma_word_ends(word, rest);
    assert(s.skip(word.len() as int) =~= rest);
    let spaced = seq![' '] + word;
    assert(spaced.skip(1) =~= word);
    assert(!is_white(word[0]));
    assert(trim_start(word) == word);
    assert(trim_start(spaced) == word);
    lemma_word_ends(word, Seq::empty());
    assert(word + Seq::<char>::empty() =~= word);
}

/// The commands.
proof fn lemma_commands()
    ensures
        "ping"@.len() == 4 && is_word("ping"@),
        "new_window"@.len() == 10 && is_word("new_window"@),
        "current_window"@.len() == 14 && is_word("current_window"@),
        "list_windows"@.len() == 12 && "list_windows"@[0] == 'l' && is_word("list_windows"@),
        "close_window"@.len() == 12 && "close_window"@[0] == 'c' && is_word("close_window"@),
        "focus_window"@.len() == 12 && "focus_window"@[0] == 'f' && is_word("focus_window"@),
{
    reveal_strlit("ping");
    reveal_strlit("new_window");
    reveal_strlit("current_window");
    reveal_strlit("list_windows");
    reveal_strlit("close_window");
    reveal_strlit("focus_window");
}

/// The commands on a window that is named do to the workspace with that id what
/// the requests do: one to focus it selects it, and one to close it closes it.
pub proof fn law_commands_act_on_the_named_window(app: AppView, id: Seq<char>, clock: Clock)
    requires
        is_word(id),
    ensures
        ({
            let named = naming_workspace(id);
            &&& named.get("workspace_id"@) == Some(JsonView::Text(id))
            &&& command_line_turn(app, "focus_window"@ + (seq![' '] + id), clock) == command_turn(
                workspace_selected(app, Some(named)),
            )
            &&& command_line_turn(app, "close_window"@ + (seq![' '] + id), clock) == command_turn(
                workspace_closed(app, Some(named)),
            )
        }),
{
    broadcast use lemma_with_get;

    lemma_commands();
    lemma_answer_keys();
    let rest = seq![' '] + id;
    assert(rest[0] == ' ');
    law_a_line_starts_with_its_first_word("focus_window"@, rest);
    law_a_line_starts_with_its_first_word("close_window"@, rest);
    law_a_line_starts_with_its_first_word(id, Seq::empty());
}

/// A ping is answered, a question for the current window is answered with the id
/// of the active workspace, and a new window is a workspace at the end whose id
/// is said.
pub proof fn law_commands_say_what_they_found(app: AppView, clock: Clock, i: int)
    ensures
        command_line_turn(app, "ping"@, clock) == says(app, "pong"@),
        current_index(app.state) == Some(i) ==> command_line_turn(app, "current_window"@, clock)
            == says(app, app.state.workspaces[i].id),
        ({
            let turn = command_line_turn(app, "new_window"@, clock);
            let list = turn.app.state.workspaces;
            &&& list.len() == app.state.workspaces.len() + 1
            &&& turn.answer == crate::dispatch::AnswerView::Line(
                "OK window_id="@ + list[list.len() - 1].id,
            )
            &&& turn.app.state.active_workspace_id == Some(list[list.len() - 1].id)
        }),
{
    broadcast use lemma_with_get;

    lemma_commands();
    lemma_answer_keys();
    let none = Seq::<char>::empty();
    law_a_line_starts_with_its_first_word("ping"@, none);
    law_a_line_starts_with_its_first_word("current_window"@, none);
    law_a_line_starts_with_its_first_word("new_window"@, none);
    assert("ping"@ + none =~= "ping"@);
    assert("current_window"@ + none =~= "current_window"@);
    assert("new_window"@ + none =~= "new_window"@);
}

} // verus!
