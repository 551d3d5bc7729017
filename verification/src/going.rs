//! Where browsers go, and what requests that name nothing or nothing known come
//! to.

use crate::app_state::AppView;
use crate::automation::automation_place;
use crate::browsing::{
    browser_place, gone_along, gone_to, history_stepped, navigated, reloaded, url_told, HistoryStep,
};
use crate::host::{ActionView, CallView, ReplyView, StepView};
use crate::input::{target_place, target_surface};
use crate::json::{lemma_with_get, JsonView};
use crate::lists::{first_at, lemma_first_from};
use crate::locate::{
    current_index, lemma_pane_place, lemma_surface_place, pane_named, pane_place, reference_index,
    surface_named, surface_place, workspace_named,
};
use crate::model::{workspace_ids, StateView, SurfaceKind, SurfaceView};
use crate::page::page_for;
use crate::placing::{is_pane_id, is_surface_id};
use crate::rpc::{text1, text3};
use crate::telling::lemma_answer_keys;
use vstd::prelude::*;

verus! {

// ---------------------------------------------------------------------------
// Going

/// A view is asked to go where the request says; the answer tells the address and
/// whether the view went, and the surface shows the page of the address.
pub proof fn law_a_browser_goes_where_it_is_sent(
    app: AppView,
    params: Option<JsonView>,
    url: Seq<char>,
    live: bool,
)
    requires
        text1(params, "url"@) == Some(url),
        browser_place(app.state, params) is Ok,
    ensures
        ({
            let (w, i) = browser_place(app.state, params)->Ok_0;
            let surface = app.state.workspaces[w].surfaces[i];
            let asked = navigated(app, params, Seq::empty());
            let gone = navigated(app, params, seq![ReplyView::Flag(live)]);
            &&& asked.step == StepView::Ask(
                CallView { surface_id: surface.id, action: ActionView::BrowserNavigate(url) },
            )
            &&& asked.app == app
            &&& gone.step matches StepView::Done(Ok(v))
                && v.get("url"@) == Some(JsonView::Text(url))
                && v.get("surface_id"@) == Some(JsonView::Text(surface.id))
                    && v.get("workspace_id"@)
                == Some(JsonView::Text(surface.workspace_id)) && v.get("pane_id"@) == Some(
                JsonView::Text(surface.pane_id),
            ) && v.get("live_webview"@) == Some(JsonView::Bool(live))
            &&& gone.app.state.active_surface_id == Some(surface.id)
            &&& gone.app.state.active_workspace_id == Some(surface.workspace_id)
        }),
{
    broadcast use lemma_with_get;

    lemma_answer_keys();
    let replies = seq![ReplyView::Flag(live)];
    assert(replies[0] == ReplyView::Flag(live));
}

/// A surface that goes to an address has it as its last entry, behind those up to
/// where it stood, and shows its page.
pub proof fn law_going_ends_the_history(surface: SurfaceView, url: Seq<char>)
    requires
        surface.history_index matches Some(i) && i < surface.history.len(),
        surface.history.len() < usize::MAX,
    ensures
        ({
            let after = gone_to(surface, url);
            let i = surface.history_index->0 as int;
            &&& after.url == Some(url)
            &&& after.browser_state == page_for(url)
            &&& after.browser_state.title.len() > 0 ==> after.title == after.browser_state.title
            &&& after.browser_state.title.len() == 0 ==> after.title == url
            &&& after.history.len() == i + 2
            &&& after.history.last() == url
            &&& after.history.drop_last() == surface.history.take(i + 1)
            &&& after.history_index matches Some(k) && k == i + 1
            &&& after.id == surface.id && after.pane_id == surface.pane_id && after.workspace_id
                == surface.workspace_id && after.kind == surface.kind
        }),
{
    let after = gone_to(surface, url);
    let i = surface.history_index->0 as int;
    assert(after.history.drop_last() =~= surface.history.take(i + 1));
}

/// A step back or forward shows the entry before or behind, and a step at an end
/// stays there.
pub proof fn law_steps_go_along_the_history(surface: SurfaceView)
    requires
        surface.history_index matches Some(i) && i < surface.history.len(),
    ensures
        ({
            let i = surface.history_index->0 as int;
            let back = gone_along(surface, HistoryStep::Back);
            let forward = gone_along(surface, HistoryStep::Forward);
            &&& i > 0 ==> back.url == Some(surface.history[i - 1])
                && back.browser_state == page_for(
                surface.history[i - 1],
            )
            &&& i == 0 ==> back.url == Some(surface.history[0])
            &&& i + 1 < surface.history.len() ==> forward.url == Some(surface.history[i + 1])
                && forward.browser_state == page_for(surface.history[i + 1])
            &&& i + 1 == surface.history.len() ==> forward.url == Some(surface.history[i])
            &&& back.history == surface.history && forward.history == surface.history
        }),
{
}

/// A view is asked to step back for a step back and forward for a step forward;
/// where it could not it is sent to the address.
pub proof fn law_views_step_with_the_history(
    app: AppView,
    params: Option<JsonView>,
    step: HistoryStep,
)
    requires
        browser_place(app.state, params) is Ok,
        ({
            let (w, i) = browser_place(app.state, params)->Ok_0;
            app.state.workspaces[w].surfaces[i].history.len() > 0
        }),
    ensures
        ({
            let (w, i) = browser_place(app.state, params)->Ok_0;
            let surface = app.state.workspaces[w].surfaces[i];
            let url = gone_along(surface, step).url->0;
            &&& step == HistoryStep::Back ==> history_stepped(app, params, step, Seq::empty()).step
                == StepView::Ask(
                CallView { surface_id: surface.id, action: ActionView::BrowserBack },
            )
            &&& step == HistoryStep::Forward ==> history_stepped(
                app,
                params,
                step,
                Seq::empty(),
            ).step == StepView::Ask(
                CallView { surface_id: surface.id, action: ActionView::BrowserForward },
            )
            &&& history_stepped(app, params, step, seq![ReplyView::Flag(false)]).step
                == StepView::Ask(
                CallView { surface_id: surface.id, action: ActionView::BrowserNavigate(url) },
            )
            &&& history_stepped(
                app,
                params,
                step,
                seq![ReplyView::Flag(true)],
            ).step matches StepView::Done(Ok(v)) && v.get("url"@) == Some(JsonView::Text(url))
                && v.get("live_webview"@) == Some(JsonView::Bool(true))
        }),
{
    broadcast use lemma_with_get;

    lemma_answer_keys();
    assert(seq![ReplyView::Flag(false)][0] == ReplyView::Flag(false));
    assert(seq![ReplyView::Flag(true)][0] == ReplyView::Flag(true));
}

/// A view is asked to reload, and sent to the address where it could not; the
/// surface stays as it is.
pub proof fn law_reloading_goes_nowhere(app: AppView, params: Option<JsonView>, url: Seq<char>)
    requires
        browser_place(app.state, params) is Ok,
        ({
            let (w, i) = browser_place(app.state, params)->Ok_0;
            app.state.workspaces[w].surfaces[i].url == Some(url)
        }),
        url.len() > 0,
    ensures
        ({
            let (w, i) = browser_place(app.state, params)->Ok_0;
            let surface = app.state.workspaces[w].surfaces[i];
            &&& reloaded(app, params, Seq::empty()) == StepView::Ask(
                CallView { surface_id: surface.id, action: ActionView::BrowserReload },
            )
            &&& reloaded(app, params, seq![ReplyView::Flag(false)]) == StepView::Ask(
                CallView { surface_id: surface.id, action: ActionView::BrowserNavigate(url) },
            )
            &&& reloaded(app, params, seq![ReplyView::Flag(true)]) matches StepView::Done(Ok(v))
                && v.get("url"@) == Some(JsonView::Text(url)) && v.get("live_webview"@) == Some(
                JsonView::Bool(true),
            )
        }),
{
    broadcast use lemma_with_get;

    lemma_answer_keys();
    assert(seq![ReplyView::Flag(false)][0] == ReplyView::Flag(false));
    assert(seq![ReplyView::Flag(true)][0] == ReplyView::Flag(true));
}

/// The address and the title of a browser are told as they are.
pub proof fn law_the_address_is_told(app: AppView, params: Option<JsonView>)
    requires
        browser_place(app.state, params) is Ok,
    ensures
        ({
            let (w, i) = browser_place(app.state, params)->Ok_0;
            let surface = app.state.workspaces[w].surfaces[i];
            url_told(app, params) matches Ok(v) && {
                &&& surface.url matches Some(url) ==> v.get("url"@) == Some(JsonView::Text(url))
                &&& surface.url is None ==> v.get("url"@) == Some(JsonView::Text(Seq::empty()))
                &&& v.get("title"@) == Some(JsonView::Text(surface.title))
                &&& v.get("surface_id"@) == Some(JsonView::Text(surface.id))
            }
        }),
{
    broadcast use lemma_with_get;

    lemma_answer_keys();
}

/// Only browsers are gone with and automated.
pub proof fn law_only_browsers_browse(app: AppView, params: Option<JsonView>)
    ensures
        browser_place(app.state, params) matches Ok((w, i))
            ==> app.state.workspaces[w].surfaces[i].kind == SurfaceKind::Browser,
        automation_place(app, params) matches Ok((w, i))
            ==> app.state.workspaces[w].surfaces[i].kind == SurfaceKind::Browser,
        target_place(app.state, params) matches Ok((w, i)) ==> (
        app.state.workspaces[w].surfaces[i].kind == SurfaceKind::Browser <==> browser_place(
            app.state,
            params,
        ) is Ok),
{
}

// ---------------------------------------------------------------------------
// Names

/// A request that names no surface is for the active one, and is refused where
/// there is none.
pub proof fn law_the_active_surface_is_meant(s: StateView, params: Option<JsonView>)
    requires
        text3(params, "surface"@, "surfaceId"@, "surface_id"@) is None,
        text3(params, "panel"@, "panelId"@, "panel_id"@) is None,
    ensures
        s.active_surface_id matches Some(id) ==> target_surface(s, params) == Ok::<
            Seq<char>,
            crate::rpc::ErrorView,
        >(id),
        s.active_surface_id is None ==> (target_surface(s, params) matches Err(e) && e.code
            == -32602),
{
}

/// The current workspace is the active one, and the first where the active one is
/// gone.
pub proof fn law_the_current_workspace_is_the_active_one(s: StateView, i: int)
    requires
        0 <= i < s.workspaces.len(),
    ensures
        s.active_workspace_id == Some(s.workspaces[i].id) && (forall|j: int|
            0 <= j < i ==> (#[trigger] s.workspaces[j]).id != s.workspaces[i].id) ==> current_index(s)
            == Some(i),
        (forall|j: int|
            0 <= j < s.workspaces.len() ==> s.active_workspace_id != Some(
                (#[trigger] s.workspaces[j]).id,
            )) ==> current_index(s) == Some(0int),
{
    let ids = workspace_ids(s.workspaces);
    if let Some(id) = s.active_workspace_id {
        lemma_first_from(ids, id, 0);
        if id == s.workspaces[i].id {
            assert(ids[i] == id);
        }
        if let Some(k) = first_at(ids, id) {
            assert(ids[k] == s.workspaces[k].id);
        }
    }
}

/// Whether there is a workspace with an id.
pub open spec fn is_workspace_id(s: StateView, id: Seq<char>) -> bool {
    exists|i: int| 0 <= i < s.workspaces.len() && (#[trigger] s.workspaces[i]).id == id
}

/// A name that is no reference and no id is refused, and the refusal says it.
pub proof fn law_unknown_names_are_refused(s: StateView, name: Seq<char>)
    ensures
        reference_index(name, "workspace"@) is None && !is_workspace_id(s, name) ==> (
        workspace_named(s, name) matches Err(e) && e.code == -32602 && e.message
            == "invalid_params: "@ + ("unknown workspace: "@ + name)),
        reference_index(name, "pane"@) is None && !is_pane_id(s, name) ==> (pane_named(
            s,
            name,
        ) matches Err(e) && e.code == -32602 && e.message == "invalid_params: "@ + (
        "unknown pane: "@ + name)),
        reference_index(name, "surface"@) is None && !is_surface_id(s, name) ==> (surface_named(
            s,
            name,
        ) matches Err(e) && e.code == -32602 && e.message == "invalid_params: "@ + (
        "unknown surface: "@ + name)),
{
    let ids = workspace_ids(s.workspaces);
    lemma_first_from(ids, name, 0);
    if let Some(k) = first_at(ids, name) {
        assert(ids[k] == s.workspaces[k].id);
    }
    lemma_pane_place(s.workspaces, name, 0);
    lemma_surface_place(s.workspaces, name, 0);
    if let Some((w, i)) = pane_place(s.workspaces, name, 0) {
        assert(s.workspaces[w].panes[i].id == name);
    }
    if let Some((w, i)) = surface_place(s.workspaces, name, 0) {
        assert(s.workspaces[w].surfaces[i].id == name);
    }
}

} // verus!
