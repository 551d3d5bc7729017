//! What becomes of surfaces when a request opens, focuses, feeds, reads or closes
//! them.

use crate::app_state::AppView;
use crate::host::{ActionView, CallView, ReplyView, StepView};
use crate::input::{
    history_cleared, lemma_target_place, sent, target_place, text_read, Sending,
};
use crate::json::{lemma_with_get, JsonView};
use crate::lists::{first_at, lemma_first_from};
use crate::locate::{lemma_pane_at, lemma_surface_at, lemma_surface_place, pane_at, surface_place};
use crate::model::{pane_ids, PaneView, StateView, SurfaceKind, SurfaceView, WorkspaceView};
use crate::opening::requested_kind;
use crate::others::{lemma_without, others};
use crate::page::{page_for, PageView};
use crate::placing::{is_pane_id, is_surface_id, lemma_called_pane, lemma_called_surface};
use crate::query::page_text;
use crate::rpc::{param, raw_text, text1, text3, ErrorView};
use crate::soundness::{all_whole, lemma_surface_plan};
use crate::surfaces::{
    closing_surface, occupied, panes_without, requested_surface, surface_closed, surface_created,
    surface_focused, surface_plan, surface_raised, workspace_without,
};
use crate::text::joined;
use vstd::prelude::*;

verus! {

// ---------------------------------------------------------------------------
// New surfaces

/// The kind of a new surface is the one that the request names, under `type` or
/// `kind`; a terminal where it names none. No other name is taken.
pub proof fn law_kinds_are_called_by_their_names(params: Option<JsonView>, refusal: Seq<char>)
    ensures
        ({
            let said = if param(params, "type"@) is Some {
                param(params, "type"@)
            } else {
                param(params, "kind"@)
            };
            let got = requested_kind(params, refusal);
            &&& said is None ==> got == Ok::<SurfaceKind, ErrorView>(SurfaceKind::Terminal)
            &&& said == Some(JsonView::Text("terminal"@)) ==> got == Ok::<SurfaceKind, ErrorView>(
                SurfaceKind::Terminal,
            )
            &&& said == Some(JsonView::Text("browser"@)) ==> got == Ok::<SurfaceKind, ErrorView>(
                SurfaceKind::Browser,
            )
            &&& said == Some(JsonView::Text("markdown"@)) ==> got == Ok::<SurfaceKind, ErrorView>(
                SurfaceKind::Markdown,
            )
            &&& said matches Some(JsonView::Text(name)) ==> name != "terminal"@ && name != "browser"@
                && name != "markdown"@ ==> got is Err
        }),
{
    reveal_strlit("terminal");
    reveal_strlit("browser");
    reveal_strlit("markdown");
    assert("terminal"@.len() == 8 && "browser"@.len() == 7 && "markdown"@.len() == 8);
    assert("terminal"@[0] == 't' && "markdown"@[0] == 'm');
}

/// What a request says of a surface, the surface has.
pub open spec fn is_as_requested(params: Option<JsonView>, surface: SurfaceView) -> bool {
    &&& surface.url == text1(params, "url"@)
    &&& surface.initial_command == text3(params, "command"@, "initial_command"@, "initialCommand"@)
    &&& surface.working_directory == text3(
        params,
        "working_directory"@,
        "workingDirectory"@,
        "cwd"@,
    )
    &&& surface.input_log.len() == 0
    &&& surface.url matches Some(url) ==> surface.history == seq![url] && surface.history_index
        == Some(0usize)
    &&& surface.url is None ==> surface.history.len() == 0 && surface.history_index is None
    &&& surface.kind == SurfaceKind::Browser ==> (surface.url matches Some(url)
        ==> surface.browser_state == page_for(url) && (page_for(url).title.len() > 0
        ==> surface.title == page_for(url).title))
    &&& surface.kind != SurfaceKind::Browser || surface.url is None ==> surface.browser_state
        == PageView::blank()
}

/// A new surface stands last on its pane and on top of it, and has the focus. It
/// is as the request says, on the pane that the request names; where it names
/// none, on the active one, or else on the first. All else stays as it was.
pub proof fn law_a_new_surface_is_on_top(app: AppView, nanos: u64, params: Option<JsonView>)
    requires
        all_whole(app.state.workspaces),
        surface_created(app, nanos, params).step matches StepView::Done(Ok(_)),
    ensures
        surface_plan(app.state, params) matches Ok(plan) && plan.p matches Some(p) && ({
            let before = app.state.workspaces;
            let after = surface_created(app, nanos, params).app.state;
            let w = before[plan.w];
            let now = after.workspaces[plan.w];
            let surface = now.surfaces.last();
            let named = text3(params, "pane"@, "paneId"@, "pane_id"@);
            &&& now.surfaces.drop_last() == w.surfaces
            &&& now.layout == w.layout
            &&& now.panes.len() == w.panes.len()
            &&& now.panes[p] == (PaneView {
                surface_ids: w.panes[p].surface_ids.push(surface.id),
                active_surface_id: Some(surface.id),
                ..w.panes[p]
            })
            &&& forall|q: int|
                0 <= q < w.panes.len() && q != p ==> #[trigger] now.panes[q] == w.panes[q]
            &&& forall|v: int|
                0 <= v < before.len() && v != plan.w ==> #[trigger] after.workspaces[v] == before[v]
            &&& is_as_requested(params, surface)
            &&& requested_kind(
                params,
                "surface type must be terminal, browser, or markdown"@,
            ) == Ok::<SurfaceKind, ErrorView>(surface.kind)
            &&& surface.pane_id == w.panes[p].id
            &&& surface.workspace_id == w.id
            &&& surface.kind != SurfaceKind::Browser || surface.url is None || page_for(
                surface.url->0,
            ).title.len() == 0 ==> {
                &&& text1(params, "title"@) matches Some(title) ==> surface.title == title
                &&& text1(params, "title"@) is None && surface.kind == SurfaceKind::Terminal
                    ==> surface.title == "Terminal"@
                &&& text1(params, "title"@) is None && surface.kind == SurfaceKind::Markdown
                    ==> surface.title == "Markdown"@
                &&& text1(params, "title"@) is None && surface.kind == SurfaceKind::Browser
                    && surface.url is None ==> surface.title == "Browser"@
                &&& text1(params, "title"@) is None && surface.kind == SurfaceKind::Browser
                    ==> (surface.url matches Some(url) ==> surface.title == url)
            }
            &&& after.active_workspace_id == Some(w.id)
            &&& after.active_pane_id == Some(w.panes[p].id)
            &&& after.active_surface_id == Some(surface.id)
            &&& named matches Some(n) ==> is_pane_id(app.state, n) ==> w.panes[p].id == n
            &&& named is None ==> (app.state.active_pane_id matches Some(id) ==> pane_ids(
                w.panes,
            ).contains(id) ==> w.panes[p].id == id)
            &&& named is None && (app.state.active_pane_id matches Some(id) ==> !pane_ids(
                w.panes,
            ).contains(id)) ==> p == 0
            &&& named is None && text3(
                params,
                "workspace"@,
                "workspaceId"@,
                "workspace_id"@,
            ) is None ==> plan.w == 0
        }),
{
    let s = app.state;
    lemma_surface_plan(s, params);
    let plan = surface_plan(s, params)->Ok_0;
    let p = plan.p->0;
    let w = s.workspaces[plan.w];
    let now = surface_created(app, nanos, params).app.state.workspaces[plan.w];
    assert(now.surfaces.drop_last() =~= w.surfaces);
    let ids = pane_ids(w.panes);
    assert(ids[p] == w.panes[p].id);
    if let Some(id) = s.active_pane_id {
        lemma_first_from(ids, id, 0);
        if let Some(k) = first_at(ids, id) {
            assert(ids[k] == w.panes[k].id);
        }
    }
    if let Some(n) = text3(params, "pane"@, "paneId"@, "pane_id"@) {
        lemma_pane_at(s, n);
        if is_pane_id(s, n) {
            lemma_called_pane(s, n);
        }
        if let Some((v, q)) = pane_at(s, n) {
            let id = s.workspaces[v].panes[q].id;
            lemma_first_from(ids, id, 0);
        }
    }
}

// ---------------------------------------------------------------------------
// Focus

/// Whether a state is another one with the focus on a surface, which is on top
/// of its pane.
pub open spec fn is_raised(before: StateView, after: StateView, surface: SurfaceView) -> bool {
    &&& after.active_workspace_id == Some(surface.workspace_id)
    &&& after.active_pane_id == Some(surface.pane_id)
    &&& after.active_surface_id == Some(surface.id)
    &&& after.notifications == before.notifications
    &&& after.workspaces.len() == before.workspaces.len()
    &&& forall|w: int|
        0 <= w < before.workspaces.len() ==> (#[trigger] after.workspaces[w]).surfaces
            == before.workspaces[w].surfaces && after.workspaces[w].layout
            == before.workspaces[w].layout && after.workspaces[w].panes.len()
            == before.workspaces[w].panes.len()
    &&& forall|w: int, p: int|
        0 <= w < before.workspaces.len() && 0 <= p < before.workspaces[w].panes.len() ==> {
            let now = #[trigger] after.workspaces[w].panes[p];
            let old_pane = before.workspaces[w].panes[p];
            &&& now.surface_ids == old_pane.surface_ids
            &&& now == old_pane || (now.active_surface_id == Some(surface.id) && old_pane.id
                == surface.pane_id)
        }
    &&& is_pane_id(before, surface.pane_id) ==> exists|w: int, p: int|
        0 <= w < before.workspaces.len() && 0 <= p < before.workspaces[w].panes.len() && (
        #[trigger] after.workspaces[w].panes[p]).active_surface_id == Some(surface.id)
            && before.workspaces[w].panes[p].id == surface.pane_id
}

/// A surface that gets the focus is on top of its pane.
pub proof fn lemma_raised(s: StateView, surface: SurfaceView)
    requires
        all_whole(s.workspaces),
        is_pane_id(s, surface.pane_id),
    ensures
        is_raised(s, surface_raised(s, surface), surface),
{
    let moved = s.focused(Some(surface.workspace_id), Some(surface.pane_id), Some(surface.id));
    assert(is_pane_id(moved, surface.pane_id)) by {
        let (w, p) = choose|w: int, p: int|
            0 <= w < s.workspaces.len() && 0 <= p < s.workspaces[w].panes.len() && (
            #[trigger] s.workspaces[w].panes[p]).id == surface.pane_id;
        assert(moved.workspaces[w].panes[p].id == surface.pane_id);
    }
    lemma_called_pane(moved, surface.pane_id);
    let (w, p) = pane_at(moved, surface.pane_id)->0;
    let after = surface_raised(s, surface);
    assert(after.workspaces[w].panes[p].active_surface_id == Some(surface.id));
}

/// A request that gives a surface the focus gives it to the one that it names:
/// with its pane and its workspace, and on top of its pane. A terminal that is on
/// the screen is asked to take the focus first.
pub proof fn law_a_focused_surface_is_on_top(
    app: AppView,
    params: Option<JsonView>,
    replies: Seq<ReplyView>,
)
    requires
        all_whole(app.state.workspaces),
        requested_surface(app.state, params) is Ok,
    ensures
        ({
            let (w, i) = requested_surface(app.state, params)->Ok_0;
            let surface = app.state.workspaces[w].surfaces[i];
            let turn = surface_focused(app, params, replies);
            &&& 0 <= w < app.state.workspaces.len()
            &&& 0 <= i < app.state.workspaces[w].surfaces.len()
            &&& text3(params, "surface"@, "surfaceId"@, "surface_id"@) matches Some(n)
                ==> is_surface_id(app.state, n) ==> surface.id == n
            &&& surface.kind == SurfaceKind::Terminal && replies.len() == 0 ==> (
            turn.step matches StepView::Ask(call) && call.surface_id == surface.id && call.action
                == ActionView::TerminalFocus)
            &&& surface.kind != SurfaceKind::Terminal || replies.len() > 0 ==> (is_pane_id(
                app.state,
                surface.pane_id,
            ) ==> is_raised(app.state, turn.app.state, surface))
        }),
{
    let s = app.state;
    let name = crate::rpc::panel_text(params)->0;
    lemma_surface_at(s, name);
    if is_surface_id(s, name) {
        lemma_called_surface(s, name);
    }
    let id = crate::locate::surface_named(s, name)->Ok_0;
    lemma_surface_place(s.workspaces, id, 0);
    let (w, i) = requested_surface(s, params)->Ok_0;
    let surface = s.workspaces[w].surfaces[i];
    if is_pane_id(s, surface.pane_id) {
        lemma_raised(s, surface);
    }
}

// ---------------------------------------------------------------------------
// Closing

/// Closing a surface takes the one that is named, or the active one, off its
/// workspace and off every pane, and no other. Where it was on top of a pane the
/// first of those left there is. Where other surfaces are left, panes without any
/// go too. The layout keeps the panes that are left, in their order. The focus
/// stays where it is, unless it was there: then the first pane has it.
pub proof fn law_a_closed_surface_is_gone(
    app: AppView,
    params: Option<JsonView>,
    replies: Seq<ReplyView>,
)
    requires
        all_whole(app.state.workspaces),
        surface_closed(app, params, replies).step matches StepView::Done(Ok(_)),
    ensures
        closing_surface(app.state, params) matches Ok(id) && surface_place(
            app.state.workspaces,
            id,
            0,
        ) matches Some((w, i)) && ({
            let before = app.state.workspaces[w];
            let after = surface_closed(app, params, replies).app.state;
            let now = after.workspaces[w];
            let name = text3(params, "surface"@, "surfaceId"@, "surface_id"@);
            &&& 0 <= w < app.state.workspaces.len()
            &&& 0 <= i < before.surfaces.len()
            &&& before.surfaces[i].id == id
            &&& name matches Some(n) ==> is_surface_id(app.state, n) ==> id == n
            &&& name is None && text3(params, "panel"@, "panelId"@, "panel_id"@) is None
                ==> app.state.active_surface_id == Some(id)
            &&& now.surfaces == before.surfaces.take(i) + before.surfaces.skip(i + 1)
            &&& now.id == before.id
            &&& now.title == before.title
            &&& forall|v: int|
                0 <= v < app.state.workspaces.len() && v != w ==> #[trigger] after.workspaces[v]
                    == app.state.workspaces[v]
            &&& forall|q: int|
                0 <= q < now.panes.len() ==> exists|p: int|
                    0 <= p < before.panes.len() && is_rid_of(
                        #[trigger] before.panes[p],
                        #[trigger] now.panes[q],
                        id,
                    )
            &&& before.surfaces.len() > 1 ==> forall|q: int|
                0 <= q < now.panes.len() ==> (#[trigger] now.panes[q]).surface_ids.len() > 0
            &&& before.surfaces.len() == 1 ==> now.panes.len() == before.panes.len()
            &&& app.state.active_surface_id != Some(id) ==> {
                &&& after.active_surface_id == app.state.active_surface_id
                &&& after.active_pane_id == app.state.active_pane_id
                &&& after.active_workspace_id == app.state.active_workspace_id
            }
            &&& app.state.active_surface_id == Some(id) && now.panes.len() > 0 ==> {
                &&& after.active_pane_id == Some(now.panes[0].id)
                &&& after.active_surface_id == now.panes[0].active_surface_id
            }
        }),
{
    let s = app.state;
    let id = closing_surface(s, params)->Ok_0;
    lemma_surface_place(s.workspaces, id, 0);
    let (w, i) = surface_place(s.workspaces, id, 0)->0;
    let before = s.workspaces[w];
    let now = workspace_without(before, i);
    if let Some(n) = text3(params, "surface"@, "surfaceId"@, "surface_id"@) {
        if is_surface_id(s, n) {
            lemma_called_surface(s, n);
        }
    }
    assert(before.surfaces.remove(i) =~= before.surfaces.take(i) + before.surfaces.skip(i + 1));
    assert forall|q: int| 0 <= q < now.panes.len() implies exists|p: int|
        0 <= p < before.panes.len() && is_rid_of(
            #[trigger] before.panes[p],
            #[trigger] now.panes[q],
            id,
        ) && (before.surfaces.len() > 1 ==> now.panes[q].surface_ids.len() > 0) by {
        let p = lemma_pane_left(before, i, q);
        assert(is_rid_of(before.panes[p], now.panes[q], id));
    }
}

/// Whether a pane is another one without a surface.
pub open spec fn is_rid_of(before: PaneView, after: PaneView, id: Seq<char>) -> bool {
    &&& after.id == before.id
    &&& after.workspace_id == before.workspace_id
    &&& after.surface_ids == others(before.surface_ids, id)
    &&& before.active_surface_id != Some(id) ==> after.active_surface_id == before.active_surface_id
    &&& before.active_surface_id == Some(id) && after.surface_ids.len() > 0
        ==> after.active_surface_id == Some(after.surface_ids[0])
    &&& before.active_surface_id == Some(id) && after.surface_ids.len() == 0
        ==> after.active_surface_id is None
}

/// A pane that is left when a surface is closed.
proof fn lemma_pane_left(w: WorkspaceView, i: int, q: int) -> (p: int)
    requires
        0 <= i < w.surfaces.len(),
        0 <= q < workspace_without(w, i).panes.len(),
    ensures
        0 <= p < w.panes.len(),
        is_rid_of(w.panes[p], workspace_without(w, i).panes[q], w.surfaces[i].id),
        w.surfaces.len() > 1 ==> workspace_without(w, i).panes[q].surface_ids.len() > 0,
{
    let id = w.surfaces[i].id;
    let rest = panes_without(w.panes, id);
    let panes = workspace_without(w, i).panes;
    if w.surfaces.len() > 1 {
        let busy = |p: PaneView| occupied(p);
        assert(panes == rest.filter(busy));
        rest.lemma_filter_contains_rev(busy, panes[q]);
        let p = choose|p: int| 0 <= p < rest.len() && rest[p] == panes[q];
        assert(rest[p] == crate::surfaces::pane_without(w.panes[p], id));
        lemma_without(w.panes[p].surface_ids, id);
        assert(busy(panes[q])) by {
            broadcast use vstd::seq_lib::group_filter_ensures;

            assert(busy(rest.filter(busy)[q]));
        }
        p
    } else {
        assert(panes[q] == crate::surfaces::pane_without(w.panes[q], id));
        lemma_without(w.panes[q].surface_ids, id);
        q
    }
}

// ---------------------------------------------------------------------------
// Input

/// What a request sends to a terminal is handed to it as it is: text as text,
/// and the name of a key as a key.
pub proof fn law_input_is_handed_over(app: AppView, params: Option<JsonView>)
    requires
        target_place(app.state, params) is Ok,
    ensures
        ({
            let (w, i) = target_place(app.state, params)->Ok_0;
            let surface = app.state.workspaces[w].surfaces[i];
            surface.kind == SurfaceKind::Terminal ==> {
                &&& raw_text(params, "text"@) matches Some(text) ==> (sent(
                    app,
                    params,
                    Sending::Text,
                    Seq::empty(),
                ).step matches StepView::Ask(call) && call.surface_id == surface.id && call.action
                    == ActionView::TerminalSendText(text))
                &&& raw_text(params, "key"@) matches Some(key) ==> (sent(
                    app,
                    params,
                    Sending::Key,
                    Seq::empty(),
                ).step matches StepView::Ask(call) && call.surface_id == surface.id && call.action
                    == ActionView::TerminalSendKey(key))
            }
        }),
{
}

/// Joining one text more.
proof fn lemma_joined_push(list: Seq<Seq<char>>, t: Seq<char>)
    ensures
        joined(list.push(t), ""@) == joined(list, ""@) + t,
{
    reveal_strlit("");
    assert(""@ =~= Seq::empty());
    assert(list.push(t).drop_last() =~= list);
    if list.len() == 0 {
        assert(joined(list, ""@) + t =~= t);
    } else {
        assert(joined(list, ""@) + ""@ + t =~= joined(list, ""@) + t);
    }
}

/// What was sent to a surface that is not on the screen is read back behind what
/// was sent before, and the surface that was fed has the focus.
pub proof fn law_sent_text_is_read_back(app: AppView, params: Option<JsonView>, text: Seq<char>)
    requires
        raw_text(params, "text"@) == Some(text),
        target_place(app.state, params) matches Ok((w, i))
            && app.state.workspaces[w].surfaces[i].kind != SurfaceKind::Browser,
    ensures
        ({
            let (w, i) = target_place(app.state, params)->Ok_0;
            let surface = app.state.workspaces[w].surfaces[i];
            let dead = seq![ReplyView::Flag(false)];
            let turn = sent(app, params, Sending::Text, dead);
            let blank = seq![ReplyView::Text(None), ReplyView::Terminal(None)];
            &&& turn.app.state.active_surface_id == Some(surface.id)
            &&& turn.app.state.active_pane_id == Some(surface.pane_id)
            &&& turn.app.state.active_workspace_id == Some(surface.workspace_id)
            &&& turn.step matches StepView::Done(Ok(told)) && told.get("live_io"@) == Some(
                JsonView::Bool(false),
            )
            &&& text_read(turn.app, None, blank) matches StepView::Done(Ok(read)) && read.get(
                "text"@,
            ) == Some(JsonView::Text(joined(surface.input_log, ""@) + text))
        }),
{
    broadcast use lemma_with_get;

    let s = app.state;
    lemma_target_place(s, params);
    let (w, i) = target_place(s, params)->Ok_0;
    let surface = s.workspaces[w].surfaces[i];
    let fed = SurfaceView { input_log: surface.input_log.push(text), ..surface };
    crate::echoes::lemma_still_there(s, w, i, fed, surface.id);
    lemma_joined_push(surface.input_log, text);
    reveal_strlit("surface_id");
    reveal_strlit("text");
    reveal_strlit("live_io");
    reveal_strlit("workspace_id");
    reveal_strlit("pane_id");
    reveal_strlit("surface");
    reveal_strlit("accepted");
    assert("surface_id"@.len() == 10 && "text"@.len() == 4 && "live_io"@.len() == 7);
    assert("workspace_id"@.len() == 12 && "pane_id"@.len() == 7 && "surface"@.len() == 7);
    assert("accepted"@.len() == 8 && "live_io"@[0] == 'l' && "pane_id"@[0] == 'p' && "surface"@[0]
        == 's');
}

/// The text of a terminal on the screen is what the terminal shows, if it shows
/// anything; the text of a browser is what its page shows.
pub proof fn law_what_is_on_the_screen_is_read(
    app: AppView,
    params: Option<JsonView>,
    shown: Seq<char>,
)
    requires
        target_place(app.state, params) is Ok,
    ensures
        ({
            let (w, i) = target_place(app.state, params)->Ok_0;
            let surface = app.state.workspaces[w].surfaces[i];
            let replies = seq![ReplyView::Text(Some(shown)), ReplyView::Terminal(None)];
            &&& surface.kind == SurfaceKind::Terminal && shown.len() > 0 ==> (text_read(
                app,
                params,
                replies,
            ) matches StepView::Done(Ok(read)) && read.get("text"@) == Some(JsonView::Text(shown)))
            &&& surface.kind == SurfaceKind::Browser ==> (text_read(
                app,
                params,
                replies,
            ) matches StepView::Done(Ok(read)) && read.get("text"@) == Some(
                JsonView::Text(page_text(surface.browser_state)),
            ))
        }),
{
    broadcast use lemma_with_get;

    reveal_strlit("surface_id");
    reveal_strlit("text");
    assert("surface_id"@.len() == 10 && "text"@.len() == 4);
}

/// A terminal and a browser are taken off the screen before they are closed, each
/// as what it is; a terminal is cleared on the screen before its history is.
pub proof fn law_the_screen_goes_first(app: AppView, params: Option<JsonView>, w: int, i: int)
    ensures
        closing_surface(app.state, params) matches Ok(id) ==> (surface_place(
            app.state.workspaces,
            id,
            0,
        ) == Some((w, i)) ==> {
            let surface = app.state.workspaces[w].surfaces[i];
            let turn = surface_closed(app, params, Seq::empty());
            &&& surface.kind == SurfaceKind::Terminal ==> turn.step == StepView::Ask(
                CallView { surface_id: surface.id, action: ActionView::TerminalUnregister },
            ) && turn.app == app
            &&& surface.kind == SurfaceKind::Browser ==> turn.step == StepView::Ask(
                CallView { surface_id: surface.id, action: ActionView::BrowserUnregister },
            ) && turn.app == app
            &&& surface.kind == SurfaceKind::Markdown ==> turn.step is Done
        }),
        target_place(app.state, params) == Ok::<(int, int), ErrorView>((w, i)) ==> {
            let surface = app.state.workspaces[w].surfaces[i];
            let turn = history_cleared(app, params, Seq::empty());
            &&& surface.kind == SurfaceKind::Terminal ==> turn.step == StepView::Ask(
                CallView { surface_id: surface.id, action: ActionView::TerminalClear },
            ) && turn.app == app
            &&& surface.kind != SurfaceKind::Terminal ==> turn.step is Done
        },
{
}

/// A surface whose history was cleared has no input to read back, and a browser
/// shows a blank page.
pub proof fn law_a_cleared_surface_has_no_text(app: AppView, params: Option<JsonView>)
    requires
        target_place(app.state, params) is Ok,
    ensures
        ({
            let (w, i) = target_place(app.state, params)->Ok_0;
            let surface = app.state.workspaces[w].surfaces[i];
            let dead = seq![ReplyView::Flag(false)];
            let now = history_cleared(app, params, dead).app.state.workspaces[w].surfaces[i];
            &&& now.id == surface.id
            &&& now.kind == surface.kind
            &&& now.url == surface.url
            &&& now.title == surface.title
            &&& joined(now.input_log, ""@).len() == 0
            &&& surface.kind == SurfaceKind::Browser ==> page_text(now.browser_state).len() == 0
            &&& surface.kind != SurfaceKind::Browser ==> now.browser_state == surface.browser_state
        }),
{
    lemma_target_place(app.state, params);
}

} // verus!
