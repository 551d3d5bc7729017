//! What one request reads of what another one did.

use crate::acting::{gesture_for, ActView};
use crate::app_state::AppView;
use crate::automation::{
    automated, automation_act, automation_place, load_act, saved, showing,
};
use crate::browsing::{
    browser_place, gone_along, gone_to, history_so_far, history_stepped, navigated, shown_title,
    url_told, HistoryStep,
};
use crate::host::{ReplyView, StepView};
use crate::input::{lemma_target_place, payload, sent, target_place, target_surface, Sending};
use crate::json::{lemma_with_get, JsonView};
use crate::lists::{first_at, lemma_first_from};
use crate::locate::{current_index, lemma_current_index, lemma_surface_at, surface_at, surface_place};
use crate::model::{surface_ids, workspace_ids, StateView, SurfaceView, WorkspaceView};
use crate::notifications::{
    notification_created, notifications_cleared, notifications_listed, Clock,
};
use crate::page::{page_for, PageView};
use crate::page_json::law_saved_page_loads_back;
use crate::records_json::{notification_value, notifications_value};
use crate::rpc::{invalid, param, text1, workspace_text, Readings};
use crate::surfaces::{surface_created, surface_plan, surfaces_from, surfaces_listed, surfaces_told};
use crate::system::{capabilities, features, SurroundingsView};
use crate::workspaces::{
    current_told, requested_workspace, workspace_closed, workspace_created, workspace_selected,
};
use vstd::prelude::*;

verus! {

// ---------------------------------------------------------------------------
// Workspaces

/// A new workspace is the current one: who asks for that is told what the
/// request that made it was told.
pub proof fn law_a_new_workspace_is_current(app: AppView, nanos: u64, params: Option<JsonView>)
    ensures
        workspace_created(app, nanos, params).step == StepView::Done(
            current_told(workspace_created(app, nanos, params).app),
        ),
{
    let after = workspace_created(app, nanos, params).app;
    let id = app.next_id("workspace"@, nanos);
    let ids = workspace_ids(after.state.workspaces);
    lemma_first_from(ids, id, 0);
    assert(ids[app.state.workspaces.len() as int] == id);
}

/// A selected workspace is the current one: who asks for that is told what the
/// request that selected it was told.
pub proof fn law_a_selected_workspace_is_current(app: AppView, params: Option<JsonView>)
    ensures
        workspace_selected(app, params).step is Done,
        workspace_selected(app, params).step->Done_0 is Ok ==> workspace_selected(app, params).step
            == StepView::Done(current_told(workspace_selected(app, params).app)),
{
    if let Ok(i) = requested_workspace(app, params) {
        crate::workspaces::lemma_requested_workspace(app, params);
        let after = workspace_selected(app, params).app;
        let ids = workspace_ids(app.state.workspaces);
        assert(workspace_ids(after.state.workspaces) == ids);
        let name = workspace_text(params)->0;
        let id = crate::locate::workspace_named(app.state, name)->Ok_0;
        lemma_first_from(ids, id, 0);
        assert(ids[i] == id);
    }
}

/// A closed workspace is one less, and the last one is never closed.
pub proof fn law_the_last_workspace_stays(app: AppView, params: Option<JsonView>)
    requires
        app.state.workspaces.len() > 0,
    ensures
        ({
            let turn = workspace_closed(app, params);
            if turn.step->Done_0 is Ok {
                turn.app.state.workspaces.len() == app.state.workspaces.len() - 1
            } else {
                turn.app == app
            }
        }),
        workspace_closed(app, params).app.state.workspaces.len() > 0,
{
    if let Ok(i) = requested_workspace(app, params) {
        crate::workspaces::lemma_requested_workspace(app, params);
    }
}

// ---------------------------------------------------------------------------
// Surfaces

/// What is told of the surfaces of a wanted workspace is part of the list.
proof fn lemma_told_are_listed(app: AppView, only: Option<Seq<char>>, from: int, w: int, i: int)
    requires
        0 <= from <= w < app.state.workspaces.len(),
        0 <= i < app.state.workspaces[w].surfaces.len(),
        crate::panes::wanted(only, app.state.workspaces[w].id),
    ensures
        surfaces_from(app, only, from).contains(surfaces_told(app, app.state.workspaces[w])[i]),
    decreases w - from,
{
    let item = surfaces_told(app, app.state.workspaces[w])[i];
    let list = surfaces_from(app, only, from);
    let here = surfaces_told(app, app.state.workspaces[from]);
    let rest = surfaces_from(app, only, from + 1);
    if from == w {
        assert(list[i] == item);
    } else {
        lemma_told_are_listed(app, only, from + 1, w, i);
        let k = choose|k: int| 0 <= k < rest.len() && rest[k] == item;
        if crate::panes::wanted(only, app.state.workspaces[from].id) {
            assert(list[here.len() + k] == item);
        } else {
            assert(list[k] == item);
        }
    }
}

/// A plan for a surface speaks of a workspace that is there.
proof fn lemma_planned_workspace(s: StateView, params: Option<JsonView>)
    ensures
        surface_plan(s, params) matches Ok(plan) ==> 0 <= plan.w < s.workspaces.len(),
{
    if let Ok(plan) = surface_plan(s, params) {
        if let Ok(Some(id)) = crate::panes::given_workspace(s, params) {
            lemma_first_from(workspace_ids(s.workspaces), id, 0);
        }
        if let Ok(Some(id)) = crate::panes::given_pane(s, params) {
            crate::locate::lemma_pane_place(s.workspaces, id, 0);
        }
    }
}

/// A new surface is listed, as the request that made it was told of it, if its
/// id is new in its workspace.
pub proof fn law_a_new_surface_is_listed(app: AppView, nanos: u64, params: Option<JsonView>)
    requires
        surface_plan(app.state, params) is Ok,
        !surface_ids(app.state.workspaces[surface_plan(app.state, params)->Ok_0.w].surfaces).contains(
            crate::surfaces::with_pane_ready(
                app,
                nanos,
                surface_plan(app.state, params)->Ok_0,
            ).0.next_id("surface"@, nanos),
        ),
    ensures
        ({
            let turn = surface_created(app, nanos, params);
            &&& turn.step matches StepView::Done(Ok(value))
            &&& surfaces_listed(turn.app, None) matches Ok(list)
            &&& value.get("surface"@) matches Some(surface)
            &&& list.get("surfaces"@) matches Some(JsonView::Array(items))
            &&& items.contains(surface)
        }),
{
    broadcast use lemma_with_get;

    let turn = surface_created(app, nanos, params);
    let plan = surface_plan(app.state, params)->Ok_0;
    lemma_planned_workspace(app.state, params);
    let (ready, w, p) = crate::surfaces::with_pane_ready(app, nanos, plan);
    let id = ready.next_id("surface"@, nanos);
    let now = turn.app.state.workspaces[plan.w];
    let ids = surface_ids(now.surfaces);
    let i = w.surfaces.len() as int;
    lemma_first_from(ids, id, 0);
    assert(ids[i] == id);
    let k = first_at(ids, id)->0;
    if k < i {
        assert(surface_ids(w.surfaces)[k] == id);
        assert(w.surfaces == app.state.workspaces[plan.w].surfaces);
        assert(surface_ids(app.state.workspaces[plan.w].surfaces).contains(id));
    }
    lemma_told_are_listed(turn.app, None, 0, plan.w, i);
    reveal_strlit("workspace_id");
    reveal_strlit("pane_id");
    reveal_strlit("surface_id");
    reveal_strlit("panel_id");
    reveal_strlit("surface_ref");
    reveal_strlit("pane_ref");
    reveal_strlit("window_id");
    reveal_strlit("workspace");
    reveal_strlit("surface");
}

/// A request for a new surface that names a workspace there is not is refused,
/// and changes nothing.
pub proof fn law_a_surface_needs_a_known_workspace(
    app: AppView,
    nanos: u64,
    params: Option<JsonView>,
)
    requires
        workspace_text(params) matches Some(name) && crate::locate::workspace_index(
            app.state,
            name,
        ) is None,
    ensures
        ({
            let turn = surface_created(app, nanos, params);
            &&& turn.step matches StepView::Done(Err(e))
            &&& e.code == invalid(Seq::empty()).code
            &&& turn.app == app
        }),
{
}

// ---------------------------------------------------------------------------
// Browsers

/// Where surfaces keep their ids they keep their places.
proof fn lemma_same_place(
    before: Seq<WorkspaceView>,
    after: Seq<WorkspaceView>,
    id: Seq<char>,
    from: int,
)
    requires
        0 <= from,
        before.len() == after.len(),
        forall|w: int|
            0 <= w < before.len() ==> surface_ids((#[trigger] after[w]).surfaces) == surface_ids(
                before[w].surfaces,
            ),
    ensures
        surface_place(after, id, from) == surface_place(before, id, from),
    decreases before.len() - from,
{
    if from < before.len() {
        assert(surface_ids(after[from].surfaces) == surface_ids(before[from].surfaces));
        lemma_same_place(before, after, id, from + 1);
    }
}

/// A surface that changed and kept its id is found where it was.
pub proof fn lemma_still_there(s: StateView, w: int, i: int, surface: SurfaceView, id: Seq<char>)
    requires
        0 <= w < s.workspaces.len(),
        0 <= i < s.workspaces[w].surfaces.len(),
        surface.id == s.workspaces[w].surfaces[i].id,
    ensures
        surface_place(s.with_surface(w, i, surface).workspaces, id, 0) == surface_place(
            s.workspaces,
            id,
            0,
        ),
{
    let after = s.with_surface(w, i, surface).workspaces;
    assert forall|v: int| 0 <= v < s.workspaces.len() implies surface_ids(
        (#[trigger] after[v]).surfaces,
    ) == surface_ids(s.workspaces[v].surfaces) by {
        assert(surface_ids(after[v].surfaces) =~= surface_ids(s.workspaces[v].surfaces));
    }
    lemma_same_place(s.workspaces, after, id, 0);
}

/// A browser that was sent to a URL tells it.
pub proof fn law_a_browser_tells_where_it_went(
    app: AppView,
    params: Option<JsonView>,
    replies: Seq<ReplyView>,
)
    ensures
        navigated(app, params, replies).step matches StepView::Done(Ok(_)) ==> {
            &&& url_told(navigated(app, params, replies).app, None) matches Ok(told)
            &&& text1(params, "url"@) matches Some(url)
            &&& told.get("url"@) == Some(JsonView::Text(url))
        },
{
    broadcast use lemma_with_get;

    let turn = navigated(app, params, replies);
    if let StepView::Done(Ok(_)) = turn.step {
        let (w, i) = browser_place(app.state, params)->Ok_0;
        lemma_target_place(app.state, params);
        let url = text1(params, "url"@)->0;
        let surface = gone_to(app.state.workspaces[w].surfaces[i], url);
        lemma_still_there(app.state, w, i, surface, surface.id);
        assert(target_place(turn.app.state, None) == Ok::<_, crate::rpc::ErrorView>((w, i)));
        reveal_strlit("surface_id");
        reveal_strlit("url");
        assert("surface_id"@.len() != "url"@.len());
    }
}

/// A surface as a step in its history left it, after a step the other way: it
/// stands at the same entry, with the same history, and where its title and its
/// page were those of the entry nothing at all has changed.
pub open spec fn stands_again(before: SurfaceView, after: SurfaceView) -> bool {
    &&& after.id == before.id
    &&& after.url == before.url
    &&& after.history == before.history
    &&& after.history_index == before.history_index
    &&& before.title == shown_title(before.url->0) && before.browser_state == page_for(
        before.url->0,
    ) ==> after == before
}

/// Whether a surface shows an entry of its history.
pub open spec fn shows_entry(surface: SurfaceView) -> bool {
    &&& surface.history_index is Some
    &&& surface.history_index->0 < surface.history.len()
    &&& surface.url == Some(surface.history[surface.history_index->0 as int])
}

/// A request that names the surface, or none, is for the surface that made the
/// step before.
proof fn lemma_step_target(
    app: AppView,
    params: Option<JsonView>,
    step: HistoryStep,
    replies: Seq<ReplyView>,
)
    requires
        browser_place(app.state, params) matches Ok((w, i))
            && app.state.workspaces[w].surfaces[i].history.len() > 0,
        history_stepped(app, params, step, replies).step is Done,
    ensures
        browser_place(app.state, params) matches Ok((w, i)) && {
            let after = history_stepped(app, params, step, replies).app.state;
            &&& 0 <= w < after.workspaces.len()
            &&& 0 <= i < after.workspaces[w].surfaces.len()
            &&& after.workspaces[w].surfaces[i] == gone_along(
                app.state.workspaces[w].surfaces[i],
                step,
            )
            &&& browser_place(after, None) == Ok::<(int, int), crate::rpc::ErrorView>((w, i))
        },
{
    let (w, i) = browser_place(app.state, params)->Ok_0;
    lemma_target_place(app.state, params);
    let surface = gone_along(app.state.workspaces[w].surfaces[i], step);
    lemma_still_there(app.state, w, i, surface, surface.id);
}

/// Two steps in a history, one of them back and one forward, lead to where they
/// started.
proof fn lemma_two_steps(
    app: AppView,
    params: Option<JsonView>,
    replies: Seq<ReplyView>,
    again: Option<JsonView>,
    more: Seq<ReplyView>,
    first: HistoryStep,
    second: HistoryStep,
)
    requires
        first != second,
        browser_place(app.state, params) matches Ok((w, i)) && ({
            let surface = app.state.workspaces[w].surfaces[i];
            &&& shows_entry(surface)
            &&& first == HistoryStep::Back ==> surface.history_index->0 > 0
            &&& first == HistoryStep::Forward ==> surface.history_index->0 + 1
                < surface.history.len() <= usize::MAX
        }),
        history_stepped(app, params, first, replies).step is Done,
        again is None || browser_place(
            history_stepped(app, params, first, replies).app.state,
            again,
        ) == browser_place(app.state, params),
        history_stepped(
            history_stepped(app, params, first, replies).app,
            again,
            second,
            more,
        ).step is Done,
    ensures
        ({
            let one = history_stepped(app, params, first, replies);
            let two = history_stepped(one.app, again, second, more);
            let (w, i) = browser_place(app.state, params)->Ok_0;
            let surface = app.state.workspaces[w].surfaces[i];
            &&& stands_again(surface, two.app.state.workspaces[w].surfaces[i])
            &&& two.step matches StepView::Done(Ok(value))
            &&& value.get("url"@) == Some(JsonView::Text(surface.url->0))
        }),
{
    broadcast use lemma_with_get;

    let one = history_stepped(app, params, first, replies);
    lemma_step_target(app, params, first, replies);
    lemma_step_target(one.app, again, second, more);
    reveal_strlit("surface_id");
    reveal_strlit("surface");
    reveal_strlit("url");
    reveal_strlit("live_webview");
    assert("url"@.len() == 3 && "surface"@.len() == 7);
    assert("surface_id"@.len() == 10 && "live_webview"@.len() == 12);
}

/// Going back undoes going somewhere: the browser shows the page it showed, if
/// it had been anywhere, who asked is told its URL, and the place it went to is
/// the last of its history. The second request may name the browser as it likes,
/// or not at all.
pub proof fn law_back_undoes_going(
    app: AppView,
    params: Option<JsonView>,
    replies: Seq<ReplyView>,
    again: Option<JsonView>,
    more: Seq<ReplyView>,
)
    requires
        browser_place(app.state, params) matches Ok((w, i)) && history_so_far(
            app.state.workspaces[w].surfaces[i],
        ).len() > 0 && app.state.workspaces[w].surfaces[i].history.len() < usize::MAX,
        navigated(app, params, replies).step matches StepView::Done(Ok(_)),
        again is None || browser_place(navigated(app, params, replies).app.state, again)
            == browser_place(app.state, params),
        history_stepped(
            navigated(app, params, replies).app,
            again,
            HistoryStep::Back,
            more,
        ).step is Done,
    ensures
        ({
            let went = navigated(app, params, replies);
            let back = history_stepped(went.app, again, HistoryStep::Back, more);
            let (w, i) = browser_place(app.state, params)->Ok_0;
            let so_far = history_so_far(app.state.workspaces[w].surfaces[i]);
            let after = back.app.state.workspaces[w].surfaces[i];
            &&& text1(params, "url"@) matches Some(url)
            &&& after.history == so_far.push(url)
            &&& after.url == Some(so_far.last())
            &&& after.browser_state == page_for(so_far.last())
            &&& back.step matches StepView::Done(Ok(value))
            &&& value.get("url"@) == Some(JsonView::Text(so_far.last()))
        }),
{
    broadcast use lemma_with_get;

    let went = navigated(app, params, replies);
    let (w, i) = browser_place(app.state, params)->Ok_0;
    lemma_target_place(app.state, params);
    let surface = gone_to(app.state.workspaces[w].surfaces[i], text1(params, "url"@)->0);
    lemma_still_there(app.state, w, i, surface, surface.id);
    lemma_step_target(went.app, again, HistoryStep::Back, more);
    reveal_strlit("surface_id");
    reveal_strlit("surface");
    reveal_strlit("url");
    reveal_strlit("live_webview");
    assert("url"@.len() == 3 && "surface"@.len() == 7);
    assert("surface_id"@.len() == 10 && "live_webview"@.len() == 12);
}

/// Going forward undoes going back, at every entry of a history but the first:
/// a browser that showed the entry shows it again, and who asked is told its
/// URL. The second request may name the browser as it likes, or not at all.
pub proof fn law_forward_undoes_back(
    app: AppView,
    params: Option<JsonView>,
    replies: Seq<ReplyView>,
    again: Option<JsonView>,
    more: Seq<ReplyView>,
)
    requires
        browser_place(app.state, params) matches Ok((w, i)) && ({
            let surface = app.state.workspaces[w].surfaces[i];
            &&& shows_entry(surface)
            &&& surface.history_index->0 > 0
        }),
        history_stepped(app, params, HistoryStep::Back, replies).step is Done,
        again is None || browser_place(
            history_stepped(app, params, HistoryStep::Back, replies).app.state,
            again,
        ) == browser_place(app.state, params),
        history_stepped(
            history_stepped(app, params, HistoryStep::Back, replies).app,
            again,
            HistoryStep::Forward,
            more,
        ).step is Done,
    ensures
        ({
            let back = history_stepped(app, params, HistoryStep::Back, replies);
            let forward = history_stepped(back.app, again, HistoryStep::Forward, more);
            let (w, i) = browser_place(app.state, params)->Ok_0;
            let surface = app.state.workspaces[w].surfaces[i];
            &&& stands_again(surface, forward.app.state.workspaces[w].surfaces[i])
            &&& forward.step matches StepView::Done(Ok(value))
            &&& value.get("url"@) == Some(JsonView::Text(surface.url->0))
        }),
{
    lemma_two_steps(app, params, replies, again, more, HistoryStep::Back, HistoryStep::Forward);
}

/// Going back undoes going forward, at every entry of a history but the last.
pub proof fn law_back_undoes_forward(
    app: AppView,
    params: Option<JsonView>,
    replies: Seq<ReplyView>,
    again: Option<JsonView>,
    more: Seq<ReplyView>,
)
    requires
        browser_place(app.state, params) matches Ok((w, i)) && ({
            let surface = app.state.workspaces[w].surfaces[i];
            &&& shows_entry(surface)
            &&& surface.history_index->0 + 1 < surface.history.len() <= usize::MAX
        }),
        history_stepped(app, params, HistoryStep::Forward, replies).step is Done,
        again is None || browser_place(
            history_stepped(app, params, HistoryStep::Forward, replies).app.state,
            again,
        ) == browser_place(app.state, params),
        history_stepped(
            history_stepped(app, params, HistoryStep::Forward, replies).app,
            again,
            HistoryStep::Back,
            more,
        ).step is Done,
    ensures
        ({
            let forward = history_stepped(app, params, HistoryStep::Forward, replies);
            let back = history_stepped(forward.app, again, HistoryStep::Back, more);
            let (w, i) = browser_place(app.state, params)->Ok_0;
            let surface = app.state.workspaces[w].surfaces[i];
            &&& stands_again(surface, back.app.state.workspaces[w].surfaces[i])
            &&& back.step matches StepView::Done(Ok(value))
            &&& value.get("url"@) == Some(JsonView::Text(surface.url->0))
        }),
{
    lemma_two_steps(app, params, replies, again, more, HistoryStep::Forward, HistoryStep::Back);
}

/// At its ends a history stays where it is.
pub proof fn law_a_history_has_ends(surface: SurfaceView)
    requires
        0 < surface.history.len() <= usize::MAX,
    ensures
        surface.history_index == Some(0usize) ==> gone_along(surface, HistoryStep::Back).url == Some(
            surface.history[0],
        ),
        surface.history_index == Some((surface.history.len() - 1) as usize) ==> gone_along(
            surface,
            HistoryStep::Forward,
        ).url == Some(surface.history.last()),
{
}

// ---------------------------------------------------------------------------
// Pages

/// What the requests to save and to load a page come to.
proof fn lemma_save_and_load(
    surface: SurfaceView,
    params: Option<JsonView>,
    readings: Readings,
    replies: Seq<ReplyView>,
)
    ensures
        automation_act(surface, "browser.state.save"@, params, readings, replies)
            == ActView::Done(surface.browser_state, saved(surface.id, surface.browser_state)),
        automation_act(surface, "browser.state.load"@, params, readings, replies) == load_act(
            surface.id,
            surface.browser_state,
            params,
            replies,
        ),
{
    let save = "browser.state.save"@;
    let load = "browser.state.load"@;
    reveal_strlit("browser.state.save");
    reveal_strlit("browser.state.load");
    assert(save.len() == 18 && load.len() == 18);
    assert(save[8] == 's' && load[8] == 's' && save[9] == 't' && load[9] == 't');
    assert(save[14] == 's' && load[14] == 'l');
    assert(gesture_for(save, params, readings) is None && gesture_for(
        load,
        params,
        readings,
    ) is None) by {
        reveal_strlit("browser.click");
        reveal_strlit("browser.dblclick");
        reveal_strlit("browser.hover");
        reveal_strlit("browser.focus");
        reveal_strlit("browser.fill");
        reveal_strlit("browser.type");
        reveal_strlit("browser.check");
        reveal_strlit("browser.uncheck");
        reveal_strlit("browser.select");
        reveal_strlit("browser.scroll");
        reveal_strlit("browser.scroll_into_view");
        assert("browser.click"@.len() == 13 && "browser.dblclick"@.len() == 16);
        assert("browser.hover"@.len() == 13 && "browser.focus"@.len() == 13);
        assert("browser.fill"@.len() == 12 && "browser.type"@.len() == 12);
        assert("browser.check"@.len() == 13 && "browser.uncheck"@.len() == 15);
        assert("browser.select"@.len() == 14 && "browser.scroll"@.len() == 14);
        assert("browser.scroll_into_view"@.len() == 24);
    }
    reveal_strlit("browser.snapshot");
    reveal_strlit("browser.eval");
    reveal_strlit("browser.wait");
    reveal_strlit("browser.press");
    reveal_strlit("browser.keydown");
    reveal_strlit("browser.keyup");
    reveal_strlit("browser.scroll");
    reveal_strlit("browser.screenshot");
    reveal_strlit("browser.get.");
    reveal_strlit("browser.is.");
    reveal_strlit("browser.find.");
    reveal_strlit("browser.frame.main");
    reveal_strlit("browser.frame.select");
    reveal_strlit("browser.console.list");
    reveal_strlit("browser.errors.list");
    reveal_strlit("browser.highlight");
    assert("browser.snapshot"@.len() == 16 && "browser.eval"@.len() == 12);
    assert("browser.wait"@.len() == 12 && "browser.press"@.len() == 13);
    assert("browser.keydown"@.len() == 15 && "browser.keyup"@.len() == 13);
    assert("browser.scroll"@.len() == 14 && "browser.screenshot"@[9] == 'c');
    assert(save.take(12)[8] == 's' && load.take(12)[8] == 's' && "browser.get."@[8] == 'g');
    assert(save.take(11)[8] == 's' && load.take(11)[8] == 's' && "browser.is."@[8] == 'i');
    assert(save.take(13)[8] == 's' && load.take(13)[8] == 's' && "browser.find."@[8] == 'f');
    assert("browser.frame.main"@[8] == 'f' && "browser.frame.select"@.len() == 20);
    assert("browser.console.list"@.len() == 20 && "browser.errors.list"@.len() == 19);
    assert("browser.highlight"@.len() == 17);
}

/// A surface whose page changed is found by the same requests.
pub proof fn lemma_page_place(
    app: AppView,
    w: int,
    i: int,
    page: PageView,
    params: Option<JsonView>,
)
    requires
        0 <= w < app.state.workspaces.len(),
        0 <= i < app.state.workspaces[w].surfaces.len(),
    ensures
        automation_place(
            app.changed_to(
                app.state.with_surface(w, i, showing(app.state.workspaces[w].surfaces[i], page)),
            ),
            params,
        ) == automation_place(app, params),
{
    let before = app.state;
    let surface = showing(before.workspaces[w].surfaces[i], page);
    let after = app.changed_to(before.with_surface(w, i, surface)).state;
    let here = before.workspaces;
    let there = after.workspaces;
    assert forall|v: int| 0 <= v < here.len() implies surface_ids((#[trigger] there[v]).surfaces)
        == surface_ids(here[v].surfaces) && there[v].surfaces.len() == here[v].surfaces.len()
        && there[v].id == here[v].id by {
        assert(surface_ids(there[v].surfaces) =~= surface_ids(here[v].surfaces));
    }
    assert(workspace_ids(there) =~= workspace_ids(here));
    assert(current_index(after) == current_index(before));
    lemma_current_index(before);
    assert forall|id: Seq<char>| #[trigger] surface_at(after, id) == surface_at(before, id) by {
        lemma_same_place(here, there, id, 0);
    }
    assert forall|id: Seq<char>| (#[trigger] surface_at(before, id)) matches Some((v, j)) ==> 0 <= v
        < here.len() && 0 <= j < here[v].surfaces.len() by {
        lemma_surface_at(before, id);
    }
    assert forall|v: int, j: int|
        0 <= v < here.len() && 0 <= j < here[v].surfaces.len() implies (
    #[trigger] there[v].surfaces[j]).id == here[v].surfaces[j].id && there[v].surfaces[j].kind
        == here[v].surfaces[j].kind by {}
    assert(target_surface(after, params) == target_surface(before, params));
}

/// What was saved of a page is what is saved after it was loaded, whatever the
/// browser showed before, in the same session or another one, and by whatever
/// names the requests call their browsers.
pub proof fn law_a_saved_page_is_loaded(
    saving: AppView,
    which: Option<JsonView>,
    loading: AppView,
    params: Option<JsonView>,
    replies: Seq<ReplyView>,
    again: Option<JsonView>,
    readings: Readings,
)
    requires
        automation_place(saving, which) matches Ok((w, i))
            && saving.state.workspaces[w].surfaces[i].browser_state.well_formed(),
        automation_place(loading, params) is Ok,
        automated(
            saving,
            "browser.state.save"@,
            which,
            readings,
            Seq::empty(),
        ).step matches StepView::Done(Ok(told)) ==> param(params, "state"@) == told.get("state"@),
        automated(loading, "browser.state.load"@, params, readings, replies).step is Done,
        automation_place(loading, again) == automation_place(loading, params),
    ensures
        ({
            let first = automated(saving, "browser.state.save"@, which, readings, Seq::empty());
            let loaded = automated(loading, "browser.state.load"@, params, readings, replies);
            let second = automated(loaded.app, "browser.state.save"@, again, readings, Seq::empty());
            let (w, i) = automation_place(saving, which)->Ok_0;
            let (v, j) = automation_place(loading, params)->Ok_0;
            &&& loaded.step matches StepView::Done(Ok(_))
            &&& loaded.app.state.workspaces[v].surfaces[j].browser_state
                == saving.state.workspaces[w].surfaces[i].browser_state
            &&& first.step matches StepView::Done(Ok(told))
            &&& second.step matches StepView::Done(Ok(told_again))
            &&& told.get("state"@) is Some
            &&& told_again.get("state"@) == told.get("state"@)
        }),
{
    broadcast use lemma_with_get;

    let (w, i) = automation_place(saving, which)->Ok_0;
    let (v, j) = automation_place(loading, params)->Ok_0;
    let source = saving.state.workspaces[w].surfaces[i];
    let target = loading.state.workspaces[v].surfaces[j];
    lemma_surface_at(loading.state, target_surface(loading.state, params)->Ok_0);
    lemma_save_and_load(source, which, readings, Seq::empty());
    lemma_save_and_load(target, params, readings, replies);
    law_saved_page_loads_back(source.browser_state);
    lemma_page_place(loading, v, j, source.browser_state, again);
    lemma_save_and_load(showing(target, source.browser_state), again, readings, Seq::empty());
    reveal_strlit("surface_id");
    reveal_strlit("state");
    assert("surface_id"@.len() == 10 && "state"@.len() == 5);
}

// ---------------------------------------------------------------------------
// Input

/// What was sent to a surface is the newest thing that it noted.
pub proof fn law_input_is_noted(
    app: AppView,
    params: Option<JsonView>,
    sending: Sending,
    replies: Seq<ReplyView>,
)
    ensures
        sent(app, params, sending, replies).step matches StepView::Done(Ok(_)) ==> {
            &&& target_place(app.state, params) matches Ok((w, i))
            &&& target_place(sent(app, params, sending, replies).app.state, None) == Ok::<
                (int, int),
                crate::rpc::ErrorView,
            >((w, i))
            &&& sent(
                app,
                params,
                sending,
                replies,
            ).app.state.workspaces[w].surfaces[i].input_log
                == app.state.workspaces[w].surfaces[i].input_log.push(payload(params, sending))
        },
{
    if let Ok((w, i)) = target_place(app.state, params) {
        lemma_target_place(app.state, params);
        let old_surface = app.state.workspaces[w].surfaces[i];
        let surface = SurfaceView {
            input_log: old_surface.input_log.push(payload(params, sending)),
            ..old_surface
        };
        lemma_still_there(app.state, w, i, surface, surface.id);
    }
}

// ---------------------------------------------------------------------------
// Notifications

/// A new notification is the last of the list, unread, as the request that made
/// it was told of it.
pub proof fn law_a_new_notification_is_listed_last(
    app: AppView,
    clock: Clock,
    params: Option<JsonView>,
)
    ensures
        notification_created(app, clock, params).step matches StepView::Done(Ok(value)) ==> {
            let after = notification_created(app, clock, params).app.state.notifications;
            &&& after.len() == app.state.notifications.len() + 1
            &&& after.drop_last() == app.state.notifications
            &&& !after.last().read
            &&& value.get("notification"@) == Some(notification_value(after.last()))
        },
{
    broadcast use lemma_with_get;

    if let StepView::Done(Ok(value)) = notification_created(app, clock, params).step {
        let after = notification_created(app, clock, params).app.state.notifications;
        assert(after.drop_last() =~= app.state.notifications);
    }
}

/// Where the notifications were cleared none is listed.
pub proof fn law_cleared_notifications_are_gone(app: AppView)
    ensures
        notifications_listed(notifications_cleared(app).app).get("notifications"@) == Some(
            notifications_value(Seq::empty()),
        ),
        notifications_cleared(app).step matches StepView::Done(Ok(value)) && value.get("cleared"@)
            == Some(JsonView::Unsigned(app.state.notifications.len() as u64)),
{
    broadcast use lemma_with_get;

}

// ---------------------------------------------------------------------------
// Capabilities

/// What the features say of the renderer.
proof fn lemma_features(s: SurroundingsView)
    ensures
        features(s).get("ghosttyRenderer"@) == Some(JsonView::Bool(s.ghostty.renderer_available)),
        features(s).get("ghosttyLibrary"@) == Some(JsonView::Bool(s.ghostty.library_available)),
{
    broadcast use lemma_with_get;

    reveal_strlit("terminal");
    reveal_strlit("browser");
    reveal_strlit("ghosttyRenderer");
    reveal_strlit("ghosttyLibrary");
    assert("terminal"@.len() == 8 && "browser"@.len() == 7);
    assert("ghosttyRenderer"@.len() == 15 && "ghosttyLibrary"@.len() == 14);
}

/// The features say what holds of the renderer: that its library could be
/// opened, and that it can be used.
pub proof fn law_features_tell_of_the_renderer(s: SurroundingsView, window_id: Seq<char>)
    ensures
        capabilities(s, window_id).get("features"@) matches Some(told) && told.get(
            "ghosttyLibrary"@,
        ) == Some(JsonView::Bool(s.ghostty.library_available)) && told.get(
            "ghosttyRenderer"@,
        ) == Some(JsonView::Bool(s.ghostty.renderer_available)),
{
    broadcast use lemma_with_get;

    reveal_strlit("protocol");
    reveal_strlit("version");
    reveal_strlit("platform");
    reveal_strlit("app");
    reveal_strlit("socket_path");
    reveal_strlit("settings_path");
    reveal_strlit("terminal_backend");
    reveal_strlit("ghostty");
    reveal_strlit("terminal_runtime");
    reveal_strlit("access_mode");
    reveal_strlit("window_id");
    reveal_strlit("methods");
    reveal_strlit("socketProtocol");
    reveal_strlit("features");
    assert("features"@[0] == 'f');
    assert("protocol"@[0] == 'p');
    assert("platform"@[0] == 'p');
    lemma_features(s);
}

} // verus!
