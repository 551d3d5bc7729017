//! What each method of a request does.

use crate::app_state::{answered, told, AppState, AppView, Turn};
use crate::automation::automated;
use crate::browsing::{
    all_readable, history_stepped, navigated, navigation_url, reloaded, step_url, url_told,
    webview_focus_told, webview_focused, HistoryStep,
};
use crate::host::{HostReply, ReplyView, Step, StepView};
use crate::input::{health_told, history_cleared, sent, text_read, Sending};
use crate::json::{
    entries_view, lemma_object_view, optional_chars, optional_ref_view, Json, JsonView, ObjectView,
};
use crate::lists::views;
use crate::methods::{
    automation_methods, is_browser_automation_method, shell_methods,
};
use crate::moving::surface_moved;
use crate::notifications::{
    notification_created, notifications_cleared, notifications_listed, Clock,
};
use crate::page::can_read_url;
use crate::panes::{
    last_pane_told, pane_created, pane_focused, pane_plan, pane_resized, pane_surfaces_told, panes_listed,
    panes_swapped, plan_pane,
};
use crate::rpc::Readings;
use crate::surfaces::{
    plan_surface, step_turn, surface_closed, surface_created, surface_focused, surface_plan,
    surfaces_listed,
};
use crate::system::{app_status, capabilities, ping_answer, pong, Surroundings, SurroundingsView};
use crate::text::{owned, same};
use crate::workspaces::{
    current_told, identified, splits_equalized, workspace_closed, workspace_created, workspace_renamed,
    workspace_selected, workspaces_listed,
};
use vstd::prelude::*;

verus! {

/// A turn that changes nothing.
pub open spec fn seen(app: AppView, step: StepView) -> Turn {
    Turn { step, app }
}

// ---------------------------------------------------------------------------
// The shell and its workspaces

/// What the methods about the shell itself do.
pub open spec fn system_turn(
    app: AppView,
    method: Seq<char>,
    surroundings: SurroundingsView,
) -> Option<Turn> {
    if method == "ping"@ || method == "app.ping"@ || method == "system.ping"@ {
        Some(answered(app, pong()))
    } else if method == "app.status"@ {
        Some(answered(app, app_status(surroundings)))
    } else if method == "system.capabilities"@ {
        Some(answered(app, capabilities(surroundings, app.window_id)))
    } else if method == "system.identify"@ {
        Some(answered(app, identified(app)))
    } else if method == "surface.refresh"@ {
        Some(answered(app, ObjectView::new().done()))
    } else {
        None
    }
}

/// What the methods about workspaces do.
pub open spec fn workspace_turn(
    app: AppView,
    method: Seq<char>,
    params: Option<JsonView>,
    clock: Clock,
) -> Option<Turn> {
    if method == "workspace.list"@ || method == "list_workspaces"@ {
        Some(answered(app, workspaces_listed(app)))
    } else if method == "workspace.create"@ || method == "new_workspace"@ {
        Some(workspace_created(app, clock.nanos, params))
    } else if method == "workspace.current"@ {
        Some(told(app, current_told(app)))
    } else if method == "workspace.select"@ {
        Some(workspace_selected(app, params))
    } else if method == "workspace.close"@ {
        Some(workspace_closed(app, params))
    } else if method == "workspace.rename"@ {
        Some(workspace_renamed(app, params))
    } else if method == "workspace.equalize_splits"@ {
        Some(splits_equalized(app, params))
    } else {
        None
    }
}

/// What the methods about notifications do.
pub open spec fn notification_turn(
    app: AppView,
    method: Seq<char>,
    params: Option<JsonView>,
    clock: Clock,
) -> Option<Turn> {
    if method == "notification.create"@ || method == "notification.create_for_surface"@ {
        Some(notification_created(app, clock, params))
    } else if method == "notification.list"@ {
        Some(answered(app, notifications_listed(app)))
    } else if method == "notification.clear"@ {
        Some(notifications_cleared(app))
    } else {
        None
    }
}

// ---------------------------------------------------------------------------
// Surfaces and panes

/// What the methods about surfaces do.
pub open spec fn surface_turn(
    app: AppView,
    method: Seq<char>,
    params: Option<JsonView>,
    clock: Clock,
    replies: Seq<ReplyView>,
) -> Option<Turn> {
    if method == "surface.list"@ || method == "list_surfaces"@ || method == "list_panels"@ {
        Some(told(app, surfaces_listed(app, params)))
    } else if method == "surface.create"@ || method == "new_surface"@ {
        Some(surface_created(app, clock.nanos, params))
    } else if method == "surface.focus"@ {
        Some(surface_focused(app, params, replies))
    } else if method == "surface.close"@ {
        Some(surface_closed(app, params, replies))
    } else if method == "surface.move"@ || method == "surface.reorder"@ {
        Some(surface_moved(app, params))
    } else if method == "surface.send_text"@ {
        Some(sent(app, params, Sending::Text, replies))
    } else if method == "surface.send_key"@ {
        Some(sent(app, params, Sending::Key, replies))
    } else if method == "surface.read_text"@ {
        Some(seen(app, text_read(app, params, replies)))
    } else if method == "surface.clear_history"@ {
        Some(history_cleared(app, params, replies))
    } else if method == "surface.health"@ {
        Some(seen(app, health_told(app, params, replies)))
    } else {
        None
    }
}

/// Whether a method opens a new pane with what the request says.
pub open spec fn opens_pane(method: Seq<char>) -> bool {
    method == "surface.drag_to_split"@ || method == "pane.create"@ || method == "surface.split"@
}

/// What the methods about panes do.
pub open spec fn pane_turn(
    app: AppView,
    method: Seq<char>,
    params: Option<JsonView>,
    readings: Readings,
    clock: Clock,
) -> Option<Turn> {
    if opens_pane(method) {
        Some(pane_created(app, clock.nanos, params))
    } else if method == "pane.list"@ {
        Some(told(app, panes_listed(app, params)))
    } else if method == "pane.surfaces"@ {
        Some(told(app, pane_surfaces_told(app, params)))
    } else if method == "pane.focus"@ {
        Some(pane_focused(app, params))
    } else if method == "pane.swap"@ {
        Some(panes_swapped(app, params))
    } else if method == "pane.resize"@ {
        Some(pane_resized(app, params, readings))
    } else if method == "pane.last"@ {
        Some(told(app, last_pane_told(app)))
    } else {
        None
    }
}

// ---------------------------------------------------------------------------
// Browsers

/// The entries of the parameters, if they are an object.
pub open spec fn param_entries(params: Option<JsonView>) -> Seq<(Seq<char>, JsonView)> {
    match params {
        Some(JsonView::Object(entries)) => entries,
        _ => Seq::empty(),
    }
}

/// The parameters, with a browser as the kind of surface where they name none.
pub open spec fn with_browser_kind(params: Option<JsonView>) -> Option<JsonView> {
    let entries = param_entries(params);
    if JsonView::Object(entries).get("type"@) is Some {
        Some(JsonView::Object(entries))
    } else {
        Some(JsonView::Object(entries.push(("type"@, JsonView::Text("browser"@)))))
    }
}

/// What the methods about browsers do.
pub open spec fn browser_turn(
    app: AppView,
    method: Seq<char>,
    params: Option<JsonView>,
    readings: Readings,
    clock: Clock,
    replies: Seq<ReplyView>,
) -> Option<Turn> {
    if method == "browser.open_split"@ {
        Some(pane_created(app, clock.nanos, with_browser_kind(params)))
    } else if method == "browser.navigate"@ {
        Some(navigated(app, params, replies))
    } else if method == "browser.url.get"@ {
        Some(told(app, url_told(app, params)))
    } else if method == "browser.back"@ {
        Some(history_stepped(app, params, HistoryStep::Back, replies))
    } else if method == "browser.forward"@ {
        Some(history_stepped(app, params, HistoryStep::Forward, replies))
    } else if method == "browser.reload"@ {
        Some(seen(app, reloaded(app, params, replies)))
    } else if method == "browser.focus_webview"@ {
        Some(webview_focused(app, params, replies))
    } else if method == "browser.is_webview_focused"@ {
        Some(seen(app, webview_focus_told(app, params, replies)))
    } else if automation_methods().contains(method) {
        Some(automated(app, method, params, readings, replies))
    } else {
        None
    }
}

// ---------------------------------------------------------------------------
// Any method

/// What a method does; nothing where there is no such method.
pub open spec fn method_turn(
    app: AppView,
    method: Seq<char>,
    params: Option<JsonView>,
    readings: Readings,
    surroundings: SurroundingsView,
    clock: Clock,
    replies: Seq<ReplyView>,
) -> Option<Turn> {
    if system_turn(app, method, surroundings) is Some {
        system_turn(app, method, surroundings)
    } else if workspace_turn(app, method, params, clock) is Some {
        workspace_turn(app, method, params, clock)
    } else if surface_turn(app, method, params, clock, replies) is Some {
        surface_turn(app, method, params, clock, replies)
    } else if pane_turn(app, method, params, readings, clock) is Some {
        pane_turn(app, method, params, readings, clock)
    } else if browser_turn(app, method, params, readings, clock, replies) is Some {
        browser_turn(app, method, params, readings, clock, replies)
    } else {
        notification_turn(app, method, params, clock)
    }
}

/// The URL of the page that a plan for a new pane opens, if any.
pub open spec fn pane_page(app: AppView, params: Option<JsonView>) -> Option<Seq<char>> {
    match pane_plan(app.state, params) {
        Ok(plan) => plan.opening.page_url(),
        Err(_) => None,
    }
}

/// The URL of the page that a plan for a new surface opens, if any.
pub open spec fn surface_page(app: AppView, params: Option<JsonView>) -> Option<Seq<char>> {
    match surface_plan(app.state, params) {
        Ok(plan) => plan.opening.page_url(),
        Err(_) => None,
    }
}

/// The URL of the page that is read when a method is carried out, if any.
pub open spec fn page_to_read(app: AppView, method: Seq<char>, params: Option<JsonView>) -> Option<
    Seq<char>,
> {
    if method == "surface.create"@ || method == "new_surface"@ {
        surface_page(app, params)
    } else if opens_pane(method) {
        pane_page(app, params)
    } else if method == "browser.open_split"@ {
        pane_page(app, with_browser_kind(params))
    } else if method == "browser.navigate"@ {
        navigation_url(app, params)
    } else if method == "browser.back"@ {
        step_url(app, params, HistoryStep::Back)
    } else if method == "browser.forward"@ {
        step_url(app, params, HistoryStep::Forward)
    } else {
        None
    }
}

/// Whether the page that is read when a method is carried out, if any, can be.
pub open spec fn can_carry_out(app: AppView, method: Seq<char>, params: Option<JsonView>) -> bool {
    all_readable(page_to_read(app, method, params))
}

/// A turn that is there, or that nothing has changed.
pub open spec fn came_to(r: Option<Step>, before: AppView, after: AppView, turn: Option<Turn>) -> bool {
    match turn {
        Some(t) => r is Some && step_turn(r->0, after) == t,
        None => r is None && after == before,
    }
}

/// The parameters, with a browser as the kind of surface where they name none.
pub fn with_default_surface_kind(params: Option<&Json>) -> (r: Json)
    ensures
        Some(r@) == with_browser_kind(optional_ref_view(params)),
{
    broadcast use lemma_object_view;

    let object = match params {
        Some(value) => match value {
            Json::Object(_) => value.copy(),
            _ => Json::Object(Vec::new()),
        },
        None => Json::Object(Vec::new()),
    };
    assert(object@ == JsonView::Object(param_entries(optional_ref_view(params)))) by {
        assert(object@->Object_0 =~= param_entries(optional_ref_view(params)));
    }
    if object.get("type").is_some() {
        return object;
    }
    match object {
        Json::Object(entries) => {
            let mut entries = entries;
            let ghost before = entries@;
            entries.push((owned("type"), Json::text("browser")));
            assert(entries_view(entries@) =~= entries_view(before).push(
                ("type"@, JsonView::Text("browser"@)),
            ));
            Json::Object(entries)
        },
        other => other,
    }
}

impl AppState {
    /// Carries out a method about the shell itself.
    fn run_system(&self, method: &str, surroundings: &Surroundings) -> (r: Option<Step>)
        ensures
            came_to(r, self@, self@, system_turn(self@, method@, surroundings@)),
    {
        if same(method, "ping") || same(method, "app.ping") || same(method, "system.ping") {
            Some(Step::Done(Ok(ping_answer())))
        } else if same(method, "app.status") {
            Some(Step::Done(Ok(surroundings.app_status())))
        } else if same(method, "system.capabilities") {
            Some(Step::Done(Ok(surroundings.capabilities(self.window_id.as_str()))))
        } else if same(method, "system.identify") {
            Some(Step::Done(Ok(self.identify())))
        } else if same(method, "surface.refresh") {
            Some(Step::Done(Ok(crate::json::Object::new().done())))
        } else {
            None
        }
    }

    /// Carries out a method about workspaces.
    fn run_workspace(&mut self, method: &str, params: Option<&Json>, clock: Clock) -> (r: Option<Step>)
        ensures
            came_to(
                r,
                old(self)@,
                final(self)@,
                workspace_turn(old(self)@, method@, optional_ref_view(params), clock),
            ),
    {
        if same(method, "workspace.list") || same(method, "list_workspaces") {
            Some(Step::Done(Ok(self.list_workspaces())))
        } else if same(method, "workspace.create") || same(method, "new_workspace") {
            Some(Step::Done(self.create_workspace(params, clock.nanos)))
        } else if same(method, "workspace.current") {
            Some(Step::Done(self.current_workspace()))
        } else if same(method, "workspace.select") {
            Some(Step::Done(self.select_workspace(params)))
        } else if same(method, "workspace.close") {
            Some(Step::Done(self.close_workspace(params)))
        } else if same(method, "workspace.rename") {
            Some(Step::Done(self.rename_workspace(params)))
        } else if same(method, "workspace.equalize_splits") {
            Some(Step::Done(self.workspace_equalize_splits(params)))
        } else {
            None
        }
    }

    /// Carries out a method about notifications.
    fn run_notification(&mut self, method: &str, params: Option<&Json>, clock: Clock) -> (r: Option<Step>)
        ensures
            came_to(
                r,
                old(self)@,
                final(self)@,
                notification_turn(old(self)@, method@, optional_ref_view(params), clock),
            ),
    {
        if same(method, "notification.create") || same(method, "notification.create_for_surface") {
            Some(Step::Done(self.create_notification(params, clock)))
        } else if same(method, "notification.list") {
            Some(Step::Done(Ok(self.list_notifications())))
        } else if same(method, "notification.clear") {
            Some(Step::Done(self.clear_notifications()))
        } else {
            None
        }
    }

    /// Carries out a method about surfaces.
    fn run_surface(
        &mut self,
        method: &str,
        params: Option<&Json>,
        clock: Clock,
        replies: &Vec<HostReply>,
    ) -> (r: Option<Step>)
        requires
            can_carry_out(old(self)@, method@, optional_ref_view(params)),
        ensures
            came_to(
                r,
                old(self)@,
                final(self)@,
                surface_turn(
                    old(self)@,
                    method@,
                    optional_ref_view(params),
                    clock,
                    views(replies@),
                ),
            ),
    {
        if same(method, "surface.list") || same(method, "list_surfaces") || same(
            method,
            "list_panels",
        ) {
            Some(Step::Done(self.list_surfaces(params)))
        } else if same(method, "surface.create") || same(method, "new_surface") {
            Some(Step::Done(self.create_surface(params, clock.nanos)))
        } else if same(method, "surface.focus") {
            Some(self.focus_surface(params, replies))
        } else if same(method, "surface.close") {
            Some(self.close_surface(params, replies))
        } else if same(method, "surface.move") || same(method, "surface.reorder") {
            Some(Step::Done(self.move_surface(params)))
        } else if same(method, "surface.send_text") {
            Some(self.send_to_surface(params, Sending::Text, replies))
        } else if same(method, "surface.send_key") {
            Some(self.send_to_surface(params, Sending::Key, replies))
        } else if same(method, "surface.read_text") {
            Some(self.read_surface_text(params, replies))
        } else if same(method, "surface.clear_history") {
            Some(self.clear_surface_history(params, replies))
        } else if same(method, "surface.health") {
            Some(self.surface_health(params, replies))
        } else {
            None
        }
    }

    /// Carries out a method about panes.
    fn run_pane(
        &mut self,
        method: &str,
        params: Option<&Json>,
        readings: &Readings,
        clock: Clock,
    ) -> (r: Option<Step>)
        requires
            can_carry_out(old(self)@, method@, optional_ref_view(params)),
        ensures
            came_to(
                r,
                old(self)@,
                final(self)@,
                pane_turn(old(self)@, method@, optional_ref_view(params), *readings, clock),
            ),
    {
        if same(method, "surface.drag_to_split") || same(method, "pane.create") || same(
            method,
            "surface.split",
        ) {
            proof {
                lemma_pane_methods(method@);
            }
            Some(Step::Done(self.create_pane(params, clock.nanos)))
        } else if same(method, "pane.list") {
            Some(Step::Done(self.list_panes(params)))
        } else if same(method, "pane.surfaces") {
            Some(Step::Done(self.pane_surfaces(params)))
        } else if same(method, "pane.focus") {
            Some(Step::Done(self.focus_pane(params)))
        } else if same(method, "pane.swap") {
            Some(Step::Done(self.pane_swap(params)))
        } else if same(method, "pane.resize") {
            Some(Step::Done(self.pane_resize(params, readings)))
        } else if same(method, "pane.last") {
            Some(Step::Done(self.pane_last()))
        } else {
            None
        }
    }

    /// Carries out a method about browsers.
    fn run_browser(
        &mut self,
        method: &str,
        params: Option<&Json>,
        readings: &Readings,
        clock: Clock,
        replies: &Vec<HostReply>,
    ) -> (r: Option<Step>)
        requires
            can_carry_out(old(self)@, method@, optional_ref_view(params)),
        ensures
            came_to(
                r,
                old(self)@,
                final(self)@,
                browser_turn(
                    old(self)@,
                    method@,
                    optional_ref_view(params),
                    *readings,
                    clock,
                    views(replies@),
                ),
            ),
    {
        proof {
            lemma_browser_methods();
        }
        if same(method, "browser.open_split") {
            let opened = with_default_surface_kind(params);
            Some(Step::Done(self.create_pane(Some(&opened), clock.nanos)))
        } else if same(method, "browser.navigate") {
            Some(self.navigate_browser(params, replies))
        } else if same(method, "browser.url.get") {
            Some(Step::Done(self.browser_url(params)))
        } else if same(method, "browser.back") {
            Some(self.browser_history_step(params, HistoryStep::Back, replies))
        } else if same(method, "browser.forward") {
            Some(self.browser_history_step(params, HistoryStep::Forward, replies))
        } else if same(method, "browser.reload") {
            Some(self.browser_reload(params, replies))
        } else if same(method, "browser.focus_webview") {
            Some(self.browser_focus(params, replies))
        } else if same(method, "browser.is_webview_focused") {
            Some(self.browser_focused(params, replies))
        } else if is_browser_automation_method(method) {
            Some(self.browser_automation(method, params, readings, replies))
        } else {
            None
        }
    }

    /// The URL of the page that is read when a method is carried out, if any.
    pub fn url_to_read(&self, method: &str, params: Option<&Json>) -> (r: Option<String>)
        ensures
            optional_chars(r) == page_to_read(self@, method@, optional_ref_view(params)),
    {
        if same(method, "surface.create") || same(method, "new_surface") {
            match plan_surface(&self.state, params) {
                Ok(plan) => plan.opening.page_url(),
                Err(_) => None,
            }
        } else if same(method, "surface.drag_to_split") || same(method, "pane.create") || same(
            method,
            "surface.split",
        ) {
            match plan_pane(&self.state, params) {
                Ok(plan) => plan.opening.page_url(),
                Err(_) => None,
            }
        } else if same(method, "browser.open_split") {
            let opened = with_default_surface_kind(params);
            match plan_pane(&self.state, Some(&opened)) {
                Ok(plan) => plan.opening.page_url(),
                Err(_) => None,
            }
        } else if same(method, "browser.navigate") {
            self.navigation_url_of(params)
        } else if same(method, "browser.back") {
            self.step_url_of(params, HistoryStep::Back)
        } else if same(method, "browser.forward") {
            self.step_url_of(params, HistoryStep::Forward)
        } else {
            None
        }
    }

    /// Whether a method can be carried out: the page that it reads, if any, can
    /// be read.
    pub fn can_run(&self, method: &str, params: Option<&Json>) -> (r: bool)
        ensures
            r == can_carry_out(self@, method@, optional_ref_view(params)),
    {
        match self.url_to_read(method, params) {
            Some(url) => can_read_url(url.as_str()),
            None => true,
        }
    }

    /// Carries out a method. Nothing comes of one that is not there.
    pub fn run(
        &mut self,
        method: &str,
        params: Option<&Json>,
        readings: &Readings,
        surroundings: &Surroundings,
        clock: Clock,
        replies: &Vec<HostReply>,
    ) -> (r: Option<Step>)
        requires
            can_carry_out(old(self)@, method@, optional_ref_view(params)),
        ensures
            came_to(
                r,
                old(self)@,
                final(self)@,
                method_turn(
                    old(self)@,
                    method@,
                    optional_ref_view(params),
                    *readings,
                    surroundings@,
                    clock,
                    views(replies@),
                ),
            ),
    {
        if let Some(step) = self.run_system(method, surroundings) {
            return Some(step);
        }
        if let Some(step) = self.run_workspace(method, params, clock) {
            return Some(step);
        }
        if let Some(step) = self.run_surface(method, params, clock, replies) {
            return Some(step);
        }
        if let Some(step) = self.run_pane(method, params, readings, clock) {
            return Some(step);
        }
        if let Some(step) = self.run_browser(method, params, readings, clock, replies) {
            return Some(step);
        }
        self.run_notification(method, params, clock)
    }
}

/// The methods that open a pane open no surface in an old one.
proof fn lemma_pane_methods(method: Seq<char>)
    requires
        opens_pane(method),
    ensures
        method != "surface.create"@ && method != "new_surface"@,
{
    reveal_strlit("surface.create");
    reveal_strlit("new_surface");
    reveal_strlit("surface.drag_to_split");
    reveal_strlit("pane.create");
    reveal_strlit("surface.split");
    assert("surface.create"@.len() == 14);
    assert("new_surface"@.len() == 11);
    assert("surface.drag_to_split"@.len() == 21);
    assert("pane.create"@.len() == 11);
    assert("surface.split"@.len() == 13);
    assert("pane.create"@[0] == 'p');
    assert("new_surface"@[0] == 'n');
}

/// The methods of browsers are told apart from those that open anything else,
/// and from one another.
proof fn lemma_browser_methods()
    ensures
        !opens_pane("browser.open_split"@) && !opens_pane("browser.navigate"@) && !opens_pane(
            "browser.back"@,
        ) && !opens_pane("browser.forward"@),
        forall|m: Seq<char>|
            #![trigger opens_pane(m)]
            m == "browser.open_split"@ || m == "browser.navigate"@ || m == "browser.back"@ || m
                == "browser.forward"@ ==> m != "surface.create"@ && m != "new_surface"@,
        "browser.navigate"@ != "browser.open_split"@,
        "browser.back"@ != "browser.open_split"@ && "browser.back"@ != "browser.navigate"@,
        "browser.forward"@ != "browser.open_split"@ && "browser.forward"@ != "browser.navigate"@
            && "browser.forward"@ != "browser.back"@,
        "browser.open_split"@ != "surface.create"@ && "browser.open_split"@ != "new_surface"@,
        "browser.navigate"@ != "surface.create"@ && "browser.navigate"@ != "new_surface"@,
        "browser.back"@ != "surface.create"@ && "browser.back"@ != "new_surface"@,
        "browser.forward"@ != "surface.create"@ && "browser.forward"@ != "new_surface"@,
{
    reveal_strlit("surface.create");
    reveal_strlit("new_surface");
    reveal_strlit("surface.drag_to_split");
    reveal_strlit("pane.create");
    reveal_strlit("surface.split");
    reveal_strlit("browser.open_split");
    reveal_strlit("browser.navigate");
    reveal_strlit("browser.back");
    reveal_strlit("browser.forward");
    assert("surface.create"@[0] == 's' && "new_surface"@[0] == 'n' && "surface.drag_to_split"@[0]
        == 's' && "pane.create"@[0] == 'p' && "surface.split"@[0] == 's');
    assert("browser.open_split"@[0] == 'b' && "browser.navigate"@[0] == 'b' && "browser.back"@[0]
        == 'b' && "browser.forward"@[0] == 'b');
    assert("browser.open_split"@.len() == 18);
    assert("browser.navigate"@.len() == 16);
    assert("browser.back"@.len() == 12);
    assert("browser.forward"@.len() == 15);
}

// ---------------------------------------------------------------------------
// Laws

/// Whether a method is one of the shell's.
pub open spec fn is_shell_method(m: Seq<char>) -> bool {
    ||| m == "system.ping"@ || m == "system.capabilities"@ || m == "system.identify"@ || m
        == "app.status"@ || m == "surface.refresh"@
    ||| m == "workspace.list"@ || m == "workspace.create"@ || m == "workspace.current"@ || m
        == "workspace.select"@ || m == "workspace.close"@ || m == "workspace.rename"@ || m
        == "workspace.equalize_splits"@
    ||| m == "surface.list"@ || m == "surface.create"@ || m == "surface.focus"@ || m
        == "surface.close"@ || m == "surface.move"@ || m == "surface.reorder"@ || m
        == "surface.send_text"@ || m == "surface.send_key"@ || m == "surface.read_text"@ || m
        == "surface.clear_history"@ || m == "surface.health"@
    ||| m == "surface.split"@ || m == "surface.drag_to_split"@ || m == "pane.list"@ || m
        == "pane.surfaces"@ || m == "pane.create"@ || m == "pane.focus"@ || m == "pane.swap"@ || m
        == "pane.resize"@ || m == "pane.last"@
    ||| m == "browser.open_split"@ || m == "browser.navigate"@ || m == "browser.back"@ || m
        == "browser.forward"@ || m == "browser.reload"@ || m == "browser.url.get"@ || m
        == "browser.focus_webview"@ || m == "browser.is_webview_focused"@
    ||| m == "notification.create"@ || m == "notification.create_for_surface"@ || m
        == "notification.list"@ || m == "notification.clear"@
}

/// The list of the shell's methods holds nothing else.
proof fn lemma_shell_methods(m: Seq<char>)
    requires
        shell_methods().contains(m),
    ensures
        is_shell_method(m),
{
    broadcast use vstd::seq_lib::lemma_seq_contains_after_push;

    assert(!Seq::<Seq<char>>::empty().contains(m));
}

/// Every method that the shell says it supports is one that it carries out.
pub proof fn law_supported_methods_are_carried_out(
    app: AppView,
    method: Seq<char>,
    params: Option<JsonView>,
    readings: Readings,
    surroundings: SurroundingsView,
    clock: Clock,
    replies: Seq<ReplyView>,
)
    requires
        crate::methods::all_methods().contains(method),
    ensures
        method_turn(app, method, params, readings, surroundings, clock, replies) is Some,
{
    crate::method_order::law_methods_are_listed_in_order(method, 0, 0);
    if shell_methods().contains(method) {
        lemma_shell_methods(method);
    }
}

} // verus!
