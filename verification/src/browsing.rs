//! Where browser surfaces go: navigation, history and focus.

use crate::app_state::{answered, asked, refused, AppState, AppView, Turn};
use crate::host::{
    ask, asking, flag_at, flag_reply, ActionView, HostAction, HostReply, ReplyView, Step, StepView,
};
use crate::input::{target_place, target_surface, target_surface_id, target_surface_place};
use crate::json::{optional_chars, optional_ref_view, Json, JsonView, Object, ObjectView};
use crate::lists::{group_views, views};
use crate::model::{is_id, same_id, StateView, SurfaceKind, SurfaceRecord, SurfaceView};
use crate::page::{browser_state_for_url, copy_optional, or_empty, page_for, readable, text_or_empty};
use crate::records_json::{surface_json, surface_value};
use crate::rpc::{
    browser_not_found, not_found, optional_string_param, require, required, text1, unit_outcome, ErrorView,
    RpcError,
};
use crate::surfaces::{places_outcome, requested_surface, step_turn, surface_raised};
use crate::text::{join3, owned, texts};
use vstd::prelude::*;

verus! {

/// Whether a surface is a browser, and the refusal where it is not.
pub open spec fn browser_checked(surface: SurfaceView) -> Result<(), ErrorView> {
    if surface.kind == SurfaceKind::Browser {
        Ok(())
    } else {
        Err(not_found("surface "@ + surface.id + " is not a browser surface"@))
    }
}

/// Whether a surface is a browser, and the refusal where it is not.
pub fn ensure_browser_surface(surface: &SurfaceRecord) -> (r: Result<(), RpcError>)
    ensures
        unit_outcome(r) == browser_checked(surface@),
{
    match surface.kind {
        SurfaceKind::Browser => Ok(()),
        _ => Err(
            browser_not_found(
                join3("surface ", surface.id.as_str(), " is not a browser surface").as_str(),
            ),
        ),
    }
}

/// The place of the browser surface that a request names, or of the active
/// surface.
pub open spec fn browser_place(s: StateView, params: Option<JsonView>) -> Result<
    (int, int),
    ErrorView,
> {
    match target_place(s, params) {
        Err(e) => Err(e),
        Ok((w, i)) => match browser_checked(s.workspaces[w].surfaces[i]) {
            Ok(_) => Ok((w, i)),
            Err(e) => Err(e),
        },
    }
}

impl AppState {
    /// The place of the browser surface that a request names.
    fn browser_surface_place(&self, params: Option<&Json>) -> (r: Result<(usize, usize), RpcError>)
        ensures
            places_outcome(r) == browser_place(self@.state, optional_ref_view(params)),
            r matches Ok((w, i)) ==> w < self.state.workspaces@.len() && i
                < self.state.workspaces@[w as int].surfaces@.len(),
    {
        match target_surface_place(&self.state, params) {
            Err(e) => Err(e),
            Ok((w, i)) => match ensure_browser_surface(&self.state.workspaces[w].surfaces[i]) {
                Ok(_) => Ok((w, i)),
                Err(e) => Err(e),
            },
        }
    }
}

// ---------------------------------------------------------------------------
// The URL of a surface

/// The URL of a surface.
pub open spec fn url_told(app: AppView, params: Option<JsonView>) -> Result<JsonView, ErrorView> {
    match browser_place(app.state, params) {
        Err(e) => Err(e),
        Ok((w, i)) => {
            let surface = app.state.workspaces[w].surfaces[i];
            Ok(
                ObjectView::new().with("surface_id"@, JsonView::Text(surface.id)).with(
                    "url"@,
                    JsonView::Text(or_empty(surface.url)),
                ).with("title"@, JsonView::Text(surface.title)).with(
                    "loading"@,
                    JsonView::Bool(false),
                ).with("surface"@, surface_value(surface)).done(),
            )
        },
    }
}

impl AppState {
    /// The URL of a surface.
    pub fn browser_url(&self, params: Option<&Json>) -> (r: Result<Json, RpcError>)
        ensures
            crate::rpc::outcome_view(r) == url_told(self@, optional_ref_view(params)),
    {
        match self.browser_surface_place(params) {
            Err(e) => Err(e),
            Ok((w, i)) => {
                let surface = &self.state.workspaces[w].surfaces[i];
                Ok(
                    Object::new().with("surface_id", Json::text(surface.id.as_str())).with(
                        "url",
                        Json::Text(text_or_empty(copy_optional(&surface.url))),
                    ).with("title", Json::text(surface.title.as_str())).with(
                        "loading",
                        Json::Bool(false),
                    ).with("surface", surface_json(surface)).done(),
                )
            },
        }
    }
}

// ---------------------------------------------------------------------------
// Navigation

/// The history up to the present entry.
pub open spec fn history_so_far(surface: SurfaceView) -> Seq<Seq<char>> {
    match surface.history_index {
        Some(i) => if i + 1 < surface.history.len() {
            surface.history.take(i + 1)
        } else {
            surface.history
        },
        None => surface.history,
    }
}

/// The title of a surface that shows a URL: that of the page, or the URL.
pub open spec fn shown_title(url: Seq<char>) -> Seq<char> {
    let page = page_for(url);
    if page.title.len() > 0 {
        page.title
    } else {
        url
    }
}

/// A surface that went to a URL: what was ahead in its history is gone.
pub open spec fn gone_to(surface: SurfaceView, url: Seq<char>) -> SurfaceView {
    let history = history_so_far(surface).push(url);
    SurfaceView {
        url: Some(url),
        title: shown_title(url),
        history,
        history_index: Some((history.len() - 1) as usize),
        browser_state: page_for(url),
        ..surface
    }
}

/// A state in which a browser surface has changed and has the focus.
pub open spec fn browser_moved(s: StateView, w: int, i: int, surface: SurfaceView) -> StateView {
    s.with_surface(w, i, surface).focused(
        Some(surface.workspace_id),
        s.active_pane_id,
        Some(surface.id),
    )
}

/// A surface that navigates.
pub open spec fn navigated(app: AppView, params: Option<JsonView>, replies: Seq<ReplyView>) -> Turn {
    match required(text1(params, "url"@), "url"@) {
        Err(e) => refused(app, e),
        Ok(url) => match browser_place(app.state, params) {
            Err(e) => refused(app, e),
            Ok((w, i)) => {
                let surface = gone_to(app.state.workspaces[w].surfaces[i], url);
                match flag_at(replies, 0) {
                    None => asked(app, asking(surface.id, ActionView::BrowserNavigate(url))),
                    Some(live) => answered(
                        app.changed_to(browser_moved(app.state, w, i, surface)),
                        ObjectView::new().with(
                            "workspace_id"@,
                            JsonView::Text(surface.workspace_id),
                        ).with("pane_id"@, JsonView::Text(surface.pane_id)).with(
                            "surface_id"@,
                            JsonView::Text(surface.id),
                        ).with("url"@, JsonView::Text(url)).with(
                            "live_webview"@,
                            JsonView::Bool(live),
                        ).with("surface"@, surface_value(surface)).done(),
                    ),
                }
            },
        },
    }
}

/// The URL that is read when a request to navigate is carried out.
pub open spec fn navigation_url(app: AppView, params: Option<JsonView>) -> Option<Seq<char>> {
    match text1(params, "url"@) {
        None => None,
        Some(url) => match browser_place(app.state, params) {
            Ok(_) => Some(url),
            Err(_) => None,
        },
    }
}

/// Whether a URL that is read, if any, can be.
pub open spec fn all_readable(url: Option<Seq<char>>) -> bool {
    match url {
        Some(u) => readable(u),
        None => true,
    }
}

/// Lets a surface show a URL.
fn show_url(surface: &mut SurfaceRecord, url: &str)
    requires
        readable(url@),
    ensures
        final(surface)@ == (SurfaceView {
            url: Some(url@),
            title: shown_title(url@),
            browser_state: page_for(url@),
            ..old(surface)@
        }),
        final(surface).history == old(surface).history,
{
    surface.url = Some(owned(url));
    surface.browser_state = browser_state_for_url(url);
    surface.title = if surface.browser_state.title.as_str().is_empty() {
        owned(url)
    } else {
        surface.browser_state.title.clone()
    };
}

/// Lets a surface go to a URL.
fn go_to(surface: &mut SurfaceRecord, url: &str)
    requires
        readable(url@),
    ensures
        final(surface)@ == gone_to(old(surface)@, url@),
{
    broadcast use group_views;

    let ghost before = surface@;
    show_url(surface, url);
    let total: usize = surface.history.len();
    if let Some(index) = surface.history_index {
        if index < total {
            surface.history.truncate(index + 1);
        }
    }
    assert(texts(surface.history@) =~= history_so_far(before));
    surface.history.push(owned(url));
    let count: usize = surface.history.len();
    surface.history_index = Some(count - 1);
}

impl AppState {
    /// The URL that is read when a request to navigate is carried out.
    pub fn navigation_url_of(&self, params: Option<&Json>) -> (r: Option<String>)
        ensures
            optional_chars(r) == navigation_url(self@, optional_ref_view(params)),
    {
        match optional_string_param(params, "url") {
            None => None,
            Some(url) => match self.browser_surface_place(params) {
                Ok(_) => Some(url),
                Err(_) => None,
            },
        }
    }

    /// Puts a changed browser surface in its place and gives it the focus.
    fn focus_browser(&mut self, workspace_id: String, surface_id: String)
        ensures
            final(self)@ == old(self)@.holding(
                old(self)@.state.focused(
                    Some(workspace_id@),
                    old(self)@.state.active_pane_id,
                    Some(surface_id@),
                ),
            ),
    {
        let pane = copy_optional(&self.state.active_pane_id);
        self.set_focus(Some(workspace_id), pane, Some(surface_id));
    }

    /// Navigates a browser surface.
    pub fn navigate_browser(&mut self, params: Option<&Json>, replies: &Vec<HostReply>) -> (r: Step)
        requires
            all_readable(navigation_url(old(self)@, optional_ref_view(params))),
        ensures
            step_turn(r, final(self)@) == navigated(
                old(self)@,
                optional_ref_view(params),
                views(replies@),
            ),
    {
        broadcast use group_views;

        let url = match require(optional_string_param(params, "url"), "url") {
            Ok(url) => url,
            Err(e) => {
                return Step::Done(Err(e));
            },
        };
        match self.browser_surface_place(params) {
            Err(e) => Step::Done(Err(e)),
            Ok((w, i)) => match flag_reply(replies, 0) {
                None => Step::Ask(
                    ask(
                        self.state.workspaces[w].surfaces[i].id.as_str(),
                        HostAction::BrowserNavigate(url),
                    ),
                ),
                Some(live) => {
                    let surface = self.surface_mut(w, i);
                    go_to(surface, url.as_str());
                    let kept = surface.copy();
                    self.focus_browser(kept.workspace_id.clone(), kept.id.clone());
                    self.mark_state_changed();
                    Step::Done(
                        Ok(
                            Object::new().with(
                                "workspace_id",
                                Json::text(kept.workspace_id.as_str()),
                            ).with("pane_id", Json::text(kept.pane_id.as_str())).with(
                                "surface_id",
                                Json::text(kept.id.as_str()),
                            ).with("url", Json::Text(url)).with("live_webview", Json::Bool(live)).with(
                                "surface",
                                surface_json(&kept),
                            ).done(),
                        ),
                    )
                },
            },
        }
    }
}

// ---------------------------------------------------------------------------
// History

/// A step in the history.
#[derive(Clone, Copy, PartialEq, Eq, Structural)]
pub enum HistoryStep {
    Back,
    Forward,
}

/// The entry that a step leads to; the history has at least one.
pub open spec fn stepped(surface: SurfaceView, step: HistoryStep) -> int {
    let last = surface.history.len() - 1;
    let current = match surface.history_index {
        Some(i) => i as int,
        None => last,
    };
    let next = match step {
        HistoryStep::Back => if current == 0 {
            0
        } else {
            current - 1
        },
        HistoryStep::Forward => current + 1,
    };
    if next <= last {
        next
    } else {
        last
    }
}

/// A surface that made a step in its history.
pub open spec fn gone_along(surface: SurfaceView, step: HistoryStep) -> SurfaceView {
    let next = stepped(surface, step);
    let url = surface.history[next];
    SurfaceView {
        history_index: Some(next as usize),
        url: Some(url),
        title: shown_title(url),
        browser_state: page_for(url),
        ..surface
    }
}

/// What a view on the screen is asked to do for a step.
pub open spec fn step_action(step: HistoryStep) -> ActionView {
    match step {
        HistoryStep::Back => ActionView::BrowserBack,
        HistoryStep::Forward => ActionView::BrowserForward,
    }
}

/// Whether the view on the screen followed: by its own history, or by going to
/// the URL where it could not.
pub open spec fn followed(
    surface_id: Seq<char>,
    first: ActionView,
    url: Option<Seq<char>>,
    replies: Seq<ReplyView>,
) -> Result<bool, crate::host::CallView> {
    match flag_at(replies, 0) {
        None => Err(asking(surface_id, first)),
        Some(true) => Ok(true),
        Some(false) => match url {
            None => Ok(false),
            Some(u) => match flag_at(replies, 1) {
                None => Err(asking(surface_id, ActionView::BrowserNavigate(u))),
                Some(live) => Ok(live),
            },
        },
    }
}

/// A step in the history of a surface.
pub open spec fn history_stepped(
    app: AppView,
    params: Option<JsonView>,
    step: HistoryStep,
    replies: Seq<ReplyView>,
) -> Turn {
    match browser_place(app.state, params) {
        Err(e) => refused(app, e),
        Ok((w, i)) => {
            let old_surface = app.state.workspaces[w].surfaces[i];
            if old_surface.history.len() == 0 {
                answered(
                    app,
                    ObjectView::new().with("surface_id"@, JsonView::Text(old_surface.id)).with(
                        "surface"@,
                        surface_value(old_surface),
                    ).with("url"@, JsonView::Text(or_empty(old_surface.url))).done(),
                )
            } else {
                let surface = gone_along(old_surface, step);
                match followed(surface.id, step_action(step), surface.url, replies) {
                    Err(call) => asked(app, call),
                    Ok(live) => answered(
                        app.changed_to(browser_moved(app.state, w, i, surface)),
                        ObjectView::new().with("surface_id"@, JsonView::Text(surface.id)).with(
                            "surface"@,
                            surface_value(surface),
                        ).with("url"@, JsonView::Text(or_empty(surface.url))).with(
                            "live_webview"@,
                            JsonView::Bool(live),
                        ).done(),
                    ),
                }
            }
        },
    }
}

/// The URL that is read when a step in the history is carried out.
pub open spec fn step_url(app: AppView, params: Option<JsonView>, step: HistoryStep) -> Option<
    Seq<char>,
> {
    match browser_place(app.state, params) {
        Err(_) => None,
        Ok((w, i)) => {
            let surface = app.state.workspaces[w].surfaces[i];
            if surface.history.len() == 0 {
                None
            } else {
                Some(surface.history[stepped(surface, step)])
            }
        },
    }
}

/// Whether the view on the screen followed, or what to ask it.
enum Followed {
    Ask(crate::host::HostCall),
    Yes(bool),
}

/// Whether the view on the screen followed.
fn follow(surface_id: &str, first: HostAction, url: &Option<String>, replies: &Vec<HostReply>) -> (r:
    Followed)
    ensures
        match r {
            Followed::Ask(call) => followed(
                surface_id@,
                first@,
                optional_chars(*url),
                views(replies@),
            ) == Err::<bool, _>(call@),
            Followed::Yes(live) => followed(
                surface_id@,
                first@,
                optional_chars(*url),
                views(replies@),
            ) == Ok::<_, crate::host::CallView>(live),
        },
{
    match flag_reply(replies, 0) {
        None => Followed::Ask(ask(surface_id, first)),
        Some(true) => Followed::Yes(true),
        Some(false) => match url {
            None => Followed::Yes(false),
            Some(u) => match flag_reply(replies, 1) {
                None => Followed::Ask(ask(surface_id, HostAction::BrowserNavigate(u.clone()))),
                Some(live) => Followed::Yes(live),
            },
        },
    }
}

/// The entry that a step leads to.
fn step_index(surface: &SurfaceRecord, step: HistoryStep) -> (r: usize)
    requires
        surface.history@.len() > 0,
    ensures
        r == stepped(surface@, step),
        r < surface.history@.len(),
{
    let last: usize = surface.history.len() - 1;
    let current: usize = match surface.history_index {
        Some(i) => i,
        None => last,
    };
    let next: usize = match step {
        HistoryStep::Back => if current == 0 {
            0
        } else {
            current - 1
        },
        HistoryStep::Forward => if current == usize::MAX {
            current
        } else {
            current + 1
        },
    };
    if next <= last {
        next
    } else {
        last
    }
}

impl AppState {
    /// The URL that is read when a step in the history is carried out.
    pub fn step_url_of(&self, params: Option<&Json>, step: HistoryStep) -> (r: Option<String>)
        ensures
            optional_chars(r) == step_url(self@, optional_ref_view(params), step),
    {
        broadcast use group_views;

        match self.browser_surface_place(params) {
            Err(_) => None,
            Ok((w, i)) => {
                let surface = &self.state.workspaces[w].surfaces[i];
                if surface.history.is_empty() {
                    None
                } else {
                    let next: usize = step_index(surface, step);
                    Some(surface.history[next].clone())
                }
            },
        }
    }

    /// Makes a step in the history of a surface.
    pub fn browser_history_step(
        &mut self,
        params: Option<&Json>,
        step: HistoryStep,
        replies: &Vec<HostReply>,
    ) -> (r: Step)
        requires
            all_readable(step_url(old(self)@, optional_ref_view(params), step)),
        ensures
            step_turn(r, final(self)@) == history_stepped(
                old(self)@,
                optional_ref_view(params),
                step,
                views(replies@),
            ),
    {
        broadcast use group_views;

        match self.browser_surface_place(params) {
            Err(e) => Step::Done(Err(e)),
            Ok((w, i)) => {
                let surface = &self.state.workspaces[w].surfaces[i];
                if surface.history.is_empty() {
                    return Step::Done(
                        Ok(
                            Object::new().with("surface_id", Json::text(surface.id.as_str())).with(
                                "surface",
                                surface_json(surface),
                            ).with(
                                "url",
                                Json::Text(text_or_empty(copy_optional(&surface.url))),
                            ).done(),
                        ),
                    );
                }
                let next: usize = step_index(surface, step);
                let url = surface.history[next].clone();
                let action = match step {
                    HistoryStep::Back => HostAction::BrowserBack,
                    HistoryStep::Forward => HostAction::BrowserForward,
                };
                let aim = Some(url.clone());
                match follow(surface.id.as_str(), action, &aim, replies) {
                    Followed::Ask(call) => Step::Ask(call),
                    Followed::Yes(live) => {
                        let surface = self.surface_mut(w, i);
                        show_url(surface, url.as_str());
                        surface.history_index = Some(next);
                        let kept = surface.copy();
                        self.focus_browser(kept.workspace_id.clone(), kept.id.clone());
                        self.mark_state_changed();
                        Step::Done(
                            Ok(
                                Object::new().with(
                                    "surface_id",
                                    Json::text(kept.id.as_str()),
                                ).with("surface", surface_json(&kept)).with(
                                    "url",
                                    Json::Text(url),
                                ).with("live_webview", Json::Bool(live)).done(),
                            ),
                        )
                    },
                }
            },
        }
    }
}

// ---------------------------------------------------------------------------
// Reload and focus

/// A surface reloaded.
pub open spec fn reloaded(app: AppView, params: Option<JsonView>, replies: Seq<ReplyView>) -> StepView {
    match browser_place(app.state, params) {
        Err(e) => StepView::Done(Err(e)),
        Ok((w, i)) => {
            let surface = app.state.workspaces[w].surfaces[i];
            let url = or_empty(surface.url);
            let aim = if url.len() > 0 {
                Some(url)
            } else {
                None
            };
            match followed(surface.id, ActionView::BrowserReload, aim, replies) {
                Err(call) => StepView::Ask(call),
                Ok(live) => StepView::Done(
                    Ok(
                        ObjectView::new().with("surface_id"@, JsonView::Text(surface.id)).with(
                            "url"@,
                            JsonView::Text(url),
                        ).with("live_webview"@, JsonView::Bool(live)).done(),
                    ),
                ),
            }
        },
    }
}

/// A view on the screen that gets the focus with its surface.
pub open spec fn webview_focused(
    app: AppView,
    params: Option<JsonView>,
    replies: Seq<ReplyView>,
) -> Turn {
    match requested_surface(app.state, params) {
        Err(e) => refused(app, e),
        Ok((w, i)) => {
            let surface = app.state.workspaces[w].surfaces[i];
            let first: int = if surface.kind == SurfaceKind::Terminal {
                1
            } else {
                0
            };
            if replies.len() < first {
                asked(app, asking(surface.id, ActionView::TerminalFocus))
            } else if replies.len() <= first {
                asked(app, asking(surface.id, ActionView::BrowserFocus))
            } else {
                answered(
                    app.changed_to(surface_raised(app.state, surface)),
                    ObjectView::new().with("surface_id"@, JsonView::Text(surface.id)).with(
                        "focused"@,
                        JsonView::Bool(true),
                    ).done(),
                )
            }
        },
    }
}

/// Whether a surface has the focus.
pub open spec fn webview_focus_told(
    app: AppView,
    params: Option<JsonView>,
    replies: Seq<ReplyView>,
) -> StepView {
    match target_surface(app.state, params) {
        Err(e) => StepView::Done(Err(e)),
        Ok(id) => match flag_at(replies, 0) {
            None => StepView::Ask(asking(id, ActionView::BrowserRegistered)),
            Some(live) => StepView::Done(
                Ok(
                    ObjectView::new().with("surface_id"@, JsonView::Text(id)).with(
                        "focused"@,
                        JsonView::Bool(is_id(app.state.active_surface_id, id)),
                    ).with("live_webview"@, JsonView::Bool(live)).done(),
                ),
            ),
        },
    }
}

impl AppState {
    /// Reloads a surface.
    pub fn browser_reload(&self, params: Option<&Json>, replies: &Vec<HostReply>) -> (r: Step)
        ensures
            r@ == reloaded(self@, optional_ref_view(params), views(replies@)),
    {
        match self.browser_surface_place(params) {
            Err(e) => Step::Done(Err(e)),
            Ok((w, i)) => {
                let surface = &self.state.workspaces[w].surfaces[i];
                let url = text_or_empty(copy_optional(&surface.url));
                let aim = if url.as_str().is_empty() {
                    None
                } else {
                    Some(url.clone())
                };
                match follow(surface.id.as_str(), HostAction::BrowserReload, &aim, replies) {
                    Followed::Ask(call) => Step::Ask(call),
                    Followed::Yes(live) => Step::Done(
                        Ok(
                            Object::new().with("surface_id", Json::text(surface.id.as_str())).with(
                                "url",
                                Json::Text(url),
                            ).with("live_webview", Json::Bool(live)).done(),
                        ),
                    ),
                }
            },
        }
    }

    /// Gives a view on the screen the focus with its surface.
    pub fn browser_focus(&mut self, params: Option<&Json>, replies: &Vec<HostReply>) -> (r: Step)
        ensures
            step_turn(r, final(self)@) == webview_focused(
                old(self)@,
                optional_ref_view(params),
                views(replies@),
            ),
    {
        broadcast use group_views;

        match self.requested_surface_place(params) {
            Err(e) => Step::Done(Err(e)),
            Ok((w, i)) => {
                let surface = self.state.workspaces[w].surfaces[i].copy();
                let first: usize = match surface.kind {
                    SurfaceKind::Terminal => 1,
                    _ => 0,
                };
                if replies.len() < first {
                    return Step::Ask(ask(surface.id.as_str(), HostAction::TerminalFocus));
                }
                if replies.len() <= first {
                    return Step::Ask(ask(surface.id.as_str(), HostAction::BrowserFocus));
                }
                self.raise_surface(&surface);
                self.mark_state_changed();
                Step::Done(
                    Ok(
                        Object::new().with("surface_id", Json::text(surface.id.as_str())).with(
                            "focused",
                            Json::Bool(true),
                        ).done(),
                    ),
                )
            },
        }
    }

    /// Whether a surface has the focus.
    pub fn browser_focused(&self, params: Option<&Json>, replies: &Vec<HostReply>) -> (r: Step)
        ensures
            r@ == webview_focus_told(self@, optional_ref_view(params), views(replies@)),
    {
        match target_surface_id(&self.state, params) {
            Err(e) => Step::Done(Err(e)),
            Ok(id) => match flag_reply(replies, 0) {
                None => Step::Ask(ask(id.as_str(), HostAction::BrowserRegistered)),
                Some(live) => Step::Done(
                    Ok(
                        Object::new().with("surface_id", Json::text(id.as_str())).with(
                            "focused",
                            Json::Bool(same_id(&self.state.active_surface_id, id.as_str())),
                        ).with("live_webview", Json::Bool(live)).done(),
                    ),
                ),
            },
        }
    }
}

} // verus!
