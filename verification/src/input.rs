//! What is typed into surfaces, and what is read from them.

use crate::app_state::{answered, asked, refused, AppState, AppView, Turn};
use crate::host::{
    ask, asking, flag_at, flag_reply, ActionView, HostAction, HostReply, ReplyView, Step, StepView,
};
use crate::json::{optional_chars, optional_ref_view, Json, JsonView, Object, ObjectView};
use crate::lists::{group_views, views};
use crate::locate::{
    lemma_surface_place, surface_by_id, surface_place, unknown_surface, unknown_surface_error,
};
use crate::model::{kind_text, surface_kind_name, State, StateView, SurfaceKind, SurfaceView};
use crate::page::{copy_optional, text_or_empty, BrowserState, PageView};
use crate::panes::{given_surface, given_surface_id};
use crate::query::{browser_inner_text, page_text};
use crate::records_json::{surface_json, surface_value};
use crate::rpc::{
    invalid, invalid_params, raw_text, raw_text_param, text_outcome, ErrorView, RpcError,
};
use crate::surfaces::{places_outcome, step_turn};
use crate::terminal::{terminal_json, terminal_value, TerminalStatus, TerminalStatusView};
use crate::text::{join, joined, owned};
use vstd::prelude::*;

verus! {

/// The id of the surface that a request names, or of the active one.
pub open spec fn target_surface(s: StateView, params: Option<JsonView>) -> Result<
    Seq<char>,
    ErrorView,
> {
    match given_surface(s, params) {
        Err(e) => Err(e),
        Ok(Some(id)) => Ok(id),
        Ok(None) => match s.active_surface_id {
            Some(id) => Ok(id),
            None => Err(invalid("no surface specified"@)),
        },
    }
}

/// The id of the surface that a request names, or of the active one.
pub fn target_surface_id(state: &State, params: Option<&Json>) -> (r: Result<String, RpcError>)
    ensures
        text_outcome(r) == target_surface(state@, optional_ref_view(params)),
{
    match given_surface_id(state, params) {
        Err(e) => Err(e),
        Ok(Some(id)) => Ok(id),
        Ok(None) => match &state.active_surface_id {
            Some(id) => Ok(id.clone()),
            None => Err(invalid_params("no surface specified")),
        },
    }
}

/// The place of the surface that a request names, or of the active one.
pub open spec fn target_place(s: StateView, params: Option<JsonView>) -> Result<
    (int, int),
    ErrorView,
> {
    match target_surface(s, params) {
        Err(e) => Err(e),
        Ok(id) => match surface_place(s.workspaces, id, 0) {
            Some(place) => Ok(place),
            None => Err(unknown_surface(id)),
        },
    }
}

/// The place of the surface that a request names, or of the active one.
pub fn target_surface_place(state: &State, params: Option<&Json>) -> (r: Result<
    (usize, usize),
    RpcError,
>)
    ensures
        places_outcome(r) == target_place(state@, optional_ref_view(params)),
        r matches Ok((w, i)) ==> w < state.workspaces@.len() && i
            < state.workspaces@[w as int].surfaces@.len(),
{
    match target_surface_id(state, params) {
        Err(e) => Err(e),
        Ok(id) => match surface_by_id(&state.workspaces, id.as_str()) {
            Some(place) => Ok(place),
            None => Err(unknown_surface_error(id.as_str())),
        },
    }
}

/// A target stands in the lists.
pub proof fn lemma_target_place(s: StateView, params: Option<JsonView>)
    ensures
        target_place(s, params) matches Ok((w, i)) ==> 0 <= w < s.workspaces.len() && 0 <= i
            < s.workspaces[w].surfaces.len() && target_surface(s, params) == Ok::<_, ErrorView>(
            s.workspaces[w].surfaces[i].id,
        ),
{
    if let Ok(id) = target_surface(s, params) {
        lemma_surface_place(s.workspaces, id, 0);
    }
}

// ---------------------------------------------------------------------------
// Sending

/// What is sent to a surface.
#[derive(Clone, Copy, PartialEq, Eq, Structural)]
pub enum Sending {
    Text,
    Key,
}

/// The name of the parameter that holds what is sent.
pub open spec fn sending_key(sending: Sending) -> Seq<char> {
    match sending {
        Sending::Text => "text"@,
        Sending::Key => "key"@,
    }
}

/// What is sent.
pub open spec fn payload(params: Option<JsonView>, sending: Sending) -> Seq<char> {
    match raw_text(params, sending_key(sending)) {
        Some(s) => s,
        None => Seq::empty(),
    }
}

/// How a terminal on the screen gets it.
pub open spec fn sending_action(sending: Sending, text: Seq<char>) -> ActionView {
    match sending {
        Sending::Text => ActionView::TerminalSendText(text),
        Sending::Key => ActionView::TerminalSendKey(text),
    }
}

/// The answer to what was sent.
pub open spec fn sent_told(surface: SurfaceView, live: bool) -> JsonView {
    ObjectView::new().with("workspace_id"@, JsonView::Text(surface.workspace_id)).with(
        "pane_id"@,
        JsonView::Text(surface.pane_id),
    ).with("surface_id"@, JsonView::Text(surface.id)).with("surface"@, surface_value(surface)).with(
        "accepted"@,
        JsonView::Bool(true),
    ).with("live_io"@, JsonView::Bool(live)).done()
}

/// Something sent to a surface: it is noted, the surface gets the focus, and a
/// terminal on the screen gets it.
pub open spec fn sent(
    app: AppView,
    params: Option<JsonView>,
    sending: Sending,
    replies: Seq<ReplyView>,
) -> Turn {
    match target_place(app.state, params) {
        Err(e) => refused(app, e),
        Ok((w, i)) => {
            let old_surface = app.state.workspaces[w].surfaces[i];
            let text = payload(params, sending);
            let terminal = old_surface.kind == SurfaceKind::Terminal;
            if terminal && replies.len() == 0 {
                asked(app, asking(old_surface.id, sending_action(sending, text)))
            } else {
                let surface = SurfaceView {
                    input_log: old_surface.input_log.push(text),
                    ..old_surface
                };
                answered(
                    app.changed_to(
                        app.state.with_surface(w, i, surface).focused(
                            Some(surface.workspace_id),
                            Some(surface.pane_id),
                            Some(surface.id),
                        ),
                    ),
                    sent_told(surface, terminal && flag_at(replies, 0) == Some(true)),
                )
            }
        },
    }
}

/// What is sent.
fn payload_param(params: Option<&Json>, sending: Sending) -> (r: String)
    ensures
        r@ == payload(optional_ref_view(params), sending),
{
    match sending {
        Sending::Text => text_or_empty(raw_text_param(params, "text")),
        Sending::Key => text_or_empty(raw_text_param(params, "key")),
    }
}

impl AppState {
    /// Sends something to a surface.
    pub fn send_to_surface(
        &mut self,
        params: Option<&Json>,
        sending: Sending,
        replies: &Vec<HostReply>,
    ) -> (r: Step)
        ensures
            step_turn(r, final(self)@) == sent(
                old(self)@,
                optional_ref_view(params),
                sending,
                views(replies@),
            ),
    {
        broadcast use group_views;

        let text = payload_param(params, sending);
        match target_surface_place(&self.state, params) {
            Err(e) => Step::Done(Err(e)),
            Ok((w, i)) => {
                let terminal = match self.state.workspaces[w].surfaces[i].kind {
                    SurfaceKind::Terminal => true,
                    _ => false,
                };
                if terminal && replies.len() == 0 {
                    let action = match sending {
                        Sending::Text => HostAction::TerminalSendText(text),
                        Sending::Key => HostAction::TerminalSendKey(text),
                    };
                    return Step::Ask(
                        ask(self.state.workspaces[w].surfaces[i].id.as_str(), action),
                    );
                }
                let live = terminal && match flag_reply(replies, 0) {
                    Some(b) => b,
                    None => false,
                };
                let surface = self.surface_mut(w, i);
                surface.input_log.push(text);
                let kept = surface.copy();
                self.set_focus(
                    Some(kept.workspace_id.clone()),
                    Some(kept.pane_id.clone()),
                    Some(kept.id.clone()),
                );
                self.mark_state_changed();
                Step::Done(
                    Ok(
                        Object::new().with(
                            "workspace_id",
                            Json::text(kept.workspace_id.as_str()),
                        ).with("pane_id", Json::text(kept.pane_id.as_str())).with(
                            "surface_id",
                            Json::text(kept.id.as_str()),
                        ).with("surface", surface_json(&kept)).with(
                            "accepted",
                            Json::Bool(true),
                        ).with("live_io", Json::Bool(live)).done(),
                    ),
                )
            },
        }
    }
}

// ---------------------------------------------------------------------------
// Reading

/// The text that the reply at a place brings.
pub open spec fn text_at(replies: Seq<ReplyView>, i: int) -> Option<Seq<char>> {
    if 0 <= i < replies.len() {
        match replies[i] {
            ReplyView::Text(s) => s,
            _ => None,
        }
    } else {
        None
    }
}

/// The status of a terminal that the reply at a place brings.
pub open spec fn status_at(replies: Seq<ReplyView>, i: int) -> Option<TerminalStatusView> {
    if 0 <= i < replies.len() {
        match replies[i] {
            ReplyView::Terminal(s) => s,
            _ => None,
        }
    } else {
        None
    }
}

/// The text that the reply at a place brings.
pub fn text_reply(replies: &Vec<HostReply>, i: usize) -> (r: Option<String>)
    ensures
        optional_chars(r) == text_at(views(replies@), i as int),
{
    if i < replies.len() {
        match &replies[i] {
            HostReply::Text(s) => copy_optional(s),
            _ => None,
        }
    } else {
        None
    }
}

/// The status of a terminal that the reply at a place brings.
fn status_reply(replies: &Vec<HostReply>, i: usize) -> (r: Option<&TerminalStatus>)
    ensures
        match r {
            Some(s) => status_at(views(replies@), i as int) == Some(s@),
            None => status_at(views(replies@), i as int) is None,
        },
{
    if i < replies.len() {
        match &replies[i] {
            HostReply::Terminal(Some(s)) => Some(s),
            _ => None,
        }
    } else {
        None
    }
}

/// The status of a terminal as a value: null where there is none.
pub open spec fn status_told(status: Option<TerminalStatusView>) -> JsonView {
    match status {
        Some(s) => terminal_value(s),
        None => JsonView::Null,
    }
}

/// What serves a surface: the backend of its terminal on the screen; `otherwise`
/// for a terminal that is not there; its kind for the rest.
pub open spec fn backend_name(
    status: Option<TerminalStatusView>,
    kind: SurfaceKind,
    otherwise: Seq<char>,
) -> Seq<char> {
    match status {
        Some(s) => s.backend,
        None => if kind == SurfaceKind::Terminal {
            otherwise
        } else {
            kind_text(kind)
        },
    }
}

/// Whether a terminal on the screen is alive.
pub open spec fn alive(status: Option<TerminalStatusView>) -> bool {
    match status {
        Some(s) => s.live,
        None => false,
    }
}

/// The status of a terminal as a value.
fn status_value_json(status: Option<&TerminalStatus>) -> (r: Json)
    ensures
        r@ == status_told(
            match status {
                Some(s) => Some(s@),
                None => None,
            },
        ),
{
    match status {
        Some(s) => terminal_json(s),
        None => Json::Null,
    }
}

/// What serves a surface.
fn backend_of(status: Option<&TerminalStatus>, kind: SurfaceKind, otherwise: &str) -> (r: String)
    ensures
        r@ == backend_name(
            match status {
                Some(s) => Some(s@),
                None => None,
            },
            kind,
            otherwise@,
        ),
{
    match status {
        Some(s) => s.backend.clone(),
        None => match kind {
            SurfaceKind::Terminal => owned(otherwise),
            _ => owned(surface_kind_name(kind)),
        },
    }
}

/// The text of a surface: of a browser, that of its page; of a terminal on the
/// screen, what it shows; otherwise what was sent to it.
pub open spec fn surface_text_of(surface: SurfaceView, shown: Option<Seq<char>>) -> Seq<char> {
    let noted = joined(surface.input_log, ""@);
    match surface.kind {
        SurfaceKind::Browser => page_text(surface.browser_state),
        SurfaceKind::Terminal => match shown {
            Some(text) => if text.len() > 0 {
                text
            } else {
                noted
            },
            None => noted,
        },
        SurfaceKind::Markdown => noted,
    }
}

/// The text of a surface, and what serves it.
pub open spec fn text_read(
    app: AppView,
    params: Option<JsonView>,
    replies: Seq<ReplyView>,
) -> StepView {
    match target_place(app.state, params) {
        Err(e) => StepView::Done(Err(e)),
        Ok((w, i)) => {
            let surface = app.state.workspaces[w].surfaces[i];
            let first: int = if surface.kind == SurfaceKind::Terminal {
                1
            } else {
                0
            };
            if replies.len() < first {
                StepView::Ask(asking(surface.id, ActionView::TerminalReadText))
            } else if replies.len() <= first {
                StepView::Ask(asking(surface.id, ActionView::TerminalStatus))
            } else {
                let status = status_at(replies, first);
                StepView::Done(
                    Ok(
                        ObjectView::new().with("surface_id"@, JsonView::Text(surface.id)).with(
                            "text"@,
                            JsonView::Text(surface_text_of(surface, text_at(replies, 0))),
                        ).with(
                            "backend"@,
                            JsonView::Text(backend_name(status, surface.kind, "linux-state"@)),
                        ).with("live_io"@, JsonView::Bool(alive(status))).with(
                            "terminal"@,
                            status_told(status),
                        ).done(),
                    ),
                )
            }
        },
    }
}

/// How a surface fares.
pub open spec fn health_told(
    app: AppView,
    params: Option<JsonView>,
    replies: Seq<ReplyView>,
) -> StepView {
    match target_place(app.state, params) {
        Err(e) => StepView::Done(Err(e)),
        Ok((w, i)) => {
            let surface = app.state.workspaces[w].surfaces[i];
            let browser = surface.kind == SurfaceKind::Browser;
            if replies.len() == 0 {
                StepView::Ask(asking(surface.id, ActionView::TerminalStatus))
            } else if browser && replies.len() == 1 {
                StepView::Ask(asking(surface.id, ActionView::BrowserRegistered))
            } else {
                let status = status_at(replies, 0);
                StepView::Done(
                    Ok(
                        ObjectView::new().with("surface_id"@, JsonView::Text(surface.id)).with(
                            "ok"@,
                            JsonView::Bool(surface.kind != SurfaceKind::Terminal || alive(status)),
                        ).with("kind"@, JsonView::Text(kind_text(surface.kind))).with(
                            "backend"@,
                            JsonView::Text(backend_name(status, surface.kind, "not-mounted"@)),
                        ).with("live_io"@, JsonView::Bool(alive(status))).with(
                            "terminal"@,
                            status_told(status),
                        ).with(
                            "browser_live"@,
                            JsonView::Bool(browser && flag_at(replies, 1) == Some(true)),
                        ).done(),
                    ),
                )
            }
        },
    }
}

impl AppState {
    /// The text of a surface, and what serves it.
    pub fn read_surface_text(&self, params: Option<&Json>, replies: &Vec<HostReply>) -> (r: Step)
        ensures
            r@ == text_read(self@, optional_ref_view(params), views(replies@)),
    {
        broadcast use group_views;

        match target_surface_place(&self.state, params) {
            Err(e) => Step::Done(Err(e)),
            Ok((w, i)) => {
                let surface = &self.state.workspaces[w].surfaces[i];
                let first: usize = match surface.kind {
                    SurfaceKind::Terminal => 1,
                    _ => 0,
                };
                if replies.len() < first {
                    return Step::Ask(ask(surface.id.as_str(), HostAction::TerminalReadText));
                }
                if replies.len() <= first {
                    return Step::Ask(ask(surface.id.as_str(), HostAction::TerminalStatus));
                }
                let text = match surface.kind {
                    SurfaceKind::Browser => browser_inner_text(&surface.browser_state),
                    SurfaceKind::Terminal => match text_reply(replies, 0) {
                        Some(text) => if text.as_str().is_empty() {
                            join(&surface.input_log, "")
                        } else {
                            text
                        },
                        None => join(&surface.input_log, ""),
                    },
                    SurfaceKind::Markdown => join(&surface.input_log, ""),
                };
                let status = status_reply(replies, first);
                let live = match status {
                    Some(s) => s.live,
                    None => false,
                };
                Step::Done(
                    Ok(
                        Object::new().with("surface_id", Json::text(surface.id.as_str())).with(
                            "text",
                            Json::Text(text),
                        ).with(
                            "backend",
                            Json::Text(backend_of(status, surface.kind, "linux-state")),
                        ).with("live_io", Json::Bool(live)).with(
                            "terminal",
                            status_value_json(status),
                        ).done(),
                    ),
                )
            },
        }
    }

    /// How a surface fares.
    pub fn surface_health(&self, params: Option<&Json>, replies: &Vec<HostReply>) -> (r: Step)
        ensures
            r@ == health_told(self@, optional_ref_view(params), views(replies@)),
    {
        broadcast use group_views;

        match target_surface_place(&self.state, params) {
            Err(e) => Step::Done(Err(e)),
            Ok((w, i)) => {
                let surface = &self.state.workspaces[w].surfaces[i];
                let browser = match surface.kind {
                    SurfaceKind::Browser => true,
                    _ => false,
                };
                let terminal = match surface.kind {
                    SurfaceKind::Terminal => true,
                    _ => false,
                };
                if replies.len() == 0 {
                    return Step::Ask(ask(surface.id.as_str(), HostAction::TerminalStatus));
                }
                if browser && replies.len() == 1 {
                    return Step::Ask(ask(surface.id.as_str(), HostAction::BrowserRegistered));
                }
                let status = status_reply(replies, 0);
                let live = match status {
                    Some(s) => s.live,
                    None => false,
                };
                let registered = match flag_reply(replies, 1) {
                    Some(b) => b,
                    None => false,
                };
                Step::Done(
                    Ok(
                        Object::new().with("surface_id", Json::text(surface.id.as_str())).with(
                            "ok",
                            Json::Bool(!terminal || live),
                        ).with("kind", Json::text(surface_kind_name(surface.kind))).with(
                            "backend",
                            Json::Text(backend_of(status, surface.kind, "not-mounted")),
                        ).with("live_io", Json::Bool(live)).with(
                            "terminal",
                            status_value_json(status),
                        ).with("browser_live", Json::Bool(browser && registered)).done(),
                    ),
                )
            },
        }
    }
}

// ---------------------------------------------------------------------------
// Clearing

/// A surface cleared: what was sent to it is forgotten, and the page of a
/// browser too.
pub open spec fn surface_cleared(surface: SurfaceView) -> SurfaceView {
    SurfaceView {
        input_log: Seq::empty(),
        browser_state: if surface.kind == SurfaceKind::Browser {
            PageView::blank()
        } else {
            surface.browser_state
        },
        ..surface
    }
}

/// The history of a surface cleared.
pub open spec fn history_cleared(
    app: AppView,
    params: Option<JsonView>,
    replies: Seq<ReplyView>,
) -> Turn {
    match target_place(app.state, params) {
        Err(e) => refused(app, e),
        Ok((w, i)) => {
            let surface = app.state.workspaces[w].surfaces[i];
            if surface.kind == SurfaceKind::Terminal && replies.len() == 0 {
                asked(app, asking(surface.id, ActionView::TerminalClear))
            } else {
                answered(
                    app.changed_to(app.state.with_surface(w, i, surface_cleared(surface))),
                    ObjectView::new().with("surface_id"@, JsonView::Text(surface.id)).with(
                        "cleared"@,
                        JsonView::Bool(true),
                    ).done(),
                )
            }
        },
    }
}

impl AppState {
    /// Clears the history of a surface.
    pub fn clear_surface_history(&mut self, params: Option<&Json>, replies: &Vec<HostReply>) -> (r:
        Step)
        ensures
            step_turn(r, final(self)@) == history_cleared(
                old(self)@,
                optional_ref_view(params),
                views(replies@),
            ),
    {
        broadcast use group_views;

        match target_surface_place(&self.state, params) {
            Err(e) => Step::Done(Err(e)),
            Ok((w, i)) => {
                let kind = self.state.workspaces[w].surfaces[i].kind;
                let id = self.state.workspaces[w].surfaces[i].id.clone();
                if let SurfaceKind::Terminal = kind {
                    if replies.len() == 0 {
                        return Step::Ask(ask(id.as_str(), HostAction::TerminalClear));
                    }
                }
                let surface = self.surface_mut(w, i);
                surface.input_log.clear();
                if let SurfaceKind::Browser = kind {
                    surface.browser_state = BrowserState::default();
                }
                self.mark_state_changed();
                Step::Done(
                    Ok(
                        Object::new().with("surface_id", Json::text(id.as_str())).with(
                            "cleared",
                            Json::Bool(true),
                        ).done(),
                    ),
                )
            },
        }
    }
}

} // verus!
