//! What is answered to a line of the socket: to a request, or to one of the
//! older commands.

use crate::app_state::{AppState, AppView};
use crate::host::{CallView, HostCall, HostReply, ReplyView, Step, StepView};
use crate::json::{optional_view, Json, JsonView, Object, ObjectView};
use crate::lists::{group_views, views};
use crate::model::WorkspaceView;
use crate::notifications::Clock;
use crate::page::or_empty;
use crate::routing::{can_carry_out, method_turn};
use crate::rpc::{
    answer, error_response, outcome_view, params_ref, response, ErrorView, RequestView, ResponseView, RpcError,
    RpcRequest, RpcResponse,
};
use crate::shown::{workspace_shown, WorkspaceSummary, WorkspaceSummaryView};
use crate::system::{Surroundings, SurroundingsView};
use crate::text::{after_first_word, first_word, join, join2, joined, owned, same, split_word, texts};
use crate::workspaces::{current_told, with_terminal_workspace, workspace_closed, workspace_selected};
use vstd::prelude::*;

verus! {

/// What is answered to a line: something is asked first, a response, or a text.
pub enum Answer {
    Ask(HostCall),
    Response(RpcResponse),
    Line(String),
}

/// What is answered to a line.
pub enum AnswerView {
    Ask(CallView),
    Response(ResponseView),
    Line(Seq<char>),
}

impl View for Answer {
    type V = AnswerView;

    open spec fn view(&self) -> AnswerView {
        match *self {
            Answer::Ask(call) => AnswerView::Ask(call@),
            Answer::Response(r) => AnswerView::Response(r@),
            Answer::Line(s) => AnswerView::Line(s@),
        }
    }
}

/// What a line makes of the shell.
#[verifier::ext_equal]
pub struct LineTurn {
    pub answer: AnswerView,
    pub app: AppView,
}

// ---------------------------------------------------------------------------
// Requests

/// The answer to a request in another version of the protocol.
pub open spec fn wrong_version() -> ErrorView {
    ErrorView { code: -32600, message: "unsupported jsonrpc version"@ }
}

/// The answer to a method that is not there.
pub open spec fn no_such_method(method: Seq<char>) -> ErrorView {
    ErrorView { code: -32601, message: "method not implemented on Linux yet: "@ + method }
}

/// The answer where the shell itself failed.
pub open spec fn internal(message: Seq<char>) -> ErrorView {
    ErrorView { code: -32603, message }
}

/// Whether a request is in the version of the protocol that is spoken; one that
/// names none is.
pub open spec fn is_spoken(request: RequestView) -> bool {
    match request.jsonrpc {
        Some(version) => version == "2.0"@,
        None => true,
    }
}

/// Whether a line can be carried out, given the request that it writes: the
/// page that the request reads, if it is in the version that is spoken, can be
/// read.
pub open spec fn can_answer(app: AppView, request: Option<RequestView>) -> bool {
    match request {
        Some(r) => is_spoken(r) ==> can_carry_out(app, r.method, r.params),
        None => true,
    }
}

/// What a request makes of the shell.
pub open spec fn request_turn(
    app: AppView,
    request: RequestView,
    surroundings: SurroundingsView,
    clock: Clock,
    replies: Seq<ReplyView>,
) -> LineTurn {
    if !is_spoken(request) {
        LineTurn { answer: AnswerView::Response(answer(request.id, Err(wrong_version()))), app }
    } else {
        match method_turn(
            app,
            request.method,
            request.params,
            request.readings,
            surroundings,
            clock,
            replies,
        ) {
            None => LineTurn {
                answer: AnswerView::Response(
                    answer(request.id, Err(no_such_method(request.method))),
                ),
                app,
            },
            Some(turn) => LineTurn {
                answer: match turn.step {
                    StepView::Ask(call) => AnswerView::Ask(call),
                    StepView::Done(outcome) => AnswerView::Response(answer(request.id, outcome)),
                },
                app: turn.app,
            },
        }
    }
}

/// A copy of an optional value.
fn copy_value(value: &Option<Json>) -> (r: Option<Json>)
    ensures
        optional_view(r) == optional_view(*value),
{
    match value {
        Some(v) => Some(v.copy()),
        None => None,
    }
}

/// Whether a request is in the version of the protocol that is spoken.
fn spoken(request: &RpcRequest) -> (r: bool)
    ensures
        r == is_spoken(request@),
{
    match &request.jsonrpc {
        Some(version) => same(version.as_str(), "2.0"),
        None => true,
    }
}

/// The answer where the shell itself failed.
pub fn internal_error(message: &str) -> (r: RpcResponse)
    ensures
        r@ == answer(None, Err(internal(message@))),
{
    error_response(None, RpcError { code: -32603, message: owned(message) })
}

impl AppState {
    /// Whether a request can be carried out: the page that it reads, if any,
    /// can be read. One in another version of the protocol reads none.
    pub fn can_dispatch(&self, request: &RpcRequest) -> (r: bool)
        ensures
            r == can_answer(self@, Some(request@)),
    {
        !spoken(request) || self.can_run(request.method.as_str(), params_ref(&request.params))
    }

    /// Carries out a request.
    pub fn dispatch_request(
        &mut self,
        request: &RpcRequest,
        surroundings: &Surroundings,
        clock: Clock,
        replies: &Vec<HostReply>,
    ) -> (r: Answer)
        requires
            can_answer(old(self)@, Some(request@)),
        ensures
            (LineTurn { answer: r@, app: final(self)@ }) == request_turn(
                old(self)@,
                request@,
                surroundings@,
                clock,
                views(replies@),
            ),
    {
        let id = copy_value(&request.id);
        if !spoken(request) {
            let error = RpcError { code: -32600, message: owned("unsupported jsonrpc version") };
            return Answer::Response(error_response(id, error));
        }
        let step = self.run(
            request.method.as_str(),
            params_ref(&request.params),
            &request.readings,
            surroundings,
            clock,
            replies,
        );
        match step {
            None => {
                let message = join2(
                    "method not implemented on Linux yet: ",
                    request.method.as_str(),
                );
                Answer::Response(error_response(id, RpcError { code: -32601, message }))
            },
            Some(Step::Ask(call)) => Answer::Ask(call),
            Some(Step::Done(outcome)) => Answer::Response(response(id, outcome)),
        }
    }
}

// ---------------------------------------------------------------------------
// Commands

/// What a command says after a refusal.
pub open spec fn command_error(message: Seq<char>) -> Seq<char> {
    "ERR "@ + message
}

/// What a command says after an outcome.
pub open spec fn command_told(outcome: Result<JsonView, ErrorView>) -> Seq<char> {
    match outcome {
        Ok(_) => "OK"@,
        Err(e) => command_error(e.message),
    }
}

/// The parameters that name a workspace.
pub open spec fn naming_workspace(id: Seq<char>) -> JsonView {
    ObjectView::new().with("workspace_id"@, JsonView::Text(id)).done()
}

/// The id of the workspace in the answer to a question for the current one.
pub open spec fn current_id(outcome: Result<JsonView, ErrorView>) -> Seq<char> {
    match outcome {
        Err(e) => command_error(e.message),
        Ok(value) => match value.get("workspace"@) {
            Some(workspace) => match workspace.get("id"@) {
                Some(JsonView::Text(id)) => id,
                _ => command_error("no current window"@),
            },
            None => command_error("no current window"@),
        },
    }
}

/// The line of a workspace.
pub open spec fn window_line(w: WorkspaceSummaryView) -> Seq<char> {
    "window:"@ + w.id + " "@ + w.title
}

/// The lines of the workspaces; only that all is well where there are none.
pub open spec fn window_lines(rows: Seq<WorkspaceSummaryView>) -> Seq<char> {
    if rows.len() == 0 {
        "OK"@
    } else {
        joined(rows.map_values(|w: WorkspaceSummaryView| window_line(w)), "\n"@)
    }
}

/// A line turn that only says something.
pub open spec fn says(app: AppView, line: Seq<char>) -> LineTurn {
    LineTurn { answer: AnswerView::Line(line), app }
}

/// What a turn says as a command.
pub open spec fn command_turn(turn: crate::app_state::Turn) -> LineTurn {
    LineTurn {
        answer: AnswerView::Line(
            match turn.step {
                StepView::Done(outcome) => command_told(outcome),
                StepView::Ask(_) => Seq::empty(),
            },
        ),
        app: turn.app,
    }
}

/// The rows of the workspaces.
pub open spec fn rows(app: AppView) -> Seq<WorkspaceSummaryView> {
    app.state.workspaces.map_values(|w: WorkspaceView| workspace_shown(app.state, w))
}

/// What a command makes of the shell.
pub open spec fn command_line_turn(app: AppView, line: Seq<char>, clock: Clock) -> LineTurn {
    match first_word(line) {
        None => says(app, "ERR empty command"@),
        Some(command) => {
            let word = or_empty(first_word(after_first_word(line)));
            if command == "ping"@ {
                says(app, "pong"@)
            } else if command == "new_window"@ {
                says(
                    with_terminal_workspace(app, clock.nanos, "Workspace"@, None, None),
                    "OK window_id="@ + app.next_id("workspace"@, clock.nanos),
                )
            } else if command == "current_window"@ {
                says(app, current_id(current_told(app)))
            } else if command == "list_windows"@ {
                says(app, window_lines(rows(app)))
            } else if command == "close_window"@ {
                command_turn(workspace_closed(app, Some(naming_workspace(word))))
            } else if command == "focus_window"@ {
                command_turn(workspace_selected(app, Some(naming_workspace(word))))
            } else {
                says(app, command_error("method not implemented on Linux yet: "@ + command))
            }
        },
    }
}

/// What a command says after an outcome.
fn command_line(outcome: &Result<Json, RpcError>) -> (r: String)
    ensures
        r@ == command_told(outcome_view(*outcome)),
{
    match outcome {
        Ok(_) => owned("OK"),
        Err(e) => join2("ERR ", e.message.as_str()),
    }
}

/// The id of the workspace in the answer to a question for the current one.
fn current_id_line(outcome: &Result<Json, RpcError>) -> (r: String)
    ensures
        r@ == current_id(outcome_view(*outcome)),
{
    match outcome {
        Err(e) => join2("ERR ", e.message.as_str()),
        Ok(value) => match value.get("workspace") {
            Some(workspace) => match workspace.get("id") {
                Some(id) => match id {
                    Json::Text(s) => s.clone(),
                    _ => join2("ERR ", "no current window"),
                },
                None => join2("ERR ", "no current window"),
            },
            None => join2("ERR ", "no current window"),
        },
    }
}

/// The lines of the workspaces.
fn window_lines_text(list: &Vec<WorkspaceSummary>) -> (r: String)
    ensures
        r@ == window_lines(views(list@)),
{
    broadcast use group_views;

    if list.len() == 0 {
        return owned("OK");
    }
    let ghost all = views(list@);
    let mut lines: Vec<String> = Vec::new();
    let mut i: usize = 0;
    while i < list.len()
        invariant
            i <= list@.len(),
            all == views(list@),
            lines@.len() == i,
            forall|j: int| 0 <= j < i ==> (#[trigger] lines@[j])@ == window_line(all[j]),
        decreases list@.len() - i,
    {
        assert(all[i as int] == list@[i as int]@);
        let mut line = join2("window:", list[i].id.as_str());
        line.push_str(" ");
        line.push_str(list[i].title.as_str());
        lines.push(line);
        i += 1;
    }
    assert(texts(lines@) =~= all.map_values(|w: WorkspaceSummaryView| window_line(w)));
    join(&lines, "\n")
}

/// The parameters that name a workspace.
pub fn workspace_naming_params(id: &str) -> (r: Json)
    ensures
        r@ == naming_workspace(id@),
{
    Object::new().with("workspace_id", Json::text(id)).done()
}

impl AppState {
    /// Carries out a command.
    pub fn dispatch_v1_line(&mut self, line: &str, clock: Clock) -> (r: String)
        ensures
            says(final(self)@, r@) == command_line_turn(old(self)@, line@, clock),
    {
        let (command, rest) = match split_word(line) {
            Some(split) => split,
            None => {
                return owned("ERR empty command");
            },
        };
        let word = match split_word(rest.as_str()) {
            Some((word, _)) => word,
            None => String::new(),
        };
        let c = command.as_str();
        if same(c, "ping") {
            owned("pong")
        } else if same(c, "new_window") {
            let id = self.create_workspace_with_title(owned("Workspace"), clock.nanos);
            join2("OK window_id=", id.as_str())
        } else if same(c, "current_window") {
            current_id_line(&self.current_workspace())
        } else if same(c, "list_windows") {
            let list = self.workspace_summaries();
            assert(views(list@) =~= rows(self@));
            window_lines_text(&list)
        } else if same(c, "close_window") {
            let params = workspace_naming_params(word.as_str());
            let outcome = self.close_workspace(Some(&params));
            command_line(&outcome)
        } else if same(c, "focus_window") {
            let params = workspace_naming_params(word.as_str());
            let outcome = self.select_workspace(Some(&params));
            command_line(&outcome)
        } else {
            join2("ERR ", join2("method not implemented on Linux yet: ", c).as_str())
        }
    }
}

// ---------------------------------------------------------------------------
// Lines

/// What a line makes of the shell, given the request that it writes; a line
/// that writes none is a command.
pub open spec fn line_turn(
    app: AppView,
    line: Seq<char>,
    request: Option<RequestView>,
    surroundings: SurroundingsView,
    clock: Clock,
    replies: Seq<ReplyView>,
) -> LineTurn {
    match request {
        Some(r) => request_turn(app, r, surroundings, clock, replies),
        None => command_line_turn(app, line, clock),
    }
}

/// What an optional request is.
pub open spec fn optional_request(request: Option<&RpcRequest>) -> Option<RequestView> {
    match request {
        Some(r) => Some(r@),
        None => None,
    }
}

impl AppState {
    /// Carries out a line, given the request that it writes, if it writes one.
    pub fn dispatch_line(
        &mut self,
        line: &str,
        request: Option<&RpcRequest>,
        surroundings: &Surroundings,
        clock: Clock,
        replies: &Vec<HostReply>,
    ) -> (r: Answer)
        requires
            can_answer(old(self)@, optional_request(request)),
        ensures
            (LineTurn { answer: r@, app: final(self)@ }) == line_turn(
                old(self)@,
                line@,
                optional_request(request),
                surroundings@,
                clock,
                views(replies@),
            ),
    {
        match request {
            Some(r) => self.dispatch_request(r, surroundings, clock, replies),
            None => Answer::Line(self.dispatch_v1_line(line, clock)),
        }
    }
}

} // verus!
