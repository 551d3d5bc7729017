//! What the shell asks of the terminals and browser views on the screen, and
//! what they reply.
//!
//! A request is worked off in turns. A turn is given the replies that came so
//! far and starts over with them; it ends in the answer, or in the next thing
//! to ask.

use crate::json::{json_from_str, optional_chars, optional_view, parsed_json, Json, JsonView};
use crate::lists::views;
use crate::rpc::{outcome_view, ErrorView, RpcError};
use crate::terminal::{TerminalStatus, TerminalStatusView};
use crate::text::{owned, same};
use crate::webview::{
    BrowserEvent, DialogInfo, DialogView, DownloadInfo, DownloadView, EventView, ScreenshotResult,
    ScreenshotView,
};
use vstd::prelude::*;

verus! {

/// How long a script may run, in milliseconds.
pub const SCRIPT_TIMEOUT_MS: u64 = 2000;

/// How long a wait pauses between two looks, in milliseconds.
pub const PAUSE_MS: u64 = 50;

/// Something to do with a surface on the screen.
pub enum HostAction {
    TerminalFocus,
    TerminalUnregister,
    TerminalSendText(String),
    TerminalSendKey(String),
    TerminalReadText,
    TerminalStatus,
    TerminalClear,
    BrowserNavigate(String),
    BrowserBack,
    BrowserForward,
    BrowserReload,
    BrowserFocus,
    BrowserUnregister,
    BrowserRegistered,
    Expression(String),
    Statement(String),
    Screenshot { full_page: bool, timeout_ms: u64 },
    RespondToDialog { accept: bool, prompt_text: Option<String> },
    WaitForDownload { timeout_ms: u64 },
    SelectMainFrame,
    ActiveFrame,
    SelectFrame(String),
    ConsoleMessages,
    ErrorMessages,
    Pause { timeout_ms: u64 },
}

/// What an action is.
pub enum ActionView {
    TerminalFocus,
    TerminalUnregister,
    TerminalSendText(Seq<char>),
    TerminalSendKey(Seq<char>),
    TerminalReadText,
    TerminalStatus,
    TerminalClear,
    BrowserNavigate(Seq<char>),
    BrowserBack,
    BrowserForward,
    BrowserReload,
    BrowserFocus,
    BrowserUnregister,
    BrowserRegistered,
    Expression(Seq<char>),
    Statement(Seq<char>),
    Screenshot { full_page: bool, timeout_ms: u64 },
    RespondToDialog { accept: bool, prompt_text: Option<Seq<char>> },
    WaitForDownload { timeout_ms: u64 },
    SelectMainFrame,
    ActiveFrame,
    SelectFrame(Seq<char>),
    ConsoleMessages,
    ErrorMessages,
    Pause { timeout_ms: u64 },
}

impl View for HostAction {
    type V = ActionView;

    open spec fn view(&self) -> ActionView {
        match *self {
            HostAction::TerminalFocus => ActionView::TerminalFocus,
            HostAction::TerminalUnregister => ActionView::TerminalUnregister,
            HostAction::TerminalSendText(s) => ActionView::TerminalSendText(s@),
            HostAction::TerminalSendKey(s) => ActionView::TerminalSendKey(s@),
            HostAction::TerminalReadText => ActionView::TerminalReadText,
            HostAction::TerminalStatus => ActionView::TerminalStatus,
            HostAction::TerminalClear => ActionView::TerminalClear,
            HostAction::BrowserNavigate(s) => ActionView::BrowserNavigate(s@),
            HostAction::BrowserBack => ActionView::BrowserBack,
            HostAction::BrowserForward => ActionView::BrowserForward,
            HostAction::BrowserReload => ActionView::BrowserReload,
            HostAction::BrowserFocus => ActionView::BrowserFocus,
            HostAction::BrowserUnregister => ActionView::BrowserUnregister,
            HostAction::BrowserRegistered => ActionView::BrowserRegistered,
            HostAction::Expression(s) => ActionView::Expression(s@),
            HostAction::Statement(s) => ActionView::Statement(s@),
            HostAction::Screenshot { full_page, timeout_ms } => ActionView::Screenshot {
                full_page,
                timeout_ms,
            },
            HostAction::RespondToDialog { accept, prompt_text } => ActionView::RespondToDialog {
                accept,
                prompt_text: optional_chars(prompt_text),
            },
            HostAction::WaitForDownload { timeout_ms } => ActionView::WaitForDownload { timeout_ms },
            HostAction::SelectMainFrame => ActionView::SelectMainFrame,
            HostAction::ActiveFrame => ActionView::ActiveFrame,
            HostAction::SelectFrame(s) => ActionView::SelectFrame(s@),
            HostAction::ConsoleMessages => ActionView::ConsoleMessages,
            HostAction::ErrorMessages => ActionView::ErrorMessages,
            HostAction::Pause { timeout_ms } => ActionView::Pause { timeout_ms },
        }
    }
}

/// An action and the surface it is for.
pub struct HostCall {
    pub surface_id: String,
    pub action: HostAction,
}

/// What a call is.
pub struct CallView {
    pub surface_id: Seq<char>,
    pub action: ActionView,
}

impl View for HostCall {
    type V = CallView;

    open spec fn view(&self) -> CallView {
        CallView { surface_id: self.surface_id@, action: self.action@ }
    }
}

/// What came of a script: nothing where there is no live view, its text, or an
/// error.
pub enum ScriptReply {
    NotLive,
    Text(String),
    Failed(String),
}

/// What came of a script.
pub enum ScriptView {
    NotLive,
    Text(Seq<char>),
    Failed(Seq<char>),
}

/// A reply. The one that fits the action is meant; any other counts as the
/// reply of a surface that is not on the screen.
pub enum HostReply {
    Flag(bool),
    Text(Option<String>),
    Terminal(Option<TerminalStatus>),
    Script(ScriptReply),
    Screenshot(Option<Result<ScreenshotResult, String>>),
    Dialog(Result<DialogInfo, String>),
    Download(Result<DownloadInfo, String>),
    Frame(Result<(), String>),
    Events(Vec<BrowserEvent>),
}

/// What a reply is.
pub enum ReplyView {
    Flag(bool),
    Text(Option<Seq<char>>),
    Terminal(Option<TerminalStatusView>),
    Script(ScriptView),
    Screenshot(Option<Result<ScreenshotView, Seq<char>>>),
    Dialog(Result<DialogView, Seq<char>>),
    Download(Result<DownloadView, Seq<char>>),
    Frame(Result<(), Seq<char>>),
    Events(Seq<EventView>),
}

impl View for ScriptReply {
    type V = ScriptView;

    open spec fn view(&self) -> ScriptView {
        match *self {
            ScriptReply::NotLive => ScriptView::NotLive,
            ScriptReply::Text(s) => ScriptView::Text(s@),
            ScriptReply::Failed(s) => ScriptView::Failed(s@),
        }
    }
}

impl View for HostReply {
    type V = ReplyView;

    open spec fn view(&self) -> ReplyView {
        match *self {
            HostReply::Flag(b) => ReplyView::Flag(b),
            HostReply::Text(s) => ReplyView::Text(optional_chars(s)),
            HostReply::Terminal(s) => ReplyView::Terminal(
                match s {
                    Some(status) => Some(status@),
                    None => None,
                },
            ),
            HostReply::Script(s) => ReplyView::Script(s@),
            HostReply::Screenshot(s) => ReplyView::Screenshot(
                match s {
                    Some(Ok(shot)) => Some(Ok(shot@)),
                    Some(Err(e)) => Some(Err(e@)),
                    None => None,
                },
            ),
            HostReply::Dialog(d) => ReplyView::Dialog(
                match d {
                    Ok(dialog) => Ok(dialog@),
                    Err(e) => Err(e@),
                },
            ),
            HostReply::Download(d) => ReplyView::Download(
                match d {
                    Ok(download) => Ok(download@),
                    Err(e) => Err(e@),
                },
            ),
            HostReply::Frame(f) => ReplyView::Frame(
                match f {
                    Ok(_) => Ok(()),
                    Err(e) => Err(e@),
                },
            ),
            HostReply::Events(events) => ReplyView::Events(views(events@)),
        }
    }
}

/// What a turn comes to: something to ask, or the outcome.
pub enum Step {
    Ask(HostCall),
    Done(Result<Json, RpcError>),
}

/// What a turn comes to.
pub enum StepView {
    Ask(CallView),
    Done(Result<JsonView, ErrorView>),
}

impl View for Step {
    type V = StepView;

    open spec fn view(&self) -> StepView {
        match *self {
            Step::Ask(call) => StepView::Ask(call@),
            Step::Done(outcome) => StepView::Done(outcome_view(outcome)),
        }
    }
}

/// Something to ask.
pub open spec fn asking(surface_id: Seq<char>, action: ActionView) -> CallView {
    CallView { surface_id, action }
}

/// Something to ask.
pub fn ask(surface_id: &str, action: HostAction) -> (r: HostCall)
    ensures
        r@ == asking(surface_id@, action@),
{
    HostCall { surface_id: owned(surface_id), action }
}

// ---------------------------------------------------------------------------
// Reading replies

/// What the reply at a place says: yes or no.
pub open spec fn flag_at(replies: Seq<ReplyView>, i: int) -> Option<bool> {
    if 0 <= i < replies.len() {
        Some(
            match replies[i] {
                ReplyView::Flag(b) => b,
                _ => false,
            },
        )
    } else {
        None
    }
}

/// What the reply at a place says: yes or no.
pub fn flag_reply(replies: &Vec<HostReply>, i: usize) -> (r: Option<bool>)
    ensures
        r == flag_at(views(replies@), i as int),
{
    if i < replies.len() {
        Some(
            match &replies[i] {
                HostReply::Flag(b) => *b,
                _ => false,
            },
        )
    } else {
        None
    }
}

/// What the reply at a place says of a script.
pub open spec fn script_at(replies: Seq<ReplyView>, i: int) -> Option<ScriptView> {
    if 0 <= i < replies.len() {
        Some(
            match replies[i] {
                ReplyView::Script(s) => s,
                _ => ScriptView::NotLive,
            },
        )
    } else {
        None
    }
}

/// A reply is there, or a call for it.
pub enum Heard<T> {
    Ask(CallView),
    Got(T, int),
}

/// A truth value is there, and where the replies go on; or a call for it.
pub enum HeardFlag {
    Ask(HostCall),
    Got(bool, usize),
}

/// A value of a live page is there, and where the replies go on; or a call for
/// it.
pub enum HeardValue {
    Ask(HostCall),
    Got(Option<Json>, usize),
}

impl View for HeardFlag {
    type V = Heard<bool>;

    open spec fn view(&self) -> Heard<bool> {
        match *self {
            HeardFlag::Ask(call) => Heard::Ask(call@),
            HeardFlag::Got(b, next) => Heard::Got(b, next as int),
        }
    }
}

impl View for HeardValue {
    type V = Heard<Option<JsonView>>;

    open spec fn view(&self) -> Heard<Option<JsonView>> {
        match *self {
            HeardValue::Ask(call) => Heard::Ask(call@),
            HeardValue::Got(v, next) => Heard::Got(optional_view(v), next as int),
        }
    }
}

/// The value of a script that was evaluated, given what its text was parsed
/// as: null where it is empty or `undefined`, the JSON value that it writes, or
/// itself.
pub open spec fn value_of_text(text: Seq<char>, parsed: Option<JsonView>) -> JsonView {
    if text.len() == 0 || text == "undefined"@ {
        JsonView::Null
    } else {
        match parsed {
            Some(value) => value,
            None => JsonView::Text(text),
        }
    }
}

/// The value that the text of a script is.
pub open spec fn script_value(text: Seq<char>) -> JsonView {
    value_of_text(text, parsed_json(text))
}

/// The value of a script that was evaluated, given what its text was parsed as.
pub fn value_from_text(text: &str, parsed: Option<Json>) -> (r: Json)
    ensures
        r@ == value_of_text(text@, optional_view(parsed)),
{
    if text.is_empty() || same(text, "undefined") {
        return Json::Null;
    }
    match parsed {
        Some(value) => value,
        None => Json::text(text),
    }
}

/// The value that the text of a script is.
pub fn live_value(text: &str) -> (r: Json)
    ensures
        r@ == script_value(text@),
{
    value_from_text(text, json_from_str(text))
}

/// What a live page makes of a script: it is run as an expression, and as
/// statements where that fails.
pub open spec fn evaluated(
    replies: Seq<ReplyView>,
    i: int,
    surface_id: Seq<char>,
    script: Seq<char>,
) -> Heard<Option<JsonView>> {
    match script_at(replies, i) {
        None => Heard::Ask(asking(surface_id, ActionView::Expression(script))),
        Some(ScriptView::NotLive) => Heard::Got(None, i + 1),
        Some(ScriptView::Text(text)) => Heard::Got(Some(script_value(text)), i + 1),
        Some(ScriptView::Failed(_)) => match script_at(replies, i + 1) {
            None => Heard::Ask(asking(surface_id, ActionView::Statement(script))),
            Some(ScriptView::Text(text)) => Heard::Got(Some(script_value(text)), i + 2),
            Some(_) => Heard::Got(None, i + 2),
        },
    }
}

/// What a live page makes of a script.
pub fn eval_live_browser_script(
    replies: &Vec<HostReply>,
    i: usize,
    surface_id: &str,
    script: &str,
) -> (r: HeardValue)
    requires
        i <= replies@.len(),
    ensures
        r@ == evaluated(views(replies@), i as int, surface_id@, script@),
        r matches HeardValue::Got(_, next) ==> i < next <= replies@.len(),
{
    if i >= replies.len() {
        return HeardValue::Ask(ask(surface_id, HostAction::Expression(owned(script))));
    }
    let length: usize = replies.len();
    match &replies[i] {
        HostReply::Script(ScriptReply::Text(text)) => HeardValue::Got(
            Some(live_value(text.as_str())),
            i + 1,
        ),
        HostReply::Script(ScriptReply::Failed(_)) => {
            if i + 1 >= length {
                return HeardValue::Ask(ask(surface_id, HostAction::Statement(owned(script))));
            }
            match &replies[i + 1] {
                HostReply::Script(ScriptReply::Text(text)) => HeardValue::Got(
                    Some(live_value(text.as_str())),
                    i + 2,
                ),
                _ => HeardValue::Got(None, i + 2),
            }
        },
        _ => HeardValue::Got(None, i + 1),
    }
}

/// Whether the text of a script writes `true`.
pub open spec fn says_true(text: Seq<char>) -> bool {
    parsed_json(text) == Some(JsonView::Bool(true))
}

/// Whether a live page ran statements that came to `true`.
pub open spec fn ran(
    replies: Seq<ReplyView>,
    i: int,
    surface_id: Seq<char>,
    script: Seq<char>,
) -> Heard<bool> {
    match script_at(replies, i) {
        None => Heard::Ask(asking(surface_id, ActionView::Statement(script))),
        Some(ScriptView::Text(text)) => Heard::Got(says_true(text), i + 1),
        Some(_) => Heard::Got(false, i + 1),
    }
}

/// Whether a value is `true`.
pub fn is_true(value: Option<Json>) -> (r: bool)
    ensures
        r == (optional_view(value) == Some(JsonView::Bool(true))),
{
    match value {
        Some(Json::Bool(b)) => b,
        _ => false,
    }
}

/// Whether a live page ran statements that came to `true`.
pub fn run_live_browser_script(
    replies: &Vec<HostReply>,
    i: usize,
    surface_id: &str,
    script: &str,
) -> (r: HeardFlag)
    requires
        i <= replies@.len(),
    ensures
        r@ == ran(views(replies@), i as int, surface_id@, script@),
        r matches HeardFlag::Got(_, next) ==> i < next <= replies@.len(),
{
    if i >= replies.len() {
        return HeardFlag::Ask(ask(surface_id, HostAction::Statement(owned(script))));
    }
    match &replies[i] {
        HostReply::Script(ScriptReply::Text(text)) => HeardFlag::Got(
            is_true(json_from_str(text.as_str())),
            i + 1,
        ),
        _ => HeardFlag::Got(false, i + 1),
    }
}

} // verus!
