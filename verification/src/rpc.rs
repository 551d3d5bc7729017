//! Requests, answers and errors of the socket protocol, and the reading of a
//! request's parameters.

use crate::json::{optional_chars, optional_ref_view, optional_view, Json, JsonView};
use crate::text::{join2, join3, lowered, owned, parse_number, parsed, same, to_lower, trim, trimmed};
use vstd::prelude::*;

verus! {

/// Why a request was refused.
pub struct RpcError {
    pub code: i64,
    pub message: String,
}

/// What a refusal says.
pub struct ErrorView {
    pub code: int,
    pub message: Seq<char>,
}

impl RpcError {
    /// What the refusal says.
    pub open spec fn view(&self) -> ErrorView {
        ErrorView { code: self.code as int, message: self.message@ }
    }
}

/// What a result says: a value, or a refusal.
pub open spec fn outcome_view(r: Result<Json, RpcError>) -> Result<JsonView, ErrorView> {
    match r {
        Ok(v) => Ok(v@),
        Err(e) => Err(e@),
    }
}

/// What a result says whose value is a text.
pub open spec fn text_outcome(r: Result<String, RpcError>) -> Result<Seq<char>, ErrorView> {
    match r {
        Ok(s) => Ok(s@),
        Err(e) => Err(e@),
    }
}

/// What a result says that has no value.
pub open spec fn unit_outcome(r: Result<(), RpcError>) -> Result<(), ErrorView> {
    match r {
        Ok(_) => Ok(()),
        Err(e) => Err(e@),
    }
}

/// A parameter that cannot be used.
pub open spec fn invalid(message: Seq<char>) -> ErrorView {
    ErrorView { code: -32602, message: "invalid_params: "@ + message }
}

/// A request that this platform does not serve.
pub open spec fn unsupported(message: Seq<char>) -> ErrorView {
    ErrorView { code: -32004, message }
}

/// A page element or surface that is not there.
pub open spec fn not_found(message: Seq<char>) -> ErrorView {
    ErrorView {
        code: -32004,
        message: "not_found: "@ + message
            + "; snapshot available; hint: verify selector and target surface"@,
    }
}

/// A wait that ended before what it waited for.
pub open spec fn timed_out(message: Seq<char>) -> ErrorView {
    ErrorView { code: -32002, message: "timeout: "@ + message }
}

/// A parameter that cannot be used.
pub fn invalid_params(message: &str) -> (r: RpcError)
    ensures
        r@ == invalid(message@),
{
    RpcError { code: -32602, message: join2("invalid_params: ", message) }
}

/// A request that this platform does not serve.
pub fn not_supported(message: &str) -> (r: RpcError)
    ensures
        r@ == unsupported(message@),
{
    RpcError { code: -32004, message: owned(message) }
}

/// A page element or surface that is not there.
pub fn browser_not_found(message: &str) -> (r: RpcError)
    ensures
        r@ == not_found(message@),
{
    RpcError {
        code: -32004,
        message: join3(
            "not_found: ",
            message,
            "; snapshot available; hint: verify selector and target surface",
        ),
    }
}

/// A wait that ended before what it waited for.
pub fn browser_timeout(message: &str) -> (r: RpcError)
    ensures
        r@ == timed_out(message@),
{
    RpcError { code: -32002, message: join2("timeout: ", message) }
}

/// What the parameters hold that is read as a fraction: a scroll distance
/// rounded to a whole number, split ratios as the bits of a double, and
/// timeouts as whole milliseconds, none of them negative. Each is absent where
/// the parameter is absent or is no number.
#[derive(Clone, Copy)]
pub struct Readings {
    pub dy: Option<i64>,
    pub ratio: Option<u64>,
    pub percent: Option<u64>,
    pub timeout_ms: Option<u64>,
    pub timeout_ms_camel: Option<u64>,
    pub timeout: Option<u64>,
}

/// A request.
pub struct RpcRequest {
    pub jsonrpc: Option<String>,
    pub id: Option<Json>,
    pub method: String,
    pub params: Option<Json>,
    pub readings: Readings,
}

/// What a request says.
pub struct RequestView {
    pub jsonrpc: Option<Seq<char>>,
    pub id: Option<JsonView>,
    pub method: Seq<char>,
    pub params: Option<JsonView>,
    pub readings: Readings,
}

impl RpcRequest {
    /// What the request says.
    pub open spec fn view(&self) -> RequestView {
        RequestView {
            jsonrpc: optional_chars(self.jsonrpc),
            id: optional_view(self.id),
            method: self.method@,
            params: optional_view(self.params),
            readings: self.readings,
        }
    }
}

/// The answer to a request.
pub struct RpcResponse {
    pub jsonrpc: &'static str,
    pub ok: bool,
    pub id: Option<Json>,
    pub result: Option<Json>,
    pub error: Option<RpcError>,
}

/// What an answer says.
pub struct ResponseView {
    pub jsonrpc: Seq<char>,
    pub ok: bool,
    pub id: Option<JsonView>,
    pub result: Option<JsonView>,
    pub error: Option<ErrorView>,
}

impl RpcResponse {
    /// What the answer says.
    pub open spec fn view(&self) -> ResponseView {
        ResponseView {
            jsonrpc: self.jsonrpc@,
            ok: self.ok,
            id: optional_view(self.id),
            result: optional_view(self.result),
            error: match self.error {
                Some(e) => Some(e@),
                None => None,
            },
        }
    }
}

/// The answer that an outcome becomes.
pub open spec fn answer(id: Option<JsonView>, outcome: Result<JsonView, ErrorView>) -> ResponseView {
    match outcome {
        Ok(value) => ResponseView {
            jsonrpc: "2.0"@,
            ok: true,
            id,
            result: Some(value),
            error: None,
        },
        Err(error) => ResponseView {
            jsonrpc: "2.0"@,
            ok: false,
            id,
            result: None,
            error: Some(error),
        },
    }
}

/// The answer to a request that was refused.
pub fn error_response(id: Option<Json>, error: RpcError) -> (r: RpcResponse)
    ensures
        r@ == answer(optional_view(id), Err(error@)),
{
    RpcResponse { jsonrpc: "2.0", ok: false, id, result: None, error: Some(error) }
}

/// The answer that an outcome becomes.
pub fn response(id: Option<Json>, outcome: Result<Json, RpcError>) -> (r: RpcResponse)
    ensures
        r@ == answer(optional_view(id), outcome_view(outcome)),
{
    match outcome {
        Ok(value) => RpcResponse {
            jsonrpc: "2.0",
            ok: true,
            id,
            result: Some(value),
            error: None,
        },
        Err(error) => error_response(id, error),
    }
}

// ---------------------------------------------------------------------------
// Parameters

/// What stands under a key of the parameters.
pub open spec fn param(params: Option<JsonView>, key: Seq<char>) -> Option<JsonView> {
    match params {
        Some(value) => value.get(key),
        None => None,
    }
}

/// The text under a key, as it is.
pub open spec fn raw_text(params: Option<JsonView>, key: Seq<char>) -> Option<Seq<char>> {
    match param(params, key) {
        Some(value) => value.as_text(),
        None => None,
    }
}

/// The text under a key, trimmed; absent where nothing is left of it.
pub open spec fn text1(params: Option<JsonView>, key: Seq<char>) -> Option<Seq<char>> {
    match raw_text(params, key) {
        Some(s) => if trimmed(s).len() > 0 {
            Some(trimmed(s))
        } else {
            None
        },
        None => None,
    }
}

/// The first text under one of two keys.
pub open spec fn text2(params: Option<JsonView>, k1: Seq<char>, k2: Seq<char>) -> Option<
    Seq<char>,
> {
    match text1(params, k1) {
        Some(s) => Some(s),
        None => text1(params, k2),
    }
}

/// The first text under one of three keys.
pub open spec fn text3(
    params: Option<JsonView>,
    k1: Seq<char>,
    k2: Seq<char>,
    k3: Seq<char>,
) -> Option<Seq<char>> {
    match text1(params, k1) {
        Some(s) => Some(s),
        None => text2(params, k2, k3),
    }
}

/// The first text under one of four keys.
pub open spec fn text4(
    params: Option<JsonView>,
    k1: Seq<char>,
    k2: Seq<char>,
    k3: Seq<char>,
    k4: Seq<char>,
) -> Option<Seq<char>> {
    match text1(params, k1) {
        Some(s) => Some(s),
        None => text3(params, k2, k3, k4),
    }
}

/// The reference to the parameters.
pub fn params_ref(params: &Option<Json>) -> (r: Option<&Json>)
    ensures
        optional_ref_view(r) == optional_view(*params),
{
    match params {
        Some(value) => Some(value),
        None => None,
    }
}

/// What stands under a key of the parameters.
pub fn param_value<'a>(params: Option<&'a Json>, key: &str) -> (r: Option<&'a Json>)
    ensures
        optional_ref_view(r) == param(optional_ref_view(params), key@),
{
    match params {
        Some(value) => value.get(key),
        None => None,
    }
}

/// The text under a key, as it is.
pub fn raw_text_param(params: Option<&Json>, key: &str) -> (r: Option<String>)
    ensures
        optional_chars(r) == raw_text(optional_ref_view(params), key@),
{
    match param_value(params, key) {
        Some(value) => match value.as_str() {
            Some(s) => Some(owned(s)),
            None => None,
        },
        None => None,
    }
}

/// The text under a key, trimmed; absent where nothing is left of it.
pub fn optional_string_param(params: Option<&Json>, key: &str) -> (r: Option<String>)
    ensures
        optional_chars(r) == text1(optional_ref_view(params), key@),
{
    match raw_text_param(params, key) {
        Some(s) => {
            let t = trim(s.as_str());
            if t.as_str().is_empty() {
                None
            } else {
                Some(t)
            }
        },
        None => None,
    }
}

/// The first text under one of two keys.
pub fn optional_string_any2(params: Option<&Json>, k1: &str, k2: &str) -> (r: Option<String>)
    ensures
        optional_chars(r) == text2(optional_ref_view(params), k1@, k2@),
{
    match optional_string_param(params, k1) {
        Some(s) => Some(s),
        None => optional_string_param(params, k2),
    }
}

/// The first text under one of three keys.
pub fn optional_string_any3(params: Option<&Json>, k1: &str, k2: &str, k3: &str) -> (r: Option<
    String,
>)
    ensures
        optional_chars(r) == text3(optional_ref_view(params), k1@, k2@, k3@),
{
    match optional_string_param(params, k1) {
        Some(s) => Some(s),
        None => optional_string_any2(params, k2, k3),
    }
}

/// The first text under one of four keys.
pub fn optional_string_any4(
    params: Option<&Json>,
    k1: &str,
    k2: &str,
    k3: &str,
    k4: &str,
) -> (r: Option<String>)
    ensures
        optional_chars(r) == text4(optional_ref_view(params), k1@, k2@, k3@, k4@),
{
    match optional_string_param(params, k1) {
        Some(s) => Some(s),
        None => optional_string_any3(params, k2, k3, k4),
    }
}

/// A text that must be there; `name` is what the refusal calls it.
pub open spec fn required(found: Option<Seq<char>>, name: Seq<char>) -> Result<
    Seq<char>,
    ErrorView,
> {
    match found {
        Some(s) => Ok(s),
        None => Err(invalid(name + " is required"@)),
    }
}

/// A text that must be there.
pub fn require(found: Option<String>, name: &str) -> (r: Result<String, RpcError>)
    ensures
        text_outcome(r) == required(optional_chars(found), name@),
{
    match found {
        Some(s) => Ok(s),
        None => Err(invalid_params(join2(name, " is required").as_str())),
    }
}

/// The workspace that a request names.
pub open spec fn workspace_text(params: Option<JsonView>) -> Option<Seq<char>> {
    text3(params, "workspace"@, "workspaceId"@, "workspace_id"@)
}

/// The pane that a request names.
pub open spec fn pane_text(params: Option<JsonView>) -> Option<Seq<char>> {
    text3(params, "pane"@, "paneId"@, "pane_id"@)
}

/// The surface that a request names.
pub open spec fn surface_text(params: Option<JsonView>) -> Option<Seq<char>> {
    text3(params, "surface"@, "surfaceId"@, "surface_id"@)
}

/// The surface that a request names, under the older name of a panel too.
pub open spec fn panel_text(params: Option<JsonView>) -> Option<Seq<char>> {
    match surface_text(params) {
        Some(s) => Some(s),
        None => text3(params, "panel"@, "panelId"@, "panel_id"@),
    }
}

/// The command that a terminal starts with.
pub open spec fn command_text(params: Option<JsonView>) -> Option<Seq<char>> {
    text3(params, "command"@, "initial_command"@, "initialCommand"@)
}

/// The directory that a terminal starts in.
pub open spec fn directory_text(params: Option<JsonView>) -> Option<Seq<char>> {
    text3(params, "working_directory"@, "workingDirectory"@, "cwd"@)
}

/// The workspace that a request names.
pub fn workspace_param(params: Option<&Json>) -> (r: Option<String>)
    ensures
        optional_chars(r) == workspace_text(optional_ref_view(params)),
{
    optional_string_any3(params, "workspace", "workspaceId", "workspace_id")
}

/// The pane that a request names.
pub fn pane_param(params: Option<&Json>) -> (r: Option<String>)
    ensures
        optional_chars(r) == pane_text(optional_ref_view(params)),
{
    optional_string_any3(params, "pane", "paneId", "pane_id")
}

/// The surface that a request names.
pub fn surface_param(params: Option<&Json>) -> (r: Option<String>)
    ensures
        optional_chars(r) == surface_text(optional_ref_view(params)),
{
    optional_string_any3(params, "surface", "surfaceId", "surface_id")
}

/// The command that a terminal starts with.
pub fn command_param(params: Option<&Json>) -> (r: Option<String>)
    ensures
        optional_chars(r) == command_text(optional_ref_view(params)),
{
    optional_string_any3(params, "command", "initial_command", "initialCommand")
}

/// The directory that a terminal starts in.
pub fn directory_param(params: Option<&Json>) -> (r: Option<String>)
    ensures
        optional_chars(r) == directory_text(optional_ref_view(params)),
{
    optional_string_any3(params, "working_directory", "workingDirectory", "cwd")
}

/// The workspace that a request must name.
pub fn required_workspace_param(params: Option<&Json>) -> (r: Result<String, RpcError>)
    ensures
        text_outcome(r) == required(workspace_text(optional_ref_view(params)), "workspace"@),
{
    require(workspace_param(params), "workspace")
}

/// The pane that a request must name.
pub fn required_pane_param(params: Option<&Json>) -> (r: Result<String, RpcError>)
    ensures
        text_outcome(r) == required(pane_text(optional_ref_view(params)), "pane"@),
{
    require(pane_param(params), "pane")
}

/// The surface that a request must name.
pub fn required_surface_param(params: Option<&Json>) -> (r: Result<String, RpcError>)
    ensures
        text_outcome(r) == required(panel_text(optional_ref_view(params)), "surface"@),
{
    let named = match surface_param(params) {
        Some(s) => Some(s),
        None => optional_string_any3(params, "panel", "panelId", "panel_id"),
    };
    require(named, "surface")
}

/// The count that a value is: an unsigned integer, or a text that writes one.
pub open spec fn count_of(value: JsonView) -> Option<usize> {
    match value {
        JsonView::Unsigned(n) => Some(n as usize),
        JsonView::Text(s) => match parsed(trimmed(s), usize::MAX as nat) {
            Some(n) => Some(n as usize),
            None => None,
        },
        _ => None,
    }
}

/// The count under a key.
pub open spec fn count_param(params: Option<JsonView>, key: Seq<char>) -> Option<usize> {
    match param(params, key) {
        Some(value) => count_of(value),
        None => None,
    }
}

/// The count that a value is.
pub fn usize_from_value(value: &Json) -> (r: Option<usize>)
    ensures
        r == count_of(value@),
{
    match value {
        Json::Unsigned(n) => Some(*n as usize),
        Json::Text(s) => parse_number(trim(s.as_str()).as_str()),
        _ => None,
    }
}

/// The count under a key.
pub fn usize_param(params: Option<&Json>, key: &str) -> (r: Option<usize>)
    ensures
        r == count_param(optional_ref_view(params), key@),
{
    match param_value(params, key) {
        Some(value) => usize_from_value(value),
        None => None,
    }
}

/// The words that mean yes.
pub open spec fn means_yes(word: Seq<char>) -> bool {
    word == "1"@ || word == "true"@ || word == "yes"@ || word == "on"@
}

/// The words that mean no.
pub open spec fn means_no(word: Seq<char>) -> bool {
    word == "0"@ || word == "false"@ || word == "no"@ || word == "off"@
}

/// The truth value that a value is: one of JSON, or a word that means one.
pub open spec fn flag_of(value: JsonView) -> Option<bool> {
    match value {
        JsonView::Bool(b) => Some(b),
        JsonView::Text(s) => {
            let word = lowered(trimmed(s));
            if means_yes(word) {
                Some(true)
            } else if means_no(word) {
                Some(false)
            } else {
                None
            }
        },
        _ => None,
    }
}

/// The truth value that a value is.
pub fn bool_from_value(value: &Json) -> (r: Option<bool>)
    ensures
        r == flag_of(value@),
{
    match value {
        Json::Bool(b) => Some(*b),
        Json::Text(s) => {
            let word = to_lower(trim(s.as_str()).as_str());
            let w = word.as_str();
            if same(w, "1") || same(w, "true") || same(w, "yes") || same(w, "on") {
                Some(true)
            } else if same(w, "0") || same(w, "false") || same(w, "no") || same(w, "off") {
                Some(false)
            } else {
                None
            }
        },
        _ => None,
    }
}

/// The milliseconds that a request allows: the first of its timeouts that is
/// there, and `default_ms` where none is there or the first is no number.
pub open spec fn timeout_of(
    params: Option<JsonView>,
    readings: Readings,
    default_ms: u64,
) -> u64 {
    let read = if param(params, "timeout_ms"@) is Some {
        readings.timeout_ms
    } else if param(params, "timeoutMs"@) is Some {
        readings.timeout_ms_camel
    } else if param(params, "timeout"@) is Some {
        readings.timeout
    } else {
        None
    };
    match read {
        Some(ms) => ms,
        None => default_ms,
    }
}

/// The milliseconds that a request allows.
pub fn browser_timeout_duration(
    params: Option<&Json>,
    readings: &Readings,
    default_ms: u64,
) -> (r: u64)
    ensures
        r == timeout_of(optional_ref_view(params), *readings, default_ms),
{
    let read = if param_value(params, "timeout_ms").is_some() {
        readings.timeout_ms
    } else if param_value(params, "timeoutMs").is_some() {
        readings.timeout_ms_camel
    } else if param_value(params, "timeout").is_some() {
        readings.timeout
    } else {
        None
    };
    match read {
        Some(ms) => ms,
        None => default_ms,
    }
}

} // verus!
