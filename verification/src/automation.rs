//! Requests that read, change or watch the page of a browser surface.

use crate::acting::{
    act_view, acted, acted_from, browser_action_result_with_live, browser_snapshot, gesture_act,
    gesture_for, key_act, make_gesture, press_key, requested_gesture, scroll_act, scroll_distance,
    scroll_page, scroll_param, snapshot_heard, Act, ActView, HeardJson,
};
use crate::app_state::{answered, asked, refused, AppState, AppView, Turn};
use crate::browsing::{browser_checked, ensure_browser_surface};
use crate::finding::{browser_find, find_reading};
use crate::host::{
    ask, asking, flag_at, flag_reply, ActionView, Heard, HostAction, HostReply, ReplyView, Step, StepView,
};
use crate::input::{target_surface, target_surface_id};
use crate::json::{integer_view, optional_ref_view, Json, JsonView, Object, ObjectView};
use crate::lists::{group_views, views};
use crate::locate::{surface_at, surface_location};
use crate::model::{SurfaceRecord, SurfaceView};
use crate::page::{copy_optional, BrowserState, PageView};
use crate::page_json::{browser_state_from_json, browser_state_json, page_in, page_value};
use crate::reading::{
    browser_eval, browser_get, browser_is, eval_reading, get_reading, is_reading, not_available, read_page,
    read_step, unavailable,
};
use crate::rpc::{
    bool_from_value, browser_not_found, browser_timeout, browser_timeout_duration, flag_of, invalid,
    invalid_params, not_found, not_supported, optional_string_any2, optional_string_any4,
    optional_string_param, param, param_value, require, required, text1, text2, text4, timed_out,
    timeout_of, unsupported, ErrorView, Readings, RpcError,
};
use crate::script::KeyPhase;
use crate::surfaces::step_turn;
use crate::text::{contains, has_prefix, holds, join2, lowered, owned, same, starts_with, to_lower};
use crate::waiting::{browser_wait, wait_step};
use crate::webview::{
    dialog_json, dialog_value, download_json, download_value, events_json, events_value, DialogView,
    DownloadView, EventView, ScreenshotView, NOT_LIVE,
};
use crate::workspaces::{or_text, text_or};
use vstd::prelude::*;

verus! {

/// The picture that stands for a page without a live view.
pub const STATIC_SCREENSHOT_PNG_BASE64: &'static str = "iVBORw0KGgoAAAANSUhEUgAAAEAAAABACAIAAAAlC+aJAAAAWklEQVR4nO3PQQ0AIBDAMMC/5+ONAvZoFSzZnZmdA3i6A0gHkA4gHUA6gHQA6QDSAaQDSAeQDiAdQDqAdADpANIBpANIB5AOIB1AOoB0AOkA0gGkA0gHkA4gHUC6AX0mAkGx9HjRAAAAAElFTkSuQmCCAAAAAAAAAAAAAAAAAAAAAAAAAAAAAAAAAAAAAAAAAAAAAAAAAAAAAAAAAAAAAAAAAAAAAAAAAAAAAAAA";

/// How long a screenshot takes at most, where the request does not say, in
/// milliseconds.
pub const SCREENSHOT_MS: u64 = 5000;

/// How long a download is waited for, where the request does not say, in
/// milliseconds.
pub const DOWNLOAD_MS: u64 = 30000;

// ---------------------------------------------------------------------------
// Screenshots

/// Whether a request wants the whole page.
pub open spec fn wants_full_page(params: Option<JsonView>) -> bool {
    let given = match param(params, "full_page"@) {
        Some(value) => Some(value),
        None => param(params, "fullPage"@),
    };
    match given {
        Some(value) => flag_of(value) == Some(true),
        None => false,
    }
}

/// What the reply at a place says of a screenshot.
pub open spec fn shot_at(replies: Seq<ReplyView>, i: int) -> Option<
    Option<Result<ScreenshotView, Seq<char>>>,
> {
    if 0 <= i < replies.len() {
        Some(
            match replies[i] {
                ReplyView::Screenshot(shot) => shot,
                _ => None,
            },
        )
    } else {
        None
    }
}

/// The answer with a screenshot of a live page.
pub open spec fn live_shot(surface_id: Seq<char>, shot: ScreenshotView) -> JsonView {
    ObjectView::new().with("surface_id"@, JsonView::Text(surface_id)).with(
        "png_base64"@,
        JsonView::Text(shot.png_base64),
    ).with("width"@, integer_view(shot.width as i64)).with(
        "height"@,
        integer_view(shot.height as i64),
    ).with("full_page"@, JsonView::Bool(shot.full_page)).with(
        "live_webview"@,
        JsonView::Bool(true),
    ).done()
}

/// The answer where there is no live page.
pub open spec fn static_shot(surface_id: Seq<char>) -> JsonView {
    ObjectView::new().with("surface_id"@, JsonView::Text(surface_id)).with(
        "png_base64"@,
        JsonView::Text(STATIC_SCREENSHOT_PNG_BASE64@),
    ).with("live_webview"@, JsonView::Bool(false)).done()
}

/// What a request for a screenshot comes to.
pub open spec fn screenshot_step(
    surface_id: Seq<char>,
    params: Option<JsonView>,
    readings: Readings,
    replies: Seq<ReplyView>,
) -> StepView {
    match shot_at(replies, 0) {
        None => StepView::Ask(
            asking(
                surface_id,
                ActionView::Screenshot {
                    full_page: wants_full_page(params),
                    timeout_ms: timeout_of(params, readings, SCREENSHOT_MS),
                },
            ),
        ),
        Some(Some(Ok(shot))) => StepView::Done(Ok(live_shot(surface_id, shot))),
        Some(Some(Err(e))) => StepView::Done(Err(timed_out(e))),
        Some(None) => StepView::Done(Ok(static_shot(surface_id))),
    }
}

/// Whether a request wants the whole page.
fn full_page_param(params: Option<&Json>) -> (r: bool)
    ensures
        r == wants_full_page(optional_ref_view(params)),
{
    let given = match param_value(params, "full_page") {
        Some(value) => Some(value),
        None => param_value(params, "fullPage"),
    };
    match given {
        Some(value) => match bool_from_value(value) {
            Some(b) => b,
            None => false,
        },
        None => false,
    }
}

/// What a request for a screenshot comes to.
pub fn browser_screenshot(
    surface_id: &str,
    params: Option<&Json>,
    readings: &Readings,
    replies: &Vec<HostReply>,
) -> (r: Step)
    ensures
        r@ == screenshot_step(surface_id@, optional_ref_view(params), *readings, views(replies@)),
{
    if replies.len() == 0 {
        let full_page = full_page_param(params);
        let timeout_ms: u64 = browser_timeout_duration(params, readings, SCREENSHOT_MS);
        return Step::Ask(ask(surface_id, HostAction::Screenshot { full_page, timeout_ms }));
    }
    match &replies[0] {
        HostReply::Screenshot(Some(Ok(shot))) => Step::Done(
            Ok(
                Object::new().with("surface_id", Json::text(surface_id)).with(
                    "png_base64",
                    Json::text(shot.png_base64.as_str()),
                ).with("width", Json::integer(shot.width as i64)).with(
                    "height",
                    Json::integer(shot.height as i64),
                ).with("full_page", Json::Bool(shot.full_page)).with(
                    "live_webview",
                    Json::Bool(true),
                ).done(),
            ),
        ),
        HostReply::Screenshot(Some(Err(e))) => Step::Done(Err(browser_timeout(e.as_str()))),
        _ => Step::Done(
            Ok(
                Object::new().with("surface_id", Json::text(surface_id)).with(
                    "png_base64",
                    Json::text(STATIC_SCREENSHOT_PNG_BASE64),
                ).with("live_webview", Json::Bool(false)).done(),
            ),
        ),
    }
}

// ---------------------------------------------------------------------------
// Dialogs

/// Whether a word accepts a dialog, if it says anything of it.
pub open spec fn accepting(word: Seq<char>) -> Option<bool> {
    if word == "accept"@ || word == "ok"@ || word == "confirm"@ || word == "yes"@ {
        Some(true)
    } else if word == "dismiss"@ || word == "cancel"@ || word == "deny"@ || word == "no"@ {
        Some(false)
    } else {
        None
    }
}

/// Whether a request accepts the dialog; it does where it does not say.
pub open spec fn wants_accept(params: Option<JsonView>) -> Option<bool> {
    accepting(lowered(or_text(text2(params, "action"@, "response"@), "accept"@)))
}

/// What the reply at a place says of a dialog.
pub open spec fn dialog_at(replies: Seq<ReplyView>, i: int) -> Option<
    Result<DialogView, Seq<char>>,
> {
    if 0 <= i < replies.len() {
        Some(
            match replies[i] {
                ReplyView::Dialog(d) => d,
                _ => Err(NOT_LIVE@),
            },
        )
    } else {
        None
    }
}

/// The refusal where a dialog could not be answered.
pub open spec fn dialog_refusal(e: Seq<char>) -> ErrorView {
    if holds(e, "no pending"@) {
        not_found(e)
    } else {
        unsupported(e)
    }
}

/// The answer where a dialog was answered.
pub open spec fn dialog_told(surface_id: Seq<char>, d: DialogView, accept: bool) -> JsonView {
    ObjectView::new().with("surface_id"@, JsonView::Text(surface_id)).with(
        "ok"@,
        JsonView::Bool(true),
    ).with("dialog"@, dialog_value(d)).with("accepted"@, JsonView::Bool(accept)).with(
        "live_webview"@,
        JsonView::Bool(true),
    ).done()
}

/// What a request to answer a dialog comes to.
pub open spec fn dialog_step(
    surface_id: Seq<char>,
    params: Option<JsonView>,
    replies: Seq<ReplyView>,
) -> StepView {
    match wants_accept(params) {
        None => StepView::Done(Err(invalid("action must be accept or dismiss"@))),
        Some(accept) => match dialog_at(replies, 0) {
            None => StepView::Ask(
                asking(
                    surface_id,
                    ActionView::RespondToDialog {
                        accept,
                        prompt_text: text4(
                            params,
                            "prompt_text"@,
                            "promptText"@,
                            "text"@,
                            "value"@,
                        ),
                    },
                ),
            ),
            Some(Ok(d)) => StepView::Done(Ok(dialog_told(surface_id, d, accept))),
            Some(Err(e)) => StepView::Done(Err(dialog_refusal(e))),
        },
    }
}

/// Whether a request accepts the dialog.
fn accept_param(params: Option<&Json>) -> (r: Option<bool>)
    ensures
        r == wants_accept(optional_ref_view(params)),
{
    let given = text_or(optional_string_any2(params, "action", "response"), "accept");
    let word = to_lower(given.as_str());
    let w = word.as_str();
    if same(w, "accept") || same(w, "ok") || same(w, "confirm") || same(w, "yes") {
        Some(true)
    } else if same(w, "dismiss") || same(w, "cancel") || same(w, "deny") || same(w, "no") {
        Some(false)
    } else {
        None
    }
}

/// The refusal where a dialog could not be answered.
fn dialog_error(e: &str) -> (r: RpcError)
    ensures
        r@ == dialog_refusal(e@),
{
    if contains(e, "no pending") {
        browser_not_found(e)
    } else {
        not_supported(e)
    }
}

/// What a request to answer a dialog comes to.
pub fn browser_dialog_respond(surface_id: &str, params: Option<&Json>, replies: &Vec<HostReply>) -> (r:
    Step)
    ensures
        r@ == dialog_step(surface_id@, optional_ref_view(params), views(replies@)),
{
    let accept = match accept_param(params) {
        Some(accept) => accept,
        None => {
            return Step::Done(Err(invalid_params("action must be accept or dismiss")));
        },
    };
    if replies.len() == 0 {
        let prompt_text = optional_string_any4(params, "prompt_text", "promptText", "text", "value");
        return Step::Ask(ask(surface_id, HostAction::RespondToDialog { accept, prompt_text }));
    }
    match &replies[0] {
        HostReply::Dialog(Ok(d)) => Step::Done(
            Ok(
                Object::new().with("surface_id", Json::text(surface_id)).with(
                    "ok",
                    Json::Bool(true),
                ).with("dialog", dialog_json(d)).with("accepted", Json::Bool(accept)).with(
                    "live_webview",
                    Json::Bool(true),
                ).done(),
            ),
        ),
        HostReply::Dialog(Err(e)) => Step::Done(Err(dialog_error(e.as_str()))),
        _ => Step::Done(Err(dialog_error(NOT_LIVE))),
    }
}

// ---------------------------------------------------------------------------
// Downloads

/// What the reply at a place says of a download.
pub open spec fn download_at(replies: Seq<ReplyView>, i: int) -> Option<
    Result<DownloadView, Seq<char>>,
> {
    if 0 <= i < replies.len() {
        Some(
            match replies[i] {
                ReplyView::Download(d) => d,
                _ => Err(NOT_LIVE@),
            },
        )
    } else {
        None
    }
}

/// The refusal where no download came.
pub open spec fn download_refusal(e: Seq<char>) -> ErrorView {
    if holds(e, "timed out"@) {
        timed_out(e)
    } else {
        unsupported(e)
    }
}

/// What a request to wait for a download comes to.
pub open spec fn download_step(
    surface_id: Seq<char>,
    params: Option<JsonView>,
    readings: Readings,
    replies: Seq<ReplyView>,
) -> StepView {
    match download_at(replies, 0) {
        None => StepView::Ask(
            asking(
                surface_id,
                ActionView::WaitForDownload {
                    timeout_ms: timeout_of(params, readings, DOWNLOAD_MS),
                },
            ),
        ),
        Some(Ok(d)) => StepView::Done(
            Ok(
                ObjectView::new().with("surface_id"@, JsonView::Text(surface_id)).with(
                    "download"@,
                    download_value(d),
                ).with("live_webview"@, JsonView::Bool(true)).done(),
            ),
        ),
        Some(Err(e)) => StepView::Done(Err(download_refusal(e))),
    }
}

/// The refusal where no download came.
fn download_error(e: &str) -> (r: RpcError)
    ensures
        r@ == download_refusal(e@),
{
    if contains(e, "timed out") {
        browser_timeout(e)
    } else {
        not_supported(e)
    }
}

/// What a request to wait for a download comes to.
pub fn browser_download_wait(
    surface_id: &str,
    params: Option<&Json>,
    readings: &Readings,
    replies: &Vec<HostReply>,
) -> (r: Step)
    ensures
        r@ == download_step(surface_id@, optional_ref_view(params), *readings, views(replies@)),
{
    if replies.len() == 0 {
        let timeout_ms: u64 = browser_timeout_duration(params, readings, DOWNLOAD_MS);
        return Step::Ask(ask(surface_id, HostAction::WaitForDownload { timeout_ms }));
    }
    match &replies[0] {
        HostReply::Download(Ok(d)) => Step::Done(
            Ok(
                Object::new().with("surface_id", Json::text(surface_id)).with(
                    "download",
                    download_json(d),
                ).with("live_webview", Json::Bool(true)).done(),
            ),
        ),
        HostReply::Download(Err(e)) => Step::Done(Err(download_error(e.as_str()))),
        _ => Step::Done(Err(download_error(NOT_LIVE))),
    }
}

// ---------------------------------------------------------------------------
// Frames and events

/// The answer with the frame that scripts run in.
pub open spec fn frame_told(surface_id: Seq<char>, frame: Seq<char>, live: bool) -> JsonView {
    ObjectView::new().with("surface_id"@, JsonView::Text(surface_id)).with(
        "frame"@,
        JsonView::Text(frame),
    ).with("live_webview"@, JsonView::Bool(live)).done()
}

/// What the reply at a place names, if it names anything.
pub open spec fn name_at(replies: Seq<ReplyView>, i: int) -> Option<Option<Seq<char>>> {
    if 0 <= i < replies.len() {
        Some(
            match replies[i] {
                ReplyView::Text(name) => name,
                _ => None,
            },
        )
    } else {
        None
    }
}

/// What a request for the main frame comes to.
pub open spec fn main_frame_step(surface_id: Seq<char>, replies: Seq<ReplyView>) -> StepView {
    match flag_at(replies, 0) {
        None => StepView::Ask(asking(surface_id, ActionView::SelectMainFrame)),
        Some(live) => match name_at(replies, 1) {
            None => StepView::Ask(asking(surface_id, ActionView::ActiveFrame)),
            Some(frame) => StepView::Done(
                Ok(frame_told(surface_id, or_text(frame, "main"@), live)),
            ),
        },
    }
}

/// What the reply at a place says of a frame.
pub open spec fn frame_at(replies: Seq<ReplyView>, i: int) -> Option<Result<(), Seq<char>>> {
    if 0 <= i < replies.len() {
        Some(
            match replies[i] {
                ReplyView::Frame(f) => f,
                _ => Err(NOT_LIVE@),
            },
        )
    } else {
        None
    }
}

/// What a request for a frame comes to.
pub open spec fn frame_step(
    surface_id: Seq<char>,
    params: Option<JsonView>,
    replies: Seq<ReplyView>,
) -> StepView {
    match required(text2(params, "selector"@, "frame"@), "selector"@) {
        Err(e) => StepView::Done(Err(e)),
        Ok(selector) => match frame_at(replies, 0) {
            None => StepView::Ask(asking(surface_id, ActionView::SelectFrame(selector))),
            Some(Ok(_)) => StepView::Done(Ok(frame_told(surface_id, selector, true))),
            Some(Err(e)) => StepView::Done(Err(unsupported(e))),
        },
    }
}

/// What the reply at a place says of events.
pub open spec fn events_at(replies: Seq<ReplyView>, i: int) -> Option<Seq<EventView>> {
    if 0 <= i < replies.len() {
        Some(
            match replies[i] {
                ReplyView::Events(events) => events,
                _ => Seq::empty(),
            },
        )
    } else {
        None
    }
}

/// What a request for events comes to: they are asked for by an action, and
/// answered under a key.
pub open spec fn events_step(
    surface_id: Seq<char>,
    action: ActionView,
    key: Seq<char>,
    replies: Seq<ReplyView>,
) -> StepView {
    match events_at(replies, 0) {
        None => StepView::Ask(asking(surface_id, action)),
        Some(events) => match flag_at(replies, 1) {
            None => StepView::Ask(asking(surface_id, ActionView::BrowserRegistered)),
            Some(live) => StepView::Done(
                Ok(
                    ObjectView::new().with("surface_id"@, JsonView::Text(surface_id)).with(
                        key,
                        events_value(events),
                    ).with("live_webview"@, JsonView::Bool(live)).done(),
                ),
            ),
        },
    }
}

/// The answer with the frame that scripts run in.
fn frame_json(surface_id: &str, frame: &str, live: bool) -> (r: Json)
    ensures
        r@ == frame_told(surface_id@, frame@, live),
{
    Object::new().with("surface_id", Json::text(surface_id)).with("frame", Json::text(frame)).with(
        "live_webview",
        Json::Bool(live),
    ).done()
}

/// What a request for the main frame comes to.
pub fn browser_main_frame(surface_id: &str, replies: &Vec<HostReply>) -> (r: Step)
    ensures
        r@ == main_frame_step(surface_id@, views(replies@)),
{
    match flag_reply(replies, 0) {
        None => Step::Ask(ask(surface_id, HostAction::SelectMainFrame)),
        Some(live) => {
            if replies.len() < 2 {
                return Step::Ask(ask(surface_id, HostAction::ActiveFrame));
            }
            let frame = match &replies[1] {
                HostReply::Text(name) => text_or(copy_optional(name), "main"),
                _ => owned("main"),
            };
            Step::Done(Ok(frame_json(surface_id, frame.as_str(), live)))
        },
    }
}

/// What a request for a frame comes to.
pub fn browser_frame_select(surface_id: &str, params: Option<&Json>, replies: &Vec<HostReply>) -> (r:
    Step)
    ensures
        r@ == frame_step(surface_id@, optional_ref_view(params), views(replies@)),
{
    let selector = match require(optional_string_any2(params, "selector", "frame"), "selector") {
        Ok(selector) => selector,
        Err(e) => {
            return Step::Done(Err(e));
        },
    };
    if replies.len() == 0 {
        return Step::Ask(ask(surface_id, HostAction::SelectFrame(selector)));
    }
    match &replies[0] {
        HostReply::Frame(Ok(_)) => Step::Done(Ok(frame_json(surface_id, selector.as_str(), true))),
        HostReply::Frame(Err(e)) => Step::Done(Err(not_supported(e.as_str()))),
        _ => Step::Done(Err(not_supported(NOT_LIVE))),
    }
}

/// What a request for events comes to.
pub fn browser_events(
    surface_id: &str,
    action: HostAction,
    key: &str,
    replies: &Vec<HostReply>,
) -> (r: Step)
    ensures
        r@ == events_step(surface_id@, action@, key@, views(replies@)),
{
    broadcast use group_views;

    if replies.len() == 0 {
        return Step::Ask(ask(surface_id, action));
    }
    let events = match &replies[0] {
        HostReply::Events(events) => events_json(events),
        _ => {
            let none: Vec<crate::webview::BrowserEvent> = Vec::new();
            assert(views(none@) =~= Seq::<EventView>::empty());
            events_json(&none)
        },
    };
    match flag_reply(replies, 1) {
        None => Step::Ask(ask(surface_id, HostAction::BrowserRegistered)),
        Some(live) => Step::Done(
            Ok(
                Object::new().with("surface_id", Json::text(surface_id)).with(key, events).with(
                    "live_webview",
                    Json::Bool(live),
                ).done(),
            ),
        ),
    }
}

// ---------------------------------------------------------------------------
// The state of a page

/// The answer with the state of a page.
pub open spec fn saved(surface_id: Seq<char>, page: PageView) -> JsonView {
    ObjectView::new().with("surface_id"@, JsonView::Text(surface_id)).with(
        "state"@,
        page_value(page),
    ).done()
}

/// What a request to load a state comes to.
pub open spec fn load_act(
    surface_id: Seq<char>,
    page: PageView,
    params: Option<JsonView>,
    replies: Seq<ReplyView>,
) -> ActView {
    match param(params, "state"@) {
        None => acted(surface_id, page, params, false, replies, 0),
        Some(value) => match page_in(value) {
            Some(loaded) => acted(surface_id, loaded, params, false, replies, 0),
            None => ActView::Fail(invalid("state must be a browser state object"@)),
        },
    }
}

/// What an action without a live page comes to.
fn browser_action_result(
    surface_id: &str,
    before: &BrowserState,
    page: BrowserState,
    params: Option<&Json>,
    replies: &Vec<HostReply>,
) -> (r: Act)
    ensures
        act_view(r, before@) == acted(
            surface_id@,
            page@,
            optional_ref_view(params),
            false,
            views(replies@),
            0,
        ),
{
    let r = browser_action_result_with_live(surface_id, page, params, false, replies, 0);
    assert(act_view(r, before@) == acted_from(
        before@,
        surface_id@,
        page@,
        optional_ref_view(params),
        false,
        views(replies@),
        0,
    ));
    r
}

/// What a request to load a state comes to.
pub fn browser_state_load(
    surface_id: &str,
    page: &BrowserState,
    params: Option<&Json>,
    replies: &Vec<HostReply>,
) -> (r: Act)
    ensures
        act_view(r, page@) == load_act(
            surface_id@,
            page@,
            optional_ref_view(params),
            views(replies@),
        ),
{
    let after = match param_value(params, "state") {
        None => page.copy(),
        Some(value) => match browser_state_from_json(value) {
            Some(loaded) => loaded,
            None => {
                return Act::Fail(invalid_params("state must be a browser state object"));
            },
        },
    };
    browser_action_result(surface_id, page, after, params, replies)
}

// ---------------------------------------------------------------------------
// Any request

/// What a request that leaves the page as it is comes to.
pub open spec fn step_act(step: StepView, page: PageView) -> ActView {
    match step {
        StepView::Ask(call) => ActView::Ask(call),
        StepView::Done(Ok(value)) => ActView::Done(page, value),
        StepView::Done(Err(e)) => ActView::Fail(e),
    }
}

/// What a gesture that a request asks for comes to. It needs a selector.
pub open spec fn requested_gesture_act(
    surface: SurfaceView,
    gesture: Result<crate::script::GestureView, ErrorView>,
    params: Option<JsonView>,
    replies: Seq<ReplyView>,
) -> ActView {
    match required(text1(params, "selector"@), "selector"@) {
        Err(e) => ActView::Fail(e),
        Ok(selector) => match gesture {
            Err(e) => ActView::Fail(e),
            Ok(g) => gesture_act(
                surface.id,
                surface.browser_state,
                selector,
                g,
                params,
                replies,
            ),
        },
    }
}

/// What a request comes to on the page of a surface.
pub open spec fn automation_act(
    surface: SurfaceView,
    method: Seq<char>,
    params: Option<JsonView>,
    readings: Readings,
    replies: Seq<ReplyView>,
) -> ActView {
    let id = surface.id;
    let page = surface.browser_state;
    if method == "browser.snapshot"@ {
        match snapshot_heard(id, page, replies, 0) {
            Heard::Ask(call) => ActView::Ask(call),
            Heard::Got(value, _) => ActView::Done(page, value),
        }
    } else if method == "browser.eval"@ {
        step_act(read_step(id, eval_reading(page, params), replies), page)
    } else if method == "browser.wait"@ {
        step_act(wait_step(id, page, surface.url, params, readings, replies), page)
    } else if method == "browser.press"@ {
        key_act(id, page, KeyPhase::Press, params, replies)
    } else if method == "browser.keydown"@ {
        key_act(id, page, KeyPhase::Down, params, replies)
    } else if method == "browser.keyup"@ {
        key_act(id, page, KeyPhase::Up, params, replies)
    } else if gesture_for(method, params, readings) is Some {
        requested_gesture_act(surface, gesture_for(method, params, readings)->0, params, replies)
    } else if method == "browser.scroll"@ {
        scroll_act(id, page, scroll_distance(params, readings), params, replies)
    } else if method == "browser.screenshot"@ {
        step_act(screenshot_step(id, params, readings, replies), page)
    } else if has_prefix(method, "browser.get."@) {
        step_act(read_step(id, get_reading(page, method, params), replies), page)
    } else if has_prefix(method, "browser.is."@) {
        step_act(read_step(id, is_reading(page, method, params), replies), page)
    } else if has_prefix(method, "browser.find."@) {
        step_act(read_step(id, Ok(find_reading(page, method, params)), replies), page)
    } else if method == "browser.frame.main"@ {
        step_act(main_frame_step(id, replies), page)
    } else if method == "browser.frame.select"@ {
        step_act(frame_step(id, params, replies), page)
    } else if method == "browser.console.list"@ {
        step_act(events_step(id, ActionView::ConsoleMessages, "messages"@, replies), page)
    } else if method == "browser.errors.list"@ {
        step_act(events_step(id, ActionView::ErrorMessages, "errors"@, replies), page)
    } else if method == "browser.highlight"@ {
        acted(id, page, params, false, replies, 0)
    } else if method == "browser.state.save"@ {
        ActView::Done(page, saved(id, page))
    } else if method == "browser.state.load"@ {
        load_act(id, page, params, replies)
    } else if method == "browser.dialog.respond"@ {
        step_act(dialog_step(id, params, replies), page)
    } else if method == "browser.download.wait"@ {
        step_act(download_step(id, params, readings, replies), page)
    } else {
        ActView::Fail(unavailable(method))
    }
}

/// What a request that leaves the page as it is comes to.
fn act_of(step: Step) -> (r: Act)
    ensures
        forall|page: PageView| #[trigger] act_view(r, page) == step_act(step@, page),
{
    match step {
        Step::Ask(call) => Act::Ask(call),
        Step::Done(Ok(value)) => Act::Done(None, value),
        Step::Done(Err(e)) => Act::Fail(e),
    }
}

/// What a request comes to on the page of a surface.
pub fn automate(
    surface: &SurfaceRecord,
    method: &str,
    params: Option<&Json>,
    readings: &Readings,
    replies: &Vec<HostReply>,
) -> (r: Act)
    ensures
        act_view(r, surface@.browser_state) == automation_act(
            surface@,
            method@,
            optional_ref_view(params),
            *readings,
            views(replies@),
        ),
{
    let id = surface.id.as_str();
    let page = &surface.browser_state;
    if same(method, "browser.snapshot") {
        return match browser_snapshot(id, page, replies, 0) {
            HeardJson::Ask(call) => Act::Ask(call),
            HeardJson::Got(value, _) => Act::Done(None, value),
        };
    }
    if same(method, "browser.eval") {
        return act_of(read_page(id, browser_eval(page, params), replies));
    }
    if same(method, "browser.wait") {
        return act_of(browser_wait(id, page, &surface.url, params, readings, replies));
    }
    if same(method, "browser.press") {
        return press_key(id, page, KeyPhase::Press, params, replies);
    }
    if same(method, "browser.keydown") {
        return press_key(id, page, KeyPhase::Down, params, replies);
    }
    if same(method, "browser.keyup") {
        return press_key(id, page, KeyPhase::Up, params, replies);
    }
    if let Some(gesture) = requested_gesture(method, params, readings) {
        return match require(optional_string_param(params, "selector"), "selector") {
            Err(e) => Act::Fail(e),
            Ok(selector) => match gesture {
                Err(e) => Act::Fail(e),
                Ok(g) => make_gesture(id, page, selector.as_str(), &g, params, replies),
            },
        };
    }
    if same(method, "browser.scroll") {
        return scroll_page(id, page, scroll_param(params, readings), params, replies);
    }
    if same(method, "browser.screenshot") {
        return act_of(browser_screenshot(id, params, readings, replies));
    }
    if starts_with(method, "browser.get.") {
        return act_of(read_page(id, browser_get(page, method, params), replies));
    }
    if starts_with(method, "browser.is.") {
        return act_of(read_page(id, browser_is(page, method, params), replies));
    }
    if starts_with(method, "browser.find.") {
        return act_of(read_page(id, Ok(browser_find(page, method, params)), replies));
    }
    if same(method, "browser.frame.main") {
        return act_of(browser_main_frame(id, replies));
    }
    if same(method, "browser.frame.select") {
        return act_of(browser_frame_select(id, params, replies));
    }
    if same(method, "browser.console.list") {
        return act_of(browser_events(id, HostAction::ConsoleMessages, "messages", replies));
    }
    if same(method, "browser.errors.list") {
        return act_of(browser_events(id, HostAction::ErrorMessages, "errors", replies));
    }
    if same(method, "browser.highlight") {
        return browser_action_result(id, page, page.copy(), params, replies);
    }
    if same(method, "browser.state.save") {
        return Act::Done(
            None,
            Object::new().with("surface_id", Json::text(id)).with(
                "state",
                browser_state_json(page),
            ).done(),
        );
    }
    if same(method, "browser.state.load") {
        return browser_state_load(id, page, params, replies);
    }
    if same(method, "browser.dialog.respond") {
        return act_of(browser_dialog_respond(id, params, replies));
    }
    if same(method, "browser.download.wait") {
        return act_of(browser_download_wait(id, params, readings, replies));
    }
    Act::Fail(not_available(method))
}

/// A surface whose page is another.
pub open spec fn showing(surface: SurfaceView, page: PageView) -> SurfaceView {
    SurfaceView { browser_state: page, ..surface }
}

/// The place of the browser surface that a request is for, and the refusal
/// where there is none.
pub open spec fn automation_place(app: AppView, params: Option<JsonView>) -> Result<
    (int, int),
    ErrorView,
> {
    match target_surface(app.state, params) {
        Err(e) => Err(e),
        Ok(id) => match surface_at(app.state, id) {
            None => Err(not_found("unknown surface: "@ + id)),
            Some((w, i)) => match browser_checked(app.state.workspaces[w].surfaces[i]) {
                Err(e) => Err(e),
                Ok(_) => Ok((w, i)),
            },
        },
    }
}

/// What a request for a page makes of the shell.
pub open spec fn automated(
    app: AppView,
    method: Seq<char>,
    params: Option<JsonView>,
    readings: Readings,
    replies: Seq<ReplyView>,
) -> Turn {
    match automation_place(app, params) {
        Err(e) => refused(app, e),
        Ok((w, i)) => {
            let surface = app.state.workspaces[w].surfaces[i];
            match automation_act(surface, method, params, readings, replies) {
                ActView::Ask(call) => asked(app, call),
                ActView::Fail(e) => refused(app, e),
                ActView::Done(page, value) => answered(
                    app.changed_to(app.state.with_surface(w, i, showing(surface, page))),
                    value,
                ),
            }
        },
    }
}

impl AppState {
    /// The place of the browser surface that a request is for.
    fn automation_surface(&self, params: Option<&Json>) -> (r: Result<(usize, usize), RpcError>)
        ensures
            crate::surfaces::places_outcome(r) == automation_place(
                self@,
                optional_ref_view(params),
            ),
            r matches Ok((w, i)) ==> w < self.state.workspaces@.len() && i
                < self.state.workspaces@[w as int].surfaces@.len(),
    {
        let id = match target_surface_id(&self.state, params) {
            Ok(id) => id,
            Err(e) => {
                return Err(e);
            },
        };
        match surface_location(&self.state, id.as_str()) {
            None => Err(browser_not_found(join2("unknown surface: ", id.as_str()).as_str())),
            Some((w, i)) => match ensure_browser_surface(&self.state.workspaces[w].surfaces[i]) {
                Err(e) => Err(e),
                Ok(_) => Ok((w, i)),
            },
        }
    }

    /// Carries out a request for a page.
    pub fn browser_automation(
        &mut self,
        method: &str,
        params: Option<&Json>,
        readings: &Readings,
        replies: &Vec<HostReply>,
    ) -> (r: Step)
        ensures
            step_turn(r, final(self)@) == automated(
                old(self)@,
                method@,
                optional_ref_view(params),
                *readings,
                views(replies@),
            ),
    {
        broadcast use group_views;

        let (w, i) = match self.automation_surface(params) {
            Ok(place) => place,
            Err(e) => {
                return Step::Done(Err(e));
            },
        };
        let act = automate(
            &self.state.workspaces[w].surfaces[i],
            method,
            params,
            readings,
            replies,
        );
        match act {
            Act::Ask(call) => Step::Ask(call),
            Act::Fail(e) => Step::Done(Err(e)),
            Act::Done(after, value) => {
                let ghost before = self@.state;
                let ghost surface = before.workspaces[w as int].surfaces[i as int];
                match after {
                    Some(page) => {
                        let record = self.surface_mut(w, i);
                        record.browser_state = page;
                    },
                    None => {
                        assert(before.with_surface(
                            w as int,
                            i as int,
                            showing(surface, surface.browser_state),
                        ) =~= before) by {
                            assert(before.workspaces[w as int].surfaces.update(
                                i as int,
                                surface,
                            ) =~= before.workspaces[w as int].surfaces);
                            assert(before.workspaces.update(
                                w as int,
                                before.workspaces[w as int],
                            ) =~= before.workspaces);
                        }
                    },
                }
                self.mark_state_changed();
                Step::Done(Ok(value))
            },
        }
    }
}

} // verus!
