//! What is done to the page of a browser surface: on a live page by a script,
//! and to what is known of the page where there is no live one.

use crate::host::{
    ask, evaluated, eval_live_browser_script, ran, run_live_browser_script, CallView, Heard, HeardFlag,
    HeardValue, HostCall, HostReply, ReplyView,
};
use crate::json::{
    entries_view, lemma_object_view, optional_chars, optional_ref_view, Json, JsonView, Object, ObjectView,
};
use crate::keyed::{keyed, lemma_put_seen, lookup, put, put_entry, seen};
use crate::lists::views;
use crate::page::{BrowserElement, BrowserState, ElementView, PageView};
use crate::query::{
    browser_element, browser_element_id, element_id, element_named, page_snapshot, state_snapshot,
};
use crate::rpc::{
    bool_from_value, flag_of, optional_string_any2, optional_string_param, param, param_value, require,
    required, text1, text2, ErrorView, Readings, RpcError,
};
use crate::script::{
    gesture_script, gesture_script_text, key_script, key_script_text, page_scroll_script,
    page_scroll_script_text, snapshot_script, snapshot_script_text, Gesture, GestureView, KeyPhase,
};
use crate::text::{owned, same};
use vstd::prelude::*;

verus! {

/// What a request comes to on a page: something to ask, a refusal, or the page
/// after it and the answer.
pub enum ActView {
    Ask(CallView),
    Fail(ErrorView),
    Done(PageView, JsonView),
}

/// What a request comes to on a page. The page is absent where it stays as it
/// is.
pub enum Act {
    Ask(HostCall),
    Fail(RpcError),
    Done(Option<BrowserState>, Json),
}

/// What a request comes to on a page.
pub open spec fn act_view(a: Act, page: PageView) -> ActView {
    match a {
        Act::Ask(call) => ActView::Ask(call@),
        Act::Fail(e) => ActView::Fail(e@),
        Act::Done(after, value) => ActView::Done(
            match after {
                Some(p) => p@,
                None => page,
            },
            value@,
        ),
    }
}

/// A value is there, and where the replies go on; or a call for it.
pub enum HeardJson {
    Ask(HostCall),
    Got(Json, usize),
}

impl View for HeardJson {
    type V = Heard<JsonView>;

    open spec fn view(&self) -> Heard<JsonView> {
        match *self {
            HeardJson::Ask(call) => Heard::Ask(call@),
            HeardJson::Got(v, next) => Heard::Got(v@, next as int),
        }
    }
}

// ---------------------------------------------------------------------------
// Snapshots

/// The snapshot of a live page: what it says, and whose it is.
pub open spec fn live_snapshot(entries: Seq<(Seq<char>, JsonView)>, surface_id: Seq<char>) -> JsonView {
    JsonView::Object(
        put(
            put(entries, "surface_id"@, JsonView::Text(surface_id)),
            "live_webview"@,
            JsonView::Bool(true),
        ),
    )
}

/// The snapshot of a page: of the live one, or of what is known of it.
pub open spec fn snapshot_heard(
    surface_id: Seq<char>,
    page: PageView,
    replies: Seq<ReplyView>,
    n: int,
) -> Heard<JsonView> {
    match evaluated(replies, n, surface_id, snapshot_script()) {
        Heard::Ask(call) => Heard::Ask(call),
        Heard::Got(Some(JsonView::Object(entries)), next) => Heard::Got(
            live_snapshot(entries, surface_id),
            next,
        ),
        Heard::Got(_, next) => Heard::Got(page_snapshot(surface_id, page), next),
    }
}

/// The view of the entries goes through their keys.
proof fn lemma_entries_view(entries: Seq<(String, Json)>)
    ensures
        entries_view(entries) == seen(keyed(entries), |v: Json| v@),
{
    assert(entries_view(entries) =~= seen(keyed(entries), |v: Json| v@));
}

/// Puts a value among the entries of an object.
fn put_value(entries: &mut Vec<(String, Json)>, key: &str, value: Json)
    ensures
        entries_view(final(entries)@) == put(entries_view(old(entries)@), key@, value@),
{
    proof {
        lemma_entries_view(entries@);
        lemma_put_seen(keyed(entries@), key@, value, |v: Json| v@);
    }
    put_entry(entries, owned(key), value);
    proof {
        lemma_entries_view(entries@);
    }
}

/// The snapshot of a page.
pub fn browser_snapshot(
    surface_id: &str,
    page: &BrowserState,
    replies: &Vec<HostReply>,
    n: usize,
) -> (r: HeardJson)
    requires
        n <= replies@.len(),
    ensures
        r@ == snapshot_heard(surface_id@, page@, views(replies@), n as int),
{
    broadcast use lemma_object_view;

    let script = snapshot_script_text();
    match eval_live_browser_script(replies, n, surface_id, script.as_str()) {
        HeardValue::Ask(call) => HeardJson::Ask(call),
        HeardValue::Got(Some(Json::Object(entries)), next) => {
            let mut entries = entries;
            put_value(&mut entries, "surface_id", Json::text(surface_id));
            put_value(&mut entries, "live_webview", Json::Bool(true));
            HeardJson::Got(Json::Object(entries), next)
        },
        HeardValue::Got(_, next) => HeardJson::Got(state_snapshot(surface_id, page), next),
    }
}

// ---------------------------------------------------------------------------
// Answers to actions

/// Whether a request asks for a snapshot after it.
pub open spec fn wants_snapshot(params: Option<JsonView>) -> bool {
    match param(params, "snapshot_after"@) {
        Some(value) => flag_of(value) == Some(true),
        None => false,
    }
}

/// What an action comes to: the page after it, and an answer that says whether
/// a live page took part, with a snapshot where one is asked for.
pub open spec fn acted(
    surface_id: Seq<char>,
    page: PageView,
    params: Option<JsonView>,
    live: bool,
    replies: Seq<ReplyView>,
    n: int,
) -> ActView {
    let base = ObjectView::new().with("surface_id"@, JsonView::Text(surface_id)).with(
        "ok"@,
        JsonView::Bool(true),
    ).with("live_webview"@, JsonView::Bool(live));
    if wants_snapshot(params) {
        match snapshot_heard(surface_id, page, replies, n) {
            Heard::Ask(call) => ActView::Ask(call),
            Heard::Got(snapshot, _) => ActView::Done(
                page,
                base.with("post_action_snapshot"@, snapshot).done(),
            ),
        }
    } else {
        ActView::Done(page, base.done())
    }
}

/// Whether a request asks for a snapshot after it.
fn snapshot_wanted(params: Option<&Json>) -> (r: bool)
    ensures
        r == wants_snapshot(optional_ref_view(params)),
{
    match param_value(params, "snapshot_after") {
        Some(value) => match bool_from_value(value) {
            Some(b) => b,
            None => false,
        },
        None => false,
    }
}

/// What an action comes to.
pub fn browser_action_result_with_live(
    surface_id: &str,
    page: BrowserState,
    params: Option<&Json>,
    live: bool,
    replies: &Vec<HostReply>,
    n: usize,
) -> (r: Act)
    requires
        n <= replies@.len(),
    ensures
        forall|before: PageView|
            act_view(r, before) == #[trigger] acted_from(
                before,
                surface_id@,
                page@,
                optional_ref_view(params),
                live,
                views(replies@),
                n as int,
            ),
{
    let base = Object::new().with("surface_id", Json::text(surface_id)).with(
        "ok",
        Json::Bool(true),
    ).with("live_webview", Json::Bool(live));
    if snapshot_wanted(params) {
        match browser_snapshot(surface_id, &page, replies, n) {
            HeardJson::Ask(call) => Act::Ask(call),
            HeardJson::Got(snapshot, _) => Act::Done(
                Some(page),
                base.with("post_action_snapshot", snapshot).done(),
            ),
        }
    } else {
        Act::Done(Some(page), base.done())
    }
}

/// What an action comes to, whatever the page was before.
pub open spec fn acted_from(
    before: PageView,
    surface_id: Seq<char>,
    page: PageView,
    params: Option<JsonView>,
    live: bool,
    replies: Seq<ReplyView>,
    n: int,
) -> ActView {
    acted(surface_id, page, params, live, replies, n)
}

// ---------------------------------------------------------------------------
// Gestures

/// A count after one more; the highest stays.
pub open spec fn one_more(n: u64) -> u64 {
    if n == u64::MAX {
        n
    } else {
        (n + 1) as u64
    }
}

/// A count after one more.
fn add_one(n: u64) -> (r: u64)
    ensures
        r == one_more(n),
{
    if n == u64::MAX {
        n
    } else {
        n + 1
    }
}

/// A distance after another was added, kept within 64 bits.
pub open spec fn moved_by(n: i64, by: i64) -> i64 {
    let sum = n + by;
    if sum > i64::MAX {
        i64::MAX
    } else if sum < i64::MIN {
        i64::MIN
    } else {
        sum as i64
    }
}

/// A distance after another was added.
fn move_by(n: i64, by: i64) -> (r: i64)
    ensures
        r == moved_by(n, by),
{
    let sum: i128 = (n as i128) + (by as i128);
    if sum > i64::MAX as i128 {
        i64::MAX
    } else if sum < i64::MIN as i128 {
        i64::MIN
    } else {
        sum as i64
    }
}

/// A page on which an element, if it is there, has another text.
pub open spec fn with_text(page: PageView, id: Seq<char>, text: Seq<char>) -> PageView {
    match lookup(page.elements, id) {
        Some(e) => page.with_element(id, ElementView { text, ..e }),
        None => page,
    }
}

/// What the button of a form writes: what stands in its name field.
pub open spec fn form_value(page: PageView) -> Seq<char> {
    match lookup(page.elements, "name"@) {
        Some(e) => if e.value.len() > 0 {
            e.value
        } else {
            "empty"@
        },
        None => "empty"@,
    }
}

/// The page after the button of its form was clicked.
pub open spec fn form_submitted(page: PageView) -> PageView {
    let value = form_value(page);
    with_text(with_text(page, "status"@, value), "out"@, value)
}

/// The element after a gesture that changes it.
pub open spec fn element_after(e: ElementView, g: GestureView) -> ElementView {
    match g {
        GestureView::Fill(t) => ElementView { value: t, ..e },
        GestureView::Type(t) => ElementView { value: e.value + t, ..e },
        GestureView::Check => ElementView { checked: true, ..e },
        GestureView::Uncheck => ElementView { checked: false, ..e },
        GestureView::Select(t) => ElementView { value: t, ..e },
        GestureView::Scroll(dy) => ElementView { scroll_top: moved_by(e.scroll_top, dy), ..e },
        _ => e,
    }
}

/// The page, which no live one stands for, after a gesture on the element that
/// a selector names.
pub open spec fn gestured(page: PageView, selector: Seq<char>, g: GestureView) -> Result<
    PageView,
    ErrorView,
> {
    match element_id(page, selector) {
        Err(e) => Err(e),
        Ok(id) => match g {
            GestureView::Click => if selector == "#btn"@ {
                Ok(form_submitted(page))
            } else {
                Ok(page)
            },
            GestureView::DoubleClick => if selector == "#dbl"@ {
                Ok(PageView { dbl_count: one_more(page.dbl_count), ..page })
            } else {
                Ok(page)
            },
            GestureView::Hover => if selector == "#hover"@ {
                Ok(PageView { hover_count: one_more(page.hover_count), ..page })
            } else {
                Ok(page)
            },
            GestureView::Focus => Ok(PageView { active_element_id: Some(id), ..page }),
            GestureView::ScrollIntoView => Ok(page),
            _ => match element_named(page, selector) {
                Err(e) => Err(e),
                Ok(element) => Ok(page.with_element(id, element_after(element, g))),
            },
        },
    }
}

/// What a result says whose value is a page.
pub open spec fn page_outcome(r: Result<BrowserState, RpcError>) -> Result<PageView, ErrorView> {
    match r {
        Ok(p) => Ok(p@),
        Err(e) => Err(e@),
    }
}

/// Gives an element, if it is there, another text.
fn set_text(page: &mut BrowserState, id: &str, text: &str)
    ensures
        final(page)@ == with_text(old(page)@, id@, text@),
{
    let changed = match page.element(id) {
        Some(e) => {
            let mut copy = e.copy();
            copy.text = owned(text);
            Some(copy)
        },
        None => None,
    };
    if let Some(e) = changed {
        page.put_element(owned(id), e);
    }
}

/// Clicks the button of a form.
fn submit_form(page: &mut BrowserState)
    ensures
        final(page)@ == form_submitted(old(page)@),
{
    let value = match page.element("name") {
        Some(e) => if e.value.as_str().is_empty() {
            owned("empty")
        } else {
            e.value.clone()
        },
        None => owned("empty"),
    };
    set_text(page, "status", value.as_str());
    set_text(page, "out", value.as_str());
}

/// The element after a gesture that changes it.
fn change_element(e: &BrowserElement, g: &Gesture) -> (r: BrowserElement)
    ensures
        r@ == element_after(e@, g@),
{
    let mut copy = e.copy();
    match g {
        Gesture::Fill(t) => {
            copy.value = t.clone();
        },
        Gesture::Type(t) => {
            copy.value.push_str(t.as_str());
        },
        Gesture::Check => {
            copy.checked = true;
        },
        Gesture::Uncheck => {
            copy.checked = false;
        },
        Gesture::Select(t) => {
            copy.value = t.clone();
        },
        Gesture::Scroll(dy) => {
            copy.scroll_top = move_by(copy.scroll_top, *dy);
        },
        _ => {},
    }
    copy
}

/// The page after a gesture.
fn apply_gesture(page: &BrowserState, selector: &str, g: &Gesture) -> (r: Result<
    BrowserState,
    RpcError,
>)
    ensures
        page_outcome(r) == gestured(page@, selector@, g@),
{
    let id = match browser_element_id(page, selector) {
        Ok(id) => id,
        Err(e) => {
            return Err(e);
        },
    };
    let mut after = page.copy();
    match g {
        Gesture::Click => {
            if same(selector, "#btn") {
                submit_form(&mut after);
            }
        },
        Gesture::DoubleClick => {
            if same(selector, "#dbl") {
                after.dbl_count = add_one(after.dbl_count);
            }
        },
        Gesture::Hover => {
            if same(selector, "#hover") {
                after.hover_count = add_one(after.hover_count);
            }
        },
        Gesture::Focus => {
            after.active_element_id = Some(id);
        },
        Gesture::ScrollIntoView => {},
        _ => {
            match browser_element(page, selector) {
                Ok(e) => {
                    after.put_element(id, change_element(e, g));
                },
                Err(e) => {
                    return Err(e);
                },
            }
        },
    }
    Ok(after)
}

/// What a gesture comes to: a live page makes it where there is one with the
/// element; otherwise it is made on what is known of the page.
pub open spec fn gesture_act(
    surface_id: Seq<char>,
    page: PageView,
    selector: Seq<char>,
    g: GestureView,
    params: Option<JsonView>,
    replies: Seq<ReplyView>,
) -> ActView {
    match ran(replies, 0, surface_id, gesture_script(selector, g)) {
        Heard::Ask(call) => ActView::Ask(call),
        Heard::Got(live, n) => if live {
            acted(surface_id, page, params, true, replies, n)
        } else {
            match gestured(page, selector, g) {
                Err(e) => ActView::Fail(e),
                Ok(after) => acted(surface_id, after, params, false, replies, n),
            }
        },
    }
}

/// Makes a gesture.
pub fn make_gesture(
    surface_id: &str,
    page: &BrowserState,
    selector: &str,
    g: &Gesture,
    params: Option<&Json>,
    replies: &Vec<HostReply>,
) -> (r: Act)
    ensures
        act_view(r, page@) == gesture_act(
            surface_id@,
            page@,
            selector@,
            g@,
            optional_ref_view(params),
            views(replies@),
        ),
{
    let script = gesture_script_text(selector, g);
    match run_live_browser_script(replies, 0, surface_id, script.as_str()) {
        HeardFlag::Ask(call) => Act::Ask(call),
        HeardFlag::Got(live, n) => {
            let after = if live {
                page.copy()
            } else {
                match apply_gesture(page, selector, g) {
                    Ok(after) => after,
                    Err(e) => {
                        return Act::Fail(e);
                    },
                }
            };
            let r = browser_action_result_with_live(surface_id, after, params, live, replies, n);
            assert(act_view(r, page@) == acted_from(
                page@,
                surface_id@,
                after@,
                optional_ref_view(params),
                live,
                views(replies@),
                n as int,
            ));
            r
        },
    }
}

// ---------------------------------------------------------------------------
// Scrolling and keys

/// The page scrolled, where no live one stands for it.
pub open spec fn page_scrolled(page: PageView, dy: i64) -> PageView {
    PageView { page_scroll_y: moved_by(page.page_scroll_y, dy), ..page }
}

/// What scrolling the page comes to.
pub open spec fn scroll_act(
    surface_id: Seq<char>,
    page: PageView,
    dy: i64,
    params: Option<JsonView>,
    replies: Seq<ReplyView>,
) -> ActView {
    match ran(replies, 0, surface_id, page_scroll_script(dy)) {
        Heard::Ask(call) => ActView::Ask(call),
        Heard::Got(live, n) => acted(
            surface_id,
            if live {
                page
            } else {
                page_scrolled(page, dy)
            },
            params,
            live,
            replies,
            n,
        ),
    }
}

/// Scrolls the page.
pub fn scroll_page(
    surface_id: &str,
    page: &BrowserState,
    dy: i64,
    params: Option<&Json>,
    replies: &Vec<HostReply>,
) -> (r: Act)
    ensures
        act_view(r, page@) == scroll_act(
            surface_id@,
            page@,
            dy,
            optional_ref_view(params),
            views(replies@),
        ),
{
    let script = page_scroll_script_text(dy);
    match run_live_browser_script(replies, 0, surface_id, script.as_str()) {
        HeardFlag::Ask(call) => Act::Ask(call),
        HeardFlag::Got(live, n) => {
            let mut after = page.copy();
            if !live {
                after.page_scroll_y = move_by(after.page_scroll_y, dy);
            }
            let r = browser_action_result_with_live(surface_id, after, params, live, replies, n);
            assert(act_view(r, page@) == acted_from(
                page@,
                surface_id@,
                after@,
                optional_ref_view(params),
                live,
                views(replies@),
                n as int,
            ));
            r
        },
    }
}

/// The page with a key counted, where no live one stands for it.
pub open spec fn key_counted(page: PageView, phase: KeyPhase) -> PageView {
    match phase {
        KeyPhase::Press => PageView {
            key_down_count: one_more(page.key_down_count),
            key_press_count: one_more(page.key_press_count),
            key_up_count: one_more(page.key_up_count),
            ..page
        },
        KeyPhase::Down => PageView { key_down_count: one_more(page.key_down_count), ..page },
        KeyPhase::Up => PageView { key_up_count: one_more(page.key_up_count), ..page },
    }
}

/// Whether a live page got a key; not where the request names none.
pub open spec fn key_sent(
    surface_id: Seq<char>,
    key: Option<Seq<char>>,
    phase: KeyPhase,
    replies: Seq<ReplyView>,
) -> Heard<bool> {
    match key {
        Some(k) => ran(replies, 0, surface_id, key_script(k, phase)),
        None => Heard::Got(false, 0),
    }
}

/// What a key comes to.
pub open spec fn key_act(
    surface_id: Seq<char>,
    page: PageView,
    phase: KeyPhase,
    params: Option<JsonView>,
    replies: Seq<ReplyView>,
) -> ActView {
    match key_sent(surface_id, text1(params, "key"@), phase, replies) {
        Heard::Ask(call) => ActView::Ask(call),
        Heard::Got(live, n) => acted(
            surface_id,
            if live {
                page
            } else {
                key_counted(page, phase)
            },
            params,
            live,
            replies,
            n,
        ),
    }
}

/// Sends a key to a live page.
pub fn dispatch_live_keyboard_event(
    surface_id: &str,
    key: &Option<String>,
    phase: KeyPhase,
    replies: &Vec<HostReply>,
) -> (r: HeardFlag)
    ensures
        r@ == key_sent(surface_id@, optional_chars(*key), phase, views(replies@)),
        r matches HeardFlag::Got(_, n) ==> n <= replies@.len(),
{
    match key {
        Some(k) => {
            let script = key_script_text(k.as_str(), phase);
            run_live_browser_script(replies, 0, surface_id, script.as_str())
        },
        None => HeardFlag::Got(false, 0),
    }
}

/// Sends a key.
pub fn press_key(
    surface_id: &str,
    page: &BrowserState,
    phase: KeyPhase,
    params: Option<&Json>,
    replies: &Vec<HostReply>,
) -> (r: Act)
    ensures
        act_view(r, page@) == key_act(
            surface_id@,
            page@,
            phase,
            optional_ref_view(params),
            views(replies@),
        ),
{
    let key = optional_string_param(params, "key");
    match dispatch_live_keyboard_event(surface_id, &key, phase, replies) {
        HeardFlag::Ask(call) => Act::Ask(call),
        HeardFlag::Got(live, n) => {
            let mut after = page.copy();
            if !live {
                match phase {
                    KeyPhase::Press => {
                        after.key_down_count = add_one(after.key_down_count);
                        after.key_press_count = add_one(after.key_press_count);
                        after.key_up_count = add_one(after.key_up_count);
                    },
                    KeyPhase::Down => {
                        after.key_down_count = add_one(after.key_down_count);
                    },
                    KeyPhase::Up => {
                        after.key_up_count = add_one(after.key_up_count);
                    },
                }
            }
            let r = browser_action_result_with_live(surface_id, after, params, live, replies, n);
            assert(act_view(r, page@) == acted_from(
                page@,
                surface_id@,
                after@,
                optional_ref_view(params),
                live,
                views(replies@),
                n as int,
            ));
            r
        },
    }
}

// ---------------------------------------------------------------------------
// What a request asks for

/// How far a request scrolls; not at all where it does not say.
pub open spec fn scroll_distance(params: Option<JsonView>, readings: Readings) -> i64 {
    if param(params, "dy"@) is Some {
        match readings.dy {
            Some(dy) => dy,
            None => 0,
        }
    } else {
        0
    }
}

/// How far a request scrolls.
pub fn scroll_param(params: Option<&Json>, readings: &Readings) -> (r: i64)
    ensures
        r == scroll_distance(optional_ref_view(params), *readings),
{
    if param_value(params, "dy").is_some() {
        match readings.dy {
            Some(dy) => dy,
            None => 0,
        }
    } else {
        0
    }
}

/// The text that a request writes.
pub open spec fn written_text(params: Option<JsonView>) -> Result<Seq<char>, ErrorView> {
    required(text2(params, "text"@, "value"@), "text"@)
}

/// The gesture that a method asks for, if it asks for one that needs an
/// element.
pub open spec fn gesture_for(method: Seq<char>, params: Option<JsonView>, readings: Readings) -> Option<
    Result<GestureView, ErrorView>,
> {
    if method == "browser.click"@ {
        Some(Ok(GestureView::Click))
    } else if method == "browser.dblclick"@ {
        Some(Ok(GestureView::DoubleClick))
    } else if method == "browser.hover"@ {
        Some(Ok(GestureView::Hover))
    } else if method == "browser.focus"@ {
        Some(Ok(GestureView::Focus))
    } else if method == "browser.fill"@ {
        Some(
            match written_text(params) {
                Ok(t) => Ok(GestureView::Fill(t)),
                Err(e) => Err(e),
            },
        )
    } else if method == "browser.type"@ {
        Some(
            match written_text(params) {
                Ok(t) => Ok(GestureView::Type(t)),
                Err(e) => Err(e),
            },
        )
    } else if method == "browser.check"@ {
        Some(Ok(GestureView::Check))
    } else if method == "browser.uncheck"@ {
        Some(Ok(GestureView::Uncheck))
    } else if method == "browser.select"@ {
        Some(
            match required(text1(params, "value"@), "value"@) {
                Ok(t) => Ok(GestureView::Select(t)),
                Err(e) => Err(e),
            },
        )
    } else if method == "browser.scroll"@ && text1(params, "selector"@) is Some {
        Some(Ok(GestureView::Scroll(scroll_distance(params, readings))))
    } else if method == "browser.scroll_into_view"@ {
        Some(Ok(GestureView::ScrollIntoView))
    } else {
        None
    }
}

/// A gesture, or a refusal.
pub open spec fn gesture_outcome(r: Option<Result<Gesture, RpcError>>) -> Option<
    Result<GestureView, ErrorView>,
> {
    match r {
        None => None,
        Some(Ok(g)) => Some(Ok(g@)),
        Some(Err(e)) => Some(Err(e@)),
    }
}

/// The gesture that a method asks for.
pub fn requested_gesture(method: &str, params: Option<&Json>, readings: &Readings) -> (r: Option<
    Result<Gesture, RpcError>,
>)
    ensures
        gesture_outcome(r) == gesture_for(method@, optional_ref_view(params), *readings),
{
    if same(method, "browser.click") {
        Some(Ok(Gesture::Click))
    } else if same(method, "browser.dblclick") {
        Some(Ok(Gesture::DoubleClick))
    } else if same(method, "browser.hover") {
        Some(Ok(Gesture::Hover))
    } else if same(method, "browser.focus") {
        Some(Ok(Gesture::Focus))
    } else if same(method, "browser.fill") {
        match require(optional_string_any2(params, "text", "value"), "text") {
            Ok(t) => Some(Ok(Gesture::Fill(t))),
            Err(e) => Some(Err(e)),
        }
    } else if same(method, "browser.type") {
        match require(optional_string_any2(params, "text", "value"), "text") {
            Ok(t) => Some(Ok(Gesture::Type(t))),
            Err(e) => Some(Err(e)),
        }
    } else if same(method, "browser.check") {
        Some(Ok(Gesture::Check))
    } else if same(method, "browser.uncheck") {
        Some(Ok(Gesture::Uncheck))
    } else if same(method, "browser.select") {
        match require(optional_string_param(params, "value"), "value") {
            Ok(t) => Some(Ok(Gesture::Select(t))),
            Err(e) => Some(Err(e)),
        }
    } else if same(method, "browser.scroll") && optional_string_param(params, "selector").is_some() {
        Some(Ok(Gesture::Scroll(scroll_param(params, readings))))
    } else if same(method, "browser.scroll_into_view") {
        Some(Ok(Gesture::ScrollIntoView))
    } else {
        None
    }
}

} // verus!
