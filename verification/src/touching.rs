//! What gestures do to a page that no live one stands for, and what is read of
//! it.

use crate::acting::{acted, gesture_for, gestured, key_counted, page_scrolled, ActView};
use crate::app_state::AppView;
use crate::automation::{automated, automation_act, automation_place, showing};
use crate::echoes::lemma_page_place;
use crate::host::{ReplyView, ScriptView, StepView};
use crate::json::{lemma_with_get, JsonView};
use crate::keyed::{law_put_then_lookup, lookup};
use crate::locate::lemma_surface_at;
use crate::model::SurfaceView;
use crate::page::{ElementView, PageView};
use crate::query::{element_id, element_named, page_snapshot, page_text};
use crate::reading::{box_reading, get_reading, is_reading, read_step};
use crate::rpc::{param, text1, text2, Readings};
use crate::script::{GestureView, KeyPhase};
use crate::text::has_prefix;
use vstd::prelude::*;

verus! {

// ---------------------------------------------------------------------------
// Gestures

/// The selector of the element with an id.
pub open spec fn by_id(id: Seq<char>) -> Seq<char> {
    seq!['#'] + id
}

/// Whether a page is another one in which one element is another.
pub open spec fn only_differs_at(
    before: PageView,
    after: PageView,
    id: Seq<char>,
    now: ElementView,
) -> bool {
    &&& lookup(after.elements, id) == Some(now)
    &&& forall|other: Seq<char>|
        other != id ==> #[trigger] lookup(after.elements, other) == lookup(before.elements, other)
    &&& after == (PageView { elements: after.elements, ..before })
}

/// A selector by id names the element with that id.
pub proof fn lemma_by_id(page: PageView, id: Seq<char>)
    requires
        lookup(page.elements, id) is Some,
    ensures
        element_id(page, by_id(id)) == Ok::<Seq<char>, crate::rpc::ErrorView>(id),
        element_named(page, by_id(id)) == Ok::<ElementView, crate::rpc::ErrorView>(
            lookup(page.elements, id)->0,
        ),
{
    reveal_strlit("#");
    assert("#"@ =~= seq!['#']);
    assert(by_id(id).take(1) =~= "#"@);
    assert(by_id(id).skip(1) =~= id);
}

/// An element put in the place of one.
proof fn lemma_element_put(page: PageView, id: Seq<char>, now: ElementView)
    ensures
        only_differs_at(page, page.with_element(id, now), id, now),
{
    let after = page.with_element(id, now);
    assert forall|other: Seq<char>| other != id implies #[trigger] lookup(after.elements, other)
        == lookup(page.elements, other) by {
        law_put_then_lookup(page.elements, id, now, other);
    }
    law_put_then_lookup(page.elements, id, now, id);
}

/// A gesture changes the element that it is made on as it says, and nothing else
/// of the page: filling and selecting set the value, typing adds to it, checking
/// and unchecking set the check, and scrolling moves by the distance.
pub proof fn law_gestures_change_their_element(
    page: PageView,
    id: Seq<char>,
    text: Seq<char>,
    dy: i64,
)
    requires
        lookup(page.elements, id) is Some,
    ensures
        ({
            let e = lookup(page.elements, id)->0;
            &&& gestured(page, by_id(id), GestureView::Fill(text)) matches Ok(p) && only_differs_at(
                page,
                p,
                id,
                ElementView { value: text, ..e },
            )
            &&& gestured(page, by_id(id), GestureView::Select(text)) matches Ok(p)
                && only_differs_at(page, p, id, ElementView { value: text, ..e })
            &&& gestured(page, by_id(id), GestureView::Type(text)) matches Ok(p) && only_differs_at(
                page,
                p,
                id,
                ElementView { value: e.value + text, ..e },
            )
            &&& gestured(page, by_id(id), GestureView::Check) matches Ok(p) && only_differs_at(
                page,
                p,
                id,
                ElementView { checked: true, ..e },
            )
            &&& gestured(page, by_id(id), GestureView::Uncheck) matches Ok(p) && only_differs_at(
                page,
                p,
                id,
                ElementView { checked: false, ..e },
            )
            &&& i64::MIN <= e.scroll_top + dy <= i64::MAX ==> (gestured(
                page,
                by_id(id),
                GestureView::Scroll(dy),
            ) matches Ok(p) && only_differs_at(
                page,
                p,
                id,
                ElementView { scroll_top: (e.scroll_top + dy) as i64, ..e },
            ))
            &&& gestured(page, by_id(id), GestureView::Focus) matches Ok(p) && p == (PageView {
                active_element_id: Some(id),
                ..page
            })
            &&& gestured(page, by_id(id), GestureView::ScrollIntoView) matches Ok(p) && p == page
        }),
{
    let e = lookup(page.elements, id)->0;
    lemma_by_id(page, id);
    lemma_element_put(page, id, ElementView { value: text, ..e });
    lemma_element_put(page, id, ElementView { value: e.value + text, ..e });
    lemma_element_put(page, id, ElementView { checked: true, ..e });
    lemma_element_put(page, id, ElementView { checked: false, ..e });
    lemma_element_put(
        page,
        id,
        ElementView { scroll_top: crate::acting::moved_by(e.scroll_top, dy), ..e },
    );
}

/// A gesture on an element that is not there is refused.
pub proof fn law_gestures_need_their_element(page: PageView, selector: Seq<char>, g: GestureView)
    requires
        !crate::patience::has_element(page, selector),
    ensures
        gestured(page, selector, g) matches Err(e) && e.code == -32004,
{
    crate::patience::law_a_selector_names_what_is_there(page, selector);
}

/// Clicks count where the page counts them: a double click on `#dbl`, a pointer
/// over `#hover`. A click on `#btn` writes what stands in the field `name` to
/// `status` and `out`. Other clicks leave the page as it is.
pub proof fn law_clicks_are_counted(page: PageView, id: Seq<char>)
    requires
        lookup(page.elements, id) is Some,
    ensures
        ({
            let click = gestured(page, by_id(id), GestureView::Click);
            let double = gestured(page, by_id(id), GestureView::DoubleClick);
            let hover = gestured(page, by_id(id), GestureView::Hover);
            &&& click is Ok && double is Ok && hover is Ok
            &&& id != "btn"@ ==> click->Ok_0 == page
            &&& id != "dbl"@ ==> double->Ok_0 == page
            &&& id != "hover"@ ==> hover->Ok_0 == page
            &&& id == "dbl"@ && page.dbl_count < u64::MAX ==> double->Ok_0 == (PageView {
                dbl_count: (page.dbl_count + 1) as u64,
                ..page
            })
            &&& id == "hover"@ && page.hover_count < u64::MAX ==> hover->Ok_0 == (PageView {
                hover_count: (page.hover_count + 1) as u64,
                ..page
            })
            &&& id == "btn"@ ==> (lookup(page.elements, "name"@) matches Some(name)
                ==> name.value.len() > 0 ==> {
                let p = click->Ok_0;
                &&& lookup(page.elements, "status"@) is Some ==> (lookup(
                    p.elements,
                    "status"@,
                ) matches Some(s) && s.text == name.value)
                &&& lookup(page.elements, "out"@) is Some ==> (lookup(
                    p.elements,
                    "out"@,
                ) matches Some(s) && s.text == name.value)
                &&& lookup(p.elements, "name"@) == Some(name)
            })
        }),
{
    lemma_by_id(page, id);
    reveal_strlit("#btn");
    reveal_strlit("#dbl");
    reveal_strlit("#hover");
    reveal_strlit("btn");
    reveal_strlit("dbl");
    reveal_strlit("hover");
    reveal_strlit("status");
    reveal_strlit("out");
    reveal_strlit("name");
    assert("status"@.len() == 6 && "out"@.len() == 3 && "name"@.len() == 4);
    assert(by_id("btn"@) =~= "#btn"@);
    assert(by_id("dbl"@) =~= "#dbl"@);
    assert(by_id("hover"@) =~= "#hover"@);
    assert(by_id(id).skip(1) =~= id);
    assert("#btn"@.skip(1) =~= "btn"@);
    assert("#dbl"@.skip(1) =~= "dbl"@);
    assert("#hover"@.skip(1) =~= "hover"@);
    if let Some(name) = lookup(page.elements, "name"@) {
        let value = name.value;
        let half = crate::acting::with_text(page, "status"@, value);
        if let Some(s) = lookup(page.elements, "status"@) {
            lemma_element_put(page, "status"@, ElementView { text: value, ..s });
        }
        if let Some(o) = lookup(half.elements, "out"@) {
            lemma_element_put(half, "out"@, ElementView { text: value, ..o });
        }
    }
}

/// A key that is pressed goes down, presses and comes up, once each; a key that
/// goes down or comes up does only that.
pub proof fn law_keys_are_counted(page: PageView)
    requires
        page.key_down_count < u64::MAX,
        page.key_up_count < u64::MAX,
        page.key_press_count < u64::MAX,
    ensures
        ({
            let down = key_counted(page, KeyPhase::Down);
            let up = key_counted(page, KeyPhase::Up);
            let press = key_counted(page, KeyPhase::Press);
            &&& down.key_down_count == page.key_down_count + 1
            &&& down.key_up_count == page.key_up_count
            &&& down.key_press_count == page.key_press_count
            &&& up.key_up_count == page.key_up_count + 1
            &&& up.key_down_count == page.key_down_count
            &&& up.key_press_count == page.key_press_count
            &&& press.key_down_count == page.key_down_count + 1
            &&& press.key_up_count == page.key_up_count + 1
            &&& press.key_press_count == page.key_press_count + 1
            &&& down.elements == page.elements && up.elements == page.elements && press.elements
                == page.elements
        }),
{
}

/// Scrolling a page adds the distance to where it is; nothing is lost unless it
/// runs over.
pub proof fn law_scrolling_adds_up(page: PageView, dy: i64)
    requires
        i64::MIN <= page.page_scroll_y + dy <= i64::MAX,
    ensures
        page_scrolled(page, dy) == (PageView {
            page_scroll_y: (page.page_scroll_y + dy) as i64,
            ..page
        }),
{
}

// ---------------------------------------------------------------------------
// Requests

/// What tells the names of the requests for pages apart: their lengths and
/// characters after the first word.
proof fn lemma_act_names()
    ensures
        "browser.snapshot"@.len() == 16,
        "browser.snapshot"@[8] == 's' && "browser.snapshot"@[9] == 'n'
            && "browser.snapshot"@[10] == 'a',
        "browser.eval"@.len() == 12,
        "browser.eval"@[8] == 'e' && "browser.eval"@[9] == 'v' && "browser.eval"@[10] == 'a',
        "browser.wait"@.len() == 12,
        "browser.wait"@[8] == 'w' && "browser.wait"@[9] == 'a' && "browser.wait"@[10] == 'i',
        "browser.press"@.len() == 13,
        "browser.press"@[8] == 'p' && "browser.press"@[9] == 'r' && "browser.press"@[10] == 'e',
        "browser.keydown"@.len() == 15,
        "browser.keydown"@[8] == 'k' && "browser.keydown"@[9] == 'e'
            && "browser.keydown"@[10] == 'y',
        "browser.keyup"@.len() == 13,
        "browser.keyup"@[8] == 'k' && "browser.keyup"@[9] == 'e' && "browser.keyup"@[10] == 'y',
        "browser.click"@.len() == 13,
        "browser.click"@[8] == 'c' && "browser.click"@[9] == 'l' && "browser.click"@[10] == 'i',
        "browser.dblclick"@.len() == 16,
        "browser.dblclick"@[8] == 'd' && "browser.dblclick"@[9] == 'b'
            && "browser.dblclick"@[10] == 'l',
        "browser.hover"@.len() == 13,
        "browser.hover"@[8] == 'h' && "browser.hover"@[9] == 'o' && "browser.hover"@[10] == 'v',
        "browser.focus"@.len() == 13,
        "browser.focus"@[8] == 'f' && "browser.focus"@[9] == 'o' && "browser.focus"@[10] == 'c',
        "browser.fill"@.len() == 12,
        "browser.fill"@[8] == 'f' && "browser.fill"@[9] == 'i' && "browser.fill"@[10] == 'l',
        "browser.type"@.len() == 12,
        "browser.type"@[8] == 't' && "browser.type"@[9] == 'y' && "browser.type"@[10] == 'p',
        "browser.check"@.len() == 13,
        "browser.check"@[8] == 'c' && "browser.check"@[9] == 'h' && "browser.check"@[10] == 'e',
        "browser.uncheck"@.len() == 15,
        "browser.uncheck"@[8] == 'u' && "browser.uncheck"@[9] == 'n'
            && "browser.uncheck"@[10] == 'c',
        "browser.select"@.len() == 14,
        "browser.select"@[8] == 's' && "browser.select"@[9] == 'e' && "browser.select"@[10] == 'l',
        "browser.scroll"@.len() == 14,
        "browser.scroll"@[8] == 's' && "browser.scroll"@[9] == 'c' && "browser.scroll"@[10] == 'r',
        "browser.scroll_into_view"@.len() == 24,
        "browser.scroll_into_view"@[8] == 's' && "browser.scroll_into_view"@[9] == 'c'
            && "browser.scroll_into_view"@[10] == 'r',
        "browser.screenshot"@.len() == 18,
        "browser.screenshot"@[8] == 's' && "browser.screenshot"@[9] == 'c'
            && "browser.screenshot"@[10] == 'r',
{
    reveal_strlit("browser.snapshot");
    reveal_strlit("browser.eval");
    reveal_strlit("browser.wait");
    reveal_strlit("browser.press");
    reveal_strlit("browser.keydown");
    reveal_strlit("browser.keyup");
    reveal_strlit("browser.click");
    reveal_strlit("browser.dblclick");
    reveal_strlit("browser.hover");
    reveal_strlit("browser.focus");
    reveal_strlit("browser.fill");
    reveal_strlit("browser.type");
    reveal_strlit("browser.check");
    reveal_strlit("browser.uncheck");
    reveal_strlit("browser.select");
    reveal_strlit("browser.scroll");
    reveal_strlit("browser.scroll_into_view");
    reveal_strlit("browser.screenshot");
}

/// What tells the names of the requests that read apart, and how they start.
proof fn lemma_read_names()
    ensures
        "browser.get.title"@.len() == 17,
        "browser.get.title"@[8] == 'g' && "browser.get.title"@[9] == 'e'
            && "browser.get.title"@[10] == 't' && "browser.get.title"@[12] == 't'
            && "browser.get.title"@[13] == 'i',
        "browser.get.text"@.len() == 16,
        "browser.get.text"@[8] == 'g' && "browser.get.text"@[9] == 'e'
            && "browser.get.text"@[10] == 't' && "browser.get.text"@[12] == 't'
            && "browser.get.text"@[13] == 'e',
        "browser.get.html"@.len() == 16,
        "browser.get.html"@[8] == 'g' && "browser.get.html"@[9] == 'e'
            && "browser.get.html"@[10] == 't' && "browser.get.html"@[12] == 'h'
            && "browser.get.html"@[13] == 't',
        "browser.get.value"@.len() == 17,
        "browser.get.value"@[8] == 'g' && "browser.get.value"@[9] == 'e'
            && "browser.get.value"@[10] == 't' && "browser.get.value"@[12] == 'v'
            && "browser.get.value"@[13] == 'a',
        "browser.get.attr"@.len() == 16,
        "browser.get.attr"@[8] == 'g' && "browser.get.attr"@[9] == 'e'
            && "browser.get.attr"@[10] == 't' && "browser.get.attr"@[12] == 'a'
            && "browser.get.attr"@[13] == 't',
        "browser.get.count"@.len() == 17,
        "browser.get.count"@[8] == 'g' && "browser.get.count"@[9] == 'e'
            && "browser.get.count"@[10] == 't' && "browser.get.count"@[12] == 'c'
            && "browser.get.count"@[13] == 'o',
        "browser.is.visible"@.len() == 18,
        "browser.is.visible"@[8] == 'i' && "browser.is.visible"@[9] == 's'
            && "browser.is.visible"@[10] == '.' && "browser.is.visible"@[11] == 'v'
            && "browser.is.visible"@[12] == 'i',
        "browser.is.enabled"@.len() == 18,
        "browser.is.enabled"@[8] == 'i' && "browser.is.enabled"@[9] == 's'
            && "browser.is.enabled"@[10] == '.' && "browser.is.enabled"@[11] == 'e'
            && "browser.is.enabled"@[12] == 'n',
        "browser.is.checked"@.len() == 18,
        "browser.is.checked"@[8] == 'i' && "browser.is.checked"@[9] == 's'
            && "browser.is.checked"@[10] == '.' && "browser.is.checked"@[11] == 'c'
            && "browser.is.checked"@[12] == 'h',
        has_prefix("browser.get.title"@, "browser.get."@),
        has_prefix("browser.get.text"@, "browser.get."@),
        has_prefix("browser.get.html"@, "browser.get."@),
        has_prefix("browser.get.value"@, "browser.get."@),
        has_prefix("browser.get.attr"@, "browser.get."@),
        has_prefix("browser.get.count"@, "browser.get."@),
        has_prefix("browser.is.visible"@, "browser.is."@),
        has_prefix("browser.is.enabled"@, "browser.is."@),
        has_prefix("browser.is.checked"@, "browser.is."@),
        !has_prefix("browser.is.visible"@, "browser.get."@),
        !has_prefix("browser.is.enabled"@, "browser.get."@),
        !has_prefix("browser.is.checked"@, "browser.get."@),
{
    reveal_strlit("browser.get.title");
    reveal_strlit("browser.get.text");
    reveal_strlit("browser.get.html");
    reveal_strlit("browser.get.value");
    reveal_strlit("browser.get.attr");
    reveal_strlit("browser.get.count");
    reveal_strlit("browser.is.visible");
    reveal_strlit("browser.is.enabled");
    reveal_strlit("browser.is.checked");
    reveal_strlit("browser.get.");
    reveal_strlit("browser.is.");
    assert("browser.get."@[8] == 'g');
    assert("browser.get.title"@.take(12) =~= "browser.get."@);
    assert("browser.get.text"@.take(12) =~= "browser.get."@);
    assert("browser.get.html"@.take(12) =~= "browser.get."@);
    assert("browser.get.value"@.take(12) =~= "browser.get."@);
    assert("browser.get.attr"@.take(12) =~= "browser.get."@);
    assert("browser.get.count"@.take(12) =~= "browser.get."@);
    assert("browser.is.visible"@.take(11) =~= "browser.is."@);
    assert("browser.is.enabled"@.take(11) =~= "browser.is."@);
    assert("browser.is.checked"@.take(11) =~= "browser.is."@);
    assert("browser.is.visible"@.take(12)[8] == 'i');
    assert("browser.is.enabled"@.take(12)[8] == 'i');
    assert("browser.is.checked"@.take(12)[8] == 'i');
}

/// The reply of a view that is not live.
pub open spec fn dead() -> Seq<ReplyView> {
    seq![ReplyView::Script(ScriptView::NotLive)]
}

/// Each request for a gesture makes its own gesture, with what the request says.
pub proof fn law_requests_make_their_gestures(params: Option<JsonView>, readings: Readings)
    ensures
        gesture_for("browser.click"@, params, readings) == Some(
            Ok::<GestureView, crate::rpc::ErrorView>(GestureView::Click),
        ),
        gesture_for("browser.dblclick"@, params, readings) == Some(
            Ok::<GestureView, crate::rpc::ErrorView>(GestureView::DoubleClick),
        ),
        gesture_for("browser.hover"@, params, readings) == Some(
            Ok::<GestureView, crate::rpc::ErrorView>(GestureView::Hover),
        ),
        gesture_for("browser.focus"@, params, readings) == Some(
            Ok::<GestureView, crate::rpc::ErrorView>(GestureView::Focus),
        ),
        gesture_for("browser.check"@, params, readings) == Some(
            Ok::<GestureView, crate::rpc::ErrorView>(GestureView::Check),
        ),
        gesture_for("browser.uncheck"@, params, readings) == Some(
            Ok::<GestureView, crate::rpc::ErrorView>(GestureView::Uncheck),
        ),
        gesture_for("browser.scroll_into_view"@, params, readings) == Some(
            Ok::<GestureView, crate::rpc::ErrorView>(GestureView::ScrollIntoView),
        ),
        text2(params, "text"@, "value"@) matches Some(t) ==> gesture_for(
            "browser.fill"@,
            params,
            readings,
        ) == Some(Ok::<GestureView, crate::rpc::ErrorView>(GestureView::Fill(t))),
        text2(params, "text"@, "value"@) matches Some(t) ==> gesture_for(
            "browser.type"@,
            params,
            readings,
        ) == Some(Ok::<GestureView, crate::rpc::ErrorView>(GestureView::Type(t))),
        text1(params, "value"@) matches Some(t) ==> gesture_for("browser.select"@, params, readings)
            == Some(Ok::<GestureView, crate::rpc::ErrorView>(GestureView::Select(t))),
        param(params, "dy"@) is Some && text1(params, "selector"@) is Some ==> (
        readings.dy matches Some(dy) ==> gesture_for("browser.scroll"@, params, readings) == Some(
            Ok::<GestureView, crate::rpc::ErrorView>(GestureView::Scroll(dy)),
        )),
{
    lemma_act_names();
}

/// The requests for gestures and readings come to their gestures and readings.
proof fn lemma_page_requests(
    surface: SurfaceView,
    params: Option<JsonView>,
    readings: Readings,
    replies: Seq<ReplyView>,
    method: Seq<char>,
)
    ensures
        method == "browser.fill"@ || method == "browser.type"@ || method == "browser.select"@
            || method == "browser.check"@ || method == "browser.uncheck"@ ==> automation_act(
            surface,
            method,
            params,
            readings,
            replies,
        ) == crate::automation::requested_gesture_act(
            surface,
            gesture_for(method, params, readings)->0,
            params,
            replies,
        ),
        method == "browser.get.value"@ || method == "browser.get.text"@ || method
            == "browser.get.title"@ || method == "browser.get.html"@ || method == "browser.get.attr"@
            || method == "browser.get.count"@ ==> automation_act(
            surface,
            method,
            params,
            readings,
            replies,
        ) == crate::automation::step_act(
            read_step(surface.id, get_reading(surface.browser_state, method, params), replies),
            surface.browser_state,
        ),
        method == "browser.is.visible"@ || method == "browser.is.enabled"@ || method
            == "browser.is.checked"@ ==> automation_act(surface, method, params, readings, replies)
            == crate::automation::step_act(
            read_step(surface.id, is_reading(surface.browser_state, method, params), replies),
            surface.browser_state,
        ),
{
    lemma_act_names();
    lemma_read_names();
    law_requests_make_their_gestures(params, readings);
}

/// What is read of an element by its id without a live page is what it is: its
/// value, its text, its markup, its attributes; whether it is visible, enabled
/// and checked. Of the page it is its title, its text and its markup.
pub proof fn law_readings_say_what_is_there(
    surface_id: Seq<char>,
    page: PageView,
    id: Seq<char>,
    params: Option<JsonView>,
)
    requires
        lookup(page.elements, id) is Some,
        text1(params, "selector"@) == Some(by_id(id)),
    ensures
        ({
            let e = lookup(page.elements, id)->0;
            let get = |what: Seq<char>| read_step(surface_id, get_reading(page, what, params), dead());
            let is = |what: Seq<char>| read_step(surface_id, is_reading(page, what, params), dead());
            &&& answers(get("browser.get.value"@), "value"@, JsonView::Text(e.value))
            &&& answers(get("browser.get.text"@), "text"@, JsonView::Text(e.text))
            &&& answers(get("browser.get.html"@), "html"@, JsonView::Text(e.html))
            &&& answers(get("browser.get.title"@), "title"@, JsonView::Text(page.title))
            &&& answers(is("browser.is.visible"@), "value"@, JsonView::Bool(e.visible))
            &&& answers(is("browser.is.enabled"@), "value"@, JsonView::Bool(!e.disabled))
            &&& answers(is("browser.is.checked"@), "value"@, JsonView::Bool(e.checked))
            &&& text2(params, "attr"@, "name"@) matches Some(attr) ==> (lookup(
                e.attrs,
                attr,
            ) matches Some(v) ==> answers(get("browser.get.attr"@), "value"@, JsonView::Text(v)))
        }),
{
    broadcast use lemma_with_get;

    lemma_by_id(page, id);
    lemma_read_names();
    lemma_keys();
    assert(dead()[0] == ReplyView::Script(ScriptView::NotLive));
}

/// Whether a request is answered with a value under a key, and that without a
/// live page.
pub open spec fn answers(step: StepView, key: Seq<char>, value: JsonView) -> bool {
    step matches StepView::Done(Ok(v)) && v.get(key) == Some(value)
        && v.get("live_webview"@) == Some(
        JsonView::Bool(false),
    )
}

/// What tells the keys of the answers apart.
proof fn lemma_keys()
    ensures
        "surface_id"@.len() == 10,
        "value"@.len() == 5,
        "text"@.len() == 4,
        "html"@.len() == 4,
        "title"@.len() == 5,
        "attr"@.len() == 4,
        "live_webview"@.len() == 12,
        "value"@[0] == 'v' && "text"@[0] == 't' && "html"@[0] == 'h' && "title"@[0] == 't'
            && "attr"@[0] == 'a',
{
    reveal_strlit("surface_id");
    reveal_strlit("value");
    reveal_strlit("text");
    reveal_strlit("html");
    reveal_strlit("title");
    reveal_strlit("attr");
    reveal_strlit("live_webview");
}

/// The text, the markup and the title of a page without a live view are those of
/// the page.
pub proof fn law_readings_say_what_the_page_is(
    surface_id: Seq<char>,
    page: PageView,
    params: Option<JsonView>,
)
    requires
        text1(params, "selector"@) is None,
    ensures
        answers(
            read_step(surface_id, get_reading(page, "browser.get.text"@, params), dead()),
            "text"@,
            JsonView::Text(page_text(page)),
        ),
        answers(
            read_step(surface_id, get_reading(page, "browser.get.html"@, params), dead()),
            "html"@,
            JsonView::Text(page.html),
        ),
        answers(
            read_step(surface_id, get_reading(page, "browser.get.title"@, params), dead()),
            "title"@,
            JsonView::Text(page.title),
        ),
{
    broadcast use lemma_with_get;

    lemma_read_names();
    lemma_keys();
    assert(dead()[0] == ReplyView::Script(ScriptView::NotLive));
}

/// What a live page says takes the place of what is known.
pub proof fn law_a_live_page_is_believed(
    surface_id: Seq<char>,
    page: PageView,
    params: Option<JsonView>,
    text: Seq<char>,
)
    requires
        text1(params, "selector"@) is Some,
    ensures
        ({
            let live = seq![ReplyView::Script(ScriptView::Text(text))];
            read_step(
                surface_id,
                get_reading(page, "browser.get.value"@, params),
                live,
            ) matches StepView::Done(Ok(v)) && v.get("value"@) == Some(
                crate::host::script_value(text),
            ) && v.get("live_webview"@) == Some(JsonView::Bool(true))
        }),
{
    broadcast use lemma_with_get;

    lemma_read_names();
    lemma_keys();
    let live = seq![ReplyView::Script(ScriptView::Text(text))];
    assert(live[0] == ReplyView::Script(ScriptView::Text(text)));
}

/// An answer of a live page that is of no use does not count: a condition needs a
/// truth value, the box of an element something other than null, and a search a
/// selector. What is known is told then, as without a live page.
pub proof fn law_answers_of_no_use_do_not_count(
    surface_id: Seq<char>,
    page: PageView,
    params: Option<JsonView>,
    selector: Seq<char>,
    text: Seq<char>,
)
    ensures
        ({
            let live = seq![ReplyView::Script(ScriptView::Text(text))];
            let value = crate::host::script_value(text);
            &&& value !is Bool ==> read_step(
                surface_id,
                is_reading(page, "browser.is.visible"@, params),
                live,
            ) == read_step(surface_id, is_reading(page, "browser.is.visible"@, params), dead())
            &&& value !is Bool ==> read_step(
                surface_id,
                is_reading(page, "browser.is.checked"@, params),
                live,
            ) == read_step(surface_id, is_reading(page, "browser.is.checked"@, params), dead())
            &&& value !is Bool ==> read_step(
                surface_id,
                is_reading(page, "browser.is.enabled"@, params),
                live,
            ) == read_step(surface_id, is_reading(page, "browser.is.enabled"@, params), dead())
            &&& value is Null ==> read_step(surface_id, Ok(box_reading(page, selector)), live)
                == read_step(surface_id, Ok(box_reading(page, selector)), dead())
            &&& !(value matches JsonView::Text(t) && t.len() > 0) ==> read_step(
                surface_id,
                Ok(crate::finding::find_reading(page, "browser.find.first"@, params)),
                live,
            ) == read_step(
                surface_id,
                Ok(crate::finding::find_reading(page, "browser.find.first"@, params)),
                dead(),
            )
        }),
{
    lemma_read_names();
    let live = seq![ReplyView::Script(ScriptView::Text(text))];
    assert(live[0] == ReplyView::Script(ScriptView::Text(text)));
    assert(dead()[0] == ReplyView::Script(ScriptView::NotLive));
}

/// Without a live page the snapshot is of what is known, also the one that is
/// asked for after an action: it is of the page as the action left it.
pub proof fn law_snapshots_are_of_the_page(
    surface: SurfaceView,
    params: Option<JsonView>,
    readings: Readings,
    after: PageView,
    live: bool,
)
    ensures
        automation_act(surface, "browser.snapshot"@, params, readings, dead()) == ActView::Done(
            surface.browser_state,
            page_snapshot(surface.id, surface.browser_state),
        ),
        param(params, "snapshot_after"@) == Some(JsonView::Bool(true)) ==> (acted(
            surface.id,
            after,
            params,
            live,
            dead(),
            0,
        ) matches ActView::Done(page, told) && page == after && told.get("post_action_snapshot"@)
            == Some(page_snapshot(surface.id, after)) && told.get("live_webview"@) == Some(
            JsonView::Bool(live),
        )),
        param(params, "snapshot_after"@) is None ==> (acted(
            surface.id,
            after,
            params,
            live,
            dead(),
            0,
        ) matches ActView::Done(page, told) && page == after && told.get("post_action_snapshot"@) is None),
{
    broadcast use lemma_with_get;

    lemma_keys();
    reveal_strlit("ok");
    reveal_strlit("post_action_snapshot");
    assert("ok"@.len() == 2 && "post_action_snapshot"@.len() == 20);
    assert(dead()[0] == ReplyView::Script(ScriptView::NotLive));
}

/// A gesture request on an element by its id, without a live page.
proof fn lemma_made(
    app: AppView,
    method: Seq<char>,
    params: Option<JsonView>,
    readings: Readings,
    g: GestureView,
    id: Seq<char>,
)
    requires
        method == "browser.fill"@ || method == "browser.type"@ || method == "browser.select"@
            || method == "browser.check"@ || method == "browser.uncheck"@,
        gesture_for(method, params, readings) == Some(Ok::<GestureView, crate::rpc::ErrorView>(g)),
        text1(params, "selector"@) == Some(by_id(id)),
        param(params, "snapshot_after"@) is None,
        automation_place(app, params) matches Ok((w, i)) && gestured(
            app.state.workspaces[w].surfaces[i].browser_state,
            by_id(id),
            g,
        ) is Ok,
    ensures
        ({
            let (w, i) = automation_place(app, params)->Ok_0;
            let surface = app.state.workspaces[w].surfaces[i];
            let after = automated(app, method, params, readings, dead()).app;
            &&& 0 <= w < app.state.workspaces.len()
            &&& 0 <= i < app.state.workspaces[w].surfaces.len()
            &&& automation_place(after, params) == automation_place(app, params)
            &&& after.state.workspaces[w].surfaces[i] == showing(
                surface,
                gestured(surface.browser_state, by_id(id), g)->Ok_0,
            )
        }),
{
    let (w, i) = automation_place(app, params)->Ok_0;
    let target = crate::input::target_surface(app.state, params)->Ok_0;
    lemma_surface_at(app.state, target);
    let surface = app.state.workspaces[w].surfaces[i];
    lemma_page_requests(surface, params, readings, dead(), method);
    assert(dead()[0] == ReplyView::Script(ScriptView::NotLive));
    let page = gestured(surface.browser_state, by_id(id), g)->Ok_0;
    lemma_page_place(app, w, i, page, params);
}

/// The browser that a request is for, and the element on its page that it names
/// by its id.
pub open spec fn is_for_element(app: AppView, params: Option<JsonView>, id: Seq<char>) -> bool {
    &&& text1(params, "selector"@) == Some(by_id(id))
    &&& param(params, "snapshot_after"@) is None
    &&& automation_place(app, params) matches Ok((w, i)) && lookup(
        app.state.workspaces[w].surfaces[i].browser_state.elements,
        id,
    ) is Some
}

/// What was written into a field is read back from it: what it was filled with,
/// what was selected, and what was typed behind what stood there.
pub proof fn law_written_values_are_read_back(
    app: AppView,
    params: Option<JsonView>,
    readings: Readings,
    id: Seq<char>,
    text: Seq<char>,
)
    requires
        is_for_element(app, params, id),
        text2(params, "text"@, "value"@) == Some(text),
    ensures
        ({
            let (w, i) = automation_place(app, params)->Ok_0;
            let e = lookup(app.state.workspaces[w].surfaces[i].browser_state.elements, id)->0;
            let filled = automated(app, "browser.fill"@, params, readings, dead()).app;
            let typed = automated(app, "browser.type"@, params, readings, dead()).app;
            let selected = automated(app, "browser.select"@, params, readings, dead()).app;
            &&& answers(
                automated(filled, "browser.get.value"@, params, readings, dead()).step,
                "value"@,
                JsonView::Text(text),
            )
            &&& answers(
                automated(typed, "browser.get.value"@, params, readings, dead()).step,
                "value"@,
                JsonView::Text(e.value + text),
            )
            &&& text1(params, "value"@) == Some(text) ==> answers(
                automated(selected, "browser.get.value"@, params, readings, dead()).step,
                "value"@,
                JsonView::Text(text),
            )
        }),
{
    let (w, i) = automation_place(app, params)->Ok_0;
    let surface = app.state.workspaces[w].surfaces[i];
    let page = surface.browser_state;
    law_requests_make_their_gestures(params, readings);
    law_gestures_change_their_element(page, id, text, 0);
    lemma_written(app, "browser.fill"@, params, readings, GestureView::Fill(text), id);
    lemma_written(app, "browser.type"@, params, readings, GestureView::Type(text), id);
    if text1(params, "value"@) == Some(text) {
        lemma_written(app, "browser.select"@, params, readings, GestureView::Select(text), id);
    }
}

/// What is read after a gesture.
proof fn lemma_written(
    app: AppView,
    method: Seq<char>,
    params: Option<JsonView>,
    readings: Readings,
    g: GestureView,
    id: Seq<char>,
)
    requires
        is_for_element(app, params, id),
        method == "browser.fill"@ || method == "browser.type"@ || method == "browser.select"@
            || method == "browser.check"@ || method == "browser.uncheck"@,
        gesture_for(method, params, readings) == Some(Ok::<GestureView, crate::rpc::ErrorView>(g)),
        automation_place(app, params) matches Ok((w, i)) && gestured(
            app.state.workspaces[w].surfaces[i].browser_state,
            by_id(id),
            g,
        ) matches Ok(p) && lookup(p.elements, id) is Some,
    ensures
        ({
            let (w, i) = automation_place(app, params)->Ok_0;
            let p = gestured(app.state.workspaces[w].surfaces[i].browser_state, by_id(id), g)->Ok_0;
            let now = lookup(p.elements, id)->0;
            let after = automated(app, method, params, readings, dead()).app;
            &&& answers(
                automated(after, "browser.get.value"@, params, readings, dead()).step,
                "value"@,
                JsonView::Text(now.value),
            )
            &&& answers(
                automated(after, "browser.is.checked"@, params, readings, dead()).step,
                "value"@,
                JsonView::Bool(now.checked),
            )
        }),
{
    let (w, i) = automation_place(app, params)->Ok_0;
    let surface = app.state.workspaces[w].surfaces[i];
    let p = gestured(surface.browser_state, by_id(id), g)->Ok_0;
    lemma_made(app, method, params, readings, g, id);
    let after = automated(app, method, params, readings, dead()).app;
    let now = after.state.workspaces[w].surfaces[i];
    lemma_page_requests(now, params, readings, dead(), "browser.get.value"@);
    lemma_page_requests(now, params, readings, dead(), "browser.is.checked"@);
    law_readings_say_what_is_there(now.id, p, id, params);
}

/// A box that was checked is checked, and one that was unchecked is not.
pub proof fn law_checks_are_read_back(
    app: AppView,
    params: Option<JsonView>,
    readings: Readings,
    id: Seq<char>,
)
    requires
        is_for_element(app, params, id),
    ensures
        ({
            let checked = automated(app, "browser.check"@, params, readings, dead()).app;
            let unchecked = automated(app, "browser.uncheck"@, params, readings, dead()).app;
            &&& answers(
                automated(checked, "browser.is.checked"@, params, readings, dead()).step,
                "value"@,
                JsonView::Bool(true),
            )
            &&& answers(
                automated(unchecked, "browser.is.checked"@, params, readings, dead()).step,
                "value"@,
                JsonView::Bool(false),
            )
        }),
{
    let (w, i) = automation_place(app, params)->Ok_0;
    let page = app.state.workspaces[w].surfaces[i].browser_state;
    law_requests_make_their_gestures(params, readings);
    law_gestures_change_their_element(page, id, Seq::empty(), 0);
    lemma_written(app, "browser.check"@, params, readings, GestureView::Check, id);
    lemma_written(app, "browser.uncheck"@, params, readings, GestureView::Uncheck, id);
}

} // verus!
