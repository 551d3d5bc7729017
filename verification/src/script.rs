//! The scripts that a live page is given.

use crate::json::{js_string_literal, quoted};
use crate::text::{join2, join3, owned, signed_decimal, signed_decimal_of};
use vstd::prelude::*;

verus! {

/// The function with which a script names an element by a selector.
pub const SELECTOR_FUNCTION: &'static str = "const cmuxEscape = (value) => globalThis.CSS && CSS.escape ? CSS.escape(value) : String(value).replace(/[^a-zA-Z0-9_-]/g, '\\\\$&'); const cmuxSelector = (el) => { if (el.id) return `#${cmuxEscape(el.id)}`; const testid = el.getAttribute('data-testid') || el.getAttribute('data-test-id'); if (testid) return `[data-testid=\"${cmuxEscape(testid)}\"]`; const tag = el.tagName.toLowerCase(); const siblings = Array.from(el.parentElement ? el.parentElement.children : document.querySelectorAll(tag)).filter((candidate) => candidate.tagName === el.tagName); const index = siblings.indexOf(el) + 1; return `${tag}:nth-of-type(${index})`; };";

/// How a script that is a block starts.
pub const BLOCK: &'static str = "(() => { ";

/// What a snapshot of a live page is taken with.
pub const SNAPSHOT_BODY: &'static str = " const refs = {}; const lines = []; if (document.title) lines.push(document.title); const nodes = Array.from(document.querySelectorAll('a,button,input,textarea,select,[role],h1,h2,h3,p,label')).filter((el) => { const style = getComputedStyle(el); const rect = el.getBoundingClientRect(); return style.display !== 'none' && style.visibility !== 'hidden' && rect.width >= 0 && rect.height >= 0; }).slice(0, 100); nodes.forEach((el, index) => { const ref = `e${index + 1}`; const tag = el.tagName.toLowerCase(); const label = (el.innerText || el.textContent || el.value || el.getAttribute('aria-label') || el.getAttribute('placeholder') || '').trim().replace(/\\s+/g, ' '); refs[ref] = { selector: cmuxSelector(el), tag, text: label }; lines.push(`${ref} <${tag}> ${label}`.trim()); }); return { snapshot: lines.join('\\n'), refs }; })()";

/// How an element is found that holds a text.
pub const FIND_TEXT: &'static str = "; const el = Array.from(document.querySelectorAll('body *')).find((candidate) => (candidate.innerText || candidate.textContent || '').includes(needle)); return el ? cmuxSelector(el) : null; })()";

/// How the first element is named.
pub const FIND_FIRST: &'static str = "); return el ? cmuxSelector(el) : null; })()";

/// How the last element is named.
pub const FIND_LAST: &'static str = ")); const el = matches[matches.length - 1]; return el ? cmuxSelector(el) : null; })()";

/// How an element at a place is named.
pub const FIND_NTH_END: &'static str = "]; return el ? cmuxSelector(el) : null; })()";

/// How an element is found by its placeholder.
pub const FIND_PLACEHOLDER: &'static str = "; const el = Array.from(document.querySelectorAll('[placeholder]')).find((candidate) => candidate.getAttribute('placeholder')?.includes(needle)); return el ? cmuxSelector(el) : null; })()";

/// How an element is found by its alternative text.
pub const FIND_ALT: &'static str = "; const el = Array.from(document.querySelectorAll('[alt]')).find((candidate) => candidate.getAttribute('alt')?.includes(needle)); return el ? cmuxSelector(el) : null; })()";

/// How an element is found by its title.
pub const FIND_TITLE: &'static str = "; const el = Array.from(document.querySelectorAll('[title]')).find((candidate) => candidate.getAttribute('title')?.includes(needle)); return el ? cmuxSelector(el) : null; })()";

/// How an element is found by its test id.
pub const FIND_TESTID: &'static str = "; const el = document.querySelector(`[data-testid=\"${CSS.escape(value)}\"], [data-test-id=\"${CSS.escape(value)}\"]`); return el ? cmuxSelector(el) : null; })()";

/// How an element is found by its role.
pub const FIND_ROLE: &'static str = "; const el = document.querySelector(`[role=\"${CSS.escape(value)}\"]`); return el ? cmuxSelector(el) : null; })()";

/// How an element is found by its label.
pub const FIND_LABEL: &'static str = "; const label = Array.from(document.querySelectorAll('label')).find((candidate) => (candidate.innerText || candidate.textContent || '').includes(needle)); if (!label) return null; const el = label.control || label.querySelector('input,textarea,select,button') || label; return cmuxSelector(el); })()";

/// How the box of an element is read.
pub const BOX_END: &'static str = "); if (!el) return null; const rect = el.getBoundingClientRect(); return { x: rect.x, y: rect.y, width: rect.width, height: rect.height }; })()";

/// How the common styles of an element are read.
pub const STYLES_END: &'static str = "); if (!el) return null; const style = getComputedStyle(el); return { display: style.display, visibility: style.visibility, opacity: style.opacity, color: style.color, backgroundColor: style.backgroundColor }; })()";

/// How it is told whether an element can be seen.
pub const VISIBLE_END: &'static str = "); if (!el) return false; const style = getComputedStyle(el); const rect = el.getBoundingClientRect(); return style.display !== 'none' && style.visibility !== 'hidden' && Number(style.opacity || 1) !== 0 && rect.width > 0 && rect.height > 0; })()";

/// How it is told whether an element can be used.
pub const ENABLED_END: &'static str = "); return !!el && !el.disabled && !el.hasAttribute('disabled') && el.getAttribute('aria-disabled') !== 'true'; })()";

/// How it is told whether an element is checked.
pub const CHECKED_END: &'static str = "); return !!el && !!el.checked; })()";

/// How a block about one element starts.
pub const ELEMENT_BLOCK: &'static str = "(() => { const el = document.querySelector(";

/// How a script that sends a key starts.
pub const KEY_HEAD: &'static str = "const target = document.activeElement || document.body || document; const key = ";

/// How an element is told of input.
pub const INPUT_EVENT: &'static str = "el.dispatchEvent(new Event('input', { bubbles: true }));";

/// How an element is told of a change.
pub const CHANGE_EVENT: &'static str = "el.dispatchEvent(new Event('change', { bubbles: true }));";

/// How an element is told of a double click.
pub const DOUBLE_CLICK_EVENT: &'static str = "el.dispatchEvent(new MouseEvent('dblclick', { bubbles: true, cancelable: true }));";

/// How an element is told of the pointer.
pub const HOVER_EVENTS: &'static str = "el.dispatchEvent(new MouseEvent('mouseover', { bubbles: true, cancelable: true })); el.dispatchEvent(new MouseEvent('mouseenter', { bubbles: true, cancelable: true }));";

/// A text between two others, as a string literal.
pub open spec fn around(before: Seq<char>, literal: Seq<char>, after: Seq<char>) -> Seq<char> {
    before + quoted(literal) + after
}

/// A text between two others, as a string literal.
pub fn around_text(before: &str, literal: &str, after: &str) -> (r: String)
    ensures
        r@ == around(before@, literal@, after@),
{
    join3(before, js_string_literal(literal).as_str(), after)
}

/// Two texts between three others, as string literals.
pub open spec fn around2(
    before: Seq<char>,
    first: Seq<char>,
    between: Seq<char>,
    second: Seq<char>,
    after: Seq<char>,
) -> Seq<char> {
    before + quoted(first) + between + quoted(second) + after
}

/// Two texts between three others, as string literals.
pub fn around2_text(before: &str, first: &str, between: &str, second: &str, after: &str) -> (r:
    String)
    ensures
        r@ == around2(before@, first@, between@, second@, after@),
{
    let mut s = join3(before, js_string_literal(first).as_str(), between);
    s.push_str(js_string_literal(second).as_str());
    s.push_str(after);
    s
}

/// A script that names an element: a block that can name one, a text as a
/// string literal, and what is done with it.
pub open spec fn naming(before: Seq<char>, literal: Seq<char>, after: Seq<char>) -> Seq<char> {
    BLOCK@ + SELECTOR_FUNCTION@ + around(before, literal, after)
}

/// A script that names an element.
pub fn naming_text(before: &str, literal: &str, after: &str) -> (r: String)
    ensures
        r@ == naming(before@, literal@, after@),
{
    join3(BLOCK, SELECTOR_FUNCTION, around_text(before, literal, after).as_str())
}

/// The script that takes a snapshot.
pub open spec fn snapshot_script() -> Seq<char> {
    BLOCK@ + SELECTOR_FUNCTION@ + SNAPSHOT_BODY@
}

/// The script that takes a snapshot.
pub fn snapshot_script_text() -> (r: String)
    ensures
        r@ == snapshot_script(),
{
    join3(BLOCK, SELECTOR_FUNCTION, SNAPSHOT_BODY)
}

// ---------------------------------------------------------------------------
// Gestures

/// Something done to an element.
pub enum Gesture {
    Click,
    DoubleClick,
    Hover,
    Focus,
    Fill(String),
    Type(String),
    Check,
    Uncheck,
    Select(String),
    Scroll(i64),
    ScrollIntoView,
}

/// Something done to an element.
pub enum GestureView {
    Click,
    DoubleClick,
    Hover,
    Focus,
    Fill(Seq<char>),
    Type(Seq<char>),
    Check,
    Uncheck,
    Select(Seq<char>),
    Scroll(i64),
    ScrollIntoView,
}

impl View for Gesture {
    type V = GestureView;

    open spec fn view(&self) -> GestureView {
        match *self {
            Gesture::Click => GestureView::Click,
            Gesture::DoubleClick => GestureView::DoubleClick,
            Gesture::Hover => GestureView::Hover,
            Gesture::Focus => GestureView::Focus,
            Gesture::Fill(t) => GestureView::Fill(t@),
            Gesture::Type(t) => GestureView::Type(t@),
            Gesture::Check => GestureView::Check,
            Gesture::Uncheck => GestureView::Uncheck,
            Gesture::Select(t) => GestureView::Select(t@),
            Gesture::Scroll(dy) => GestureView::Scroll(dy),
            Gesture::ScrollIntoView => GestureView::ScrollIntoView,
        }
    }
}

/// The events that follow a change of an element's value.
pub open spec fn value_events() -> Seq<char> {
    INPUT_EVENT@ + " "@ + CHANGE_EVENT@
}

/// What a gesture does to the element of a live page.
pub open spec fn gesture_code(g: GestureView) -> Seq<char> {
    match g {
        GestureView::Click => "el.click();"@,
        GestureView::DoubleClick => DOUBLE_CLICK_EVENT@,
        GestureView::Hover => HOVER_EVENTS@,
        GestureView::Focus => "el.focus();"@,
        GestureView::Fill(t) => around("el.value = "@, t, "; "@) + value_events(),
        GestureView::Type(t) => around(
            "el.focus(); el.value = String(el.value ?? '') + "@,
            t,
            "; "@,
        ) + INPUT_EVENT@,
        GestureView::Check => "el.checked = true; "@ + value_events(),
        GestureView::Uncheck => "el.checked = false; "@ + value_events(),
        GestureView::Select(t) => around("el.value = "@, t, "; "@) + value_events(),
        GestureView::Scroll(dy) => "el.scrollTop += "@ + signed_decimal(dy as int) + ";"@,
        GestureView::ScrollIntoView => "el.scrollIntoView({ block: 'center', inline: 'nearest' });"@,
    }
}

/// The script that makes a gesture on the element that a selector names, and
/// says whether there is one.
pub open spec fn gesture_script(selector: Seq<char>, g: GestureView) -> Seq<char> {
    around("const el = document.querySelector("@, selector, "); if (!el) return false; "@)
        + gesture_code(g) + " return true;"@
}

/// What a gesture does to the element of a live page.
fn gesture_code_text(g: &Gesture) -> (r: String)
    ensures
        r@ == gesture_code(g@),
{
    let value_events = join3(INPUT_EVENT, " ", CHANGE_EVENT);
    match g {
        Gesture::Click => owned("el.click();"),
        Gesture::DoubleClick => owned(DOUBLE_CLICK_EVENT),
        Gesture::Hover => owned(HOVER_EVENTS),
        Gesture::Focus => owned("el.focus();"),
        Gesture::Fill(t) => join2(
            around_text("el.value = ", t.as_str(), "; ").as_str(),
            value_events.as_str(),
        ),
        Gesture::Type(t) => join2(
            around_text(
                "el.focus(); el.value = String(el.value ?? '') + ",
                t.as_str(),
                "; ",
            ).as_str(),
            INPUT_EVENT,
        ),
        Gesture::Check => join2("el.checked = true; ", value_events.as_str()),
        Gesture::Uncheck => join2("el.checked = false; ", value_events.as_str()),
        Gesture::Select(t) => join2(
            around_text("el.value = ", t.as_str(), "; ").as_str(),
            value_events.as_str(),
        ),
        Gesture::Scroll(dy) => join3("el.scrollTop += ", signed_decimal_of(*dy).as_str(), ";"),
        Gesture::ScrollIntoView => owned("el.scrollIntoView({ block: 'center', inline: 'nearest' });"),
    }
}

/// The script that makes a gesture on the element that a selector names.
pub fn gesture_script_text(selector: &str, g: &Gesture) -> (r: String)
    ensures
        r@ == gesture_script(selector@, g@),
{
    let head = around_text(
        "const el = document.querySelector(",
        selector,
        "); if (!el) return false; ",
    );
    join3(head.as_str(), gesture_code_text(g).as_str(), " return true;")
}

/// The script that scrolls the page.
pub open spec fn page_scroll_script(dy: i64) -> Seq<char> {
    "window.scrollBy(0, "@ + signed_decimal(dy as int) + "); return true;"@
}

/// The script that scrolls the page.
pub fn page_scroll_script_text(dy: i64) -> (r: String)
    ensures
        r@ == page_scroll_script(dy),
{
    join3("window.scrollBy(0, ", signed_decimal_of(dy).as_str(), "); return true;")
}

// ---------------------------------------------------------------------------
// Keys

/// A part of a key press.
#[derive(Clone, Copy, PartialEq, Eq, Structural)]
pub enum KeyPhase {
    Press,
    Down,
    Up,
}

/// The code that sends one event of a key.
pub open spec fn key_event(key: Seq<char>, event: Seq<char>) -> Seq<char> {
    around(KEY_HEAD@, key, "; target.dispatchEvent(new KeyboardEvent('"@) + event
        + "', { key, bubbles: true, cancelable: true }));"@
}

/// The code that sends one event of a key, in a block of its own.
pub open spec fn key_block(key: Seq<char>, event: Seq<char>) -> Seq<char> {
    "{ "@ + key_event(key, event) + " } "@
}

/// The script that sends a key. A press is three events, each with names of its
/// own.
pub open spec fn key_script(key: Seq<char>, phase: KeyPhase) -> Seq<char> {
    match phase {
        KeyPhase::Down => key_event(key, "keydown"@) + " return true;"@,
        KeyPhase::Up => key_event(key, "keyup"@) + " return true;"@,
        KeyPhase::Press => key_block(key, "keydown"@) + key_block(key, "keypress"@) + key_block(
            key,
            "keyup"@,
        ) + "return true;"@,
    }
}

/// The code that sends one event of a key.
fn key_event_text(key: &str, event: &str) -> (r: String)
    ensures
        r@ == key_event(key@, event@),
{
    let head = around_text(KEY_HEAD, key, "; target.dispatchEvent(new KeyboardEvent('");
    join3(head.as_str(), event, "', { key, bubbles: true, cancelable: true }));")
}

/// The code that sends one event of a key, in a block of its own.
fn key_block_text(key: &str, event: &str) -> (r: String)
    ensures
        r@ == key_block(key@, event@),
{
    join3("{ ", key_event_text(key, event).as_str(), " } ")
}

/// The script that sends a key.
pub fn key_script_text(key: &str, phase: KeyPhase) -> (r: String)
    ensures
        r@ == key_script(key@, phase),
{
    match phase {
        KeyPhase::Down => join2(key_event_text(key, "keydown").as_str(), " return true;"),
        KeyPhase::Up => join2(key_event_text(key, "keyup").as_str(), " return true;"),
        KeyPhase::Press => {
            let mut s = key_block_text(key, "keydown");
            s.push_str(key_block_text(key, "keypress").as_str());
            s.push_str(key_block_text(key, "keyup").as_str());
            s.push_str("return true;");
            s
        },
    }
}

} // verus!
