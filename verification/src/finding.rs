//! How an element of a page is found: by a script on a live page, and among
//! the elements that are known where there is no live one.

use crate::json::{optional_chars, optional_ref_view, Json, JsonView};
use crate::page::{BrowserState, ElementView, PageView};
use crate::reading::{Accepts, Reading, ReadingView, Shape, ShapeView};
use crate::rpc::{
    browser_not_found, count_param, not_found, optional_string_any2, optional_string_any3,
    optional_string_param, require, required, text1, text2, text3, usize_param, ErrorView,
};
use crate::script::{
    naming, naming_text, FIND_ALT, FIND_FIRST, FIND_LABEL, FIND_LAST, FIND_NTH_END, FIND_PLACEHOLDER,
    FIND_ROLE, FIND_TESTID, FIND_TEXT, FIND_TITLE,
};
use crate::text::{contains, decimal, decimal_of, holds, join2, join3, same};
use crate::workspaces::{or_text, text_or};
use vstd::prelude::*;

verus! {

/// Where among the matches a request wants the element, counted from zero.
pub open spec fn wanted_index(params: Option<JsonView>) -> nat {
    match count_param(params, "index"@) {
        Some(n) => if n == 0 {
            0
        } else {
            (n - 1) as nat
        },
        None => 0,
    }
}

/// Where among the matches a request wants the element.
fn index_param(params: Option<&Json>) -> (r: usize)
    ensures
        r == wanted_index(optional_ref_view(params)),
{
    match usize_param(params, "index") {
        Some(n) => if n == 0 {
            0
        } else {
            n - 1
        },
        None => 0,
    }
}

// ---------------------------------------------------------------------------
// On a live page

/// The script that finds an element; none where the request does not say what
/// it looks for.
pub open spec fn find_script(method: Seq<char>, params: Option<JsonView>) -> Option<Seq<char>> {
    let selector = or_text(text1(params, "selector"@), "*"@);
    let needle = " const needle = "@;
    let value = " const value = "@;
    if method == "browser.find.text"@ {
        match text1(params, "text"@) {
            Some(t) => Some(naming(needle, t, FIND_TEXT@)),
            None => None,
        }
    } else if method == "browser.find.first"@ {
        Some(naming(" const el = document.querySelector("@, selector, FIND_FIRST@))
    } else if method == "browser.find.last"@ {
        Some(
            naming(
                " const matches = Array.from(document.querySelectorAll("@,
                selector,
                FIND_LAST@,
            ),
        )
    } else if method == "browser.find.nth"@ {
        Some(
            naming(
                " const el = Array.from(document.querySelectorAll("@,
                selector,
                "))["@ + decimal(wanted_index(params)) + FIND_NTH_END@,
            ),
        )
    } else if method == "browser.find.placeholder"@ {
        match text2(params, "text"@, "placeholder"@) {
            Some(t) => Some(naming(needle, t, FIND_PLACEHOLDER@)),
            None => None,
        }
    } else if method == "browser.find.alt"@ {
        match text2(params, "text"@, "alt"@) {
            Some(t) => Some(naming(needle, t, FIND_ALT@)),
            None => None,
        }
    } else if method == "browser.find.title"@ {
        match text2(params, "text"@, "title"@) {
            Some(t) => Some(naming(needle, t, FIND_TITLE@)),
            None => None,
        }
    } else if method == "browser.find.testid"@ {
        match text3(params, "testid"@, "testId"@, "text"@) {
            Some(t) => Some(naming(value, t, FIND_TESTID@)),
            None => None,
        }
    } else if method == "browser.find.role"@ {
        match text2(params, "role"@, "text"@) {
            Some(t) => Some(naming(value, t, FIND_ROLE@)),
            None => None,
        }
    } else if method == "browser.find.label"@ {
        match text2(params, "text"@, "label"@) {
            Some(t) => Some(naming(needle, t, FIND_LABEL@)),
            None => None,
        }
    } else {
        None
    }
}

/// A script with what it looks for, if it is said.
fn looking_for(found: Option<String>, before: &str, after: &str) -> (r: Option<String>)
    ensures
        optional_chars(r) == (match found {
            Some(t) => Some(naming(before@, t@, after@)),
            None => None,
        }),
{
    match found {
        Some(t) => Some(naming_text(before, t.as_str(), after)),
        None => None,
    }
}

/// The script that finds an element.
pub fn live_browser_find(method: &str, params: Option<&Json>) -> (r: Option<String>)
    ensures
        optional_chars(r) == find_script(method@, optional_ref_view(params)),
{
    let selector = text_or(optional_string_param(params, "selector"), "*");
    let needle = " const needle = ";
    let value = " const value = ";
    if same(method, "browser.find.text") {
        looking_for(optional_string_param(params, "text"), needle, FIND_TEXT)
    } else if same(method, "browser.find.first") {
        Some(naming_text(" const el = document.querySelector(", selector.as_str(), FIND_FIRST))
    } else if same(method, "browser.find.last") {
        Some(
            naming_text(
                " const matches = Array.from(document.querySelectorAll(",
                selector.as_str(),
                FIND_LAST,
            ),
        )
    } else if same(method, "browser.find.nth") {
        let index: usize = index_param(params);
        let after = join3("))[", decimal_of(index as u64).as_str(), FIND_NTH_END);
        Some(
            naming_text(
                " const el = Array.from(document.querySelectorAll(",
                selector.as_str(),
                after.as_str(),
            ),
        )
    } else if same(method, "browser.find.placeholder") {
        looking_for(optional_string_any2(params, "text", "placeholder"), needle, FIND_PLACEHOLDER)
    } else if same(method, "browser.find.alt") {
        looking_for(optional_string_any2(params, "text", "alt"), needle, FIND_ALT)
    } else if same(method, "browser.find.title") {
        looking_for(optional_string_any2(params, "text", "title"), needle, FIND_TITLE)
    } else if same(method, "browser.find.testid") {
        looking_for(optional_string_any3(params, "testid", "testId", "text"), value, FIND_TESTID)
    } else if same(method, "browser.find.role") {
        looking_for(optional_string_any2(params, "role", "text"), value, FIND_ROLE)
    } else if same(method, "browser.find.label") {
        looking_for(optional_string_any2(params, "text", "label"), needle, FIND_LABEL)
    } else {
        None
    }
}

// ---------------------------------------------------------------------------
// Among the known elements

/// The first element, from `i` on, whose text holds another.
pub open spec fn saying_from(
    elements: Seq<(Seq<char>, ElementView)>,
    text: Seq<char>,
    i: int,
) -> Option<ElementView>
    decreases elements.len() - i,
{
    if i < 0 || i >= elements.len() {
        None
    } else if holds(elements[i].1.text, text) {
        Some(elements[i].1)
    } else {
        saying_from(elements, text, i + 1)
    }
}

/// The selector of the element at a place.
pub open spec fn selector_at(page: PageView, i: int) -> Option<Seq<char>> {
    if 0 <= i < page.elements.len() {
        Some("#"@ + page.elements[i].0)
    } else {
        None
    }
}

/// Whether a method finds an element by one of its attributes.
pub open spec fn finds_by_attribute(method: Seq<char>) -> bool {
    method == "browser.find.label"@ || method == "browser.find.placeholder"@ || method
        == "browser.find.alt"@ || method == "browser.find.title"@ || method == "browser.find.testid"@
        || method == "browser.find.role"@
}

/// The selector that is found without a live page. A page that is not live
/// knows no attribute search: the request's own selector is taken, or the first
/// element.
pub open spec fn known_match(page: PageView, method: Seq<char>, params: Option<JsonView>) -> Option<
    Seq<char>,
> {
    if method == "browser.find.text"@ {
        match text1(params, "text"@) {
            Some(text) => match saying_from(page.elements, text, 0) {
                Some(e) => Some("#"@ + e.id),
                None => None,
            },
            None => None,
        }
    } else if finds_by_attribute(method) {
        match text1(params, "selector"@) {
            Some(s) => Some(s),
            None => selector_at(page, 0),
        }
    } else if method == "browser.find.first"@ {
        selector_at(page, 0)
    } else if method == "browser.find.last"@ {
        selector_at(page, page.elements.len() - 1)
    } else if method == "browser.find.nth"@ {
        selector_at(page, wanted_index(params) as int)
    } else {
        None
    }
}

/// What a find comes to without a live page.
pub open spec fn known_find(page: PageView, method: Seq<char>, params: Option<JsonView>) -> Result<
    JsonView,
    ErrorView,
> {
    if method == "browser.find.text"@ && text1(params, "text"@) is None {
        Err(required(None, "text"@)->Err_0)
    } else {
        match known_match(page, method, params) {
            Some(s) => Ok(JsonView::Text(s)),
            None => Err(not_found(method + " did not match an element"@)),
        }
    }
}

/// What a `find` method reads.
pub open spec fn find_reading(page: PageView, method: Seq<char>, params: Option<JsonView>) -> ReadingView {
    ReadingView {
        script: find_script(method, params),
        accepts: Accepts::Words,
        known: known_find(page, method, params),
        shape: ShapeView::Selector,
    }
}

/// The selector of the first element whose text holds another.
fn find_saying(page: &BrowserState, text: &str) -> (r: Option<String>)
    ensures
        optional_chars(r) == (match saying_from(page@.elements, text@, 0) {
            Some(e) => Some("#"@ + e.id),
            None => None,
        }),
{
    let mut i: usize = 0;
    while i < page.elements.len()
        invariant
            i <= page.elements@.len(),
            saying_from(page@.elements, text@, i as int) == saying_from(page@.elements, text@, 0),
        decreases page.elements@.len() - i,
    {
        if contains(page.elements[i].1.text.as_str(), text) {
            return Some(join2("#", page.elements[i].1.id.as_str()));
        }
        i += 1;
    }
    None
}

/// The selector of the element at a place.
fn find_at(page: &BrowserState, i: usize) -> (r: Option<String>)
    ensures
        optional_chars(r) == selector_at(page@, i as int),
{
    if i < page.elements.len() {
        Some(join2("#", page.elements[i].0.as_str()))
    } else {
        None
    }
}

/// The selector that is found without a live page.
fn find_known(page: &BrowserState, method: &str, params: Option<&Json>) -> (r: Option<String>)
    ensures
        optional_chars(r) == known_match(page@, method@, optional_ref_view(params)),
{
    if same(method, "browser.find.text") {
        match optional_string_param(params, "text") {
            Some(text) => find_saying(page, text.as_str()),
            None => None,
        }
    } else if same(method, "browser.find.label") || same(method, "browser.find.placeholder") || same(
        method,
        "browser.find.alt",
    ) || same(method, "browser.find.title") || same(method, "browser.find.testid") || same(
        method,
        "browser.find.role",
    ) {
        match optional_string_param(params, "selector") {
            Some(s) => Some(s),
            None => find_at(page, 0),
        }
    } else if same(method, "browser.find.first") {
        find_at(page, 0)
    } else if same(method, "browser.find.last") {
        if page.elements.len() > 0 {
            find_at(page, page.elements.len() - 1)
        } else {
            None
        }
    } else if same(method, "browser.find.nth") {
        find_at(page, index_param(params))
    } else {
        None
    }
}

/// What a `find` method reads.
pub fn browser_find(page: &BrowserState, method: &str, params: Option<&Json>) -> (r: Reading)
    ensures
        r@ == find_reading(page@, method@, optional_ref_view(params)),
{
    let script = live_browser_find(method, params);
    let known = if same(method, "browser.find.text") && optional_string_param(
        params,
        "text",
    ).is_none() {
        match require(None, "text") {
            Ok(s) => Ok(Json::Text(s)),
            Err(e) => Err(e),
        }
    } else {
        match find_known(page, method, params) {
            Some(s) => Ok(Json::Text(s)),
            None => Err(browser_not_found(join2(method, " did not match an element").as_str())),
        }
    };
    Reading { script, accepts: Accepts::Words, known, shape: Shape::Selector }
}

} // verus!
