//! What is read from the page of a browser surface: from a live page by a
//! script, and from what is known of the page where there is no live one.

use crate::host::{
    evaluated, eval_live_browser_script, Heard, HeardValue, HostReply, ReplyView, Step, StepView,
};
use crate::json::{optional_chars, optional_ref_view, Json, JsonView, Object, ObjectView};
use crate::keyed::lookup;
use crate::lists::views;
use crate::markup::attr as find_attr;
use crate::page::{or_empty, BrowserState, ElementView, PageView};
use crate::query::{
    browser_element, browser_element_id, browser_inner_text, element_id, element_named, eval_browser_script,
    page_text, script_answer,
};
use crate::rpc::{
    not_supported, optional_string_any2, optional_string_param, outcome_view, require, required, text1, text2,
    unsupported, ErrorView, RpcError,
};
use crate::script::{
    around, around2, around2_text, around_text, BOX_END, CHECKED_END, ELEMENT_BLOCK, ENABLED_END, STYLES_END,
    VISIBLE_END,
};
use crate::text::{has_prefix, join2, owned, same, starts_with};
use vstd::prelude::*;

verus! {

// ---------------------------------------------------------------------------
// A reading

/// How the answer to a reading looks: the value alone, under a second key too,
/// beside a name, or as the selector of one element.
pub enum Shape {
    Plain,
    Twice(String),
    Named(String, String),
    Selector,
}

/// How the answer to a reading looks.
pub enum ShapeView {
    Plain,
    Twice(Seq<char>),
    Named(Seq<char>, Seq<char>),
    Selector,
}

impl View for Shape {
    type V = ShapeView;

    open spec fn view(&self) -> ShapeView {
        match *self {
            Shape::Plain => ShapeView::Plain,
            Shape::Twice(key) => ShapeView::Twice(key@),
            Shape::Named(key, name) => ShapeView::Named(key@, name@),
            Shape::Selector => ShapeView::Selector,
        }
    }
}

/// Which values of a live page count: any, all but null, truth values, or texts
/// that are not empty.
#[derive(Clone, Copy, PartialEq, Eq, Structural)]
pub enum Accepts {
    Any,
    NotNull,
    Flag,
    Words,
}

/// What is read: by which script from a live page, which of its values count,
/// what is known without one, and how the answer looks.
pub struct Reading {
    pub script: Option<String>,
    pub accepts: Accepts,
    pub known: Result<Json, RpcError>,
    pub shape: Shape,
}

/// What is read.
pub struct ReadingView {
    pub script: Option<Seq<char>>,
    pub accepts: Accepts,
    pub known: Result<JsonView, ErrorView>,
    pub shape: ShapeView,
}

impl View for Reading {
    type V = ReadingView;

    open spec fn view(&self) -> ReadingView {
        ReadingView {
            script: optional_chars(self.script),
            accepts: self.accepts,
            known: outcome_view(self.known),
            shape: self.shape@,
        }
    }
}

/// What a result says whose value is a reading.
pub open spec fn reading_outcome(r: Result<Reading, RpcError>) -> Result<ReadingView, ErrorView> {
    match r {
        Ok(reading) => Ok(reading@),
        Err(e) => Err(e@),
    }
}

/// Whether a value of a live page counts.
pub open spec fn accepted(accepts: Accepts, value: JsonView) -> bool {
    match accepts {
        Accepts::Any => true,
        Accepts::NotNull => value !is Null,
        Accepts::Flag => value is Bool,
        Accepts::Words => value matches JsonView::Text(s) && s.len() > 0,
    }
}

/// The answer to a reading.
pub open spec fn shaped(
    surface_id: Seq<char>,
    shape: ShapeView,
    value: JsonView,
    live: bool,
) -> JsonView {
    let base = ObjectView::new().with("surface_id"@, JsonView::Text(surface_id));
    let full = match shape {
        ShapeView::Plain => base.with("value"@, value),
        ShapeView::Twice(key) => base.with(key, value).with("value"@, value),
        ShapeView::Named(key, name) => base.with(key, JsonView::Text(name)).with("value"@, value),
        ShapeView::Selector => base.with("selector"@, value).with("count"@, JsonView::Unsigned(1)),
    };
    full.with("live_webview"@, JsonView::Bool(live)).done()
}

/// The answer where no live page gave a value that counts.
pub open spec fn known_step(surface_id: Seq<char>, reading: ReadingView) -> StepView {
    StepView::Done(
        match reading.known {
            Ok(value) => Ok(shaped(surface_id, reading.shape, value, false)),
            Err(e) => Err(e),
        },
    )
}

/// What a reading comes to: a value of the live page that counts, or what is
/// known without one.
pub open spec fn reading_step(
    surface_id: Seq<char>,
    reading: ReadingView,
    replies: Seq<ReplyView>,
) -> StepView {
    match reading.script {
        None => known_step(surface_id, reading),
        Some(script) => match evaluated(replies, 0, surface_id, script) {
            Heard::Ask(call) => StepView::Ask(call),
            Heard::Got(Some(value), _) => if accepted(reading.accepts, value) {
                StepView::Done(Ok(shaped(surface_id, reading.shape, value, true)))
            } else {
                known_step(surface_id, reading)
            },
            Heard::Got(None, _) => known_step(surface_id, reading),
        },
    }
}

/// What a request for a reading comes to.
pub open spec fn read_step(
    surface_id: Seq<char>,
    reading: Result<ReadingView, ErrorView>,
    replies: Seq<ReplyView>,
) -> StepView {
    match reading {
        Ok(r) => reading_step(surface_id, r, replies),
        Err(e) => StepView::Done(Err(e)),
    }
}

/// Whether a value of a live page counts.
fn is_accepted(accepts: Accepts, value: &Json) -> (r: bool)
    ensures
        r == accepted(accepts, value@),
{
    match accepts {
        Accepts::Any => true,
        Accepts::NotNull => !value.is_null(),
        Accepts::Flag => match value {
            Json::Bool(_) => true,
            _ => false,
        },
        Accepts::Words => match value {
            Json::Text(s) => !s.as_str().is_empty(),
            _ => false,
        },
    }
}

/// The answer to a reading.
fn shaped_json(surface_id: &str, shape: &Shape, value: Json, live: bool) -> (r: Json)
    ensures
        r@ == shaped(surface_id@, shape@, value@, live),
{
    let base = Object::new().with("surface_id", Json::text(surface_id));
    let full = match shape {
        Shape::Plain => base.with("value", value),
        Shape::Twice(key) => base.with(key.as_str(), value.copy()).with("value", value),
        Shape::Named(key, name) => base.with(key.as_str(), Json::text(name.as_str())).with(
            "value",
            value,
        ),
        Shape::Selector => base.with("selector", value).with("count", Json::Unsigned(1)),
    };
    full.with("live_webview", Json::Bool(live)).done()
}

/// What a request for a reading comes to.
pub fn read_page(
    surface_id: &str,
    reading: Result<Reading, RpcError>,
    replies: &Vec<HostReply>,
) -> (r: Step)
    ensures
        r@ == read_step(surface_id@, reading_outcome(reading), views(replies@)),
{
    let reading = match reading {
        Ok(reading) => reading,
        Err(e) => {
            return Step::Done(Err(e));
        },
    };
    if let Some(script) = &reading.script {
        match eval_live_browser_script(replies, 0, surface_id, script.as_str()) {
            HeardValue::Ask(call) => {
                return Step::Ask(call);
            },
            HeardValue::Got(Some(value), _) => {
                if is_accepted(reading.accepts, &value) {
                    return Step::Done(Ok(shaped_json(surface_id, &reading.shape, value, true)));
                }
            },
            HeardValue::Got(None, _) => {},
        }
    }
    match reading.known {
        Ok(value) => Step::Done(Ok(shaped_json(surface_id, &reading.shape, value, false))),
        Err(e) => Step::Done(Err(e)),
    }
}

// ---------------------------------------------------------------------------
// Scripts

/// What a script comes to on a page.
pub open spec fn eval_reading(page: PageView, params: Option<JsonView>) -> Result<
    ReadingView,
    ErrorView,
> {
    match required(text2(params, "script"@, "expression"@), "script"@) {
        Err(e) => Err(e),
        Ok(script) => Ok(
            ReadingView {
                script: Some(script),
                accepts: Accepts::Any,
                known: Ok(script_answer(page, script)),
                shape: ShapeView::Plain,
            },
        ),
    }
}

/// What a script comes to on a page.
pub fn browser_eval(page: &BrowserState, params: Option<&Json>) -> (r: Result<Reading, RpcError>)
    ensures
        reading_outcome(r) == eval_reading(page@, optional_ref_view(params)),
{
    match require(optional_string_any2(params, "script", "expression"), "script") {
        Err(e) => Err(e),
        Ok(script) => {
            let known = Ok(eval_browser_script(page, script.as_str()));
            Ok(Reading { script: Some(script), accepts: Accepts::Any, known, shape: Shape::Plain })
        },
    }
}

// ---------------------------------------------------------------------------
// Properties

/// How many elements have a tag.
pub open spec fn tagged_count(elements: Seq<(Seq<char>, ElementView)>, tag: Seq<char>) -> nat
    decreases elements.len(),
{
    if elements.len() == 0 {
        0
    } else {
        tagged_count(elements.drop_last(), tag) + if elements.last().1.tag == tag {
            1nat
        } else {
            0nat
        }
    }
}

/// How many elements of a page a selector names.
pub open spec fn matches(page: PageView, selector: Seq<char>) -> nat {
    if has_prefix(selector, "#"@) {
        if element_id(page, selector) is Ok {
            1
        } else {
            0
        }
    } else {
        tagged_count(page.elements, selector)
    }
}

/// The box of an element, where no live page says it.
pub open spec fn usual_box() -> JsonView {
    ObjectView::new().with("x"@, JsonView::Unsigned(0)).with("y"@, JsonView::Unsigned(0)).with(
        "width"@,
        JsonView::Unsigned(120),
    ).with("height"@, JsonView::Unsigned(32)).done()
}

/// Whether an element is shown as a block, where no live page says it.
pub open spec fn usual_display(selector: Seq<char>) -> Seq<char> {
    if selector == "#hidden"@ {
        "none"@
    } else {
        "block"@
    }
}

/// The colour of an element, where no live page says it.
pub open spec fn usual_color(selector: Seq<char>) -> Seq<char> {
    if selector == "#style-target"@ {
        "rgb(255, 0, 0)"@
    } else {
        "rgb(0, 0, 0)"@
    }
}

/// The styles of an element, where no live page says them.
pub open spec fn usual_styles(selector: Seq<char>) -> JsonView {
    ObjectView::new().with("display"@, JsonView::Text(usual_display(selector))).with(
        "color"@,
        JsonView::Text(usual_color(selector)),
    ).done()
}

/// One style of an element, where no live page says it.
pub open spec fn usual_style(selector: Seq<char>, property: Seq<char>) -> JsonView {
    if property == "display"@ {
        JsonView::Text(usual_display(selector))
    } else if property == "color"@ {
        JsonView::Text(usual_color(selector))
    } else {
        JsonView::Null
    }
}

/// A value that is known only of an element that is there.
pub open spec fn if_there(page: PageView, selector: Seq<char>, value: JsonView) -> Result<
    JsonView,
    ErrorView,
> {
    match element_id(page, selector) {
        Ok(_) => Ok(value),
        Err(e) => Err(e),
    }
}

/// The refusal of a method that is not there.
pub open spec fn unavailable(method: Seq<char>) -> ErrorView {
    unsupported(method + " is not available on Linux yet"@)
}

/// What reads the title of a page.
pub open spec fn title_reading(page: PageView) -> ReadingView {
    ReadingView {
        script: Some("document.title"@),
        accepts: Accepts::Any,
        known: Ok(JsonView::Text(page.title)),
        shape: ShapeView::Twice("title"@),
    }
}

/// What reads the text of a page or of an element.
pub open spec fn text_reading(page: PageView, selector: Option<Seq<char>>) -> ReadingView {
    ReadingView {
        script: Some(
            match selector {
                None => "document.body ? document.body.innerText : ''"@,
                Some(s) => around("document.querySelector("@, s, ")?.innerText ?? ''"@),
            },
        ),
        accepts: Accepts::Any,
        known: match selector {
            None => Ok(JsonView::Text(page_text(page))),
            Some(s) => match element_named(page, s) {
                Ok(e) => Ok(JsonView::Text(e.text)),
                Err(e) => Err(e),
            },
        },
        shape: ShapeView::Twice("text"@),
    }
}

/// What reads the markup of a page or of an element.
pub open spec fn html_reading(page: PageView, selector: Option<Seq<char>>) -> ReadingView {
    ReadingView {
        script: Some(
            match selector {
                None => "document.documentElement ? document.documentElement.outerHTML : ''"@,
                Some(s) => around("document.querySelector("@, s, ")?.outerHTML ?? ''"@),
            },
        ),
        accepts: Accepts::Any,
        known: match selector {
            None => Ok(JsonView::Text(page.html)),
            Some(s) => match element_named(page, s) {
                Ok(e) => Ok(JsonView::Text(e.html)),
                Err(e) => Err(e),
            },
        },
        shape: ShapeView::Twice("html"@),
    }
}

/// What reads the value of an element.
pub open spec fn value_reading(page: PageView, selector: Seq<char>) -> ReadingView {
    ReadingView {
        script: Some(around("document.querySelector("@, selector, ")?.value ?? ''"@)),
        accepts: Accepts::Any,
        known: match element_named(page, selector) {
            Ok(e) => Ok(JsonView::Text(e.value)),
            Err(e) => Err(e),
        },
        shape: ShapeView::Plain,
    }
}

/// What reads an attribute of an element.
pub open spec fn attr_reading(page: PageView, selector: Seq<char>, attr: Seq<char>) -> ReadingView {
    ReadingView {
        script: Some(
            around2("document.querySelector("@, selector, ")?.getAttribute("@, attr, ") ?? ''"@),
        ),
        accepts: Accepts::Any,
        known: match element_named(page, selector) {
            Ok(e) => Ok(JsonView::Text(or_empty(lookup(e.attrs, attr)))),
            Err(e) => Err(e),
        },
        shape: ShapeView::Named("attr"@, attr),
    }
}

/// What counts the elements that a selector names.
pub open spec fn count_reading(page: PageView, selector: Seq<char>) -> ReadingView {
    ReadingView {
        script: Some(around("document.querySelectorAll("@, selector, ").length"@)),
        accepts: Accepts::Any,
        known: Ok(JsonView::Unsigned(matches(page, selector) as u64)),
        shape: ShapeView::Twice("count"@),
    }
}

/// What reads the box of an element.
pub open spec fn box_reading(page: PageView, selector: Seq<char>) -> ReadingView {
    ReadingView {
        script: Some(around(ELEMENT_BLOCK@, selector, BOX_END@)),
        accepts: Accepts::NotNull,
        known: if_there(page, selector, usual_box()),
        shape: ShapeView::Plain,
    }
}

/// What reads the styles of an element, or one of them.
pub open spec fn styles_reading(
    page: PageView,
    selector: Seq<char>,
    property: Option<Seq<char>>,
) -> ReadingView {
    match property {
        Some(p) => ReadingView {
            script: Some(
                around2(
                    ELEMENT_BLOCK@,
                    selector,
                    "); if (!el) return null; return getComputedStyle(el).getPropertyValue("@,
                    p,
                    "); })()"@,
                ),
            ),
            accepts: Accepts::NotNull,
            known: if_there(page, selector, usual_style(selector, p)),
            shape: ShapeView::Named("property"@, p),
        },
        None => ReadingView {
            script: Some(around(ELEMENT_BLOCK@, selector, STYLES_END@)),
            accepts: Accepts::NotNull,
            known: if_there(page, selector, usual_styles(selector)),
            shape: ShapeView::Plain,
        },
    }
}

/// What a `get` method reads.
pub open spec fn get_reading(page: PageView, method: Seq<char>, params: Option<JsonView>) -> Result<
    ReadingView,
    ErrorView,
> {
    let given = text1(params, "selector"@);
    if method == "browser.get.title"@ {
        Ok(title_reading(page))
    } else if method == "browser.get.text"@ {
        Ok(text_reading(page, given))
    } else if method == "browser.get.html"@ {
        Ok(html_reading(page, given))
    } else if method == "browser.get.value"@ || method == "browser.get.attr"@ || method
        == "browser.get.count"@ || method == "browser.get.box"@ || method == "browser.get.styles"@ {
        match required(given, "selector"@) {
            Err(e) => Err(e),
            Ok(selector) => if method == "browser.get.value"@ {
                Ok(value_reading(page, selector))
            } else if method == "browser.get.attr"@ {
                match required(text2(params, "attr"@, "name"@), "attr"@) {
                    Err(e) => Err(e),
                    Ok(attr) => Ok(attr_reading(page, selector, attr)),
                }
            } else if method == "browser.get.count"@ {
                Ok(count_reading(page, selector))
            } else if method == "browser.get.box"@ {
                Ok(box_reading(page, selector))
            } else {
                Ok(styles_reading(page, selector, text1(params, "property"@)))
            },
        }
    } else {
        Err(unavailable(method))
    }
}

/// How many elements have a tag.
fn count_tagged(page: &BrowserState, tag: &str) -> (r: usize)
    ensures
        r == tagged_count(page@.elements, tag@),
{
    let mut n: usize = 0;
    let mut i: usize = 0;
    let length: usize = page.elements.len();
    let ghost all = page@.elements;
    while i < length
        invariant
            i <= length == page.elements@.len(),
            all == page@.elements,
            n <= i,
            n == tagged_count(all.take(i as int), tag@),
        decreases length - i,
    {
        assert(all.take(i + 1).drop_last() =~= all.take(i as int));
        if same(page.elements[i].1.tag.as_str(), tag) {
            n += 1;
        }
        i += 1;
    }
    assert(all.take(i as int) =~= all);
    n
}

/// A value that is known only of an element that is there.
fn known_if_there(page: &BrowserState, selector: &str, value: Json) -> (r: Result<Json, RpcError>)
    ensures
        outcome_view(r) == if_there(page@, selector@, value@),
{
    match browser_element_id(page, selector) {
        Ok(_) => Ok(value),
        Err(e) => Err(e),
    }
}

/// The refusal of a method that is not there.
pub fn not_available(method: &str) -> (r: RpcError)
    ensures
        r@ == unavailable(method@),
{
    not_supported(join2(method, " is not available on Linux yet").as_str())
}

/// What reads the text of a page or of an element.
fn read_text(page: &BrowserState, selector: &Option<String>) -> (r: Reading)
    ensures
        r@ == text_reading(page@, optional_chars(*selector)),
{
    let (script, known) = match selector {
        None => (
            owned("document.body ? document.body.innerText : ''"),
            Ok(Json::Text(browser_inner_text(page))),
        ),
        Some(s) => (
            around_text("document.querySelector(", s.as_str(), ")?.innerText ?? ''"),
            match browser_element(page, s.as_str()) {
                Ok(e) => Ok(Json::text(e.text.as_str())),
                Err(e) => Err(e),
            },
        ),
    };
    Reading { script: Some(script), accepts: Accepts::Any, known, shape: Shape::Twice(owned("text")) }
}

/// What reads the markup of a page or of an element.
fn read_html(page: &BrowserState, selector: &Option<String>) -> (r: Reading)
    ensures
        r@ == html_reading(page@, optional_chars(*selector)),
{
    let (script, known) = match selector {
        None => (
            owned("document.documentElement ? document.documentElement.outerHTML : ''"),
            Ok(Json::text(page.html.as_str())),
        ),
        Some(s) => (
            around_text("document.querySelector(", s.as_str(), ")?.outerHTML ?? ''"),
            match browser_element(page, s.as_str()) {
                Ok(e) => Ok(Json::text(e.html.as_str())),
                Err(e) => Err(e),
            },
        ),
    };
    Reading { script: Some(script), accepts: Accepts::Any, known, shape: Shape::Twice(owned("html")) }
}

/// What reads the value of an element.
fn read_value(page: &BrowserState, selector: &str) -> (r: Reading)
    ensures
        r@ == value_reading(page@, selector@),
{
    let known = match browser_element(page, selector) {
        Ok(e) => Ok(Json::text(e.value.as_str())),
        Err(e) => Err(e),
    };
    Reading {
        script: Some(around_text("document.querySelector(", selector, ")?.value ?? ''")),
        accepts: Accepts::Any,
        known,
        shape: Shape::Plain,
    }
}

/// What reads an attribute of an element.
fn read_attr(page: &BrowserState, selector: &str, attr: String) -> (r: Reading)
    ensures
        r@ == attr_reading(page@, selector@, attr@),
{
    let known = match browser_element(page, selector) {
        Ok(e) => Ok(
            match find_attr(&e.attrs, attr.as_str()) {
                Some(value) => Json::text(value.as_str()),
                None => Json::Text(String::new()),
            },
        ),
        Err(e) => Err(e),
    };
    let script = around2_text(
        "document.querySelector(",
        selector,
        ")?.getAttribute(",
        attr.as_str(),
        ") ?? ''",
    );
    Reading {
        script: Some(script),
        accepts: Accepts::Any,
        known,
        shape: Shape::Named(owned("attr"), attr),
    }
}

/// What counts the elements that a selector names.
fn read_count(page: &BrowserState, selector: &str) -> (r: Reading)
    ensures
        r@ == count_reading(page@, selector@),
{
    let count: usize = if starts_with(selector, "#") {
        if browser_element_id(page, selector).is_ok() {
            1
        } else {
            0
        }
    } else {
        count_tagged(page, selector)
    };
    Reading {
        script: Some(around_text("document.querySelectorAll(", selector, ").length")),
        accepts: Accepts::Any,
        known: Ok(Json::Unsigned(count as u64)),
        shape: Shape::Twice(owned("count")),
    }
}

/// What reads the box of an element.
fn read_box(page: &BrowserState, selector: &str) -> (r: Reading)
    ensures
        r@ == box_reading(page@, selector@),
{
    let value = Object::new().with("x", Json::Unsigned(0)).with("y", Json::Unsigned(0)).with(
        "width",
        Json::Unsigned(120),
    ).with("height", Json::Unsigned(32)).done();
    Reading {
        script: Some(around_text(ELEMENT_BLOCK, selector, BOX_END)),
        accepts: Accepts::NotNull,
        known: known_if_there(page, selector, value),
        shape: Shape::Plain,
    }
}

/// What reads the styles of an element, or one of them.
fn read_styles(page: &BrowserState, selector: &str, property: Option<String>) -> (r: Reading)
    ensures
        r@ == styles_reading(page@, selector@, optional_chars(property)),
{
    let display = if same(selector, "#hidden") {
        "none"
    } else {
        "block"
    };
    let color = if same(selector, "#style-target") {
        "rgb(255, 0, 0)"
    } else {
        "rgb(0, 0, 0)"
    };
    match property {
        Some(p) => {
            let script = around2_text(
                ELEMENT_BLOCK,
                selector,
                "); if (!el) return null; return getComputedStyle(el).getPropertyValue(",
                p.as_str(),
                "); })()",
            );
            let value = if same(p.as_str(), "display") {
                Json::text(display)
            } else if same(p.as_str(), "color") {
                Json::text(color)
            } else {
                Json::Null
            };
            Reading {
                script: Some(script),
                accepts: Accepts::NotNull,
                known: known_if_there(page, selector, value),
                shape: Shape::Named(owned("property"), p),
            }
        },
        None => {
            let value = Object::new().with("display", Json::text(display)).with(
                "color",
                Json::text(color),
            ).done();
            Reading {
                script: Some(around_text(ELEMENT_BLOCK, selector, STYLES_END)),
                accepts: Accepts::NotNull,
                known: known_if_there(page, selector, value),
                shape: Shape::Plain,
            }
        },
    }
}

/// What a `get` method reads.
pub fn browser_get(page: &BrowserState, method: &str, params: Option<&Json>) -> (r: Result<
    Reading,
    RpcError,
>)
    ensures
        reading_outcome(r) == get_reading(page@, method@, optional_ref_view(params)),
{
    let given = optional_string_param(params, "selector");
    if same(method, "browser.get.title") {
        return Ok(
            Reading {
                script: Some(owned("document.title")),
                accepts: Accepts::Any,
                known: Ok(Json::text(page.title.as_str())),
                shape: Shape::Twice(owned("title")),
            },
        );
    }
    if same(method, "browser.get.text") {
        return Ok(read_text(page, &given));
    }
    if same(method, "browser.get.html") {
        return Ok(read_html(page, &given));
    }
    let of_element = same(method, "browser.get.value") || same(method, "browser.get.attr") || same(
        method,
        "browser.get.count",
    ) || same(method, "browser.get.box") || same(method, "browser.get.styles");
    if !of_element {
        return Err(not_available(method));
    }
    let selector = match require(given, "selector") {
        Ok(selector) => selector,
        Err(e) => {
            return Err(e);
        },
    };
    if same(method, "browser.get.value") {
        Ok(read_value(page, selector.as_str()))
    } else if same(method, "browser.get.attr") {
        match require(optional_string_any2(params, "attr", "name"), "attr") {
            Err(e) => Err(e),
            Ok(attr) => Ok(read_attr(page, selector.as_str(), attr)),
        }
    } else if same(method, "browser.get.count") {
        Ok(read_count(page, selector.as_str()))
    } else if same(method, "browser.get.box") {
        Ok(read_box(page, selector.as_str()))
    } else {
        Ok(read_styles(page, selector.as_str(), optional_string_param(params, "property")))
    }
}

// ---------------------------------------------------------------------------
// Conditions

/// The script that tells whether a condition holds of an element.
pub open spec fn condition_script(method: Seq<char>, selector: Seq<char>) -> Option<Seq<char>> {
    if method == "browser.is.visible"@ {
        Some(around(ELEMENT_BLOCK@, selector, VISIBLE_END@))
    } else if method == "browser.is.enabled"@ {
        Some(around(ELEMENT_BLOCK@, selector, ENABLED_END@))
    } else if method == "browser.is.checked"@ {
        Some(around(ELEMENT_BLOCK@, selector, CHECKED_END@))
    } else {
        None
    }
}

/// Whether a condition is known to hold of an element.
pub open spec fn condition_of(method: Seq<char>, e: ElementView) -> Result<JsonView, ErrorView> {
    if method == "browser.is.visible"@ {
        Ok(JsonView::Bool(e.visible))
    } else if method == "browser.is.enabled"@ {
        Ok(JsonView::Bool(!e.disabled))
    } else if method == "browser.is.checked"@ {
        Ok(JsonView::Bool(e.checked))
    } else {
        Err(unavailable(method))
    }
}

/// What an `is` method reads.
pub open spec fn is_reading(page: PageView, method: Seq<char>, params: Option<JsonView>) -> Result<
    ReadingView,
    ErrorView,
> {
    match required(text1(params, "selector"@), "selector"@) {
        Err(e) => Err(e),
        Ok(selector) => Ok(
            ReadingView {
                script: condition_script(method, selector),
                accepts: Accepts::Flag,
                known: match element_named(page, selector) {
                    Ok(e) => condition_of(method, e),
                    Err(e) => Err(e),
                },
                shape: ShapeView::Plain,
            },
        ),
    }
}

/// What an `is` method reads.
pub fn browser_is(page: &BrowserState, method: &str, params: Option<&Json>) -> (r: Result<
    Reading,
    RpcError,
>)
    ensures
        reading_outcome(r) == is_reading(page@, method@, optional_ref_view(params)),
{
    let selector = match require(optional_string_param(params, "selector"), "selector") {
        Ok(selector) => selector,
        Err(e) => {
            return Err(e);
        },
    };
    let s = selector.as_str();
    let visible = same(method, "browser.is.visible");
    let enabled = same(method, "browser.is.enabled");
    let checked = same(method, "browser.is.checked");
    let script = if visible {
        Some(around_text(ELEMENT_BLOCK, s, VISIBLE_END))
    } else if enabled {
        Some(around_text(ELEMENT_BLOCK, s, ENABLED_END))
    } else if checked {
        Some(around_text(ELEMENT_BLOCK, s, CHECKED_END))
    } else {
        None
    };
    let known = match browser_element(page, s) {
        Err(e) => Err(e),
        Ok(e) => if visible {
            Ok(Json::Bool(e.visible))
        } else if enabled {
            Ok(Json::Bool(!e.disabled))
        } else if checked {
            Ok(Json::Bool(e.checked))
        } else {
            Err(not_available(method))
        },
    };
    Ok(Reading { script, accepts: Accepts::Flag, known, shape: Shape::Plain })
}

} // verus!
