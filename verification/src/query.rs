//! What a page answers without a live view: elements by selector, its text,
//! the few scripts that are understood, and its snapshot.

use crate::json::{
    integer_view, lemma_object_view, optional_chars, Json, JsonView, Object, ObjectView,
};
use crate::keyed::lookup;
use crate::page::{or_empty, BrowserElement, BrowserState, ElementView, PageView};
use crate::rpc::{browser_not_found, not_found, text_outcome, ErrorView, RpcError};
use crate::text::{
    chars_of, contains, decimal, decimal_of, find_chars, find_from, has_prefix, holds, join, join2, joined,
    same, strip_prefix, text_between, texts,
};
use vstd::prelude::*;

verus! {

/// The first element, from `i` on, whose tag is the one named.
pub open spec fn tagged_from(
    elements: Seq<(Seq<char>, ElementView)>,
    tag: Seq<char>,
    i: int,
) -> Option<ElementView>
    decreases elements.len() - i,
{
    if i < 0 || i >= elements.len() {
        None
    } else if elements[i].1.tag == tag {
        Some(elements[i].1)
    } else {
        tagged_from(elements, tag, i + 1)
    }
}

/// The refusal of a selector that names nothing.
pub open spec fn no_match(selector: Seq<char>) -> ErrorView {
    not_found("selector not found: "@ + selector)
}

/// The id of the element that a selector names: one with that id, or the first
/// with that tag.
pub open spec fn element_id(page: PageView, selector: Seq<char>) -> Result<Seq<char>, ErrorView> {
    let id = selector.skip("#"@.len() as int);
    if has_prefix(selector, "#"@) && lookup(page.elements, id) is Some {
        Ok(id)
    } else {
        match tagged_from(page.elements, selector, 0) {
            Some(element) => Ok(element.id),
            None => Err(no_match(selector)),
        }
    }
}

/// The element that a selector names.
pub open spec fn element_named(page: PageView, selector: Seq<char>) -> Result<
    ElementView,
    ErrorView,
> {
    match element_id(page, selector) {
        Ok(id) => match lookup(page.elements, id) {
            Some(element) => Ok(element),
            None => Err(no_match(selector)),
        },
        Err(error) => Err(error),
    }
}

/// What a result says whose value is an element.
pub open spec fn element_outcome(r: Result<&BrowserElement, RpcError>) -> Result<
    ElementView,
    ErrorView,
> {
    match r {
        Ok(e) => Ok(e@),
        Err(e) => Err(e@),
    }
}

/// The first element whose tag is the one named.
fn first_tagged<'a>(state: &'a BrowserState, tag: &str) -> (r: Option<&'a BrowserElement>)
    ensures
        match r {
            Some(e) => tagged_from(state@.elements, tag@, 0) == Some(e@),
            None => tagged_from(state@.elements, tag@, 0) is None,
        },
{
    let mut i: usize = 0;
    while i < state.elements.len()
        invariant
            i <= state.elements@.len(),
            tagged_from(state@.elements, tag@, i as int) == tagged_from(state@.elements, tag@, 0),
        decreases state.elements@.len() - i,
    {
        if same(state.elements[i].1.tag.as_str(), tag) {
            return Some(&state.elements[i].1);
        }
        i += 1;
    }
    None
}

/// The refusal of a selector that names nothing.
fn selector_not_found(selector: &str) -> (r: RpcError)
    ensures
        r@ == no_match(selector@),
{
    browser_not_found(join2("selector not found: ", selector).as_str())
}

/// The id of the element that a selector names.
pub fn browser_element_id(state: &BrowserState, selector: &str) -> (r: Result<String, RpcError>)
    ensures
        text_outcome(r) == element_id(state@, selector@),
{
    if let Some(id) = strip_prefix(selector, "#") {
        if state.element(id.as_str()).is_some() {
            return Ok(id);
        }
    }
    match first_tagged(state, selector) {
        Some(element) => Ok(element.id.clone()),
        None => Err(selector_not_found(selector)),
    }
}

/// The element that a selector names.
pub fn browser_element<'a>(state: &'a BrowserState, selector: &str) -> (r: Result<
    &'a BrowserElement,
    RpcError,
>)
    ensures
        element_outcome(r) == element_named(state@, selector@),
{
    match browser_element_id(state, selector) {
        Ok(id) => match state.element(id.as_str()) {
            Some(element) => Ok(element),
            None => Err(selector_not_found(selector)),
        },
        Err(error) => Err(error),
    }
}

// ---------------------------------------------------------------------------
// The text of a page

/// A line of text; nothing where the text is empty.
pub open spec fn line(s: Seq<char>) -> Seq<char> {
    if s.len() == 0 {
        Seq::empty()
    } else {
        s.push('\n')
    }
}

/// The texts and values of the elements from `i` on, each on its line.
pub open spec fn lines_from(elements: Seq<(Seq<char>, ElementView)>, i: int) -> Seq<char>
    decreases elements.len() - i,
{
    if i < 0 || i >= elements.len() {
        Seq::empty()
    } else {
        line(elements[i].1.text) + line(elements[i].1.value) + lines_from(elements, i + 1)
    }
}

/// The text of a page: its title, and the text and value of each element.
pub open spec fn page_text(page: PageView) -> Seq<char> {
    line(page.title) + lines_from(page.elements, 0)
}

/// Appends a line.
fn push_line(text: &mut String, s: &str)
    ensures
        final(text)@ == old(text)@ + line(s@),
{
    if !s.is_empty() {
        let ghost before = text@;
        text.push_str(s);
        text.push('\n');
        assert(text@ =~= before + s@.push('\n'));
    } else {
        assert(text@ + line(s@) =~= text@);
    }
}

/// The text of a page.
pub fn browser_inner_text(state: &BrowserState) -> (r: String)
    ensures
        r@ == page_text(state@),
{
    let mut text = String::new();
    push_line(&mut text, state.title.as_str());
    let mut i: usize = 0;
    while i < state.elements.len()
        invariant
            i <= state.elements@.len(),
            text@ + lines_from(state@.elements, i as int) =~= page_text(state@),
        decreases state.elements@.len() - i,
    {
        push_line(&mut text, state.elements[i].1.text.as_str());
        push_line(&mut text, state.elements[i].1.value.as_str());
        i += 1;
    }
    assert(text@ =~= page_text(state@));
    text
}

// ---------------------------------------------------------------------------
// Scripts

/// The selector that a script queries, between single quotes.
pub open spec fn queried(script: Seq<char>) -> Option<Seq<char>> {
    let marker = "querySelector('"@;
    match find_from(script, marker, 0) {
        None => None,
        Some(i) => match find_from(script, "'"@, i + marker.len()) {
            None => None,
            Some(end) => Some(script.subrange(i + marker.len(), end)),
        },
    }
}

/// The selector that a script queries.
pub fn selector_from_script(script: &str) -> (r: Option<String>)
    ensures
        optional_chars(r) == queried(script@),
{
    let v = chars_of(script);
    let marker = chars_of("querySelector('");
    assert(v.len() <= usize::MAX);
    match find_chars(&v, &marker, 0) {
        None => None,
        Some(i) => {
            let start: usize = i + marker.len();
            match find_chars(&v, &chars_of("'"), start) {
                None => None,
                Some(end) => Some(text_between(&v, start, end)),
            }
        },
    }
}

/// The counters of scripted input.
pub open spec fn counters(page: PageView) -> JsonView {
    ObjectView::new().with("hover"@, JsonView::Unsigned(page.hover_count)).with(
        "dbl"@,
        JsonView::Unsigned(page.dbl_count),
    ).with("down"@, JsonView::Unsigned(page.key_down_count)).with(
        "up"@,
        JsonView::Unsigned(page.key_up_count),
    ).with("press"@, JsonView::Unsigned(page.key_press_count)).done()
}

/// How far the element that a script queries is scrolled, if there is one.
pub open spec fn queried_scroll(page: PageView, script: Seq<char>) -> Option<i64> {
    match queried(script) {
        Some(selector) => match element_named(page, selector) {
            Ok(element) => Some(element.scroll_top),
            Err(_) => None,
        },
        None => None,
    }
}

/// What a page answers to a script about one element.
pub open spec fn element_answer(page: PageView, script: Seq<char>, selector: Seq<char>) -> JsonView {
    let element = element_named(page, selector);
    if holds(script, "!== null"@) {
        JsonView::Bool(element_id(page, selector) is Ok)
    } else if holds(script, ".value"@) {
        JsonView::Text(
            match element {
                Ok(e) => e.value,
                Err(_) => Seq::empty(),
            },
        )
    } else if holds(script, ".textContent"@) || holds(script, "innerText"@) {
        JsonView::Text(
            match element {
                Ok(e) => e.text,
                Err(_) => Seq::empty(),
            },
        )
    } else {
        JsonView::Null
    }
}

/// What a page answers to a script.
pub open spec fn script_answer(page: PageView, script: Seq<char>) -> JsonView {
    if holds(script, "document.readyState"@) {
        JsonView::Text("complete"@)
    } else if holds(script, "document.body"@) && holds(script, "innerText"@) {
        JsonView::Text(page_text(page))
    } else if holds(script, "document.activeElement"@) {
        JsonView::Text(or_empty(page.active_element_id))
    } else if holds(script, "window.__hover"@) && holds(script, "window.__dbl"@) && holds(
        script,
        "window.__keys"@,
    ) {
        counters(page)
    } else if holds(script, "scrollTop"@) && queried_scroll(page, script) is Some {
        integer_view(queried_scroll(page, script)->0)
    } else if holds(script, "getBoundingClientRect"@) {
        JsonView::Bool(true)
    } else {
        match queried(script) {
            Some(selector) => element_answer(page, script, selector),
            None => JsonView::Null,
        }
    }
}

/// What a page answers to a script about one element.
fn answer_about_element(state: &BrowserState, script: &str, selector: &str) -> (r: Json)
    ensures
        r@ == element_answer(state@, script@, selector@),
{
    if contains(script, "!== null") {
        Json::Bool(browser_element_id(state, selector).is_ok())
    } else if contains(script, ".value") {
        match browser_element(state, selector) {
            Ok(e) => Json::text(e.value.as_str()),
            Err(_) => Json::Text(String::new()),
        }
    } else if contains(script, ".textContent") || contains(script, "innerText") {
        match browser_element(state, selector) {
            Ok(e) => Json::text(e.text.as_str()),
            Err(_) => Json::Text(String::new()),
        }
    } else {
        Json::Null
    }
}

/// What a page answers to a script.
pub fn eval_browser_script(state: &BrowserState, script: &str) -> (r: Json)
    ensures
        r@ == script_answer(state@, script@),
{
    if contains(script, "document.readyState") {
        return Json::text("complete");
    }
    if contains(script, "document.body") && contains(script, "innerText") {
        return Json::Text(browser_inner_text(state));
    }
    if contains(script, "document.activeElement") {
        return match &state.active_element_id {
            Some(id) => Json::text(id.as_str()),
            None => Json::Text(String::new()),
        };
    }
    if contains(script, "window.__hover") && contains(script, "window.__dbl") && contains(
        script,
        "window.__keys",
    ) {
        return Object::new().with("hover", Json::Unsigned(state.hover_count)).with(
            "dbl",
            Json::Unsigned(state.dbl_count),
        ).with("down", Json::Unsigned(state.key_down_count)).with(
            "up",
            Json::Unsigned(state.key_up_count),
        ).with("press", Json::Unsigned(state.key_press_count)).done();
    }
    let selector = selector_from_script(script);
    if contains(script, "scrollTop") {
        if let Some(s) = &selector {
            if let Ok(element) = browser_element(state, s.as_str()) {
                return Json::integer(element.scroll_top);
            }
        }
    }
    if contains(script, "getBoundingClientRect") {
        return Json::Bool(true);
    }
    match selector {
        Some(s) => answer_about_element(state, script, s.as_str()),
        None => Json::Null,
    }
}

// ---------------------------------------------------------------------------
// Snapshots

/// What an element is called in a snapshot: its text, or its value where it
/// has none.
pub open spec fn label(element: ElementView) -> Seq<char> {
    if element.text.len() == 0 {
        element.value
    } else {
        element.text
    }
}

/// The reference to the element at `i`.
pub open spec fn reference(i: int) -> Seq<char> {
    "e"@ + decimal((i + 1) as nat)
}

/// The line of the element at `i`.
pub open spec fn snapshot_line(i: int, element: ElementView) -> Seq<char> {
    reference(i) + " <"@ + element.tag + " id=\""@ + element.id + "\"> "@ + label(element)
}

/// The lines of a snapshot: the title, where there is one, and a line for each
/// element.
pub open spec fn snapshot_lines(page: PageView) -> Seq<Seq<char>> {
    let head = if page.title.len() == 0 {
        Seq::empty()
    } else {
        seq![page.title]
    };
    head + Seq::new(page.elements.len(), |i: int| snapshot_line(i, page.elements[i].1))
}

/// What a snapshot says of an element.
pub open spec fn ref_value(element: ElementView) -> JsonView {
    ObjectView::new().with("selector"@, JsonView::Text("#"@ + element.id)).with(
        "tag"@,
        JsonView::Text(element.tag),
    ).with("text"@, JsonView::Text(element.text)).done()
}

/// The references of a snapshot.
pub open spec fn snapshot_refs(page: PageView) -> JsonView {
    JsonView::Object(
        Seq::new(page.elements.len(), |i: int| (reference(i), ref_value(page.elements[i].1))),
    )
}

/// The snapshot of a page that has no live view.
pub open spec fn page_snapshot(surface_id: Seq<char>, page: PageView) -> JsonView {
    ObjectView::new().with("surface_id"@, JsonView::Text(surface_id)).with(
        "snapshot"@,
        JsonView::Text(joined(snapshot_lines(page), "\n"@)),
    ).with("refs"@, snapshot_refs(page)).with("live_webview"@, JsonView::Bool(false)).done()
}

/// The line of the element at `i`.
fn element_line(i: usize, element: &BrowserElement) -> (r: String)
    requires
        i < usize::MAX,
    ensures
        r@ == snapshot_line(i as int, element@),
{
    let mut s = join2("e", decimal_of(i as u64 + 1).as_str());
    s.push_str(" <");
    s.push_str(element.tag.as_str());
    s.push_str(" id=\"");
    s.push_str(element.id.as_str());
    s.push_str("\"> ");
    if element.text.as_str().is_empty() {
        s.push_str(element.value.as_str());
    } else {
        s.push_str(element.text.as_str());
    }
    s
}

/// The snapshot of a page that has no live view.
pub fn state_snapshot(surface_id: &str, state: &BrowserState) -> (r: Json)
    ensures
        r@ == page_snapshot(surface_id@, state@),
{
    broadcast use lemma_object_view;

    let mut refs: Vec<(String, Json)> = Vec::new();
    let mut lines: Vec<String> = Vec::new();
    let ghost head = if state@.title.len() == 0 {
        Seq::empty()
    } else {
        seq![state@.title]
    };
    if !state.title.as_str().is_empty() {
        lines.push(state.title.clone());
    }
    assert(texts(lines@) =~= head);
    let mut i: usize = 0;
    let ghost all = state@.elements;
    let length: usize = state.elements.len();
    while i < length
        invariant
            i <= length == state.elements@.len(),
            all == state@.elements,
            refs@.len() == i,
            forall|j: int|
                0 <= j < i ==> (#[trigger] refs@[j]).0@ == reference(j) && refs@[j].1@ == ref_value(
                    all[j].1,
                ),
            texts(lines@) == head + Seq::new(i as nat, |j: int| snapshot_line(j, all[j].1)),
        decreases length - i,
    {
        let element = &state.elements[i].1;
        let entry = Object::new().with(
            "selector",
            Json::Text(join2("#", element.id.as_str())),
        ).with("tag", Json::text(element.tag.as_str())).with(
            "text",
            Json::text(element.text.as_str()),
        ).done();
        refs.push((join2("e", decimal_of(i as u64 + 1).as_str()), entry));
        let ghost before = lines@;
        lines.push(element_line(i, element));
        proof {
            assert(texts(lines@) =~= texts(before).push(snapshot_line(i as int, all[i as int].1)));
            assert(head + Seq::new((i + 1) as nat, |j: int| snapshot_line(j, all[j].1)) =~= (head
                + Seq::new(i as nat, |j: int| snapshot_line(j, all[j].1))).push(
                snapshot_line(i as int, all[i as int].1),
            ));
        }
        i += 1;
    }
    assert(texts(lines@) =~= snapshot_lines(state@));
    let refs_value = Json::Object(refs);
    assert(refs_value@ == snapshot_refs(state@)) by {
        assert(refs_value@->Object_0 =~= snapshot_refs(state@)->Object_0);
    }
    Object::new().with("surface_id", Json::text(surface_id)).with(
        "snapshot",
        Json::Text(join(&lines, "\n")),
    ).with("refs", refs_value).with("live_webview", Json::Bool(false)).done()
}

} // verus!
