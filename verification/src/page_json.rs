//! The state of a page as a JSON value, and back.

use crate::json::{
    entries_view, integer_view, lemma_array_view, lemma_object_view, lemma_with_get, optional_chars,
    optional_ref_view, optional_text_view, Json, JsonView, Object, ObjectView,
};
use crate::keyed::{in_order, law_put_keeps_order, lemma_put_last, put};
use crate::markup::{attrs_view, put_attr};
use crate::page::{
    elements_view, law_put_element_keeps_form, BrowserElement, BrowserState, ElementView, PageView,
};
use vstd::prelude::*;

verus! {

/// Attributes as an object.
pub open spec fn attrs_value(attrs: Seq<(Seq<char>, Seq<char>)>) -> JsonView {
    JsonView::Object(attrs.map_values(|e: (Seq<char>, Seq<char>)| (e.0, JsonView::Text(e.1))))
}

/// An element as an object.
pub open spec fn element_value(e: ElementView) -> JsonView {
    ObjectView::new().with("id"@, JsonView::Text(e.id)).with("tag"@, JsonView::Text(e.tag)).with(
        "text"@,
        JsonView::Text(e.text),
    ).with("html"@, JsonView::Text(e.html)).with("value"@, JsonView::Text(e.value)).with(
        "checked"@,
        JsonView::Bool(e.checked),
    ).with("disabled"@, JsonView::Bool(e.disabled)).with("visible"@, JsonView::Bool(e.visible)).with(
        "scrollTop"@,
        integer_view(e.scroll_top),
    ).with("attrs"@, attrs_value(e.attrs)).done()
}

/// Elements as an object.
pub open spec fn elements_value(elements: Seq<(Seq<char>, ElementView)>) -> JsonView {
    JsonView::Object(
        elements.map_values(|e: (Seq<char>, ElementView)| (e.0, element_value(e.1))),
    )
}

/// The state of a page as an object.
pub open spec fn page_value(p: PageView) -> JsonView {
    ObjectView::new().with("html"@, JsonView::Text(p.html)).with(
        "title"@,
        JsonView::Text(p.title),
    ).with("activeElementId"@, optional_text_view(p.active_element_id)).with(
        "pageScrollY"@,
        integer_view(p.page_scroll_y),
    ).with("hoverCount"@, JsonView::Unsigned(p.hover_count)).with(
        "dblCount"@,
        JsonView::Unsigned(p.dbl_count),
    ).with("keyDownCount"@, JsonView::Unsigned(p.key_down_count)).with(
        "keyUpCount"@,
        JsonView::Unsigned(p.key_up_count),
    ).with("keyPressCount"@, JsonView::Unsigned(p.key_press_count)).with(
        "elements"@,
        elements_value(p.elements),
    ).done()
}

/// Attributes as an object.
fn attrs_json(attrs: &Vec<(String, String)>) -> (r: Json)
    ensures
        r@ == attrs_value(attrs_view(attrs@)),
{
    broadcast use lemma_object_view;

    let mut entries: Vec<(String, Json)> = Vec::new();
    let mut i: usize = 0;
    while i < attrs.len()
        invariant
            i <= attrs@.len(),
            entries@.len() == i,
            forall|j: int|
                0 <= j < i ==> (#[trigger] entries@[j]).0@ == attrs@[j].0@ && entries@[j].1@
                    == JsonView::Text(attrs@[j].1@),
        decreases attrs@.len() - i,
    {
        entries.push((attrs[i].0.clone(), Json::text(attrs[i].1.as_str())));
        i += 1;
    }
    let r = Json::Object(entries);
    assert(r@->Object_0 =~= attrs_value(attrs_view(attrs@))->Object_0);
    r
}

/// An element as an object.
fn element_json(e: &BrowserElement) -> (r: Json)
    ensures
        r@ == element_value(e@),
{
    Object::new().with("id", Json::text(e.id.as_str())).with("tag", Json::text(e.tag.as_str())).with(
        "text",
        Json::text(e.text.as_str()),
    ).with("html", Json::text(e.html.as_str())).with("value", Json::text(e.value.as_str())).with(
        "checked",
        Json::Bool(e.checked),
    ).with("disabled", Json::Bool(e.disabled)).with("visible", Json::Bool(e.visible)).with(
        "scrollTop",
        Json::integer(e.scroll_top),
    ).with("attrs", attrs_json(&e.attrs)).done()
}

/// Elements as an object.
fn elements_json(elements: &Vec<(String, BrowserElement)>) -> (r: Json)
    ensures
        r@ == elements_value(elements_view(elements@)),
{
    broadcast use lemma_object_view;

    let mut entries: Vec<(String, Json)> = Vec::new();
    let mut i: usize = 0;
    while i < elements.len()
        invariant
            i <= elements@.len(),
            entries@.len() == i,
            forall|j: int|
                0 <= j < i ==> (#[trigger] entries@[j]).0@ == elements@[j].0@ && entries@[j].1@
                    == element_value(elements@[j].1@),
        decreases elements@.len() - i,
    {
        entries.push((elements[i].0.clone(), element_json(&elements[i].1)));
        i += 1;
    }
    let r = Json::Object(entries);
    assert(r@->Object_0 =~= elements_value(elements_view(elements@))->Object_0);
    r
}

/// The state of a page as an object.
pub fn browser_state_json(p: &BrowserState) -> (r: Json)
    ensures
        r@ == page_value(p@),
{
    Object::new().with("html", Json::text(p.html.as_str())).with(
        "title",
        Json::text(p.title.as_str()),
    ).with("activeElementId", Json::optional_text(&p.active_element_id)).with(
        "pageScrollY",
        Json::integer(p.page_scroll_y),
    ).with("hoverCount", Json::Unsigned(p.hover_count)).with(
        "dblCount",
        Json::Unsigned(p.dbl_count),
    ).with("keyDownCount", Json::Unsigned(p.key_down_count)).with(
        "keyUpCount",
        Json::Unsigned(p.key_up_count),
    ).with("keyPressCount", Json::Unsigned(p.key_press_count)).with(
        "elements",
        elements_json(&p.elements),
    ).done()
}

// ---------------------------------------------------------------------------
// Reading

/// The member of a record of `count` members: under its name in an object, at
/// its place in an array that holds exactly all of them.
pub open spec fn member(value: JsonView, count: int, name: Seq<char>, place: int) -> Option<
    JsonView,
> {
    match value {
        JsonView::Object(_) => value.get(name),
        JsonView::Array(items) => if items.len() == count {
            Some(items[place])
        } else {
            None
        },
        _ => None,
    }
}

/// The text that a member is.
pub open spec fn text_in(m: Option<JsonView>) -> Option<Seq<char>> {
    match m {
        Some(JsonView::Text(s)) => Some(s),
        _ => None,
    }
}

/// The truth value that a member is.
pub open spec fn flag_in(m: Option<JsonView>) -> Option<bool> {
    match m {
        Some(JsonView::Bool(b)) => Some(b),
        _ => None,
    }
}

/// The signed integer that a member is.
pub open spec fn integer_in(m: Option<JsonView>) -> Option<i64> {
    match m {
        Some(JsonView::Negative(n)) => Some(n),
        Some(JsonView::Unsigned(n)) => if n <= i64::MAX {
            Some(n as i64)
        } else {
            None
        },
        _ => None,
    }
}

/// The unsigned integer that a member is.
pub open spec fn unsigned_in(m: Option<JsonView>) -> Option<u64> {
    match m {
        Some(JsonView::Unsigned(n)) => Some(n),
        _ => None,
    }
}

/// The optional text that a member is: null, or absent from an object, is none.
pub open spec fn optional_text_in(value: JsonView, m: Option<JsonView>) -> Option<
    Option<Seq<char>>,
> {
    match m {
        Some(JsonView::Text(s)) => Some(Some(s)),
        Some(JsonView::Null) => Some(None),
        None => if value is Object {
            Some(None)
        } else {
            None
        },
        _ => None,
    }
}

/// The attributes of the entries from `i` on, put among those already read.
pub open spec fn attrs_in(
    entries: Seq<(Seq<char>, JsonView)>,
    i: int,
    read: Seq<(Seq<char>, Seq<char>)>,
) -> Option<Seq<(Seq<char>, Seq<char>)>>
    decreases entries.len() - i,
{
    if i < 0 || i >= entries.len() {
        Some(read)
    } else {
        match entries[i].1 {
            JsonView::Text(s) => attrs_in(entries, i + 1, put(read, entries[i].0, s)),
            _ => None,
        }
    }
}

/// The attributes that a member is.
pub open spec fn attrs_member(m: Option<JsonView>) -> Option<Seq<(Seq<char>, Seq<char>)>> {
    match m {
        Some(JsonView::Object(entries)) => attrs_in(entries, 0, Seq::empty()),
        _ => None,
    }
}

/// The element that a value is.
pub open spec fn element_in(value: JsonView) -> Option<ElementView> {
    let id = text_in(member(value, 10, "id"@, 0));
    let tag = text_in(member(value, 10, "tag"@, 1));
    let text = text_in(member(value, 10, "text"@, 2));
    let html = text_in(member(value, 10, "html"@, 3));
    let content = text_in(member(value, 10, "value"@, 4));
    let checked = flag_in(member(value, 10, "checked"@, 5));
    let disabled = flag_in(member(value, 10, "disabled"@, 6));
    let visible = flag_in(member(value, 10, "visible"@, 7));
    let scroll_top = integer_in(member(value, 10, "scrollTop"@, 8));
    let attrs = attrs_member(member(value, 10, "attrs"@, 9));
    if id is Some && tag is Some && text is Some && html is Some && content is Some && checked is Some
        && disabled is Some && visible is Some && scroll_top is Some && attrs is Some {
        Some(
            ElementView {
                id: id->0,
                tag: tag->0,
                text: text->0,
                html: html->0,
                value: content->0,
                checked: checked->0,
                disabled: disabled->0,
                visible: visible->0,
                scroll_top: scroll_top->0,
                attrs: attrs->0,
            },
        )
    } else {
        None
    }
}

/// The elements of the entries from `i` on, put among those already read.
pub open spec fn elements_in(
    entries: Seq<(Seq<char>, JsonView)>,
    i: int,
    read: Seq<(Seq<char>, ElementView)>,
) -> Option<Seq<(Seq<char>, ElementView)>>
    decreases entries.len() - i,
{
    if i < 0 || i >= entries.len() {
        Some(read)
    } else {
        match element_in(entries[i].1) {
            Some(e) => elements_in(entries, i + 1, put(read, entries[i].0, e)),
            None => None,
        }
    }
}

/// The elements that a member is.
pub open spec fn elements_member(m: Option<JsonView>) -> Option<Seq<(Seq<char>, ElementView)>> {
    match m {
        Some(JsonView::Object(entries)) => elements_in(entries, 0, Seq::empty()),
        _ => None,
    }
}

/// The state of a page that a value is.
pub open spec fn page_in(value: JsonView) -> Option<PageView> {
    let html = text_in(member(value, 10, "html"@, 0));
    let title = text_in(member(value, 10, "title"@, 1));
    let active = optional_text_in(value, member(value, 10, "activeElementId"@, 2));
    let scroll = integer_in(member(value, 10, "pageScrollY"@, 3));
    let hover = unsigned_in(member(value, 10, "hoverCount"@, 4));
    let dbl = unsigned_in(member(value, 10, "dblCount"@, 5));
    let down = unsigned_in(member(value, 10, "keyDownCount"@, 6));
    let up = unsigned_in(member(value, 10, "keyUpCount"@, 7));
    let press = unsigned_in(member(value, 10, "keyPressCount"@, 8));
    let elements = elements_member(member(value, 10, "elements"@, 9));
    if html is Some && title is Some && active is Some && scroll is Some && hover is Some && dbl is Some
        && down is Some && up is Some && press is Some && elements is Some {
        Some(
            PageView {
                html: html->0,
                title: title->0,
                active_element_id: active->0,
                page_scroll_y: scroll->0,
                hover_count: hover->0,
                dbl_count: dbl->0,
                key_down_count: down->0,
                key_up_count: up->0,
                key_press_count: press->0,
                elements: elements->0,
            },
        )
    } else {
        None
    }
}

/// The member of a record.
fn member_of<'a>(value: &'a Json, count: usize, name: &str, place: usize) -> (r: Option<&'a Json>)
    requires
        place < count,
    ensures
        optional_ref_view(r) == member(value@, count as int, name@, place as int),
{
    broadcast use {lemma_array_view, lemma_object_view};

    match value {
        Json::Object(_) => value.get(name),
        Json::Array(items) => if items.len() == count {
            Some(&items[place])
        } else {
            None
        },
        _ => None,
    }
}

/// The text that a member is.
fn text_from(m: Option<&Json>) -> (r: Option<String>)
    ensures
        optional_chars(r) == text_in(optional_ref_view(m)),
{
    match m {
        Some(Json::Text(s)) => Some(s.clone()),
        _ => None,
    }
}

/// The truth value that a member is.
fn flag_from(m: Option<&Json>) -> (r: Option<bool>)
    ensures
        r == flag_in(optional_ref_view(m)),
{
    match m {
        Some(Json::Bool(b)) => Some(*b),
        _ => None,
    }
}

/// The signed integer that a member is.
fn integer_from(m: Option<&Json>) -> (r: Option<i64>)
    ensures
        r == integer_in(optional_ref_view(m)),
{
    match m {
        Some(Json::Negative(n)) => Some(*n),
        Some(Json::Unsigned(n)) => if *n <= i64::MAX as u64 {
            Some(*n as i64)
        } else {
            None
        },
        _ => None,
    }
}

/// The unsigned integer that a member is.
fn unsigned_from(m: Option<&Json>) -> (r: Option<u64>)
    ensures
        r == unsigned_in(optional_ref_view(m)),
{
    match m {
        Some(Json::Unsigned(n)) => Some(*n),
        _ => None,
    }
}

/// The attributes that a member is.
fn attrs_from_json(m: Option<&Json>) -> (r: Option<Vec<(String, String)>>)
    ensures
        match r {
            Some(attrs) => attrs_member(optional_ref_view(m)) == Some(attrs_view(attrs@)),
            None => attrs_member(optional_ref_view(m)) is None,
        },
{
    broadcast use {lemma_array_view, lemma_object_view};

    match m {
        Some(Json::Object(entries)) => {
            let ghost all = entries_view(entries@);
            let mut attrs: Vec<(String, String)> = Vec::new();
            assert(attrs_view(attrs@) =~= Seq::empty());
            let mut i: usize = 0;
            while i < entries.len()
                invariant
                    i <= entries@.len(),
                    all == entries_view(entries@),
                    attrs_member(optional_ref_view(m)) == attrs_in(all, 0, Seq::empty()),
                    attrs_in(all, i as int, attrs_view(attrs@)) == attrs_in(all, 0, Seq::empty()),
                decreases entries@.len() - i,
            {
                match text_from(Some(&entries[i].1)) {
                    Some(s) => {
                        put_attr(&mut attrs, entries[i].0.clone(), s);
                    },
                    None => {
                        return None;
                    },
                }
                i += 1;
            }
            Some(attrs)
        },
        _ => None,
    }
}

/// What an element that may be absent is.
pub open spec fn optional_element(e: Option<BrowserElement>) -> Option<ElementView> {
    match e {
        Some(e) => Some(e@),
        None => None,
    }
}

/// The element that a value is.
fn element_from_json(value: &Json) -> (r: Option<BrowserElement>)
    ensures
        optional_element(r) == element_in(value@),
{
    let id = text_from(member_of(value, 10, "id", 0));
    let tag = text_from(member_of(value, 10, "tag", 1));
    let text = text_from(member_of(value, 10, "text", 2));
    let html = text_from(member_of(value, 10, "html", 3));
    let content = text_from(member_of(value, 10, "value", 4));
    let checked = flag_from(member_of(value, 10, "checked", 5));
    let disabled = flag_from(member_of(value, 10, "disabled", 6));
    let visible = flag_from(member_of(value, 10, "visible", 7));
    let scroll_top = integer_from(member_of(value, 10, "scrollTop", 8));
    let attrs = attrs_from_json(member_of(value, 10, "attrs", 9));
    match (id, tag, text, html, content) {
        (Some(id), Some(tag), Some(text), Some(html), Some(content)) => match (
            checked,
            disabled,
            visible,
            scroll_top,
            attrs,
        ) {
            (Some(checked), Some(disabled), Some(visible), Some(scroll_top), Some(attrs)) => Some(
                BrowserElement {
                    id,
                    tag,
                    text,
                    html,
                    value: content,
                    checked,
                    disabled,
                    visible,
                    scroll_top,
                    attrs,
                },
            ),
            _ => None,
        },
        _ => None,
    }
}

/// Puts the elements that a member is on a page.
fn elements_from_json(m: Option<&Json>, page: &mut BrowserState) -> (r: bool)
    requires
        old(page)@.elements.len() == 0,
    ensures
        r == (elements_member(optional_ref_view(m)) is Some),
        r ==> final(page)@ == (PageView {
            elements: elements_member(optional_ref_view(m))->0,
            ..old(page)@
        }),
{
    broadcast use {lemma_array_view, lemma_object_view};

    match m {
        Some(Json::Object(entries)) => {
            let ghost all = entries_view(entries@);
            let ghost before = page@;
            assert(before.elements =~= Seq::empty());
            let mut i: usize = 0;
            while i < entries.len()
                invariant
                    i <= entries@.len(),
                    all == entries_view(entries@),
                    elements_member(optional_ref_view(m)) == elements_in(all, 0, Seq::empty()),
                    elements_in(all, i as int, page@.elements) == elements_in(all, 0, Seq::empty()),
                    page@ == (PageView { elements: page@.elements, ..before }),
                decreases entries@.len() - i,
            {
                match element_from_json(&entries[i].1) {
                    Some(e) => {
                        page.put_element(entries[i].0.clone(), e);
                    },
                    None => {
                        return false;
                    },
                }
                i += 1;
            }
            true
        },
        _ => false,
    }
}

/// What a page that may be absent is.
pub open spec fn optional_page(p: Option<BrowserState>) -> Option<PageView> {
    match p {
        Some(p) => Some(p@),
        None => None,
    }
}

/// The active element that a value names.
fn active_from_json(value: &Json) -> (r: Option<Option<String>>)
    ensures
        match r {
            Some(active) => optional_text_in(value@, member(value@, 10, "activeElementId"@, 2)) == Some(
                optional_chars(active),
            ),
            None => optional_text_in(value@, member(value@, 10, "activeElementId"@, 2)) is None,
        },
{
    broadcast use {lemma_array_view, lemma_object_view};

    match member_of(value, 10, "activeElementId", 2) {
        Some(Json::Text(s)) => Some(Some(s.clone())),
        Some(Json::Null) => Some(None),
        None => match value {
            Json::Object(_) => Some(None),
            _ => None,
        },
        _ => None,
    }
}

/// The state of a page that a value is.
pub fn browser_state_from_json(value: &Json) -> (r: Option<BrowserState>)
    ensures
        optional_page(r) == page_in(value@),
{
    let html = text_from(member_of(value, 10, "html", 0));
    let title = text_from(member_of(value, 10, "title", 1));
    let active = active_from_json(value);
    let scroll = integer_from(member_of(value, 10, "pageScrollY", 3));
    let hover = unsigned_from(member_of(value, 10, "hoverCount", 4));
    let dbl = unsigned_from(member_of(value, 10, "dblCount", 5));
    let down = unsigned_from(member_of(value, 10, "keyDownCount", 6));
    let up = unsigned_from(member_of(value, 10, "keyUpCount", 7));
    let press = unsigned_from(member_of(value, 10, "keyPressCount", 8));
    match (html, title, active, scroll) {
        (Some(html), Some(title), Some(active_element_id), Some(page_scroll_y)) => match (
            hover,
            dbl,
            down,
            up,
            press,
        ) {
            (
                Some(hover_count),
                Some(dbl_count),
                Some(key_down_count),
                Some(key_up_count),
                Some(key_press_count),
            ) => {
                let mut page = BrowserState {
                    html,
                    title,
                    active_element_id,
                    page_scroll_y,
                    hover_count,
                    dbl_count,
                    key_down_count,
                    key_up_count,
                    key_press_count,
                    elements: Vec::new(),
                };
                if elements_from_json(member_of(value, 10, "elements", 9), &mut page) {
                    Some(page)
                } else {
                    None
                }
            },
            _ => None,
        },
        _ => None,
    }
}

// ---------------------------------------------------------------------------
// Laws

/// The names of an element's members are all different.
proof fn lemma_element_names()
    ensures
        "id"@ != "tag"@,
        "id"@ != "text"@,
        "id"@ != "html"@,
        "id"@ != "value"@,
        "id"@ != "checked"@,
        "id"@ != "disabled"@,
        "id"@ != "visible"@,
        "id"@ != "scrollTop"@,
        "id"@ != "attrs"@,
        "tag"@ != "text"@,
        "tag"@ != "html"@,
        "tag"@ != "value"@,
        "tag"@ != "checked"@,
        "tag"@ != "disabled"@,
        "tag"@ != "visible"@,
        "tag"@ != "scrollTop"@,
        "tag"@ != "attrs"@,
        "text"@ != "html"@,
        "text"@ != "value"@,
        "text"@ != "checked"@,
        "text"@ != "disabled"@,
        "text"@ != "visible"@,
        "text"@ != "scrollTop"@,
        "text"@ != "attrs"@,
        "html"@ != "value"@,
        "html"@ != "checked"@,
        "html"@ != "disabled"@,
        "html"@ != "visible"@,
        "html"@ != "scrollTop"@,
        "html"@ != "attrs"@,
        "value"@ != "checked"@,
        "value"@ != "disabled"@,
        "value"@ != "visible"@,
        "value"@ != "scrollTop"@,
        "value"@ != "attrs"@,
        "checked"@ != "disabled"@,
        "checked"@ != "visible"@,
        "checked"@ != "scrollTop"@,
        "checked"@ != "attrs"@,
        "disabled"@ != "visible"@,
        "disabled"@ != "scrollTop"@,
        "disabled"@ != "attrs"@,
        "visible"@ != "scrollTop"@,
        "visible"@ != "attrs"@,
        "scrollTop"@ != "attrs"@,
{
    reveal_strlit("id");
    reveal_strlit("tag");
    reveal_strlit("text");
    reveal_strlit("html");
    reveal_strlit("value");
    reveal_strlit("checked");
    reveal_strlit("disabled");
    reveal_strlit("visible");
    reveal_strlit("scrollTop");
    reveal_strlit("attrs");
    assert("id"@.len() == 2);
    assert("tag"@.len() == 3);
    assert("text"@.len() == 4);
    assert("html"@.len() == 4);
    assert("value"@.len() == 5);
    assert("checked"@.len() == 7);
    assert("disabled"@.len() == 8);
    assert("visible"@.len() == 7);
    assert("scrollTop"@.len() == 9);
    assert("attrs"@.len() == 5);
    assert("text"@[0] != "html"@[0]);
    assert("value"@[0] != "attrs"@[0]);
    assert("checked"@[0] != "visible"@[0]);
}

/// The names of a page's members are all different.
proof fn lemma_page_names()
    ensures
        "html"@ != "title"@,
        "html"@ != "activeElementId"@,
        "html"@ != "pageScrollY"@,
        "html"@ != "hoverCount"@,
        "html"@ != "dblCount"@,
        "html"@ != "keyDownCount"@,
        "html"@ != "keyUpCount"@,
        "html"@ != "keyPressCount"@,
        "html"@ != "elements"@,
        "title"@ != "activeElementId"@,
        "title"@ != "pageScrollY"@,
        "title"@ != "hoverCount"@,
        "title"@ != "dblCount"@,
        "title"@ != "keyDownCount"@,
        "title"@ != "keyUpCount"@,
        "title"@ != "keyPressCount"@,
        "title"@ != "elements"@,
        "activeElementId"@ != "pageScrollY"@,
        "activeElementId"@ != "hoverCount"@,
        "activeElementId"@ != "dblCount"@,
        "activeElementId"@ != "keyDownCount"@,
        "activeElementId"@ != "keyUpCount"@,
        "activeElementId"@ != "keyPressCount"@,
        "activeElementId"@ != "elements"@,
        "pageScrollY"@ != "hoverCount"@,
        "pageScrollY"@ != "dblCount"@,
        "pageScrollY"@ != "keyDownCount"@,
        "pageScrollY"@ != "keyUpCount"@,
        "pageScrollY"@ != "keyPressCount"@,
        "pageScrollY"@ != "elements"@,
        "hoverCount"@ != "dblCount"@,
        "hoverCount"@ != "keyDownCount"@,
        "hoverCount"@ != "keyUpCount"@,
        "hoverCount"@ != "keyPressCount"@,
        "hoverCount"@ != "elements"@,
        "dblCount"@ != "keyDownCount"@,
        "dblCount"@ != "keyUpCount"@,
        "dblCount"@ != "keyPressCount"@,
        "dblCount"@ != "elements"@,
        "keyDownCount"@ != "keyUpCount"@,
        "keyDownCount"@ != "keyPressCount"@,
        "keyDownCount"@ != "elements"@,
        "keyUpCount"@ != "keyPressCount"@,
        "keyUpCount"@ != "elements"@,
        "keyPressCount"@ != "elements"@,
{
    reveal_strlit("html");
    reveal_strlit("title");
    reveal_strlit("activeElementId");
    reveal_strlit("pageScrollY");
    reveal_strlit("hoverCount");
    reveal_strlit("dblCount");
    reveal_strlit("keyDownCount");
    reveal_strlit("keyUpCount");
    reveal_strlit("keyPressCount");
    reveal_strlit("elements");
    assert("html"@.len() == 4);
    assert("title"@.len() == 5);
    assert("activeElementId"@.len() == 15);
    assert("pageScrollY"@.len() == 11);
    assert("hoverCount"@.len() == 10);
    assert("dblCount"@.len() == 8);
    assert("keyDownCount"@.len() == 12);
    assert("keyUpCount"@.len() == 10);
    assert("keyPressCount"@.len() == 13);
    assert("elements"@.len() == 8);
    assert("hoverCount"@[0] != "keyUpCount"@[0]);
    assert("dblCount"@[0] != "elements"@[0]);
}

/// Attributes that were saved are read as they were.
proof fn lemma_attrs_back(attrs: Seq<(Seq<char>, Seq<char>)>, i: int)
    requires
        in_order(attrs),
        0 <= i <= attrs.len(),
    ensures
        attrs_in(attrs_value(attrs)->Object_0, i, attrs.take(i)) == Some(attrs),
    decreases attrs.len() - i,
{
    if i < attrs.len() {
        lemma_put_last(attrs, i);
        lemma_attrs_back(attrs, i + 1);
    } else {
        assert(attrs.take(i) =~= attrs);
    }
}

/// An element that was saved is read as it was.
proof fn lemma_element_back(e: ElementView)
    requires
        in_order(e.attrs),
    ensures
        element_in(element_value(e)) == Some(e),
{
    broadcast use lemma_with_get;

    lemma_element_names();
    lemma_attrs_back(e.attrs, 0);
    assert(e.attrs.take(0) =~= Seq::empty());
}

/// Elements that were saved are read as they were.
proof fn lemma_elements_back(elements: Seq<(Seq<char>, ElementView)>, i: int)
    requires
        in_order(elements),
        forall|j: int| 0 <= j < elements.len() ==> in_order((#[trigger] elements[j]).1.attrs),
        0 <= i <= elements.len(),
    ensures
        elements_in(elements_value(elements)->Object_0, i, elements.take(i)) == Some(elements),
    decreases elements.len() - i,
{
    if i < elements.len() {
        lemma_put_last(elements, i);
        lemma_element_back(elements[i].1);
        lemma_elements_back(elements, i + 1);
    } else {
        assert(elements.take(i) =~= elements);
    }
}

/// A page that was saved is loaded as it was.
pub proof fn law_saved_page_loads_back(p: PageView)
    requires
        p.well_formed(),
    ensures
        page_in(page_value(p)) == Some(p),
{
    broadcast use lemma_with_get;

    lemma_page_names();
    lemma_elements_back(p.elements, 0);
    assert(p.elements.take(0) =~= Seq::empty());
}

/// Attributes are read in the order of their names.
proof fn lemma_attrs_in_order(
    entries: Seq<(Seq<char>, JsonView)>,
    i: int,
    read: Seq<(Seq<char>, Seq<char>)>,
)
    requires
        in_order(read),
        attrs_in(entries, i, read) is Some,
    ensures
        in_order(attrs_in(entries, i, read)->0),
    decreases entries.len() - i,
{
    if 0 <= i < entries.len() {
        match entries[i].1 {
            JsonView::Text(s) => {
                law_put_keeps_order(read, entries[i].0, s);
                lemma_attrs_in_order(entries, i + 1, put(read, entries[i].0, s));
            },
            _ => {},
        }
    }
}

/// Elements are read onto a well-formed page.
proof fn lemma_elements_in_form(entries: Seq<(Seq<char>, JsonView)>, i: int, page: PageView)
    requires
        page.well_formed(),
        elements_in(entries, i, page.elements) is Some,
    ensures
        (PageView { elements: elements_in(entries, i, page.elements)->0, ..page }).well_formed(),
    decreases entries.len() - i,
{
    if 0 <= i < entries.len() {
        match element_in(entries[i].1) {
            Some(e) => {
                match member(entries[i].1, 10, "attrs"@, 9) {
                    Some(JsonView::Object(attrs)) => {
                        lemma_attrs_in_order(attrs, 0, Seq::empty());
                    },
                    _ => {},
                }
                law_put_element_keeps_form(page, entries[i].0, e);
                lemma_elements_in_form(entries, i + 1, page.with_element(entries[i].0, e));
            },
            None => {},
        }
    }
}

/// A page that was loaded is well-formed.
pub proof fn law_loaded_page_is_well_formed(value: JsonView)
    requires
        page_in(value) is Some,
    ensures
        page_in(value)->0.well_formed(),
{
    match member(value, 10, "elements"@, 9) {
        Some(JsonView::Object(entries)) => {
            lemma_elements_in_form(entries, 0, PageView::blank());
        },
        _ => {},
    }
}

} // verus!
