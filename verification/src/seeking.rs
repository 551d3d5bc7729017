//! What searches on a page find, what its snapshot lists and what scripts are
//! told of it.

use crate::finding::{known_find, known_match, saying_from};
use crate::json::{entry_from, integer_view, lemma_with_get, JsonView};
use crate::naming::law_written_numbers_are_read_back;
use crate::keyed::lookup;
use crate::page::{ElementView, PageView};
use crate::patience::{has_element, is_part, law_a_selector_names_what_is_there, law_a_text_holds_its_parts};
use crate::query::{
    page_snapshot, page_text, queried, reference, script_answer, snapshot_lines, snapshot_refs,
};
use crate::reading::tagged_count;
use crate::rpc::{count_param, text1};
use crate::text::{decimal, find_from, holds, occurs_at};
use crate::touching::by_id;
use vstd::prelude::*;

verus! {

// ---------------------------------------------------------------------------
// Searches

/// Whether an element is the first of a page that says a text.
pub open spec fn first_says(page: PageView, text: Seq<char>, i: int) -> bool {
    &&& 0 <= i < page.elements.len()
    &&& is_part(page.elements[i].1.text, text)
    &&& forall|j: int| 0 <= j < i ==> !is_part((#[trigger] page.elements[j]).1.text, text)
}

/// The first element that says a text is found from the start.
proof fn lemma_first_says(page: PageView, text: Seq<char>, i: int, from: int)
    requires
        first_says(page, text, i),
        0 <= from <= i,
    ensures
        saying_from(page.elements, text, from) == Some(page.elements[i].1),
    decreases i - from,
{
    law_a_text_holds_its_parts(page.elements[from].1.text, text);
    if from < i {
        lemma_first_says(page, text, i, from + 1);
    }
}

/// Where no element says a text, none is found.
proof fn lemma_none_says(page: PageView, text: Seq<char>, from: int)
    requires
        forall|j: int|
            0 <= j < page.elements.len() ==> !is_part((#[trigger] page.elements[j]).1.text, text),
        0 <= from,
    ensures
        saying_from(page.elements, text, from) is None,
    decreases page.elements.len() - from,
{
    if from < page.elements.len() {
        law_a_text_holds_its_parts(page.elements[from].1.text, text);
        lemma_none_says(page, text, from + 1);
    }
}

/// What tells the searches apart.
proof fn lemma_find_names()
    ensures
        "browser.find.text"@.len() == 17,
        "browser.find.text"@[13] == 't' && "browser.find.text"@[14] == 'e',
        "browser.find.first"@.len() == 18,
        "browser.find.first"@[13] == 'f',
        "browser.find.last"@.len() == 17,
        "browser.find.last"@[13] == 'l',
        "browser.find.nth"@.len() == 16,
        "browser.find.nth"@[13] == 'n',
        "browser.find.label"@.len() == 18,
        "browser.find.label"@[13] == 'l',
        "browser.find.placeholder"@.len() == 24,
        "browser.find.alt"@.len() == 16,
        "browser.find.alt"@[13] == 'a',
        "browser.find.title"@.len() == 18,
        "browser.find.title"@[13] == 't',
        "browser.find.testid"@.len() == 19,
        "browser.find.role"@.len() == 17,
        "browser.find.role"@[13] == 'r',
        "#"@ == seq!['#'],
{
    reveal_strlit("browser.find.text");
    reveal_strlit("browser.find.first");
    reveal_strlit("browser.find.last");
    reveal_strlit("browser.find.nth");
    reveal_strlit("browser.find.label");
    reveal_strlit("browser.find.placeholder");
    reveal_strlit("browser.find.alt");
    reveal_strlit("browser.find.title");
    reveal_strlit("browser.find.testid");
    reveal_strlit("browser.find.role");
    reveal_strlit("#");
    assert("#"@ =~= seq!['#']);
}

/// A search for a text finds the first element that says it, and is refused where
/// none does.
pub proof fn law_a_text_is_found_where_it_is_said_first(
    page: PageView,
    params: Option<JsonView>,
    text: Seq<char>,
    i: int,
)
    requires
        text1(params, "text"@) == Some(text),
    ensures
        first_says(page, text, i) ==> known_find(page, "browser.find.text"@, params) == Ok::<
            JsonView,
            crate::rpc::ErrorView,
        >(JsonView::Text(by_id(page.elements[i].1.id))),
        (forall|j: int|
            0 <= j < page.elements.len() ==> !is_part((#[trigger] page.elements[j]).1.text, text))
            ==> (known_find(page, "browser.find.text"@, params) matches Err(e) && e.code == -32004),
{
    lemma_find_names();
    if first_says(page, text, i) {
        lemma_first_says(page, text, i, 0);
    }
    if forall|j: int|
        0 <= j < page.elements.len() ==> !is_part((#[trigger] page.elements[j]).1.text, text) {
        lemma_none_says(page, text, 0);
    }
}

/// The first, the last and the numbered element of a page are found where they
/// stand; numbers count from one, and zero and none stand for the first.
pub proof fn law_elements_are_found_by_their_places(
    page: PageView,
    params: Option<JsonView>,
    i: int,
)
    requires
        0 <= i < page.elements.len(),
    ensures
        i == 0 ==> known_match(page, "browser.find.first"@, params) == Some(
            by_id(page.elements[i].0),
        ),
        i == page.elements.len() - 1 ==> known_match(page, "browser.find.last"@, params) == Some(
            by_id(page.elements[i].0),
        ),
        (count_param(params, "index"@) matches Some(n) && n == i + 1) ==> known_match(
            page,
            "browser.find.nth"@,
            params,
        ) == Some(by_id(page.elements[i].0)),
        i == 0
            && (count_param(params, "index"@) matches Some(n) ==> n == 0) ==> known_match(page, "browser.find.nth"@, params) == Some(by_id(page.elements[i].0)),
        (count_param(params, "index"@) matches Some(n) && n > page.elements.len()) ==> known_match(
            page,
            "browser.find.nth"@,
            params,
        ) is None,
{
    lemma_find_names();
}

// ---------------------------------------------------------------------------
// Counts

/// The places of the elements with a tag.
pub open spec fn places_tagged(page: PageView, tag: Seq<char>) -> Set<int> {
    Set::new(|i: int| 0 <= i < page.elements.len() && page.elements[i].1.tag == tag)
}

/// The elements with a tag are counted one by one.
proof fn lemma_tagged_count(elements: Seq<(Seq<char>, ElementView)>, tag: Seq<char>)
    ensures
        ({
            let places = Set::new(
                |i: int| 0 <= i < elements.len() && elements[i].1.tag == tag,
            );
            places.finite() && places.len() == tagged_count(elements, tag)
        }),
    decreases elements.len(),
{
    let places = Set::new(|i: int| 0 <= i < elements.len() && elements[i].1.tag == tag);
    if elements.len() == 0 {
        assert(places =~= Set::empty());
    } else {
        let fewer = elements.drop_last();
        let last = elements.len() - 1;
        let before = Set::new(|i: int| 0 <= i < fewer.len() && fewer[i].1.tag == tag);
        lemma_tagged_count(fewer, tag);
        assert(!before.contains(last as int));
        if elements.last().1.tag == tag {
            assert(places =~= before.insert(last as int));
        } else {
            assert(places =~= before);
        }
    }
}

/// A selector by id counts one element or none, and a tag counts the elements
/// that have it.
pub proof fn law_matches_are_counted(page: PageView, selector: Seq<char>)
    ensures
        selector.len() > 0
            && selector[0] == '#' ==> crate::reading::matches(page, selector) == (if has_element(
            page,
            selector,
        ) {
            1nat
        } else {
            0nat
        }),
        !(selector.len() > 0 && selector[0] == '#') ==> places_tagged(page, selector).finite()
            && crate::reading::matches(page, selector) == places_tagged(page, selector).len(),
{
    lemma_find_names();
    law_a_selector_names_what_is_there(page, selector);
    lemma_tagged_count(page.elements, selector);
    if selector.len() > 0 {
        assert(selector.take(1) =~= seq![selector[0]]);
        assert(seq![selector[0]][0] == selector[0]);
        assert(seq!['#'][0] == '#');
    }
}

// ---------------------------------------------------------------------------
// Snapshots

/// Where the entries are keyed by their numbers, each is found under its own.
proof fn lemma_numbered_entry(
    entries: Seq<(Seq<char>, JsonView)>,
    i: int,
    from: int,
)
    requires
        forall|j: int|
            0 <= j < entries.len() ==> (#[trigger] entries[j]).0 == numbered(j),
        0 <= from <= i < entries.len(),
    ensures
        entry_from(entries, numbered(i), from) == Some(entries[i].1),
    decreases i - from,
{
    if from < i {
        lemma_numbered_apart(from, i);
        lemma_numbered_entry(entries, i, from + 1);
    }
}

/// The name of the element with a number, counted from one.
pub open spec fn numbered(i: int) -> Seq<char> {
    seq!['e'] + decimal((i + 1) as nat)
}

/// Elements with different numbers have different names.
proof fn lemma_numbered_apart(i: int, j: int)
    requires
        0 <= i < j,
    ensures
        numbered(i) != numbered(j),
{
    law_written_numbers_are_read_back((i + 1) as nat, (j + 1) as nat);
    law_written_numbers_are_read_back((j + 1) as nat, (j + 1) as nat);
    assert(numbered(i).skip(1) =~= decimal((i + 1) as nat));
    assert(numbered(j).skip(1) =~= decimal((j + 1) as nat));
}

/// A snapshot tells of each element under its number: how it is selected, its tag
/// and its text.
pub proof fn law_a_snapshot_tells_of_every_element(surface_id: Seq<char>, page: PageView, i: int)
    requires
        0 <= i < page.elements.len(),
    ensures
        page_snapshot(surface_id, page).get("refs"@) matches Some(refs) && refs.get(
            numbered(i),
        ) matches Some(told) && told.get("selector"@) == Some(
            JsonView::Text(by_id(page.elements[i].1.id)),
        ) && told.get("tag"@) == Some(JsonView::Text(page.elements[i].1.tag)) && told.get("text"@)
            == Some(JsonView::Text(page.elements[i].1.text)),
        page_snapshot(surface_id, page).get("surface_id"@) == Some(JsonView::Text(surface_id)),
        page_snapshot(surface_id, page).get("live_webview"@) == Some(JsonView::Bool(false)),
{
    broadcast use lemma_with_get;

    lemma_find_names();
    reveal_strlit("e");
    assert("e"@ =~= seq!['e']);
    reveal_strlit("surface_id");
    reveal_strlit("snapshot");
    reveal_strlit("refs");
    reveal_strlit("live_webview");
    reveal_strlit("selector");
    reveal_strlit("tag");
    reveal_strlit("text");
    assert("surface_id"@.len() == 10 && "snapshot"@.len() == 8 && "refs"@.len() == 4
        && "live_webview"@.len() == 12);
    assert("selector"@.len() == 8 && "tag"@.len() == 3 && "text"@.len() == 4);
    let refs = snapshot_refs(page);
    let entries = refs->Object_0;
    assert forall|j: int| 0 <= j < entries.len() implies (#[trigger] entries[j]).0 == numbered(
        j,
    ) by {
        assert(reference(j) == numbered(j));
    }
    lemma_numbered_entry(entries, i, 0);
}

/// The lines of a snapshot: the title, where there is one, and one for each
/// element, with its tag, its id and what it says.
pub proof fn law_a_snapshot_has_a_line_for_every_element(page: PageView, i: int)
    requires
        0 <= i < page.elements.len(),
    ensures
        ({
            let lines = snapshot_lines(page);
            let e = page.elements[i].1;
            let first: int = if page.title.len() == 0 {
                0
            } else {
                1
            };
            &&& lines.len() == page.elements.len() + first
            &&& page.title.len() > 0 ==> lines[0] == page.title
            &&& e.text.len() > 0 ==> lines[i + first] == numbered(i) + " <"@ + e.tag + " id=\""@
                + e.id + "\"> "@ + e.text
            &&& e.text.len() == 0 ==> lines[i + first] == numbered(i) + " <"@ + e.tag + " id=\""@
                + e.id + "\"> "@ + e.value
        }),
{
    reveal_strlit("e");
    assert("e"@ =~= seq!['e']);
    assert(reference(i) == numbered(i));
}

// ---------------------------------------------------------------------------
// Scripts

/// Whether a script asks for none of the things of a whole page.
pub open spec fn is_about_an_element(script: Seq<char>) -> bool {
    &&& !is_part(script, "document.readyState"@)
    &&& !(is_part(script, "document.body"@) && is_part(script, "innerText"@))
    &&& !is_part(script, "document.activeElement"@)
    &&& !(is_part(script, "window.__hover"@) && is_part(script, "window.__dbl"@) && is_part(
        script,
        "window.__keys"@,
    ))
    &&& !is_part(script, "getBoundingClientRect"@)
}

/// What a script holds is what is part of it.
proof fn lemma_script_parts(script: Seq<char>)
    ensures
        holds(script, "document.readyState"@) == is_part(script, "document.readyState"@),
        holds(script, "document.body"@) == is_part(script, "document.body"@),
        holds(script, "innerText"@) == is_part(script, "innerText"@),
        holds(script, "document.activeElement"@) == is_part(script, "document.activeElement"@),
        holds(script, "window.__hover"@) == is_part(script, "window.__hover"@),
        holds(script, "window.__dbl"@) == is_part(script, "window.__dbl"@),
        holds(script, "window.__keys"@) == is_part(script, "window.__keys"@),
        holds(script, "getBoundingClientRect"@) == is_part(script, "getBoundingClientRect"@),
        holds(script, "scrollTop"@) == is_part(script, "scrollTop"@),
        holds(script, "!== null"@) == is_part(script, "!== null"@),
        holds(script, ".value"@) == is_part(script, ".value"@),
        holds(script, ".textContent"@) == is_part(script, ".textContent"@),
{
    law_a_text_holds_its_parts(script, "document.readyState"@);
    law_a_text_holds_its_parts(script, "document.body"@);
    law_a_text_holds_its_parts(script, "innerText"@);
    law_a_text_holds_its_parts(script, "document.activeElement"@);
    law_a_text_holds_its_parts(script, "window.__hover"@);
    law_a_text_holds_its_parts(script, "window.__dbl"@);
    law_a_text_holds_its_parts(script, "window.__keys"@);
    law_a_text_holds_its_parts(script, "getBoundingClientRect"@);
    law_a_text_holds_its_parts(script, "scrollTop"@);
    law_a_text_holds_its_parts(script, "!== null"@);
    law_a_text_holds_its_parts(script, ".value"@);
    law_a_text_holds_its_parts(script, ".textContent"@);
}

/// A script that queries an element by its id is told whether it is there, what
/// its value is, what it says or how far it is scrolled.
pub proof fn law_scripts_are_told_of_elements(page: PageView, script: Seq<char>, id: Seq<char>)
    requires
        is_about_an_element(script),
        queried(script) == Some(by_id(id)),
        lookup(page.elements, id) is Some,
    ensures
        ({
            let e = lookup(page.elements, id)->0;
            let told = script_answer(page, script);
            &&& is_part(script, "scrollTop"@) ==> told == integer_view(e.scroll_top)
            &&& !is_part(script, "scrollTop"@) && is_part(script, "!== null"@) ==> told
                == JsonView::Bool(true)
            &&& !is_part(script, "scrollTop"@) && !is_part(script, "!== null"@) && is_part(
                script,
                ".value"@,
            ) ==> told == JsonView::Text(e.value)
            &&& !is_part(script, "scrollTop"@) && !is_part(script, "!== null"@) && !is_part(
                script,
                ".value"@,
            ) && is_part(script, ".textContent"@) ==> told == JsonView::Text(e.text)
        }),
{
    lemma_script_parts(script);
    crate::touching::lemma_by_id(page, id);
}

/// A script is told of the page: that it is there, its text, the element with the
/// focus, and how often keys and pointer were counted.
pub proof fn law_scripts_are_told_of_the_page(page: PageView, script: Seq<char>)
    ensures
        ({
            let told = script_answer(page, script);
            let ready = is_part(script, "document.readyState"@);
            let text = is_part(script, "document.body"@) && is_part(script, "innerText"@);
            let focus = is_part(script, "document.activeElement"@);
            let counts = is_part(script, "window.__hover"@) && is_part(script, "window.__dbl"@)
                && is_part(script, "window.__keys"@);
            &&& ready ==> told == JsonView::Text("complete"@)
            &&& !ready && text ==> told == JsonView::Text(page_text(page))
            &&& !ready && !text && focus ==> (page.active_element_id matches Some(id) ==> told
                == JsonView::Text(id))
            &&& !ready && !text && focus && page.active_element_id is None ==> told
                == JsonView::Text(Seq::empty())
            &&& !ready && !text && !focus && counts ==> {
                &&& told.get("hover"@) == Some(JsonView::Unsigned(page.hover_count))
                &&& told.get("dbl"@) == Some(JsonView::Unsigned(page.dbl_count))
                &&& told.get("down"@) == Some(JsonView::Unsigned(page.key_down_count))
                &&& told.get("up"@) == Some(JsonView::Unsigned(page.key_up_count))
                &&& told.get("press"@) == Some(JsonView::Unsigned(page.key_press_count))
            }
        }),
{
    broadcast use lemma_with_get;

    lemma_script_parts(script);
    reveal_strlit("hover");
    reveal_strlit("dbl");
    reveal_strlit("down");
    reveal_strlit("up");
    reveal_strlit("press");
    assert("hover"@[0] == 'h' && "dbl"@.len() == 3 && "down"@.len() == 4 && "up"@.len() == 2
        && "press"@[0] == 'p' && "hover"@.len() == 5 && "press"@.len() == 5);
}

/// Where a text occurs and nowhere before, it is found.
pub proof fn lemma_found_first(s: Seq<char>, needle: Seq<char>, from: int, at: int)
    requires
        0 <= from <= at,
        occurs_at(s, needle, at),
        forall|i: int| from <= i < at ==> !#[trigger] occurs_at(s, needle, i),
    ensures
        find_from(s, needle, from) == Some(at),
    decreases at - from,
{
    if from < at {
        assert(!occurs_at(s, needle, from));
        lemma_found_first(s, needle, from + 1, at);
    }
}

/// A script that calls `querySelector` on the document queries the selector
/// between the quotes.
pub proof fn law_a_script_queries_what_it_quotes(selector: Seq<char>, rest: Seq<char>)
    requires
        forall|i: int| 0 <= i < selector.len() ==> #[trigger] selector[i] != '\'',
    ensures
        queried("document.querySelector('"@ + selector + "'"@ + rest) == Some(selector),
{
    let head = "document.querySelector('"@;
    let marker = "querySelector('"@;
    let script = head + selector + "'"@ + rest;
    reveal_strlit("document.querySelector('");
    reveal_strlit("querySelector('");
    reveal_strlit("'");
    assert(head.len() == 24 && marker.len() == 15);
    assert(script.subrange(9, 24) =~= marker);
    assert(marker[0] == 'q');
    assert forall|i: int| 0 <= i < 9 implies !#[trigger] occurs_at(script, marker, i) by {
        assert(script[i] == head[i]);
        if occurs_at(script, marker, i) {
            assert(script.subrange(i, i + marker.len())[0] == script[i]);
        }
    }
    lemma_found_first(script, marker, 0, 9);
    let end: int = 24 + selector.len() as int;
    assert(script.subrange(end, end + 1) =~= "'"@);
    assert forall|i: int| 24 <= i < end implies !#[trigger] occurs_at(script, "'"@, i) by {
        assert(script[i] == selector[i - 24]);
        if occurs_at(script, "'"@, i) {
            assert(script.subrange(i, i + 1)[0] == script[i]);
        }
    }
    lemma_found_first(script, "'"@, 24, end);
    assert(script.subrange(24, end) =~= selector);
}

} // verus!
