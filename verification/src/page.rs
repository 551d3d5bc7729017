//! What a browser surface knows of its page when no live view answers: the
//! markup of a data URL, the elements that carry an id, and the counters that
//! scripted input moves.

use crate::json::optional_chars;
use crate::keyed::{
    find, in_order, keyed, law_put_keeps_order, lemma_lookup_seen, lemma_put_entries, lemma_put_seen, lookup,
    put, put_entry, seen,
};
use crate::markup::{
    after_char, attr, attrs_of, attrs_view, between, char_position, extract_between, find_char,
    law_attrs_in_order, lemma_find_char, parse_attrs, plus_to_space, rest_after, spaced, strip_tags, trim_slashes, unslashed,
    untagged,
};
use crate::percent::{can_percent_decode, decodable, percent_decode, percent_decoded};
use crate::text::{
    chars_of, contains, find_chars, find_from, first_word, has_prefix, holds, join3, lowered, same,
    split_word, starts_with, strip_prefix, text_between, to_lower, trim, trimmed,
};
use vstd::prelude::*;

verus! {

/// An element of a page that carries an id.
pub struct BrowserElement {
    pub id: String,
    pub tag: String,
    pub text: String,
    pub html: String,
    pub value: String,
    pub checked: bool,
    pub disabled: bool,
    pub visible: bool,
    pub scroll_top: i64,
    pub attrs: Vec<(String, String)>,
}

/// What an element is.
#[verifier::ext_equal]
pub struct ElementView {
    pub id: Seq<char>,
    pub tag: Seq<char>,
    pub text: Seq<char>,
    pub html: Seq<char>,
    pub value: Seq<char>,
    pub checked: bool,
    pub disabled: bool,
    pub visible: bool,
    pub scroll_top: i64,
    pub attrs: Seq<(Seq<char>, Seq<char>)>,
}

impl View for BrowserElement {
    type V = ElementView;

    open spec fn view(&self) -> ElementView {
        ElementView {
            id: self.id@,
            tag: self.tag@,
            text: self.text@,
            html: self.html@,
            value: self.value@,
            checked: self.checked,
            disabled: self.disabled,
            visible: self.visible,
            scroll_top: self.scroll_top,
            attrs: attrs_view(self.attrs@),
        }
    }
}

/// The state of a page. The elements stand in the order of their ids.
pub struct BrowserState {
    pub html: String,
    pub title: String,
    pub active_element_id: Option<String>,
    pub page_scroll_y: i64,
    pub hover_count: u64,
    pub dbl_count: u64,
    pub key_down_count: u64,
    pub key_up_count: u64,
    pub key_press_count: u64,
    pub elements: Vec<(String, BrowserElement)>,
}

/// What the state of a page is.
#[verifier::ext_equal]
pub struct PageView {
    pub html: Seq<char>,
    pub title: Seq<char>,
    pub active_element_id: Option<Seq<char>>,
    pub page_scroll_y: i64,
    pub hover_count: u64,
    pub dbl_count: u64,
    pub key_down_count: u64,
    pub key_up_count: u64,
    pub key_press_count: u64,
    pub elements: Seq<(Seq<char>, ElementView)>,
}

/// What the elements of a page are.
pub open spec fn elements_view(elements: Seq<(String, BrowserElement)>) -> Seq<
    (Seq<char>, ElementView),
> {
    elements.map_values(|e: (String, BrowserElement)| (e.0@, e.1@))
}

impl View for BrowserState {
    type V = PageView;

    open spec fn view(&self) -> PageView {
        PageView {
            html: self.html@,
            title: self.title@,
            active_element_id: optional_chars(self.active_element_id),
            page_scroll_y: self.page_scroll_y,
            hover_count: self.hover_count,
            dbl_count: self.dbl_count,
            key_down_count: self.key_down_count,
            key_up_count: self.key_up_count,
            key_press_count: self.key_press_count,
            elements: elements_view(self.elements@),
        }
    }
}

/// The view of the elements goes through their keys.
proof fn lemma_elements_view(elements: Seq<(String, BrowserElement)>)
    ensures
        elements_view(elements) == seen(keyed(elements), |e: BrowserElement| e@),
{
    assert(elements_view(elements) =~= seen(keyed(elements), |e: BrowserElement| e@));
}

impl PageView {
    /// A page without anything on it.
    pub open spec fn blank() -> PageView {
        PageView {
            html: Seq::empty(),
            title: Seq::empty(),
            active_element_id: None,
            page_scroll_y: 0,
            hover_count: 0,
            dbl_count: 0,
            key_down_count: 0,
            key_up_count: 0,
            key_press_count: 0,
            elements: Seq::empty(),
        }
    }

    /// Whether there is nothing on the page.
    pub open spec fn is_blank(self) -> bool {
        self.html.len() == 0 && self.elements.len() == 0
    }

    /// Whether the elements, and the attributes of each, stand in the order of
    /// their names, each name once.
    pub open spec fn well_formed(self) -> bool {
        &&& in_order(self.elements)
        &&& forall|i: int|
            0 <= i < self.elements.len() ==> in_order((#[trigger] self.elements[i]).1.attrs)
    }

    /// The page with an element put under an id.
    pub open spec fn with_element(self, id: Seq<char>, element: ElementView) -> PageView {
        PageView { elements: put(self.elements, id, element), ..self }
    }
}

impl Default for BrowserState {
    fn default() -> (r: BrowserState)
        ensures
            r@ == PageView::blank(),
    {
        let r = BrowserState {
            html: String::new(),
            title: String::new(),
            active_element_id: None,
            page_scroll_y: 0,
            hover_count: 0,
            dbl_count: 0,
            key_down_count: 0,
            key_up_count: 0,
            key_press_count: 0,
            elements: Vec::new(),
        };
        assert(r@ =~= PageView::blank());
        r
    }
}

/// A copy of attributes.
fn copy_attrs(attrs: &Vec<(String, String)>) -> (r: Vec<(String, String)>)
    ensures
        attrs_view(r@) == attrs_view(attrs@),
{
    let mut out: Vec<(String, String)> = Vec::new();
    let mut i: usize = 0;
    while i < attrs.len()
        invariant
            i <= attrs@.len(),
            out@.len() == i,
            forall|j: int|
                0 <= j < i ==> (#[trigger] out@[j]).0@ == attrs@[j].0@ && out@[j].1@ == attrs@[j].1@,
        decreases attrs@.len() - i,
    {
        out.push((attrs[i].0.clone(), attrs[i].1.clone()));
        i += 1;
    }
    assert(attrs_view(out@) =~= attrs_view(attrs@));
    out
}

/// A copy of an optional text.
pub fn copy_optional(s: &Option<String>) -> (r: Option<String>)
    ensures
        optional_chars(r) == optional_chars(*s),
{
    match s {
        Some(t) => Some(t.clone()),
        None => None,
    }
}

impl BrowserElement {
    /// A copy of the element.
    pub fn copy(&self) -> (r: BrowserElement)
        ensures
            r@ == self@,
    {
        BrowserElement {
            id: self.id.clone(),
            tag: self.tag.clone(),
            text: self.text.clone(),
            html: self.html.clone(),
            value: self.value.clone(),
            checked: self.checked,
            disabled: self.disabled,
            visible: self.visible,
            scroll_top: self.scroll_top,
            attrs: copy_attrs(&self.attrs),
        }
    }
}

impl BrowserState {
    /// A copy of the state.
    pub fn copy(&self) -> (r: BrowserState)
        ensures
            r@ == self@,
    {
        let mut elements: Vec<(String, BrowserElement)> = Vec::new();
        let mut i: usize = 0;
        while i < self.elements.len()
            invariant
                i <= self.elements@.len(),
                elements@.len() == i,
                forall|j: int|
                    0 <= j < i ==> (#[trigger] elements@[j]).0@ == self.elements@[j].0@
                        && elements@[j].1@ == self.elements@[j].1@,
            decreases self.elements@.len() - i,
        {
            elements.push((self.elements[i].0.clone(), self.elements[i].1.copy()));
            i += 1;
        }
        assert(elements_view(elements@) =~= elements_view(self.elements@));
        BrowserState {
            html: self.html.clone(),
            title: self.title.clone(),
            active_element_id: copy_optional(&self.active_element_id),
            page_scroll_y: self.page_scroll_y,
            hover_count: self.hover_count,
            dbl_count: self.dbl_count,
            key_down_count: self.key_down_count,
            key_up_count: self.key_up_count,
            key_press_count: self.key_press_count,
            elements,
        }
    }

    /// Whether there is nothing on the page.
    pub fn is_empty(&self) -> (r: bool)
        ensures
            r == self@.is_blank(),
    {
        self.html.as_str().is_empty() && self.elements.is_empty()
    }

    /// The element under an id.
    pub fn element(&self, id: &str) -> (r: Option<&BrowserElement>)
        ensures
            match r {
                Some(e) => lookup(self@.elements, id@) == Some(e@),
                None => lookup(self@.elements, id@) is None,
            },
    {
        proof {
            lemma_elements_view(self.elements@);
            lemma_lookup_seen(keyed(self.elements@), id@, |e: BrowserElement| e@);
        }
        find(&self.elements, id)
    }

    /// Puts an element under an id.
    pub fn put_element(&mut self, id: String, element: BrowserElement)
        ensures
            final(self)@ == old(self)@.with_element(id@, element@),
    {
        proof {
            lemma_elements_view(self.elements@);
            lemma_put_seen(keyed(self.elements@), id@, element, |e: BrowserElement| e@);
        }
        put_entry(&mut self.elements, id, element);
        proof {
            lemma_elements_view(self.elements@);
        }
    }
}

// ---------------------------------------------------------------------------
// Reading a page

/// What a data URL of markup carries, still encoded.
pub open spec fn url_body(url: Seq<char>) -> Option<Seq<char>> {
    if has_prefix(url, "data:text/html"@) {
        after_char(url.skip("data:text/html"@.len() as int), ',')
    } else {
        None
    }
}

/// Whether the markup that a URL carries, if any, can be decoded.
pub open spec fn readable(url: Seq<char>) -> bool {
    match url_body(url) {
        Some(body) => decodable(spaced(body)),
        None => true,
    }
}

/// The markup that a URL carries.
pub open spec fn html_of(url: Seq<char>) -> Option<Seq<char>> {
    match url_body(url) {
        Some(body) => Some(percent_decoded(spaced(body))),
        None => None,
    }
}

/// What a data URL of markup carries, still encoded.
fn encoded_html(url: &str) -> (r: Option<String>)
    ensures
        optional_chars(r) == url_body(url@),
{
    match strip_prefix(url, "data:text/html") {
        Some(rest) => rest_after(rest.as_str(), ','),
        None => None,
    }
}

/// Whether the markup that a URL carries, if any, can be decoded.
pub fn can_read_url(url: &str) -> (r: bool)
    ensures
        r == readable(url@),
{
    match encoded_html(url) {
        Some(body) => can_percent_decode(plus_to_space(body.as_str()).as_str()),
        None => true,
    }
}

/// The markup that a URL carries.
pub fn html_from_url(url: &str) -> (r: Option<String>)
    requires
        readable(url@),
    ensures
        optional_chars(r) == html_of(url@),
{
    match encoded_html(url) {
        Some(body) => Some(percent_decode(plus_to_space(body.as_str()).as_str())),
        None => None,
    }
}

/// The title of a page: what follows the title tag.
pub open spec fn title_of(html: Seq<char>) -> Seq<char> {
    match between(html, "<title"@, "</title>"@) {
        Some(chunk) => match after_char(chunk, '>') {
            Some(title) => title,
            None => Seq::empty(),
        },
        None => Seq::empty(),
    }
}

/// The title of a page.
fn title_from_html(html: &str) -> (r: String)
    ensures
        r@ == title_of(html@),
{
    match extract_between(html, "<title", "</title>") {
        Some(chunk) => match rest_after(chunk.as_str(), '>') {
            Some(title) => title,
            None => String::new(),
        },
        None => String::new(),
    }
}

/// Whether what stands in a tag opens no element: a closing tag, a comment, a
/// script or a style.
pub open spec fn passed_over(content: Seq<char>) -> bool {
    has_prefix(content, "/"@) || has_prefix(content, "!"@) || has_prefix(content, "script"@)
        || has_prefix(content, "style"@)
}

/// The name of a tag.
pub open spec fn tag_name(content: Seq<char>) -> Seq<char> {
    match first_word(content) {
        Some(word) => lowered(unslashed(word)),
        None => Seq::empty(),
    }
}

/// The name of a tag.
fn tag_from_content(content: &str) -> (r: String)
    ensures
        r@ == tag_name(content@),
{
    match split_word(content) {
        Some((word, _)) => to_lower(trim_slashes(word.as_str()).as_str()),
        None => {
            let r = String::new();
            assert(lowered(r@) =~= r@);
            r
        },
    }
}

/// The tag that closes an element.
pub open spec fn closing(tag: Seq<char>) -> Seq<char> {
    "</"@ + tag + ">"@
}

/// The text of an element whose opening tag ends before `cursor`.
pub open spec fn inner_text(html: Seq<char>, cursor: int, tag: Seq<char>) -> Option<Seq<char>> {
    match find_from(html, closing(tag), cursor) {
        Some(end) => Some(trimmed(untagged(html.subrange(cursor, end)))),
        None => None,
    }
}

/// The markup of an element from its opening tag, which starts at `open`, to
/// its closing one.
pub open spec fn outer_html(html: Seq<char>, open: int, cursor: int, tag: Seq<char>) -> Option<
    Seq<char>,
> {
    match find_from(html, closing(tag), cursor) {
        Some(end) => Some(html.subrange(open, end + closing(tag).len())),
        None => None,
    }
}

/// The text of an element.
fn element_inner_text(html: &Vec<char>, cursor: usize, tag: &str) -> (r: Option<String>)
    requires
        cursor <= html@.len(),
    ensures
        optional_chars(r) == inner_text(html@, cursor as int, tag@),
{
    let close_tag = join3("</", tag, ">");
    match find_chars(html, &chars_of(close_tag.as_str()), cursor) {
        Some(end) => {
            let inside = text_between(html, cursor, end);
            Some(trim(strip_tags(inside.as_str()).as_str()))
        },
        None => None,
    }
}

/// The markup of an element.
fn element_outer_html(html: &Vec<char>, open: usize, cursor: usize, tag: &str) -> (r: Option<String>)
    requires
        open <= cursor <= html@.len(),
    ensures
        optional_chars(r) == outer_html(html@, open as int, cursor as int, tag@),
{
    let close_tag = chars_of(join3("</", tag, ">").as_str());
    assert(html.len() <= usize::MAX);
    match find_chars(html, &close_tag, cursor) {
        Some(end) => Some(text_between(html, open, end + close_tag.len())),
        None => None,
    }
}

/// The text that may be absent, or nothing.
pub open spec fn or_empty(s: Option<Seq<char>>) -> Seq<char> {
    match s {
        Some(t) => t,
        None => Seq::empty(),
    }
}

/// The text that may be absent, or nothing.
pub fn text_or_empty(s: Option<String>) -> (r: String)
    ensures
        r@ == or_empty(optional_chars(s)),
{
    match s {
        Some(t) => t,
        None => String::new(),
    }
}

/// Whether an element is shown: neither its own style nor a rule of the page
/// hides it.
pub open spec fn shown(html: Seq<char>, id: Seq<char>, style: Seq<char>) -> bool {
    &&& !holds(style, "display: none"@)
    &&& !holds(html, "#"@ + id + " { display: none"@)
    &&& id != "hidden"@
}

/// The element that the tag between `open` and `close` opens, if it opens one
/// that carries an id.
pub open spec fn element_at(html: Seq<char>, open: int, close: int) -> Option<ElementView> {
    let content = html.subrange(open + 1, close);
    let tag = tag_name(content);
    let attrs = attrs_of(content);
    match lookup(attrs, "id"@) {
        Some(id) => if passed_over(content) || tag.len() == 0 {
            None
        } else {
            Some(
                ElementView {
                    id,
                    tag,
                    text: or_empty(inner_text(html, close + 1, tag)),
                    html: match outer_html(html, open, close + 1, tag) {
                        Some(h) => h,
                        None => html.subrange(open, close + 1),
                    },
                    value: or_empty(lookup(attrs, "value"@)),
                    checked: lookup(attrs, "checked"@) is Some,
                    disabled: lookup(attrs, "disabled"@) is Some,
                    visible: shown(html, id, or_empty(lookup(attrs, "style"@))),
                    scroll_top: 0,
                    attrs,
                },
            )
        },
        None => None,
    }
}

/// The elements from `cursor` on, put among those already found.
pub open spec fn elements_from(
    html: Seq<char>,
    cursor: int,
    found: Seq<(Seq<char>, ElementView)>,
) -> Seq<(Seq<char>, ElementView)>
    decreases html.len() - cursor,
{
    if cursor < 0 {
        found
    } else {
        match find_char(html, '<', cursor) {
            None => found,
            Some(open) => {
                proof {
                    lemma_find_char(html, '<', cursor);
                    lemma_find_char(html, '>', open);
                }
                match find_char(html, '>', open) {
                    None => found,
                    Some(close) => elements_from(
                        html,
                        close + 1,
                        match element_at(html, open, close) {
                            Some(e) => put(found, e.id, e),
                            None => found,
                        },
                    ),
                }
            },
        }
    }
}

/// A copy of the value of an attribute.
fn attr_text(attrs: &Vec<(String, String)>, name: &str) -> (r: String)
    ensures
        r@ == or_empty(lookup(attrs_view(attrs@), name@)),
{
    match attr(attrs, name) {
        Some(v) => v.clone(),
        None => String::new(),
    }
}

/// Whether an element is shown.
fn is_shown(html: &str, id: &str, style: &str) -> (r: bool)
    ensures
        r == shown(html@, id@, style@),
{
    !contains(style, "display: none") && !contains(
        html,
        join3("#", id, " { display: none").as_str(),
    ) && !same(id, "hidden")
}

/// The element that the tag between `open` and `close` opens.
fn read_element(html: &Vec<char>, whole: &str, open: usize, close: usize) -> (r: Option<
    BrowserElement,
>)
    requires
        open < close < html@.len(),
        whole@ == html@,
    ensures
        match r {
            Some(e) => element_at(html@, open as int, close as int) == Some(e@),
            None => element_at(html@, open as int, close as int) is None,
        },
{
    let content = text_between(html, open + 1, close);
    if starts_with(content.as_str(), "/") || starts_with(content.as_str(), "!") || starts_with(
        content.as_str(),
        "script",
    ) || starts_with(content.as_str(), "style") {
        return None;
    }
    let tag = tag_from_content(content.as_str());
    if tag.as_str().is_empty() {
        return None;
    }
    let attrs = parse_attrs(content.as_str());
    assert(html.len() <= usize::MAX);
    match attr(&attrs, "id") {
        None => None,
        Some(found) => {
            let id = found.clone();
            let cursor: usize = close + 1;
            let text = text_or_empty(element_inner_text(html, cursor, tag.as_str()));
            let element_html = match element_outer_html(html, open, cursor, tag.as_str()) {
                Some(h) => h,
                None => text_between(html, open, cursor),
            };
            let value = attr_text(&attrs, "value");
            let style = attr_text(&attrs, "style");
            let visible = is_shown(whole, id.as_str(), style.as_str());
            let checked = attr(&attrs, "checked").is_some();
            let disabled = attr(&attrs, "disabled").is_some();
            Some(
                BrowserElement {
                    id,
                    tag,
                    text,
                    html: element_html,
                    value,
                    checked,
                    disabled,
                    visible,
                    scroll_top: 0,
                    attrs,
                },
            )
        },
    }
}

/// Puts the elements of the page's markup on the page.
fn parse_browser_elements(state: &mut BrowserState)
    ensures
        final(state)@ == (PageView {
            elements: elements_from(old(state)@.html, 0, old(state)@.elements),
            ..old(state)@
        }),
{
    let whole = state.html.clone();
    let html = chars_of(whole.as_str());
    let ghost goal = elements_from(html@, 0, state@.elements);
    let ghost before = state@;
    let mut cursor: usize = 0;
    let length: usize = html.len();
    loop
        invariant
            cursor <= html@.len(),
            length == html@.len(),
            whole@ == html@,
            before == old(state)@,
            before.html == html@,
            goal == elements_from(before.html, 0, before.elements),
            elements_from(html@, cursor as int, state@.elements) == goal,
            state@ == (PageView { elements: state@.elements, ..before }),
        decreases html@.len() - cursor,
    {
        match char_position(&html, '<', cursor) {
            None => {
                return ;
            },
            Some(open) => match char_position(&html, '>', open) {
                None => {
                    return ;
                },
                Some(close) => {
                    match read_element(&html, whole.as_str(), open, close) {
                        Some(element) => {
                            let id = element.id.clone();
                            state.put_element(id, element);
                        },
                        None => {},
                    }
                    cursor = close + 1;
                },
            },
        }
    }
}

/// The page that a URL shows.
pub open spec fn page_for(url: Seq<char>) -> PageView {
    let html = or_empty(html_of(url));
    PageView {
        html,
        title: title_of(html),
        elements: elements_from(html, 0, Seq::empty()),
        ..PageView::blank()
    }
}

/// The page that a URL shows.
pub fn browser_state_for_url(url: &str) -> (r: BrowserState)
    requires
        readable(url@),
    ensures
        r@ == page_for(url@),
{
    let html = text_or_empty(html_from_url(url));
    let title = title_from_html(html.as_str());
    let mut state = BrowserState::default();
    state.html = html;
    state.title = title;
    parse_browser_elements(&mut state);
    state
}

// ---------------------------------------------------------------------------
// Laws

/// Putting an element whose attributes are in order on a well-formed page
/// leaves it well-formed.
pub proof fn law_put_element_keeps_form(page: PageView, id: Seq<char>, element: ElementView)
    requires
        page.well_formed(),
        in_order(element.attrs),
    ensures
        page.with_element(id, element).well_formed(),
{
    let after = page.with_element(id, element);
    law_put_keeps_order(page.elements, id, element);
    assert forall|i: int| 0 <= i < after.elements.len() implies in_order(
        (#[trigger] after.elements[i]).1.attrs,
    ) by {
        lemma_put_entries(page.elements, id, element, i);
        if after.elements[i] != (id, element) {
            let k = choose|k: int|
                0 <= k < page.elements.len() && page.elements[k] == after.elements[i];
            assert(in_order(page.elements[k].1.attrs));
        }
    }
}

/// Reading elements keeps a page well-formed.
proof fn lemma_elements_from_form(html: Seq<char>, cursor: int, page: PageView)
    requires
        page.well_formed(),
    ensures
        (PageView { elements: elements_from(html, cursor, page.elements), ..page }).well_formed(),
    decreases html.len() - cursor,
{
    if cursor >= 0 && find_char(html, '<', cursor) is Some {
        let open = find_char(html, '<', cursor)->0;
        lemma_find_char(html, '<', cursor);
        lemma_find_char(html, '>', open);
        if find_char(html, '>', open) is Some {
            let close = find_char(html, '>', open)->0;
            match element_at(html, open, close) {
                Some(e) => {
                    law_attrs_in_order(html.subrange(open + 1, close));
                    law_put_element_keeps_form(page, e.id, e);
                    lemma_elements_from_form(html, close + 1, page.with_element(e.id, e));
                },
                None => {
                    lemma_elements_from_form(html, close + 1, page);
                },
            }
        }
    }
}

/// The page that a URL shows is well-formed.
pub proof fn law_read_page_is_well_formed(url: Seq<char>)
    ensures
        page_for(url).well_formed(),
{
    let html = or_empty(html_of(url));
    let start = PageView { html, title: title_of(html), ..PageView::blank() };
    lemma_elements_from_form(html, 0, start);
}

/// A URL that carries no markup shows a blank page.
pub proof fn law_other_urls_show_a_blank_page(url: Seq<char>)
    requires
        url_body(url) is None,
    ensures
        page_for(url) == PageView::blank(),
        page_for(url).is_blank(),
{
    reveal_strlit("<title");
    let nothing = Seq::<char>::empty();
    assert("<title"@.len() == 6);
    assert(find_from(nothing, "<title"@, 0) is None);
    assert(find_char(nothing, '<', 0) is None);
    assert(page_for(url) =~= PageView::blank());
}

} // verus!
