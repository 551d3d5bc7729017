//! JSON values: what a request carries and what an answer is made of.

use crate::text::{owned, same, texts};
use serde_json::Value;
use vstd::prelude::*;

verus! {

/// A JSON value. A number is an unsigned integer, a negative integer, or a
/// fraction, which is held as the bits of its IEEE 754 double.
pub enum Json {
    Null,
    Bool(bool),
    Unsigned(u64),
    Negative(i64),
    Real(u64),
    Text(String),
    Array(Vec<Json>),
    Object(Vec<(String, Json)>),
}

/// What a JSON value is.
pub enum JsonView {
    Null,
    Bool(bool),
    Unsigned(u64),
    Negative(i64),
    Real(u64),
    Text(Seq<char>),
    Array(Seq<JsonView>),
    Object(Seq<(Seq<char>, JsonView)>),
}

impl Json {
    /// What the value is.
    pub open spec fn view(&self) -> JsonView
        decreases self,
    {
        match *self {
            Json::Null => JsonView::Null,
            Json::Bool(b) => JsonView::Bool(b),
            Json::Unsigned(n) => JsonView::Unsigned(n),
            Json::Negative(n) => JsonView::Negative(n),
            Json::Real(bits) => JsonView::Real(bits),
            Json::Text(s) => JsonView::Text(s@),
            Json::Array(items) => JsonView::Array(
                Seq::new(
                    items@.len(),
                    |i: int|
                        if 0 <= i < items@.len() {
                            items@[i].view()
                        } else {
                            JsonView::Null
                        },
                ),
            ),
            Json::Object(entries) => JsonView::Object(
                Seq::new(
                    entries@.len(),
                    |i: int|
                        if 0 <= i < entries@.len() {
                            (entries@[i].0@, entries@[i].1.view())
                        } else {
                            (Seq::empty(), JsonView::Null)
                        },
                ),
            ),
        }
    }
}

/// What the items of an array are.
pub open spec fn items_view(items: Seq<Json>) -> Seq<JsonView> {
    Seq::new(items.len(), |i: int| items[i].view())
}

/// What the entries of an object are.
pub open spec fn entries_view(entries: Seq<(String, Json)>) -> Seq<(Seq<char>, JsonView)> {
    Seq::new(entries.len(), |i: int| (entries[i].0@, entries[i].1.view()))
}

/// The view of an array goes item by item.
pub broadcast proof fn lemma_array_view(items: Vec<Json>)
    ensures
        #[trigger] Json::Array(items).view() == JsonView::Array(items_view(items@)),
{
    let v = Json::Array(items).view();
    assert(v->Array_0 =~= items_view(items@));
}

/// The view of an object goes entry by entry.
pub broadcast proof fn lemma_object_view(entries: Vec<(String, Json)>)
    ensures
        #[trigger] Json::Object(entries).view() == JsonView::Object(entries_view(entries@)),
{
    let v = Json::Object(entries).view();
    assert(v->Object_0 =~= entries_view(entries@));
}

/// The value of the first entry, from `i` on, that has the key.
pub open spec fn entry_from(
    entries: Seq<(Seq<char>, JsonView)>,
    key: Seq<char>,
    i: int,
) -> Option<JsonView>
    decreases entries.len() - i,
{
    if i < 0 || i >= entries.len() {
        None
    } else if entries[i].0 == key {
        Some(entries[i].1)
    } else {
        entry_from(entries, key, i + 1)
    }
}

impl JsonView {
    /// What stands under a key of an object; a value of another kind has
    /// nothing under any key.
    pub open spec fn get(self, key: Seq<char>) -> Option<JsonView> {
        match self {
            JsonView::Object(entries) => entry_from(entries, key, 0),
            _ => None,
        }
    }

    /// The text that the value is.
    pub open spec fn as_text(self) -> Option<Seq<char>> {
        match self {
            JsonView::Text(s) => Some(s),
            _ => None,
        }
    }

    /// The unsigned integer that the value is.
    pub open spec fn as_unsigned(self) -> Option<u64> {
        match self {
            JsonView::Unsigned(n) => Some(n),
            _ => None,
        }
    }
}

/// What an optional value is.
pub open spec fn optional_view(value: Option<Json>) -> Option<JsonView> {
    match value {
        Some(v) => Some(v@),
        None => None,
    }
}

/// What an optional reference is.
pub open spec fn optional_ref_view(value: Option<&Json>) -> Option<JsonView> {
    match value {
        Some(v) => Some(v@),
        None => None,
    }
}

impl Json {
    /// What stands under a key.
    pub fn get(&self, key: &str) -> (r: Option<&Json>)
        ensures
            optional_ref_view(r) == self@.get(key@),
    {
        broadcast use lemma_object_view;

        match self {
            Json::Object(entries) => {
                let ghost all = entries_view(entries@);
                let mut i: usize = 0;
                while i < entries.len()
                    invariant
                        i <= entries@.len(),
                        all == entries_view(entries@),
                        self@ == JsonView::Object(all),
                        entry_from(all, key@, i as int) == entry_from(all, key@, 0),
                    decreases entries@.len() - i,
                {
                    if same(entries[i].0.as_str(), key) {
                        return Some(&entries[i].1);
                    }
                    i += 1;
                }
                None
            },
            _ => None,
        }
    }

    /// The text that the value is.
    pub fn as_str(&self) -> (r: Option<&str>)
        ensures
            match r {
                Some(s) => self@.as_text() == Some(s@),
                None => self@.as_text() is None,
            },
    {
        match self {
            Json::Text(s) => Some(s.as_str()),
            _ => None,
        }
    }

    /// The unsigned integer that the value is.
    pub fn as_u64(&self) -> (r: Option<u64>)
        ensures
            r == self@.as_unsigned(),
    {
        match self {
            Json::Unsigned(n) => Some(*n),
            _ => None,
        }
    }

    /// The items of an array.
    pub fn as_array(&self) -> (r: Option<&Vec<Json>>)
        ensures
            match r {
                Some(items) => self@ == JsonView::Array(items_view(items@)),
                None => !(self@ is Array),
            },
    {
        broadcast use lemma_array_view;

        match self {
            Json::Array(items) => Some(items),
            _ => None,
        }
    }

    /// Whether the value is null.
    pub fn is_null(&self) -> (r: bool)
        ensures
            r == (self@ == JsonView::Null),
    {
        match self {
            Json::Null => true,
            _ => false,
        }
    }

    /// A copy of the value.
    pub fn copy(&self) -> (r: Json)
        ensures
            r@ == self@,
        decreases self,
    {
        broadcast use {lemma_array_view, lemma_object_view};

        match self {
            Json::Null => Json::Null,
            Json::Bool(b) => Json::Bool(*b),
            Json::Unsigned(n) => Json::Unsigned(*n),
            Json::Negative(n) => Json::Negative(*n),
            Json::Real(bits) => Json::Real(*bits),
            Json::Text(s) => Json::Text(s.clone()),
            Json::Array(items) => {
                let mut out: Vec<Json> = Vec::new();
                let mut i: usize = 0;
                while i < items.len()
                    invariant
                        i <= items@.len(),
                        *self == Json::Array(*items),
                        out@.len() == i,
                        forall|j: int| 0 <= j < i ==> (#[trigger] out@[j]).view() == items@[j].view(),
                    decreases items@.len() - i,
                {
                    assert(decreases_to!(*self => self->Array_0));
                    assert(decreases_to!(*items => items@));
                    assert(decreases_to!(items@ => items@[i as int]));
                    let item = items[i].copy();
                    out.push(item);
                    i += 1;
                }
                assert(items_view(out@) =~= items_view(items@));
                Json::Array(out)
            },
            Json::Object(entries) => {
                let mut out: Vec<(String, Json)> = Vec::new();
                let mut i: usize = 0;
                while i < entries.len()
                    invariant
                        i <= entries@.len(),
                        *self == Json::Object(*entries),
                        out@.len() == i,
                        forall|j: int|
                            0 <= j < i ==> (#[trigger] out@[j]).0@ == entries@[j].0@ && out@[j].1.view()
                                == entries@[j].1.view(),
                    decreases entries@.len() - i,
                {
                    assert(decreases_to!(*self => self->Object_0));
                    assert(decreases_to!(*entries => entries@));
                    assert(decreases_to!(entries@ => entries@[i as int]));
                    assert(decreases_to!(entries@[i as int] => entries@[i as int].1));
                    let item = entries[i].1.copy();
                    out.push((entries[i].0.clone(), item));
                    i += 1;
                }
                assert(entries_view(out@) =~= entries_view(entries@));
                Json::Object(out)
            },
        }
    }

    /// A text as a value.
    pub fn text(s: &str) -> (r: Json)
        ensures
            r@ == JsonView::Text(s@),
    {
        Json::Text(owned(s))
    }

    /// An optional text as a value: null where it is absent.
    pub fn optional_text(s: &Option<String>) -> (r: Json)
        ensures
            r@ == optional_text_view(optional_chars(*s)),
    {
        match s {
            Some(t) => Json::Text(t.clone()),
            None => Json::Null,
        }
    }

    /// A count as a value.
    pub fn count(n: usize) -> (r: Json)
        ensures
            r@ == JsonView::Unsigned(n as u64),
    {
        Json::Unsigned(n as u64)
    }

    /// A signed integer as a value.
    pub fn integer(n: i64) -> (r: Json)
        ensures
            r@ == integer_view(n),
    {
        if n < 0 {
            Json::Negative(n)
        } else {
            Json::Unsigned(n as u64)
        }
    }
}

/// Texts as an array.
pub open spec fn texts_value(list: Seq<Seq<char>>) -> JsonView {
    JsonView::Array(list.map_values(|s: Seq<char>| JsonView::Text(s)))
}

/// Texts as an array.
pub fn texts_json(list: &Vec<String>) -> (r: Json)
    ensures
        r@ == texts_value(texts(list@)),
{
    broadcast use lemma_array_view;

    let mut items: Vec<Json> = Vec::new();
    let mut i: usize = 0;
    while i < list.len()
        invariant
            i <= list@.len(),
            items@.len() == i,
            forall|j: int| 0 <= j < i ==> (#[trigger] items@[j])@ == JsonView::Text(list@[j]@),
        decreases list@.len() - i,
    {
        items.push(Json::text(list[i].as_str()));
        i += 1;
    }
    let r = Json::Array(items);
    assert(r@->Array_0 =~= texts_value(texts(list@))->Array_0);
    r
}

/// A signed integer as a value.
pub open spec fn integer_view(n: i64) -> JsonView {
    if n < 0 {
        JsonView::Negative(n)
    } else {
        JsonView::Unsigned(n as u64)
    }
}

/// The characters of an optional text.
pub open spec fn optional_chars(s: Option<String>) -> Option<Seq<char>> {
    match s {
        Some(t) => Some(t@),
        None => None,
    }
}

/// An optional text as a value: null where it is absent.
pub open spec fn optional_text_view(s: Option<Seq<char>>) -> JsonView {
    match s {
        Some(t) => JsonView::Text(t),
        None => JsonView::Null,
    }
}

// ---------------------------------------------------------------------------
// Objects under construction

/// The entries of an object that is being put together.
pub struct Object {
    pub entries: Vec<(String, Json)>,
}

/// What an object that is being put together holds.
pub struct ObjectView {
    pub entries: Seq<(Seq<char>, JsonView)>,
}

impl ObjectView {
    /// An object without entries.
    pub open spec fn new() -> ObjectView {
        ObjectView { entries: Seq::empty() }
    }

    /// The object with one more entry.
    pub open spec fn with(self, key: Seq<char>, value: JsonView) -> ObjectView {
        ObjectView { entries: self.entries.push((key, value)) }
    }

    /// The object with one more entry where there is a value for it.
    pub open spec fn with_some(self, key: Seq<char>, value: Option<JsonView>) -> ObjectView {
        match value {
            Some(v) => self.with(key, v),
            None => self,
        }
    }

    /// The object as a value.
    pub open spec fn done(self) -> JsonView {
        JsonView::Object(self.entries)
    }
}

impl Object {
    /// What the object holds.
    pub open spec fn view(&self) -> ObjectView {
        ObjectView { entries: entries_view(self.entries@) }
    }

    /// An object without entries.
    pub fn new() -> (r: Object)
        ensures
            r@ == ObjectView::new(),
    {
        let r = Object { entries: Vec::new() };
        assert(r@.entries =~= Seq::empty());
        r
    }

    /// The object with one more entry.
    pub fn with(self, key: &str, value: Json) -> (r: Object)
        ensures
            r@ == self@.with(key@, value@),
    {
        let mut entries = self.entries;
        let ghost old_entries = entries@;
        entries.push((owned(key), value));
        let r = Object { entries };
        assert(r@.entries =~= entries_view(old_entries).push((key@, value@)));
        r
    }

    /// The object with one more entry where there is a value for it.
    pub fn with_some(self, key: &str, value: Option<Json>) -> (r: Object)
        ensures
            r@ == self@.with_some(key@, optional_view(value)),
    {
        match value {
            Some(v) => self.with(key, v),
            None => self,
        }
    }

    /// The object as a value.
    pub fn done(self) -> (r: Json)
        ensures
            r@ == self@.done(),
    {
        broadcast use lemma_object_view;

        Json::Object(self.entries)
    }
}

/// One more entry at the end is found where no earlier one has the key.
proof fn lemma_entry_push(
    entries: Seq<(Seq<char>, JsonView)>,
    key: Seq<char>,
    value: JsonView,
    sought: Seq<char>,
    i: int,
)
    requires
        0 <= i <= entries.len(),
    ensures
        entry_from(entries.push((key, value)), sought, i) == match entry_from(entries, sought, i) {
            Some(v) => Some(v),
            None => if key == sought {
                Some(value)
            } else {
                None
            },
        },
    decreases entries.len() - i,
{
    reveal_with_fuel(entry_from, 2);
    if i < entries.len() {
        lemma_entry_push(entries, key, value, sought, i + 1);
    }
}

/// What stands under a key of an object that was put together.
pub broadcast proof fn lemma_with_get(
    o: ObjectView,
    key: Seq<char>,
    value: JsonView,
    sought: Seq<char>,
)
    ensures
        #[trigger] o.with(key, value).done().get(sought) == match o.done().get(sought) {
            Some(v) => Some(v),
            None => if key == sought {
                Some(value)
            } else {
                None
            },
        },
{
    lemma_entry_push(o.entries, key, value, sought, 0);
}

// ---------------------------------------------------------------------------
// Text forms

/// The hexadecimal digit of a number below sixteen.
pub open spec fn hex_char(d: int) -> char {
    if d < 10 {
        (48 + d) as char
    } else {
        (87 + d) as char
    }
}

/// How a character is written inside a JSON string.
pub open spec fn escaped_char(c: char) -> Seq<char> {
    if c == '"' {
        seq!['\\', '"']
    } else if c == '\\' {
        seq!['\\', '\\']
    } else if c == '\u{8}' {
        seq!['\\', 'b']
    } else if c == '\u{9}' {
        seq!['\\', 't']
    } else if c == '\u{a}' {
        seq!['\\', 'n']
    } else if c == '\u{c}' {
        seq!['\\', 'f']
    } else if c == '\u{d}' {
        seq!['\\', 'r']
    } else if (c as int) <= 31 {
        seq!['\\', 'u', '0', '0', hex_char((c as int) / 16), hex_char((c as int) % 16)]
    } else {
        seq![c]
    }
}

/// How a text is written inside a JSON string.
pub open spec fn escaped(s: Seq<char>) -> Seq<char>
    decreases s.len(),
{
    if s.len() == 0 {
        Seq::empty()
    } else {
        escaped(s.drop_last()) + escaped_char(s.last())
    }
}

/// A text as a JSON string, quotes included.
pub open spec fn quoted(s: Seq<char>) -> Seq<char> {
    seq!['"'] + escaped(s) + seq!['"']
}

/// A text as a string literal of a script. `serde_json::to_string` writes a
/// text between quotes, with a backslash form for the quote, the backslash and
/// the characters below the space, and every other character as it is.
#[verifier::external_body]
pub(crate) fn js_string_literal(value: &str) -> (r: String)
    ensures
        r@ == quoted(value@),
{
    serde_json::to_string(value).unwrap_or_else(|_| String::from("''"))
}

/// `serde_json::Value`, carried from the call that reads it to the one that
/// turns it into this crate's own type.
#[verifier::external_type_specification]
#[verifier::external_body]
pub struct ExValue(serde_json::Value);

/// What `serde_json::from_str` reads a text as: a JSON value, or nothing.
pub uninterp spec fn parsed_json(text: Seq<char>) -> Option<JsonView>;

/// A value that `serde_json` has read, in this crate's own type. A number is
/// told apart as `serde_json::Number` tells it: unsigned, negative, fraction.
#[verifier::external_body]
fn json_from_value(value: Value) -> (r: Json) {
    match value {
        Value::Null => Json::Null,
        Value::Bool(b) => Json::Bool(b),
        Value::Number(n) => match (n.as_u64(), n.as_i64()) {
            (Some(u), _) => Json::Unsigned(u),
            (None, Some(i)) => Json::Negative(i),
            (None, None) => Json::Real(n.as_f64().map_or(0, |x| x.to_bits())),
        },
        Value::String(s) => Json::Text(s),
        Value::Array(items) => Json::Array(items.into_iter().map(json_from_value).collect()),
        Value::Object(entries) => Json::Object(
            entries.into_iter().map(|(k, v)| (k, json_from_value(v))).collect(),
        ),
    }
}

/// The JSON value that a text holds. `serde_json::from_str` reads it; what it
/// reads depends on the text alone.
#[verifier::external_body]
pub(crate) fn json_from_str(text: &str) -> (r: Option<Json>)
    ensures
        optional_view(r) == parsed_json(text@),
{
    serde_json::from_str::<serde_json::Value>(text).ok().map(json_from_value)
}

} // verus!
