//! How pages are read from their markup.

use crate::keyed::{law_put_then_lookup, lookup, put};
use crate::markup::{
    after_white, attr_name, attrs_from, attrs_of, find_char, lemma_find_char, spaced, unslashed, untagged,
    untagged_from, with_bare,
};
use crate::page::{
    closing, element_at, elements_from, html_of, shown, tag_name, title_of, url_body, ElementView,
};
use crate::patience::{is_part, law_a_text_holds_its_parts};
use crate::seeking::lemma_found_first;
use crate::telling::{is_word, law_a_line_starts_with_its_first_word};
use crate::text::{has_prefix, is_white, lowered, occurs_at, trim_end, trimmed};
use vstd::prelude::*;

verus! {

/// Whether a character does not occur in a text.
pub open spec fn lacks(s: Seq<char>, c: char) -> bool {
    forall|i: int| 0 <= i < s.len() ==> #[trigger] s[i] != c
}

/// A character that stands in a text and nowhere before is found.
pub proof fn lemma_char_found(s: Seq<char>, c: char, from: int, at: int)
    requires
        0 <= from <= at < s.len(),
        s[at] == c,
        forall|i: int| from <= i < at ==> #[trigger] s[i] != c,
    ensures
        find_char(s, c, from) == Some(at),
{
    let needle = seq![c];
    assert(s.subrange(at, at + 1) =~= needle);
    assert forall|i: int| from <= i < at implies !#[trigger] occurs_at(s, needle, i) by {
        if occurs_at(s, needle, i) {
            assert(s.subrange(i, i + 1)[0] == s[i]);
            assert(needle[0] == c);
        }
    }
    lemma_found_first(s, needle, from, at);
}

/// A character that does not stand behind a place is not found there.
pub proof fn lemma_char_missing(s: Seq<char>, c: char, from: int)
    requires
        0 <= from,
        forall|i: int| from <= i < s.len() ==> #[trigger] s[i] != c,
    ensures
        find_char(s, c, from) is None,
{
    lemma_find_char(s, c, from);
}

// ---------------------------------------------------------------------------
// Attributes

/// Whether a name can stand before a value as it is: a word in small letters
/// without slash and equals sign.
pub open spec fn is_plain_name(name: Seq<char>) -> bool {
    &&& is_word(name)
    &&& lowered(name) == name
    &&& lacks(name, '/') && lacks(name, '=') && lacks(name, '\'') && lacks(name, '"')
    &&& lacks(name, '<') && lacks(name, '>')
}

/// Whether a value can stand between quotes as it is.
pub open spec fn is_plain_value(value: Seq<char>) -> bool {
    lacks(value, '"') && lacks(value, '\'') && lacks(value, '<') && lacks(value, '>')
}

/// One attribute as it is written.
pub open spec fn written_attr(name: Seq<char>, value: Seq<char>) -> Seq<char> {
    seq![' '] + name + seq!['=', '"'] + value + seq!['"']
}

/// Attributes as they are written.
pub open spec fn written(list: Seq<(Seq<char>, Seq<char>)>) -> Seq<char>
    decreases list.len(),
{
    if list.len() == 0 {
        Seq::empty()
    } else {
        written_attr(list[0].0, list[0].1) + written(list.skip(1))
    }
}

/// Whether attributes can be written as they are, each name once.
pub open spec fn are_plain(list: Seq<(Seq<char>, Seq<char>)>) -> bool {
    &&& forall|i: int|
        0 <= i < list.len() ==> is_plain_name((#[trigger] list[i]).0) && is_plain_value(list[i].1)
    &&& forall|i: int, j: int|
        0 <= i < j < list.len() ==> (#[trigger] list[i]).0 != (#[trigger] list[j]).0
}

/// The attributes put one after the other.
spec fn all_put(
    found: Seq<(Seq<char>, Seq<char>)>,
    list: Seq<(Seq<char>, Seq<char>)>,
) -> Seq<(Seq<char>, Seq<char>)>
    decreases list.len(),
{
    if list.len() == 0 {
        found
    } else {
        all_put(put(found, list[0].0, list[0].1), list.skip(1))
    }
}

/// What is looked up among attributes that were put one after the other.
proof fn lemma_all_put(
    found: Seq<(Seq<char>, Seq<char>)>,
    list: Seq<(Seq<char>, Seq<char>)>,
    name: Seq<char>,
)
    requires
        are_plain(list),
    ensures
        (forall|i: int| 0 <= i < list.len() ==> (#[trigger] list[i]).0 != name) ==> lookup(
            all_put(found, list),
            name,
        ) == lookup(found, name),
        forall|i: int|
            0 <= i < list.len() && (#[trigger] list[i]).0 == name ==> lookup(
                all_put(found, list),
                name,
            ) == Some(list[i].1),
    decreases list.len(),
{
    if list.len() > 0 {
        let rest = list.skip(1);
        assert forall|i: int| 0 <= i < rest.len() implies is_plain_name((#[trigger] rest[i]).0)
            && is_plain_value(rest[i].1) by {
            assert(rest[i] == list[i + 1]);
        }
        assert forall|i: int, j: int| 0 <= i < j < rest.len() implies (#[trigger] rest[i]).0 != (
        #[trigger] rest[j]).0 by {
            assert(rest[i] == list[i + 1]);
            assert(rest[j] == list[j + 1]);
        }
        let next = put(found, list[0].0, list[0].1);
        lemma_all_put(next, rest, name);
        law_put_then_lookup(found, list[0].0, list[0].1, name);
        if forall|i: int| 0 <= i < list.len() ==> (#[trigger] list[i]).0 != name {
            assert forall|i: int| 0 <= i < rest.len() implies (#[trigger] rest[i]).0 != name by {
                assert(rest[i] == list[i + 1]);
            }
            assert(list[0].0 != name);
        }
        assert forall|i: int| 0 <= i < list.len() && (#[trigger] list[i]).0 == name implies lookup(
            all_put(found, list),
            name,
        ) == Some(list[i].1) by {
            if i == 0 {
                assert forall|j: int| 0 <= j < rest.len() implies (#[trigger] rest[j]).0 != name by {
                    assert(rest[j] == list[j + 1]);
                    assert(list[0].0 != list[j + 1].0);
                }
            } else {
                assert(rest[i - 1] == list[i]);
            }
        }
    }
}

/// The last word of a text that ends in a word.
proof fn lemma_last_word(before: Seq<char>, name: Seq<char>)
    requires
        is_word(name),
    ensures
        trim_end(before + seq![' '] + name) == before + seq![' '] + name,
        after_white(before + seq![' '] + name) == name,
{
    let s = before + seq![' '] + name;
    assert(s.last() == name[name.len() - 1]);
    lemma_after_white(before + seq![' '], name);
}

/// What stands after the last white space.
proof fn lemma_after_white(head: Seq<char>, word: Seq<char>)
    requires
        head.len() > 0 && is_white(head.last()),
        forall|i: int| 0 <= i < word.len() ==> !is_white(#[trigger] word[i]),
    ensures
        after_white(head + word) == word,
    decreases word.len(),
{
    let s = head + word;
    if word.len() == 0 {
        assert(s =~= head);
        assert(after_white(s) =~= word);
    } else {
        assert(s.last() == word[word.len() - 1]);
        let less = word.drop_last();
        assert forall|i: int| 0 <= i < less.len() implies !is_white(#[trigger] less[i]) by {
            assert(less[i] == word[i]);
        }
        lemma_after_white(head, less);
        assert(s.drop_last() =~= head + less);
        assert(less.push(word.last()) =~= word);
    }
}

/// A text without slashes has none at its ends.
proof fn lemma_unslashed(s: Seq<char>)
    requires
        lacks(s, '/'),
    ensures
        unslashed(s) == s,
{
    if s.len() > 0 {
        assert(s[0] != '/');
        assert(s[s.len() - 1] != '/');
    }
}

/// The name of a plain attribute is read as it is.
proof fn lemma_attr_name(before: Seq<char>, name: Seq<char>)
    requires
        is_plain_name(name),
    ensures
        attr_name(before + seq![' '] + name) == name,
{
    lemma_last_word(before, name);
    lemma_unslashed(name);
}

/// Plain attributes are read from a place on, behind what holds no equals sign.
proof fn lemma_attrs_read(
    head: Seq<char>,
    at: int,
    list: Seq<(Seq<char>, Seq<char>)>,
    found: Seq<(Seq<char>, Seq<char>)>,
)
    requires
        are_plain(list),
        0 <= at <= head.len(),
        forall|i: int| at <= i < head.len() ==> #[trigger] head[i] != '=',
    ensures
        attrs_from(head + written(list), '"', at, found) == all_put(found, list),
    decreases list.len(),
{
    let content = head + written(list);
    if list.len() == 0 {
        assert(content =~= head);
        lemma_char_missing(content, '=', at);
    } else {
        let (name, value) = list[0];
        assert(is_plain_name(list[0].0) && is_plain_value(list[0].1));
        let rest = list.skip(1);
        let piece = written_attr(name, value);
        let next = head + piece;
        let h = head.len() as int;
        let eq = h + 1 + name.len();
        let end = eq + 2 + value.len();
        assert(content =~= next + written(rest));
        assert(next.len() == end + 1);
        assert(content[eq] == piece[1 + name.len() as int]);
        assert(piece[1 + name.len() as int] == '=');
        assert(content[eq + 1] == piece[2 + name.len() as int]);
        assert(piece[2 + name.len() as int] == '"');
        assert forall|i: int| at <= i < eq implies #[trigger] content[i] != '=' by {
            if i < h {
                assert(content[i] == head[i]);
            } else if i == h {
                assert(content[i] == piece[0]);
            } else {
                assert(content[i] == piece[i - h]);
                assert(piece[i - h] == name[i - h - 1]);
            }
        }
        lemma_char_found(content, '=', at, eq);
        assert(content[end] == piece[piece.len() - 1]);
        assert forall|i: int| eq + 2 <= i < end implies #[trigger] content[i] != '"' by {
            assert(content[i] == piece[i - h]);
            assert(piece[i - h] == value[i - eq - 2]);
        }
        lemma_char_found(content, '"', eq + 2, end);
        let before = head.skip(at);
        assert(content.subrange(at, eq) =~= before + seq![' '] + name);
        lemma_attr_name(before, name);
        assert(content.subrange(eq + 2, end) =~= value);
        assert(are_plain(rest)) by {
            assert forall|i: int| 0 <= i < rest.len() implies is_plain_name((#[trigger] rest[i]).0)
                && is_plain_value(rest[i].1) by {
                assert(rest[i] == list[i + 1]);
            }
            assert forall|i: int, j: int| 0 <= i < j < rest.len() implies (#[trigger] rest[i]).0 != (
            #[trigger] rest[j]).0 by {
                assert(rest[i] == list[i + 1]);
                assert(rest[j] == list[j + 1]);
            }
        }
        lemma_attrs_read(next, end + 1, rest, put(found, name, value));
    }
}

/// Where a kind of quote does not occur, no attribute is written with it.
proof fn lemma_no_quotes(
    content: Seq<char>,
    quote: char,
    at: int,
    found: Seq<(Seq<char>, Seq<char>)>,
)
    requires
        lacks(content, quote),
        0 <= at,
    ensures
        attrs_from(content, quote, at, found) == found,
    decreases content.len() - at,
{
    lemma_find_char(content, '=', at);
    if let Some(eq) = find_char(content, '=', at) {
        if eq + 1 < content.len() {
            assert(content[eq + 1] != quote);
        }
        lemma_no_quotes(content, quote, eq + 1, found);
    }
}

/// Plain attributes as they are written hold none of the characters that would
/// end them or the tag.
proof fn lemma_written_lacks(list: Seq<(Seq<char>, Seq<char>)>, c: char)
    requires
        are_plain(list),
        c == '\'' || c == '<' || c == '>',
    ensures
        lacks(written(list), c),
    decreases list.len(),
{
    if list.len() > 0 {
        let (name, value) = list[0];
        assert(is_plain_name(list[0].0) && is_plain_value(list[0].1));
        let rest = list.skip(1);
        assert(are_plain(rest)) by {
            assert forall|i: int| 0 <= i < rest.len() implies is_plain_name((#[trigger] rest[i]).0)
                && is_plain_value(rest[i].1) by {
                assert(rest[i] == list[i + 1]);
            }
            assert forall|i: int, j: int| 0 <= i < j < rest.len() implies (#[trigger] rest[i]).0 != (
            #[trigger] rest[j]).0 by {
                assert(rest[i] == list[i + 1]);
                assert(rest[j] == list[j + 1]);
            }
        }
        lemma_written_lacks(rest, c);
        let piece = written_attr(name, value);
        let n = name.len() as int;
        assert forall|i: int| 0 <= i < piece.len() implies #[trigger] piece[i] != c by {
            if i == 0 {
            } else if i < 1 + n {
                assert(piece[i] == name[i - 1]);
            } else if i < 3 + n {
                assert(piece[i] == seq!['=', '"'][i - 1 - n]);
            } else if i < 3 + n + value.len() {
                assert(piece[i] == value[i - 3 - n]);
            }
        }
        let whole = written(list);
        assert forall|i: int| 0 <= i < whole.len() implies #[trigger] whole[i] != c by {
            if i < piece.len() {
                assert(whole[i] == piece[i]);
            } else {
                assert(whole[i] == written(rest)[i - piece.len()]);
            }
        }
    }
}

/// What is looked up of attributes to which a bare name was put.
proof fn lemma_with_bare(
    content: Seq<char>,
    found: Seq<(Seq<char>, Seq<char>)>,
    bare: Seq<char>,
    name: Seq<char>,
)
    ensures
        lookup(found, name) matches Some(v) ==> lookup(with_bare(content, found, bare), name) == Some(
            v,
        ),
        name != bare ==> lookup(with_bare(content, found, bare), name) == lookup(found, name),
{
    law_put_then_lookup(found, bare, Seq::empty(), name);
}

/// The attributes of a tag are read as they are written.
pub proof fn law_attributes_are_read_as_written(
    tag: Seq<char>,
    list: Seq<(Seq<char>, Seq<char>)>,
    i: int,
)
    requires
        is_plain_name(tag),
        are_plain(list),
        0 <= i < list.len(),
    ensures
        lookup(attrs_of(tag + written(list)), list[i].0) == Some(list[i].1),
{
    let content = tag + written(list);
    let name = list[i].0;
    lemma_quoted_read(tag, list);
    lemma_all_put(Seq::empty(), list, name);
    let quoted = all_put(Seq::empty(), list);
    lemma_with_bare(content, quoted, "disabled"@, name);
    lemma_with_bare(content, with_bare(content, quoted, "disabled"@), "checked"@, name);
}

/// The attributes with quotes are read, and no others.
proof fn lemma_quoted_read(tag: Seq<char>, list: Seq<(Seq<char>, Seq<char>)>)
    requires
        is_plain_name(tag),
        are_plain(list),
    ensures
        ({
            let content = tag + written(list);
            attrs_from(content, '\'', 0, attrs_from(content, '"', 0, Seq::empty())) == all_put(
                Seq::empty(),
                list,
            )
        }),
{
    let content = tag + written(list);
    lemma_attrs_read(tag, 0, list, Seq::empty());
    lemma_written_lacks(list, '\'');
    assert forall|k: int| 0 <= k < content.len() implies #[trigger] content[k] != '\'' by {
        if k < tag.len() {
            assert(content[k] == tag[k]);
        } else {
            assert(content[k] == written(list)[k - tag.len()]);
        }
    }
    lemma_no_quotes(content, '\'', 0, all_put(Seq::empty(), list));
}

/// An attribute that is not written is not read, but for the two that need no
/// value.
pub proof fn law_attributes_that_are_not_written_are_not_read(
    tag: Seq<char>,
    list: Seq<(Seq<char>, Seq<char>)>,
    name: Seq<char>,
)
    requires
        is_plain_name(tag),
        are_plain(list),
        forall|i: int| 0 <= i < list.len() ==> (#[trigger] list[i]).0 != name,
        name != "disabled"@ && name != "checked"@,
    ensures
        lookup(attrs_of(tag + written(list)), name) is None,
{
    let content = tag + written(list);
    lemma_quoted_read(tag, list);
    lemma_all_put(Seq::empty(), list, name);
    let quoted = all_put(Seq::empty(), list);
    lemma_with_bare(content, quoted, "disabled"@, name);
    lemma_with_bare(content, with_bare(content, quoted, "disabled"@), "checked"@, name);
    reveal_with_fuel(lookup, 1);
}

// ---------------------------------------------------------------------------
// Elements

/// A text without tags is its own text.
pub proof fn law_text_without_tags_is_kept(s: Seq<char>)
    requires
        lacks(s, '<'),
        lacks(s, '>'),
    ensures
        untagged(s) == s,
{
    lemma_untagged(s, 0);
    assert(s.skip(0) =~= s);
}

/// A text without tags from a place on.
proof fn lemma_untagged(s: Seq<char>, i: int)
    requires
        lacks(s, '<'),
        lacks(s, '>'),
        0 <= i <= s.len(),
    ensures
        untagged_from(s, i, false) == s.skip(i),
    decreases s.len() - i,
{
    if i < s.len() {
        assert(s[i] != '<' && s[i] != '>');
        lemma_untagged(s, i + 1);
        assert(seq![s[i]] + s.skip(i + 1) =~= s.skip(i));
    } else {
        assert(s.skip(i) =~= Seq::<char>::empty());
    }
}

/// An element as it is written.
pub open spec fn written_element(
    tag: Seq<char>,
    list: Seq<(Seq<char>, Seq<char>)>,
    text: Seq<char>,
) -> Seq<char> {
    seq!['<'] + (tag + written(list)) + seq!['>'] + text + seq!['<', '/'] + tag + seq!['>']
}

/// An element that is written with an id is read as it is written: its id, its
/// tag, its text without the white space around it, and its whole markup.
pub proof fn law_an_element_is_read_as_written(
    tag: Seq<char>,
    list: Seq<(Seq<char>, Seq<char>)>,
    text: Seq<char>,
    i: int,
)
    requires
        is_plain_name(tag),
        tag[0] != '!',
        !has_prefix(tag + written(list), "script"@),
        !has_prefix(tag + written(list), "style"@),
        are_plain(list),
        lacks(text, '<'),
        lacks(text, '>'),
        0 <= i < list.len(),
        list[i].0 == "id"@,
    ensures
        ({
            let html = written_element(tag, list, text);
            let elements = elements_from(html, 0, Seq::empty());
            &&& elements.len() == 1
            &&& elements[0].0 == list[i].1
            &&& elements[0].1.id == list[i].1
            &&& elements[0].1.tag == tag
            &&& elements[0].1.text == trimmed(text)
            &&& elements[0].1.html == html
            &&& elements[0].1.attrs == attrs_of(tag + written(list))
            &&& elements[0].1.scroll_top == 0
            &&& forall|k: int|
                0 <= k < list.len() && (#[trigger] list[k]).0 == "value"@ ==> elements[0].1.value
                    == list[k].1
            &&& (forall|k: int| 0 <= k < list.len() ==> (#[trigger] list[k]).0 != "value"@)
                ==> elements[0].1.value.len() == 0
        }),
{
    let content = tag + written(list);
    let html = written_element(tag, list, text);
    let n = content.len() as int;
    let close = n + 1;
    let next = close + 1 + text.len();
    let last = next + 2 + tag.len();
    assert(html.len() == last + 1);
    lemma_html_parts(tag, list, text);
    lemma_char_found(html, '<', 0, 0);
    lemma_char_found(html, '>', 0, close);
    assert(html.subrange(1, close) =~= content);
    lemma_element(tag, list, text, i);
    let e = element_at(html, 0, close)->0;
    let one = put(Seq::<(Seq<char>, ElementView)>::empty(), e.id, e);
    assert(one =~= seq![(e.id, e)]);
    lemma_char_found(html, '<', close + 1, next);
    lemma_char_found(html, '>', next, last);
    let ending = html.subrange(next + 1, last);
    assert(ending =~= seq!['/'] + tag);
    reveal_strlit("/");
    assert(ending.take("/"@.len() as int) =~= "/"@);
    assert(element_at(html, next, last) is None);
    lemma_char_missing(html, '<', last + 1);
    reveal_with_fuel(elements_from, 3);
}

/// The characters of an element as it is written.
proof fn lemma_html_parts(
    tag: Seq<char>,
    list: Seq<(Seq<char>, Seq<char>)>,
    text: Seq<char>,
)
    requires
        is_plain_name(tag),
        are_plain(list),
        lacks(text, '<'),
        lacks(text, '>'),
    ensures
        ({
            let content = tag + written(list);
            let html = written_element(tag, list, text);
            let close = content.len() + 1;
            let next = close + 1 + text.len();
            let last = next + 2 + tag.len();
            &&& lacks(content, '<') && lacks(content, '>')
            &&& html.len() == last + 1
            &&& html[0] == '<' && html[close as int] == '>'
            &&& html[next as int] == '<' && html[next as int + 1] == '/' && html[last as int] == '>'
            &&& forall|k: int| 0 < k < close ==> #[trigger] html[k] != '<' && html[k] != '>'
            &&& forall|k: int| close < k < next ==> #[trigger] html[k] != '<' && html[k] != '>'
            &&& forall|k: int| next < k < last ==> #[trigger] html[k] != '<' && html[k] != '>'
        }),
{
    let content = tag + written(list);
    let html = written_element(tag, list, text);
    let close = content.len() as int + 1;
    let next = close + 1 + text.len();
    let last = next + 2 + tag.len();
    lemma_written_lacks(list, '<');
    lemma_written_lacks(list, '>');
    assert forall|k: int| 0 <= k < content.len() implies #[trigger] content[k] != '<' && content[k]
        != '>' by {
        if k < tag.len() {
            assert(content[k] == tag[k]);
        } else {
            assert(content[k] == written(list)[k - tag.len()]);
        }
    }
    assert forall|k: int| 0 < k < close implies #[trigger] html[k] != '<' && html[k] != '>' by {
        assert(html[k] == content[k - 1]);
    }
    assert forall|k: int| close < k < next implies #[trigger] html[k] != '<' && html[k] != '>' by {
        assert(html[k] == text[k - close - 1]);
    }
    assert forall|k: int| next < k < last implies #[trigger] html[k] != '<' && html[k] != '>' by {
        if k == next + 1 {
            assert(html[k] == '/');
        } else {
            assert(html[k] == tag[k - next - 2]);
        }
    }
}

/// The element that the first tag opens.
proof fn lemma_element(
    tag: Seq<char>,
    list: Seq<(Seq<char>, Seq<char>)>,
    text: Seq<char>,
    i: int,
)
    requires
        is_plain_name(tag),
        tag[0] != '!',
        !has_prefix(tag + written(list), "script"@),
        !has_prefix(tag + written(list), "style"@),
        are_plain(list),
        lacks(text, '<'),
        lacks(text, '>'),
        0 <= i < list.len(),
        list[i].0 == "id"@,
    ensures
        ({
            let html = written_element(tag, list, text);
            let close = (tag + written(list)).len() + 1;
            element_at(html, 0, close as int) matches Some(e) && {
                &&& e.id == list[i].1
                &&& e.tag == tag
                &&& e.text == trimmed(text)
                &&& e.html == html
                &&& e.attrs == attrs_of(tag + written(list))
                &&& e.scroll_top == 0
                &&& forall|k: int|
                    0 <= k < list.len() && (#[trigger] list[k]).0 == "value"@ ==> e.value
                        == list[k].1
                &&& (forall|k: int| 0 <= k < list.len() ==> (#[trigger] list[k]).0 != "value"@)
                    ==> e.value.len() == 0
            }
        }),
{
    let content = tag + written(list);
    let html = written_element(tag, list, text);
    let close = content.len() as int + 1;
    let next = close + 1 + text.len();
    lemma_html_parts(tag, list, text);
    assert(html.subrange(1, close) =~= content);
    law_attributes_are_read_as_written(tag, list, i);
    lemma_tag_read(tag, list);
    lemma_first_character(tag, list);
    let end = closing(tag);
    reveal_strlit("</");
    reveal_strlit(">");
    assert(end.len() == tag.len() + 3);
    assert(html.subrange(next, next + end.len()) =~= end);
    assert forall|k: int| close + 1 <= k < next implies !#[trigger] occurs_at(html, end, k) by {
        if occurs_at(html, end, k) {
            assert(html.subrange(k, k + end.len())[0] == html[k]);
            assert(end[0] == '<');
            assert(html[k] != '<');
        }
    }
    lemma_found_first(html, end, close + 1, next);
    assert(html.subrange(close + 1, next) =~= text);
    law_text_without_tags_is_kept(text);
    assert(html.subrange(0, next + end.len()) =~= html);
    assert forall|k: int| 0 <= k < list.len() && (#[trigger] list[k]).0 == "value"@ implies lookup(
        attrs_of(content),
        "value"@,
    ) == Some(list[k].1) by {
        law_attributes_are_read_as_written(tag, list, k);
    }
    if forall|k: int| 0 <= k < list.len() ==> (#[trigger] list[k]).0 != "value"@ {
        reveal_strlit("value");
        reveal_strlit("disabled");
        reveal_strlit("checked");
        assert("value"@.len() == 5 && "disabled"@.len() == 8 && "checked"@.len() == 7);
        law_attributes_that_are_not_written_are_not_read(tag, list, "value"@);
    }
}

/// The tag of an element is read.
proof fn lemma_tag_read(tag: Seq<char>, list: Seq<(Seq<char>, Seq<char>)>)
    requires
        is_plain_name(tag),
    ensures
        tag_name(tag + written(list)) == tag,
{
    let rest = written(list);
    if list.len() > 0 {
        assert(rest[0] == written_attr(list[0].0, list[0].1)[0]);
        assert(rest[0] == ' ');
    }
    law_a_line_starts_with_its_first_word(tag, rest);
    lemma_unslashed(tag);
}

/// A tag that starts with a letter is no closing one and no comment.
proof fn lemma_first_character(tag: Seq<char>, list: Seq<(Seq<char>, Seq<char>)>)
    requires
        is_plain_name(tag),
        tag[0] != '!',
    ensures
        !has_prefix(tag + written(list), "/"@),
        !has_prefix(tag + written(list), "!"@),
{
    let content = tag + written(list);
    reveal_strlit("/");
    reveal_strlit("!");
    assert(content[0] == tag[0]);
    assert(tag[0] != '/');
    assert(content.take(1)[0] == content[0]);
    assert("/"@[0] == '/' && "!"@[0] == '!');
}

/// An element is shown unless its style hides it, a rule of the page hides its id,
/// or it is called hidden.
pub proof fn law_hidden_elements_are_not_shown(html: Seq<char>, id: Seq<char>, style: Seq<char>)
    ensures
        is_part(style, "display: none"@) ==> !shown(html, id, style),
        is_part(html, "#"@ + id + " { display: none"@) ==> !shown(html, id, style),
        !shown(html, "hidden"@, style),
        !is_part(style, "display: none"@) && !is_part(html, "#"@ + id + " { display: none"@) && id
            != "hidden"@ ==> shown(html, id, style),
{
    law_a_text_holds_its_parts(style, "display: none"@);
    law_a_text_holds_its_parts(html, "#"@ + id + " { display: none"@);
}

/// An element that is read has its attributes: it is checked and disabled where
/// they say so, and shown unless something hides it.
pub proof fn law_elements_have_their_attributes(html: Seq<char>, open: int, close: int)
    ensures
        element_at(html, open, close) matches Some(e) ==> {
            &&& e.checked <==> lookup(e.attrs, "checked"@) is Some
            &&& e.disabled <==> lookup(e.attrs, "disabled"@) is Some
            &&& lookup(e.attrs, "id"@) == Some(e.id)
            &&& lookup(e.attrs, "value"@) matches Some(v) ==> e.value == v
            &&& lookup(e.attrs, "style"@) matches Some(style) ==> (e.visible <==> shown(
                html,
                e.id,
                style,
            ))
            &&& lookup(e.attrs, "style"@) is None ==> (e.visible <==> shown(
                html,
                e.id,
                Seq::empty(),
            ))
        },
{
}

// ---------------------------------------------------------------------------
// Titles

/// The title of a page is what stands between the title tags.
pub proof fn law_the_title_is_read_as_written(before: Seq<char>, title: Seq<char>, after: Seq<char>)
    requires
        lacks(before, '<'),
        lacks(title, '<'),
    ensures
        title_of(before + ("<title>"@ + title + ("</title>"@ + after))) == title,
{
    let html = before + ("<title>"@ + title + ("</title>"@ + after));
    let b = before.len() as int;
    reveal_strlit("<title");
    reveal_strlit("<title>");
    reveal_strlit("</title>");
    let start = "<title"@;
    let end = "</title>"@;
    let e = b + 7 + title.len();
    assert(html.subrange(b, b + 6) =~= start);
    assert forall|k: int| 0 <= k < b implies !#[trigger] occurs_at(html, start, k) by {
        if occurs_at(html, start, k) {
            assert(html.subrange(k, k + start.len())[0] == html[k]);
            assert(html[k] == before[k]);
            assert(start[0] == '<');
        }
    }
    lemma_found_first(html, start, 0, b);
    assert(html.subrange(e, e + 8) =~= end);
    assert forall|k: int| b <= k < e implies !#[trigger] occurs_at(html, end, k) by {
        if occurs_at(html, end, k) {
            assert(html.subrange(k, k + end.len())[0] == html[k]);
            assert(html.subrange(k, k + end.len())[1] == html[k + 1]);
            assert(end[0] == '<' && end[1] == '/');
            if k == b {
                assert(html[k + 1] == "<title>"@[1]);
            } else if k < b + 7 {
                assert(html[k] == "<title>"@[k - b]);
            } else {
                assert(html[k] == title[k - b - 7]);
            }
        }
    }
    lemma_found_first(html, end, b, e);
    let chunk = html.subrange(b, e);
    assert forall|k: int| 0 <= k < 6 implies #[trigger] chunk[k] != '>' by {
        assert(chunk[k] == "<title>"@[k]);
    }
    assert(chunk[6] == "<title>"@[6]);
    lemma_char_found(chunk, '>', 0, 6);
    assert(chunk.skip(7) =~= title);
}

/// The address of a page of markup carries what stands behind the first comma; any
/// other address carries nothing.
pub proof fn law_addresses_carry_their_markup(options: Seq<char>, body: Seq<char>, url: Seq<char>)
    requires
        lacks(options, ','),
    ensures
        url_body("data:text/html"@ + (options + seq![','] + body)) == Some(body),
        !has_prefix(url, "data:text/html"@) ==> url_body(url) is None && html_of(url) is None,
{
    let head = "data:text/html"@;
    let rest = options + seq![','] + body;
    let whole = head + rest;
    assert(whole.take(head.len() as int) =~= head);
    assert(whole.skip(head.len() as int) =~= rest);
    assert forall|i: int| 0 <= i < options.len() implies #[trigger] rest[i] != ',' by {
        assert(rest[i] == options[i]);
    }
    lemma_char_found(rest, ',', 0, options.len() as int);
    assert(rest.skip(options.len() as int + 1) =~= body);
}

/// A plus stands for a space in the address of a page, and every other character
/// for itself.
pub proof fn law_a_plus_is_a_space(s: Seq<char>, i: int)
    requires
        0 <= i < s.len(),
    ensures
        spaced(s).len() == s.len(),
        s[i] == '+' ==> spaced(s)[i] == ' ',
        s[i] != '+' ==> spaced(s)[i] == s[i],
{
}

} // verus!
