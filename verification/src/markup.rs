//! Reading the markup of a page: tags, their attributes, and the text between
//! them.

use crate::keyed::{
    find, in_order, keyed, law_put_keeps_order, lemma_lookup_seen, lemma_put_seen, lookup, put,
    put_entry, seen,
};
use crate::text::{
    chars_of, contains, find_chars, find_from, holds, is_white, lemma_find_from, lowered, text_between,
    text_of, to_lower, trim_end, white,
};
use vstd::prelude::*;

verus! {

/// The first position, from `i` on, at which a character stands in `s`.
pub open spec fn find_char(s: Seq<char>, c: char, i: int) -> Option<int> {
    find_from(s, seq![c], i)
}

/// A found character stands where it was found.
pub proof fn lemma_find_char(s: Seq<char>, c: char, i: int)
    requires
        0 <= i,
    ensures
        match find_char(s, c, i) {
            Some(j) => i <= j < s.len() && s[j] == c,
            None => true,
        },
{
    lemma_find_from(s, seq![c], i);
    if find_char(s, c, i) is Some {
        let j = find_char(s, c, i)->0;
        assert(s.subrange(j, j + 1)[0] == seq![c][0]);
    }
}

/// The first position, from `i` on, at which a character stands in `v`.
pub fn char_position(v: &Vec<char>, c: char, i: usize) -> (r: Option<usize>)
    ensures
        match r {
            Some(j) => find_char(v@, c, i as int) == Some(j as int) && i <= j < v@.len() && v@[j as int]
                == c,
            None => find_char(v@, c, i as int) is None,
        },
{
    proof {
        lemma_find_char(v@, c, i as int);
    }
    let mut needle: Vec<char> = Vec::new();
    needle.push(c);
    assert(needle@ =~= seq![c]);
    find_chars(v, &needle, i)
}

/// `s` without the slashes that it starts with.
pub open spec fn after_slashes(s: Seq<char>) -> Seq<char>
    decreases s.len(),
{
    if s.len() > 0 && s[0] == '/' {
        after_slashes(s.skip(1))
    } else {
        s
    }
}

/// `s` without the slashes that it ends with.
pub open spec fn before_slashes(s: Seq<char>) -> Seq<char>
    decreases s.len(),
{
    if s.len() > 0 && s.last() == '/' {
        before_slashes(s.drop_last())
    } else {
        s
    }
}

/// `s` without the slashes at its two ends.
pub open spec fn unslashed(s: Seq<char>) -> Seq<char> {
    before_slashes(after_slashes(s))
}

/// The text without the slashes at its two ends.
pub fn trim_slashes(s: &str) -> (r: String)
    ensures
        r@ == unslashed(s@),
{
    let v = chars_of(s);
    let mut from: usize = 0;
    assert(v@.skip(0) =~= v@);
    while from < v.len() && v[from] == '/'
        invariant
            from <= v@.len(),
            after_slashes(v@.skip(from as int)) == after_slashes(v@),
        decreases v@.len() - from,
    {
        assert(v@.skip(from as int).skip(1) =~= v@.skip(from + 1));
        from += 1;
    }
    let ghost body = v@.skip(from as int);
    assert(after_slashes(v@) == body);
    let mut to: usize = v.len();
    assert(v@.subrange(from as int, to as int) =~= body);
    while from < to && v[to - 1] == '/'
        invariant
            from <= to <= v@.len(),
            before_slashes(v@.subrange(from as int, to as int)) == before_slashes(body),
        decreases to,
    {
        assert(v@.subrange(from as int, to as int).drop_last() =~= v@.subrange(from as int, to - 1));
        to -= 1;
    }
    text_between(&v, from, to)
}

/// The part of `s` after its last white space.
pub open spec fn after_white(s: Seq<char>) -> Seq<char>
    decreases s.len(),
{
    if s.len() == 0 || is_white(s.last()) {
        Seq::empty()
    } else {
        after_white(s.drop_last()).push(s.last())
    }
}

/// The last word of `s`; empty where there is none.
pub open spec fn last_word(s: Seq<char>) -> Seq<char> {
    after_white(trim_end(s))
}

/// The last word of the characters `from..to`.
fn last_word_of(v: &Vec<char>, from: usize, to: usize) -> (r: String)
    requires
        from <= to <= v@.len(),
    ensures
        r@ == last_word(v@.subrange(from as int, to as int)),
{
    let ghost all = v@.subrange(from as int, to as int);
    let mut end: usize = to;
    while from < end && white(v[end - 1])
        invariant
            from <= end <= to <= v@.len(),
            trim_end(v@.subrange(from as int, end as int)) == trim_end(all),
        decreases end,
    {
        assert(v@.subrange(from as int, end as int).drop_last() =~= v@.subrange(
            from as int,
            end - 1,
        ));
        end -= 1;
    }
    let ghost body = v@.subrange(from as int, end as int);
    assert(trim_end(all) == body);
    let mut start: usize = end;
    assert(after_white(body) =~= after_white(v@.subrange(from as int, start as int))
        + v@.subrange(start as int, end as int));
    while from < start && !white(v[start - 1])
        invariant
            from <= start <= end <= v@.len(),
            after_white(body) =~= after_white(v@.subrange(from as int, start as int))
                + v@.subrange(start as int, end as int),
        decreases start,
    {
        let ghost head = v@.subrange(from as int, start as int);
        assert(head.drop_last() =~= v@.subrange(from as int, start - 1));
        assert(after_white(head) == after_white(head.drop_last()).push(head.last()));
        start -= 1;
    }
    assert(after_white(v@.subrange(from as int, start as int)) =~= Seq::<char>::empty());
    text_between(v, start, end)
}

// ---------------------------------------------------------------------------
// Attributes

/// The attributes of a tag, in the order of their names.
pub open spec fn attrs_view(attrs: Seq<(String, String)>) -> Seq<(Seq<char>, Seq<char>)> {
    attrs.map_values(|e: (String, String)| (e.0@, e.1@))
}

/// The view of the attributes goes through their keys.
proof fn lemma_attrs_view(attrs: Seq<(String, String)>)
    ensures
        attrs_view(attrs) == seen(keyed(attrs), |v: String| v@),
{
    assert(attrs_view(attrs) =~= seen(keyed(attrs), |v: String| v@));
}

/// Puts an attribute among the others.
pub fn put_attr(attrs: &mut Vec<(String, String)>, name: String, value: String)
    ensures
        attrs_view(final(attrs)@) == put(attrs_view(old(attrs)@), name@, value@),
{
    proof {
        lemma_attrs_view(attrs@);
        lemma_put_seen(keyed(attrs@), name@, value, |v: String| v@);
    }
    put_entry(attrs, name, value);
    proof {
        lemma_attrs_view(attrs@);
    }
}

/// The value of an attribute.
pub fn attr<'a>(attrs: &'a Vec<(String, String)>, name: &str) -> (r: Option<&'a String>)
    ensures
        match r {
            Some(v) => lookup(attrs_view(attrs@), name@) == Some(v@),
            None => lookup(attrs_view(attrs@), name@) is None,
        },
{
    proof {
        lemma_attrs_view(attrs@);
        lemma_lookup_seen(keyed(attrs@), name@, |v: String| v@);
    }
    find(attrs, name)
}

/// The name that stands before an equals sign.
pub open spec fn attr_name(s: Seq<char>) -> Seq<char> {
    lowered(unslashed(last_word(s)))
}

/// The attributes that are written with one kind of quote from `at` on, put
/// among those already found. An equals sign without the quote is passed over;
/// an open quote ends the reading.
pub open spec fn attrs_from(
    content: Seq<char>,
    quote: char,
    at: int,
    found: Seq<(Seq<char>, Seq<char>)>,
) -> Seq<(Seq<char>, Seq<char>)>
    decreases content.len() - at,
{
    if at < 0 {
        found
    } else {
        match find_char(content, '=', at) {
            None => found,
            Some(eq) => {
                proof {
                    lemma_find_char(content, '=', at);
                    lemma_find_char(content, quote, eq + 2);
                }
                if eq + 1 < content.len() && content[eq + 1] == quote {
                    match find_char(content, quote, eq + 2) {
                        None => found,
                        Some(end) => attrs_from(
                            content,
                            quote,
                            end + 1,
                            put(
                                found,
                                attr_name(content.subrange(at, eq)),
                                content.subrange(eq + 2, end),
                            ),
                        ),
                    }
                } else {
                    attrs_from(content, quote, eq + 1, found)
                }
            },
        }
    }
}

/// The attributes with a name that needs no value put among them, where the
/// tag holds it anywhere and it is not there yet.
pub open spec fn with_bare(
    content: Seq<char>,
    found: Seq<(Seq<char>, Seq<char>)>,
    name: Seq<char>,
) -> Seq<(Seq<char>, Seq<char>)> {
    if holds(content, name) && lookup(found, name) is None {
        put(found, name, Seq::empty())
    } else {
        found
    }
}

/// The attributes of a tag.
pub open spec fn attrs_of(content: Seq<char>) -> Seq<(Seq<char>, Seq<char>)> {
    let quoted = attrs_from(content, '\'', 0, attrs_from(content, '"', 0, Seq::empty()));
    with_bare(content, with_bare(content, quoted, "disabled"@), "checked"@)
}

/// Reads the attributes that are written with one kind of quote.
fn read_attrs(content: &Vec<char>, quote: char, attrs: &mut Vec<(String, String)>)
    ensures
        attrs_view(final(attrs)@) == attrs_from(content@, quote, 0, attrs_view(old(attrs)@)),
{
    let ghost goal = attrs_from(content@, quote, 0, attrs_view(attrs@));
    let mut at: usize = 0;
    let length: usize = content.len();
    loop
        invariant
            at <= content@.len(),
            length == content@.len(),
            goal == attrs_from(content@, quote, 0, attrs_view(old(attrs)@)),
            attrs_from(content@, quote, at as int, attrs_view(attrs@)) == goal,
        decreases content@.len() - at,
    {
        match char_position(content, '=', at) {
            None => {
                return ;
            },
            Some(eq) => {
                if eq + 1 >= length || content[eq + 1] != quote {
                    at = eq + 1;
                } else {
                    match char_position(content, quote, eq + 2) {
                        None => {
                            return ;
                        },
                        Some(end) => {
                            let word = last_word_of(content, at, eq);
                            let name = to_lower(trim_slashes(word.as_str()).as_str());
                            put_attr(attrs, name, text_between(content, eq + 2, end));
                            at = end + 1;
                        },
                    }
                }
            },
        }
    }
}

/// Puts a name that needs no value among the attributes.
fn read_bare(content: &str, name: &str, attrs: &mut Vec<(String, String)>)
    ensures
        attrs_view(final(attrs)@) == with_bare(content@, attrs_view(old(attrs)@), name@),
{
    if contains(content, name) && attr(attrs, name).is_none() {
        put_attr(attrs, name.to_owned(), String::new());
    }
}

/// The attributes of a tag.
pub fn parse_attrs(tag_content: &str) -> (r: Vec<(String, String)>)
    ensures
        attrs_view(r@) == attrs_of(tag_content@),
{
    let content = chars_of(tag_content);
    let mut attrs: Vec<(String, String)> = Vec::new();
    assert(attrs_view(attrs@) =~= Seq::empty());
    read_attrs(&content, '"', &mut attrs);
    read_attrs(&content, '\'', &mut attrs);
    read_bare(tag_content, "disabled", &mut attrs);
    read_bare(tag_content, "checked", &mut attrs);
    attrs
}

/// Reading attributes keeps them in order.
proof fn lemma_attrs_from_order(
    content: Seq<char>,
    quote: char,
    at: int,
    found: Seq<(Seq<char>, Seq<char>)>,
)
    requires
        in_order(found),
    ensures
        in_order(attrs_from(content, quote, at, found)),
    decreases content.len() - at,
{
    if at >= 0 && find_char(content, '=', at) is Some {
        let eq = find_char(content, '=', at)->0;
        lemma_find_char(content, '=', at);
        lemma_find_char(content, quote, eq + 2);
        if eq + 1 < content.len() && content[eq + 1] == quote {
            if find_char(content, quote, eq + 2) is Some {
                let end = find_char(content, quote, eq + 2)->0;
                let name = attr_name(content.subrange(at, eq));
                let value = content.subrange(eq + 2, end);
                law_put_keeps_order(found, name, value);
                lemma_attrs_from_order(content, quote, end + 1, put(found, name, value));
            }
        } else {
            lemma_attrs_from_order(content, quote, eq + 1, found);
        }
    }
}

/// The attributes of a tag stand in the order of their names, each name once.
pub proof fn law_attrs_in_order(content: Seq<char>)
    ensures
        in_order(attrs_of(content)),
{
    let double = attrs_from(content, '"', 0, Seq::empty());
    lemma_attrs_from_order(content, '"', 0, Seq::empty());
    lemma_attrs_from_order(content, '\'', 0, double);
    let both = attrs_from(content, '\'', 0, double);
    law_put_keeps_order(both, "disabled"@, Seq::empty());
    law_put_keeps_order(with_bare(content, both, "disabled"@), "checked"@, Seq::empty());
}

// ---------------------------------------------------------------------------
// Text between tags

/// The characters from `i` on that stand outside of tags.
pub open spec fn untagged_from(s: Seq<char>, i: int, in_tag: bool) -> Seq<char>
    decreases s.len() - i,
{
    if i < 0 || i >= s.len() {
        Seq::empty()
    } else if s[i] == '<' {
        untagged_from(s, i + 1, true)
    } else if s[i] == '>' {
        untagged_from(s, i + 1, false)
    } else if in_tag {
        untagged_from(s, i + 1, true)
    } else {
        seq![s[i]] + untagged_from(s, i + 1, false)
    }
}

/// The characters that stand outside of tags.
pub open spec fn untagged(s: Seq<char>) -> Seq<char> {
    untagged_from(s, 0, false)
}

/// The text without its tags.
pub fn strip_tags(input: &str) -> (r: String)
    ensures
        r@ == untagged(input@),
{
    let v = chars_of(input);
    let mut output = String::new();
    let mut in_tag = false;
    let mut i: usize = 0;
    while i < v.len()
        invariant
            i <= v@.len(),
            output@ + untagged_from(v@, i as int, in_tag) =~= untagged(v@),
        decreases v@.len() - i,
    {
        let c = v[i];
        if c == '<' {
            in_tag = true;
        } else if c == '>' {
            in_tag = false;
        } else if !in_tag {
            output.push(c);
        }
        i += 1;
    }
    assert(output@ =~= untagged(v@));
    output
}

/// What stands from the first `start` up to the first `end` that begins there
/// or later.
pub open spec fn between(s: Seq<char>, start: Seq<char>, end: Seq<char>) -> Option<Seq<char>> {
    match find_from(s, start, 0) {
        None => None,
        Some(i) => match find_from(s, end, i) {
            None => None,
            Some(j) => Some(s.subrange(i, j)),
        },
    }
}

/// What stands from the first `start` up to the `end` that follows.
pub fn extract_between(input: &str, start: &str, end: &str) -> (r: Option<String>)
    ensures
        match r {
            Some(t) => between(input@, start@, end@) == Some(t@),
            None => between(input@, start@, end@) is None,
        },
{
    let v = chars_of(input);
    match find_chars(&v, &chars_of(start), 0) {
        None => None,
        Some(i) => match find_chars(&v, &chars_of(end), i) {
            None => None,
            Some(j) => Some(text_between(&v, i, j)),
        },
    }
}

/// What follows the first `c`.
pub open spec fn after_char(s: Seq<char>, c: char) -> Option<Seq<char>> {
    match find_char(s, c, 0) {
        None => None,
        Some(i) => Some(s.skip(i + 1)),
    }
}

/// What follows the first `c` in a text.
pub fn rest_after(s: &str, c: char) -> (r: Option<String>)
    ensures
        match r {
            Some(t) => after_char(s@, c) == Some(t@),
            None => after_char(s@, c) is None,
        },
{
    let v = chars_of(s);
    match char_position(&v, c, 0) {
        None => None,
        Some(i) => {
            let length: usize = v.len();
            let rest = text_between(&v, i + 1, length);
            assert(rest@ =~= s@.skip(i + 1));
            Some(rest)
        },
    }
}

/// The text with every plus sign as a space.
pub open spec fn spaced(s: Seq<char>) -> Seq<char> {
    s.map_values(
        |c: char|
            if c == '+' {
                ' '
            } else {
                c
            },
    )
}

/// The text with every plus sign as a space.
pub fn plus_to_space(s: &str) -> (r: String)
    ensures
        r@ == spaced(s@),
{
    let v = chars_of(s);
    let mut out: Vec<char> = Vec::new();
    let mut i: usize = 0;
    while i < v.len()
        invariant
            i <= v@.len(),
            out@.len() == i,
            forall|j: int| 0 <= j < i ==> #[trigger] out@[j] == spaced(v@)[j],
        decreases v@.len() - i,
    {
        if v[i] == '+' {
            out.push(' ');
        } else {
            out.push(v[i]);
        }
        i += 1;
    }
    assert(out@ =~= spaced(v@));
    text_of(&out)
}

} // verus!
