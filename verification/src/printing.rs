//! What terminals print of what they are sent.

use crate::terminal_text::{
    command_end, control_end, is_kept, kept, printable, printed, sequence_end, stripped, stripped_from,
    ESCAPE,
};
use vstd::prelude::*;

verus! {

// ---------------------------------------------------------------------------
// Escape sequences

/// Whether a text has no escape character.
pub open spec fn is_unescaped(s: Seq<char>) -> bool {
    forall|i: int| 0 <= i < s.len() ==> #[trigger] s[i] != '\u{1b}'
}

/// The inside of a control sequence: nothing that would end it.
pub open spec fn is_inside_control(s: Seq<char>) -> bool {
    forall|i: int| 0 <= i < s.len() ==> !('@' <= #[trigger] s[i] <= '~')
}

/// The inside of an operating system command: nothing that would end it.
pub open spec fn is_inside_command(s: Seq<char>) -> bool {
    forall|i: int| 0 <= i < s.len() ==> #[trigger] s[i] != '\u{7}' && s[i] != '\u{1b}'
}

/// What stands before the place has no part in what is stripped from there.
proof fn lemma_stripped_behind(head: Seq<char>, s: Seq<char>, i: int)
    requires
        0 <= i <= s.len(),
    ensures
        stripped_from(head + s, head.len() + i) == stripped_from(s, i),
    decreases s.len() - i,
{
    let whole = head + s;
    let n = head.len() as int;
    if i < s.len() {
        assert(whole[n + i] == s[i]);
        if s[i] == ESCAPE {
            lemma_sequence_behind(head, s, i + 1);
            crate::terminal_text::lemma_sequence_end(s, i + 1);
            lemma_stripped_behind(head, s, sequence_end(s, i + 1));
        } else {
            lemma_stripped_behind(head, s, i + 1);
        }
    }
}

/// What stands before a sequence has no part in where it ends.
proof fn lemma_sequence_behind(head: Seq<char>, s: Seq<char>, i: int)
    requires
        0 <= i <= s.len(),
    ensures
        sequence_end(head + s, head.len() + i) == head.len() + sequence_end(s, i),
{
    if i < s.len() {
        assert((head + s)[head.len() + i] == s[i]);
        lemma_control_behind(head, s, i + 1);
        lemma_command_behind(head, s, i + 1);
    }
}

/// What stands before a control sequence has no part in where it ends.
proof fn lemma_control_behind(head: Seq<char>, s: Seq<char>, i: int)
    requires
        0 <= i <= s.len(),
    ensures
        control_end(head + s, head.len() + i) == head.len() + control_end(s, i),
    decreases s.len() - i,
{
    if i < s.len() {
        assert((head + s)[head.len() + i] == s[i]);
        lemma_control_behind(head, s, i + 1);
    }
}

/// What stands before a command has no part in where it ends.
proof fn lemma_command_behind(head: Seq<char>, s: Seq<char>, i: int)
    requires
        0 <= i <= s.len(),
    ensures
        command_end(head + s, head.len() + i) == head.len() + command_end(s, i),
    decreases s.len() - i,
{
    if i < s.len() {
        assert((head + s)[head.len() + i] == s[i]);
        if i + 1 < s.len() {
            assert((head + s)[head.len() + i + 1] == s[i + 1]);
        }
        lemma_command_behind(head, s, i + 1);
    }
}

/// A text without escape characters is kept before what comes behind it.
proof fn lemma_plain_head(plain: Seq<char>, rest: Seq<char>, i: int)
    requires
        is_unescaped(plain),
        0 <= i <= plain.len(),
    ensures
        stripped_from(plain + rest, i) == plain.skip(i) + stripped(rest),
    decreases plain.len() - i,
{
    if i < plain.len() {
        assert((plain + rest)[i] == plain[i]);
        lemma_plain_head(plain, rest, i + 1);
        assert(seq![plain[i]] + (plain.skip(i + 1) + stripped(rest)) =~= plain.skip(i) + stripped(
            rest,
        ));
    } else {
        lemma_stripped_behind(plain, rest, 0);
        assert(plain.skip(i) + stripped(rest) =~= stripped(rest));
    }
}

/// Where a control sequence ends that is written out.
proof fn lemma_control_written(inside: Seq<char>, last: char, rest: Seq<char>, i: int)
    requires
        is_inside_control(inside),
        '@' <= last <= '~',
        0 <= i <= inside.len(),
    ensures
        control_end(inside + seq![last] + rest, i) == inside.len() + 1,
    decreases inside.len() - i,
{
    let s = inside + seq![last] + rest;
    if i < inside.len() {
        assert(s[i] == inside[i]);
        lemma_control_written(inside, last, rest, i + 1);
    } else {
        assert(s[i] == last);
    }
}

/// Where a command ends that is written out, with a bell or with an escape
/// character and a backslash.
proof fn lemma_command_written(inside: Seq<char>, end: Seq<char>, rest: Seq<char>, i: int)
    requires
        is_inside_command(inside),
        end == seq!['\u{7}'] || end == seq!['\u{1b}', '\\'],
        0 <= i <= inside.len(),
    ensures
        command_end(inside + end + rest, i) == inside.len() + end.len(),
    decreases inside.len() - i,
{
    let s = inside + end + rest;
    if i < inside.len() {
        assert(s[i] == inside[i]);
        lemma_command_written(inside, end, rest, i + 1);
    } else {
        assert(s[i] == end[0]);
        if end.len() == 2 {
            assert(s[i + 1] == end[1]);
        }
    }
}

/// A control sequence is taken out of a text whole: the escape character, the
/// bracket, what is inside and the character that ends it. What stands before and
/// behind it stays.
pub proof fn law_control_sequences_are_taken_out(
    plain: Seq<char>,
    inside: Seq<char>,
    last: char,
    rest: Seq<char>,
)
    requires
        is_unescaped(plain),
        is_inside_control(inside),
        '@' <= last <= '~',
    ensures
        stripped(plain + (seq!['\u{1b}', '['] + (inside + seq![last] + rest))) == plain + stripped(
            rest,
        ),
{
    let start = seq!['\u{1b}', '['];
    let tail = inside + seq![last] + rest;
    let sequence = start + tail;
    lemma_plain_head(plain, sequence, 0);
    assert(plain.skip(0) =~= plain);
    assert(sequence[0] == ESCAPE && sequence[1] == '[');
    lemma_control_behind(start, tail, 0);
    lemma_control_written(inside, last, rest, 0);
    let head = start + inside + seq![last];
    assert(sequence =~= head + rest);
    lemma_stripped_behind(head, rest, 0);
    assert(sequence_end(sequence, 1) == head.len());
}

/// An operating system command is taken out of a text whole, up to the bell or
/// the escape character and the backslash that end it.
pub proof fn law_commands_are_taken_out(
    plain: Seq<char>,
    inside: Seq<char>,
    end: Seq<char>,
    rest: Seq<char>,
)
    requires
        is_unescaped(plain),
        is_inside_command(inside),
        end == seq!['\u{7}'] || end == seq!['\u{1b}', '\\'],
    ensures
        stripped(plain + (seq!['\u{1b}', ']'] + (inside + end + rest))) == plain + stripped(rest),
{
    let start = seq!['\u{1b}', ']'];
    let tail = inside + end + rest;
    let sequence = start + tail;
    lemma_plain_head(plain, sequence, 0);
    assert(plain.skip(0) =~= plain);
    assert(sequence[0] == ESCAPE && sequence[1] == ']');
    lemma_command_behind(start, tail, 0);
    lemma_command_written(inside, end, rest, 0);
    let head = start + inside + end;
    assert(sequence =~= head + rest);
    lemma_stripped_behind(head, rest, 0);
    assert(sequence_end(sequence, 1) == head.len());
}

/// An escape character before anything else is taken out alone.
pub proof fn law_lone_escapes_are_taken_out(plain: Seq<char>, rest: Seq<char>)
    requires
        is_unescaped(plain),
        rest.len() > 0 ==> rest[0] != '[' && rest[0] != ']',
    ensures
        stripped(plain + (seq!['\u{1b}'] + rest)) == plain + stripped(rest),
{
    let sequence = seq!['\u{1b}'] + rest;
    lemma_plain_head(plain, sequence, 0);
    assert(plain.skip(0) =~= plain);
    assert(sequence[0] == ESCAPE);
    if rest.len() > 0 {
        assert(sequence[1] == rest[0]);
    }
    lemma_stripped_behind(seq!['\u{1b}'], rest, 0);
}

// ---------------------------------------------------------------------------
// Characters

/// Of the control codes only line feed, tab, carriage return, backspace and
/// delete are kept; every other character is.
pub proof fn law_control_codes_are_not_printed(c: char)
    ensures
        '\u{20}' <= c <= '\u{7e}' ==> is_kept(c),
        c >= '\u{a0}' ==> is_kept(c),
        is_kept('\n') && is_kept('\t') && is_kept('\r') && is_kept('\u{8}') && is_kept('\u{7f}'),
        c < '\u{20}' && c != '\n' && c != '\t' && c != '\r' && c != '\u{8}' ==> !is_kept(c),
        '\u{80}' <= c <= '\u{9f}' ==> !is_kept(c),
{
}

/// A text of characters that are kept is printed as it is.
pub proof fn law_plain_text_is_printed_as_it_is(s: Seq<char>)
    requires
        forall|i: int| 0 <= i < s.len() ==> '\u{20}' <= #[trigger] s[i] <= '\u{7e}',
    ensures
        printable(s) == s,
{
    lemma_plain_head(s, Seq::empty(), 0);
    assert(s + Seq::<char>::empty() =~= s);
    assert(s.skip(0) + stripped(Seq::empty()) =~= s);
    lemma_all_kept(s);
}

/// A text of characters that are kept is kept.
proof fn lemma_all_kept(s: Seq<char>)
    requires
        forall|i: int| 0 <= i < s.len() ==> is_kept(#[trigger] s[i]),
    ensures
        kept(s) == s,
    decreases s.len(),
{
    reveal(Seq::filter);
    if s.len() > 0 {
        assert(is_kept(s[s.len() - 1]));
        lemma_all_kept(s.drop_last());
        assert(s.drop_last().push(s.last()) =~= s);
    } else {
        assert(kept(s) =~= s);
    }
}

// ---------------------------------------------------------------------------
// The buffer

/// Texts are printed one after the other.
pub proof fn law_texts_are_printed_in_turn(buffer: Seq<char>, first: Seq<char>, second: Seq<char>)
    ensures
        printed(buffer, first + second) == printed(printed(buffer, first), second),
    decreases second.len(),
{
    if second.len() == 0 {
        assert(first + second =~= first);
    } else {
        assert((first + second).drop_last() =~= first + second.drop_last());
        assert((first + second).last() == second.last());
        law_texts_are_printed_in_turn(buffer, first, second.drop_last());
    }
}

/// Ordinary text is put behind what stands in the buffer.
pub proof fn law_ordinary_text_is_put_behind(buffer: Seq<char>, text: Seq<char>)
    requires
        forall|i: int|
            0 <= i < text.len() ==> #[trigger] text[i] != '\u{8}' && text[i] != '\u{7f}' && text[i]
                != '\r',
    ensures
        printed(buffer, text) == buffer + text,
    decreases text.len(),
{
    if text.len() == 0 {
        assert(buffer + text =~= buffer);
    } else {
        law_ordinary_text_is_put_behind(buffer, text.drop_last());
        let c = text[text.len() - 1];
        assert(c != '\u{8}' && c != '\u{7f}' && c != '\r');
        assert((buffer + text.drop_last()).push(c) =~= buffer + text);
    }
}

/// A backspace and a delete each take back the character before them, and nothing
/// where there is none; a carriage return changes nothing.
pub proof fn law_rubouts_take_back(buffer: Seq<char>, c: char)
    requires
        c != '\u{8}' && c != '\u{7f}' && c != '\r',
    ensures
        printed(buffer, seq![c, '\u{8}']) == buffer,
        printed(buffer, seq![c, '\u{7f}']) == buffer,
        printed(buffer, seq!['\r']) == buffer,
        printed(Seq::empty(), seq!['\u{8}']) == Seq::<char>::empty(),
        printed(Seq::empty(), seq!['\u{7f}']) == Seq::<char>::empty(),
{
    reveal_with_fuel(printed, 3);
    assert(seq![c, '\u{8}'].drop_last() =~= seq![c]);
    assert(seq![c, '\u{7f}'].drop_last() =~= seq![c]);
    assert(seq![c].drop_last() =~= Seq::<char>::empty());
    assert(seq!['\r'].drop_last() =~= Seq::<char>::empty());
    assert(seq!['\u{8}'].drop_last() =~= Seq::<char>::empty());
    assert(seq!['\u{7f}'].drop_last() =~= Seq::<char>::empty());
    assert(buffer.push(c).drop_last() =~= buffer);
}

} // verus!
