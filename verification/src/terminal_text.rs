//! The text that a terminal prints: escape sequences are taken out, and what is
//! left is put at the end of a buffer.

use crate::lists::{group_views, views};
use crate::percent::{text_from_utf8_lossy, utf8_lossy};
use crate::text::{chars_of, text_of};
use vstd::prelude::*;

verus! {

/// The character that starts an escape sequence.
pub const ESCAPE: char = '\u{1b}';

/// The character that rings the bell.
pub const BELL: char = '\u{7}';

// ---------------------------------------------------------------------------
// Escape sequences

/// Where a control sequence ends: behind the first character from `i` on that
/// stands between `@` and `~`.
pub open spec fn control_end(s: Seq<char>, i: int) -> int
    decreases s.len() - i,
{
    if i >= s.len() {
        s.len() as int
    } else if 64 <= s[i] as int <= 126 {
        i + 1
    } else {
        control_end(s, i + 1)
    }
}

/// Where an operating system command ends: behind the first bell from `i` on,
/// or behind an escape character with a backslash.
pub open spec fn command_end(s: Seq<char>, i: int) -> int
    decreases s.len() - i,
{
    if i >= s.len() {
        s.len() as int
    } else if s[i] == BELL {
        i + 1
    } else if s[i] == ESCAPE && i + 1 < s.len() && s[i + 1] == '\\' {
        i + 2
    } else {
        command_end(s, i + 1)
    }
}

/// Where an escape sequence ends whose escape character stands before `i`.
pub open spec fn sequence_end(s: Seq<char>, i: int) -> int {
    if i < s.len() && s[i] == '[' {
        control_end(s, i + 1)
    } else if i < s.len() && s[i] == ']' {
        command_end(s, i + 1)
    } else {
        i
    }
}

/// A sequence ends behind its start, and within the text.
pub proof fn lemma_control_end(s: Seq<char>, i: int)
    requires
        0 <= i <= s.len(),
    ensures
        i <= control_end(s, i) <= s.len(),
    decreases s.len() - i,
{
    if i < s.len() {
        lemma_control_end(s, i + 1);
    }
}

/// A command ends behind its start, and within the text.
pub proof fn lemma_command_end(s: Seq<char>, i: int)
    requires
        0 <= i <= s.len(),
    ensures
        i <= command_end(s, i) <= s.len(),
    decreases s.len() - i,
{
    if i < s.len() {
        lemma_command_end(s, i + 1);
    }
}

/// An escape sequence ends behind its start, and within the text.
pub proof fn lemma_sequence_end(s: Seq<char>, i: int)
    requires
        0 <= i <= s.len(),
    ensures
        i <= sequence_end(s, i) <= s.len(),
{
    if i < s.len() {
        lemma_control_end(s, i + 1);
        lemma_command_end(s, i + 1);
    }
}

/// The text from `i` on, without escape sequences.
pub open spec fn stripped_from(s: Seq<char>, i: int) -> Seq<char>
    decreases s.len() - i,
{
    if i < 0 || i >= s.len() {
        Seq::empty()
    } else if s[i] == ESCAPE {
        proof {
            lemma_sequence_end(s, i + 1);
        }
        stripped_from(s, sequence_end(s, i + 1))
    } else {
        seq![s[i]] + stripped_from(s, i + 1)
    }
}

/// A text without its escape sequences.
pub open spec fn stripped(s: Seq<char>) -> Seq<char> {
    stripped_from(s, 0)
}

/// Whether a character ends a control sequence.
fn ends_control(c: char) -> (r: bool)
    ensures
        r == (64 <= c as int <= 126),
{
    let code: u32 = c as u32;
    64 <= code && code <= 126
}

/// Where a control sequence ends.
fn end_of_control(v: &Vec<char>, start: usize) -> (r: usize)
    requires
        start <= v@.len(),
    ensures
        r == control_end(v@, start as int),
        start <= r <= v@.len(),
{
    let mut i: usize = start;
    let length: usize = v.len();
    while i < length
        invariant
            start <= i <= length == v@.len(),
            control_end(v@, i as int) == control_end(v@, start as int),
        decreases length - i,
    {
        if ends_control(v[i]) {
            return i + 1;
        }
        i += 1;
    }
    i
}

/// Where an operating system command ends.
fn end_of_command(v: &Vec<char>, start: usize) -> (r: usize)
    requires
        start <= v@.len(),
    ensures
        r == command_end(v@, start as int),
        start <= r <= v@.len(),
{
    let mut i: usize = start;
    let length: usize = v.len();
    while i < length
        invariant
            start <= i <= length == v@.len(),
            command_end(v@, i as int) == command_end(v@, start as int),
        decreases length - i,
    {
        if v[i] == BELL {
            return i + 1;
        }
        if v[i] == ESCAPE && i + 1 < length && v[i + 1] == '\\' {
            return i + 2;
        }
        i += 1;
    }
    i
}

/// A text without its escape sequences.
pub fn strip_ansi_controls(input: &str) -> (r: String)
    ensures
        r@ == stripped(input@),
{
    let v = chars_of(input);
    let length: usize = v.len();
    let mut out: Vec<char> = Vec::new();
    let mut i: usize = 0;
    while i < length
        invariant
            i <= length == v@.len(),
            v@ == input@,
            out@ + stripped_from(v@, i as int) =~= stripped(input@),
        decreases length - i,
    {
        if v[i] != ESCAPE {
            out.push(v[i]);
            i += 1;
        } else {
            let next: usize = i + 1;
            if next < length && v[next] == '[' {
                i = end_of_control(&v, next + 1);
            } else if next < length && v[next] == ']' {
                i = end_of_command(&v, next + 1);
            } else {
                i = next;
            }
        }
    }
    assert(out@ =~= stripped(input@));
    text_of(&out)
}

// ---------------------------------------------------------------------------
// Characters that are kept

/// Whether a character is one of the control codes of Unicode.
pub open spec fn is_control(c: char) -> bool {
    c as int <= 31 || 127 <= c as int <= 159
}

/// Whether a character of a terminal's text is kept: a line feed, tab, carriage
/// return, backspace or delete, or any that is not a control code.
pub open spec fn is_kept(c: char) -> bool {
    c == '\n' || c == '\t' || c == '\r' || c == '\u{8}' || c == '\u{7f}' || !is_control(c)
}

/// The characters of a text that are kept.
pub open spec fn kept(s: Seq<char>) -> Seq<char> {
    s.filter(|c: char| is_kept(c))
}

/// What a text prints.
pub open spec fn printable(s: Seq<char>) -> Seq<char> {
    kept(stripped(s))
}

/// Whether a character of a terminal's text is kept.
fn keeps(c: char) -> (r: bool)
    ensures
        r == is_kept(c),
{
    let code: u32 = c as u32;
    c == '\n' || c == '\t' || c == '\r' || c == '\u{8}' || c == '\u{7f}' || !(code <= 31 || (127
        <= code && code <= 159))
}

/// What a text prints.
pub fn printable_text(decoded: &str) -> (r: String)
    ensures
        r@ == printable(decoded@),
{
    let plain = strip_ansi_controls(decoded);
    let v = chars_of(plain.as_str());
    let mut out: Vec<char> = Vec::new();
    let mut i: usize = 0;
    while i < v.len()
        invariant
            i <= v@.len(),
            out@ == kept(v@.take(i as int)),
        decreases v@.len() - i,
    {
        proof {
            reveal(Seq::filter);
            assert(v@.take(i + 1).drop_last() =~= v@.take(i as int));
        }
        if keeps(v[i]) {
            out.push(v[i]);
        }
        i += 1;
    }
    assert(v@.take(i as int) =~= v@);
    text_of(&out)
}

/// What bytes print: they are read as UTF-8, with a replacement for what is
/// not.
pub fn terminal_text_from_bytes(bytes: &Vec<u8>) -> (r: String)
    ensures
        r@ == printable(utf8_lossy(bytes@)),
{
    let decoded = text_from_utf8_lossy(bytes);
    printable_text(decoded.as_str())
}

// ---------------------------------------------------------------------------
// The buffer

/// A change at the end of a buffer.
pub enum Edit {
    Append(String),
    DeleteLast,
}

/// A change at the end of a buffer.
pub enum EditView {
    Append(Seq<char>),
    DeleteLast,
}

impl View for Edit {
    type V = EditView;

    open spec fn view(&self) -> EditView {
        match *self {
            Edit::Append(s) => EditView::Append(s@),
            Edit::DeleteLast => EditView::DeleteLast,
        }
    }
}

/// A buffer after a change.
pub open spec fn edited(buffer: Seq<char>, edit: EditView) -> Seq<char> {
    match edit {
        EditView::Append(s) => buffer + s,
        EditView::DeleteLast => if buffer.len() == 0 {
            buffer
        } else {
            buffer.drop_last()
        },
    }
}

/// A buffer after changes.
pub open spec fn all_edited(buffer: Seq<char>, edits: Seq<EditView>) -> Seq<char>
    decreases edits.len(),
{
    if edits.len() == 0 {
        buffer
    } else {
        edited(all_edited(buffer, edits.drop_last()), edits.last())
    }
}

/// Whether a character deletes the one before it.
pub open spec fn is_rubout(c: char) -> bool {
    c == '\u{8}' || c == '\u{7f}'
}

/// A buffer after a character was printed.
pub open spec fn printed_char(buffer: Seq<char>, c: char) -> Seq<char> {
    if is_rubout(c) {
        if buffer.len() == 0 {
            buffer
        } else {
            buffer.drop_last()
        }
    } else if c == '\r' {
        buffer
    } else {
        buffer.push(c)
    }
}

/// A buffer after a text was printed: backspace and delete take the last
/// character away, a carriage return does nothing, and any other character is
/// put behind.
pub open spec fn printed(buffer: Seq<char>, text: Seq<char>) -> Seq<char>
    decreases text.len(),
{
    if text.len() == 0 {
        buffer
    } else {
        printed_char(printed(buffer, text.drop_last()), text.last())
    }
}

/// The changes that are due with a piece of text that is not put in yet.
pub open spec fn flushed(edits: Seq<EditView>, pending: Seq<char>) -> Seq<EditView> {
    if pending.len() == 0 {
        edits
    } else {
        edits.push(EditView::Append(pending))
    }
}

/// The changes that the characters of a text make so far, and the piece that
/// is not put in yet.
pub open spec fn edits_so_far(text: Seq<char>) -> (Seq<EditView>, Seq<char>)
    decreases text.len(),
{
    if text.len() == 0 {
        (Seq::empty(), Seq::empty())
    } else {
        let (edits, pending) = edits_so_far(text.drop_last());
        let c = text.last();
        if is_rubout(c) {
            (flushed(edits, pending).push(EditView::DeleteLast), Seq::empty())
        } else if c == '\r' {
            (flushed(edits, pending), Seq::empty())
        } else {
            (edits, pending.push(c))
        }
    }
}

/// The changes that a text makes: runs of characters are put in at once.
pub open spec fn edits_of(text: Seq<char>) -> Seq<EditView> {
    flushed(edits_so_far(text).0, edits_so_far(text).1)
}

/// Whether a text changes anything that is seen: it holds more than carriage
/// returns.
pub open spec fn shows(text: Seq<char>) -> bool {
    exists|i: int| 0 <= i < text.len() && #[trigger] text[i] != '\r'
}

/// Puts in the piece that is not put in yet.
fn flush_pending(edits: &mut Vec<Edit>, pending: &mut Vec<char>)
    ensures
        views(final(edits)@) == flushed(views(old(edits)@), old(pending)@),
        final(pending)@.len() == 0,
{
    broadcast use group_views;

    if pending.len() > 0 {
        edits.push(Edit::Append(text_of(pending)));
        pending.clear();
    }
}

/// The changes that a text makes, and whether it changes anything that is seen.
pub fn apply_terminal_text(text: &str) -> (r: (Vec<Edit>, bool))
    ensures
        views(r.0@) == edits_of(text@),
        r.1 == shows(text@),
{
    broadcast use group_views;

    let v = chars_of(text);
    let mut edits: Vec<Edit> = Vec::new();
    let mut pending: Vec<char> = Vec::new();
    let mut changed = false;
    let mut i: usize = 0;
    assert(views(edits@) =~= Seq::<EditView>::empty());
    while i < v.len()
        invariant
            i <= v@.len(),
            views(edits@) == edits_so_far(v@.take(i as int)).0,
            pending@ =~= edits_so_far(v@.take(i as int)).1,
            changed == (exists|j: int| 0 <= j < i && #[trigger] v@[j] != '\r'),
        decreases v@.len() - i,
    {
        proof {
            assert(v@.take(i + 1).drop_last() =~= v@.take(i as int));
        }
        let c = v[i];
        if c == '\u{8}' || c == '\u{7f}' {
            flush_pending(&mut edits, &mut pending);
            let ghost before = edits@;
            edits.push(Edit::DeleteLast);
            assert(views(edits@) =~= views(before).push(EditView::DeleteLast));
            assert(v@[i as int] != '\r');
            changed = true;
        } else if c == '\r' {
            flush_pending(&mut edits, &mut pending);
        } else {
            pending.push(c);
            assert(v@[i as int] != '\r');
            changed = true;
        }
        i += 1;
    }
    assert(v@.take(i as int) =~= v@);
    flush_pending(&mut edits, &mut pending);
    (edits, changed)
}

// ---------------------------------------------------------------------------
// Laws

/// What is left of a text holds no escape character.
pub proof fn law_stripped_text_has_no_escape(s: Seq<char>, i: int)
    ensures
        !stripped_from(s, i).contains(ESCAPE),
    decreases s.len() - i,
{
    if 0 <= i < s.len() {
        if s[i] == ESCAPE {
            lemma_sequence_end(s, i + 1);
            law_stripped_text_has_no_escape(s, sequence_end(s, i + 1));
        } else {
            law_stripped_text_has_no_escape(s, i + 1);
            let rest = stripped_from(s, i + 1);
            assert forall|j: int| 0 <= j < stripped_from(s, i).len() implies #[trigger] stripped_from(
                s,
                i,
            )[j] != ESCAPE by {
                if j > 0 {
                    assert(stripped_from(s, i)[j] == rest[j - 1]);
                    assert(rest.contains(rest[j - 1]));
                }
            }
        }
    }
}

/// A text without escape characters stays as it is.
pub proof fn law_plain_text_is_not_stripped(s: Seq<char>)
    requires
        !s.contains(ESCAPE),
    ensures
        stripped(s) == s,
{
    lemma_plain_from(s, 0);
    assert(s.skip(0) =~= s);
}

/// A text without escape characters stays as it is from any place on.
proof fn lemma_plain_from(s: Seq<char>, i: int)
    requires
        !s.contains(ESCAPE),
        0 <= i <= s.len(),
    ensures
        stripped_from(s, i) =~= s.skip(i),
    decreases s.len() - i,
{
    if i < s.len() {
        assert(s.contains(s[i]));
        lemma_plain_from(s, i + 1);
    }
}

/// To strip a text twice is to strip it once.
pub proof fn law_stripping_twice_is_stripping_once(s: Seq<char>)
    ensures
        stripped(stripped(s)) == stripped(s),
{
    law_stripped_text_has_no_escape(s, 0);
    law_plain_text_is_not_stripped(stripped(s));
}

/// A terminal prints only characters that are kept, and no escape character.
pub proof fn law_only_kept_characters_are_printed(s: Seq<char>, i: int)
    requires
        0 <= i < printable(s).len(),
    ensures
        is_kept(printable(s)[i]),
        printable(s)[i] != ESCAPE,
{
    broadcast use vstd::seq_lib::group_filter_ensures;

    let keep = |c: char| is_kept(c);
    assert(keep(stripped(s).filter(keep)[i]));
}

/// The changes that a text makes amount to printing its characters one by one.
pub proof fn law_edits_print_the_text(buffer: Seq<char>, text: Seq<char>)
    ensures
        all_edited(buffer, edits_of(text)) == printed(buffer, text),
{
    lemma_edits_so_far(buffer, text);
    lemma_flush(buffer, edits_so_far(text).0, edits_so_far(text).1);
}

/// To put a piece in is to put it behind the buffer.
proof fn lemma_flush(buffer: Seq<char>, edits: Seq<EditView>, pending: Seq<char>)
    ensures
        all_edited(buffer, flushed(edits, pending)) =~= all_edited(buffer, edits) + pending,
{
    if pending.len() > 0 {
        let more = edits.push(EditView::Append(pending));
        assert(more.drop_last() =~= edits);
    }
}

/// The changes so far, with the piece that is not put in yet, print the text.
proof fn lemma_edits_so_far(buffer: Seq<char>, text: Seq<char>)
    ensures
        all_edited(buffer, edits_so_far(text).0) + edits_so_far(text).1 =~= printed(buffer, text),
    decreases text.len(),
{
    if text.len() > 0 {
        let (edits, pending) = edits_so_far(text.drop_last());
        let c = text.last();
        lemma_edits_so_far(buffer, text.drop_last());
        lemma_flush(buffer, edits, pending);
        if is_rubout(c) {
            let more = flushed(edits, pending).push(EditView::DeleteLast);
            assert(more.drop_last() =~= flushed(edits, pending));
        }
    }
}

} // verus!
