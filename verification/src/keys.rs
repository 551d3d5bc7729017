//! The bytes that keys send to a terminal.

use crate::text::{has_prefix, lower_char, lowered, same, starts_with, to_lower, trim, trimmed};
use vstd::prelude::*;
use vstd::utf8::*;

verus! {

/// The byte that starts an escape sequence.
pub const ESCAPE_BYTE: u8 = 27;

/// The byte that a backspace sends.
pub const BACKSPACE_BYTE: u8 = 127;

/// An escape sequence with a letter.
pub open spec fn csi(letter: u8) -> Seq<u8> {
    seq![ESCAPE_BYTE, 91u8, letter]
}

/// An escape sequence with a digit and a tilde.
pub open spec fn csi_tilde(digit: u8) -> Seq<u8> {
    seq![ESCAPE_BYTE, 91u8, digit, 126u8]
}

/// An escape sequence with a letter.
fn csi_bytes(letter: u8) -> (r: Vec<u8>)
    ensures
        r@ == csi(letter),
{
    let r: Vec<u8> = vec![ESCAPE_BYTE, 91, letter];
    assert(r@ =~= csi(letter));
    r
}

/// An escape sequence with a digit and a tilde.
fn csi_tilde_bytes(digit: u8) -> (r: Vec<u8>)
    ensures
        r@ == csi_tilde(digit),
{
    let r: Vec<u8> = vec![ESCAPE_BYTE, 91, digit, 126];
    assert(r@ =~= csi_tilde(digit));
    r
}

/// One byte.
fn one_byte(b: u8) -> (r: Vec<u8>)
    ensures
        r@ == seq![b],
{
    let r: Vec<u8> = vec![b];
    assert(r@ =~= seq![b]);
    r
}

/// Optional bytes.
pub open spec fn bytes_view(r: Option<Vec<u8>>) -> Option<Seq<u8>> {
    match r {
        Some(v) => Some(v@),
        None => None,
    }
}

/// The byte of a letter with the control key.
pub open spec fn control_byte(letter: u8) -> Option<Seq<u8>> {
    if 97 <= letter <= 122 {
        Some(seq![(letter - 96) as u8])
    } else {
        None
    }
}

/// The byte of a letter with the control key.
fn control_bytes(letter: u8) -> (r: Option<Vec<u8>>)
    ensures
        bytes_view(r) == control_byte(letter),
{
    if 97 <= letter && letter <= 122 {
        Some(one_byte(letter - 96))
    } else {
        None
    }
}

// ---------------------------------------------------------------------------
// Keys that a request names

/// The bytes of a key by its name, in small letters.
pub open spec fn named_key(name: Seq<char>) -> Option<Seq<u8>> {
    let bytes = encode_utf8(name);
    if name == "enter"@ || name == "return"@ {
        Some(seq![13u8])
    } else if name == "tab"@ {
        Some(seq![9u8])
    } else if name == "escape"@ || name == "esc"@ {
        Some(seq![ESCAPE_BYTE])
    } else if name == "backspace"@ {
        Some(seq![BACKSPACE_BYTE])
    } else if name == "delete"@ {
        Some(csi_tilde(51))
    } else if name == "left"@ {
        Some(csi(68))
    } else if name == "right"@ {
        Some(csi(67))
    } else if name == "up"@ {
        Some(csi(65))
    } else if name == "down"@ {
        Some(csi(66))
    } else if name == "home"@ {
        Some(csi(72))
    } else if name == "end"@ {
        Some(csi(70))
    } else if name == "pageup"@ || name == "page-up"@ {
        Some(csi_tilde(53))
    } else if name == "pagedown"@ || name == "page-down"@ {
        Some(csi_tilde(54))
    } else if has_prefix(name, "ctrl-"@) && bytes.len() == 6 {
        control_byte(bytes[5])
    } else if bytes.len() == 1 {
        Some(bytes)
    } else {
        None
    }
}

/// The bytes of a key that a request names: case and the white space around it
/// do not count.
pub open spec fn socket_key(key: Seq<char>) -> Option<Seq<u8>> {
    named_key(lowered(trimmed(key)))
}

/// The bytes of a key that a request names.
pub fn bytes_for_socket_key(key: &str) -> (r: Option<Vec<u8>>)
    ensures
        bytes_view(r) == socket_key(key@),
{
    let normalized = to_lower(trim(key).as_str());
    let name = normalized.as_str();
    if same(name, "enter") || same(name, "return") {
        return Some(one_byte(13));
    }
    if same(name, "tab") {
        return Some(one_byte(9));
    }
    if same(name, "escape") || same(name, "esc") {
        return Some(one_byte(ESCAPE_BYTE));
    }
    if same(name, "backspace") {
        return Some(one_byte(BACKSPACE_BYTE));
    }
    if same(name, "delete") {
        return Some(csi_tilde_bytes(51));
    }
    if same(name, "left") {
        return Some(csi_bytes(68));
    }
    if same(name, "right") {
        return Some(csi_bytes(67));
    }
    if same(name, "up") {
        return Some(csi_bytes(65));
    }
    if same(name, "down") {
        return Some(csi_bytes(66));
    }
    if same(name, "home") {
        return Some(csi_bytes(72));
    }
    if same(name, "end") {
        return Some(csi_bytes(70));
    }
    if same(name, "pageup") || same(name, "page-up") {
        return Some(csi_tilde_bytes(53));
    }
    if same(name, "pagedown") || same(name, "page-down") {
        return Some(csi_tilde_bytes(54));
    }
    let bytes = name.as_bytes_vec();
    if starts_with(name, "ctrl-") && bytes.len() == 6 {
        return control_bytes(bytes[5]);
    }
    if bytes.len() == 1 {
        Some(bytes)
    } else {
        None
    }
}

// ---------------------------------------------------------------------------
// Keys of the keyboard

/// The bytes of a key that has a name of its own.
pub open spec fn special_key(name: Seq<char>) -> Option<Seq<u8>> {
    if name == "Return"@ || name == "KP_Enter"@ {
        Some(seq![13u8])
    } else if name == "BackSpace"@ || name == "Backspace"@ {
        Some(seq![BACKSPACE_BYTE])
    } else if name == "Tab"@ {
        Some(seq![9u8])
    } else if name == "Escape"@ {
        Some(seq![ESCAPE_BYTE])
    } else if name == "Left"@ {
        Some(csi(68))
    } else if name == "Right"@ {
        Some(csi(67))
    } else if name == "Up"@ {
        Some(csi(65))
    } else if name == "Down"@ {
        Some(csi(66))
    } else if name == "Home"@ {
        Some(csi(72))
    } else if name == "End"@ {
        Some(csi(70))
    } else if name == "Delete"@ {
        Some(csi_tilde(51))
    } else if name == "Page_Up"@ {
        Some(csi_tilde(53))
    } else if name == "Page_Down"@ {
        Some(csi_tilde(54))
    } else {
        None
    }
}

/// The bytes of a key with the control key: only letters have any.
pub open spec fn control_key(c: Option<char>) -> Option<Seq<u8>> {
    match c {
        Some(c) => if 97 <= lower_char(c) as int <= 122 {
            control_byte(lower_char(c) as u8)
        } else {
            None
        },
        None => None,
    }
}

/// The bytes of a key, given its name, whether the control key is held, and the
/// character it stands for.
pub open spec fn keyboard_key(name: Seq<char>, control: bool, c: Option<char>) -> Option<Seq<u8>> {
    if special_key(name) is Some {
        special_key(name)
    } else if control {
        control_key(c)
    } else {
        match c {
            Some(c) => Some(encode_utf8(seq![c])),
            None => None,
        }
    }
}

/// The bytes of a key that has a name of its own.
fn bytes_for_special_key(name: &str) -> (r: Option<Vec<u8>>)
    ensures
        bytes_view(r) == special_key(name@),
{
    if same(name, "Return") || same(name, "KP_Enter") {
        Some(one_byte(13))
    } else if same(name, "BackSpace") || same(name, "Backspace") {
        Some(one_byte(BACKSPACE_BYTE))
    } else if same(name, "Tab") {
        Some(one_byte(9))
    } else if same(name, "Escape") {
        Some(one_byte(ESCAPE_BYTE))
    } else if same(name, "Left") {
        Some(csi_bytes(68))
    } else if same(name, "Right") {
        Some(csi_bytes(67))
    } else if same(name, "Up") {
        Some(csi_bytes(65))
    } else if same(name, "Down") {
        Some(csi_bytes(66))
    } else if same(name, "Home") {
        Some(csi_bytes(72))
    } else if same(name, "End") {
        Some(csi_bytes(70))
    } else if same(name, "Delete") {
        Some(csi_tilde_bytes(51))
    } else if same(name, "Page_Up") {
        Some(csi_tilde_bytes(53))
    } else if same(name, "Page_Down") {
        Some(csi_tilde_bytes(54))
    } else {
        None
    }
}

/// The bytes of a letter with the control key.
fn bytes_for_control(c: char) -> (r: Option<Vec<u8>>)
    ensures
        bytes_view(r) == control_key(Some(c)),
{
    let code: u32 = c as u32;
    if 65 <= code && code <= 90 {
        control_bytes((code + 32) as u8)
    } else if 97 <= code && code <= 122 {
        control_bytes(code as u8)
    } else {
        None
    }
}

/// The bytes of a key of the keyboard.
pub fn bytes_for_key(name: &str, control: bool, c: Option<char>) -> (r: Option<Vec<u8>>)
    ensures
        bytes_view(r) == keyboard_key(name@, control, c),
{
    if let Some(bytes) = bytes_for_special_key(name) {
        return Some(bytes);
    }
    match c {
        None => None,
        Some(c) => if control {
            bytes_for_control(c)
        } else {
            let mut s = String::new();
            s.push(c);
            assert(s@ =~= seq![c]);
            Some(s.as_str().as_bytes_vec())
        },
    }
}

// ---------------------------------------------------------------------------
// Laws

/// What tells the names of keys apart: their lengths and first characters.
proof fn lemma_key_names()
    ensures
        "enter"@.len() == 5,
        "enter"@[0] == 'e' && "enter"@[1] == 'n',
        "return"@.len() == 6,
        "return"@[0] == 'r' && "return"@[1] == 'e',
        "tab"@.len() == 3,
        "tab"@[0] == 't' && "tab"@[1] == 'a',
        "escape"@.len() == 6,
        "escape"@[0] == 'e' && "escape"@[1] == 's',
        "esc"@.len() == 3,
        "esc"@[0] == 'e' && "esc"@[1] == 's',
        "backspace"@.len() == 9,
        "backspace"@[0] == 'b' && "backspace"@[1] == 'a',
        "delete"@.len() == 6,
        "delete"@[0] == 'd' && "delete"@[1] == 'e',
        "left"@.len() == 4,
        "left"@[0] == 'l' && "left"@[1] == 'e',
        "right"@.len() == 5,
        "right"@[0] == 'r' && "right"@[1] == 'i',
        "up"@.len() == 2,
        "up"@[0] == 'u' && "up"@[1] == 'p',
        "down"@.len() == 4,
        "down"@[0] == 'd' && "down"@[1] == 'o',
        "home"@.len() == 4,
        "home"@[0] == 'h' && "home"@[1] == 'o',
        "end"@.len() == 3,
        "end"@[0] == 'e' && "end"@[1] == 'n',
        "pageup"@.len() == 6,
        "pageup"@[0] == 'p' && "pageup"@[1] == 'a',
        "page-up"@.len() == 7,
        "page-up"@[0] == 'p' && "page-up"@[1] == 'a',
        "pagedown"@.len() == 8,
        "pagedown"@[0] == 'p' && "pagedown"@[1] == 'a',
        "page-down"@.len() == 9,
        "page-down"@[0] == 'p' && "page-down"@[1] == 'a',
{
    reveal_strlit("enter");
    reveal_strlit("return");
    reveal_strlit("tab");
    reveal_strlit("escape");
    reveal_strlit("esc");
    reveal_strlit("backspace");
    reveal_strlit("delete");
    reveal_strlit("left");
    reveal_strlit("right");
    reveal_strlit("up");
    reveal_strlit("down");
    reveal_strlit("home");
    reveal_strlit("end");
    reveal_strlit("pageup");
    reveal_strlit("page-up");
    reveal_strlit("pagedown");
    reveal_strlit("page-down");
}

/// What tells the names of the keyboard's keys apart.
proof fn lemma_keyboard_names()
    ensures
        "Return"@.len() == 6,
        "Return"@[0] == 'R' && "Return"@[1] == 'e',
        "KP_Enter"@.len() == 8,
        "KP_Enter"@[0] == 'K' && "KP_Enter"@[1] == 'P',
        "BackSpace"@.len() == 9,
        "BackSpace"@[0] == 'B' && "BackSpace"@[1] == 'a',
        "Backspace"@.len() == 9,
        "Backspace"@[0] == 'B' && "Backspace"@[1] == 'a',
        "Tab"@.len() == 3,
        "Tab"@[0] == 'T' && "Tab"@[1] == 'a',
        "Escape"@.len() == 6,
        "Escape"@[0] == 'E' && "Escape"@[1] == 's',
        "Left"@.len() == 4,
        "Left"@[0] == 'L' && "Left"@[1] == 'e',
        "Right"@.len() == 5,
        "Right"@[0] == 'R' && "Right"@[1] == 'i',
        "Up"@.len() == 2,
        "Up"@[0] == 'U' && "Up"@[1] == 'p',
        "Down"@.len() == 4,
        "Down"@[0] == 'D' && "Down"@[1] == 'o',
        "Home"@.len() == 4,
        "Home"@[0] == 'H' && "Home"@[1] == 'o',
        "End"@.len() == 3,
        "End"@[0] == 'E' && "End"@[1] == 'n',
        "Delete"@.len() == 6,
        "Delete"@[0] == 'D' && "Delete"@[1] == 'e',
        "Page_Up"@.len() == 7,
        "Page_Up"@[0] == 'P' && "Page_Up"@[1] == 'a',
        "Page_Down"@.len() == 9,
        "Page_Down"@[0] == 'P' && "Page_Down"@[1] == 'a',
        "BackSpace"@[4] == 'S' && "Backspace"@[4] == 's',
{
    reveal_strlit("Return");
    reveal_strlit("KP_Enter");
    reveal_strlit("BackSpace");
    reveal_strlit("Backspace");
    reveal_strlit("Tab");
    reveal_strlit("Escape");
    reveal_strlit("Left");
    reveal_strlit("Right");
    reveal_strlit("Up");
    reveal_strlit("Down");
    reveal_strlit("Home");
    reveal_strlit("End");
    reveal_strlit("Delete");
    reveal_strlit("Page_Up");
    reveal_strlit("Page_Down");
}

/// A text has at least as many bytes as characters.
proof fn lemma_bytes_of(name: Seq<char>)
    ensures
        encode_utf8(name).len() >= name.len(),
    decreases name.len(),
{
    if name.len() > 0 {
        lemma_bytes_of(name.drop_first());
    }
}

/// The keys that a request can name send the sequences that terminals expect of
/// them, however the names are spelled; any other name of more than one
/// character sends nothing, unless it is about the control key.
pub proof fn law_named_keys_send_their_sequences(key: Seq<char>)
    ensures
        ({
            let name = lowered(trimmed(key));
            &&& name == "enter"@ || name == "return"@ ==> socket_key(key) == Some(
                seq![13u8],
            )
            &&& name == "tab"@ ==> socket_key(key) == Some(
                seq![9u8],
            )
            &&& name == "escape"@ || name == "esc"@ ==> socket_key(key) == Some(
                seq![27u8],
            )
            &&& name == "backspace"@ ==> socket_key(key) == Some(
                seq![127u8],
            )
            &&& name == "delete"@ ==> socket_key(key) == Some(
                seq![27u8, 91u8, 51u8, 126u8],
            )
            &&& name == "left"@ ==> socket_key(key) == Some(
                seq![27u8, 91u8, 68u8],
            )
            &&& name == "right"@ ==> socket_key(key) == Some(
                seq![27u8, 91u8, 67u8],
            )
            &&& name == "up"@ ==> socket_key(key) == Some(
                seq![27u8, 91u8, 65u8],
            )
            &&& name == "down"@ ==> socket_key(key) == Some(
                seq![27u8, 91u8, 66u8],
            )
            &&& name == "home"@ ==> socket_key(key) == Some(
                seq![27u8, 91u8, 72u8],
            )
            &&& name == "end"@ ==> socket_key(key) == Some(
                seq![27u8, 91u8, 70u8],
            )
            &&& name == "pageup"@ || name == "page-up"@ ==> socket_key(key) == Some(
                seq![27u8, 91u8, 53u8, 126u8],
            )
            &&& name == "pagedown"@ || name == "page-down"@ ==> socket_key(key) == Some(
                seq![27u8, 91u8, 54u8, 126u8],
            )
            &&& name.len() > 1 && !has_prefix(name, "ctrl-"@) && name
                != "enter"@ && name
                != "return"@ && name
                != "tab"@ && name
                != "escape"@ && name
                != "esc"@ && name
                != "backspace"@ && name
                != "delete"@ && name
                != "left"@ && name
                != "right"@ && name
                != "up"@ && name
                != "down"@ && name
                != "home"@ && name
                != "end"@ && name
                != "pageup"@ && name
                != "page-up"@ && name
                != "pagedown"@ && name
                != "page-down"@ ==> socket_key(key) is None
        }),
{
    let name = lowered(trimmed(key));
    lemma_key_names();
    lemma_bytes_of(name);
}

/// The keys of the keyboard that print nothing send the sequences that terminals
/// expect of them, with the control key or without it.
pub proof fn law_keyboard_keys_send_their_sequences(control: bool, c: Option<char>)
    ensures
        keyboard_key("Return"@, control, c) == Some(seq![13u8]),
        keyboard_key("KP_Enter"@, control, c) == Some(seq![13u8]),
        keyboard_key("BackSpace"@, control, c) == Some(seq![127u8]),
        keyboard_key("Backspace"@, control, c) == Some(seq![127u8]),
        keyboard_key("Tab"@, control, c) == Some(seq![9u8]),
        keyboard_key("Escape"@, control, c) == Some(seq![27u8]),
        keyboard_key("Left"@, control, c) == Some(seq![27u8, 91u8, 68u8]),
        keyboard_key("Right"@, control, c) == Some(seq![27u8, 91u8, 67u8]),
        keyboard_key("Up"@, control, c) == Some(seq![27u8, 91u8, 65u8]),
        keyboard_key("Down"@, control, c) == Some(seq![27u8, 91u8, 66u8]),
        keyboard_key("Home"@, control, c) == Some(seq![27u8, 91u8, 72u8]),
        keyboard_key("End"@, control, c) == Some(seq![27u8, 91u8, 70u8]),
        keyboard_key("Delete"@, control, c) == Some(seq![27u8, 91u8, 51u8, 126u8]),
        keyboard_key("Page_Up"@, control, c) == Some(seq![27u8, 91u8, 53u8, 126u8]),
        keyboard_key("Page_Down"@, control, c) == Some(seq![27u8, 91u8, 54u8, 126u8]),
{
    lemma_keyboard_names();
}

/// A key that a request names sends what the key of that name on the keyboard
/// sends.
pub proof fn law_named_keys_send_what_the_keyboard_sends(key: Seq<char>, control: bool, c: Option<char>)
    ensures
        ({
            let name = lowered(trimmed(key));
            &&& name == "enter"@ || name == "return"@ ==> socket_key(key) == keyboard_key("Return"@, control, c)
            &&& name == "backspace"@ ==> socket_key(key) == keyboard_key("BackSpace"@, control, c)
            &&& name == "tab"@ ==> socket_key(key) == keyboard_key("Tab"@, control, c)
            &&& name == "escape"@ || name == "esc"@ ==> socket_key(key) == keyboard_key("Escape"@, control, c)
            &&& name == "left"@ ==> socket_key(key) == keyboard_key("Left"@, control, c)
            &&& name == "right"@ ==> socket_key(key) == keyboard_key("Right"@, control, c)
            &&& name == "up"@ ==> socket_key(key) == keyboard_key("Up"@, control, c)
            &&& name == "down"@ ==> socket_key(key) == keyboard_key("Down"@, control, c)
            &&& name == "home"@ ==> socket_key(key) == keyboard_key("Home"@, control, c)
            &&& name == "end"@ ==> socket_key(key) == keyboard_key("End"@, control, c)
            &&& name == "delete"@ ==> socket_key(key) == keyboard_key("Delete"@, control, c)
            &&& name == "pageup"@ || name == "page-up"@ ==> socket_key(key) == keyboard_key("Page_Up"@, control, c)
            &&& name == "pagedown"@ || name == "page-down"@ ==> socket_key(key) == keyboard_key("Page_Down"@, control, c)
        }),
{
    law_named_keys_send_their_sequences(key);
    law_keyboard_keys_send_their_sequences(control, c);
}

/// A key that prints a character sends the bytes of that character.
pub proof fn law_printing_keys_send_their_character(name: Seq<char>, c: char)
    requires
        name != "Return"@,
        name != "KP_Enter"@,
        name != "BackSpace"@,
        name != "Backspace"@,
        name != "Tab"@,
        name != "Escape"@,
        name != "Left"@,
        name != "Right"@,
        name != "Up"@,
        name != "Down"@,
        name != "Home"@,
        name != "End"@,
        name != "Delete"@,
        name != "Page_Up"@,
        name != "Page_Down"@,
    ensures
        keyboard_key(name, false, Some(c)) == Some(encode_utf8(seq![c])),
        keyboard_key(name, false, None) is None,
        keyboard_key(name, true, None) is None,
{
}

/// A letter with the control key sends the same byte from the keyboard, in
/// either case, as a request does that names it: the number of the letter.
pub proof fn law_control_letters_agree(letter: char)
    requires
        97 <= letter as int <= 122,
    ensures
        control_key(Some(letter)) == Some(seq![(letter as int - 96) as u8]),
        control_key(Some(((letter as u32) - 32) as char)) == control_key(Some(letter)),
        named_key("ctrl-"@.push(letter)) == control_key(Some(letter)),
{
    let name = "ctrl-"@.push(letter);
    reveal_strlit("ctrl-");
    lemma_not_a_plain_name(name);
    assert(is_ascii_chars(name)) by {
        assert forall|i: int| 0 <= i < name.len() implies '\0' <= #[trigger] name[i] <= '\u{7f}' by {}
    }
    is_ascii_chars_encode_utf8(name);
    assert(name.take(5) =~= "ctrl-"@);
    assert(encode_utf8(name)[5] == letter as u8);
}

/// A name that starts with `ctrl-` and one letter is no other name.
proof fn lemma_not_a_plain_name(name: Seq<char>)
    requires
        name.len() == 6,
        name.take(5) =~= "ctrl-"@,
    ensures
        name != "enter"@ && name != "return"@ && name != "tab"@ && name != "escape"@ && name
            != "esc"@ && name != "backspace"@ && name != "delete"@ && name != "left"@ && name
            != "right"@ && name != "up"@ && name != "down"@ && name != "home"@ && name != "end"@
            && name != "pageup"@ && name != "page-up"@ && name != "pagedown"@ && name
            != "page-down"@,
{
    reveal_strlit("ctrl-");
    assert(name[0] == name.take(5)[0]);
    assert(name[0] == 'c');
    reveal_strlit("enter");
    reveal_strlit("return");
    reveal_strlit("tab");
    reveal_strlit("escape");
    reveal_strlit("esc");
    reveal_strlit("backspace");
    reveal_strlit("delete");
    reveal_strlit("left");
    reveal_strlit("right");
    reveal_strlit("up");
    reveal_strlit("down");
    reveal_strlit("home");
    reveal_strlit("end");
    reveal_strlit("pageup");
    reveal_strlit("page-up");
    reveal_strlit("pagedown");
    reveal_strlit("page-down");
    assert("enter"@[0] == 'e' && "return"@[0] == 'r' && "tab"@[0] == 't' && "escape"@[0] == 'e'
        && "esc"@[0] == 'e' && "backspace"@[0] == 'b' && "delete"@[0] == 'd' && "left"@[0] == 'l'
        && "right"@[0] == 'r' && "up"@[0] == 'u' && "down"@[0] == 'd' && "home"@[0] == 'h'
        && "end"@[0] == 'e' && "pageup"@[0] == 'p' && "page-up"@[0] == 'p' && "pagedown"@[0] == 'p'
        && "page-down"@[0] == 'p');
}

} // verus!
