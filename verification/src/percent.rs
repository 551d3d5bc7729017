//! Percent-encoded text, as it stands in the data part of a URL.

use vstd::prelude::*;
use vstd::utf8::*;

verus! {

/// What `String::from_utf8_lossy` reads bytes as.
pub uninterp spec fn utf8_lossy(bytes: Seq<u8>) -> Seq<char>;

/// Bytes as text. `String::from_utf8_lossy` reads valid UTF-8 as the text that
/// it encodes, and puts a replacement character for what is not valid; what it
/// reads depends on the bytes alone.
#[verifier::external_body]
pub(crate) fn text_from_utf8_lossy(bytes: &Vec<u8>) -> (r: String)
    ensures
        r@ == utf8_lossy(bytes@),
        valid_utf8(bytes@) ==> r@ == decode_utf8(bytes@),
{
    String::from_utf8_lossy(bytes.as_slice()).into_owned()
}

/// The value of a hexadecimal digit, in small or capital letters.
pub open spec fn hex_value(b: u8) -> Option<u8> {
    if 48 <= b <= 57 {
        Some((b - 48) as u8)
    } else if 65 <= b <= 70 {
        Some((b - 55) as u8)
    } else if 97 <= b <= 102 {
        Some((b - 87) as u8)
    } else {
        None
    }
}

/// The number that two bytes write in hexadecimal: two digits, or a plus sign
/// and one digit.
pub open spec fn hex_pair(a: u8, b: u8) -> Option<u8> {
    match (hex_value(a), hex_value(b)) {
        (Some(x), Some(y)) => Some((16 * x + y) as u8),
        (None, Some(y)) => if a == 43 {
            Some(y)
        } else {
            None
        },
        _ => None,
    }
}

/// Whether a percent sign with two bytes after it stands at `i`.
pub open spec fn escape_at(bytes: Seq<u8>, i: int) -> bool {
    0 <= i && i + 2 < bytes.len() && bytes[i] == 37
}

/// Whether the three bytes from `i` on write one byte.
pub open spec fn encoded_at(bytes: Seq<u8>, i: int) -> bool {
    escape_at(bytes, i) && hex_pair(bytes[i + 1], bytes[i + 2]) is Some
}

/// The bytes from `i` on, decoded.
pub open spec fn decoded_from(bytes: Seq<u8>, i: int) -> Seq<u8>
    decreases bytes.len() - i,
{
    if i < 0 || i >= bytes.len() {
        Seq::empty()
    } else if encoded_at(bytes, i) {
        seq![hex_pair(bytes[i + 1], bytes[i + 2])->0] + decoded_from(bytes, i + 3)
    } else {
        seq![bytes[i]] + decoded_from(bytes, i + 1)
    }
}

/// Whether a character of the text ends two bytes after every percent sign
/// that is read from `i` on, so that the two bytes can be taken on their own:
/// the byte after them is none of those that continue a character.
pub open spec fn cuttable_from(bytes: Seq<u8>, i: int) -> bool
    decreases bytes.len() - i,
{
    if i < 0 || i >= bytes.len() {
        true
    } else {
        &&& escape_at(bytes, i) && i + 3 < bytes.len() ==> !(128 <= bytes[i + 3] <= 191)
        &&& if encoded_at(bytes, i) {
            cuttable_from(bytes, i + 3)
        } else {
            cuttable_from(bytes, i + 1)
        }
    }
}

/// Whether a text can be decoded.
pub open spec fn decodable(s: Seq<char>) -> bool {
    cuttable_from(encode_utf8(s), 0)
}

/// A percent-encoded text, decoded.
pub open spec fn percent_decoded(s: Seq<char>) -> Seq<char> {
    utf8_lossy(decoded_from(encode_utf8(s), 0))
}

/// The value of a hexadecimal digit.
fn hex_digit(b: u8) -> (r: Option<u8>)
    ensures
        r == hex_value(b),
{
    if 48 <= b && b <= 57 {
        Some(b - 48)
    } else if 65 <= b && b <= 70 {
        Some(b - 55)
    } else if 97 <= b && b <= 102 {
        Some(b - 87)
    } else {
        None
    }
}

/// The number that two bytes write in hexadecimal.
fn hex_byte(a: u8, b: u8) -> (r: Option<u8>)
    ensures
        r == hex_pair(a, b),
{
    match (hex_digit(a), hex_digit(b)) {
        (Some(x), Some(y)) => Some(16 * x + y),
        (None, Some(y)) => if a == 43 {
            Some(y)
        } else {
            None
        },
        _ => None,
    }
}

/// A percent-encoded text, decoded.
pub fn percent_decode(input: &str) -> (r: String)
    requires
        decodable(input@),
    ensures
        r@ == percent_decoded(input@),
        valid_utf8(decoded_from(encode_utf8(input@), 0)) ==> r@ == decode_utf8(
            decoded_from(encode_utf8(input@), 0),
        ),
{
    let bytes = input.as_bytes();
    let mut output: Vec<u8> = Vec::new();
    let mut index: usize = 0;
    assert(output@ + decoded_from(bytes@, 0) =~= decoded_from(bytes@, 0));
    while index < bytes.len()
        invariant
            index <= bytes@.len(),
            output@ + decoded_from(bytes@, index as int) =~= decoded_from(bytes@, 0),
        decreases bytes@.len() - index,
    {
        if bytes[index] == 37 && bytes.len() - index > 2 {
            if let Some(value) = hex_byte(bytes[index + 1], bytes[index + 2]) {
                output.push(value);
                index += 3;
                continue;
            }
        }
        output.push(bytes[index]);
        index += 1;
    }
    assert(output@ =~= decoded_from(bytes@, 0));
    text_from_utf8_lossy(&output)
}

/// Whether a text can be decoded.
pub fn can_percent_decode(input: &str) -> (r: bool)
    ensures
        r == decodable(input@),
{
    let bytes = input.as_bytes();
    let mut index: usize = 0;
    while index < bytes.len()
        invariant
            index <= bytes@.len(),
            bytes@ == encode_utf8(input@),
            cuttable_from(bytes@, index as int) == cuttable_from(bytes@, 0),
        decreases bytes@.len() - index,
    {
        if bytes[index] == 37 && bytes.len() - index > 2 {
            if bytes.len() - index > 3 && 128 <= bytes[index + 3] && bytes[index + 3] <= 191 {
                return false;
            }
            if hex_byte(bytes[index + 1], bytes[index + 2]).is_some() {
                index += 3;
                continue;
            }
        }
        index += 1;
    }
    true
}

/// Bytes without a percent sign are decoded as they are.
proof fn lemma_decoded_plain(bytes: Seq<u8>, i: int)
    requires
        0 <= i <= bytes.len(),
        forall|j: int| 0 <= j < bytes.len() ==> #[trigger] bytes[j] != 37,
    ensures
        decoded_from(bytes, i) == bytes.skip(i),
        cuttable_from(bytes, i),
    decreases bytes.len() - i,
{
    if i < bytes.len() {
        lemma_decoded_plain(bytes, i + 1);
        assert(seq![bytes[i]] + bytes.skip(i + 1) =~= bytes.skip(i));
    } else {
        assert(bytes.skip(i) =~= Seq::empty());
    }
}

/// The bytes that encode a character: those of any other character are no
/// percent sign.
proof fn lemma_scalar_plain(character: char, j: int)
    requires
        character != '%',
        0 <= j < encode_scalar(character as u32).len(),
    ensures
        encode_scalar(character as u32)[j] != 37,
{
    let c = character as u32;
    char_u32_cast(character, c);
    if has_width_1_encoding(c) {
        assert((c & 0x7F) as u8 == c) by (bit_vector)
            requires
                c <= 0x7F,
        ;
    }
    assert(0xC0u8 | ((c >> 6) & 0x1F) as u8 >= 128) by (bit_vector);
    assert(0xE0u8 | ((c >> 12) & 0x0F) as u8 >= 128) by (bit_vector);
    assert(0xF0u8 | ((c >> 18) & 0x7) as u8 >= 128) by (bit_vector);
    assert(0x80u8 | (c & 0x3F) as u8 >= 128) by (bit_vector);
    assert(0x80u8 | ((c >> 6) & 0x3F) as u8 >= 128) by (bit_vector);
    assert(0x80u8 | ((c >> 12) & 0x3F) as u8 >= 128) by (bit_vector);
}

/// The bytes of a text without a percent sign are none.
proof fn lemma_encoded_plain(s: Seq<char>)
    requires
        forall|i: int| 0 <= i < s.len() ==> #[trigger] s[i] != '%',
    ensures
        forall|j: int| 0 <= j < encode_utf8(s).len() ==> #[trigger] encode_utf8(s)[j] != 37,
    decreases s.len(),
{
    if s.len() > 0 {
        let rest = s.drop_first();
        let first = encode_scalar(s[0] as u32);
        assert forall|i: int| 0 <= i < rest.len() implies #[trigger] rest[i] != '%' by {
            assert(rest[i] == s[i + 1]);
        }
        lemma_encoded_plain(rest);
        assert forall|j: int| 0 <= j < encode_utf8(s).len() implies #[trigger] encode_utf8(s)[j]
            != 37 by {
            if j < first.len() {
                lemma_scalar_plain(s[0], j);
            } else {
                assert(encode_utf8(s)[j] == encode_utf8(rest)[j - first.len()]);
            }
        }
    }
}

/// A text without a percent sign can be decoded, and comes out as it went in.
pub proof fn law_plain_text_decodes_to_itself(s: Seq<char>)
    requires
        forall|i: int| 0 <= i < s.len() ==> #[trigger] s[i] != '%',
    ensures
        decodable(s),
        valid_utf8(decoded_from(encode_utf8(s), 0)),
        decode_utf8(decoded_from(encode_utf8(s), 0)) == s,
{
    broadcast use {encode_utf8_valid_utf8, encode_utf8_decode_utf8};

    lemma_encoded_plain(s);
    lemma_decoded_plain(encode_utf8(s), 0);
    assert(encode_utf8(s).skip(0) =~= encode_utf8(s));
}

/// The capital hexadecimal digit for a number under sixteen.
pub open spec fn hex_char(n: u8) -> char {
    if n < 10 {
        (48 + n) as char
    } else {
        (55 + n) as char
    }
}

/// Bytes with each of them escaped: a percent sign and two capital hexadecimal
/// digits.
pub open spec fn escaped(bytes: Seq<u8>) -> Seq<char> {
    Seq::new(
        3 * bytes.len(),
        |k: int|
            if k % 3 == 0 {
                '%'
            } else if k % 3 == 1 {
                hex_char(bytes[k / 3] / 16)
            } else {
                hex_char(bytes[k / 3] % 16)
            },
    )
}

/// A text with each byte of its encoding escaped.
pub open spec fn percent_encoded(s: Seq<char>) -> Seq<char> {
    escaped(encode_utf8(s))
}

/// Escaped bytes are decoded as they were.
proof fn lemma_decoded_escaped(bytes: Seq<u8>, i: int)
    requires
        0 <= i <= bytes.len(),
    ensures
        decoded_from(encode_utf8(escaped(bytes)), 3 * i) == bytes.skip(i),
        cuttable_from(encode_utf8(escaped(bytes)), 3 * i),
    decreases bytes.len() - i,
{
    let text = escaped(bytes);
    let read = encode_utf8(text);
    is_ascii_chars_encode_utf8(text);
    if i < bytes.len() {
        lemma_decoded_escaped(bytes, i + 1);
        assert((3 * i) % 3 == 0 && (3 * i + 1) % 3 == 1 && (3 * i + 2) % 3 == 2);
        assert((3 * i + 1) / 3 == i && (3 * i + 2) / 3 == i);
        assert(text[3 * i] == '%');
        assert(text[3 * i + 1] == hex_char(bytes[i] / 16));
        assert(text[3 * i + 2] == hex_char(bytes[i] % 16));
        assert(read[3 * i] == 37);
        assert(hex_value(read[3 * i + 1]) == Some((bytes[i] / 16) as u8));
        assert(hex_value(read[3 * i + 2]) == Some((bytes[i] % 16) as u8));
        if i + 1 < bytes.len() {
            assert((3 * i + 3) % 3 == 0);
            assert(text[3 * i + 3] == '%');
            assert(read[3 * i + 3] == 37);
        }
        assert(3 * (i + 1) == 3 * i + 3);
        assert(seq![bytes[i]] + bytes.skip(i + 1) =~= bytes.skip(i));
    } else {
        assert(bytes.skip(i) =~= Seq::empty());
    }
}

/// A text with each byte of its encoding escaped can be decoded, and the text
/// comes out.
pub proof fn law_escaped_text_decodes_to_the_text(s: Seq<char>)
    ensures
        decodable(percent_encoded(s)),
        valid_utf8(decoded_from(encode_utf8(percent_encoded(s)), 0)),
        decode_utf8(decoded_from(encode_utf8(percent_encoded(s)), 0)) == s,
{
    broadcast use {encode_utf8_valid_utf8, encode_utf8_decode_utf8};

    lemma_decoded_escaped(encode_utf8(s), 0);
    assert(encode_utf8(s).skip(0) =~= encode_utf8(s));
}

} // verus!
