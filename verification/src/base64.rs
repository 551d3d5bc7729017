//! Bytes as text in base 64.

use vstd::prelude::*;

verus! {

/// The digit for a number below 64.
pub open spec fn digit(n: int) -> char {
    if n < 26 {
        (65 + n) as char
    } else if n < 52 {
        (71 + n) as char
    } else if n < 62 {
        (n - 4) as char
    } else if n == 62 {
        '+'
    } else {
        '/'
    }
}

/// The four digits of up to three bytes; equals signs stand for those that are
/// missing.
pub open spec fn group(bytes: Seq<u8>) -> Seq<char> {
    let b0 = bytes[0] as int;
    let b1 = if bytes.len() > 1 {
        bytes[1] as int
    } else {
        0
    };
    let b2 = if bytes.len() > 2 {
        bytes[2] as int
    } else {
        0
    };
    seq![
        digit(b0 / 4),
        digit(b0 % 4 * 16 + b1 / 16),
        if bytes.len() > 1 {
            digit(b1 % 16 * 4 + b2 / 64)
        } else {
            '='
        },
        if bytes.len() > 2 {
            digit(b2 % 64)
        } else {
            '='
        },
    ]
}

/// Bytes in base 64, three by three.
pub open spec fn encoded(bytes: Seq<u8>) -> Seq<char>
    decreases bytes.len(),
{
    if bytes.len() == 0 {
        Seq::empty()
    } else if bytes.len() <= 3 {
        group(bytes)
    } else {
        group(bytes.take(3)) + encoded(bytes.skip(3))
    }
}

/// The digit for a number below 64.
fn digit_of(n: u8) -> (r: char)
    requires
        n < 64,
    ensures
        r == digit(n as int),
{
    if n < 26 {
        (65 + n) as char
    } else if n < 52 {
        (71 + n) as char
    } else if n < 62 {
        (n - 4) as char
    } else if n == 62 {
        '+'
    } else {
        '/'
    }
}

/// Bytes in base 64.
pub fn encode_base64(bytes: &Vec<u8>) -> (r: String)
    ensures
        r@ == encoded(bytes@),
{
    let mut out = String::new();
    let mut i: usize = 0;
    let length: usize = bytes.len();
    assert(bytes@.skip(0) =~= bytes@);
    while i < length
        invariant
            i <= length == bytes@.len(),
            out@ + encoded(bytes@.skip(i as int)) =~= encoded(bytes@),
        decreases length - i,
    {
        let ghost before = out@;
        let ghost rest = bytes@.skip(i as int);
        let left: usize = length - i;
        let b0: u8 = bytes[i];
        let b1: u8 = if left > 1 {
            bytes[i + 1]
        } else {
            0
        };
        let b2: u8 = if left > 2 {
            bytes[i + 2]
        } else {
            0
        };
        out.push(digit_of(b0 / 4));
        out.push(digit_of(b0 % 4 * 16 + b1 / 16));
        out.push(
            if left > 1 {
                digit_of(b1 % 16 * 4 + b2 / 64)
            } else {
                '='
            },
        );
        out.push(
            if left > 2 {
                digit_of(b2 % 64)
            } else {
                '='
            },
        );
        if left > 3 {
            assert(out@ =~= before + group(rest.take(3)));
            assert(rest.skip(3) =~= bytes@.skip(i + 3));
            i += 3;
        } else {
            assert(out@ =~= before + group(rest));
            assert(bytes@.skip(length as int) =~= Seq::<u8>::empty());
            i = length;
        }
    }
    assert(out@ =~= encoded(bytes@));
    out
}

// ---------------------------------------------------------------------------
// Laws

/// Every three bytes, or what is left of them, make four digits.
pub proof fn law_encoded_length(bytes: Seq<u8>)
    ensures
        encoded(bytes).len() == (bytes.len() + 2) / 3 * 4,
    decreases bytes.len(),
{
    if bytes.len() > 3 {
        law_encoded_length(bytes.skip(3));
    }
}

/// The number that a digit stands for.
pub open spec fn digit_value(c: char) -> int {
    let n = c as int;
    if 65 <= n <= 90 {
        n - 65
    } else if 97 <= n <= 122 {
        n - 71
    } else if 48 <= n <= 57 {
        n + 4
    } else if c == '+' {
        62
    } else {
        63
    }
}

/// The bytes that four digits stand for.
pub open spec fn ungroup(s: Seq<char>) -> Seq<u8> {
    let d0 = digit_value(s[0]);
    let d1 = digit_value(s[1]);
    let first = seq![(d0 * 4 + d1 / 16) as u8];
    if s[2] == '=' {
        first
    } else {
        let d2 = digit_value(s[2]);
        let second = first.push((d1 % 16 * 16 + d2 / 4) as u8);
        if s[3] == '=' {
            second
        } else {
            second.push((d2 % 4 * 64 + digit_value(s[3])) as u8)
        }
    }
}

/// The bytes that a text in base 64 stands for.
pub open spec fn decoded(s: Seq<char>) -> Seq<u8>
    decreases s.len(),
{
    if s.len() < 4 {
        Seq::empty()
    } else {
        ungroup(s.take(4)) + decoded(s.skip(4))
    }
}

/// A digit stands for its number, and is no equals sign.
proof fn lemma_digit_value(n: int)
    requires
        0 <= n < 64,
    ensures
        digit_value(digit(n)) == n,
        digit(n) != '=',
{
}

/// Four digits stand for the bytes they were made of.
proof fn lemma_group_decodes(bytes: Seq<u8>)
    requires
        1 <= bytes.len() <= 3,
    ensures
        ungroup(group(bytes)) =~= bytes,
        group(bytes).len() == 4,
{
    let b0 = bytes[0] as int;
    let b1 = if bytes.len() > 1 {
        bytes[1] as int
    } else {
        0
    };
    let b2 = if bytes.len() > 2 {
        bytes[2] as int
    } else {
        0
    };
    lemma_digit_value(b0 / 4);
    lemma_digit_value(b0 % 4 * 16 + b1 / 16);
    lemma_digit_value(b1 % 16 * 4 + b2 / 64);
    lemma_digit_value(b2 % 64);
}

/// A text in base 64 stands for the bytes it was made of.
pub proof fn law_decoding_undoes_encoding(bytes: Seq<u8>)
    ensures
        decoded(encoded(bytes)) == bytes,
    decreases bytes.len(),
{
    if bytes.len() == 0 {
        assert(decoded(encoded(bytes)) =~= bytes);
    } else if bytes.len() <= 3 {
        lemma_group_decodes(bytes);
        let s = encoded(bytes);
        assert(s.take(4) =~= s);
        assert(decoded(s.skip(4)) =~= Seq::<u8>::empty());
        assert(decoded(s) =~= bytes);
    } else {
        let head = bytes.take(3);
        let rest = bytes.skip(3);
        lemma_group_decodes(head);
        law_decoding_undoes_encoding(rest);
        let s = encoded(bytes);
        assert(s.take(4) =~= group(head));
        assert(s.skip(4) =~= encoded(rest));
        assert(head + rest =~= bytes);
    }
}

} // verus!
