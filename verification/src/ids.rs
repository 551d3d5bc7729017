//! The identifiers of windows, workspaces, panes, surfaces and notifications.

use crate::json::hex_char;
use vstd::prelude::*;
use vstd::utf8::encode_utf8;

verus! {

/// The last `width` hexadecimal digits of a number.
pub open spec fn hex_digits(n: nat, width: nat) -> Seq<char>
    decreases width,
{
    if width == 0 {
        Seq::empty()
    } else {
        hex_digits(n / 16, (width - 1) as nat).push(hex_char((n % 16) as int))
    }
}

/// The last `width` hexadecimal digits of a number.
fn hex_of(n: u64, width: usize) -> (r: String)
    ensures
        r@ == hex_digits(n as nat, width as nat),
    decreases width,
{
    if width == 0 {
        String::new()
    } else {
        let mut s = hex_of(n / 16, width - 1);
        let d: u8 = (n % 16) as u8;
        if d < 10 {
            s.push((48 + d) as char);
        } else {
            s.push((87 + d) as char);
        }
        s
    }
}

/// The number that the bytes of a namespace come to: each byte added to what
/// the earlier ones came to times 131, within 64 bits.
pub open spec fn namespace_hash(bytes: Seq<u8>) -> u64
    decreases bytes.len(),
{
    if bytes.len() == 0 {
        0
    } else {
        ((namespace_hash(bytes.drop_last()) * 131 + bytes.last()) % 0x1_0000_0000_0000_0000) as u64
    }
}

/// The number that the bytes of a namespace come to.
fn hash_namespace(namespace: &str) -> (r: u64)
    ensures
        r == namespace_hash(encode_utf8(namespace@)),
{
    let bytes = namespace.as_bytes();
    let mut hash: u64 = 0;
    let mut i: usize = 0;
    while i < bytes.len()
        invariant
            i <= bytes@.len(),
            hash == namespace_hash(bytes@.take(i as int)),
        decreases bytes@.len() - i,
    {
        assert(bytes@.take(i + 1).drop_last() =~= bytes@.take(i as int));
        let wide: u128 = (hash as u128) * 131 + (bytes[i] as u128);
        hash = (wide % 0x1_0000_0000_0000_0000u128) as u64;
        i += 1;
    }
    assert(bytes@.take(bytes@.len() as int) =~= bytes@);
    hash
}

/// The bits of a number, turned 17 places to the left.
pub open spec fn turned(n: u64) -> u64 {
    (n << 17) | (n >> 47)
}

/// The identifier with a high and a low half.
pub open spec fn id_text(high: u64, low: u64) -> Seq<char> {
    hex_digits((high / 0x1_0000_0000) as nat, 8) + "-"@ + hex_digits(
        (high / 0x1_0000) as nat,
        4,
    ) + "-4"@ + hex_digits(high as nat, 3) + "-8"@ + hex_digits(
        (low / 0x1_0000_0000_0000) as nat,
        3,
    ) + "-"@ + hex_digits(low as nat, 12)
}

/// The identifier that a namespace, an ordinal and a moment make.
pub open spec fn uuid(namespace: Seq<char>, ordinal: u64, nanos: u64) -> Seq<char> {
    let hash = namespace_hash(encode_utf8(namespace));
    id_text(nanos ^ hash, ordinal ^ turned(hash))
}

/// The identifier that a namespace, an ordinal and a moment make.
pub fn uuid_text(namespace: &str, ordinal: u64, nanos: u64) -> (r: String)
    ensures
        r@ == uuid(namespace@, ordinal, nanos),
{
    let hash: u64 = hash_namespace(namespace);
    let high: u64 = nanos ^ hash;
    let low: u64 = ordinal ^ ((hash << 17) | (hash >> 47));
    let mut s = hex_of(high / 0x1_0000_0000, 8);
    s.push_str("-");
    s.push_str(hex_of(high / 0x1_0000, 4).as_str());
    s.push_str("-4");
    s.push_str(hex_of(high, 3).as_str());
    s.push_str("-8");
    s.push_str(hex_of(low / 0x1_0000_0000_0000, 3).as_str());
    s.push_str("-");
    s.push_str(hex_of(low, 12).as_str());
    s
}

// ---------------------------------------------------------------------------
// Laws

/// Sixteen to the power of `width`.
spec fn sixteens(width: nat) -> nat
    decreases width,
{
    if width == 0 {
        1
    } else {
        16 * sixteens((width - 1) as nat)
    }
}

/// As many digits as asked for.
pub proof fn lemma_hex_digits_len(n: nat, width: nat)
    ensures
        hex_digits(n, width).len() == width,
    decreases width,
{
    if width > 0 {
        lemma_hex_digits_len(n / 16, (width - 1) as nat);
    }
}

/// Different digits are written differently.
proof fn lemma_hex_char(a: int, b: int)
    requires
        0 <= a < 16,
        0 <= b < 16,
        hex_char(a) == hex_char(b),
    ensures
        a == b,
{
    let x = if a < 10 {
        48 + a
    } else {
        87 + a
    };
    let y = if b < 10 {
        48 + b
    } else {
        87 + b
    };
    assert(hex_char(a) as int == x);
    assert(hex_char(b) as int == y);
}

/// Numbers with the same digits agree as far as the digits go.
proof fn lemma_same_digits(n: nat, m: nat, width: nat)
    requires
        hex_digits(n, width) == hex_digits(m, width),
    ensures
        n % sixteens(width) == m % sixteens(width),
        sixteens(width) > 0,
    decreases width,
{
    if width > 0 {
        let w = (width - 1) as nat;
        let a = hex_digits(n / 16, w);
        let b = hex_digits(m / 16, w);
        lemma_hex_digits_len(n / 16, w);
        lemma_hex_digits_len(m / 16, w);
        assert(hex_digits(n, width).drop_last() =~= a);
        assert(hex_digits(m, width).drop_last() =~= b);
        assert(hex_digits(n, width).last() == hex_char((n % 16) as int));
        assert(hex_digits(m, width).last() == hex_char((m % 16) as int));
        lemma_hex_char((n % 16) as int, (m % 16) as int);
        lemma_same_digits(n / 16, m / 16, w);
        let k = sixteens(w);
        vstd::arithmetic::div_mod::lemma_mod_breakdown(n as int, 16, k as int);
        vstd::arithmetic::div_mod::lemma_mod_breakdown(m as int, 16, k as int);
    }
}

/// The digits of the two halves of an identifier's low part.
proof fn lemma_id_parts(high: u64, low: u64)
    ensures
        id_text(high, low).len() == 36,
        id_text(high, low).subrange(20, 23) == hex_digits(
            (low / 0x1_0000_0000_0000) as nat,
            3,
        ),
        id_text(high, low).subrange(24, 36) == hex_digits(low as nat, 12),
{
    reveal_strlit("-");
    reveal_strlit("-4");
    reveal_strlit("-8");
    lemma_hex_digits_len((high / 0x1_0000_0000) as nat, 8);
    lemma_hex_digits_len((high / 0x1_0000) as nat, 4);
    lemma_hex_digits_len(high as nat, 3);
    lemma_hex_digits_len((low / 0x1_0000_0000_0000) as nat, 3);
    lemma_hex_digits_len(low as nat, 12);
    assert("-"@.len() == 1);
    assert("-4"@.len() == 2);
    assert("-8"@.len() == 2);
    assert(id_text(high, low).subrange(20, 23) =~= hex_digits((low / 0x1_0000_0000_0000) as nat, 3));
    assert(id_text(high, low).subrange(24, 36) =~= hex_digits(low as nat, 12));
}

/// Identifiers of one namespace are different as long as their ordinals are,
/// for ordinals of up to sixty bits, whatever the moments.
pub proof fn law_ordinals_make_ids_different(
    namespace: Seq<char>,
    a: u64,
    b: u64,
    when_a: u64,
    when_b: u64,
)
    requires
        a != b,
        a < 0x1000_0000_0000_0000,
        b < 0x1000_0000_0000_0000,
    ensures
        uuid(namespace, a, when_a) != uuid(namespace, b, when_b),
{
    let hash = namespace_hash(encode_utf8(namespace));
    let t = turned(hash);
    let x = a ^ t;
    let y = b ^ t;
    if uuid(namespace, a, when_a) == uuid(namespace, b, when_b) {
        lemma_id_parts(when_a ^ hash, x);
        lemma_id_parts(when_b ^ hash, y);
        lemma_same_digits(x as nat, y as nat, 12);
        lemma_same_digits(
            (x / 0x1_0000_0000_0000) as nat,
            (y / 0x1_0000_0000_0000) as nat,
            3,
        );
        reveal_with_fuel(sixteens, 13);
        assert(sixteens(12) == 0x1_0000_0000_0000);
        assert(sixteens(3) == 0x1000);
        assert(x % 0x1_0000_0000_0000 == y % 0x1_0000_0000_0000);
        assert((x / 0x1_0000_0000_0000) % 0x1000 == (y / 0x1_0000_0000_0000) % 0x1000);
        assert(a == b) by (bit_vector)
            requires
                x == a ^ t,
                y == b ^ t,
                x % 0x1_0000_0000_0000 == y % 0x1_0000_0000_0000,
                (x / 0x1_0000_0000_0000) % 0x1000 == (y / 0x1_0000_0000_0000) % 0x1000,
                a < 0x1000_0000_0000_0000,
                b < 0x1000_0000_0000_0000,
        ;
    }
}

} // verus!
