//! Version-4 identifiers made from sixteen random bytes.

use crate::bytes::{le_value, lemma_le_value_fits, lemma_sixteen_bytes_fit_128_bits, pow256};
use vstd::prelude::*;

verus! {

/// `String::push` appends one character to the end of the string.
pub assume_specification[ String::push ](text: &mut String, ch: char)
    ensures
        final(text)@ == old(text)@.push(ch),
;

/// The bits that hold the version: the top four of the third group.
pub const VERSION_MASK: u128 = 0x0000_0000_0000_f000_0000_0000_0000_0000;

/// Version 4: the identifier is random.
pub const VERSION_RANDOM: u128 = 0x0000_0000_0000_4000_0000_0000_0000_0000;

/// The bits that hold the variant: the top two of the fourth group.
pub const VARIANT_MASK: u128 = 0x0000_0000_0000_0000_c000_0000_0000_0000;

/// The variant whose bits read `10`.
pub const VARIANT_STANDARD: u128 = 0x0000_0000_0000_0000_8000_0000_0000_0000;

/// The lower-case hexadecimal digit for a number below sixteen: the digits
/// `0` to `9` begin at code 48, and the letters from `a` at code 97.
pub open spec fn hex_digit(nibble: int) -> char {
    if nibble < 10 {
        (48 + nibble) as char
    } else {
        (87 + nibble) as char
    }
}

/// The `width` lowest hexadecimal digits of `value`, highest first.
pub open spec fn hex(value: u64, width: nat) -> Seq<char> {
    Seq::new(width, |i: int| hex_digit(((value >> ((4 * (width - 1 - i)) as u64)) & 0xf) as int))
}

/// Whether `c` is a decimal digit or one of the letters `a` to `f`.
pub open spec fn is_lower_hex(c: char) -> bool {
    ('0' <= c && c <= '9') || ('a' <= c && c <= 'f')
}

/// The shape of every version-4 identifier: five groups of 8, 4, 4, 4 and 12
/// lower-case hexadecimal digits with hyphens between them, the third group
/// starting with `4` and the fourth with one of `8`, `9`, `a`, `b`.
pub open spec fn is_v4_text(text: Seq<char>) -> bool {
    &&& text.len() == 36
    &&& forall|i: int|
        0 <= i < 36 ==> if i == 8 || i == 13 || i == 18 || i == 23 {
            text[i] == '-'
        } else {
            is_lower_hex(#[trigger] text[i])
        }
    &&& text[14] == '4'
    &&& text[19] == '8' || text[19] == '9' || text[19] == 'a' || text[19] == 'b'
}

/// A version-4 identifier: 128 bits, of which six are fixed and the rest
/// random.
#[derive(Clone, Copy, Debug, PartialEq, Eq)]
pub struct Uuid {
    value: u128,
}

impl View for Uuid {
    type V = u128;

    closed spec fn view(&self) -> u128 {
        self.value
    }
}

impl Uuid {
    /// `random` with the version set to 4 and the variant to `10`.
    pub open spec fn stamped(random: u128) -> u128 {
        (random & !VERSION_MASK & !VARIANT_MASK) | VERSION_RANDOM | VARIANT_STANDARD
    }

    /// Whether the six fixed bits of `value` say "version 4, standard
    /// variant".
    pub open spec fn is_v4(value: u128) -> bool {
        value & VERSION_MASK == VERSION_RANDOM && value & VARIANT_MASK == VARIANT_STANDARD
    }

    /// The first group: the highest 32 bits.
    pub open spec fn time_low(value: u128) -> u64 {
        (value >> 96) as u64
    }

    /// The second group: the next 16 bits.
    pub open spec fn time_mid(value: u128) -> u64 {
        ((value >> 80) & 0xffff) as u64
    }

    /// The third group: the next 16 bits, which begin with the version.
    pub open spec fn time_high_and_version(value: u128) -> u64 {
        ((value >> 64) & 0xffff) as u64
    }

    /// The fourth group: the next 16 bits, which begin with the variant.
    pub open spec fn clock_sequence(value: u128) -> u64 {
        ((value >> 48) & 0xffff) as u64
    }

    /// The fifth group: the lowest 48 bits.
    pub open spec fn node(value: u128) -> u64 {
        (value & 0xffff_ffff_ffff) as u64
    }

    /// The text of `value`: its five groups in hexadecimal, highest first,
    /// with hyphens between them.
    pub open spec fn text(value: u128) -> Seq<char> {
        hex(Uuid::time_low(value), 8) + seq!['-'] + hex(Uuid::time_mid(value), 4) + seq!['-'] + hex(
            Uuid::time_high_and_version(value),
            4,
        ) + seq!['-'] + hex(Uuid::clock_sequence(value), 4) + seq!['-'] + hex(Uuid::node(value), 12)
    }

    #[verifier::type_invariant]
    spec fn well_formed(&self) -> bool {
        Uuid::is_v4(self.value)
    }

    /// The identifier that sixteen random bytes stand for: the bytes are
    /// read as one number, least significant byte first, and the six fixed
    /// bits are set.
    pub fn from_random_bytes(random: &[u8; 16]) -> (uuid: Uuid)
        ensures
            uuid@ == Uuid::stamped(le_value(random@) as u128),
            Uuid::is_v4(uuid@),
    {
        let number = u128_from_le_bytes(random);
        let value = (number & !VERSION_MASK & !VARIANT_MASK) | VERSION_RANDOM | VARIANT_STANDARD;
        proof {
            lemma_stamped_is_v4(number);
        }
        Uuid { value }
    }

    /// The 128 bits of the identifier.
    pub fn as_u128(&self) -> (value: u128)
        ensures
            value == self@,
            Uuid::is_v4(value),
    {
        proof {
            use_type_invariant(self);
        }
        self.value
    }

    /// The identifier as text: 36 characters in five hyphenated groups of
    /// lower-case hexadecimal digits.
    pub fn hyphenated(&self) -> (text: String)
        ensures
            text@ == Uuid::text(self@),
            is_v4_text(text@),
    {
        proof {
            use_type_invariant(self);
            lemma_text_of_v4_has_v4_shape(self.value);
        }
        let value = self.value;
        let mut text = String::new();
        push_hex(&mut text, (value >> 96) as u64, 8);
        text.push('-');
        push_hex(&mut text, ((value >> 80) & 0xffff) as u64, 4);
        text.push('-');
        push_hex(&mut text, ((value >> 64) & 0xffff) as u64, 4);
        text.push('-');
        push_hex(&mut text, ((value >> 48) & 0xffff) as u64, 4);
        text.push('-');
        push_hex(&mut text, (value & 0xffff_ffff_ffff) as u64, 12);
        text
    }
}

/// The text of a fresh version-4 identifier made from sixteen random bytes.
pub fn generate_v4(random: &[u8; 16]) -> (text: String)
    ensures
        text@ == Uuid::text(Uuid::stamped(le_value(random@) as u128)),
        is_v4_text(text@),
{
    Uuid::from_random_bytes(random).hyphenated()
}

fn hex_char(nibble: u8) -> (c: char)
    requires
        nibble < 16,
    ensures
        c == hex_digit(nibble as int),
        is_lower_hex(c),
{
    if nibble < 10 {
        (48 + nibble) as char
    } else {
        (87 + nibble) as char
    }
}

fn push_hex(text: &mut String, value: u64, width: u32)
    requires
        width <= 16,
    ensures
        final(text)@ == old(text)@ + hex(value, width as nat),
{
    let mut i: u32 = 0;
    while i < width
        invariant
            i <= width <= 16,
            text@ == old(text)@ + hex(value, width as nat).take(i as int),
        decreases width - i,
    {
        let shift = 4 * (width - 1 - i);
        let nibble = (value >> shift) & 0xf;
        assert(nibble < 16) by (bit_vector)
            requires
                nibble == (value >> shift) & 0xf,
        ;
        text.push(hex_char(nibble as u8));
        i = i + 1;
    }
}

/// Every hexadecimal digit is a decimal digit or a letter from `a` to `f`.
pub proof fn lemma_hex_is_lower_hex(value: u64, width: nat)
    ensures
        hex(value, width).len() == width,
        forall|i: int| 0 <= i < width ==> is_lower_hex(#[trigger] hex(value, width)[i]),
{
    assert forall|i: int| 0 <= i < width implies is_lower_hex(#[trigger] hex(value, width)[i]) by {
        let shift = (4 * (width - 1 - i)) as u64;
        let nibble = (value >> shift) & 0xf;
        assert(nibble < 16) by (bit_vector)
            requires
                nibble == (value >> shift) & 0xf,
        ;
    }
}

/// The text of every version-4 value has the version-4 shape.
pub proof fn lemma_text_of_v4_has_v4_shape(value: u128)
    requires
        Uuid::is_v4(value),
    ensures
        is_v4_text(Uuid::text(value)),
{
    let text = Uuid::text(value);
    lemma_hex_is_lower_hex(Uuid::time_low(value), 8);
    lemma_hex_is_lower_hex(Uuid::time_mid(value), 4);
    lemma_hex_is_lower_hex(Uuid::time_high_and_version(value), 4);
    lemma_hex_is_lower_hex(Uuid::clock_sequence(value), 4);
    lemma_hex_is_lower_hex(Uuid::node(value), 12);
    let third = Uuid::time_high_and_version(value);
    let fourth = Uuid::clock_sequence(value);
    assert((third >> 12) & 0xf == 4) by (bit_vector)
        requires
            value & VERSION_MASK == VERSION_RANDOM,
            third == ((value >> 64) & 0xffff) as u64,
    ;
    assert({
        let top = (fourth >> 12) & 0xf;
        top == 8 || top == 9 || top == 10 || top == 11
    }) by (bit_vector)
        requires
            value & VARIANT_MASK == VARIANT_STANDARD,
            fourth == ((value >> 48) & 0xffff) as u64,
    ;
    assert forall|i: int| 0 <= i < 36 implies if i == 8 || i == 13 || i == 18 || i == 23 {
        text[i] == '-'
    } else {
        is_lower_hex(#[trigger] text[i])
    } by {}
}

/// Setting the six fixed bits gives a version-4 value, and changes no other
/// bit.
pub proof fn lemma_stamped_is_v4(random: u128)
    ensures
        Uuid::is_v4(Uuid::stamped(random)),
        Uuid::stamped(random) & !(VERSION_MASK | VARIANT_MASK) == random & !(VERSION_MASK
            | VARIANT_MASK),
{
    assert(Uuid::is_v4(Uuid::stamped(random))) by (bit_vector);
    assert(Uuid::stamped(random) & !(VERSION_MASK | VARIANT_MASK) == random & !(VERSION_MASK
        | VARIANT_MASK)) by (bit_vector);
}

/// Different numbers below sixteen have different digits.
pub proof fn lemma_hex_digit_is_injective(a: int, b: int)
    requires
        0 <= a < 16,
        0 <= b < 16,
        hex_digit(a) == hex_digit(b),
    ensures
        a == b,
{
}

/// Numbers with the same digits agree in every group of four bits that the
/// digits show.
proof fn lemma_same_hex_same_nibble(x: u64, y: u64, width: nat, i: int)
    requires
        0 <= i < width <= 16,
        hex(x, width) == hex(y, width),
    ensures
        (x >> ((4 * (width - 1 - i)) as u64)) & 0xf == (y >> ((4 * (width - 1 - i)) as u64)) & 0xf,
{
    let shift = (4 * (width - 1 - i)) as u64;
    let p = (x >> shift) & 0xf;
    let q = (y >> shift) & 0xf;
    assert(p < 16) by (bit_vector)
        requires
            p == (x >> shift) & 0xf,
    ;
    assert(q < 16) by (bit_vector)
        requires
            q == (y >> shift) & 0xf,
    ;
    assert(hex(x, width)[i] == hex_digit(p as int));
    assert(hex(y, width)[i] == hex_digit(q as int));
    lemma_hex_digit_is_injective(p as int, q as int);
}

proof fn lemma_hex4_is_injective(x: u64, y: u64)
    requires
        x <= 0xffff,
        y <= 0xffff,
        hex(x, 4) == hex(y, 4),
    ensures
        x == y,
{
    lemma_same_hex_same_nibble(x, y, 4, 0);
    lemma_same_hex_same_nibble(x, y, 4, 1);
    lemma_same_hex_same_nibble(x, y, 4, 2);
    lemma_same_hex_same_nibble(x, y, 4, 3);
    assert(x == y) by (bit_vector)
        requires
            x <= 0xffff,
            y <= 0xffff,
            (x >> 12) & 0xf == (y >> 12) & 0xf,
            (x >> 8) & 0xf == (y >> 8) & 0xf,
            (x >> 4) & 0xf == (y >> 4) & 0xf,
            (x >> 0) & 0xf == (y >> 0) & 0xf,
    ;
}

proof fn lemma_hex8_is_injective(x: u64, y: u64)
    requires
        x <= 0xffff_ffff,
        y <= 0xffff_ffff,
        hex(x, 8) == hex(y, 8),
    ensures
        x == y,
{
    lemma_same_hex_same_nibble(x, y, 8, 0);
    lemma_same_hex_same_nibble(x, y, 8, 1);
    lemma_same_hex_same_nibble(x, y, 8, 2);
    lemma_same_hex_same_nibble(x, y, 8, 3);
    lemma_same_hex_same_nibble(x, y, 8, 4);
    lemma_same_hex_same_nibble(x, y, 8, 5);
    lemma_same_hex_same_nibble(x, y, 8, 6);
    lemma_same_hex_same_nibble(x, y, 8, 7);
    assert(x == y) by (bit_vector)
        requires
            x <= 0xffff_ffff,
            y <= 0xffff_ffff,
            (x >> 28) & 0xf == (y >> 28) & 0xf,
            (x >> 24) & 0xf == (y >> 24) & 0xf,
            (x >> 20) & 0xf == (y >> 20) & 0xf,
            (x >> 16) & 0xf == (y >> 16) & 0xf,
            (x >> 12) & 0xf == (y >> 12) & 0xf,
            (x >> 8) & 0xf == (y >> 8) & 0xf,
            (x >> 4) & 0xf == (y >> 4) & 0xf,
            (x >> 0) & 0xf == (y >> 0) & 0xf,
    ;
}

proof fn lemma_hex12_is_injective(x: u64, y: u64)
    requires
        x <= 0xffff_ffff_ffff,
        y <= 0xffff_ffff_ffff,
        hex(x, 12) == hex(y, 12),
    ensures
        x == y,
{
    lemma_same_hex_same_nibble(x, y, 12, 0);
    lemma_same_hex_same_nibble(x, y, 12, 1);
    lemma_same_hex_same_nibble(x, y, 12, 2);
    lemma_same_hex_same_nibble(x, y, 12, 3);
    lemma_same_hex_same_nibble(x, y, 12, 4);
    lemma_same_hex_same_nibble(x, y, 12, 5);
    lemma_same_hex_same_nibble(x, y, 12, 6);
    lemma_same_hex_same_nibble(x, y, 12, 7);
    lemma_same_hex_same_nibble(x, y, 12, 8);
    lemma_same_hex_same_nibble(x, y, 12, 9);
    lemma_same_hex_same_nibble(x, y, 12, 10);
    lemma_same_hex_same_nibble(x, y, 12, 11);
    assert(x == y) by (bit_vector)
        requires
            x <= 0xffff_ffff_ffff,
            y <= 0xffff_ffff_ffff,
            (x >> 44) & 0xf == (y >> 44) & 0xf,
            (x >> 40) & 0xf == (y >> 40) & 0xf,
            (x >> 36) & 0xf == (y >> 36) & 0xf,
            (x >> 32) & 0xf == (y >> 32) & 0xf,
            (x >> 28) & 0xf == (y >> 28) & 0xf,
            (x >> 24) & 0xf == (y >> 24) & 0xf,
            (x >> 20) & 0xf == (y >> 20) & 0xf,
            (x >> 16) & 0xf == (y >> 16) & 0xf,
            (x >> 12) & 0xf == (y >> 12) & 0xf,
            (x >> 8) & 0xf == (y >> 8) & 0xf,
            (x >> 4) & 0xf == (y >> 4) & 0xf,
            (x >> 0) & 0xf == (y >> 0) & 0xf,
    ;
}

/// Different values have different texts: an identifier's text says all of
/// its 128 bits. So two identifiers collide only where the random bytes
/// they were made from agree in all but the six fixed bits.
pub proof fn lemma_text_is_injective(a: u128, b: u128)
    requires
        Uuid::text(a) == Uuid::text(b),
    ensures
        a == b,
{
    let (ta, tb) = (Uuid::text(a), Uuid::text(b));
    let (a1, b1) = (Uuid::time_low(a), Uuid::time_low(b));
    let (a2, b2) = (Uuid::time_mid(a), Uuid::time_mid(b));
    let (a3, b3) = (Uuid::time_high_and_version(a), Uuid::time_high_and_version(b));
    let (a4, b4) = (Uuid::clock_sequence(a), Uuid::clock_sequence(b));
    let (a5, b5) = (Uuid::node(a), Uuid::node(b));
    assert(hex(a1, 8) == ta.subrange(0, 8));
    assert(hex(b1, 8) == tb.subrange(0, 8));
    assert(hex(a2, 4) == ta.subrange(9, 13));
    assert(hex(b2, 4) == tb.subrange(9, 13));
    assert(hex(a3, 4) == ta.subrange(14, 18));
    assert(hex(b3, 4) == tb.subrange(14, 18));
    assert(hex(a4, 4) == ta.subrange(19, 23));
    assert(hex(b4, 4) == tb.subrange(19, 23));
    assert(hex(a5, 12) == ta.subrange(24, 36));
    assert(hex(b5, 12) == tb.subrange(24, 36));
    assert(a1 <= 0xffff_ffff && a2 <= 0xffff && a3 <= 0xffff && a4 <= 0xffff && a5
        <= 0xffff_ffff_ffff) by (bit_vector)
        requires
            a1 == (a >> 96) as u64,
            a2 == ((a >> 80) & 0xffff) as u64,
            a3 == ((a >> 64) & 0xffff) as u64,
            a4 == ((a >> 48) & 0xffff) as u64,
            a5 == (a & 0xffff_ffff_ffff) as u64,
    ;
    assert(b1 <= 0xffff_ffff && b2 <= 0xffff && b3 <= 0xffff && b4 <= 0xffff && b5
        <= 0xffff_ffff_ffff) by (bit_vector)
        requires
            b1 == (b >> 96) as u64,
            b2 == ((b >> 80) & 0xffff) as u64,
            b3 == ((b >> 64) & 0xffff) as u64,
            b4 == ((b >> 48) & 0xffff) as u64,
            b5 == (b & 0xffff_ffff_ffff) as u64,
    ;
    lemma_hex8_is_injective(a1, b1);
    lemma_hex4_is_injective(a2, b2);
    lemma_hex4_is_injective(a3, b3);
    lemma_hex4_is_injective(a4, b4);
    lemma_hex12_is_injective(a5, b5);
    assert(a == b) by (bit_vector)
        requires
            (a >> 96) as u64 == (b >> 96) as u64,
            ((a >> 80) & 0xffff) as u64 == ((b >> 80) & 0xffff) as u64,
            ((a >> 64) & 0xffff) as u64 == ((b >> 64) & 0xffff) as u64,
            ((a >> 48) & 0xffff) as u64 == ((b >> 48) & 0xffff) as u64,
            (a & 0xffff_ffff_ffff) as u64 == (b & 0xffff_ffff_ffff) as u64,
    ;
}

/// Two sets of random bytes give the same identifier exactly when they
/// spell numbers that agree in all but the six fixed bits.
pub proof fn lemma_collisions_need_equal_random_bits(a: Seq<u8>, b: Seq<u8>)
    ensures
        ({
            let (x, y) = (le_value(a) as u128, le_value(b) as u128);
            Uuid::text(Uuid::stamped(x)) == Uuid::text(Uuid::stamped(y)) <==> x & !(VERSION_MASK
                | VARIANT_MASK) == y & !(VERSION_MASK | VARIANT_MASK)
        }),
{
    let (x, y) = (le_value(a) as u128, le_value(b) as u128);
    if Uuid::text(Uuid::stamped(x)) == Uuid::text(Uuid::stamped(y)) {
        lemma_text_is_injective(Uuid::stamped(x), Uuid::stamped(y));
    }
    assert(Uuid::stamped(x) == Uuid::stamped(y) <==> x & !(VERSION_MASK | VARIANT_MASK) == y & !(
    VERSION_MASK | VARIANT_MASK)) by (bit_vector);
}

fn u128_from_le_bytes(bytes: &[u8; 16]) -> (value: u128)
    ensures
        value == le_value(bytes@),
{
    let mut value: u128 = 0;
    let mut i: usize = 16;
    while i > 0
        invariant
            i <= 16,
            value == le_value(bytes@.skip(i as int)),
        decreases i,
    {
        i = i - 1;
        proof {
            let rest = bytes@.skip(i as int);
            assert(rest.drop_first() == bytes@.skip(i + 1));
            lemma_le_value_fits(rest);
            assert(pow256(rest.len()) <= pow256(16)) by {
                reveal_with_fuel(pow256, 17);
            }
            lemma_sixteen_bytes_fit_128_bits();
        }
        value = value * 256 + bytes[i] as u128;
    }
    proof {
        assert(bytes@.skip(0) == bytes@);
    }
    value
}

} // verus!
