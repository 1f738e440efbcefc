//! Byte sequences read as numbers.

use vstd::prelude::*;

verus! {

/// The number that `bytes` spell with the least significant byte first.
pub open spec fn le_value(bytes: Seq<u8>) -> nat
    decreases bytes.len(),
{
    if bytes.len() == 0 {
        0
    } else {
        bytes.first() as nat + 256 * le_value(bytes.drop_first())
    }
}

/// The number that `bytes` spell with the most significant byte first.
pub open spec fn be_value(bytes: Seq<u8>) -> nat
    decreases bytes.len(),
{
    if bytes.len() == 0 {
        0
    } else {
        256 * be_value(bytes.drop_last()) + bytes.last() as nat
    }
}

/// 256 to the power of `n`: the count of numbers that `n` bytes can spell.
pub open spec fn pow256(n: nat) -> nat
    decreases n,
{
    if n == 0 {
        1
    } else {
        256 * pow256((n - 1) as nat)
    }
}

/// Bytes spell a number below 256 to the power of their count, in either
/// order.
pub proof fn lemma_le_value_fits(bytes: Seq<u8>)
    ensures
        le_value(bytes) < pow256(bytes.len()),
        be_value(bytes) < pow256(bytes.len()),
    decreases bytes.len(),
{
    if bytes.len() > 0 {
        lemma_le_value_fits(bytes.drop_first());
        lemma_le_value_fits(bytes.drop_last());
    }
}

/// Sixteen bytes spell a number of 128 bits, and eight bytes one of 64.
pub proof fn lemma_sixteen_bytes_fit_128_bits()
    ensures
        pow256(16) == 0x1_0000_0000_0000_0000_0000_0000_0000_0000,
        pow256(8) == 0x1_0000_0000_0000_0000,
{
    reveal_with_fuel(pow256, 17);
}

/// Whether `value` is what `bytes` spell in the byte order of some machine.
pub open spec fn spells(bytes: Seq<u8>, value: nat) -> bool {
    value == le_value(bytes) || value == be_value(bytes)
}

/// `u64::from_ne_bytes` reads eight bytes in the byte order of the target.
/// Which order that is depends on the target, so the result is only known
/// to be one of the two readings.
#[verifier::external_body]
pub(crate) fn u64_from_ne_bytes(bytes: [u8; 8]) -> (value: u64)
    ensures
        spells(bytes@, value as nat),
{
    u64::from_ne_bytes(bytes)
}

} // verus!
