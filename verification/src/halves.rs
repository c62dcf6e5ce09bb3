//! 64-bit values as two 32-bit register halves.
//!
//! The processor moves 64-bit quantities through the register pair `edx:eax`:
//! `edx` carries bits 63..32 and `eax` carries bits 31..0.

use vstd::prelude::*;

verus! {

/// The 64-bit value whose upper half is `high` and whose lower half is `low`.
pub open spec fn joined(high: u32, low: u32) -> u64 {
    ((high as u64) << 32) | (low as u64)
}

/// Bits 63..32 of `value`.
pub open spec fn upper(value: u64) -> u32 {
    (value >> 32) as u32
}

/// Bits 31..0 of `value`.
pub open spec fn lower(value: u64) -> u32 {
    (value & 0xffff_ffff) as u32
}

/// Assembles a 64-bit value from its two halves.
pub fn join(high: u32, low: u32) -> (value: u64)
    ensures
        value == joined(high, low),
        value == ((high as u64) << 32) | (low as u64),
        value as int == high as int * 0x1_0000_0000 + low as int,
{
    let value: u64 = ((high as u64) << 32) | (low as u64);
    assert(((high as u64) << 32) | (low as u64) == (high as u64) * 0x1_0000_0000 + (low as u64))
        by (bit_vector);
    value
}

/// The upper half of a 64-bit value.
pub fn high_half(value: u64) -> (high: u32)
    ensures
        high == upper(value),
        high as int == value as int / 0x1_0000_0000,
{
    assert(value >> 32 <= 0xffff_ffff) by (bit_vector);
    assert(value >> 32 == value / 0x1_0000_0000) by (bit_vector);
    (value >> 32) as u32
}

/// The lower half of a 64-bit value.
pub fn low_half(value: u64) -> (low: u32)
    ensures
        low == lower(value),
        low as int == value as int % 0x1_0000_0000,
{
    assert(value & 0xffff_ffff <= 0xffff_ffff) by (bit_vector);
    assert(value & 0xffff_ffff == value % 0x1_0000_0000) by (bit_vector);
    (value & 0xffff_ffff) as u32
}

/// Splitting a value and joining the halves gives the value back.
pub proof fn lemma_join_of_halves(value: u64)
    ensures
        joined(upper(value), lower(value)) == value,
{
    assert((((value >> 32) as u32 as u64) << 32) | ((value & 0xffff_ffff) as u32 as u64) == value)
        by (bit_vector);
}

/// Joining two halves and splitting the result gives the halves back.
pub proof fn lemma_halves_of_join(high: u32, low: u32)
    ensures
        upper(joined(high, low)) == high,
        lower(joined(high, low)) == low,
{
    assert(((((high as u64) << 32) | (low as u64)) >> 32) as u32 == high) by (bit_vector);
    assert(((((high as u64) << 32) | (low as u64)) & 0xffff_ffff) as u32 == low) by (bit_vector);
}

} // verus!
