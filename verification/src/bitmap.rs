//! Capability bitmaps: fixed-length byte arrays in which bit `i` set means
//! "feature `i` supported". The kernel reports event-type, absolute-axis,
//! device-property and key-code capabilities in this form.

use vstd::prelude::*;

verus! {

/// Bit `code` of the bitmap `bits`: true iff the byte holding the bit exists
/// and has it set. A code whose byte lies past the end of the bitmap is
/// simply not supported, never an error.
pub open spec fn spec_bit_set(bits: Seq<u8>, code: u16) -> bool {
    code / 8 < bits.len() && (bits[code as int / 8] & (1u8 << (code % 8))) != 0
}

/// Core bit test shared by all bitmap families.
pub fn has_specific_bit(bits: &[u8], bit_index: u16) -> (r: bool)
    ensures
        r == spec_bit_set(bits@, bit_index),
        bit_index / 8 >= bits@.len() ==> r == false,
{
    let byte_index: usize = (bit_index / 8) as usize;
    let bit_offset: u16 = bit_index % 8;
    if byte_index < bits.len() {
        (bits[byte_index] & (1u8 << bit_offset)) != 0
    } else {
        false
    }
}

/// Bit test on an absolute-axis bitmap.
pub fn has_specific_abs(abs_bits: &[u8], abs_code: u16) -> (r: bool)
    ensures
        r == spec_bit_set(abs_bits@, abs_code),
{
    has_specific_bit(abs_bits, abs_code)
}

/// Bit test on a device-property bitmap.
pub fn has_specific_prop(prop_bits: &[u8], prop_code: u16) -> (r: bool)
    ensures
        r == spec_bit_set(prop_bits@, prop_code),
{
    has_specific_bit(prop_bits, prop_code)
}

/// Bit test on a key-code bitmap.
pub fn has_specific_key(key_bits: &[u8], key_code: u16) -> (r: bool)
    ensures
        r == spec_bit_set(key_bits@, key_code),
{
    has_specific_bit(key_bits, key_code)
}

} // verus!
