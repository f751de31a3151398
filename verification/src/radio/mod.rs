//! Radio side: bit helpers, the radio configuration and packet decoding.
pub mod sc_radio_config;
pub mod sc_radio_data;
pub mod sc_radiosetup;

use vstd::prelude::*;

verus! {

/// The value of `v` with its eight bits in reverse order: bit `i` of the
/// result is bit `7 - i` of `v`.
pub open spec fn spec_bitrev8(v: u8) -> u8 {
    ((v & 0x01) << 7u8) | ((v & 0x02) << 5u8) | ((v & 0x04) << 3u8) | ((v & 0x08) << 1u8) | ((v
        & 0x10) >> 1u8) | ((v & 0x20) >> 3u8) | ((v & 0x40) >> 5u8) | ((v & 0x80) >> 7u8)
}

/// Reverses the order of the bits of a byte (the radio sends addresses
/// least significant bit first).
pub fn bitrev8(val: u8) -> (r: u8)
    ensures
        r == spec_bitrev8(val),
        forall|i: u8| #![trigger (r >> i)] i < 8 ==> (r >> i) & 1 == (val >> (7 - i) as u8) & 1,
{
    let r: u8 = ((val & 0x01) << 7u8) | ((val & 0x02) << 5u8) | ((val & 0x04) << 3u8) | ((val
        & 0x08) << 1u8) | ((val & 0x10) >> 1u8) | ((val & 0x20) >> 3u8) | ((val & 0x40) >> 5u8)
        | ((val & 0x80) >> 7u8);
    assert(forall|i: u8| #![trigger (r >> i)] i < 8 ==> (r >> i) & 1 == (val >> (7 - i) as u8) & 1)
        by (bit_vector)
        requires
            r == spec_bitrev8(val),
    ;
    r
}

/// Bit `i` of `spec_bitrev8(v)` is bit `7 - i` of `v`, for every bit `i` of a byte.
pub proof fn lemma_bitrev8_bits(v: u8)
    ensures
        forall|i: u8| #![trigger (spec_bitrev8(v) >> i)] i < 8 ==> (spec_bitrev8(v) >> i) & 1 == (v >> (7
            - i) as u8) & 1,
{
    assert(forall|i: u8| #![trigger (spec_bitrev8(v) >> i)] i < 8 ==> (spec_bitrev8(v) >> i) & 1 == (v
        >> (7 - i) as u8) & 1) by (bit_vector);
}

/// Reversing the bits of a byte twice gives the byte back.
pub proof fn lemma_bitrev8_involution(v: u8)
    ensures
        spec_bitrev8(spec_bitrev8(v)) == v,
{
    assert(spec_bitrev8(spec_bitrev8(v)) == v) by (bit_vector);
}

} // verus!
