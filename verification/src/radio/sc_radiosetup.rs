//! What the radio driver computes: the address registers it writes and the
//! packet it hands out when a reception has ended.
use crate::radio::sc_radio_config::SteamControllerRadioConfig;
use crate::radio::sc_radio_data::{radio_payload_len, ScRadioData};
use crate::radio::{bitrev8, spec_bitrev8};
use vstd::prelude::*;

verus! {

/// The big-endian 32-bit value of four bytes.
pub open spec fn spec_be_u32(b0: u8, b1: u8, b2: u8, b3: u8) -> int {
    b0 * 0x100_0000 + b1 * 0x1_0000 + b2 * 0x100 + b3
}

/// The BASE0 register value for base address `base`: its bytes, each with
/// its bits reversed, read as a big-endian number.
pub open spec fn spec_base0(base: Seq<u8>) -> int {
    spec_be_u32(
        spec_bitrev8(base[0]),
        spec_bitrev8(base[1]),
        spec_bitrev8(base[2]),
        spec_bitrev8(base[3]),
    )
}

/// Big-endian 32-bit value of four bytes.
fn be_u32(b0: u8, b1: u8, b2: u8, b3: u8) -> (r: u32)
    ensures
        r == spec_be_u32(b0, b1, b2, b3),
{
    let r: u32 = ((b0 as u32) << 24u32) | ((b1 as u32) << 16u32) | ((b2 as u32) << 8u32) | (b3 as u32);
    assert(r == b0 * 0x100_0000 + b1 * 0x1_0000 + b2 * 0x100 + b3) by (bit_vector)
        requires
            r == ((b0 as u32) << 24u32) | ((b1 as u32) << 16u32) | ((b2 as u32) << 8u32) | (b3 as u32),
    ;
    r
}

/// The BASE0 and PREFIX0 register values that address `config`: the base
/// address bytes and the prefix byte with their bits reversed, the base read
/// as a big-endian number.
pub fn radio_address(config: &SteamControllerRadioConfig) -> (r: (u32, u32))
    ensures
        r.0 == spec_base0(config.base@),
        r.1 == spec_bitrev8(config.prefix),
{
    let base0 = be_u32(
        bitrev8(config.base[0]),
        bitrev8(config.base[1]),
        bitrev8(config.base[2]),
        bitrev8(config.base[3]),
    );
    let prefix0 = bitrev8(config.prefix) as u32;
    (base0, prefix0)
}

/// The CRC check passed: bit 0 of the CRCSTATUS register.
pub open spec fn spec_crc_ok(crcstatus: u32) -> bool {
    crcstatus & 1 != 0
}

/// The outcome of a poll, given what was read from the END event register
/// and the CRCSTATUS register: nothing while no reception has ended,
/// otherwise the packet in `rx_buf` with its CRC verdict.
pub fn poll_result<'a>(events_end: u32, crcstatus: u32, rx_buf: &'a [u8]) -> (r: Option<
    ScRadioData<'a>,
>)
    requires
        events_end != 0 ==> rx_buf@.len() >= 2,
    ensures
        events_end == 0 ==> r is None,
        events_end != 0 ==> (r matches Some(d) && d.crc_ok == spec_crc_ok(crcstatus) && d.s1_pid
            == rx_buf@[1] && d.payload@ == rx_buf@.subrange(2, 2 + radio_payload_len(rx_buf@))),
        events_end != 0 ==> (r matches Some(d) && (d.crc_ok <==> crcstatus % 2 == 1)),
{
    if events_end == 0 {
        return None;
    }
    let crc_ok = (crcstatus & 1) != 0;
    proof {
        lemma_crc_ok_is_low_bit(crcstatus);
    }
    Some(ScRadioData::from_buf(rx_buf, crc_ok))
}

/// The CRC verdict is the lowest bit of CRCSTATUS: the check passed exactly
/// when CRCSTATUS is odd; a status of 0 means it failed, a status of 1 that
/// it passed.
pub proof fn lemma_crc_ok_is_low_bit(crcstatus: u32)
    ensures
        spec_crc_ok(crcstatus) <==> crcstatus % 2 == 1,
        !spec_crc_ok(0),
        spec_crc_ok(1),
{
    assert((crcstatus & 1 != 0) <==> crcstatus % 2 == 1) by (bit_vector);
    assert(0u32 & 1 == 0) by (bit_vector);
    assert(1u32 & 1 == 1) by (bit_vector);
}

/// BASE0 holds the bit-reversed base address bytes most significant first:
/// its top byte comes from `base[0]` and its lowest byte from `base[3]`.
pub proof fn lemma_base0_bytes(base: Seq<u8>)
    requires
        base.len() == 4,
    ensures
        spec_base0(base) / 0x100_0000 == spec_bitrev8(base[0]),
        (spec_base0(base) / 0x1_0000) % 0x100 == spec_bitrev8(base[1]),
        (spec_base0(base) / 0x100) % 0x100 == spec_bitrev8(base[2]),
        spec_base0(base) % 0x100 == spec_bitrev8(base[3]),
{
    let b0 = spec_bitrev8(base[0]) as int;
    let b1 = spec_bitrev8(base[1]) as int;
    let b2 = spec_bitrev8(base[2]) as int;
    let b3 = spec_bitrev8(base[3]) as int;
    assert(0 <= b0 < 256 && 0 <= b1 < 256 && 0 <= b2 < 256 && 0 <= b3 < 256);
    assert(spec_base0(base) == b0 * 0x100_0000 + b1 * 0x1_0000 + b2 * 0x100 + b3);
    assert((b0 * 0x100_0000 + b1 * 0x1_0000 + b2 * 0x100 + b3) / 0x100_0000 == b0
        && ((b0 * 0x100_0000 + b1 * 0x1_0000 + b2 * 0x100 + b3) / 0x1_0000) % 0x100 == b1
        && ((b0 * 0x100_0000 + b1 * 0x1_0000 + b2 * 0x100 + b3) / 0x100) % 0x100 == b2
        && (b0 * 0x100_0000 + b1 * 0x1_0000 + b2 * 0x100 + b3) % 0x100 == b3) by (nonlinear_arith)
        requires
            0 <= b0 < 256,
            0 <= b1 < 256,
            0 <= b2 < 256,
            0 <= b3 < 256,
    ;
}

} // verus!
