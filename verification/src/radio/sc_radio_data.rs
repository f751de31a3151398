//! A packet received by the radio, read out of the receive buffer.
use vstd::prelude::*;

verus! {

/// A received packet. `payload` borrows from the receive buffer, which the
/// radio fills by DMA.
pub struct ScRadioData<'a> {
    pub crc_ok: bool,
    pub s1_pid: u8,
    pub payload: &'a [u8],
}

/// Length of the payload held in receive buffer `buf`: the length byte
/// `buf[0]`, cut to the bytes that follow the two header bytes.
pub open spec fn radio_payload_len(buf: Seq<u8>) -> int {
    if (buf[0] as int) < buf.len() - 2 {
        buf[0] as int
    } else {
        buf.len() - 2
    }
}

impl<'a> ScRadioData<'a> {
    /// Reads a packet out of receive buffer `buf`: byte 0 is the payload
    /// length, byte 1 the S1 field (packet id), the payload follows.
    pub fn from_buf(buf: &'a [u8], crc_ok: bool) -> (r: Self)
        requires
            buf@.len() >= 2,
        ensures
            r.crc_ok == crc_ok,
            r.s1_pid == buf@[1],
            r.payload@ == buf@.subrange(2, 2 + radio_payload_len(buf@)),
    {
        let buf_len = buf[0] as usize;
        let room: usize = buf.len() - 2;
        let payload_len: usize = if buf_len < room {
            buf_len
        } else {
            room
        };
        ScRadioData { crc_ok, s1_pid: buf[1], payload: &buf[2..2 + payload_len] }
    }
}

/// The payload never runs past the receive buffer and is never longer than
/// its length byte says: it is exactly as long as the length byte when the
/// buffer holds that much, and otherwise it is all the bytes after the two
/// header bytes.
pub proof fn lemma_payload_within_buffer(buf: Seq<u8>)
    requires
        buf.len() >= 2,
    ensures
        0 <= radio_payload_len(buf) <= buf[0],
        2 + radio_payload_len(buf) <= buf.len(),
        buf[0] + 2 <= buf.len() ==> radio_payload_len(buf) == buf[0],
        buf[0] + 2 > buf.len() ==> radio_payload_len(buf) == buf.len() - 2,
{
}

} // verus!
