//! The HID feature-report handler of one puck slot: it answers the host's
//! feature requests and keeps the bond that pairs the slot with a controller.
use crate::usb::vars::{lemma_decode_code, spec_try_from_byte, Cmd, ATTR83, ATTR83_LEN, PROD_ID_CTRL};
use vstd::prelude::*;
use vstd::utf8::valid_utf8;

verus! {

/// Number of bytes in a feature-report response.
pub const RESP_LEN: usize = 63;

/// Number of bytes in a bond (8 bytes of header, 16 bytes of identity).
pub const BOND_LEN: usize = 24;

/// Most payload bytes echoed back for an unknown command.
pub const ECHO_MAX: usize = 60;

/// Setting path under which the bond is read ("esb/bond").
pub const ESB_BOND_PATH: [u8; 8] = [0x65, 0x73, 0x62, 0x2F, 0x62, 0x6F, 0x6E, 0x64];

/// Setting path of the wireless transport ("user/wireless_transport").
pub const WIRELESS_TRANSPORT_PATH: [u8; 23] = [
    0x75, 0x73, 0x65, 0x72, 0x2F, 0x77, 0x69, 0x72, 0x65, 0x6C, 0x65, 0x73,
    0x73, 0x5F, 0x74, 0x72, 0x61, 0x6E, 0x73, 0x70, 0x6F, 0x72, 0x74,
];

/// Identifies a HID report, as the USB stack hands it to the handler.
#[derive(Debug, Clone, Copy, PartialEq, Eq, Structural)]
pub enum ReportId {
    In(u8),
    Out(u8),
    Feature(u8),
}

/// Answer to a host's OUT (set) request.
#[derive(Debug, Clone, Copy, PartialEq, Eq, Structural)]
pub enum OutResponse {
    Accepted,
    Rejected,
}

/// One slot of the puck: its bond and the response prepared for the next
/// GET_REPORT.
pub struct ScPuckSlot {
    bond: [u8; 24],
    has_bond: bool,
    resp: [u8; 63],
    resp_len: usize,
}

/// The abstract state of a slot.
pub ghost struct PuckSlotState {
    pub bond: Seq<u8>,
    pub has_bond: bool,
    pub resp: Seq<u8>,
    pub resp_len: nat,
}

/// `n` zero bytes.
pub open spec fn zeros(n: nat) -> Seq<u8> {
    Seq::new(n, |i: int| 0u8)
}

/// Every byte of `s` is zero.
pub open spec fn all_zero(s: Seq<u8>) -> bool {
    forall|i: int| 0 <= i < s.len() ==> s[i] == 0
}

/// `s` begins with `prefix`.
pub open spec fn has_prefix(s: Seq<u8>, prefix: Seq<u8>) -> bool {
    prefix.len() <= s.len() && s.take(prefix.len() as int) == prefix
}

/// A full response whose first bytes are `head` and whose other bytes are zero.
pub open spec fn frame(head: Seq<u8>) -> Seq<u8> {
    head + zeros((RESP_LEN - head.len()) as nat)
}

/// The payload of a report: the bytes after the command and length bytes.
pub open spec fn report_payload(data: Seq<u8>) -> Seq<u8> {
    if data.len() > 2 {
        data.skip(2)
    } else {
        Seq::empty()
    }
}

/// The length byte of a report, `0` when the report has none.
pub open spec fn report_len_byte(data: Seq<u8>) -> u8 {
    if data.len() > 1 {
        data[1]
    } else {
        0
    }
}

/// The identity attributes as answered on report `id`: on feature report 1
/// the product byte says "controller".
pub open spec fn attributes_for(id: ReportId) -> Seq<u8> {
    if id == ReportId::Feature(1) {
        ATTR83@.update(1, PROD_ID_CTRL)
    } else {
        ATTR83@
    }
}

/// Whether a report writes the bond: a `WriteBond` whose payload holds a
/// whole bond.
pub open spec fn writes_bond(data: Seq<u8>) -> bool {
    &&& data.len() > 0
    &&& spec_try_from_byte(data[0]) == Ok::<Cmd, u8>(Cmd::WriteBond)
    &&& report_payload(data).len() >= BOND_LEN
}

/// The response that a non-empty report `data` on `id` leaves in slot state
/// `s`; `payload_utf8` says whether the payload is valid UTF-8.
pub open spec fn spec_response(
    s: PuckSlotState,
    id: ReportId,
    data: Seq<u8>,
    payload_utf8: bool,
) -> Seq<u8> {
    let p = report_payload(data);
    match spec_try_from_byte(data[0]) {
        Ok(Cmd::GetAttributes) => frame(seq![0x83u8, 25u8] + attributes_for(id)),
        Ok(Cmd::GetStrings) => {
            let idx: u8 = if p.len() > 0 {
                p[0]
            } else {
                1
            };
            if (idx == 0 || idx == 1 || idx == 4) && s.has_bond {
                frame(seq![0xAEu8, 0x14u8, idx] + s.bond.subrange(8, 24))
            } else {
                frame(seq![0xAEu8, 0x14u8, idx, 0x4Eu8, 0x41u8])
            }
        },
        Ok(Cmd::GetConnectionState) => frame(seq![0xB4u8, 0x01u8, 0x01u8]),
        Ok(Cmd::SetPairingMode) => frame(seq![0xADu8, 0x00u8]),
        Ok(Cmd::WriteBond) => frame(seq![0xA2u8, 0x00u8]),
        Ok(Cmd::ReadBond) => if s.has_bond {
            frame(seq![0xA3u8, 0x18u8] + s.bond)
        } else {
            frame(seq![0xA3u8, 0x18u8])
        },
        Ok(Cmd::SetSettingsValues) => frame(seq![0x87u8, 0x00u8]),
        Ok(Cmd::GetSettingsValues) => frame(
            seq![0x89u8, 0x03u8, if p.len() > 0 { p[0] } else { 0u8 }],
        ),
        Ok(Cmd::GetSettingByPath) => if payload_utf8 && has_prefix(p, ESB_BOND_PATH@)
            && s.has_bond {
            frame(seq![0xEDu8, 0x18u8] + s.bond)
        } else if payload_utf8 && has_prefix(p, WIRELESS_TRANSPORT_PATH@) {
            frame(seq![0xEDu8, 0x01u8, 0x02u8])
        } else {
            frame(seq![0xEDu8, 0x00u8])
        },
        Err(b) => frame(
            seq![b, report_len_byte(data)] + p.take(
                if p.len() < ECHO_MAX {
                    p.len() as int
                } else {
                    ECHO_MAX as int
                },
            ),
        ),
    }
}

/// The slot state after the host sets report `id` to `data`; `payload_utf8`
/// says whether the payload of `data` is valid UTF-8. An empty report changes
/// nothing; any other report prepares a full response, and a `WriteBond`
/// with a whole bond stores it (an all-zero bond clears the slot).
pub open spec fn spec_set_report(
    s: PuckSlotState,
    id: ReportId,
    data: Seq<u8>,
    payload_utf8: bool,
) -> PuckSlotState {
    if data.len() == 0 {
        s
    } else {
        let new_bond = report_payload(data).take(BOND_LEN as int);
        PuckSlotState {
            bond: if writes_bond(data) {
                new_bond
            } else {
                s.bond
            },
            has_bond: if writes_bond(data) {
                !all_zero(new_bond)
            } else {
                s.has_bond
            },
            resp: spec_response(s, id, data, payload_utf8),
            resp_len: RESP_LEN as nat,
        }
    }
}

/// Number of response bytes that GET_REPORT copies into a buffer of
/// `buf_len` bytes.
pub open spec fn report_copy_len(s: PuckSlotState, buf_len: nat) -> nat {
    if s.resp_len < buf_len {
        s.resp_len
    } else {
        buf_len
    }
}

impl PuckSlotState {
    /// A slot state is well formed when its arrays have their sizes, the
    /// response length fits the response, and the slot counts as bonded
    /// exactly when its bond holds a non-zero byte.
    pub open spec fn wf(self) -> bool {
        &&& self.bond.len() == BOND_LEN
        &&& self.resp.len() == RESP_LEN
        &&& self.resp_len <= RESP_LEN
        &&& (self.has_bond <==> !all_zero(self.bond))
    }
}

impl View for ScPuckSlot {
    type V = PuckSlotState;

    closed spec fn view(&self) -> PuckSlotState {
        PuckSlotState {
            bond: self.bond@,
            has_bond: self.has_bond,
            resp: self.resp@,
            resp_len: self.resp_len as nat,
        }
    }
}

impl ScPuckSlot {
    #[verifier::type_invariant]
    spec fn inv(self) -> bool {
        self@.wf()
    }

    /// An empty slot: no bond and no response prepared.
    pub fn new() -> (r: ScPuckSlot)
        ensures
            r@ == (PuckSlotState {
                bond: zeros(BOND_LEN as nat),
                has_bond: false,
                resp: zeros(RESP_LEN as nat),
                resp_len: 0,
            }),
            r@.wf(),
    {
        let r = ScPuckSlot { bond: [0u8; 24], has_bond: false, resp: [0u8; 63], resp_len: 0 };
        assert(r.bond@ =~= zeros(BOND_LEN as nat));
        assert(r.resp@ =~= zeros(RESP_LEN as nat));
        r
    }

    /// GET_REPORT: copies as much of the prepared response as `buf` holds to
    /// the front of `buf` and returns how many bytes that is. The slot itself
    /// is left as it was.
    pub fn get_report(&mut self, id: ReportId, buf: &mut [u8]) -> (r: Option<usize>)
        ensures
            old(self)@.wf(),
            final(self)@.wf(),
            final(self)@ == old(self)@,
            r == Some(report_copy_len(old(self)@, old(buf)@.len()) as usize),
            final(buf)@ == old(self)@.resp.take(report_copy_len(old(self)@, old(buf)@.len()) as int)
                + old(buf)@.skip(report_copy_len(old(self)@, old(buf)@.len()) as int),
    {
        proof {
            use_type_invariant(&*self);
        }
        let len: usize = if self.resp_len < buf.len() {
            self.resp_len
        } else {
            buf.len()
        };
        let ghost start = buf@;
        let mut i: usize = 0;
        while i < len
            invariant
                len <= buf@.len(),
                len <= RESP_LEN,
                self.resp@.len() == RESP_LEN,
                buf@.len() == start.len(),
                i <= len,
                buf@ =~= self.resp@.take(i as int) + start.skip(i as int),
            decreases len - i,
        {
            buf[i] = self.resp[i];
            i = i + 1;
            assert(buf@ =~= self.resp@.take(i as int) + start.skip(i as int));
        }
        Some(len)
    }

    /// SET_REPORT: handles the feature command in `data` (command byte,
    /// length byte, payload), prepares its response for the next GET_REPORT
    /// and, for `WriteBond`, stores or clears the bond. Every report is
    /// accepted.
    pub fn set_report(&mut self, id: ReportId, data: &[u8]) -> (r: OutResponse)
        ensures
            final(self)@ == spec_set_report(
                old(self)@,
                id,
                data@,
                valid_utf8(report_payload(data@)),
            ),
            old(self)@.wf(),
            final(self)@.wf(),
            r == OutResponse::Accepted,
    {
        proof {
            use_type_invariant(&*self);
        }
        if data.len() == 0 {
            return OutResponse::Accepted;
        }
        let start: usize = if data.len() > 2 {
            2
        } else {
            data.len()
        };
        let payload: &[u8] = &data[start..data.len()];
        assert(payload@ =~= report_payload(data@));
        let payload_utf8 = is_valid_utf8(payload);
        let resp = self.response(id, data, payload, payload_utf8);

        let mut bond: [u8; 24] = self.bond;
        let mut has_bond: bool = self.has_bond;
        let command = data[0];
        if command == Cmd::WriteBond.code() && payload.len() >= BOND_LEN {
            if first_bytes_zero(payload, BOND_LEN) {
                has_bond = false;
                bond = [0u8; 24];
                assert(bond@ =~= payload@.take(BOND_LEN as int));
            } else {
                has_bond = true;
                let mut i: usize = 0;
                while i < BOND_LEN
                    invariant
                        payload@.len() >= BOND_LEN,
                        i <= BOND_LEN,
                        forall|j: int| 0 <= j < i ==> bond@[j] == payload@[j],
                    decreases BOND_LEN - i,
                {
                    bond[i] = payload[i];
                    i = i + 1;
                }
                assert(bond@ =~= payload@.take(BOND_LEN as int));
            }
        }
        *self = ScPuckSlot { bond, has_bond, resp, resp_len: RESP_LEN };
        OutResponse::Accepted
    }

    /// The response to the non-empty report `data` on `id`, whose payload is
    /// `payload`; `payload_utf8` says whether `payload` is valid UTF-8.
    fn response(&self, id: ReportId, data: &[u8], payload: &[u8], payload_utf8: bool) -> (r: [u8; 63])
        requires
            data@.len() > 0,
            payload@ == report_payload(data@),
        ensures
            r@ == spec_response(self@, id, data@, payload_utf8),
    {
        proof {
            use_type_invariant(self);
        }
        let command = data[0];
        let len: u8 = if data.len() > 1 {
            data[1]
        } else {
            0
        };
        let mut resp = [0u8; 63];
        assert(resp@ =~= zeros(RESP_LEN as nat));
        match Cmd::try_from(command) {
            Ok(Cmd::GetAttributes) => {
                resp[0] = Cmd::GetAttributes.code();
                resp[1] = ATTR83_LEN as u8;
                write_at(&mut resp, 2, ATTR83.as_slice());
                if let ReportId::Feature(1) = id {
                    resp[3] = PROD_ID_CTRL;
                }
                assert(resp@ =~= frame(seq![0x83u8, 25u8] + attributes_for(id)));
            },
            Ok(Cmd::GetStrings) => {
                resp[0] = Cmd::GetStrings.code();
                resp[1] = 0x14;
                let idx: u8 = if payload.len() > 0 {
                    payload[0]
                } else {
                    1
                };
                resp[2] = idx;
                if (idx == 0 || idx == 1 || idx == 4) && self.has_bond {
                    write_at(&mut resp, 3, &self.bond[8..24]);
                    assert(resp@ =~= frame(seq![0xAEu8, 0x14u8, idx] + self@.bond.subrange(8, 24)));
                } else {
                    resp[3] = 0x4E;
                    resp[4] = 0x41;
                    assert(resp@ =~= frame(seq![0xAEu8, 0x14u8, idx, 0x4Eu8, 0x41u8]));
                }
            },
            Ok(Cmd::GetConnectionState) => {
                resp[0] = Cmd::GetConnectionState.code();
                resp[1] = 0x01;
                resp[2] = 0x01;
                assert(resp@ =~= frame(seq![0xB4u8, 0x01u8, 0x01u8]));
            },
            Ok(Cmd::SetPairingMode) => {
                resp[0] = Cmd::SetPairingMode.code();
                resp[1] = 0x00;
                assert(resp@ =~= frame(seq![0xADu8, 0x00u8]));
            },
            Ok(Cmd::WriteBond) => {
                resp[0] = Cmd::WriteBond.code();
                resp[1] = 0x00;
                assert(resp@ =~= frame(seq![0xA2u8, 0x00u8]));
            },
            Ok(Cmd::ReadBond) => {
                resp[0] = Cmd::ReadBond.code();
                resp[1] = 0x18;
                if self.has_bond {
                    write_at(&mut resp, 2, self.bond.as_slice());
                    assert(resp@ =~= frame(seq![0xA3u8, 0x18u8] + self@.bond));
                } else {
                    assert(resp@ =~= frame(seq![0xA3u8, 0x18u8]));
                }
            },
            Ok(Cmd::SetSettingsValues) => {
                resp[0] = Cmd::SetSettingsValues.code();
                resp[1] = 0x00;
                assert(resp@ =~= frame(seq![0x87u8, 0x00u8]));
            },
            Ok(Cmd::GetSettingsValues) => {
                resp[0] = Cmd::GetSettingsValues.code();
                resp[1] = 0x03;
                resp[2] = if payload.len() > 0 {
                    payload[0]
                } else {
                    0
                };
                assert(resp@ =~= frame(
                    seq![0x89u8, 0x03u8, if payload@.len() > 0 { payload@[0] } else { 0u8 }],
                ));
            },
            Ok(Cmd::GetSettingByPath) => {
                resp[0] = Cmd::GetSettingByPath.code();
                if payload_utf8 {
                    if starts_with(payload, ESB_BOND_PATH.as_slice()) && self.has_bond {
                        resp[1] = 0x18;
                        write_at(&mut resp, 2, self.bond.as_slice());
                        assert(resp@ =~= frame(seq![0xEDu8, 0x18u8] + self@.bond));
                    } else if starts_with(payload, WIRELESS_TRANSPORT_PATH.as_slice()) {
                        resp[1] = 0x01;
                        resp[2] = 0x02;
                        assert(resp@ =~= frame(seq![0xEDu8, 0x01u8, 0x02u8]));
                    } else {
                        resp[1] = 0x00;
                        assert(resp@ =~= frame(seq![0xEDu8, 0x00u8]));
                    }
                } else {
                    resp[1] = 0x00;
                    assert(resp@ =~= frame(seq![0xEDu8, 0x00u8]));
                }
            },
            Err(unhandled_byte) => {
                resp[0] = unhandled_byte;
                resp[1] = len;
                let cpy_len: usize = if payload.len() < ECHO_MAX {
                    payload.len()
                } else {
                    ECHO_MAX
                };
                write_at(&mut resp, 2, &payload[0..cpy_len]);
                assert(resp@ =~= frame(
                    seq![unhandled_byte, report_len_byte(data@)] + payload@.take(cpy_len as int),
                ));
            },
        }
        resp
    }
}

/// `core::str::from_utf8`: it returns `Ok` exactly when `bytes` are valid
/// UTF-8. This claims that vstd's `valid_utf8` is that condition.
#[verifier::external_body]
fn is_valid_utf8(bytes: &[u8]) -> (r: bool)
    ensures
        r == valid_utf8(bytes@),
{
    core::str::from_utf8(bytes).is_ok()
}

/// Whether `data` begins with `prefix`.
fn starts_with(data: &[u8], prefix: &[u8]) -> (r: bool)
    ensures
        r == has_prefix(data@, prefix@),
{
    if prefix.len() > data.len() {
        return false;
    }
    let mut i: usize = 0;
    while i < prefix.len()
        invariant
            prefix.len() <= data.len(),
            i <= prefix.len(),
            forall|j: int| 0 <= j < i ==> data@[j] == prefix@[j],
        decreases prefix.len() - i,
    {
        if data[i] != prefix[i] {
            assert(data@.take(prefix@.len() as int)[i as int] != prefix@[i as int]);
            return false;
        }
        i = i + 1;
    }
    assert(data@.take(prefix@.len() as int) =~= prefix@);
    true
}

/// Whether the first `n` bytes of `data` are all zero.
fn first_bytes_zero(data: &[u8], n: usize) -> (r: bool)
    requires
        n <= data.len(),
    ensures
        r == all_zero(data@.take(n as int)),
{
    let mut i: usize = 0;
    while i < n
        invariant
            n <= data.len(),
            i <= n,
            forall|j: int| 0 <= j < i ==> data@[j] == 0,
        decreases n - i,
    {
        if data[i] != 0 {
            assert(data@.take(n as int)[i as int] != 0);
            return false;
        }
        i = i + 1;
    }
    true
}

/// Copies `src` into `resp` from index `at` on.
fn write_at(resp: &mut [u8; 63], at: usize, src: &[u8])
    requires
        at + src@.len() <= RESP_LEN,
    ensures
        final(resp)@ == old(resp)@.take(at as int) + src@ + old(resp)@.skip(at + src@.len()),
{
    let ghost start = resp@;
    let mut i: usize = 0;
    while i < src.len()
        invariant
            at + src@.len() <= RESP_LEN,
            i <= src@.len(),
            start.len() == RESP_LEN,
            resp@.len() == RESP_LEN,
            resp@ =~= start.take(at as int) + src@.take(i as int) + start.skip(at + i),
        decreases src.len() - i,
    {
        resp[at + i] = src[i];
        i = i + 1;
        assert(resp@ =~= start.take(at as int) + src@.take(i as int) + start.skip(at + i));
    }
    assert(src@.take(i as int) =~= src@);
}


/// Every report keeps a slot state well formed: the response length stays
/// within the response and the slot counts as bonded exactly when its bond
/// holds a non-zero byte.
pub proof fn lemma_set_report_preserves_wf(
    s: PuckSlotState,
    id: ReportId,
    data: Seq<u8>,
    payload_utf8: bool,
)
    requires
        s.wf(),
    ensures
        spec_set_report(s, id, data, payload_utf8).wf(),
{
    if data.len() > 0 {
        let r = spec_set_report(s, id, data, payload_utf8);
        assert(r.resp.len() == RESP_LEN);
    }
}

/// Reading the bond gives back what the last bond write stored: after a
/// `WriteBond` whose payload holds a bond, a `ReadBond` answers with the
/// command byte, the length 0x18 and the first 24 bytes of that payload
/// (zeros when an all-zero bond cleared the slot), and a GET_REPORT into a
/// buffer of at least 26 bytes hands all of them over.
pub proof fn lemma_read_bond_after_write_bond(
    s: PuckSlotState,
    write_id: ReportId,
    write_len: u8,
    bond: Seq<u8>,
    read_id: ReportId,
    read_rest: Seq<u8>,
    write_utf8: bool,
    read_utf8: bool,
    buf_len: nat,
)
    requires
        bond.len() >= BOND_LEN,
        buf_len >= 26,
    ensures
        ({
            let written = spec_set_report(s, write_id, seq![0xA2u8, write_len] + bond, write_utf8);
            let read = spec_set_report(written, read_id, seq![0xA3u8] + read_rest, read_utf8);
            &&& written.bond == bond.take(BOND_LEN as int)
            &&& read.bond == bond.take(BOND_LEN as int)
            &&& read.resp[0] == 0xA3
            &&& read.resp[1] == 0x18
            &&& read.resp.subrange(2, 26) == bond.take(BOND_LEN as int)
            &&& report_copy_len(read, buf_len) >= 26
        }),
{
    let wdata = seq![0xA2u8, write_len] + bond;
    assert(wdata[0] == 0xA2);
    assert(report_payload(wdata) =~= bond);
    let written = spec_set_report(s, write_id, wdata, write_utf8);
    assert(written.bond == bond.take(BOND_LEN as int));
    let rdata = seq![0xA3u8] + read_rest;
    assert(rdata[0] == 0xA3);
    let read = spec_set_report(written, read_id, rdata, read_utf8);
    let b = bond.take(BOND_LEN as int);
    if written.has_bond {
        assert(read.resp == frame(seq![0xA3u8, 0x18u8] + b));
        assert(read.resp.subrange(2, 26) =~= b);
    } else {
        assert(all_zero(b));
        assert(read.resp == frame(seq![0xA3u8, 0x18u8]));
        assert(read.resp.subrange(2, 26) =~= b);
    }
}

/// Only a bond write touches the bond: every other report leaves the bond
/// and the bonded flag as they were.
pub proof fn lemma_bond_kept_unless_written(
    s: PuckSlotState,
    id: ReportId,
    data: Seq<u8>,
    payload_utf8: bool,
)
    requires
        !writes_bond(data),
    ensures
        spec_set_report(s, id, data, payload_utf8).bond == s.bond,
        spec_set_report(s, id, data, payload_utf8).has_bond == s.has_bond,
{
}

/// Asking for the setting path "esb/bond" (with a payload that is valid
/// UTF-8) on a bonded slot answers with the same bond bytes as `ReadBond`.
pub proof fn lemma_bond_path_matches_read_bond(
    s: PuckSlotState,
    path_id: ReportId,
    path_data: Seq<u8>,
    read_id: ReportId,
    read_data: Seq<u8>,
    read_utf8: bool,
)
    requires
        s.has_bond,
        s.bond.len() == BOND_LEN,
        path_data.len() > 0,
        path_data[0] == 0xED,
        has_prefix(report_payload(path_data), ESB_BOND_PATH@),
        read_data.len() > 0,
        read_data[0] == 0xA3,
    ensures
        spec_set_report(s, path_id, path_data, true).resp.subrange(2, 26) == spec_set_report(
            s,
            read_id,
            read_data,
            read_utf8,
        ).resp.subrange(2, 26),
        spec_set_report(s, path_id, path_data, true).resp.subrange(2, 26) == s.bond,
{
    let a = spec_set_report(s, path_id, path_data, true);
    let b = spec_set_report(s, read_id, read_data, read_utf8);
    assert(a.resp == frame(seq![0xEDu8, 0x18u8] + s.bond));
    assert(b.resp == frame(seq![0xA3u8, 0x18u8] + s.bond));
    assert(a.resp.subrange(2, 26) =~= s.bond);
    assert(b.resp.subrange(2, 26) =~= s.bond);
}

/// Every non-empty report to a well-formed slot is answered with a full
/// 63-byte response whose first byte is the report's command byte, known or not.
pub proof fn lemma_response_echoes_command(
    s: PuckSlotState,
    id: ReportId,
    data: Seq<u8>,
    payload_utf8: bool,
)
    requires
        s.wf(),
        data.len() > 0,
    ensures
        spec_set_report(s, id, data, payload_utf8).resp.len() == 63,
        spec_set_report(s, id, data, payload_utf8).resp_len == 63,
        spec_set_report(s, id, data, payload_utf8).resp[0] == data[0],
{
    let r = spec_set_report(s, id, data, payload_utf8);
    let p = report_payload(data);
    lemma_decode_code(data[0]);
    match spec_try_from_byte(data[0]) {
        Ok(Cmd::GetAttributes) => {
            assert(r.resp == frame(seq![0x83u8, 25u8] + attributes_for(id)));
        },
        Ok(Cmd::GetStrings) => {},
        Ok(Cmd::ReadBond) => {},
        Ok(Cmd::GetSettingByPath) => {},
        Err(b) => {
            let n = if p.len() < ECHO_MAX {
                p.len() as int
            } else {
                ECHO_MAX as int
            };
            assert(r.resp == frame(seq![b, report_len_byte(data)] + p.take(n)));
        },
        _ => {},
    }
    assert(r.resp.len() == 63);
    assert(r.resp[0] == data[0]);
}

/// A report with an unknown command byte is echoed back: byte 0 is the
/// command byte, byte 1 the report's own length byte (whatever the payload's
/// real length), then the first payload bytes, at most 60 of them, and zeros
/// after those.
pub proof fn lemma_unknown_command_echo(
    s: PuckSlotState,
    id: ReportId,
    data: Seq<u8>,
    payload_utf8: bool,
)
    requires
        data.len() >= 2,
        spec_try_from_byte(data[0]) is Err,
    ensures
        ({
            let r = spec_set_report(s, id, data, payload_utf8).resp;
            let n = if data.len() - 2 < 60 {
                data.len() - 2
            } else {
                60
            };
            &&& r[0] == data[0]
            &&& r[1] == data[1]
            &&& forall|k: int| 2 <= k < 2 + n ==> r[k] == data[k]
            &&& forall|k: int| 2 + n <= k < 63 ==> r[k] == 0
        }),
{
    let p = report_payload(data);
    let n = if data.len() - 2 < 60 {
        data.len() - 2
    } else {
        60
    };
    assert(p.len() == data.len() - 2);
    let r = spec_set_report(s, id, data, payload_utf8).resp;
    assert(r == frame(seq![data[0], data[1]] + p.take(n)));
    assert forall|k: int| 2 <= k < 2 + n implies r[k] == data[k] by {
        assert(p[k - 2] == data[k]);
    }
}

/// The wireless transport setting reads 2, whether or not the slot holds a
/// bond: a `GetSettingByPath` whose payload is valid UTF-8 and starts with
/// "user/wireless_transport" is answered 0xED, 0x01, 0x02 and zeros.
pub proof fn lemma_wireless_transport_setting(
    s: PuckSlotState,
    id: ReportId,
    data: Seq<u8>,
)
    requires
        data.len() > 0,
        data[0] == 0xED,
        has_prefix(report_payload(data), WIRELESS_TRANSPORT_PATH@),
    ensures
        ({
            let r = spec_set_report(s, id, data, true).resp;
            &&& r.len() == 63
            &&& r[0] == 0xED
            &&& r[1] == 0x01
            &&& r[2] == 0x02
            &&& forall|k: int| 3 <= k < 63 ==> r[k] == 0
        }),
{
    let p = report_payload(data);
    assert(p[0] == WIRELESS_TRANSPORT_PATH@[0]);
    assert(!has_prefix(p, ESB_BOND_PATH@)) by {
        if has_prefix(p, ESB_BOND_PATH@) {
            assert(p[0] == ESB_BOND_PATH@[0]);
        }
    }
    let r = spec_set_report(s, id, data, true).resp;
    assert(r == frame(seq![0xEDu8, 0x01u8, 0x02u8]));
}

/// `GetAttributes` answers the identity attributes: 0x83, their length 25,
/// then `ATTR83`, except that on feature report 1 the product byte (response
/// byte 3) says "controller".
pub proof fn lemma_get_attributes(s: PuckSlotState, id: ReportId, data: Seq<u8>, payload_utf8: bool)
    requires
        data.len() > 0,
        data[0] == 0x83,
    ensures
        ({
            let r = spec_set_report(s, id, data, payload_utf8).resp;
            &&& r[0] == 0x83
            &&& r[1] == ATTR83_LEN
            &&& forall|k: int| 2 <= k < 27 && k != 3 ==> r[k] == ATTR83@[k - 2]
            &&& r[3] == (if id == ReportId::Feature(1) {
                PROD_ID_CTRL
            } else {
                ATTR83@[1]
            })
            &&& forall|k: int| 27 <= k < 63 ==> r[k] == 0
        }),
{
    let r = spec_set_report(s, id, data, payload_utf8).resp;
    assert(r == frame(seq![0x83u8, 25u8] + attributes_for(id)));
}

/// `GetStrings` for string 0, 1 or 4 of a bonded slot answers the identity
/// half of the bond (bond bytes 8 to 23) after the index; otherwise it
/// answers "NA". The index is the first payload byte, 1 when there is none.
pub proof fn lemma_get_strings(s: PuckSlotState, id: ReportId, data: Seq<u8>, payload_utf8: bool)
    requires
        s.wf(),
        data.len() > 0,
        data[0] == 0xAE,
    ensures
        ({
            let r = spec_set_report(s, id, data, payload_utf8).resp;
            let idx: u8 = if data.len() > 2 {
                data[2]
            } else {
                1
            };
            &&& r[0] == 0xAE
            &&& r[1] == 0x14
            &&& r[2] == idx
            &&& (s.has_bond && (idx == 0 || idx == 1 || idx == 4)) ==> forall|k: int|
                3 <= k < 19 ==> r[k] == s.bond[k + 5]
            &&& !(s.has_bond && (idx == 0 || idx == 1 || idx == 4)) ==> (r[3] == 0x4E && r[4]
                == 0x41)
        }),
{
    let r = spec_set_report(s, id, data, payload_utf8).resp;
    let p = report_payload(data);
    if data.len() > 2 {
        assert(p[0] == data[2]);
    }
}

} // verus!
