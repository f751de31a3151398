use ropk::usb::sc_puck_bond::{OutResponse, ReportId, ScPuckSlot};
use ropk::usb::vars::{Cmd, ATTR83, ATTR83_LEN, PROD_ID_CTRL, PROD_ID_PUCK, USB_PROD_ID_STEAM, USB_VENDOR_ID};

const FEATURE: ReportId = ReportId::Feature(0);

fn send(slot: &mut ScPuckSlot, id: ReportId, data: &[u8]) -> Vec<u8> {
    assert_eq!(slot.set_report(id, data), OutResponse::Accepted);
    let mut buf = [0u8; 64];
    let n = slot.get_report(id, &mut buf).unwrap();
    buf[..n].to_vec()
}

fn bond_bytes() -> [u8; 24] {
    let mut b = [0u8; 24];
    for (i, x) in b.iter_mut().enumerate() {
        *x = i as u8 + 1;
    }
    b
}

fn write_bond_report(bond: &[u8]) -> Vec<u8> {
    let mut d = vec![0xA2, 24];
    d.extend_from_slice(bond);
    d
}

#[test]
fn constants() {
    assert_eq!(USB_VENDOR_ID, 0x28DE);
    assert_eq!(USB_PROD_ID_STEAM, 0x1142);
    assert_eq!(PROD_ID_PUCK, 0x04);
    assert_eq!(PROD_ID_CTRL, 0x02);
    assert_eq!(ATTR83_LEN, ATTR83.len());
}

#[test]
fn cmd_codes_round_trip() {
    let all = [
        (Cmd::GetAttributes, 0x83u8),
        (Cmd::GetStrings, 0xAE),
        (Cmd::GetConnectionState, 0xB4),
        (Cmd::SetPairingMode, 0xAD),
        (Cmd::WriteBond, 0xA2),
        (Cmd::ReadBond, 0xA3),
        (Cmd::SetSettingsValues, 0x87),
        (Cmd::GetSettingsValues, 0x89),
        (Cmd::GetSettingByPath, 0xED),
    ];
    for (c, b) in all {
        assert_eq!(c.code(), b);
        assert_eq!(Cmd::try_from(b), Ok(c));
        assert_eq!(Cmd::from_byte(b), Ok(c));
    }
}

#[test]
fn cmd_unknown_bytes() {
    for b in 0..=255u8 {
        let known = [0x83u8, 0xAE, 0xB4, 0xAD, 0xA2, 0xA3, 0x87, 0x89, 0xED].contains(&b);
        match Cmd::try_from(b) {
            Ok(c) => {
                assert!(known);
                assert_eq!(c.code(), b);
            }
            Err(e) => {
                assert!(!known);
                assert_eq!(e, b);
            }
        }
    }
}

#[test]
fn new_slot_has_no_response() {
    let mut slot = ScPuckSlot::new();
    let mut buf = [0xEEu8; 8];
    assert_eq!(slot.get_report(FEATURE, &mut buf), Some(0));
    assert_eq!(buf, [0xEE; 8]);
}

#[test]
fn empty_report_changes_nothing() {
    let mut slot = ScPuckSlot::new();
    assert_eq!(slot.set_report(FEATURE, &[]), OutResponse::Accepted);
    let mut buf = [0u8; 64];
    assert_eq!(slot.get_report(FEATURE, &mut buf), Some(0));
}

#[test]
fn get_attributes() {
    let mut slot = ScPuckSlot::new();
    let r = send(&mut slot, FEATURE, &[0x83]);
    assert_eq!(r.len(), 63);
    assert_eq!(r[0], 0x83);
    assert_eq!(r[1], 25);
    assert_eq!(&r[2..27], &ATTR83);
    assert!(r[27..].iter().all(|&b| b == 0));
}

#[test]
fn get_attributes_on_feature_report_1_says_controller() {
    let mut slot = ScPuckSlot::new();
    let r = send(&mut slot, ReportId::Feature(1), &[0x83]);
    assert_eq!(r[2], 0x01);
    assert_eq!(r[3], PROD_ID_CTRL);
    assert_eq!(&r[4..27], &ATTR83[2..]);
}

#[test]
fn get_strings_unbonded() {
    let mut slot = ScPuckSlot::new();
    let r = send(&mut slot, FEATURE, &[0xAE]);
    assert_eq!(&r[..5], &[0xAE, 0x14, 1, b'N', b'A']);
    let r = send(&mut slot, FEATURE, &[0xAE, 1, 4]);
    assert_eq!(&r[..5], &[0xAE, 0x14, 4, b'N', b'A']);
}

#[test]
fn get_strings_bonded() {
    let mut slot = ScPuckSlot::new();
    let bond = bond_bytes();
    send(&mut slot, FEATURE, &write_bond_report(&bond));
    for idx in [0u8, 1, 4] {
        let r = send(&mut slot, FEATURE, &[0xAE, 1, idx]);
        assert_eq!(&r[..3], &[0xAE, 0x14, idx]);
        assert_eq!(&r[3..19], &bond[8..24]);
        assert_eq!(r[19], 0);
    }
    let r = send(&mut slot, FEATURE, &[0xAE, 1, 2]);
    assert_eq!(&r[..5], &[0xAE, 0x14, 2, b'N', b'A']);
}

#[test]
fn connection_state_and_pairing_and_settings() {
    let mut slot = ScPuckSlot::new();
    assert_eq!(&send(&mut slot, FEATURE, &[0xB4])[..4], &[0xB4, 1, 1, 0]);
    assert_eq!(&send(&mut slot, FEATURE, &[0xAD, 5, 1])[..3], &[0xAD, 0, 0]);
    assert_eq!(&send(&mut slot, FEATURE, &[0x87, 2, 1, 2])[..3], &[0x87, 0, 0]);
    assert_eq!(&send(&mut slot, FEATURE, &[0x89, 1, 0x2A])[..4], &[0x89, 3, 0x2A, 0]);
    assert_eq!(&send(&mut slot, FEATURE, &[0x89])[..4], &[0x89, 3, 0, 0]);
}

#[test]
fn read_bond_after_write_bond() {
    let mut slot = ScPuckSlot::new();
    let bond = bond_bytes();
    let r = send(&mut slot, FEATURE, &write_bond_report(&bond));
    assert_eq!(&r[..3], &[0xA2, 0, 0]);
    let r = send(&mut slot, FEATURE, &[0xA3]);
    assert_eq!(&r[..2], &[0xA3, 0x18]);
    assert_eq!(&r[2..26], &bond);
    assert!(r[26..].iter().all(|&b| b == 0));
}

#[test]
fn read_bond_unbonded_is_zero() {
    let mut slot = ScPuckSlot::new();
    let r = send(&mut slot, FEATURE, &[0xA3]);
    assert_eq!(&r[..2], &[0xA3, 0x18]);
    assert!(r[2..].iter().all(|&b| b == 0));
}

#[test]
fn zero_bond_clears_slot() {
    let mut slot = ScPuckSlot::new();
    send(&mut slot, FEATURE, &write_bond_report(&bond_bytes()));
    send(&mut slot, FEATURE, &write_bond_report(&[0u8; 24]));
    let r = send(&mut slot, FEATURE, &[0xA3]);
    assert!(r[2..26].iter().all(|&b| b == 0));
    let r = send(&mut slot, FEATURE, &[0xAE, 1, 1]);
    assert_eq!(&r[..5], &[0xAE, 0x14, 1, b'N', b'A']);
}

#[test]
fn short_bond_write_is_ignored() {
    let mut slot = ScPuckSlot::new();
    let bond = bond_bytes();
    send(&mut slot, FEATURE, &write_bond_report(&bond));
    let r = send(&mut slot, FEATURE, &write_bond_report(&[9u8; 23]));
    assert_eq!(&r[..2], &[0xA2, 0]);
    let r = send(&mut slot, FEATURE, &[0xA3]);
    assert_eq!(&r[2..26], &bond);
}

#[test]
fn long_bond_write_keeps_first_24_bytes() {
    let mut slot = ScPuckSlot::new();
    let mut long = bond_bytes().to_vec();
    long.extend_from_slice(&[0x77, 0x78]);
    send(&mut slot, FEATURE, &write_bond_report(&long));
    let r = send(&mut slot, FEATURE, &[0xA3]);
    assert_eq!(&r[2..26], &long[..24]);
    assert_eq!(r[26], 0);
}

fn path_report(path: &[u8]) -> Vec<u8> {
    let mut d = vec![0xED, path.len() as u8];
    d.extend_from_slice(path);
    d
}

#[test]
fn setting_by_path_bond() {
    let mut slot = ScPuckSlot::new();
    let r = send(&mut slot, FEATURE, &path_report(b"esb/bond"));
    assert_eq!(&r[..3], &[0xED, 0, 0]);
    let bond = bond_bytes();
    send(&mut slot, FEATURE, &write_bond_report(&bond));
    let r = send(&mut slot, FEATURE, &path_report(b"esb/bond/extra"));
    assert_eq!(&r[..2], &[0xED, 0x18]);
    assert_eq!(&r[2..26], &bond);
}

#[test]
fn setting_by_path_wireless_transport() {
    let mut slot = ScPuckSlot::new();
    let r = send(&mut slot, FEATURE, &path_report(b"user/wireless_transport"));
    assert_eq!(&r[..4], &[0xED, 1, 2, 0]);
    let r = send(&mut slot, FEATURE, &path_report(b"user/other"));
    assert_eq!(&r[..3], &[0xED, 0, 0]);
}

#[test]
fn setting_by_path_invalid_utf8() {
    let mut slot = ScPuckSlot::new();
    let mut p = b"user/wireless_transport".to_vec();
    p.push(0xFF);
    let r = send(&mut slot, FEATURE, &path_report(&p));
    assert_eq!(&r[..3], &[0xED, 0, 0]);
}

#[test]
fn unknown_command_echoes_payload() {
    let mut slot = ScPuckSlot::new();
    let r = send(&mut slot, FEATURE, &[0x42, 3, 7, 8, 9]);
    assert_eq!(&r[..5], &[0x42, 3, 7, 8, 9]);
    assert_eq!(r[5], 0);
    let r = send(&mut slot, FEATURE, &[0x01]);
    assert_eq!(&r[..2], &[0x01, 0]);
}

#[test]
fn unknown_command_echo_is_cut_at_60() {
    let mut slot = ScPuckSlot::new();
    let mut d = vec![0x10, 0xFF];
    d.extend((0..70u8).map(|x| x + 1));
    let r = send(&mut slot, FEATURE, &d);
    assert_eq!(r.len(), 63);
    assert_eq!(&r[2..62], &d[2..62]);
    assert_eq!(r[62], 0);
}

#[test]
fn get_report_into_small_buffer() {
    let mut slot = ScPuckSlot::new();
    slot.set_report(FEATURE, &[0xB4]);
    let mut buf = [0xEEu8; 2];
    assert_eq!(slot.get_report(FEATURE, &mut buf), Some(2));
    assert_eq!(buf, [0xB4, 1]);
    let mut buf = [0xEEu8; 70];
    assert_eq!(slot.get_report(FEATURE, &mut buf), Some(63));
    assert_eq!(buf[63], 0xEE);
}
