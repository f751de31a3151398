//! USB identifiers, the identity attribute block and the feature-report
//! command codes of the puck protocol.
use vstd::prelude::*;

verus! {

/// USB vendor id of the puck.
pub const USB_VENDOR_ID: u16 = 0x28DE;

/// USB product id of the puck.
pub const USB_PROD_ID_STEAM: u16 = 0x1142;

/// Product byte that identifies a puck (product 0x1304).
pub const PROD_ID_PUCK: u8 = 0x04;

/// Product byte that identifies a controller (product 0x1302).
pub const PROD_ID_CTRL: u8 = 0x02;

/// Identity attributes answered to `GetAttributes`.
pub const ATTR83: [u8; 25] = [
    0x01, 0x04, 0x13, 0x00, 0x00, 0x02, 0x00, 0x00, 0x00,
    0x00, 0x0A, 0xF2, 0xF9, 0xD2, 0x68, 0x04, 0x53, 0xD0,
    0x18, 0x6A, 0x09, 0x47, 0x00, 0x00, 0x00,
];

/// Number of bytes in `ATTR83`.
pub const ATTR83_LEN: usize = 25;

/// Feature-report command codes understood by the puck.
#[derive(Debug, Clone, Copy, PartialEq, Eq, Structural)]
pub enum Cmd {
    GetAttributes,
    GetStrings,
    GetConnectionState,
    SetPairingMode,
    WriteBond,
    ReadBond,
    SetSettingsValues,
    GetSettingsValues,
    GetSettingByPath,
}

impl Cmd {
    /// The byte that encodes this command on the wire.
    pub open spec fn spec_code(self) -> u8 {
        match self {
            Cmd::GetAttributes => 0x83,
            Cmd::GetStrings => 0xAE,
            Cmd::GetConnectionState => 0xB4,
            Cmd::SetPairingMode => 0xAD,
            Cmd::WriteBond => 0xA2,
            Cmd::ReadBond => 0xA3,
            Cmd::SetSettingsValues => 0x87,
            Cmd::GetSettingsValues => 0x89,
            Cmd::GetSettingByPath => 0xED,
        }
    }

    /// The command that a byte encodes, if any.
    pub open spec fn spec_from_byte(value: u8) -> Option<Cmd> {
        if value == 0x83 {
            Some(Cmd::GetAttributes)
        } else if value == 0xAE {
            Some(Cmd::GetStrings)
        } else if value == 0xB4 {
            Some(Cmd::GetConnectionState)
        } else if value == 0xAD {
            Some(Cmd::SetPairingMode)
        } else if value == 0xA2 {
            Some(Cmd::WriteBond)
        } else if value == 0xA3 {
            Some(Cmd::ReadBond)
        } else if value == 0x87 {
            Some(Cmd::SetSettingsValues)
        } else if value == 0x89 {
            Some(Cmd::GetSettingsValues)
        } else if value == 0xED {
            Some(Cmd::GetSettingByPath)
        } else {
            None
        }
    }

    /// The byte that encodes this command on the wire.
    pub fn code(self) -> (r: u8)
        ensures
            r == self.spec_code(),
    {
        match self {
            Cmd::GetAttributes => 0x83,
            Cmd::GetStrings => 0xAE,
            Cmd::GetConnectionState => 0xB4,
            Cmd::SetPairingMode => 0xAD,
            Cmd::WriteBond => 0xA2,
            Cmd::ReadBond => 0xA3,
            Cmd::SetSettingsValues => 0x87,
            Cmd::GetSettingsValues => 0x89,
            Cmd::GetSettingByPath => 0xED,
        }
    }

    /// Decodes a command byte; an unknown byte is handed back as the error.
    pub fn from_byte(value: u8) -> (r: Result<Cmd, u8>)
        ensures
            r == spec_try_from_byte(value),
    {
        match value {
            0x83 => Ok(Cmd::GetAttributes),
            0xAE => Ok(Cmd::GetStrings),
            0xB4 => Ok(Cmd::GetConnectionState),
            0xAD => Ok(Cmd::SetPairingMode),
            0xA2 => Ok(Cmd::WriteBond),
            0xA3 => Ok(Cmd::ReadBond),
            0x87 => Ok(Cmd::SetSettingsValues),
            0x89 => Ok(Cmd::GetSettingsValues),
            0xED => Ok(Cmd::GetSettingByPath),
            unhandled => Err(unhandled),
        }
    }
}

/// `Ok` with the command that `value` encodes, or `Err(value)` for a byte
/// that encodes none.
pub open spec fn spec_try_from_byte(value: u8) -> Result<Cmd, u8> {
    match Cmd::spec_from_byte(value) {
        Some(c) => Ok(c),
        None => Err(value),
    }
}

impl TryFrom<u8> for Cmd {
    type Error = u8;

    fn try_from(value: u8) -> (r: Result<Cmd, u8>) {
        Cmd::from_byte(value)
    }
}

impl vstd::std_specs::convert::TryFromSpecImpl<u8> for Cmd {
    open spec fn obeys_try_from_spec() -> bool {
        true
    }

    open spec fn try_from_spec(v: u8) -> Result<Cmd, u8> {
        spec_try_from_byte(v)
    }
}

/// Decoding the byte of a command gives the command back.
pub proof fn lemma_code_decodes(c: Cmd)
    ensures
        spec_try_from_byte(c.spec_code()) == Ok::<Cmd, u8>(c),
{
}

/// A byte that decodes to a command is that command's byte.
pub proof fn lemma_decode_code(value: u8)
    ensures
        spec_try_from_byte(value) matches Ok(c) ==> c.spec_code() == value,
        spec_try_from_byte(value) matches Err(e) ==> e == value,
{
}

/// `ATTR83_LEN` is the number of bytes in `ATTR83`.
pub proof fn lemma_attr83_len()
    ensures
        ATTR83@.len() == ATTR83_LEN,
{
}

} // verus!
