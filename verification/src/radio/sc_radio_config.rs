//! The radio settings that a Steam Controller uses, as plain register values.
use vstd::prelude::*;

verus! {

/// Radio modulation mode (the MODE register of the nRF52840 radio).
#[derive(Debug, Clone, Copy, PartialEq, Eq, Structural)]
pub enum RadioMode {
    Nrf1Mbit,
    Nrf2Mbit,
    Ble1Mbit,
    Ble2Mbit,
    BleLr125Kbit,
    BleLr500Kbit,
    Ieee802154250Kbit,
}

impl RadioMode {
    /// The MODE register value of this mode.
    pub open spec fn spec_bits(self) -> u8 {
        match self {
            RadioMode::Nrf1Mbit => 0x00,
            RadioMode::Nrf2Mbit => 0x01,
            RadioMode::Ble1Mbit => 0x03,
            RadioMode::Ble2Mbit => 0x04,
            RadioMode::BleLr125Kbit => 0x05,
            RadioMode::BleLr500Kbit => 0x06,
            RadioMode::Ieee802154250Kbit => 0x0F,
        }
    }

    /// The MODE register value of this mode.
    pub fn bits(self) -> (r: u8)
        ensures
            r == self.spec_bits(),
    {
        match self {
            RadioMode::Nrf1Mbit => 0x00,
            RadioMode::Nrf2Mbit => 0x01,
            RadioMode::Ble1Mbit => 0x03,
            RadioMode::Ble2Mbit => 0x04,
            RadioMode::BleLr125Kbit => 0x05,
            RadioMode::BleLr500Kbit => 0x06,
            RadioMode::Ieee802154250Kbit => 0x0F,
        }
    }
}

/// Address, channel, packet format and CRC settings of the radio.
pub struct SteamControllerRadioConfig {
    pub base: [u8; 4],
    pub prefix: u8,
    pub frequency: u8,
    pub mode: RadioMode,
    pub tx_addr: u32,
    pub rx_addr: u32,
    pub pcnf0: u32,
    pub pcnf1: u32,
    pub crccnf: u32,
    pub crcinit: u32,
    pub crcpoly: u32,
}

impl SteamControllerRadioConfig {
    /// The settings of a Steam Controller: base address "ibex", prefix 0x10,
    /// channel 2 (2402 MHz), BLE 2 Mbit/s, logical address 0 for sending
    /// and receiving, 8-bit length field, payloads of up to 0x60 bytes with a
    /// 4-byte base address, and a 16-bit CRC (polynomial 0x11021, initial
    /// value 0xFFFF).
    pub fn steam_controller() -> (r: SteamControllerRadioConfig)
        ensures
            r.base@ == seq![0x69u8, 0x62u8, 0x65u8, 0x78u8],
            r.prefix == 0x10,
            r.frequency == 2,
            r.mode == RadioMode::Ble2Mbit,
            r.tx_addr == 0,
            r.rx_addr == 0,
            r.pcnf0 == 0x0003_0008,
            r.pcnf1 == 0x0104_0060,
            r.crccnf == 2,
            r.crcpoly == 0x11021,
            r.crcinit == 0xFFFF,
    {
        SteamControllerRadioConfig {
            base: [0x69, 0x62, 0x65, 0x78],
            prefix: 0x10,
            frequency: 2,
            mode: RadioMode::Ble2Mbit,
            tx_addr: 0,
            rx_addr: 0,
            pcnf0: 0x0003_0008,
            pcnf1: 0x0104_0060,
            crccnf: 2,
            crcpoly: 0x11021,
            crcinit: 0xFFFF,
        }
    }
}

} // verus!
