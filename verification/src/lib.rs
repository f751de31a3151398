//! Verified core of a Steam Controller wireless receiver ("puck") firmware:
//! radio packet decoding, radio address configuration and the HID
//! feature-report protocol that the host uses to talk to the puck.
pub mod proto;
pub mod radio;
pub mod usb;
pub mod xtask;
