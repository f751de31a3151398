//! USB side: protocol constants and the HID feature-report handler.
pub mod sc_puck_bond;
pub mod vars;
