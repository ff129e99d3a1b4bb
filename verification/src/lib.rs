//! Telemetry and control of an unmanned surface vehicle: the registers of
//! its sensor board and the conversion of their raw readings, the messages
//! of its two serial links with their streaming codecs, and the propulsion
//! controller's answers to those messages.
use vstd::prelude::*;

pub mod bme680_registers;
pub mod bmi088_registers;
pub mod bmm150_registers;
pub mod click_driver;
pub mod codec;
pub mod compensation;
pub mod controller;
pub mod framing;
pub mod framing_proofs;
pub mod imu_types;
pub mod microcontroller_types;
pub mod packet_codec;
pub mod registers;
pub mod relay;
pub mod types;
pub mod usb_comms;
pub mod wire;

verus! {

/// Domain on which the vehicle's nodes meet by default.
pub const DEFAULT_DOMAIN: i32 = 50;

/// Name under which the vehicle's nodes publish by default.
pub const DEFAULT_ID: &'static str = "Kingfisher";

} // verus!
