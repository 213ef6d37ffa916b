//! Verified core of a CO2 / temperature / humidity monitor built around the
//! SCD30 sensor: the CRC-8 that guards every word on the wire, the command and
//! response frames of the sensor's two-wire protocol, the polling state machine
//! that sequences the driver calls, and the threshold classifiers that turn a
//! reading into an indicator colour.
//!
//! Nothing here touches hardware. Bus transactions, pins and timers belong to
//! the program around this library, which hands in plain bytes and takes plain
//! decisions back.

pub mod alerts;
pub mod buzzer;
pub mod checksum;
pub mod dk_button;
pub mod ieee754;
pub mod number_representation;
pub mod poll;
pub mod rgb_led;
pub mod scd30;
