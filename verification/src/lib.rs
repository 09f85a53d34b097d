//! Firmware core of a battery-powered wireless temperature sensor node that
//! imitates a commercial 433 MHz on-off-keyed sensor protocol.
//!
//! The crate holds the protocol and control logic only: the whitening-table
//! checksum, the fixed-point temperature codec, frame assembly, the pulse-timed
//! transmitter, watchdog and power-register models, and the duty-cycle state
//! machine. Hardware access goes through the small traits the drivers are
//! generic over, or stays with the caller.

pub mod checksum;
pub mod codec;
pub mod message;
pub mod radio;
pub mod watchdog;
pub mod power;
pub mod tmp102;
pub mod controller;
