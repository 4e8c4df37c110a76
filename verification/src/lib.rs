//! Driver logic for the BQ769x0 family of battery-monitoring analog front ends.
//!
//! The crate turns currents, voltages and delays into register bit
//! patterns, frames register transactions with the optional per-byte CRC-8,
//! and converts raw ADC codes into calibrated millivolts. The byte transport
//! itself is supplied by the caller as a [`RegisterBus`] and handed to the
//! driver inside a [`Wire`], which records every transaction for the
//! contracts to speak of.
//!
//! - [`units`]: unit-typed integers.
//! - [`checksum`] and [`frame`]: the CRC-8 and the framing of reads and
//!   writes.
//! - [`protection`]: comparator delays, sense ranges and trip levels.
//! - [`adc`]: the calibrated transfer function and the trip codes of the
//!   voltage comparators.
//! - [`config`]: from a configuration to the bytes of the protection
//!   registers.
//! - [`cells`], [`control`], [`status`]: the cell-voltage block, the
//!   control registers and the status register.
//! - [`bus`] and [`protocol`]: the transport, its record, and what each
//!   operation asks of the bus.
//! - [`device`]: the session with one device.

pub mod units;
pub mod error;
pub mod checksum;
pub mod frame;
pub mod protection;
pub mod adc;
pub mod status;
pub mod bus;
pub mod protocol;
pub mod control;
pub mod config;
pub mod cells;
pub mod device;

pub use adc::AdcTransferFunction;
pub use bus::{Exchange, RegisterBus, TransportError, Wire};
pub use cells::{BQ76920, BQ76930, BQ76940};
pub use config::{CalculatedValues, Config, ProtectionPlan};
pub use control::{CoulombCounterMode, Temperature, TemperatureSource};
pub use device::BQ769x0;
pub use error::Error;
pub use protection::{
    OCDDelay, OCDSCDRange, OCDThreshold, OVDelay, SCDDelay, SCDThreshold, UVDelay,
};
pub use protocol::Link;
pub use status::{Stat, SysStat};
pub use units::{Amperes, DegreesCentigrade, MicroOhms, MilliAmperes, MilliVolts};
