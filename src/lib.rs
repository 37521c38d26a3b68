//! Driver for the PCA9685 16-channel, 12-bit PWM controller on an I2C bus.
//!
//! The driver keeps a shadow of the two mode registers and builds every
//! operation from bus writes and reads whose bytes and order its contracts
//! state. Each handle records, as ghost state, the transactions it issued
//! (`Pca9685::history`); the contracts say how each call extends that record
//! and what it does to the shadow (`Pca9685::shadow`). The bus and the delay
//! are traits (`I2cBus`, `DelayUs`) that the user implements for the platform.
use vstd::prelude::*;
use nb::Error as NbError;

pub mod bus;
pub mod channels;
pub mod config;
pub mod device_impl;
pub mod device_model;
pub mod register_access;
pub mod types;

pub use nb;

pub use crate::bus::{DelayUs, I2cBus, Transaction};
pub use crate::channels::{FULL_ON_OFF, MAX_COUNTER};
pub use crate::config::{BitFlag, BitFlagMode1, BitFlagMode2, Config};
pub use crate::register_access::Register;
pub use crate::types::{
    Address, Channel, ChannelOnOffControl, DisabledOutputValue, Error, OutputDriver,
    OutputLogicState, OutputStateChange, Pca9685, ProgrammableAddress, DEVICE_BASE_ADDRESS,
};

verus! {

/// Declares `nb::Error` of the `nb` crate, the error of the non-blocking
/// result that `restart_nonblocking` returns. Verus reads its two public
/// variants, `Other(E)` and `WouldBlock`, from the crate itself.
#[verifier::external_type_specification]
#[verifier::reject_recursive_types(E)]
pub struct ExNbError<E>(NbError<E>);

} // verus!
