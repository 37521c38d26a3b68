//! The two collaborators the driver talks to, and the record it keeps of that talk.
use vstd::prelude::*;

verus! {

/// A two-wire bus on which the driver addresses the device with a 7-bit address.
///
/// Implementations hand bytes to the device and report failures in `Error`;
/// the driver never retries and never looks inside an error.
pub trait I2cBus {
    type Error;

    /// Writes `bytes` to the device at `address` in one transaction.
    fn write(&mut self, address: u8, bytes: &[u8]) -> Result<(), Self::Error>;

    /// Writes `bytes`, then fills `buffer` from the device in one transaction.
    fn write_read(&mut self, address: u8, bytes: &[u8], buffer: &mut [u8]) -> Result<
        (),
        Self::Error,
    >;
}

/// A provider of fixed waits.
pub trait DelayUs {
    /// Waits at least `us` microseconds.
    fn delay_us(&mut self, us: u32);
}

/// One interaction of the driver with its collaborators, in the order issued.
pub enum Transaction {
    /// A write of `bytes` to the device at `address`; `ok` when the bus reported success.
    Write { address: u8, bytes: Seq<u8>, ok: bool },
    /// A write of `bytes` followed by a read that produced `read`; `ok` when the bus
    /// reported success (`read` is then what the device sent).
    WriteRead { address: u8, bytes: Seq<u8>, read: Seq<u8>, ok: bool },
    /// A wait of `us` microseconds.
    Delay { us: u32 },
}

} // verus!
