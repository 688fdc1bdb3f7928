use vstd::prelude::*;

verus! {

/// The transport capability the driver is polymorphic over: a two-wire
/// bus that can write a register frame to a 7-bit device address and
/// perform a combined write-then-read transaction.
///
/// The driver assumes nothing about a transaction's outcome: each call
/// either succeeds or reports a transport error, and the driver's own
/// contracts hold either way.
pub trait Bus {
    /// The transport's error type.
    type BusError;

    /// Write the 3-byte register frame to the device at the given
    /// address, as one transaction.
    fn write(&mut self, address: u8, bytes: [u8; 3]) -> Result<(), Self::BusError>;

    /// Write the register-address byte, then read two bytes back, as one
    /// transaction.
    fn write_read(&mut self, address: u8, register: u8) -> Result<[u8; 2], Self::BusError>;
}

} // verus!
