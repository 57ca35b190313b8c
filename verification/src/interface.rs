//! The transport capability: a narrow blocking byte-level interface to the
//! physical bus. Implementations live outside the verified core; the
//! contracts here are what the driver's proofs rely on.

use vstd::prelude::*;

pub mod i2c;

verus! {

/// Byte-level transport to the sensor hub. `read_bytes` hands back exactly
/// the requested number of bytes or fails; `write_bytes` writes all bytes
/// or fails. The error type is opaque to the driver and only forwarded.
/// Nothing is promised about the bytes a read returns: they come from the
/// device.
pub trait ComInterface: Sized {
    type ComError;

    /// Prepare the bus for use.
    fn setup(&mut self) -> Result<(), Self::ComError>;

    /// Read exactly `len` bytes from the bus.
    fn read_bytes(&mut self, len: usize) -> (r: Result<Vec<u8>, Self::ComError>)
        ensures
            r matches Ok(v) ==> v@.len() == len,
    ;

    /// Write all of `packet` to the bus.
    fn write_bytes(&mut self, packet: &[u8]) -> Result<(), Self::ComError>;
}

} // verus!
