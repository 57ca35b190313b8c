//! I2C transport: the sensor hub behind an `embedded_hal` I2C bus.
//! The bus calls themselves are outside the verified core.

use vstd::prelude::*;

verus! {

/// the i2c address normally used by the sensor hub
pub const DEFAULT_ADDRESS: u8 = 0x4A;
/// alternate i2c address for the sensor hub
pub const ALTERNATE_ADDRESS: u8 = 0x4B;

/// A transport that reaches the hub over an I2C bus at a fixed address.
pub struct I2CInterface<I2C> {
    pub interface: I2C,
    pub address: u8,
}

/// Error of the I2C transport; the bus's own error is opaque and is
/// collapsed to this.
#[derive(Debug, PartialEq, Eq, Structural)]
pub enum I2CError {
    Default,
}

impl<I2C> I2CInterface<I2C> {
    /// Wrap an I2C bus, addressing the hub at its default address.
    pub fn new(i2c: I2C) -> (r: Self)
        ensures
            r.interface == i2c,
            r.address == DEFAULT_ADDRESS,
    {
        Self { interface: i2c, address: DEFAULT_ADDRESS }
    }
}

impl<I2C> I2CInterface<I2C> where
    I2C: embedded_hal::i2c::I2c<embedded_hal::i2c::SevenBitAddress>,
{
    /// The I2C bus needs no preparation.
    pub fn setup(&mut self) -> (r: Result<(), I2CError>)
        ensures
            r is Ok,
    {
        Ok(())
    }

    /// Relies on `embedded_hal::i2c::I2c::read`: a bus read fills the
    /// whole buffer with bytes from the device at the stored address or
    /// fails with the bus's error, which is collapsed to `I2CError`.
    #[verifier::external_body]
    pub fn read_bytes(&mut self, len: usize) -> (r: Result<Vec<u8>, I2CError>)
        ensures
            r matches Ok(v) ==> v@.len() == len,
    {
        let mut buf: Vec<u8> = vec![0u8; len];
        match self.interface.read(self.address, &mut buf) {
            Ok(()) => Ok(buf),
            Err(_) => Err(I2CError::Default),
        }
    }

    /// Relies on `embedded_hal::i2c::I2c::write`: a bus write sends
    /// every byte of the slice to the device at the stored address or
    /// fails with the bus's error, which is collapsed to `I2CError`.
    #[verifier::external_body]
    pub fn write_bytes(&mut self, packet: &[u8]) -> Result<(), I2CError> {
        match self.interface.write(self.address, packet) {
            Ok(()) => Ok(()),
            Err(_) => Err(I2CError::Default),
        }
    }
}

} // verus!
