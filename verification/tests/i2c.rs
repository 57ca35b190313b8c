use bno080::interface::i2c::{I2CInterface, DEFAULT_ADDRESS};
use embedded_hal::i2c::{ErrorType, I2c, Operation, SevenBitAddress};

/// An in-memory I2C bus: reads hand out a repeating byte pattern and
/// writes are recorded, along with the address used.
struct FakeBus {
    pattern: Vec<u8>,
    written: Vec<u8>,
    last_address: Option<u8>,
}

impl ErrorType for FakeBus {
    type Error = core::convert::Infallible;
}

impl I2c<SevenBitAddress> for FakeBus {
    fn transaction(
        &mut self,
        address: SevenBitAddress,
        operations: &mut [Operation<'_>],
    ) -> Result<(), Self::Error> {
        self.last_address = Some(address);
        for op in operations.iter_mut() {
            match op {
                Operation::Read(buf) => {
                    for (i, b) in buf.iter_mut().enumerate() {
                        *b = self.pattern[i % self.pattern.len()];
                    }
                }
                Operation::Write(bytes) => {
                    self.written.extend_from_slice(bytes);
                }
            }
        }
        Ok(())
    }
}

#[test]
fn i2c_read_bytes_returns_requested_length_of_bus_data() {
    let bus = FakeBus { pattern: vec![0xAB, 0xCD], written: vec![], last_address: None };
    let mut iface = I2CInterface::new(bus);
    assert_eq!(iface.address, DEFAULT_ADDRESS);
    iface.setup().unwrap();
    let v = iface.read_bytes(5).unwrap();
    assert_eq!(v, vec![0xAB, 0xCD, 0xAB, 0xCD, 0xAB]);
    assert_eq!(iface.interface.last_address, Some(DEFAULT_ADDRESS));
}

#[test]
fn i2c_write_bytes_hands_frame_to_bus() {
    let bus = FakeBus { pattern: vec![0], written: vec![], last_address: None };
    let mut iface = I2CInterface::new(bus);
    iface.write_bytes(&[1, 2, 3]).unwrap();
    assert_eq!(iface.interface.written, vec![1, 2, 3]);
    assert_eq!(iface.interface.last_address, Some(DEFAULT_ADDRESS));
}
