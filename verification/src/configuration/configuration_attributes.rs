use vstd::prelude::*;
use crate::binary::EncodeByte;
use crate::error::RangeError;

verus! {

/// The `bmAttributes` of a configuration.
#[derive(Debug, Copy, Clone, PartialEq, Eq, Structural)]
pub struct ConfigurationAttributes {
    pub self_powered: bool,
    pub remote_wakeup: bool,
}

impl ConfigurationAttributes {
    /// The attribute byte: bit 7 is always set, bit 6 says that the device
    /// powers itself, bit 5 that it can wake the host, bits 0 to 4 are zero.
    pub open spec fn code(self) -> u8 {
        (128 + (if self.self_powered { 64int } else { 0 }) + (if self.remote_wakeup { 32int } else { 0 })) as u8
    }
}

impl EncodeByte for ConfigurationAttributes {
    open spec fn encoded(&self) -> Result<u8, RangeError> {
        Ok(self.code())
    }

    fn encode(&self) -> (r: Result<u8, RangeError>) {
        // D7 Reserved, set to 1. (USB 1.0 Bus Powered)
        // D6 Self Powered
        // D5 Remote Wakeup
        // D4..0 Reserved, set to 0.
        let mut byte: u8 = 0b1000_0000;
        if self.self_powered {
            byte = byte + 0b0100_0000;
        }
        if self.remote_wakeup {
            byte = byte + 0b0010_0000;
        }
        Ok(byte)
    }
}

} // verus!
