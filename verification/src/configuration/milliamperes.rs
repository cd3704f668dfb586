use vstd::prelude::*;
use crate::binary::EncodeByte;
use crate::error::RangeError;

verus! {

/// The current that a configuration draws from the bus, in milliamperes.
#[derive(Debug, Copy, Clone, PartialEq, Eq, Structural)]
pub struct Milliamperes(pub u16);

/// The most that the bus delivers to one device, in milliamperes.
pub const MAX_MILLIAMPERES: u16 = 500;

impl EncodeByte for Milliamperes {
    /// Up to 500 mA the value is halved, rounding down; above there is no
    /// byte for it.
    open spec fn encoded(&self) -> Result<u8, RangeError> {
        if self.0 > MAX_MILLIAMPERES {
            Err(RangeError::Milliamperes)
        } else {
            Ok((self.0 / 2) as u8)
        }
    }

    fn encode(&self) -> (r: Result<u8, RangeError>) {
        if self.0 > MAX_MILLIAMPERES {
            return Err(RangeError::Milliamperes);
        }
        let half: u16 = self.0 / 2;
        Ok(half as u8)
    }
}

} // verus!
