use vstd::prelude::*;
use crate::binary::EncodeByte;
use crate::error::RangeError;

verus! {

/// The way the data of an endpoint flows, seen from the host.
#[derive(Debug, Copy, Clone, PartialEq, Eq, Structural)]
pub enum Direction {
    Out,
    In,
}

impl Direction {
    /// 0 for `Out`, 1 for `In`.
    pub open spec fn code(self) -> u8 {
        match self {
            Direction::Out => 0,
            Direction::In => 1,
        }
    }
}

impl EncodeByte for Direction {
    open spec fn encoded(&self) -> Result<u8, RangeError> {
        Ok(self.code())
    }

    fn encode(&self) -> (r: Result<u8, RangeError>) {
        match *self {
            Direction::Out => Ok(0x00),
            Direction::In => Ok(0x01),
        }
    }
}

} // verus!
