use vstd::prelude::*;
use crate::binary::EncodeByte;
use crate::error::RangeError;

verus! {

/// How an isochronous endpoint keeps its clock.
#[derive(Debug, Copy, Clone, PartialEq, Eq, Structural)]
pub enum SyncType {
    NoSync,
    Asynchronous,
    Adaptive,
    Synchronous,
}

impl SyncType {
    /// The two-bit code of the synchronisation type.
    pub open spec fn code(self) -> u8 {
        match self {
            SyncType::NoSync => 0,
            SyncType::Asynchronous => 1,
            SyncType::Adaptive => 2,
            SyncType::Synchronous => 3,
        }
    }
}

impl EncodeByte for SyncType {
    open spec fn encoded(&self) -> Result<u8, RangeError> {
        Ok(self.code())
    }

    fn encode(&self) -> (r: Result<u8, RangeError>) {
        match *self {
            SyncType::NoSync => Ok(0x00),
            SyncType::Asynchronous => Ok(0x01),
            SyncType::Adaptive => Ok(0x02),
            SyncType::Synchronous => Ok(0x03),
        }
    }
}

} // verus!
