use vstd::prelude::*;
use crate::binary::EncodeByte;
use crate::error::RangeError;

verus! {

/// How an endpoint moves its data.
#[derive(Debug, Copy, Clone, PartialEq, Eq, Structural)]
pub enum TransferType {
    Control,
    Isochronous,
    Bulk,
    Interrupt,
}

impl TransferType {
    /// The two-bit code of the transfer type.
    pub open spec fn code(self) -> u8 {
        match self {
            TransferType::Control => 0,
            TransferType::Isochronous => 1,
            TransferType::Bulk => 2,
            TransferType::Interrupt => 3,
        }
    }
}

impl EncodeByte for TransferType {
    open spec fn encoded(&self) -> Result<u8, RangeError> {
        Ok(self.code())
    }

    fn encode(&self) -> (r: Result<u8, RangeError>) {
        match *self {
            TransferType::Control => Ok(0x00),
            TransferType::Isochronous => Ok(0x01),
            TransferType::Bulk => Ok(0x02),
            TransferType::Interrupt => Ok(0x03),
        }
    }
}

} // verus!
