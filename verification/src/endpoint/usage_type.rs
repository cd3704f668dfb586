use vstd::prelude::*;
use crate::binary::EncodeByte;
use crate::error::RangeError;

verus! {

/// What an isochronous endpoint is used for.
#[derive(Debug, Copy, Clone, PartialEq, Eq, Structural)]
pub enum UsageType {
    Data,
    Feedback,
    ImplicitFeedbackData,
}

impl UsageType {
    /// The two-bit code of the usage type.
    pub open spec fn code(self) -> u8 {
        match self {
            UsageType::Data => 0,
            UsageType::Feedback => 1,
            UsageType::ImplicitFeedbackData => 2,
        }
    }
}

impl EncodeByte for UsageType {
    open spec fn encoded(&self) -> Result<u8, RangeError> {
        Ok(self.code())
    }

    fn encode(&self) -> (r: Result<u8, RangeError>) {
        match *self {
            UsageType::Data => Ok(0x00),
            UsageType::Feedback => Ok(0x01),
            UsageType::ImplicitFeedbackData => Ok(0x02),
        }
    }
}

} // verus!
