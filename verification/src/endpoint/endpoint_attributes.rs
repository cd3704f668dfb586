use vstd::prelude::*;
use crate::binary::EncodeByte;
use crate::endpoint::sync_type::SyncType;
use crate::endpoint::transfer_type::TransferType;
use crate::endpoint::usage_type::UsageType;
use crate::error::RangeError;

verus! {

/// The `bmAttributes` of an endpoint.
#[derive(Debug, Copy, Clone, PartialEq, Eq, Structural)]
pub struct EndpointAttributes {
    pub transfer_type: TransferType,
    pub sync_type: SyncType,
    pub usage_type: UsageType,
}

impl EndpointAttributes {
    /// The attribute byte: transfer type in bits 0 and 1, synchronisation
    /// type in bits 2 and 3, usage type in bits 4 and 5.
    pub open spec fn code(self) -> u8 {
        (self.transfer_type.code() + 4 * self.sync_type.code() + 16 * self.usage_type.code()) as u8
    }
}

/// The byte of `EndpointAttributes::code` is the three codes shifted to
/// their places.
pub proof fn lemma_endpoint_attributes_bits(transfer: u8, sync: u8, usage: u8)
    requires
        transfer <= 3,
        sync <= 3,
        usage <= 3,
    ensures
        (transfer + 4 * sync + 16 * usage) as u8 == transfer | (sync << 2) | (usage << 4),
{
    assert((transfer + 4 * sync + 16 * usage) as u8 == transfer | (sync << 2) | (usage << 4))
        by (bit_vector)
        requires
            transfer <= 3,
            sync <= 3,
            usage <= 3,
    ;
}

impl EncodeByte for EndpointAttributes {
    open spec fn encoded(&self) -> Result<u8, RangeError> {
        Ok(self.code())
    }

    // Bits 0..1 Transfer Type
    //   00 = Control
    //   01 = Isochronous
    //   10 = Bulk
    //   11 = Interrupt
    // Bits 2..7 are reserved. If Isochronous endpoint,
    // Bits 3..2 = Synchronisation Type (Iso Mode)
    //   00 = No Synchonisation
    //   01 = Asynchronous
    //   10 = Adaptive
    //   11 = Synchronous
    // Bits 5..4 = Usage Type (Iso Mode)
    //   00 = Data Endpoint
    //   01 = Feedback Endpoint
    //   10 = Explicit Feedback Data Endpoint
    //   11 = Reserved
    fn encode(&self) -> (r: Result<u8, RangeError>) {
        let transfer_type: u8 = match self.transfer_type.encode() {
            Ok(b) => b,
            Err(e) => return Err(e),
        };
        let sync_type: u8 = match self.sync_type.encode() {
            Ok(b) => b,
            Err(e) => return Err(e),
        };
        let usage_type: u8 = match self.usage_type.encode() {
            Ok(b) => b,
            Err(e) => return Err(e),
        };
        proof {
            lemma_endpoint_attributes_bits(transfer_type, sync_type, usage_type);
        }
        Ok(transfer_type | (sync_type << 2) | (usage_type << 4))
    }
}

} // verus!
