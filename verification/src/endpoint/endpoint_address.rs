use vstd::prelude::*;
use crate::binary::EncodeByte;
use crate::endpoint::direction::Direction;
use crate::error::RangeError;

verus! {

/// The number of an endpoint together with its direction.
#[derive(Debug, Copy, Clone, PartialEq, Eq, Structural)]
pub struct EndpointAddress {
    pub endpoint_number: u8,
    /// 0 = Out, 1 = In (Ignored for Control Endpoints)
    pub direction: Direction,
}

impl EndpointAddress {
    /// The address byte: the low four bits of the endpoint number in bits
    /// 0 to 3, the direction in bit 7, and nothing in between.
    pub open spec fn code(self) -> u8 {
        (self.endpoint_number % 16 + 128 * self.direction.code()) as u8
    }
}

/// The byte of `EndpointAddress::code` is the number masked to four bits
/// with the direction shifted into the top bit.
pub proof fn lemma_endpoint_address_bits(number: u8, direction: u8)
    requires
        direction <= 1,
    ensures
        (number % 16 + 128 * direction) as u8 == (number & 0x0F) | (direction << 7),
        ((number & 0x0F) | (direction << 7)) & 0x70 == 0,
{
    assert((number % 16 + 128 * direction) as u8 == (number & 0x0F) | (direction << 7)
        && ((number & 0x0F) | (direction << 7)) & 0x70 == 0) by (bit_vector)
        requires
            direction <= 1,
    ;
}

impl EncodeByte for EndpointAddress {
    open spec fn encoded(&self) -> Result<u8, RangeError> {
        Ok(self.code())
    }

    //     Endpoint Address
    // Bits 0..3b Endpoint Number.
    // Bits 4..6b Reserved. Set to Zero
    // Bits 7 Direction 0 = Out, 1 = In (Ignored for Control Endpoints)
    fn encode(&self) -> (r: Result<u8, RangeError>) {
        let direction: u8 = match self.direction.encode() {
            Ok(bit) => bit,
            Err(e) => return Err(e),
        };
        proof {
            lemma_endpoint_address_bits(self.endpoint_number, direction);
        }
        Ok((self.endpoint_number & 0x0F) | (direction << 7))
    }
}

} // verus!
