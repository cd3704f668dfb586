use vstd::prelude::*;
use crate::endpoint::endpoint_address::EndpointAddress;
use crate::endpoint::endpoint_attributes::EndpointAttributes;
use crate::endpoint::endpoint_descriptor::{EndpointDescriptor, ENDPOINT_DESCRIPTOR_LENGTH};
use crate::error::RangeError;
use crate::model::{EndpointSpec, MAX_PACKET_SIZE};

verus! {

/// An endpoint as it stands in a tree of nodes.
#[derive(Debug, Clone, Copy, PartialEq, Eq, Structural)]
pub struct EndpointIntrinsics {
    /// Turns into `bEndpointAddress`
    pub endpoint_address: EndpointAddress,
    /// Turns into `bmAttributes`
    pub attributes: EndpointAttributes,
    /// Turns into `wMaxPacketSize`
    pub max_packet_size: u16,
    /// Turns into `bInterval`
    pub interval: u8,
}

impl View for EndpointIntrinsics {
    type V = EndpointSpec;

    open spec fn view(&self) -> EndpointSpec {
        EndpointSpec {
            endpoint_address: self.endpoint_address,
            attributes: self.attributes,
            max_packet_size: self.max_packet_size,
            interval: self.interval,
        }
    }
}

impl EndpointIntrinsics {
    /// Makes the endpoint's descriptor, unless its packet size is above 255.
    pub fn build(&self) -> (r: Result<EndpointDescriptor, RangeError>)
        ensures
            r == self@.build(),
    {
        if self.max_packet_size > MAX_PACKET_SIZE {
            return Err(RangeError::MaxPacketSize);
        }
        Ok(
            EndpointDescriptor {
                length: ENDPOINT_DESCRIPTOR_LENGTH,
                endpoint_address: self.endpoint_address,
                attributes: self.attributes,
                max_packet_size: self.max_packet_size,
                interval: self.interval,
            },
        )
    }
}

} // verus!
