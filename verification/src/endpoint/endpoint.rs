use vstd::prelude::*;
use crate::endpoint::endpoint_address::EndpointAddress;
use crate::endpoint::endpoint_attributes::EndpointAttributes;
use crate::endpoint::endpoint_descriptor::{EndpointDescriptor, ENDPOINT_DESCRIPTOR_LENGTH};
use crate::error::RangeError;
use crate::model::{EndpointSpec, MAX_PACKET_SIZE};

verus! {

/// An endpoint under the field names of its descriptor.
#[derive(Debug, Clone, Copy, PartialEq, Eq, Structural)]
pub struct Endpoint {
    pub b_endpoint_address: EndpointAddress,
    pub bm_attributes: EndpointAttributes,
    pub w_max_packet_size: u16,
    pub b_interval: u8,
}

impl View for Endpoint {
    type V = EndpointSpec;

    open spec fn view(&self) -> EndpointSpec {
        EndpointSpec {
            endpoint_address: self.b_endpoint_address,
            attributes: self.bm_attributes,
            max_packet_size: self.w_max_packet_size,
            interval: self.b_interval,
        }
    }
}

impl Endpoint {
    /// Makes the endpoint's descriptor, unless its packet size is above 255.
    pub fn build(&self) -> (r: Result<EndpointDescriptor, RangeError>)
        ensures
            r == self@.build(),
    {
        if self.w_max_packet_size > MAX_PACKET_SIZE {
            return Err(RangeError::MaxPacketSize);
        }
        Ok(
            EndpointDescriptor {
                length: ENDPOINT_DESCRIPTOR_LENGTH,
                endpoint_address: self.b_endpoint_address,
                attributes: self.bm_attributes,
                max_packet_size: self.w_max_packet_size,
                interval: self.b_interval,
            },
        )
    }
}

} // verus!
