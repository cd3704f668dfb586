use vstd::prelude::*;
use crate::binary::{le_bytes_u16, EncodeByte};
use crate::descriptor::Descriptor;
use crate::descriptor_type::DescriptorType;
use crate::endpoint::endpoint_address::EndpointAddress;
use crate::endpoint::endpoint_attributes::EndpointAttributes;
use crate::error::EncodingError;

verus! {

pub const ENDPOINT_DESCRIPTOR_LENGTH: u8 = 7;

pub const ENDPOINT_DESCRIPTOR_TYPE: DescriptorType = DescriptorType::Endpoint;

/// An endpoint descriptor: one pipe of an interface.
#[derive(Debug, Clone, Copy, PartialEq, Eq, Structural)]
pub struct EndpointDescriptor {
    /// Turns into `bLength`
    pub length: u8,
    /// Turns into `bEndpointAddress`
    pub endpoint_address: EndpointAddress,
    /// Turns into `bmAttributes`
    pub attributes: EndpointAttributes,
    /// Turns into `wMaxPacketSize`
    pub max_packet_size: u16,
    /// Turns into `bInterval`
    pub interval: u8,
}

impl EndpointDescriptor {
    /// The seven bytes that follow from the record's fields, the first of
    /// them its own `length`.
    pub open spec fn layout(self) -> Seq<u8> {
        seq![
            self.length,
            ENDPOINT_DESCRIPTOR_TYPE.code(),
            self.endpoint_address.code(),
            self.attributes.code(),
            (self.max_packet_size % 256) as u8,
            (self.max_packet_size / 256) as u8,
            self.interval,
        ]
    }
}

impl Descriptor for EndpointDescriptor {
    /// The layout, where the record's `length` is the length of the layout.
    open spec fn encoded(&self) -> Result<Seq<u8>, EncodingError> {
        if self.length == ENDPOINT_DESCRIPTOR_LENGTH {
            Ok(self.layout())
        } else {
            Err(EncodingError::LengthMismatch)
        }
    }

    open spec fn descriptor_type(&self) -> DescriptorType {
        ENDPOINT_DESCRIPTOR_TYPE
    }

    /// An endpoint is told from others by its address byte.
    open spec fn index(&self) -> u8 {
        self.endpoint_address.code()
    }

    fn encode(&self) -> (r: Result<Vec<u8>, EncodingError>) {
        let address: u8 = match self.endpoint_address.encode() {
            Ok(byte) => byte,
            Err(e) => return Err(EncodingError::Range(e)),
        };
        let attributes: u8 = match self.attributes.encode() {
            Ok(byte) => byte,
            Err(e) => return Err(EncodingError::Range(e)),
        };
        let size = le_bytes_u16(self.max_packet_size);

        let mut bytes = Vec::<u8>::new();
        bytes.push(self.length);
        bytes.push(0x05);
        bytes.push(address);
        bytes.push(attributes);
        bytes.push(size.0);
        bytes.push(size.1);
        bytes.push(self.interval);
        assert(bytes@ =~= self.layout());

        if bytes.len() != self.length as usize {
            return Err(EncodingError::LengthMismatch);
        }
        Ok(bytes)
    }

    fn get_descriptor_type(&self) -> (t: DescriptorType) {
        ENDPOINT_DESCRIPTOR_TYPE
    }

    fn get_w_value(&self) -> (w_value: u16) {
        let address: u16 = match self.endpoint_address.encode() {
            Ok(byte) => byte as u16,
            Err(_) => 0,
        };
        0x0500 + address
    }
}

} // verus!
