use vstd::prelude::*;
use crate::binary::{le_bytes_u16, EncodeByte, EncodeBytes};
use crate::descriptor::Descriptor;
use crate::descriptor_type::DescriptorType;
use crate::error::EncodingError;
use crate::version::Version;

verus! {

pub const HID_DESCRIPTOR_LENGTH: u8 = 9;

/// A HID descriptor: what a human interface device says of its report
/// descriptor.
#[derive(Debug, Clone, Copy, PartialEq, Eq, Structural)]
pub struct HidDescriptor {
    /// Turns into `bLength`
    pub length: u8,
    /// Turns into `bDescriptorType`
    pub descriptor_type: DescriptorType,
    /// Turns into `bcdHID`
    pub bcd_hid: Version,
    /// Turns into `bCountryCode`
    pub country_code: u8,
    /// Turns into `bNumDescriptors`
    pub num_descriptors: u8,
    /// Turns into `bDescriptorType` for the report descriptor
    pub report_descriptor_type: DescriptorType,
    /// Turns into `wDescriptorLength`
    pub report_descriptor_length: u16,
}

impl HidDescriptor {
    /// The nine bytes that follow from the record's fields, the first of
    /// them its own `length`.
    pub open spec fn layout(self) -> Seq<u8> {
        seq![
            self.length,
            self.descriptor_type.code(),
            self.bcd_hid.minor,
            self.bcd_hid.major,
            self.country_code,
            self.num_descriptors,
            self.report_descriptor_type.code(),
            (self.report_descriptor_length % 256) as u8,
            (self.report_descriptor_length / 256) as u8,
        ]
    }
}

impl Descriptor for HidDescriptor {
    /// The layout, where the record's `length` is the length of the layout.
    open spec fn encoded(&self) -> Result<Seq<u8>, EncodingError> {
        if self.length == HID_DESCRIPTOR_LENGTH {
            Ok(self.layout())
        } else {
            Err(EncodingError::LengthMismatch)
        }
    }

    open spec fn descriptor_type(&self) -> DescriptorType {
        self.descriptor_type
    }

    /// HID descriptors are not numbered.
    open spec fn index(&self) -> u8 {
        0
    }

    fn encode(&self) -> (r: Result<Vec<u8>, EncodingError>) {
        let descriptor_type: u8 = match self.descriptor_type.encode() {
            Ok(code) => code,
            Err(e) => return Err(EncodingError::Range(e)),
        };
        let bcd_hid = match self.bcd_hid.encode() {
            Ok(bytes) => bytes,
            Err(e) => return Err(EncodingError::Range(e)),
        };
        let report_descriptor_type: u8 = match self.report_descriptor_type.encode() {
            Ok(code) => code,
            Err(e) => return Err(EncodingError::Range(e)),
        };
        let report_length = le_bytes_u16(self.report_descriptor_length);

        let mut encoded = Vec::<u8>::new();
        encoded.push(self.length);
        encoded.push(descriptor_type);
        encoded.push(bcd_hid[0]);
        encoded.push(bcd_hid[1]);
        encoded.push(self.country_code);
        encoded.push(self.num_descriptors);
        encoded.push(report_descriptor_type);
        encoded.push(report_length.0);
        encoded.push(report_length.1);
        assert(encoded@ =~= self.layout());

        if encoded.len() != self.length as usize {
            return Err(EncodingError::LengthMismatch);
        }
        Ok(encoded)
    }

    fn get_descriptor_type(&self) -> (t: DescriptorType) {
        self.descriptor_type
    }

    fn get_w_value(&self) -> (w_value: u16) {
        let code: u16 = match self.descriptor_type.encode() {
            Ok(code) => code as u16,
            Err(_) => 0,
        };
        code * 256
    }
}

} // verus!
