use vstd::prelude::*;
use crate::descriptor_type::DescriptorType;
use crate::hid::hid_descriptor::{HidDescriptor, HID_DESCRIPTOR_LENGTH};
use crate::version::Version;

verus! {

/// A HID descriptor as the author of a device writes it down.
#[derive(Debug, Clone, Copy, PartialEq, Eq, Structural)]
pub struct HidBuilder {
    /// Turns into `bcdHID`
    pub bcd_hid: Version,
    /// Turns into `bCountryCode`
    pub country_code: u8,
}

impl HidBuilder {
    /// Makes the HID descriptor that announces the given number of report
    /// descriptors, of the given length together.
    pub fn build(&self, num_descriptors: u8, report_descriptor_length: u16) -> (descriptor:
        HidDescriptor)
        ensures
            descriptor == (HidDescriptor {
                length: HID_DESCRIPTOR_LENGTH,
                descriptor_type: DescriptorType::Hid,
                bcd_hid: self.bcd_hid,
                country_code: self.country_code,
                num_descriptors,
                report_descriptor_type: DescriptorType::Report,
                report_descriptor_length,
            }),
    {
        HidDescriptor {
            length: HID_DESCRIPTOR_LENGTH,
            descriptor_type: DescriptorType::Hid,
            bcd_hid: self.bcd_hid,
            country_code: self.country_code,
            num_descriptors,
            report_descriptor_type: DescriptorType::Report,
            report_descriptor_length,
        }
    }
}

} // verus!
