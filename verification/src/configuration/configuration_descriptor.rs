use vstd::prelude::*;
use crate::binary::{le_bytes_u16, EncodeByte};
use crate::configuration::configuration_attributes::ConfigurationAttributes;
use crate::configuration::milliamperes::Milliamperes;
use crate::descriptor::Descriptor;
use crate::descriptor_type::DescriptorType;
use crate::error::EncodingError;

verus! {

pub const CONFIGURATION_DESCRIPTOR_LENGTH: u8 = 9;

pub const CONFIGURATION_DESCRIPTOR_TYPE: DescriptorType = DescriptorType::Configuration;

/// A configuration descriptor: one way in which the device can be set up.
#[derive(Debug, Clone, Copy, PartialEq, Eq, Structural)]
pub struct ConfigurationDescriptor {
    /// Turns into `wTotalLength`
    pub total_length: u16,
    /// Turns into `bNumInterfaces`
    pub num_interfaces: u8,
    /// Turns into `bConfigurationValue`
    pub configuration_value: u8,
    /// Turns into `iConfiguration`
    pub configuration: u8,
    /// Turns into `bmAttributes`
    pub attributes: ConfigurationAttributes,
    /// Turns into `bMaxPower`
    pub max_power: Milliamperes,
}

impl ConfigurationDescriptor {
    /// The nine bytes of the record, given the byte that stands for its
    /// power.
    pub open spec fn layout(self, max_power: u8) -> Seq<u8> {
        seq![
            CONFIGURATION_DESCRIPTOR_LENGTH,
            CONFIGURATION_DESCRIPTOR_TYPE.code(),
            (self.total_length % 256) as u8,
            (self.total_length / 256) as u8,
            self.num_interfaces,
            self.configuration_value,
            self.configuration,
            self.attributes.code(),
            max_power,
        ]
    }
}

impl Descriptor for ConfigurationDescriptor {
    /// The layout with the power in units of 2 mA, where the power is in
    /// range.
    open spec fn encoded(&self) -> Result<Seq<u8>, EncodingError> {
        match self.max_power.encoded() {
            Ok(max_power) => Ok(self.layout(max_power)),
            Err(e) => Err(EncodingError::Range(e)),
        }
    }

    open spec fn descriptor_type(&self) -> DescriptorType {
        CONFIGURATION_DESCRIPTOR_TYPE
    }

    /// A configuration is told from others by its configuration value.
    open spec fn index(&self) -> u8 {
        self.configuration_value
    }

    fn encode(&self) -> (r: Result<Vec<u8>, EncodingError>) {
        let total = le_bytes_u16(self.total_length);
        let attributes: u8 = match self.attributes.encode() {
            Ok(byte) => byte,
            Err(e) => return Err(EncodingError::Range(e)),
        };
        let max_power: u8 = match self.max_power.encode() {
            Ok(byte) => byte,
            Err(e) => return Err(EncodingError::Range(e)),
        };

        let mut bytes = Vec::<u8>::new();
        bytes.push(CONFIGURATION_DESCRIPTOR_LENGTH);
        bytes.push(0x02);
        bytes.push(total.0);
        bytes.push(total.1);
        bytes.push(self.num_interfaces);
        bytes.push(self.configuration_value);
        bytes.push(self.configuration);
        bytes.push(attributes);
        bytes.push(max_power);
        assert(bytes@ =~= self.layout(max_power));
        Ok(bytes)
    }

    fn get_descriptor_type(&self) -> (t: DescriptorType) {
        CONFIGURATION_DESCRIPTOR_TYPE
    }

    fn get_w_value(&self) -> (w_value: u16) {
        let value: u16 = self.configuration_value as u16;
        0x0200 + value
    }
}

} // verus!
