use vstd::prelude::*;
use crate::binary::EncodeByte;
use crate::configuration::configuration_attributes::ConfigurationAttributes;
use crate::configuration::configuration_descriptor::ConfigurationDescriptor;
use crate::configuration::milliamperes::Milliamperes;
use crate::descriptor_type::DescriptorType;
use crate::error::CompileError;
use crate::model::checked_configuration_descriptor_of;

verus! {

/// What a configuration node says of itself, without its name and its
/// interfaces.
#[derive(Debug, Clone, Copy, PartialEq, Eq, Structural)]
pub struct ConfigurationIntrinsics {
    /// The kind of descriptor that the node stands for. What `build`
    /// makes is a configuration descriptor whatever stands here.
    pub descriptor_type: DescriptorType,
    /// Turns into `bmAttributes`
    pub attributes: ConfigurationAttributes,
    /// Turns into `bMaxPower`
    pub max_power: Milliamperes,
}

impl ConfigurationIntrinsics {
    /// Makes the configuration's descriptor with the given total length,
    /// number of interfaces, configuration value and index for its name,
    /// unless there is no interface or the power is above 500 mA.
    pub fn build(
        &self,
        total_length: u16,
        num_interfaces: u8,
        configuration_value: u8,
        configuration: u8,
    ) -> (r: Result<ConfigurationDescriptor, CompileError>)
        ensures
            r == checked_configuration_descriptor_of(
                self.attributes,
                self.max_power,
                total_length,
                num_interfaces,
                configuration_value,
                configuration,
            ),
    {
        if num_interfaces == 0 {
            return Err(CompileError::EmptyRequiredCollection);
        }
        match self.max_power.encode() {
            Ok(_) => {},
            Err(e) => return Err(CompileError::Range(e)),
        }
        Ok(
            ConfigurationDescriptor {
                total_length,
                num_interfaces,
                configuration_value,
                configuration,
                attributes: self.attributes,
                max_power: self.max_power,
            },
        )
    }
}

} // verus!
