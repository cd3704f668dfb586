use vstd::prelude::*;
use crate::binary::EncodeByte;
use crate::configuration::configuration_attributes::ConfigurationAttributes;
use crate::configuration::configuration_descriptor::ConfigurationDescriptor;
use crate::configuration::milliamperes::Milliamperes;
use crate::descriptor_type::DescriptorType;
use crate::error::CompileError;
use crate::model::checked_configuration_descriptor_of;

verus! {

/// A configuration under the field names of its descriptor.
#[derive(Debug, Clone, Copy, PartialEq, Eq, Structural)]
pub struct Configuration {
    /// The kind of descriptor that the value stands for. What `build`
    /// makes is a configuration descriptor whatever stands here.
    pub b_descriptor_type: DescriptorType,
    pub bm_attributes: ConfigurationAttributes,
    pub b_max_power: Milliamperes,
}

impl Configuration {
    /// Makes the configuration's descriptor with the given total length,
    /// number of interfaces, configuration value and index for its name,
    /// unless there is no interface or the power is above 500 mA.
    pub fn build(
        &self,
        w_total_length: u16,
        b_num_interfaces: u8,
        b_configuration_value: u8,
        i_configuration: u8,
    ) -> (r: Result<ConfigurationDescriptor, CompileError>)
        ensures
            r == checked_configuration_descriptor_of(
                self.bm_attributes,
                self.b_max_power,
                w_total_length,
                b_num_interfaces,
                b_configuration_value,
                i_configuration,
            ),
    {
        if b_num_interfaces == 0 {
            return Err(CompileError::EmptyRequiredCollection);
        }
        match self.b_max_power.encode() {
            Ok(_) => {},
            Err(e) => return Err(CompileError::Range(e)),
        }
        Ok(
            ConfigurationDescriptor {
                total_length: w_total_length,
                num_interfaces: b_num_interfaces,
                configuration_value: b_configuration_value,
                configuration: i_configuration,
                attributes: self.bm_attributes,
                max_power: self.b_max_power,
            },
        )
    }
}

} // verus!
