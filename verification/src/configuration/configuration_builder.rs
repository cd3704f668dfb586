use vstd::prelude::*;
use crate::configuration::configuration_attributes::ConfigurationAttributes;
use crate::configuration::configuration_descriptor::ConfigurationDescriptor;
use crate::configuration::milliamperes::Milliamperes;
use crate::error::CompileError;
use crate::interface::interface_builder::InterfaceBuilder;
use crate::model::{ConfigurationSpec, InterfaceSpec};
use crate::string::string_builder::StringBuidler;

verus! {

/// A configuration as the author of a device writes it down, with its
/// name and its interfaces.
#[derive(Debug, PartialEq, Eq)]
pub struct ConfigurationBuilder {
    /// Turns into `bConfigurationValue`
    pub configuration_value: u8,
    /// Turns into `bmAttributes`
    pub attributes: ConfigurationAttributes,
    /// Max power consumption of the USB device from the bus in milliamperes. (Will be divided by to to fit u8 later)
    pub max_power: Milliamperes,
    /// Turns into `configuration`
    pub configuration: StringBuidler,
    /// Turns into `num_interfaces`
    pub interfaces: Vec<InterfaceBuilder>,
}

/// The interfaces of a list as mathematical values.
pub open spec fn interface_specs(interfaces: Seq<InterfaceBuilder>) -> Seq<InterfaceSpec> {
    Seq::new(interfaces.len(), |i: int| interfaces[i]@)
}

impl View for ConfigurationBuilder {
    type V = ConfigurationSpec;

    open spec fn view(&self) -> ConfigurationSpec {
        ConfigurationSpec {
            configuration_value: self.configuration_value,
            attributes: self.attributes,
            max_power: self.max_power,
            configuration: self.configuration@,
            interfaces: interface_specs(self.interfaces@),
        }
    }
}

impl Clone for ConfigurationBuilder {
    fn clone(&self) -> (copy: Self)
        ensures
            copy@ == self@,
    {
        let mut interfaces = Vec::<InterfaceBuilder>::new();
        let mut i: usize = 0;
        while i < self.interfaces.len()
            invariant
                i <= self.interfaces.len(),
                interfaces@.len() == i,
                forall|k: int| 0 <= k < i ==> (#[trigger] interfaces@[k])@ == self.interfaces@[k]@,
            decreases self.interfaces.len() - i,
        {
            let item = self.interfaces[i].clone();
            interfaces.push(item);
            i = i + 1;
        }
        assert(interface_specs(interfaces@) =~= interface_specs(self.interfaces@));
        ConfigurationBuilder {
            configuration_value: self.configuration_value,
            attributes: self.attributes,
            max_power: self.max_power,
            configuration: self.configuration.clone(),
            interfaces,
        }
    }
}

impl ConfigurationBuilder {
    /// Makes the configuration's descriptor with the given total length,
    /// number of interfaces, configuration value and index for its name.
    pub fn build(
        &self,
        total_length: u16,
        num_interfaces: u8,
        configuration_value: u8,
        configuration: u8,
    ) -> (r: Result<ConfigurationDescriptor, CompileError>)
        ensures
            r == self@.build(total_length, num_interfaces, configuration_value, configuration),
    {
        if num_interfaces == 0 {
            return Err(CompileError::EmptyRequiredCollection);
        }
        Ok(
            ConfigurationDescriptor {
                total_length,
                num_interfaces,
                configuration_value,
                configuration,
                attributes: self.attributes,
                max_power: self.max_power,
            },
        )
    }
}

} // verus!
