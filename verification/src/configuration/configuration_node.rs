use vstd::prelude::*;
use crate::configuration::configuration_attributes::ConfigurationAttributes;
use crate::configuration::configuration_intrinsics::ConfigurationIntrinsics;
use crate::configuration::milliamperes::Milliamperes;
use crate::descriptor_type::DescriptorType;
use crate::interface::interface_node::InterfaceNode;
use crate::model::{ConfigurationSpec, InterfaceSpec};
use crate::string::string_intrinsics::StringIntrinsics;

verus! {

/// A configuration in a tree of nodes, with its name and its interfaces.
#[derive(Debug, PartialEq, Eq)]
pub struct ConfigurationNode {
    /// Turns into `bConfigurationValue`
    pub configuration_value: u8,
    /// Turns into `bmAttributes`
    pub attributes: ConfigurationAttributes,
    /// Max power consumption of the USB device from the bus in milliamperes. (Will be divided by to to fit u8 later)
    pub max_power: Milliamperes,
    /// Turns into `configuration`
    pub configuration: StringIntrinsics,
    /// Turns into `num_interfaces`
    pub interfaces: Vec<InterfaceNode>,
}

/// The interfaces of a list as mathematical values.
pub open spec fn interface_node_specs(interfaces: Seq<InterfaceNode>) -> Seq<InterfaceSpec> {
    Seq::new(interfaces.len(), |i: int| interfaces[i]@)
}

impl View for ConfigurationNode {
    type V = ConfigurationSpec;

    open spec fn view(&self) -> ConfigurationSpec {
        ConfigurationSpec {
            configuration_value: self.configuration_value,
            attributes: self.attributes,
            max_power: self.max_power,
            configuration: self.configuration@,
            interfaces: interface_node_specs(self.interfaces@),
        }
    }
}

impl Clone for ConfigurationNode {
    fn clone(&self) -> (copy: Self)
        ensures
            copy@ == self@,
    {
        let mut interfaces = Vec::<InterfaceNode>::new();
        let mut i: usize = 0;
        while i < self.interfaces.len()
            invariant
                i <= self.interfaces.len(),
                interfaces@.len() == i,
                forall|k: int| 0 <= k < i ==> (#[trigger] interfaces@[k])@ == self.interfaces@[k]@,
            decreases self.interfaces.len() - i,
        {
            let item = self.interfaces[i].clone();
            interfaces.push(item);
            i = i + 1;
        }
        assert(interface_node_specs(interfaces@) =~= interface_node_specs(self.interfaces@));
        ConfigurationNode {
            configuration_value: self.configuration_value,
            attributes: self.attributes,
            max_power: self.max_power,
            configuration: self.configuration.clone(),
            interfaces,
        }
    }
}

impl ConfigurationNode {
    /// What the node says of the configuration itself.
    pub fn get_configuration(&self) -> (configuration: ConfigurationIntrinsics)
        ensures
            configuration == (ConfigurationIntrinsics {
                descriptor_type: DescriptorType::Configuration,
                attributes: self.attributes,
                max_power: self.max_power,
            }),
    {
        ConfigurationIntrinsics {
            descriptor_type: DescriptorType::Configuration,
            attributes: self.attributes,
            max_power: self.max_power,
        }
    }
}

} // verus!
