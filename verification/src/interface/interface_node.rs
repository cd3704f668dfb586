use vstd::prelude::*;
use crate::endpoint::endpoint_intrinsics::EndpointIntrinsics;
use crate::interface::interface_device_class::InterfaceDeviceClass;
use crate::interface::interface_intrinics::InterfaceIntrinics;
use crate::model::{EndpointSpec, InterfaceSpec};
use crate::string::string_intrinsics::StringIntrinsics;

verus! {

/// An interface in a tree of nodes, with its name and its endpoints.
#[derive(Debug, PartialEq, Eq)]
pub struct InterfaceNode {
    /// Turns into `bAlternateSetting`
    pub alternate_setting: u8,
    /// Turns into `bInterfaceClass`
    pub interface_class: InterfaceDeviceClass,
    /// Turns into `bInterfaceSubClass`
    pub interface_suclass: u8,
    /// Turns into `bInterfaceProtocol`
    pub interface_protocol: u8,
    /// Turns into `iInterface`
    pub interface: StringIntrinsics,
    /// Turns into `bNumEndpoints`
    pub endpoints: Vec<EndpointIntrinsics>,
}

/// The endpoints of a list as mathematical values.
pub open spec fn endpoint_node_specs(endpoints: Seq<EndpointIntrinsics>) -> Seq<EndpointSpec> {
    Seq::new(endpoints.len(), |i: int| endpoints[i]@)
}

impl View for InterfaceNode {
    type V = InterfaceSpec;

    open spec fn view(&self) -> InterfaceSpec {
        InterfaceSpec {
            alternate_setting: self.alternate_setting,
            interface_class: self.interface_class.class(),
            interface_suclass: self.interface_suclass,
            interface_protocol: self.interface_protocol,
            interface: self.interface@,
            endpoints: endpoint_node_specs(self.endpoints@),
        }
    }
}

impl Clone for InterfaceNode {
    fn clone(&self) -> (copy: Self)
        ensures
            copy@ == self@,
    {
        let mut endpoints = Vec::<EndpointIntrinsics>::new();
        let mut i: usize = 0;
        while i < self.endpoints.len()
            invariant
                i <= self.endpoints.len(),
                endpoints@.len() == i,
                forall|k: int| 0 <= k < i ==> (#[trigger] endpoints@[k])@ == self.endpoints@[k]@,
            decreases self.endpoints.len() - i,
        {
            let item = self.endpoints[i];
            endpoints.push(item);
            i = i + 1;
        }
        assert(endpoint_node_specs(endpoints@) =~= endpoint_node_specs(self.endpoints@));
        InterfaceNode {
            alternate_setting: self.alternate_setting,
            interface_class: self.interface_class,
            interface_suclass: self.interface_suclass,
            interface_protocol: self.interface_protocol,
            interface: self.interface.clone(),
            endpoints,
        }
    }
}

impl InterfaceNode {
    /// What the node says of the interface itself.
    pub fn get_interface(&self) -> (interface: InterfaceIntrinics)
        ensures
            interface == (InterfaceIntrinics {
                alternate_setting: self.alternate_setting,
                interface_class: self.interface_class,
                interface_suclass: self.interface_suclass,
                interface_protocol: self.interface_protocol,
            }),
    {
        InterfaceIntrinics {
            alternate_setting: self.alternate_setting,
            interface_class: self.interface_class,
            interface_suclass: self.interface_suclass,
            interface_protocol: self.interface_protocol,
        }
    }
}

} // verus!
