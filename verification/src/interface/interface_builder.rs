use vstd::prelude::*;
use crate::endpoint::endpoint_builder::EndpointBuilder;
use crate::error::CompileError;
use crate::interface::interface_class::InterfaceClass;
use crate::interface::interface_descriptor::InterfaceDescriptor;
use crate::model::{EndpointSpec, InterfaceSpec};
use crate::string::string_builder::StringBuidler;

verus! {

/// An interface as the author of a device writes it down, with its name
/// and its endpoints.
#[derive(Debug, PartialEq, Eq)]
pub struct InterfaceBuilder {
    /// Turns into `bAlternateSetting`
    pub alternate_setting: u8,
    /// Turns into `bInterfaceClass`
    pub interface_class: InterfaceClass,
    /// Turns into `bInterfaceSubClass`
    pub interface_suclass: u8,
    /// Turns into `bInterfaceProtocol`
    pub interface_protocol: u8,
    /// Turns into `iInterface`
    pub interface: StringBuidler,
    /// Turns into `bNumEndpoints`
    pub endpoints: Vec<EndpointBuilder>,
}

/// The endpoints of a list as mathematical values.
pub open spec fn endpoint_specs(endpoints: Seq<EndpointBuilder>) -> Seq<EndpointSpec> {
    Seq::new(endpoints.len(), |i: int| endpoints[i]@)
}

impl View for InterfaceBuilder {
    type V = InterfaceSpec;

    open spec fn view(&self) -> InterfaceSpec {
        InterfaceSpec {
            alternate_setting: self.alternate_setting,
            interface_class: self.interface_class,
            interface_suclass: self.interface_suclass,
            interface_protocol: self.interface_protocol,
            interface: self.interface@,
            endpoints: endpoint_specs(self.endpoints@),
        }
    }
}

impl Clone for InterfaceBuilder {
    fn clone(&self) -> (copy: Self)
        ensures
            copy@ == self@,
    {
        let mut endpoints = Vec::<EndpointBuilder>::new();
        let mut i: usize = 0;
        while i < self.endpoints.len()
            invariant
                i <= self.endpoints.len(),
                endpoints@.len() == i,
                forall|k: int| 0 <= k < i ==> (#[trigger] endpoints@[k])@ == self.endpoints@[k]@,
            decreases self.endpoints.len() - i,
        {
            let item = self.endpoints[i];
            endpoints.push(item);
            i = i + 1;
        }
        assert(endpoint_specs(endpoints@) =~= endpoint_specs(self.endpoints@));
        InterfaceBuilder {
            alternate_setting: self.alternate_setting,
            interface_class: self.interface_class,
            interface_suclass: self.interface_suclass,
            interface_protocol: self.interface_protocol,
            interface: self.interface.clone(),
            endpoints,
        }
    }
}

impl InterfaceBuilder {
    /// Makes the interface's descriptor under the given number, with the
    /// given index for its name and the given number of endpoints.
    pub fn build(&self, interface_number: u8, interface: u8, num_endpoints: u8) -> (r: Result<
        InterfaceDescriptor,
        CompileError,
    >)
        ensures
            r == self@.build(interface_number, interface, num_endpoints),
    {
        if num_endpoints == 0 {
            return Err(CompileError::EmptyRequiredCollection);
        }
        match self.interface_class.validate(self.interface_suclass, self.interface_protocol) {
            Ok(()) => {},
            Err(e) => return Err(CompileError::Validation(e)),
        }
        Ok(
            InterfaceDescriptor {
                interface_number,
                alternate_setting: self.alternate_setting,
                num_endpoints,
                interface_class: self.interface_class,
                interface_suclass: self.interface_suclass,
                interface_protocol: self.interface_protocol,
                interface,
            },
        )
    }
}

} // verus!
