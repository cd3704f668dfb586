use vstd::prelude::*;
use crate::error::CompileError;
use crate::interface::interface_descriptor::InterfaceDescriptor;
use crate::interface::interface_device_class::InterfaceDeviceClass;
use crate::model::interface_descriptor_of;

verus! {

/// An interface under the field names of its descriptor.
#[derive(Debug, Copy, Clone, PartialEq, Eq, Structural)]
pub struct Interface {
    pub b_alternate_setting: u8,
    pub b_interface_class: InterfaceDeviceClass,
    pub b_interface_sub_class: u8,
    pub b_interface_protocol: u8,
}

impl Interface {
    /// Makes the interface's descriptor under the given number, with the
    /// given index for its name and the given number of endpoints.
    pub fn build(&self, b_interface_number: u8, i_interface: u8, b_num_endpoints: u8) -> (r: Result<
        InterfaceDescriptor,
        CompileError,
    >)
        ensures
            r == interface_descriptor_of(
                self.b_alternate_setting,
                self.b_interface_class.class(),
                self.b_interface_sub_class,
                self.b_interface_protocol,
                b_interface_number,
                i_interface,
                b_num_endpoints,
            ),
    {
        if b_num_endpoints == 0 {
            return Err(CompileError::EmptyRequiredCollection);
        }
        match self.b_interface_class.validate(self.b_interface_sub_class, self.b_interface_protocol) {
            Ok(()) => {},
            Err(e) => return Err(CompileError::Validation(e)),
        }
        Ok(
            InterfaceDescriptor {
                interface_number: b_interface_number,
                alternate_setting: self.b_alternate_setting,
                num_endpoints: b_num_endpoints,
                interface_class: self.b_interface_class.to_interface_class(),
                interface_suclass: self.b_interface_sub_class,
                interface_protocol: self.b_interface_protocol,
                interface: i_interface,
            },
        )
    }
}

} // verus!
