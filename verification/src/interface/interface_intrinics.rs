use vstd::prelude::*;
use crate::error::CompileError;
use crate::interface::interface_descriptor::InterfaceDescriptor;
use crate::interface::interface_device_class::InterfaceDeviceClass;
use crate::model::interface_descriptor_of;

verus! {

/// What an interface node says of itself, without its name and its
/// endpoints.
#[derive(Debug, Copy, Clone, PartialEq, Eq, Structural)]
pub struct InterfaceIntrinics {
    /// Turns into `bAlternateSetting`
    pub alternate_setting: u8,
    /// Turns into `bInterfaceClass`
    pub interface_class: InterfaceDeviceClass,
    /// Turns into `bInterfaceSubClass`
    pub interface_suclass: u8,
    /// Turns into `bInterfaceProtocol`
    pub interface_protocol: u8,
}

impl InterfaceIntrinics {
    /// Makes the interface's descriptor under the given number, with the
    /// given index for its name and the given number of endpoints.
    pub fn build(&self, interface_number: u8, interface: u8, num_endpoints: u8) -> (r: Result<
        InterfaceDescriptor,
        CompileError,
    >)
        ensures
            r == interface_descriptor_of(
                self.alternate_setting,
                self.interface_class.class(),
                self.interface_suclass,
                self.interface_protocol,
                interface_number,
                interface,
                num_endpoints,
            ),
    {
        if num_endpoints == 0 {
            return Err(CompileError::EmptyRequiredCollection);
        }
        match self.interface_class.validate(self.interface_suclass, self.interface_protocol) {
            Ok(()) => {},
            Err(e) => return Err(CompileError::Validation(e)),
        }
        Ok(
            InterfaceDescriptor {
                interface_number,
                alternate_setting: self.alternate_setting,
                num_endpoints,
                interface_class: self.interface_class.to_interface_class(),
                interface_suclass: self.interface_suclass,
                interface_protocol: self.interface_protocol,
                interface,
            },
        )
    }
}

} // verus!
