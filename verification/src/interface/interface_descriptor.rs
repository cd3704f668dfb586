use vstd::prelude::*;
use crate::binary::EncodeByte;
use crate::descriptor::Descriptor;
use crate::descriptor_type::DescriptorType;
use crate::error::{EncodingError, ValidationError};
use crate::interface::interface_class::{interface_class_accepts, InterfaceClass};

verus! {

pub const INTERFACE_DESCRIPTOR_LENGTH: u8 = 9;

pub const INTERFACE_DESCRIPTOR_TYPE: DescriptorType = DescriptorType::Interface;

/// An interface descriptor: one function of the device within a
/// configuration.
#[derive(Debug, Clone, Copy, PartialEq, Eq, Structural)]
pub struct InterfaceDescriptor {
    /// Turns into `bInterfaceNumber`
    pub interface_number: u8,
    /// Turns into `bAlternateSetting`
    pub alternate_setting: u8,
    /// Turns into `bNumEndpoints`
    pub num_endpoints: u8,
    /// Turns into `bInterfaceClass`
    pub interface_class: InterfaceClass,
    /// Turns into `bInterfaceSubClass`
    pub interface_suclass: u8,
    /// Turns into `bInterfaceProtocol`
    pub interface_protocol: u8,
    /// Turns into `iInterface`
    pub interface: u8,
}

impl InterfaceDescriptor {
    /// The nine bytes of the record, whatever its class says of its
    /// subclass and protocol.
    pub open spec fn layout(self) -> Seq<u8> {
        seq![
            INTERFACE_DESCRIPTOR_LENGTH,
            INTERFACE_DESCRIPTOR_TYPE.code(),
            self.interface_number,
            self.alternate_setting,
            self.num_endpoints,
            self.interface_class.code(),
            self.interface_suclass,
            self.interface_protocol,
            self.interface,
        ]
    }
}

impl Descriptor for InterfaceDescriptor {
    /// The layout, for a class that defines the subclass and protocol.
    open spec fn encoded(&self) -> Result<Seq<u8>, EncodingError> {
        if interface_class_accepts(
            self.interface_class,
            self.interface_suclass,
            self.interface_protocol,
        ) {
            Ok(self.layout())
        } else {
            Err(EncodingError::Validation(ValidationError::IncompatibleSubclassProtocol))
        }
    }

    open spec fn descriptor_type(&self) -> DescriptorType {
        INTERFACE_DESCRIPTOR_TYPE
    }

    /// An interface is told from others by its interface number.
    open spec fn index(&self) -> u8 {
        self.interface_number
    }

    fn encode(&self) -> (r: Result<Vec<u8>, EncodingError>) {
        match self.interface_class.validate(self.interface_suclass, self.interface_protocol) {
            Ok(()) => {},
            Err(e) => return Err(EncodingError::Validation(e)),
        }
        let class: u8 = match self.interface_class.encode() {
            Ok(code) => code,
            Err(e) => return Err(EncodingError::Range(e)),
        };

        let mut bytes = Vec::<u8>::new();
        bytes.push(INTERFACE_DESCRIPTOR_LENGTH);
        bytes.push(0x04);
        bytes.push(self.interface_number);
        bytes.push(self.alternate_setting);
        bytes.push(self.num_endpoints);
        bytes.push(class);
        bytes.push(self.interface_suclass);
        bytes.push(self.interface_protocol);
        bytes.push(self.interface);
        assert(bytes@ =~= self.layout());
        Ok(bytes)
    }

    fn get_descriptor_type(&self) -> (t: DescriptorType) {
        INTERFACE_DESCRIPTOR_TYPE
    }

    fn get_w_value(&self) -> (w_value: u16) {
        let number: u16 = self.interface_number as u16;
        0x0400 + number
    }
}

} // verus!
