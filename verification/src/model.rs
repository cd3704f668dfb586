use vstd::prelude::*;
use crate::configuration::configuration_attributes::ConfigurationAttributes;
use crate::configuration::configuration_descriptor::ConfigurationDescriptor;
use crate::configuration::milliamperes::{Milliamperes, MAX_MILLIAMPERES};
use crate::device::device_class::{device_class_accepts, DeviceClass};
use crate::device::device_descriptor::DeviceDescriptor;
use crate::endpoint::endpoint_address::EndpointAddress;
use crate::endpoint::endpoint_attributes::EndpointAttributes;
use crate::endpoint::endpoint_descriptor::{EndpointDescriptor, ENDPOINT_DESCRIPTOR_LENGTH};
use crate::error::{CompileError, RangeError, ValidationError};
use crate::interface::interface_class::{interface_class_accepts, InterfaceClass};
use crate::interface::interface_descriptor::InterfaceDescriptor;
use crate::string::string_content::StringContentView;
use crate::version::Version;

verus! {

/// What is said of an endpoint before it has a place among the
/// descriptors of a device.
pub struct EndpointSpec {
    pub endpoint_address: EndpointAddress,
    pub attributes: EndpointAttributes,
    pub max_packet_size: u16,
    pub interval: u8,
}

/// What is said of an interface, with its name and its endpoints.
pub struct InterfaceSpec {
    pub alternate_setting: u8,
    pub interface_class: InterfaceClass,
    pub interface_suclass: u8,
    pub interface_protocol: u8,
    pub interface: StringContentView,
    pub endpoints: Seq<EndpointSpec>,
}

/// What is said of a configuration, with its name and its interfaces.
pub struct ConfigurationSpec {
    pub configuration_value: u8,
    pub attributes: ConfigurationAttributes,
    pub max_power: Milliamperes,
    pub configuration: StringContentView,
    pub interfaces: Seq<InterfaceSpec>,
}

/// What is said of a device, with its three names and its configurations.
pub struct DeviceSpec {
    pub usb: Version,
    pub device_class: DeviceClass,
    pub device_suclass: u8,
    pub device_protocol: u8,
    pub max_packet_size_0: u8,
    pub id_vendor: u16,
    pub id_product: u16,
    pub device: Version,
    pub manufacturer: StringContentView,
    pub product: StringContentView,
    pub serial_number: StringContentView,
    pub configurations: Seq<ConfigurationSpec>,
}

/// The largest packet size that an endpoint may be given.
pub const MAX_PACKET_SIZE: u16 = 255;

/// The descriptor of an endpoint with the given fields: none for a packet
/// size above 255.
pub open spec fn endpoint_descriptor_of(
    endpoint_address: EndpointAddress,
    attributes: EndpointAttributes,
    max_packet_size: u16,
    interval: u8,
) -> Result<EndpointDescriptor, RangeError> {
    if max_packet_size > MAX_PACKET_SIZE {
        Err(RangeError::MaxPacketSize)
    } else {
        Ok(
            EndpointDescriptor {
                length: ENDPOINT_DESCRIPTOR_LENGTH,
                endpoint_address,
                attributes,
                max_packet_size,
                interval,
            },
        )
    }
}

/// The descriptor of an interface with the given fields: none without an
/// endpoint, none for a subclass and protocol that the class does not
/// define.
pub open spec fn interface_descriptor_of(
    alternate_setting: u8,
    interface_class: InterfaceClass,
    interface_suclass: u8,
    interface_protocol: u8,
    interface_number: u8,
    interface: u8,
    num_endpoints: u8,
) -> Result<InterfaceDescriptor, CompileError> {
    if num_endpoints == 0 {
        Err(CompileError::EmptyRequiredCollection)
    } else if !interface_class_accepts(interface_class, interface_suclass, interface_protocol) {
        Err(CompileError::Validation(ValidationError::IncompatibleSubclassProtocol))
    } else {
        Ok(
            InterfaceDescriptor {
                interface_number,
                alternate_setting,
                num_endpoints,
                interface_class,
                interface_suclass,
                interface_protocol,
                interface,
            },
        )
    }
}

/// The descriptor of a configuration with the given fields: none without
/// an interface.
pub open spec fn configuration_descriptor_of(
    attributes: ConfigurationAttributes,
    max_power: Milliamperes,
    total_length: u16,
    num_interfaces: u8,
    configuration_value: u8,
    configuration: u8,
) -> Result<ConfigurationDescriptor, CompileError> {
    if num_interfaces == 0 {
        Err(CompileError::EmptyRequiredCollection)
    } else {
        Ok(
            ConfigurationDescriptor {
                total_length,
                num_interfaces,
                configuration_value,
                configuration,
                attributes,
                max_power,
            },
        )
    }
}

/// As `configuration_descriptor_of`, but none either for a power above
/// 500 mA.
pub open spec fn checked_configuration_descriptor_of(
    attributes: ConfigurationAttributes,
    max_power: Milliamperes,
    total_length: u16,
    num_interfaces: u8,
    configuration_value: u8,
    configuration: u8,
) -> Result<ConfigurationDescriptor, CompileError> {
    if num_interfaces == 0 {
        Err(CompileError::EmptyRequiredCollection)
    } else if max_power.0 > MAX_MILLIAMPERES {
        Err(CompileError::Range(RangeError::Milliamperes))
    } else {
        configuration_descriptor_of(
            attributes,
            max_power,
            total_length,
            num_interfaces,
            configuration_value,
            configuration,
        )
    }
}

/// The descriptor of a device with the given fields: none for a subclass
/// and protocol that the class does not define.
pub open spec fn device_descriptor_of(
    usb: Version,
    device_class: DeviceClass,
    device_suclass: u8,
    device_protocol: u8,
    max_packet_size_0: u8,
    id_vendor: u16,
    id_product: u16,
    device: Version,
    num_configurations: u8,
    manufacturer: u8,
    product: u8,
    serial_number: u8,
) -> Result<DeviceDescriptor, ValidationError> {
    if !device_class_accepts(device_class, device_suclass, device_protocol) {
        Err(ValidationError::IncompatibleSubclassProtocol)
    } else {
        Ok(
            DeviceDescriptor {
                usb,
                device_class,
                device_suclass,
                device_protocol,
                max_packet_size_0,
                id_vendor,
                id_product,
                device,
                manufacturer,
                product,
                serial_number,
                num_configurations,
            },
        )
    }
}

impl EndpointSpec {
    /// The endpoint's descriptor.
    pub open spec fn build(self) -> Result<EndpointDescriptor, RangeError> {
        endpoint_descriptor_of(
            self.endpoint_address,
            self.attributes,
            self.max_packet_size,
            self.interval,
        )
    }
}

impl InterfaceSpec {
    /// The interface's descriptor under the given number, with the given
    /// index for its name and the given number of endpoints.
    pub open spec fn build(self, interface_number: u8, interface: u8, num_endpoints: u8) -> Result<
        InterfaceDescriptor,
        CompileError,
    > {
        interface_descriptor_of(
            self.alternate_setting,
            self.interface_class,
            self.interface_suclass,
            self.interface_protocol,
            interface_number,
            interface,
            num_endpoints,
        )
    }
}

impl ConfigurationSpec {
    /// The configuration's descriptor with the given total length, number
    /// of interfaces, configuration value and index for its name.
    pub open spec fn build(
        self,
        total_length: u16,
        num_interfaces: u8,
        configuration_value: u8,
        configuration: u8,
    ) -> Result<ConfigurationDescriptor, CompileError> {
        configuration_descriptor_of(
            self.attributes,
            self.max_power,
            total_length,
            num_interfaces,
            configuration_value,
            configuration,
        )
    }

    /// As `build`, but none either for a power above 500 mA.
    pub open spec fn build_checked(
        self,
        total_length: u16,
        num_interfaces: u8,
        configuration_value: u8,
        configuration: u8,
    ) -> Result<ConfigurationDescriptor, CompileError> {
        checked_configuration_descriptor_of(
            self.attributes,
            self.max_power,
            total_length,
            num_interfaces,
            configuration_value,
            configuration,
        )
    }
}

impl DeviceSpec {
    /// The device's descriptor with the given number of configurations and
    /// the given indices for its three names.
    pub open spec fn build(
        self,
        num_configurations: u8,
        manufacturer: u8,
        product: u8,
        serial_number: u8,
    ) -> Result<DeviceDescriptor, ValidationError> {
        device_descriptor_of(
            self.usb,
            self.device_class,
            self.device_suclass,
            self.device_protocol,
            self.max_packet_size_0,
            self.id_vendor,
            self.id_product,
            self.device,
            num_configurations,
            manufacturer,
            product,
            serial_number,
        )
    }
}

} // verus!
