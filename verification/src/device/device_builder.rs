use vstd::prelude::*;
use crate::configuration::configuration_builder::ConfigurationBuilder;
use crate::device::device_class::DeviceClass;
use crate::device::device_descriptor::DeviceDescriptor;
use crate::error::ValidationError;
use crate::model::{ConfigurationSpec, DeviceSpec};
use crate::string::string_builder::StringBuidler;
use crate::version::Version;

verus! {

/// A device as its author writes it down, with its three names and its
/// configurations.
pub struct DeviceBuilder {
    /// Turns into `bcdUSB`
    pub usb: Version,
    /// Turns into `bDeviceClass`
    pub device_class: DeviceClass,
    /// Turns into `bDeviceSubClass`
    pub device_suclass: u8,
    /// Turns into `bDeviceProtocol`
    pub device_protocol: u8,
    /// Turns into `bMaxPacketSize0`
    pub max_packet_size_0: u8,
    /// Turns into `idVendor`
    pub id_vendor: u16,
    /// Turns into `idProduct`
    pub id_product: u16,
    /// Turns into `bcdDevice`
    pub device: Version,
    /// Turns into `iManufacturer`
    pub manufacturer: StringBuidler,
    /// Turns into `iProduct`
    pub product: StringBuidler,
    /// Turns into `iSerialNumber`
    pub serial_number: StringBuidler,
    /// Turns into `bNumConfigurations`
    pub configurations: Vec<ConfigurationBuilder>,
}

/// The configurations of a list as mathematical values.
pub open spec fn configuration_specs(configurations: Seq<ConfigurationBuilder>) -> Seq<
    ConfigurationSpec,
> {
    Seq::new(configurations.len(), |i: int| configurations[i]@)
}

impl View for DeviceBuilder {
    type V = DeviceSpec;

    open spec fn view(&self) -> DeviceSpec {
        DeviceSpec {
            usb: self.usb,
            device_class: self.device_class,
            device_suclass: self.device_suclass,
            device_protocol: self.device_protocol,
            max_packet_size_0: self.max_packet_size_0,
            id_vendor: self.id_vendor,
            id_product: self.id_product,
            device: self.device,
            manufacturer: self.manufacturer@,
            product: self.product@,
            serial_number: self.serial_number@,
            configurations: configuration_specs(self.configurations@),
        }
    }
}

impl DeviceBuilder {
    /// Makes the device's descriptor with the given number of
    /// configurations and the given indices for its three names.
    pub fn build(&self, num_configurations: u8, manufacturer: u8, product: u8, serial_number: u8) -> (r:
        Result<DeviceDescriptor, ValidationError>)
        ensures
            r == self@.build(num_configurations, manufacturer, product, serial_number),
    {
        match self.device_class.validate(self.device_suclass, self.device_protocol) {
            Ok(()) => {},
            Err(e) => return Err(e),
        }
        Ok(
            DeviceDescriptor {
                usb: self.usb,
                device_class: self.device_class,
                device_suclass: self.device_suclass,
                device_protocol: self.device_protocol,
                max_packet_size_0: self.max_packet_size_0,
                id_vendor: self.id_vendor,
                id_product: self.id_product,
                device: self.device,
                manufacturer,
                product,
                serial_number,
                num_configurations,
            },
        )
    }
}

} // verus!
