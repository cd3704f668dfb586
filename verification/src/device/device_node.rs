use vstd::prelude::*;
use crate::configuration::configuration_node::ConfigurationNode;
use crate::device::bcd_version::BcdVersion;
use crate::device::device_device_class::DeviceDeviceClass;
use crate::device::device_intrinsics::DeviceIntrinsics;
use crate::model::{ConfigurationSpec, DeviceSpec};
use crate::string::string_intrinsics::StringIntrinsics;

verus! {

/// A device as the root of a tree of nodes, with its three names and its
/// configurations.
pub struct DeviceNode {
    /// Turns into `bcdUSB`
    pub bcd_usb: BcdVersion,
    /// Turns into `bDeviceClass`
    pub device_class: DeviceDeviceClass,
    /// Turns into `bDeviceSubClass`
    pub device_suclass: u8,
    /// Turns into `bDeviceProtocol`
    pub device_protocol: u8,
    /// Turns into `bMaxPacketSize0`
    pub max_packet_size_0: u8,
    /// Turns into `idVendor`
    pub id_vendor: u16,
    /// Turns into `idProduct`
    pub id_product: u16,
    /// Turns into `bcdDevice`
    pub bcd_device: BcdVersion,
    /// Turns into `iManufacturer`
    pub manufacturer: StringIntrinsics,
    /// Turns into `iProduct`
    pub product: StringIntrinsics,
    /// Turns into `iSerialNumber`
    pub serial_number: StringIntrinsics,
    /// Turns into `bNumConfigurations`
    pub configurations: Vec<ConfigurationNode>,
}

/// The configurations of a list as mathematical values.
pub open spec fn configuration_node_specs(configurations: Seq<ConfigurationNode>) -> Seq<
    ConfigurationSpec,
> {
    Seq::new(configurations.len(), |i: int| configurations[i]@)
}

impl View for DeviceNode {
    type V = DeviceSpec;

    open spec fn view(&self) -> DeviceSpec {
        DeviceSpec {
            usb: self.bcd_usb.version(),
            device_class: self.device_class.class(),
            device_suclass: self.device_suclass,
            device_protocol: self.device_protocol,
            max_packet_size_0: self.max_packet_size_0,
            id_vendor: self.id_vendor,
            id_product: self.id_product,
            device: self.bcd_device.version(),
            manufacturer: self.manufacturer@,
            product: self.product@,
            serial_number: self.serial_number@,
            configurations: configuration_node_specs(self.configurations@),
        }
    }
}

impl DeviceNode {
    /// What the node says of the device itself.
    pub fn get_device(&self) -> (device: DeviceIntrinsics)
        ensures
            device == (DeviceIntrinsics {
                bcd_usb: self.bcd_usb,
                device_class: self.device_class,
                device_suclass: self.device_suclass,
                device_protocol: self.device_protocol,
                max_packet_size_0: self.max_packet_size_0,
                id_vendor: self.id_vendor,
                id_product: self.id_product,
                bcd_device: self.bcd_device,
            }),
    {
        DeviceIntrinsics {
            bcd_usb: self.bcd_usb,
            device_class: self.device_class,
            device_suclass: self.device_suclass,
            device_protocol: self.device_protocol,
            max_packet_size_0: self.max_packet_size_0,
            id_vendor: self.id_vendor,
            id_product: self.id_product,
            bcd_device: self.bcd_device,
        }
    }
}

} // verus!
