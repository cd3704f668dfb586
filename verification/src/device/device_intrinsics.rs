use vstd::prelude::*;
use crate::device::bcd_version::BcdVersion;
use crate::device::device_descriptor::DeviceDescriptor;
use crate::device::device_device_class::DeviceDeviceClass;
use crate::error::ValidationError;
use crate::model::device_descriptor_of;

verus! {

/// What a device node says of itself, without its names and its
/// configurations.
#[derive(Debug, Clone, Copy, PartialEq, Eq, Structural)]
pub struct DeviceIntrinsics {
    /// Turns into `bcdUSB`
    pub bcd_usb: BcdVersion,
    /// Turns into `bDeviceClass`
    pub device_class: DeviceDeviceClass,
    /// Turns into `bDeviceSubClass`
    pub device_suclass: u8,
    /// Turns into `bDeviceProtocol`
    pub device_protocol: u8,
    /// Turns into `bMaxPacketSize0`
    pub max_packet_size_0: u8,
    /// Turns into `idVendor`
    pub id_vendor: u16,
    /// Turns into `idProduct`
    pub id_product: u16,
    /// Turns into `bcdDevice`
    pub bcd_device: BcdVersion,
}

impl DeviceIntrinsics {
    /// Makes the device's descriptor with the given number of
    /// configurations and the given indices for its three names.
    pub fn build(&self, num_configurations: u8, manufacturer: u8, product: u8, serial_number: u8) -> (r:
        Result<DeviceDescriptor, ValidationError>)
        ensures
            r == device_descriptor_of(
                self.bcd_usb.version(),
                self.device_class.class(),
                self.device_suclass,
                self.device_protocol,
                self.max_packet_size_0,
                self.id_vendor,
                self.id_product,
                self.bcd_device.version(),
                num_configurations,
                manufacturer,
                product,
                serial_number,
            ),
    {
        match self.device_class.validate(self.device_suclass, self.device_protocol) {
            Ok(()) => {},
            Err(e) => return Err(e),
        }
        Ok(
            DeviceDescriptor {
                usb: self.bcd_usb.to_version(),
                device_class: self.device_class.to_device_class(),
                device_suclass: self.device_suclass,
                device_protocol: self.device_protocol,
                max_packet_size_0: self.max_packet_size_0,
                id_vendor: self.id_vendor,
                id_product: self.id_product,
                device: self.bcd_device.to_version(),
                manufacturer,
                product,
                serial_number,
                num_configurations,
            },
        )
    }
}

} // verus!
