use vstd::prelude::*;
use crate::device::bcd_version::BcdVersion;
use crate::device::device_descriptor::DeviceDescriptor;
use crate::device::device_device_class::DeviceDeviceClass;
use crate::error::ValidationError;
use crate::model::device_descriptor_of;

verus! {

/// A device under the field names of its descriptor.
#[derive(Debug, Clone, Copy, PartialEq, Eq, Structural)]
pub struct Device {
    pub bcd_usb: BcdVersion,
    pub b_device_class: DeviceDeviceClass,
    pub b_device_sub_class: u8,
    pub b_device_protocol: u8,
    pub b_max_packet_size_0: u8,
    pub id_vendor: u16,
    pub id_product: u16,
    pub bcd_device: BcdVersion,
}

impl Device {
    /// Makes the device's descriptor with the given number of
    /// configurations and the given indices for its three names.
    pub fn build(
        &self,
        b_num_configurations: u8,
        i_manufacturer: u8,
        i_product: u8,
        i_serial_number: u8,
    ) -> (r: Result<DeviceDescriptor, ValidationError>)
        ensures
            r == device_descriptor_of(
                self.bcd_usb.version(),
                self.b_device_class.class(),
                self.b_device_sub_class,
                self.b_device_protocol,
                self.b_max_packet_size_0,
                self.id_vendor,
                self.id_product,
                self.bcd_device.version(),
                b_num_configurations,
                i_manufacturer,
                i_product,
                i_serial_number,
            ),
    {
        match self.b_device_class.validate(self.b_device_sub_class, self.b_device_protocol) {
            Ok(()) => {},
            Err(e) => return Err(e),
        }
        Ok(
            DeviceDescriptor {
                usb: self.bcd_usb.to_version(),
                device_class: self.b_device_class.to_device_class(),
                device_suclass: self.b_device_sub_class,
                device_protocol: self.b_device_protocol,
                max_packet_size_0: self.b_max_packet_size_0,
                id_vendor: self.id_vendor,
                id_product: self.id_product,
                device: self.bcd_device.to_version(),
                manufacturer: i_manufacturer,
                product: i_product,
                serial_number: i_serial_number,
                num_configurations: b_num_configurations,
            },
        )
    }
}

} // verus!
