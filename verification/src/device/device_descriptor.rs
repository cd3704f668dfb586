use vstd::prelude::*;
use crate::binary::{le_bytes_u16, EncodeByte, EncodeBytes};
use crate::descriptor::Descriptor;
use crate::descriptor_type::DescriptorType;
use crate::device::device_class::{device_class_accepts, DeviceClass};
use crate::error::{EncodingError, ValidationError};
use crate::version::Version;

verus! {

pub const DEVICE_DESCRIPTOR_LENGTH: u8 = 18;

pub const DEVICE_DESCRIPTOR_TYPE: DescriptorType = DescriptorType::Device;

/// The device descriptor: the one record that describes the device as a
/// whole.
#[derive(Debug, Clone, Copy, PartialEq, Eq, Structural)]
pub struct DeviceDescriptor {
    /// Turns into `bcdUSB`
    pub usb: Version,
    /// Turns into `bDeviceClass`
    pub device_class: DeviceClass,
    /// Turns into `bDeviceSubClass`
    pub device_suclass: u8,
    /// Turns into `bDeviceProtocol`
    pub device_protocol: u8,
    /// Turns into `bMaxPacketSize0`
    pub max_packet_size_0: u8,
    /// Turns into `idVendor`
    pub id_vendor: u16,
    /// Turns into `idProduct`
    pub id_product: u16,
    /// Turns into `bcdDevice`
    pub device: Version,
    /// Turns into `iManufacturer`
    pub manufacturer: u8,
    /// Turns into `iProduct`
    pub product: u8,
    /// Turns into `iSerialNumber`
    pub serial_number: u8,
    /// Turns into `bNumConfigurations`
    pub num_configurations: u8,
}

impl DeviceDescriptor {
    /// The eighteen bytes of the record, whatever its class says of its
    /// subclass and protocol.
    pub open spec fn layout(self) -> Seq<u8> {
        seq![
            DEVICE_DESCRIPTOR_LENGTH,
            DEVICE_DESCRIPTOR_TYPE.code(),
            self.usb.minor,
            self.usb.major,
            self.device_class.code(),
            self.device_suclass,
            self.device_protocol,
            self.max_packet_size_0,
            (self.id_vendor % 256) as u8,
            (self.id_vendor / 256) as u8,
            (self.id_product % 256) as u8,
            (self.id_product / 256) as u8,
            self.device.minor,
            self.device.major,
            self.manufacturer,
            self.product,
            self.serial_number,
            self.num_configurations,
        ]
    }
}

impl Descriptor for DeviceDescriptor {
    /// The layout, for a class that defines the subclass and protocol.
    open spec fn encoded(&self) -> Result<Seq<u8>, EncodingError> {
        if device_class_accepts(self.device_class, self.device_suclass, self.device_protocol) {
            Ok(self.layout())
        } else {
            Err(EncodingError::Validation(ValidationError::IncompatibleSubclassProtocol))
        }
    }

    open spec fn descriptor_type(&self) -> DescriptorType {
        DEVICE_DESCRIPTOR_TYPE
    }

    /// There is one device descriptor, and its number is 0.
    open spec fn index(&self) -> u8 {
        0
    }

    fn encode(&self) -> (r: Result<Vec<u8>, EncodingError>) {
        match self.device_class.validate(self.device_suclass, self.device_protocol) {
            Ok(()) => {},
            Err(e) => return Err(EncodingError::Validation(e)),
        }
        let usb = match self.usb.encode() {
            Ok(bytes) => bytes,
            Err(e) => return Err(EncodingError::Range(e)),
        };
        let class: u8 = match self.device_class.encode() {
            Ok(code) => code,
            Err(e) => return Err(EncodingError::Range(e)),
        };
        let vendor = le_bytes_u16(self.id_vendor);
        let product = le_bytes_u16(self.id_product);
        let device = match self.device.encode() {
            Ok(bytes) => bytes,
            Err(e) => return Err(EncodingError::Range(e)),
        };

        let mut bytes = Vec::<u8>::new();
        bytes.push(DEVICE_DESCRIPTOR_LENGTH);
        bytes.push(0x01);
        bytes.push(usb[0]);
        bytes.push(usb[1]);
        bytes.push(class);
        bytes.push(self.device_suclass);
        bytes.push(self.device_protocol);
        bytes.push(self.max_packet_size_0);
        bytes.push(vendor.0);
        bytes.push(vendor.1);
        bytes.push(product.0);
        bytes.push(product.1);
        bytes.push(device[0]);
        bytes.push(device[1]);
        bytes.push(self.manufacturer);
        bytes.push(self.product);
        bytes.push(self.serial_number);
        bytes.push(self.num_configurations);
        assert(bytes@ =~= self.layout());
        Ok(bytes)
    }

    fn get_descriptor_type(&self) -> (t: DescriptorType) {
        DEVICE_DESCRIPTOR_TYPE
    }

    fn get_w_value(&self) -> (w_value: u16) {
        0x0100
    }
}

} // verus!
