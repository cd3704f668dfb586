use vstd::prelude::*;
use crate::binary::EncodeByte;
use crate::class_pairs::verdict;
use crate::device::device_class::{device_class_accepts, validate_device_class, DeviceClass};
use crate::error::{RangeError, ValidationError};

verus! {

/// The device classes under the name that device nodes use for them.
#[derive(Debug, Copy, Clone, PartialEq, Eq, Structural)]
pub enum DeviceDeviceClass {
    Device,
    CommunicationAndCDCControl,
    Hub,
    Billboard,
    Diagnostic,
    Miscellaneous,
    VendorSpecific,
}

impl DeviceDeviceClass {
    /// The same class among the `DeviceClass` values.
    pub open spec fn class(self) -> DeviceClass {
        match self {
            DeviceDeviceClass::Device => DeviceClass::Device,
            DeviceDeviceClass::CommunicationAndCDCControl => DeviceClass::CommunicationAndCDCControl,
            DeviceDeviceClass::Hub => DeviceClass::Hub,
            DeviceDeviceClass::Billboard => DeviceClass::Billboard,
            DeviceDeviceClass::Diagnostic => DeviceClass::Diagnostic,
            DeviceDeviceClass::Miscellaneous => DeviceClass::Miscellaneous,
            DeviceDeviceClass::VendorSpecific => DeviceClass::VendorSpecific,
        }
    }

    /// The class as a `DeviceClass`.
    pub fn to_device_class(&self) -> (class: DeviceClass)
        ensures
            class == self.class(),
    {
        match *self {
            DeviceDeviceClass::Device => DeviceClass::Device,
            DeviceDeviceClass::CommunicationAndCDCControl => DeviceClass::CommunicationAndCDCControl,
            DeviceDeviceClass::Hub => DeviceClass::Hub,
            DeviceDeviceClass::Billboard => DeviceClass::Billboard,
            DeviceDeviceClass::Diagnostic => DeviceClass::Diagnostic,
            DeviceDeviceClass::Miscellaneous => DeviceClass::Miscellaneous,
            DeviceDeviceClass::VendorSpecific => DeviceClass::VendorSpecific,
        }
    }

    /// Checks a subclass and a protocol against this class.
    pub fn validate(&self, suclass: u8, protocol: u8) -> (r: Result<(), ValidationError>)
        ensures
            r == verdict(device_class_accepts(self.class(), suclass, protocol)),
    {
        validate_device_class(self.to_device_class(), suclass, protocol)
    }
}

impl EncodeByte for DeviceDeviceClass {
    open spec fn encoded(&self) -> Result<u8, RangeError> {
        Ok(self.class().code())
    }

    fn encode(&self) -> (r: Result<u8, RangeError>) {
        self.to_device_class().encode()
    }
}

} // verus!
