use vstd::prelude::*;
use crate::binary::EncodeByte;
use crate::class_pairs::{
    diagnostic_pair, miscellaneous_pair, validate_diagnostic, validate_miscellaneous, verdict,
};
use crate::error::{RangeError, ValidationError};

verus! {

/// The classes that a device as a whole can declare.
#[derive(Debug, Copy, Clone, PartialEq, Eq, Structural)]
pub enum DeviceClass {
    Device,
    CommunicationAndCDCControl,
    Hub,
    Billboard,
    Diagnostic,
    Miscellaneous,
    VendorSpecific,
}

/// The table of device classes: whether `class` defines the pair of
/// `subclass` and `protocol`.
pub open spec fn device_class_accepts(class: DeviceClass, subclass: u8, protocol: u8) -> bool {
    match class {
        DeviceClass::Device => subclass == 0x00 && protocol == 0x00,
        DeviceClass::CommunicationAndCDCControl => true,
        DeviceClass::Hub => subclass == 0x00 && protocol <= 0x02,
        DeviceClass::Billboard => subclass == 0x00 && protocol == 0x00,
        DeviceClass::Diagnostic => diagnostic_pair(subclass, protocol),
        DeviceClass::Miscellaneous => miscellaneous_pair(subclass, protocol),
        DeviceClass::VendorSpecific => true,
    }
}

/// Accepts the triples of the device class table and rejects all others.
pub fn validate_device_class(class: DeviceClass, subclass: u8, protocol: u8) -> (r: Result<
    (),
    ValidationError,
>)
    ensures
        r == verdict(device_class_accepts(class, subclass, protocol)),
{
    let error: Result<(), ValidationError> = Err(ValidationError::IncompatibleSubclassProtocol);
    match class {
        DeviceClass::Device => match subclass {
            0x00 => match protocol {
                0x00 => Ok(()),
                _ => error,
            },
            _ => error,
        },
        DeviceClass::CommunicationAndCDCControl => Ok(()),
        DeviceClass::Hub => match subclass {
            0x00 => match protocol {
                0x00 | 0x01 | 0x02 => Ok(()),
                _ => error,
            },
            _ => error,
        },
        DeviceClass::Billboard => match subclass {
            0x00 => match protocol {
                0x00 => Ok(()),
                _ => error,
            },
            _ => error,
        },
        DeviceClass::Diagnostic => validate_diagnostic(subclass, protocol),
        DeviceClass::Miscellaneous => validate_miscellaneous(subclass, protocol),
        DeviceClass::VendorSpecific => Ok(()),
    }
}

impl DeviceClass {
    /// The class code.
    pub open spec fn code(self) -> u8 {
        match self {
            DeviceClass::Device => 0x00,
            DeviceClass::CommunicationAndCDCControl => 0x02,
            DeviceClass::Hub => 0x09,
            DeviceClass::Billboard => 0x11,
            DeviceClass::Diagnostic => 0xDC,
            DeviceClass::Miscellaneous => 0xEF,
            DeviceClass::VendorSpecific => 0xFF,
        }
    }

    /// Checks a subclass and a protocol against this class.
    pub fn validate(&self, suclass: u8, protocol: u8) -> (r: Result<(), ValidationError>)
        ensures
            r == verdict(device_class_accepts(*self, suclass, protocol)),
    {
        validate_device_class(*self, suclass, protocol)
    }
}

impl EncodeByte for DeviceClass {
    open spec fn encoded(&self) -> Result<u8, RangeError> {
        Ok(self.code())
    }

    fn encode(&self) -> (r: Result<u8, RangeError>) {
        match *self {
            DeviceClass::Device => Ok(0x00),
            DeviceClass::CommunicationAndCDCControl => Ok(0x02),
            DeviceClass::Hub => Ok(0x09),
            DeviceClass::Billboard => Ok(0x11),
            DeviceClass::Diagnostic => Ok(0xDC),
            DeviceClass::Miscellaneous => Ok(0xEF),
            DeviceClass::VendorSpecific => Ok(0xFF),
        }
    }
}

} // verus!
