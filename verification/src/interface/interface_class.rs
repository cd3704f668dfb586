use vstd::prelude::*;
use crate::binary::EncodeByte;
use crate::class_pairs::{
    diagnostic_pair, miscellaneous_pair, validate_diagnostic, validate_miscellaneous, verdict,
};
use crate::error::{RangeError, ValidationError};

verus! {

/// The classes that an interface can declare.
#[derive(Debug, Copy, Clone, PartialEq, Eq, Structural)]
pub enum InterfaceClass {
    Audio,
    CommunicationAndCDCControl,
    HumanInterfaceDevice,
    Physical,
    Image,
    Printer,
    MassStorage,
    CdcData,
    SmartCard,
    ContentSecurity,
    Video,
    PersonalHealthcare,
    AudioVideo,
    UsbTypeCBridge,
    UsbBulkDisplay,
    MctpOverUSB,
    I3c,
    Diagnostic,
    WirelessController,
    Miscellaneous,
    ApplicationSpecific,
    VendorSpecific,
}

/// The table of interface classes: whether `class` defines the pair of
/// `subclass` and `protocol`.
pub open spec fn interface_class_accepts(class: InterfaceClass, subclass: u8, protocol: u8) -> bool {
    match class {
        InterfaceClass::Audio => true,
        InterfaceClass::CommunicationAndCDCControl => true,
        InterfaceClass::HumanInterfaceDevice => true,
        InterfaceClass::Physical => true,
        InterfaceClass::Image => subclass == 0x01 && protocol == 0x01,
        InterfaceClass::Printer => true,
        InterfaceClass::MassStorage => true,
        InterfaceClass::CdcData => true,
        InterfaceClass::SmartCard => true,
        InterfaceClass::ContentSecurity => subclass == 0x00 && protocol == 0x00,
        InterfaceClass::Video => true,
        InterfaceClass::PersonalHealthcare => true,
        InterfaceClass::AudioVideo => 0x01 <= subclass <= 0x03 && protocol == 0x00,
        InterfaceClass::UsbTypeCBridge => subclass == 0x00 && protocol == 0x00,
        InterfaceClass::UsbBulkDisplay => subclass == 0x00 && protocol == 0x00,
        InterfaceClass::MctpOverUSB => subclass <= 0x01 && 0x01 <= protocol <= 0x02,
        InterfaceClass::I3c => subclass == 0x00 && protocol == 0x00,
        InterfaceClass::Diagnostic => diagnostic_pair(subclass, protocol),
        InterfaceClass::WirelessController => {
            ||| subclass == 0x01 && 0x01 <= protocol <= 0x04
            ||| subclass == 0x02 && 0x01 <= protocol <= 0x03
        },
        InterfaceClass::Miscellaneous => miscellaneous_pair(subclass, protocol),
        InterfaceClass::ApplicationSpecific => {
            ||| subclass == 0x01 && protocol == 0x01
            ||| subclass == 0x02 && protocol == 0x00
            ||| subclass == 0x03 && protocol <= 0x01
        },
        InterfaceClass::VendorSpecific => true,
    }
}

/// Accepts the triples of the interface class table and rejects all others.
pub fn validate_interface_class(class: InterfaceClass, subclass: u8, protocol: u8) -> (r: Result<
    (),
    ValidationError,
>)
    ensures
        r == verdict(interface_class_accepts(class, subclass, protocol)),
{
    let error: Result<(), ValidationError> = Err(ValidationError::IncompatibleSubclassProtocol);
    match class {
        InterfaceClass::Audio => Ok(()),
        InterfaceClass::CommunicationAndCDCControl => Ok(()),
        InterfaceClass::HumanInterfaceDevice => Ok(()),
        InterfaceClass::Physical => Ok(()),
        InterfaceClass::Image => match subclass {
            0x01 => match protocol {
                0x01 => Ok(()),
                _ => error,
            },
            _ => error,
        },
        InterfaceClass::Printer => Ok(()),
        InterfaceClass::MassStorage => Ok(()),
        InterfaceClass::CdcData => Ok(()),
        InterfaceClass::SmartCard => Ok(()),
        InterfaceClass::ContentSecurity => match subclass {
            0x00 => match protocol {
                0x00 => Ok(()),
                _ => error,
            },
            _ => error,
        },
        InterfaceClass::Video => Ok(()),
        InterfaceClass::PersonalHealthcare => Ok(()),
        InterfaceClass::AudioVideo => match subclass {
            0x01 | 0x02 | 0x03 => match protocol {
                0x00 => Ok(()),
                _ => error,
            },
            _ => error,
        },
        InterfaceClass::UsbTypeCBridge => match subclass {
            0x00 => match protocol {
                0x00 => Ok(()),
                _ => error,
            },
            _ => error,
        },
        InterfaceClass::UsbBulkDisplay => match subclass {
            0x00 => match protocol {
                0x00 => Ok(()),
                _ => error,
            },
            _ => error,
        },
        InterfaceClass::MctpOverUSB => match subclass {
            0x00 | 0x01 => match protocol {
                0x01 | 0x02 => Ok(()),
                _ => error,
            },
            _ => error,
        },
        InterfaceClass::I3c => match subclass {
            0x00 => match protocol {
                0x00 => Ok(()),
                _ => error,
            },
            _ => error,
        },
        InterfaceClass::Diagnostic => validate_diagnostic(subclass, protocol),
        InterfaceClass::WirelessController => match subclass {
            0x01 => match protocol {
                0x01 | 0x02 | 0x03 | 0x04 => Ok(()),
                _ => error,
            },
            0x02 => match protocol {
                0x01 | 0x02 | 0x03 => Ok(()),
                _ => error,
            },
            _ => error,
        },
        InterfaceClass::Miscellaneous => validate_miscellaneous(subclass, protocol),
        InterfaceClass::ApplicationSpecific => match subclass {
            0x01 => match protocol {
                0x01 => Ok(()),
                _ => error,
            },
            0x02 => match protocol {
                0x00 => Ok(()),
                _ => error,
            },
            0x03 => match protocol {
                0x00 | 0x01 => Ok(()),
                _ => error,
            },
            _ => error,
        },
        InterfaceClass::VendorSpecific => Ok(()),
    }
}

impl InterfaceClass {
    /// The class code.
    pub open spec fn code(self) -> u8 {
        match self {
            InterfaceClass::Audio => 0x01,
            InterfaceClass::CommunicationAndCDCControl => 0x02,
            InterfaceClass::HumanInterfaceDevice => 0x03,
            InterfaceClass::Physical => 0x05,
            InterfaceClass::Image => 0x06,
            InterfaceClass::Printer => 0x07,
            InterfaceClass::MassStorage => 0x08,
            InterfaceClass::CdcData => 0x0A,
            InterfaceClass::SmartCard => 0x0B,
            InterfaceClass::ContentSecurity => 0x0D,
            InterfaceClass::Video => 0x0E,
            InterfaceClass::PersonalHealthcare => 0x0F,
            InterfaceClass::AudioVideo => 0x10,
            InterfaceClass::UsbTypeCBridge => 0x12,
            InterfaceClass::UsbBulkDisplay => 0x13,
            InterfaceClass::MctpOverUSB => 0x14,
            InterfaceClass::I3c => 0x15,
            InterfaceClass::Diagnostic => 0xDC,
            InterfaceClass::WirelessController => 0xE0,
            InterfaceClass::Miscellaneous => 0xEF,
            InterfaceClass::ApplicationSpecific => 0xFE,
            InterfaceClass::VendorSpecific => 0xFF,
        }
    }

    /// Checks a subclass and a protocol against this class.
    pub fn validate(&self, suclass: u8, protocol: u8) -> (r: Result<(), ValidationError>)
        ensures
            r == verdict(interface_class_accepts(*self, suclass, protocol)),
    {
        validate_interface_class(*self, suclass, protocol)
    }
}

impl EncodeByte for InterfaceClass {
    open spec fn encoded(&self) -> Result<u8, RangeError> {
        Ok(self.code())
    }

    fn encode(&self) -> (r: Result<u8, RangeError>) {
        match *self {
            InterfaceClass::Audio => Ok(0x01),
            InterfaceClass::CommunicationAndCDCControl => Ok(0x02),
            InterfaceClass::HumanInterfaceDevice => Ok(0x03),
            InterfaceClass::Physical => Ok(0x05),
            InterfaceClass::Image => Ok(0x06),
            InterfaceClass::Printer => Ok(0x07),
            InterfaceClass::MassStorage => Ok(0x08),
            InterfaceClass::CdcData => Ok(0x0A),
            InterfaceClass::SmartCard => Ok(0x0B),
            InterfaceClass::ContentSecurity => Ok(0x0D),
            InterfaceClass::Video => Ok(0x0E),
            InterfaceClass::PersonalHealthcare => Ok(0x0F),
            InterfaceClass::AudioVideo => Ok(0x10),
            InterfaceClass::UsbTypeCBridge => Ok(0x12),
            InterfaceClass::UsbBulkDisplay => Ok(0x13),
            InterfaceClass::MctpOverUSB => Ok(0x14),
            InterfaceClass::I3c => Ok(0x15),
            InterfaceClass::Diagnostic => Ok(0xDC),
            InterfaceClass::WirelessController => Ok(0xE0),
            InterfaceClass::Miscellaneous => Ok(0xEF),
            InterfaceClass::ApplicationSpecific => Ok(0xFE),
            InterfaceClass::VendorSpecific => Ok(0xFF),
        }
    }
}

} // verus!
