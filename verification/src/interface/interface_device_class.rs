use vstd::prelude::*;
use crate::binary::EncodeByte;
use crate::class_pairs::verdict;
use crate::error::{RangeError, ValidationError};
use crate::interface::interface_class::{
    interface_class_accepts, validate_interface_class, InterfaceClass,
};

verus! {

/// The interface classes under the name that interface nodes use for them.
#[derive(Debug, Copy, Clone, PartialEq, Eq, Structural)]
pub enum InterfaceDeviceClass {
    Audio,
    CommunicationAndCDCControl,
    HumanInterfaceDevice,
    Physical,
    Image,
    Printer,
    MassStorage,
    CdcData,
    SmartCard,
    ContentSecurity,
    Video,
    PersonalHealthcare,
    AudioVideo,
    UsbTypeCBridge,
    UsbBulkDisplay,
    MctpOverUSB,
    I3c,
    Diagnostic,
    WirelessController,
    Miscellaneous,
    ApplicationSpecific,
    VendorSpecific,
}

impl InterfaceDeviceClass {
    /// The same class among the `InterfaceClass` values.
    pub open spec fn class(self) -> InterfaceClass {
        match self {
            InterfaceDeviceClass::Audio => InterfaceClass::Audio,
            InterfaceDeviceClass::CommunicationAndCDCControl => InterfaceClass::CommunicationAndCDCControl,
            InterfaceDeviceClass::HumanInterfaceDevice => InterfaceClass::HumanInterfaceDevice,
            InterfaceDeviceClass::Physical => InterfaceClass::Physical,
            InterfaceDeviceClass::Image => InterfaceClass::Image,
            InterfaceDeviceClass::Printer => InterfaceClass::Printer,
            InterfaceDeviceClass::MassStorage => InterfaceClass::MassStorage,
            InterfaceDeviceClass::CdcData => InterfaceClass::CdcData,
            InterfaceDeviceClass::SmartCard => InterfaceClass::SmartCard,
            InterfaceDeviceClass::ContentSecurity => InterfaceClass::ContentSecurity,
            InterfaceDeviceClass::Video => InterfaceClass::Video,
            InterfaceDeviceClass::PersonalHealthcare => InterfaceClass::PersonalHealthcare,
            InterfaceDeviceClass::AudioVideo => InterfaceClass::AudioVideo,
            InterfaceDeviceClass::UsbTypeCBridge => InterfaceClass::UsbTypeCBridge,
            InterfaceDeviceClass::UsbBulkDisplay => InterfaceClass::UsbBulkDisplay,
            InterfaceDeviceClass::MctpOverUSB => InterfaceClass::MctpOverUSB,
            InterfaceDeviceClass::I3c => InterfaceClass::I3c,
            InterfaceDeviceClass::Diagnostic => InterfaceClass::Diagnostic,
            InterfaceDeviceClass::WirelessController => InterfaceClass::WirelessController,
            InterfaceDeviceClass::Miscellaneous => InterfaceClass::Miscellaneous,
            InterfaceDeviceClass::ApplicationSpecific => InterfaceClass::ApplicationSpecific,
            InterfaceDeviceClass::VendorSpecific => InterfaceClass::VendorSpecific,
        }
    }

    /// The class as an `InterfaceClass`.
    pub fn to_interface_class(&self) -> (class: InterfaceClass)
        ensures
            class == self.class(),
    {
        match *self {
            InterfaceDeviceClass::Audio => InterfaceClass::Audio,
            InterfaceDeviceClass::CommunicationAndCDCControl => InterfaceClass::CommunicationAndCDCControl,
            InterfaceDeviceClass::HumanInterfaceDevice => InterfaceClass::HumanInterfaceDevice,
            InterfaceDeviceClass::Physical => InterfaceClass::Physical,
            InterfaceDeviceClass::Image => InterfaceClass::Image,
            InterfaceDeviceClass::Printer => InterfaceClass::Printer,
            InterfaceDeviceClass::MassStorage => InterfaceClass::MassStorage,
            InterfaceDeviceClass::CdcData => InterfaceClass::CdcData,
            InterfaceDeviceClass::SmartCard => InterfaceClass::SmartCard,
            InterfaceDeviceClass::ContentSecurity => InterfaceClass::ContentSecurity,
            InterfaceDeviceClass::Video => InterfaceClass::Video,
            InterfaceDeviceClass::PersonalHealthcare => InterfaceClass::PersonalHealthcare,
            InterfaceDeviceClass::AudioVideo => InterfaceClass::AudioVideo,
            InterfaceDeviceClass::UsbTypeCBridge => InterfaceClass::UsbTypeCBridge,
            InterfaceDeviceClass::UsbBulkDisplay => InterfaceClass::UsbBulkDisplay,
            InterfaceDeviceClass::MctpOverUSB => InterfaceClass::MctpOverUSB,
            InterfaceDeviceClass::I3c => InterfaceClass::I3c,
            InterfaceDeviceClass::Diagnostic => InterfaceClass::Diagnostic,
            InterfaceDeviceClass::WirelessController => InterfaceClass::WirelessController,
            InterfaceDeviceClass::Miscellaneous => InterfaceClass::Miscellaneous,
            InterfaceDeviceClass::ApplicationSpecific => InterfaceClass::ApplicationSpecific,
            InterfaceDeviceClass::VendorSpecific => InterfaceClass::VendorSpecific,
        }
    }

    /// Checks a subclass and a protocol against this class.
    pub fn validate(&self, b_sub_class: u8, b_protocol: u8) -> (r: Result<(), ValidationError>)
        ensures
            r == verdict(interface_class_accepts(self.class(), b_sub_class, b_protocol)),
    {
        validate_interface_class(self.to_interface_class(), b_sub_class, b_protocol)
    }
}

impl EncodeByte for InterfaceDeviceClass {
    open spec fn encoded(&self) -> Result<u8, RangeError> {
        Ok(self.class().code())
    }

    fn encode(&self) -> (r: Result<u8, RangeError>) {
        self.to_interface_class().encode()
    }
}

} // verus!
