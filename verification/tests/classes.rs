use usb_descriptors::binary::{encode_w_value, EncodeByte, EncodeBytes};
use usb_descriptors::class_pairs::{validate_diagnostic, validate_miscellaneous};
use usb_descriptors::descriptor_type::DescriptorType;
use usb_descriptors::device::device_class::{validate_device_class, DeviceClass};
use usb_descriptors::device::device_device_class::DeviceDeviceClass;
use usb_descriptors::error::{
    CompileError, EncodingError, LookupError, RangeError, ValidationError,
};
use usb_descriptors::interface::interface_class::{validate_interface_class, InterfaceClass};
use usb_descriptors::interface::interface_device_class::InterfaceDeviceClass;
use usb_descriptors::report::report_descriptor::Usage;
use usb_descriptors::version::{
    usb1_0, usb1_1, usb2_0, usb2_1, usb3_0, usb3_1, usb3_2, Version,
};

const DIAGNOSTIC: &[(u8, u8)] = &[
    (0x01, 0x01),
    (0x02, 0x00),
    (0x02, 0x01),
    (0x03, 0x00),
    (0x03, 0x01),
    (0x04, 0x00),
    (0x04, 0x01),
    (0x05, 0x00),
    (0x05, 0x01),
    (0x06, 0x00),
    (0x06, 0x01),
    (0x07, 0x00),
    (0x07, 0x01),
    (0x08, 0x00),
];

const MISCELLANEOUS: &[(u8, u8)] = &[
    (0x01, 0x01),
    (0x01, 0x02),
    (0x02, 0x01),
    (0x02, 0x02),
    (0x03, 0x01),
    (0x04, 0x01),
    (0x04, 0x02),
    (0x04, 0x03),
    (0x04, 0x04),
    (0x04, 0x05),
    (0x04, 0x06),
    (0x04, 0x07),
    (0x05, 0x00),
    (0x05, 0x01),
    (0x05, 0x02),
    (0x06, 0x01),
    (0x06, 0x02),
    (0x07, 0x00),
    (0x07, 0x01),
    (0x07, 0x02),
];

/// The pairs that a device class defines; `None` where it defines all.
fn device_pairs(class: DeviceClass) -> Option<Vec<(u8, u8)>> {
    match class {
        DeviceClass::Device => Some(vec![(0, 0)]),
        DeviceClass::CommunicationAndCDCControl => None,
        DeviceClass::Hub => Some(vec![(0, 0), (0, 1), (0, 2)]),
        DeviceClass::Billboard => Some(vec![(0, 0)]),
        DeviceClass::Diagnostic => Some(DIAGNOSTIC.to_vec()),
        DeviceClass::Miscellaneous => Some(MISCELLANEOUS.to_vec()),
        DeviceClass::VendorSpecific => None,
    }
}

/// The pairs that an interface class defines; `None` where it defines all.
fn interface_pairs(class: InterfaceClass) -> Option<Vec<(u8, u8)>> {
    match class {
        InterfaceClass::Audio
        | InterfaceClass::CommunicationAndCDCControl
        | InterfaceClass::HumanInterfaceDevice
        | InterfaceClass::Physical
        | InterfaceClass::Printer
        | InterfaceClass::MassStorage
        | InterfaceClass::CdcData
        | InterfaceClass::SmartCard
        | InterfaceClass::Video
        | InterfaceClass::PersonalHealthcare
        | InterfaceClass::VendorSpecific => None,
        InterfaceClass::Image => Some(vec![(1, 1)]),
        InterfaceClass::ContentSecurity => Some(vec![(0, 0)]),
        InterfaceClass::AudioVideo => Some(vec![(1, 0), (2, 0), (3, 0)]),
        InterfaceClass::UsbTypeCBridge => Some(vec![(0, 0)]),
        InterfaceClass::UsbBulkDisplay => Some(vec![(0, 0)]),
        InterfaceClass::MctpOverUSB => Some(vec![(0, 1), (0, 2), (1, 1), (1, 2)]),
        InterfaceClass::I3c => Some(vec![(0, 0)]),
        InterfaceClass::Diagnostic => Some(DIAGNOSTIC.to_vec()),
        InterfaceClass::WirelessController => {
            Some(vec![(1, 1), (1, 2), (1, 3), (1, 4), (2, 1), (2, 2), (2, 3)])
        }
        InterfaceClass::Miscellaneous => Some(MISCELLANEOUS.to_vec()),
        InterfaceClass::ApplicationSpecific => Some(vec![(1, 1), (2, 0), (3, 0), (3, 1)]),
    }
}

fn expected(pairs: &Option<Vec<(u8, u8)>>, subclass: u8, protocol: u8) -> Result<(), ValidationError> {
    match pairs {
        None => Ok(()),
        Some(pairs) if pairs.contains(&(subclass, protocol)) => Ok(()),
        Some(_) => Err(ValidationError::IncompatibleSubclassProtocol),
    }
}

const DEVICE_CLASSES: [(DeviceClass, DeviceDeviceClass); 7] = [
    (DeviceClass::Device, DeviceDeviceClass::Device),
    (
        DeviceClass::CommunicationAndCDCControl,
        DeviceDeviceClass::CommunicationAndCDCControl,
    ),
    (DeviceClass::Hub, DeviceDeviceClass::Hub),
    (DeviceClass::Billboard, DeviceDeviceClass::Billboard),
    (DeviceClass::Diagnostic, DeviceDeviceClass::Diagnostic),
    (DeviceClass::Miscellaneous, DeviceDeviceClass::Miscellaneous),
    (DeviceClass::VendorSpecific, DeviceDeviceClass::VendorSpecific),
];

const INTERFACE_CLASSES: [(InterfaceClass, InterfaceDeviceClass); 22] = [
    (InterfaceClass::Audio, InterfaceDeviceClass::Audio),
    (
        InterfaceClass::CommunicationAndCDCControl,
        InterfaceDeviceClass::CommunicationAndCDCControl,
    ),
    (
        InterfaceClass::HumanInterfaceDevice,
        InterfaceDeviceClass::HumanInterfaceDevice,
    ),
    (InterfaceClass::Physical, InterfaceDeviceClass::Physical),
    (InterfaceClass::Image, InterfaceDeviceClass::Image),
    (InterfaceClass::Printer, InterfaceDeviceClass::Printer),
    (InterfaceClass::MassStorage, InterfaceDeviceClass::MassStorage),
    (InterfaceClass::CdcData, InterfaceDeviceClass::CdcData),
    (InterfaceClass::SmartCard, InterfaceDeviceClass::SmartCard),
    (
        InterfaceClass::ContentSecurity,
        InterfaceDeviceClass::ContentSecurity,
    ),
    (InterfaceClass::Video, InterfaceDeviceClass::Video),
    (
        InterfaceClass::PersonalHealthcare,
        InterfaceDeviceClass::PersonalHealthcare,
    ),
    (InterfaceClass::AudioVideo, InterfaceDeviceClass::AudioVideo),
    (
        InterfaceClass::UsbTypeCBridge,
        InterfaceDeviceClass::UsbTypeCBridge,
    ),
    (
        InterfaceClass::UsbBulkDisplay,
        InterfaceDeviceClass::UsbBulkDisplay,
    ),
    (InterfaceClass::MctpOverUSB, InterfaceDeviceClass::MctpOverUSB),
    (InterfaceClass::I3c, InterfaceDeviceClass::I3c),
    (InterfaceClass::Diagnostic, InterfaceDeviceClass::Diagnostic),
    (
        InterfaceClass::WirelessController,
        InterfaceDeviceClass::WirelessController,
    ),
    (
        InterfaceClass::Miscellaneous,
        InterfaceDeviceClass::Miscellaneous,
    ),
    (
        InterfaceClass::ApplicationSpecific,
        InterfaceDeviceClass::ApplicationSpecific,
    ),
    (
        InterfaceClass::VendorSpecific,
        InterfaceDeviceClass::VendorSpecific,
    ),
];

#[test]
fn device_class_table_over_all_pairs() {
    for (class, node_class) in DEVICE_CLASSES.iter() {
        let pairs = device_pairs(*class);
        for subclass in 0..=255u8 {
            for protocol in 0..=255u8 {
                let wanted = expected(&pairs, subclass, protocol);
                assert_eq!(class.validate(subclass, protocol), wanted);
                assert_eq!(validate_device_class(*class, subclass, protocol), wanted);
                assert_eq!(node_class.validate(subclass, protocol), wanted);
            }
        }
        assert_eq!(node_class.to_device_class(), *class);
    }
}

#[test]
fn interface_class_table_over_all_pairs() {
    for (class, node_class) in INTERFACE_CLASSES.iter() {
        let pairs = interface_pairs(*class);
        for subclass in 0..=255u8 {
            for protocol in 0..=255u8 {
                let wanted = expected(&pairs, subclass, protocol);
                assert_eq!(class.validate(subclass, protocol), wanted);
                assert_eq!(validate_interface_class(*class, subclass, protocol), wanted);
                assert_eq!(node_class.validate(subclass, protocol), wanted);
            }
        }
        assert_eq!(node_class.to_interface_class(), *class);
    }
}

#[test]
fn shared_class_pairs_over_all_pairs() {
    for subclass in 0..=255u8 {
        for protocol in 0..=255u8 {
            assert_eq!(
                validate_diagnostic(subclass, protocol).is_ok(),
                DIAGNOSTIC.contains(&(subclass, protocol))
            );
            assert_eq!(
                validate_miscellaneous(subclass, protocol).is_ok(),
                MISCELLANEOUS.contains(&(subclass, protocol))
            );
        }
    }
}

#[test]
fn class_tables_at_their_edges() {
    assert_eq!(DeviceClass::Hub.validate(0, 2), Ok(()));
    assert_eq!(
        DeviceClass::Hub.validate(0, 3),
        Err(ValidationError::IncompatibleSubclassProtocol)
    );
    assert_eq!(DeviceClass::VendorSpecific.validate(0xAB, 0xCD), Ok(()));
    assert_eq!(InterfaceClass::WirelessController.validate(2, 3), Ok(()));
    assert_eq!(
        InterfaceClass::WirelessController.validate(2, 4),
        Err(ValidationError::IncompatibleSubclassProtocol)
    );
    assert_eq!(
        InterfaceDeviceClass::WirelessController.validate(2, 5),
        Err(ValidationError::IncompatibleSubclassProtocol)
    );
    assert_eq!(InterfaceDeviceClass::WirelessController.validate(1, 4), Ok(()));
    assert_eq!(InterfaceClass::HumanInterfaceDevice.validate(1, 2), Ok(()));
}

#[test]
fn descriptor_type_from_value() {
    assert_eq!(DescriptorType::from_value(0x0100), Ok(DescriptorType::Device));
    assert_eq!(
        DescriptorType::from_value(0x0200),
        Ok(DescriptorType::Configuration)
    );
    assert_eq!(
        DescriptorType::from_value(0x0400),
        Ok(DescriptorType::Interface)
    );
    assert_eq!(
        DescriptorType::from_value(0x0500),
        Ok(DescriptorType::Endpoint)
    );
    assert_eq!(DescriptorType::from_value(0x2100), Ok(DescriptorType::Hid));
    assert_eq!(DescriptorType::from_value(0x2200), Ok(DescriptorType::Report));
    assert_eq!(DescriptorType::from_value(0x0300), Ok(DescriptorType::String));
    assert_eq!(DescriptorType::from_value(0x0305), Ok(DescriptorType::String));
    assert_eq!(DescriptorType::from_value(0x0101), Ok(DescriptorType::Device));
    assert_eq!(
        DescriptorType::from_value(0x0581),
        Ok(DescriptorType::Endpoint)
    );
    assert_eq!(DescriptorType::from_value(0x22FF), Ok(DescriptorType::Report));
    assert_eq!(DescriptorType::from_value(0), Err(LookupError::NotFound));
    assert_eq!(
        DescriptorType::from_value(0x00FF),
        Err(LookupError::NotFound)
    );
    assert_eq!(
        DescriptorType::from_value(0x0600),
        Err(LookupError::NotFound)
    );
    assert_eq!(
        DescriptorType::from_value(0x2000),
        Err(LookupError::NotFound)
    );
    assert_eq!(
        DescriptorType::from_value(0xFFFF),
        Err(LookupError::NotFound)
    );
    let types = [
        DescriptorType::Device,
        DescriptorType::Configuration,
        DescriptorType::String,
        DescriptorType::Interface,
        DescriptorType::Endpoint,
        DescriptorType::Hid,
        DescriptorType::Report,
    ];
    for value in 0..=u16::MAX {
        let expected = types
            .iter()
            .find(|t| t.encode().unwrap() as u16 == value >> 8)
            .copied()
            .ok_or(LookupError::NotFound);
        assert_eq!(DescriptorType::from_value(value), expected);
    }
}

#[test]
fn w_value_is_type_code_over_number() {
    assert_eq!(encode_w_value(&DescriptorType::Device, 0), Ok(0x0100));
    assert_eq!(encode_w_value(&DescriptorType::String, 5), Ok(0x0305));
    assert_eq!(encode_w_value(&DescriptorType::Endpoint, 0x81), Ok(0x0581));
    assert_eq!(encode_w_value(&DescriptorType::Report, 0xFF), Ok(0x22FF));
    for value in 0..=255u8 {
        let w_value = encode_w_value(&DescriptorType::Hid, value).unwrap();
        assert_eq!(w_value >> 8, 0x21);
        assert_eq!(w_value & 0xFF, value as u16);
    }
}

#[test]
fn versions_are_written_minor_first() {
    assert_eq!(usb1_0().encode().unwrap(), vec![0x00, 0x01]);
    assert_eq!(usb1_1().encode().unwrap(), vec![0x01, 0x01]);
    assert_eq!(usb2_0().encode().unwrap(), vec![0x00, 0x02]);
    assert_eq!(usb2_1().encode().unwrap(), vec![0x01, 0x02]);
    assert_eq!(usb3_0().encode().unwrap(), vec![0x00, 0x03]);
    assert_eq!(usb3_1().encode().unwrap(), vec![0x01, 0x03]);
    assert_eq!(usb3_2().encode().unwrap(), vec![0x02, 0x03]);
    let version = Version {
        major: 0x12,
        minor: 0x34,
    };
    assert_eq!(version.encode().unwrap(), vec![0x34, 0x12]);
    assert_eq!(version.validate(), Ok(()));
}

#[test]
fn usage_page_codes() {
    assert_eq!(Usage::GenericDesktop.encode().unwrap(), 0x01);
    assert_eq!(Usage::Keyboard.encode().unwrap(), 0x07);
    assert_eq!(Usage::Pid.encode().unwrap(), 0x0F);
    assert_eq!(Usage::AlphanumericDisplay.encode().unwrap(), 0x14);
    assert_eq!(Usage::MedicalInstruments.encode().unwrap(), 0x40);
    assert_eq!(Usage::Arcade.encode().unwrap(), 0x91);
    assert_eq!(Usage::VendorDefined.encode().unwrap(), 0xFF);
    assert_eq!(Usage::Undefined.encode().unwrap(), 0x00);
}

#[test]
fn errors_describe_themselves() {
    assert_eq!(
        RangeError::Milliamperes.message(),
        "Milliamperes cannot be greater than 500."
    );
    assert_eq!(
        RangeError::Count.message(),
        "The value does not fit into its field."
    );
    assert_eq!(
        ValidationError::IncompatibleSubclassProtocol.message(),
        "The base class is not compatible with the subclass and protocol."
    );
    assert_eq!(
        EncodingError::LengthMismatch.message(),
        "bLength does not match the actual length"
    );
    assert_eq!(
        EncodingError::Range(RangeError::Milliamperes).message(),
        RangeError::Milliamperes.message()
    );
    assert_eq!(
        CompileError::Encoding(EncodingError::Validation(
            ValidationError::IncompatibleSubclassProtocol
        ))
        .message(),
        ValidationError::IncompatibleSubclassProtocol.message()
    );
    assert_eq!(
        CompileError::DuplicateKey.message(),
        "Two descriptors have the same wValue."
    );
    assert_eq!(
        CompileError::Range(RangeError::MaxPacketSize).message(),
        "max_packet_size must be less than or equal to 255."
    );
    assert!(CompileError::EmptyRequiredCollection
        .message()
        .starts_with("At least one language"));
    assert_eq!(LookupError::NotFound.message(), "Descriptor not found");
}
