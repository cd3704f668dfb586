use usb_descriptors::binary::{EncodeByte, EncodeBytes};
use usb_descriptors::configuration::configuration_attributes::ConfigurationAttributes;
use usb_descriptors::configuration::configuration_descriptor::CONFIGURATION_DESCRIPTOR_TYPE;
use usb_descriptors::configuration::milliamperes::Milliamperes;
use usb_descriptors::descriptor_type::DescriptorType;
use usb_descriptors::device::device_class::DeviceClass;
use usb_descriptors::device::device_descriptor::DEVICE_DESCRIPTOR_TYPE;
use usb_descriptors::device::device_device_class::DeviceDeviceClass;
use usb_descriptors::endpoint::direction::Direction;
use usb_descriptors::endpoint::endpoint_address::EndpointAddress;
use usb_descriptors::endpoint::endpoint_attributes::EndpointAttributes;
use usb_descriptors::endpoint::endpoint_descriptor::ENDPOINT_DESCRIPTOR_TYPE;
use usb_descriptors::endpoint::sync_type::SyncType;
use usb_descriptors::endpoint::transfer_type::TransferType;
use usb_descriptors::endpoint::usage_type::UsageType;
use usb_descriptors::error::RangeError;
use usb_descriptors::interface::interface_class::InterfaceClass;
use usb_descriptors::interface::interface_descriptor::INTERFACE_DESCRIPTOR_TYPE;
use usb_descriptors::interface::interface_device_class::InterfaceDeviceClass;
use usb_descriptors::string::language_code::{de_de, en_us};

#[test]
fn configuration_attributes_test_encode() {
    let attributes = ConfigurationAttributes {
        self_powered: true,
        remote_wakeup: false,
    };
    assert_eq!(attributes.encode().unwrap(), 0b1100_0000);

    let attributes = ConfigurationAttributes {
        self_powered: false,
        remote_wakeup: true,
    };

    assert_eq!(attributes.encode().unwrap(), 0b1010_0000);

    let attributes = ConfigurationAttributes {
        self_powered: true,
        remote_wakeup: true,
    };

    assert_eq!(attributes.encode().unwrap(), 0b1110_0000);
}

#[test]
fn configuration_attributes_bit_seven_is_always_set() {
    let attributes = ConfigurationAttributes {
        self_powered: false,
        remote_wakeup: false,
    };
    assert_eq!(attributes.encode().unwrap(), 0x80);
}

#[test]
fn test_milliamperes_encode() {
    assert_eq!(Milliamperes(0).encode().unwrap(), 0);
    assert_eq!(Milliamperes(1).encode().unwrap(), 0);
    assert_eq!(Milliamperes(2).encode().unwrap(), 1);
    assert_eq!(Milliamperes(500).encode().unwrap(), 250);
    assert_eq!(
        Milliamperes(501).encode().map_err(|e| e.message()),
        Err("Milliamperes cannot be greater than 500.")
    );
    assert_eq!(Milliamperes(501).encode(), Err(RangeError::Milliamperes));
    assert_eq!(Milliamperes(u16::MAX).encode(), Err(RangeError::Milliamperes));
}

const DESCRIPTOR_TYPE_DEVICE: u8 = 0x01;
const DESCRIPTOR_TYPE_CONFIGURATION: u8 = 0x02;
const DESCRIPTOR_TYPE_INTERFACE: u8 = 0x04;
const DESCRIPTOR_TYPE_ENDPOINT: u8 = 0x05;

#[test]
fn descriptor_type_test_encode() {
    let descriptor_type_device = DescriptorType::Device.encode().unwrap();
    assert_eq!(descriptor_type_device, DESCRIPTOR_TYPE_DEVICE);

    let descriptor_type_device = DEVICE_DESCRIPTOR_TYPE.encode().unwrap();
    assert_eq!(descriptor_type_device, DESCRIPTOR_TYPE_DEVICE);

    let descriptor_type_configuration = DescriptorType::Configuration.encode().unwrap();
    assert_eq!(descriptor_type_configuration, DESCRIPTOR_TYPE_CONFIGURATION);

    let descriptor_type_configuration = CONFIGURATION_DESCRIPTOR_TYPE.encode().unwrap();
    assert_eq!(descriptor_type_configuration, DESCRIPTOR_TYPE_CONFIGURATION);

    let descriptor_type_interface = DescriptorType::Interface.encode().unwrap();
    assert_eq!(descriptor_type_interface, DESCRIPTOR_TYPE_INTERFACE);

    let descriptor_type_interface = INTERFACE_DESCRIPTOR_TYPE.encode().unwrap();
    assert_eq!(descriptor_type_interface, DESCRIPTOR_TYPE_INTERFACE);

    let descriptor_type_endpoint = DescriptorType::Endpoint.encode().unwrap();
    assert_eq!(descriptor_type_endpoint, DESCRIPTOR_TYPE_ENDPOINT);

    let descriptor_type_endpoint = ENDPOINT_DESCRIPTOR_TYPE.encode().unwrap();
    assert_eq!(descriptor_type_endpoint, DESCRIPTOR_TYPE_ENDPOINT);
}

#[test]
fn descriptor_type_remaining_codes_and_names() {
    assert_eq!(DescriptorType::String.encode().unwrap(), 0x03);
    assert_eq!(DescriptorType::Hid.encode().unwrap(), 0x21);
    assert_eq!(DescriptorType::Report.encode().unwrap(), 0x22);
    assert_eq!(DescriptorType::Device.to_string(), "Device");
    assert_eq!(DescriptorType::Configuration.to_string(), "Configuration");
    assert_eq!(DescriptorType::String.to_string(), "String");
    assert_eq!(DescriptorType::Interface.to_string(), "Interface");
    assert_eq!(DescriptorType::Endpoint.to_string(), "Endpoint");
    assert_eq!(DescriptorType::Hid.to_string(), "Hid");
    assert_eq!(DescriptorType::Report.to_string(), "Report");
}

const DEVICE_DEVICE: u8 = 0x00;
const DEVICE_COMMUNICATION_AND_CDC_CONTROL: u8 = 0x02;
const DEVICE_HUB: u8 = 0x09;
const DEVICE_BILLBOARD: u8 = 0x11;
const DEVICE_DIAGNOSTIC: u8 = 0xDC;
const DEVICE_MISCELLANEOUS: u8 = 0xEF;
const DEVICE_VENDOR_SPECIFIC: u8 = 0xFF;

#[test]
fn device_class_test_device_device_class() {
    assert_eq!(DeviceClass::Device.encode().unwrap(), DEVICE_DEVICE);
    assert_eq!(
        DeviceClass::CommunicationAndCDCControl.encode().unwrap(),
        DEVICE_COMMUNICATION_AND_CDC_CONTROL
    );
    assert_eq!(DeviceClass::Hub.encode().unwrap(), DEVICE_HUB);
    assert_eq!(DeviceClass::Billboard.encode().unwrap(), DEVICE_BILLBOARD);
    assert_eq!(DeviceClass::Diagnostic.encode().unwrap(), DEVICE_DIAGNOSTIC);
    assert_eq!(
        DeviceClass::Miscellaneous.encode().unwrap(),
        DEVICE_MISCELLANEOUS
    );
    assert_eq!(
        DeviceClass::VendorSpecific.encode().unwrap(),
        DEVICE_VENDOR_SPECIFIC
    );
}

#[test]
fn device_device_class_test_device_device_class() {
    assert_eq!(DeviceDeviceClass::Device.encode().unwrap(), DEVICE_DEVICE);
    assert_eq!(
        DeviceDeviceClass::CommunicationAndCDCControl
            .encode()
            .unwrap(),
        DEVICE_COMMUNICATION_AND_CDC_CONTROL
    );
    assert_eq!(DeviceDeviceClass::Hub.encode().unwrap(), DEVICE_HUB);
    assert_eq!(
        DeviceDeviceClass::Billboard.encode().unwrap(),
        DEVICE_BILLBOARD
    );
    assert_eq!(
        DeviceDeviceClass::Diagnostic.encode().unwrap(),
        DEVICE_DIAGNOSTIC
    );
    assert_eq!(
        DeviceDeviceClass::Miscellaneous.encode().unwrap(),
        DEVICE_MISCELLANEOUS
    );
    assert_eq!(
        DeviceDeviceClass::VendorSpecific.encode().unwrap(),
        DEVICE_VENDOR_SPECIFIC
    );
}

const DIRECTION_OUT: u8 = 0x00;
const DIRECTION_IN: u8 = 0x01;

#[test]
fn direction_test_encode() {
    assert_eq!(Direction::Out.encode().unwrap(), DIRECTION_OUT);
    assert_eq!(Direction::In.encode().unwrap(), DIRECTION_IN);
}

#[test]
fn endpoint_address_test_encode() {
    let endpoint_address1 = EndpointAddress {
        endpoint_number: 1,
        direction: Direction::In,
    };
    assert_eq!(endpoint_address1.encode().unwrap(), 129);

    let endpoint_address2 = EndpointAddress {
        endpoint_number: 2,
        direction: Direction::Out,
    };
    assert_eq!(endpoint_address2.encode().unwrap(), 2);

    let endpoint_address3 = EndpointAddress {
        endpoint_number: 3,
        direction: Direction::In,
    };
    assert_eq!(endpoint_address3.encode().unwrap(), 131);
}

#[test]
fn endpoint_address_keeps_reserved_bits_zero() {
    let address = EndpointAddress {
        endpoint_number: 0xFF,
        direction: Direction::Out,
    };
    assert_eq!(address.encode().unwrap(), 0x0F);
    let address = EndpointAddress {
        endpoint_number: 0x15,
        direction: Direction::In,
    };
    assert_eq!(address.encode().unwrap(), 0x85);
}

#[test]
fn endpoint_attributes_test_encode() {
    let endpoint_attributes = EndpointAttributes {
        transfer_type: TransferType::Interrupt,
        sync_type: SyncType::NoSync,
        usage_type: UsageType::Data,
    }
    .encode()
    .unwrap();
    let endpoint_attributes_encoded = 0b00000011;
    assert_eq!(endpoint_attributes, endpoint_attributes_encoded);
}

#[test]
fn endpoint_attributes_places_each_field() {
    let attributes = EndpointAttributes {
        transfer_type: TransferType::Isochronous,
        sync_type: SyncType::Adaptive,
        usage_type: UsageType::ImplicitFeedbackData,
    };
    assert_eq!(attributes.encode().unwrap(), 0b0010_1001);
    let attributes = EndpointAttributes {
        transfer_type: TransferType::Bulk,
        sync_type: SyncType::Synchronous,
        usage_type: UsageType::Feedback,
    };
    assert_eq!(attributes.encode().unwrap(), 0b0001_1110);
    assert_eq!(TransferType::Control.encode().unwrap(), 0);
    assert_eq!(SyncType::Asynchronous.encode().unwrap(), 1);
    assert_eq!(UsageType::Data.encode().unwrap(), 0);
}

const INTERFACE_AUDIO: u8 = 0x01;
const INTERFACE_COMMUNICATION_AND_CDC_CONTROL: u8 = 0x02;
const INTERFACE_HUMAN_INTERFACE_DEVICE: u8 = 0x03;
const INTERFACE_PHYSICAL: u8 = 0x05;
const INTERFACE_IMAGE: u8 = 0x06;
const INTERFACE_PRINTER: u8 = 0x07;
const INTERFACE_MASS_STORAGE: u8 = 0x08;
const INTERFACE_CDC_DATA: u8 = 0x0A;
const INTERFACE_SMART_CARD: u8 = 0x0B;
const INTERFACE_CONTENT_SECURITY: u8 = 0x0D;
const INTERFACE_VIDEO: u8 = 0x0E;
const INTERFACE_PERSONAL_HEALTHCARE: u8 = 0x0F;
const INTERFACE_AUDIO_VIDEO: u8 = 0x10;
const INTERFACE_USTYPE_C_BRIDGE: u8 = 0x12;
const INTERFACE_USBULK_DISPLAY: u8 = 0x13;
const INTERFACE_MCTP_OVER_USB: u8 = 0x14;
const INTERFACE_I3C: u8 = 0x15;
const INTERFACE_DIAGNOSTIC: u8 = 0xDC;
const INTERFACE_WIRELESS_CONTROLLER: u8 = 0xE0;
const INTERFACE_MISCELLANEOUS: u8 = 0xEF;
const INTERFACE_APPLICATION_SPECIFIC: u8 = 0xFE;
const INTERFACE_VENDOR_SPECIFIC: u8 = 0xFF;

#[test]
fn interface_class_test_interface_device_class() {
    assert_eq!(InterfaceClass::Audio.encode().unwrap(), INTERFACE_AUDIO);
    assert_eq!(
        InterfaceClass::CommunicationAndCDCControl.encode().unwrap(),
        INTERFACE_COMMUNICATION_AND_CDC_CONTROL
    );
    assert_eq!(
        InterfaceClass::HumanInterfaceDevice.encode().unwrap(),
        INTERFACE_HUMAN_INTERFACE_DEVICE
    );
    assert_eq!(
        InterfaceClass::Physical.encode().unwrap(),
        INTERFACE_PHYSICAL
    );
    assert_eq!(InterfaceClass::Image.encode().unwrap(), INTERFACE_IMAGE);
    assert_eq!(InterfaceClass::Printer.encode().unwrap(), INTERFACE_PRINTER);
    assert_eq!(
        InterfaceClass::MassStorage.encode().unwrap(),
        INTERFACE_MASS_STORAGE
    );
    assert_eq!(
        InterfaceClass::CdcData.encode().unwrap(),
        INTERFACE_CDC_DATA
    );
    assert_eq!(
        InterfaceClass::SmartCard.encode().unwrap(),
        INTERFACE_SMART_CARD
    );
    assert_eq!(
        InterfaceClass::ContentSecurity.encode().unwrap(),
        INTERFACE_CONTENT_SECURITY
    );
    assert_eq!(InterfaceClass::Video.encode().unwrap(), INTERFACE_VIDEO);
    assert_eq!(
        InterfaceClass::PersonalHealthcare.encode().unwrap(),
        INTERFACE_PERSONAL_HEALTHCARE
    );
    assert_eq!(
        InterfaceClass::AudioVideo.encode().unwrap(),
        INTERFACE_AUDIO_VIDEO
    );
    assert_eq!(
        InterfaceClass::UsbTypeCBridge.encode().unwrap(),
        INTERFACE_USTYPE_C_BRIDGE
    );
    assert_eq!(
        InterfaceClass::UsbBulkDisplay.encode().unwrap(),
        INTERFACE_USBULK_DISPLAY
    );
    assert_eq!(
        InterfaceClass::MctpOverUSB.encode().unwrap(),
        INTERFACE_MCTP_OVER_USB
    );
    assert_eq!(InterfaceClass::I3c.encode().unwrap(), INTERFACE_I3C);
    assert_eq!(
        InterfaceClass::Diagnostic.encode().unwrap(),
        INTERFACE_DIAGNOSTIC
    );
    assert_eq!(
        InterfaceClass::WirelessController.encode().unwrap(),
        INTERFACE_WIRELESS_CONTROLLER
    );
    assert_eq!(
        InterfaceClass::Miscellaneous.encode().unwrap(),
        INTERFACE_MISCELLANEOUS
    );
    assert_eq!(
        InterfaceClass::ApplicationSpecific.encode().unwrap(),
        INTERFACE_APPLICATION_SPECIFIC
    );
    assert_eq!(
        InterfaceClass::VendorSpecific.encode().unwrap(),
        INTERFACE_VENDOR_SPECIFIC
    );
}

#[test]
fn interface_device_class_test_interface_device_class() {
    assert_eq!(
        InterfaceDeviceClass::Audio.encode().unwrap(),
        INTERFACE_AUDIO
    );
    assert_eq!(
        InterfaceDeviceClass::CommunicationAndCDCControl
            .encode()
            .unwrap(),
        INTERFACE_COMMUNICATION_AND_CDC_CONTROL
    );
    assert_eq!(
        InterfaceDeviceClass::HumanInterfaceDevice.encode().unwrap(),
        INTERFACE_HUMAN_INTERFACE_DEVICE
    );
    assert_eq!(
        InterfaceDeviceClass::Physical.encode().unwrap(),
        INTERFACE_PHYSICAL
    );
    assert_eq!(
        InterfaceDeviceClass::Image.encode().unwrap(),
        INTERFACE_IMAGE
    );
    assert_eq!(
        InterfaceDeviceClass::Printer.encode().unwrap(),
        INTERFACE_PRINTER
    );
    assert_eq!(
        InterfaceDeviceClass::MassStorage.encode().unwrap(),
        INTERFACE_MASS_STORAGE
    );
    assert_eq!(
        InterfaceDeviceClass::CdcData.encode().unwrap(),
        INTERFACE_CDC_DATA
    );
    assert_eq!(
        InterfaceDeviceClass::SmartCard.encode().unwrap(),
        INTERFACE_SMART_CARD
    );
    assert_eq!(
        InterfaceDeviceClass::ContentSecurity.encode().unwrap(),
        INTERFACE_CONTENT_SECURITY
    );
    assert_eq!(
        InterfaceDeviceClass::Video.encode().unwrap(),
        INTERFACE_VIDEO
    );
    assert_eq!(
        InterfaceDeviceClass::PersonalHealthcare.encode().unwrap(),
        INTERFACE_PERSONAL_HEALTHCARE
    );
    assert_eq!(
        InterfaceDeviceClass::AudioVideo.encode().unwrap(),
        INTERFACE_AUDIO_VIDEO
    );
    assert_eq!(
        InterfaceDeviceClass::UsbTypeCBridge.encode().unwrap(),
        INTERFACE_USTYPE_C_BRIDGE
    );
    assert_eq!(
        InterfaceDeviceClass::UsbBulkDisplay.encode().unwrap(),
        INTERFACE_USBULK_DISPLAY
    );
    assert_eq!(
        InterfaceDeviceClass::MctpOverUSB.encode().unwrap(),
        INTERFACE_MCTP_OVER_USB
    );
    assert_eq!(InterfaceDeviceClass::I3c.encode().unwrap(), INTERFACE_I3C);
    assert_eq!(
        InterfaceDeviceClass::Diagnostic.encode().unwrap(),
        INTERFACE_DIAGNOSTIC
    );
    assert_eq!(
        InterfaceDeviceClass::WirelessController.encode().unwrap(),
        INTERFACE_WIRELESS_CONTROLLER
    );
    assert_eq!(
        InterfaceDeviceClass::Miscellaneous.encode().unwrap(),
        INTERFACE_MISCELLANEOUS
    );
    assert_eq!(
        InterfaceDeviceClass::ApplicationSpecific.encode().unwrap(),
        INTERFACE_APPLICATION_SPECIFIC
    );
    assert_eq!(
        InterfaceDeviceClass::VendorSpecific.encode().unwrap(),
        INTERFACE_VENDOR_SPECIFIC
    );
}

#[test]
fn test_language_code_encode() {
    assert_eq!(en_us().encode().unwrap(), vec![0x09, 0x04]);
    assert_eq!(de_de().encode().unwrap(), vec![0x07, 0x04]);
}

#[test]
fn language_code_is_shown_as_four_hex_digits() {
    assert_eq!(en_us().to_string(), "0x0409");
    assert_eq!(de_de().to_string(), "0x0407");
}
