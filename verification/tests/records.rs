use usb_descriptors::binary::EncodeBytes;
use usb_descriptors::configuration::configuration_attributes::ConfigurationAttributes;
use usb_descriptors::configuration::configuration_descriptor::ConfigurationDescriptor;
use usb_descriptors::configuration::milliamperes::Milliamperes;
use usb_descriptors::descriptor::Descriptor;
use usb_descriptors::descriptor_type::DescriptorType;
use usb_descriptors::device::device_class::DeviceClass;
use usb_descriptors::device::device_descriptor::DeviceDescriptor;
use usb_descriptors::endpoint::direction::Direction;
use usb_descriptors::endpoint::endpoint_address::EndpointAddress;
use usb_descriptors::endpoint::endpoint_attributes::EndpointAttributes;
use usb_descriptors::endpoint::endpoint_builder::EndpointBuilder;
use usb_descriptors::endpoint::endpoint_descriptor::EndpointDescriptor;
use usb_descriptors::endpoint::sync_type::SyncType;
use usb_descriptors::endpoint::transfer_type::TransferType;
use usb_descriptors::endpoint::usage_type::UsageType;
use usb_descriptors::error::{EncodingError, RangeError, ValidationError};
use usb_descriptors::hid::hid_builder::HidBuilder;
use usb_descriptors::hid::hid_descriptor::HidDescriptor;
use usb_descriptors::interface::interface_class::InterfaceClass;
use usb_descriptors::interface::interface_descriptor::InterfaceDescriptor;
use usb_descriptors::string::language_code::{de_de, en_us};
use usb_descriptors::string::string_builder::StringBuidler;
use usb_descriptors::string::string_content::StringContent;
use usb_descriptors::string::string_descriptor::StringDescriptor;
use usb_descriptors::version::{usb2_0, Version};

#[test]
fn configuration_descriptor_test_encode() {
    let descriptor = ConfigurationDescriptor {
        total_length: 34,
        num_interfaces: 1,
        configuration_value: 2,
        configuration: 3,
        attributes: ConfigurationAttributes {
            self_powered: true,
            remote_wakeup: false,
        },
        max_power: Milliamperes(50),
    };

    assert_eq!(
        descriptor.encode().unwrap(),
        vec![
            9,           // bLength
            2,           // bDescriptorType
            34,          // wTotalLength
            0,           //
            1,           // bNumInterfaces
            2,           // bConfigurationValue
            3,           // iConfiguration
            0b1100_0000, // bmAttributes
            25,          // bMaxPower
        ]
    );
}

#[test]
fn configuration_descriptor_rejects_too_much_power() {
    let descriptor = ConfigurationDescriptor {
        total_length: 0x1234,
        num_interfaces: 1,
        configuration_value: 7,
        configuration: 0,
        attributes: ConfigurationAttributes {
            self_powered: false,
            remote_wakeup: false,
        },
        max_power: Milliamperes(501),
    };
    assert_eq!(
        descriptor.encode(),
        Err(EncodingError::Range(RangeError::Milliamperes))
    );
    assert_eq!(descriptor.get_descriptor_type(), DescriptorType::Configuration);
    assert_eq!(descriptor.get_w_value(), 0x0207);
}

#[test]
fn configuration_descriptor_writes_total_length_low_byte_first() {
    let descriptor = ConfigurationDescriptor {
        total_length: 0x1234,
        num_interfaces: 1,
        configuration_value: 7,
        configuration: 0,
        attributes: ConfigurationAttributes {
            self_powered: false,
            remote_wakeup: false,
        },
        max_power: Milliamperes(500),
    };
    assert_eq!(
        descriptor.encode().unwrap(),
        vec![9, 2, 0x34, 0x12, 1, 7, 0, 0x80, 250]
    );
}

#[test]
fn device_descriptor_test_encode() {
    let descriptor = DeviceDescriptor {
        usb: usb2_0(),
        device_class: DeviceClass::Miscellaneous,
        device_suclass: 0x01,
        device_protocol: 0x02,
        max_packet_size_0: 0x08,
        id_vendor: 0x16c0,
        id_product: 0x05df,
        device: Version {
            major: 0x01,
            minor: 0x00,
        },
        manufacturer: 0x01,
        product: 0x02,
        serial_number: 0x03,
        num_configurations: 0x01,
    };

    assert_eq!(
        descriptor.encode().unwrap(),
        vec![
            18, // bLength
            1,  // bDescriptorType
            0x00, 0x02, // bcdUSB
            0xef, // bDeviceClass
            0x01, // bDeviceSubClass
            0x02, // bDeviceProtocol
            0x08, // bMaxPacketSize0
            0xc0, 0x16, // idVendor
            0xdf, 0x05, // idProduct
            0x00, 0x01, // bcdDevice
            0x01, // iManufacturer
            0x02, // iProduct
            0x03, // iSerialNumber
            0x01, // bNumConfigurations
        ]
    );
}

#[test]
fn device_descriptor_checks_its_class_again() {
    let descriptor = DeviceDescriptor {
        usb: usb2_0(),
        device_class: DeviceClass::Hub,
        device_suclass: 0x00,
        device_protocol: 0x03,
        max_packet_size_0: 0x08,
        id_vendor: 1,
        id_product: 2,
        device: usb2_0(),
        manufacturer: 1,
        product: 2,
        serial_number: 3,
        num_configurations: 1,
    };
    assert_eq!(
        descriptor.encode(),
        Err(EncodingError::Validation(
            ValidationError::IncompatibleSubclassProtocol
        ))
    );
    assert_eq!(descriptor.get_descriptor_type(), DescriptorType::Device);
    assert_eq!(descriptor.get_w_value(), 0x0100);
}

#[test]
fn endpoint_descriptor_test_encode() {
    let endpoint_descriptor = EndpointBuilder {
        endpoint_address: EndpointAddress {
            endpoint_number: 1,
            direction: Direction::In,
        },
        attributes: EndpointAttributes {
            transfer_type: TransferType::Interrupt,
            sync_type: SyncType::NoSync,
            usage_type: UsageType::Data,
        },
        max_packet_size: 16,
        interval: 10,
    }
    .build()
    .unwrap();
    let endpoint_descriptor_encoded = vec![7, 5, 129, 3, 16, 0, 10];
    assert_eq!(
        endpoint_descriptor.encode().unwrap(),
        endpoint_descriptor_encoded
    );
}

#[test]
fn endpoint_descriptor_with_wrong_length_is_a_mismatch() {
    let descriptor = EndpointDescriptor {
        length: 8,
        endpoint_address: EndpointAddress {
            endpoint_number: 1,
            direction: Direction::In,
        },
        attributes: EndpointAttributes {
            transfer_type: TransferType::Interrupt,
            sync_type: SyncType::NoSync,
            usage_type: UsageType::Data,
        },
        max_packet_size: 16,
        interval: 10,
    };
    assert_eq!(descriptor.encode(), Err(EncodingError::LengthMismatch));
    assert_eq!(descriptor.get_descriptor_type(), DescriptorType::Endpoint);
    assert_eq!(descriptor.get_w_value(), 0x0581);
}

#[test]
fn endpoint_builder_rejects_large_packets() {
    let mut endpoint = EndpointBuilder {
        endpoint_address: EndpointAddress {
            endpoint_number: 1,
            direction: Direction::In,
        },
        attributes: EndpointAttributes {
            transfer_type: TransferType::Interrupt,
            sync_type: SyncType::NoSync,
            usage_type: UsageType::Data,
        },
        max_packet_size: 255,
        interval: 10,
    };
    assert_eq!(endpoint.build().unwrap().max_packet_size, 255);
    endpoint.max_packet_size = 256;
    assert_eq!(endpoint.build(), Err(RangeError::MaxPacketSize));
    assert_eq!(
        RangeError::MaxPacketSize.message(),
        "max_packet_size must be less than or equal to 255."
    );
}

#[test]
fn interface_descriptor_test_encode() {
    let interface_descriptor = InterfaceDescriptor {
        alternate_setting: 0,
        interface_class: InterfaceClass::HumanInterfaceDevice,
        interface_suclass: 0,
        interface_protocol: 0,
        interface_number: 0,
        num_endpoints: 1,
        interface: 1,
    };
    let interface_descriptor_encoded = vec![9, 4, 0, 0, 1, 3, 0, 0, 1];
    assert_eq!(
        interface_descriptor.encode().unwrap(),
        interface_descriptor_encoded
    );
}

#[test]
fn interface_descriptor_checks_its_class_again() {
    let descriptor = InterfaceDescriptor {
        alternate_setting: 0,
        interface_class: InterfaceClass::Image,
        interface_suclass: 1,
        interface_protocol: 2,
        interface_number: 5,
        num_endpoints: 1,
        interface: 1,
    };
    assert_eq!(
        descriptor.encode(),
        Err(EncodingError::Validation(
            ValidationError::IncompatibleSubclassProtocol
        ))
    );
    assert_eq!(descriptor.get_descriptor_type(), DescriptorType::Interface);
    assert_eq!(descriptor.get_w_value(), 0x0405);
}

#[test]
fn string_descriptor_test_encode() {
    let descriptor = StringDescriptor {
        index: 1,
        string: StringContent::Text("Hello".to_string()),
    };

    let bytes = descriptor.encode().unwrap();
    assert_eq!(
        bytes,
        vec![
            12,  // bLength
            3,   // bDescriptorType
            72,  // H
            0,   //
            101, // e
            0,   //
            108, // l
            0,   //
            108, // l
            0,   //
            111, // o
            0,   //
        ]
    );
}

#[test]
fn string_descriptor_of_languages() {
    let descriptor = StringDescriptor {
        index: 0,
        string: StringContent::Languages(vec![en_us(), de_de()]),
    };
    assert_eq!(
        descriptor.encode().unwrap(),
        vec![6, 3, 0x09, 0x04, 0x07, 0x04]
    );
    assert_eq!(descriptor.get_descriptor_type(), DescriptorType::String);
    assert_eq!(descriptor.get_w_value(), 0x0300);
}

#[test]
fn string_descriptor_length_has_to_fit_one_byte() {
    let longest = StringDescriptor {
        index: 9,
        string: StringContent::Text("a".repeat(126)),
    };
    let bytes = longest.encode().unwrap();
    assert_eq!(bytes.len(), 254);
    assert_eq!(bytes[0], 254);
    assert_eq!(longest.get_w_value(), 0x0309);

    let too_long = StringDescriptor {
        index: 9,
        string: StringContent::Text("a".repeat(127)),
    };
    assert_eq!(too_long.encode(), Err(EncodingError::LengthMismatch));
}

#[test]
fn test_string_content_encode() {
    assert_eq!(
        StringContent::Text("Hello".to_string()).encode().unwrap(),
        vec![
            0x48, 0x00, // H
            0x65, 0x00, // e
            0x6C, 0x00, // l
            0x6C, 0x00, // l
            0x6F, 0x00, // o
        ]
    );
    assert_eq!(
        StringContent::Languages(vec![en_us(), de_de()])
            .encode()
            .unwrap(),
        vec![
            0x09, 0x04, // EN_US
            0x07, 0x04, // DE_DE
        ]
    );
}

#[test]
fn string_content_text_is_utf16() {
    // U+00E9 is one unit, U+20AC is one unit, U+1F600 is a surrogate pair.
    let content = StringContent::Text("\u{e9}\u{20ac}\u{1f600}".to_string());
    assert_eq!(
        content.encode().unwrap(),
        vec![0xE9, 0x00, 0xAC, 0x20, 0x3D, 0xD8, 0x00, 0xDE]
    );
    assert_eq!(content.units(), vec![0x00E9, 0x20AC, 0xD83D, 0xDE00]);
    assert_eq!(content.len(), Ok(8));
    let expected: Vec<u16> = "\u{e9}\u{20ac}\u{1f600}".encode_utf16().collect();
    assert_eq!(content.units(), expected);
}

#[test]
fn string_content_len_counts_bytes() {
    assert_eq!(StringContent::Text(String::new()).len(), Ok(0));
    assert_eq!(StringContent::Text("Hello".to_string()).len(), Ok(10));
    assert_eq!(
        StringContent::Languages(vec![en_us(), de_de()]).len(),
        Ok(4)
    );
    assert_eq!(StringContent::Text("a".repeat(127)).len(), Ok(254));
    assert_eq!(
        StringContent::Text("a".repeat(128)).len(),
        Err(RangeError::Count)
    );
}

#[test]
fn string_content_clone_is_equal() {
    let text = StringContent::Text("Hello".to_string());
    assert_eq!(text.clone(), text);
    let languages = StringContent::Languages(vec![en_us(), de_de()]);
    assert_eq!(languages.clone(), languages);
}

#[test]
fn test_string_builder_text() {
    let string = StringBuidler::text("Hello, World!");
    assert_eq!(string.to_string(), "Text: Hello, World!");
    assert_eq!(
        string.build(1).string,
        StringContent::Text("Hello, World!".to_string())
    );
}

#[test]
fn test_string_builder_languages() {
    let languages = StringContent::Languages(vec![en_us(), de_de()]);
    let string = StringBuidler { string: languages };
    assert_eq!(string.to_string(), "Languages: [0x0409, 0x0407, ]");
}

#[test]
fn test_string_builder_build() {
    let string = StringBuidler::text("Hello, World!");
    let descriptor = string.build(1);
    assert_eq!(descriptor.index, 1);
    assert_eq!(
        descriptor.string,
        StringContent::Text("Hello, World!".to_string())
    );
}

#[test]
fn string_builder_of_languages() {
    let string = StringBuidler::languages(vec![en_us()]);
    assert_eq!(string.string, StringContent::Languages(vec![en_us()]));
    assert_eq!(string.to_string(), "Languages: [0x0409, ]");
    assert_eq!(
        StringBuidler::languages(vec![]).to_string(),
        "Languages: []"
    );
}

#[test]
fn hid_descriptor_layout() {
    let descriptor = HidBuilder {
        bcd_hid: Version {
            major: 0x01,
            minor: 0x11,
        },
        country_code: 0x21,
    }
    .build(1, 0x0134);
    assert_eq!(
        descriptor.encode().unwrap(),
        vec![9, 0x21, 0x11, 0x01, 0x21, 1, 0x22, 0x34, 0x01]
    );
    assert_eq!(descriptor.get_descriptor_type(), DescriptorType::Hid);
    assert_eq!(descriptor.get_w_value(), 0x2100);

    let wrong = HidDescriptor {
        length: 10,
        ..descriptor
    };
    assert_eq!(wrong.encode(), Err(EncodingError::LengthMismatch));
}
