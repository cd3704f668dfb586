use usb_descriptors::binary::EncodeBytes;
use usb_descriptors::configuration::configuration::Configuration;
use usb_descriptors::configuration::configuration_attributes::ConfigurationAttributes;
use usb_descriptors::configuration::configuration_builder::ConfigurationBuilder;
use usb_descriptors::configuration::configuration_descriptor::ConfigurationDescriptor;
use usb_descriptors::configuration::configuration_intrinsics::ConfigurationIntrinsics;
use usb_descriptors::configuration::configuration_node::ConfigurationNode;
use usb_descriptors::configuration::milliamperes::Milliamperes;
use usb_descriptors::descriptor::Descriptor;
use usb_descriptors::descriptor_type::DescriptorType;
use usb_descriptors::device::bcd_version::{
    us1_0, us1_1, us2_0, us2_1, us3_0, us3_1, us3_2, BcdVersion,
};
use usb_descriptors::device::device::Device;
use usb_descriptors::device::device_builder::DeviceBuilder;
use usb_descriptors::device::device_class::DeviceClass;
use usb_descriptors::device::device_device_class::DeviceDeviceClass;
use usb_descriptors::device::device_intrinsics::DeviceIntrinsics;
use usb_descriptors::device::device_node::DeviceNode;
use usb_descriptors::endpoint::direction::Direction;
use usb_descriptors::endpoint::endpoint::Endpoint;
use usb_descriptors::endpoint::endpoint_address::EndpointAddress;
use usb_descriptors::endpoint::endpoint_attributes::EndpointAttributes;
use usb_descriptors::endpoint::endpoint_descriptor::EndpointDescriptor;
use usb_descriptors::endpoint::endpoint_intrinsics::EndpointIntrinsics;
use usb_descriptors::endpoint::sync_type::SyncType;
use usb_descriptors::endpoint::transfer_type::TransferType;
use usb_descriptors::endpoint::usage_type::UsageType;
use usb_descriptors::error::{CompileError, RangeError, ValidationError};
use usb_descriptors::interface::interface::Interface;
use usb_descriptors::interface::interface_builder::InterfaceBuilder;
use usb_descriptors::interface::interface_class::InterfaceClass;
use usb_descriptors::interface::interface_descriptor::InterfaceDescriptor;
use usb_descriptors::interface::interface_device_class::InterfaceDeviceClass;
use usb_descriptors::interface::interface_intrinics::InterfaceIntrinics;
use usb_descriptors::interface::interface_node::InterfaceNode;
use usb_descriptors::string::language_code::en_us;
use usb_descriptors::string::string::String as UsbString;
use usb_descriptors::string::string_builder::StringBuidler;
use usb_descriptors::string::string_content::StringContent;
use usb_descriptors::string::string_intrinsics::StringIntrinsics;
use usb_descriptors::version::{usb2_0, Version};

fn attributes() -> EndpointAttributes {
    EndpointAttributes {
        transfer_type: TransferType::Bulk,
        sync_type: SyncType::NoSync,
        usage_type: UsageType::Data,
    }
}

fn address() -> EndpointAddress {
    EndpointAddress {
        endpoint_number: 2,
        direction: Direction::In,
    }
}

#[test]
fn endpoints_of_all_three_forms_build_alike() {
    let expected = EndpointDescriptor {
        length: 7,
        endpoint_address: address(),
        attributes: attributes(),
        max_packet_size: 64,
        interval: 3,
    };
    let plain = Endpoint {
        b_endpoint_address: address(),
        bm_attributes: attributes(),
        w_max_packet_size: 64,
        b_interval: 3,
    };
    assert_eq!(plain.build(), Ok(expected));
    let node = EndpointIntrinsics {
        endpoint_address: address(),
        attributes: attributes(),
        max_packet_size: 64,
        interval: 3,
    };
    assert_eq!(node.build(), Ok(expected));
    assert_eq!(
        expected.encode().unwrap(),
        vec![7, 5, 0x82, 0x02, 64, 0, 3]
    );

    let too_large = Endpoint {
        w_max_packet_size: 256,
        ..plain
    };
    assert_eq!(too_large.build(), Err(RangeError::MaxPacketSize));
    let too_large = EndpointIntrinsics {
        max_packet_size: 1024,
        ..node
    };
    assert_eq!(too_large.build(), Err(RangeError::MaxPacketSize));
    let largest = EndpointIntrinsics {
        max_packet_size: 255,
        ..node
    };
    assert_eq!(largest.build().unwrap().max_packet_size, 255);
}

#[test]
fn interfaces_of_all_three_forms_build_alike() {
    let expected = InterfaceDescriptor {
        interface_number: 4,
        alternate_setting: 1,
        num_endpoints: 2,
        interface_class: InterfaceClass::Image,
        interface_suclass: 1,
        interface_protocol: 1,
        interface: 9,
    };
    let plain = Interface {
        b_alternate_setting: 1,
        b_interface_class: InterfaceDeviceClass::Image,
        b_interface_sub_class: 1,
        b_interface_protocol: 1,
    };
    assert_eq!(plain.build(4, 9, 2), Ok(expected));
    let node = InterfaceIntrinics {
        alternate_setting: 1,
        interface_class: InterfaceDeviceClass::Image,
        interface_suclass: 1,
        interface_protocol: 1,
    };
    assert_eq!(node.build(4, 9, 2), Ok(expected));
    let builder = InterfaceBuilder {
        alternate_setting: 1,
        interface_class: InterfaceClass::Image,
        interface_suclass: 1,
        interface_protocol: 1,
        interface: StringBuidler::text("I"),
        endpoints: vec![],
    };
    assert_eq!(builder.build(4, 9, 2), Ok(expected));

    // without an endpoint
    assert_eq!(
        plain.build(4, 9, 0),
        Err(CompileError::EmptyRequiredCollection)
    );
    assert_eq!(
        node.build(4, 9, 0),
        Err(CompileError::EmptyRequiredCollection)
    );
    assert_eq!(
        builder.build(4, 9, 0),
        Err(CompileError::EmptyRequiredCollection)
    );

    // with a protocol that the class does not define
    let wrong = Err(CompileError::Validation(
        ValidationError::IncompatibleSubclassProtocol,
    ));
    let plain = Interface {
        b_interface_protocol: 2,
        ..plain
    };
    assert_eq!(plain.build(4, 9, 2), wrong);
    let node = InterfaceIntrinics {
        interface_protocol: 2,
        ..node
    };
    assert_eq!(node.build(4, 9, 2), wrong);
    let builder = InterfaceBuilder {
        interface_protocol: 2,
        ..builder
    };
    assert_eq!(builder.build(4, 9, 2), wrong);
    // the missing endpoint is reported first
    assert_eq!(
        builder.build(4, 9, 0),
        Err(CompileError::EmptyRequiredCollection)
    );
}

#[test]
fn interface_node_hands_out_its_own_fields() {
    let node = InterfaceNode {
        alternate_setting: 7,
        interface_class: InterfaceDeviceClass::Printer,
        interface_suclass: 1,
        interface_protocol: 2,
        interface: StringIntrinsics::text("Printer"),
        endpoints: vec![],
    };
    assert_eq!(
        node.get_interface(),
        InterfaceIntrinics {
            alternate_setting: 7,
            interface_class: InterfaceDeviceClass::Printer,
            interface_suclass: 1,
            interface_protocol: 2,
        }
    );
}

#[test]
fn configurations_of_all_three_forms_build_alike() {
    let attributes = ConfigurationAttributes {
        self_powered: true,
        remote_wakeup: true,
    };
    let expected = ConfigurationDescriptor {
        total_length: 25,
        num_interfaces: 1,
        configuration_value: 3,
        configuration: 4,
        attributes,
        max_power: Milliamperes(100),
    };
    let plain = Configuration {
        b_descriptor_type: DescriptorType::Configuration,
        bm_attributes: attributes,
        b_max_power: Milliamperes(100),
    };
    assert_eq!(plain.build(25, 1, 3, 4), Ok(expected));
    let node = ConfigurationIntrinsics {
        descriptor_type: DescriptorType::Configuration,
        attributes,
        max_power: Milliamperes(100),
    };
    assert_eq!(node.build(25, 1, 3, 4), Ok(expected));
    let builder = ConfigurationBuilder {
        configuration_value: 1,
        attributes,
        max_power: Milliamperes(100),
        configuration: StringBuidler::text("C"),
        interfaces: vec![],
    };
    assert_eq!(builder.build(25, 1, 3, 4), Ok(expected));
    assert_eq!(
        expected.encode().unwrap(),
        vec![9, 2, 25, 0, 1, 3, 4, 0xE0, 50]
    );

    // without an interface
    assert_eq!(
        plain.build(25, 0, 3, 4),
        Err(CompileError::EmptyRequiredCollection)
    );
    assert_eq!(
        node.build(25, 0, 3, 4),
        Err(CompileError::EmptyRequiredCollection)
    );
    assert_eq!(
        builder.build(25, 0, 3, 4),
        Err(CompileError::EmptyRequiredCollection)
    );

    // with too much power
    let plain = Configuration {
        b_max_power: Milliamperes(501),
        ..plain
    };
    assert_eq!(
        plain.build(25, 1, 3, 4),
        Err(CompileError::Range(RangeError::Milliamperes))
    );
    let node = ConfigurationIntrinsics {
        max_power: Milliamperes(501),
        ..node
    };
    assert_eq!(
        node.build(25, 1, 3, 4),
        Err(CompileError::Range(RangeError::Milliamperes))
    );
    assert_eq!(
        node.build(25, 0, 3, 4),
        Err(CompileError::EmptyRequiredCollection)
    );
}

#[test]
fn configuration_node_hands_out_its_own_fields() {
    let node = ConfigurationNode {
        configuration_value: 5,
        attributes: ConfigurationAttributes {
            self_powered: true,
            remote_wakeup: false,
        },
        max_power: Milliamperes(200),
        configuration: StringIntrinsics::text("C"),
        interfaces: vec![],
    };
    assert_eq!(
        node.get_configuration(),
        ConfigurationIntrinsics {
            descriptor_type: DescriptorType::Configuration,
            attributes: ConfigurationAttributes {
                self_powered: true,
                remote_wakeup: false,
            },
            max_power: Milliamperes(200),
        }
    );
}

#[test]
fn devices_of_all_three_forms_build_alike() {
    let plain = Device {
        bcd_usb: us2_0(),
        b_device_class: DeviceDeviceClass::Hub,
        b_device_sub_class: 0,
        b_device_protocol: 2,
        b_max_packet_size_0: 64,
        id_vendor: 0x1d6b,
        id_product: 0x0002,
        bcd_device: us1_1(),
    };
    let node = DeviceIntrinsics {
        bcd_usb: us2_0(),
        device_class: DeviceDeviceClass::Hub,
        device_suclass: 0,
        device_protocol: 2,
        max_packet_size_0: 64,
        id_vendor: 0x1d6b,
        id_product: 0x0002,
        bcd_device: us1_1(),
    };
    let builder = DeviceBuilder {
        usb: usb2_0(),
        device_class: DeviceClass::Hub,
        device_suclass: 0,
        device_protocol: 2,
        max_packet_size_0: 64,
        id_vendor: 0x1d6b,
        id_product: 0x0002,
        device: Version { major: 1, minor: 1 },
        manufacturer: StringBuidler::text("M"),
        product: StringBuidler::text("P"),
        serial_number: StringBuidler::text("S"),
        configurations: vec![],
    };
    let descriptor = builder.build(1, 2, 3, 4).unwrap();
    assert_eq!(plain.build(1, 2, 3, 4), Ok(descriptor));
    assert_eq!(node.build(1, 2, 3, 4), Ok(descriptor));
    assert_eq!(
        descriptor.encode().unwrap(),
        vec![18, 1, 0, 2, 9, 0, 2, 64, 0x6b, 0x1d, 0x02, 0x00, 1, 1, 2, 3, 4, 1]
    );

    let wrong = Err(ValidationError::IncompatibleSubclassProtocol);
    let plain = Device {
        b_device_sub_class: 1,
        ..plain
    };
    assert_eq!(plain.build(1, 2, 3, 4), wrong);
    let node = DeviceIntrinsics {
        device_protocol: 3,
        ..node
    };
    assert_eq!(node.build(1, 2, 3, 4), wrong);
    let builder = DeviceBuilder {
        device_class: DeviceClass::Billboard,
        ..builder
    };
    assert_eq!(builder.build(1, 2, 3, 4), wrong);
}

#[test]
fn device_node_hands_out_its_own_fields() {
    let node = DeviceNode {
        bcd_usb: us3_0(),
        device_class: DeviceDeviceClass::Miscellaneous,
        device_suclass: 2,
        device_protocol: 1,
        max_packet_size_0: 9,
        id_vendor: 0xABCD,
        id_product: 0x1234,
        bcd_device: us1_0(),
        manufacturer: StringIntrinsics::text("M"),
        product: StringIntrinsics::text("P"),
        serial_number: StringIntrinsics::text("S"),
        configurations: vec![],
    };
    assert_eq!(
        node.get_device(),
        DeviceIntrinsics {
            bcd_usb: us3_0(),
            device_class: DeviceDeviceClass::Miscellaneous,
            device_suclass: 2,
            device_protocol: 1,
            max_packet_size_0: 9,
            id_vendor: 0xABCD,
            id_product: 0x1234,
            bcd_device: us1_0(),
        }
    );
}

#[test]
fn bcd_versions() {
    assert_eq!(us1_0().encode().unwrap(), vec![0x00, 0x01]);
    assert_eq!(us1_1().encode().unwrap(), vec![0x01, 0x01]);
    assert_eq!(us2_0().encode().unwrap(), vec![0x00, 0x02]);
    assert_eq!(us2_1().encode().unwrap(), vec![0x01, 0x02]);
    assert_eq!(us3_0().encode().unwrap(), vec![0x00, 0x03]);
    assert_eq!(us3_1().encode().unwrap(), vec![0x01, 0x03]);
    assert_eq!(us3_2().encode().unwrap(), vec![0x02, 0x03]);
    let version = BcdVersion {
        major: 0xAB,
        minor: 0xCD,
    };
    assert_eq!(
        version.to_version(),
        Version {
            major: 0xAB,
            minor: 0xCD
        }
    );
}

#[test]
fn strings_of_all_three_forms_build_alike() {
    let plain = UsbString::text("Hi");
    assert_eq!(plain.b_string, StringContent::Text("Hi".to_string()));
    let node = StringIntrinsics::text("Hi");
    assert_eq!(node.string, StringContent::Text("Hi".to_string()));
    let builder = StringBuidler::text("Hi");

    let descriptor = builder.build(7);
    assert_eq!(plain.build(7), descriptor);
    assert_eq!(node.build(7), descriptor);
    assert_eq!(descriptor.index, 7);
    assert_eq!(descriptor.encode().unwrap(), vec![6, 3, b'H', 0, b'i', 0]);
    assert_eq!(descriptor.get_w_value(), 0x0307);

    let plain = UsbString::languages(vec![en_us()]);
    assert_eq!(plain.b_string, StringContent::Languages(vec![en_us()]));
    let node = StringIntrinsics::languages(vec![en_us()]);
    let builder = StringBuidler::languages(vec![en_us()]);
    let descriptor = builder.build(0);
    assert_eq!(plain.build(0), descriptor);
    assert_eq!(node.build(0), descriptor);
    assert_eq!(descriptor.encode().unwrap(), vec![4, 3, 0x09, 0x04]);
    assert_eq!(plain.clone(), plain);
    assert_eq!(node.clone(), node);
    assert_eq!(builder.clone(), builder);
}
