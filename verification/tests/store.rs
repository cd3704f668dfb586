use usb_descriptors::binary::EncodeByte;
use usb_descriptors::configuration::configuration_attributes::ConfigurationAttributes;
use usb_descriptors::configuration::configuration_node::ConfigurationNode;
use usb_descriptors::configuration::milliamperes::Milliamperes;
use usb_descriptors::descriptor_store::DescriptorStore;
use usb_descriptors::descriptor_type::DescriptorType;
use usb_descriptors::device::bcd_version::us2_0;
use usb_descriptors::device::device_device_class::DeviceDeviceClass;
use usb_descriptors::device::device_node::DeviceNode;
use usb_descriptors::endpoint::direction::Direction;
use usb_descriptors::endpoint::endpoint_address::EndpointAddress;
use usb_descriptors::endpoint::endpoint_attributes::EndpointAttributes;
use usb_descriptors::endpoint::endpoint_intrinsics::EndpointIntrinsics;
use usb_descriptors::endpoint::sync_type::SyncType;
use usb_descriptors::endpoint::transfer_type::TransferType;
use usb_descriptors::endpoint::usage_type::UsageType;
use usb_descriptors::error::{
    CompileError, EncodingError, LookupError, RangeError, ValidationError,
};
use usb_descriptors::interface::interface_device_class::InterfaceDeviceClass;
use usb_descriptors::interface::interface_node::InterfaceNode;
use usb_descriptors::string::language_code::{de_de, en_us};
use usb_descriptors::string::string_intrinsics::StringIntrinsics;

fn endpoint(number: u8, direction: Direction) -> EndpointIntrinsics {
    EndpointIntrinsics {
        endpoint_address: EndpointAddress {
            endpoint_number: number,
            direction,
        },
        attributes: EndpointAttributes {
            transfer_type: TransferType::Interrupt,
            sync_type: SyncType::NoSync,
            usage_type: UsageType::Data,
        },
        max_packet_size: 0x40,
        interval: 0x01,
    }
}

fn interface(name: &str, endpoints: Vec<EndpointIntrinsics>) -> InterfaceNode {
    InterfaceNode {
        interface: StringIntrinsics::text(name),
        alternate_setting: 0x00,
        interface_class: InterfaceDeviceClass::HumanInterfaceDevice,
        interface_suclass: 0x00,
        interface_protocol: 0x00,
        endpoints,
    }
}

fn configuration(name: &str, value: u8, interfaces: Vec<InterfaceNode>) -> ConfigurationNode {
    ConfigurationNode {
        configuration: StringIntrinsics::text(name),
        configuration_value: value,
        attributes: ConfigurationAttributes {
            self_powered: false,
            remote_wakeup: false,
        },
        max_power: Milliamperes(500),
        interfaces,
    }
}

fn device(configurations: Vec<ConfigurationNode>) -> DeviceNode {
    DeviceNode {
        bcd_usb: us2_0(),
        device_class: DeviceDeviceClass::Device,
        device_suclass: 0x00,
        device_protocol: 0x00,
        max_packet_size_0: 0x40,
        id_vendor: 0x1234,
        id_product: 0x1234,
        bcd_device: us2_0(),
        manufacturer: StringIntrinsics::text("Manufacturer"),
        product: StringIntrinsics::text("Product"),
        serial_number: StringIntrinsics::text("12345"),
        configurations,
    }
}

fn small_device() -> DeviceNode {
    device(vec![configuration(
        "Configuration 0",
        0x01,
        vec![interface("Interface 0", vec![endpoint(0x01, Direction::Out)])],
    )])
}

#[test]
fn descriptor_store_test_descriptor_store() {
    let store = DescriptorStore::new(
        DeviceNode {
            bcd_usb: us2_0(),
            device_class: DeviceDeviceClass::Device,
            device_suclass: 0x00,
            device_protocol: 0x00,
            max_packet_size_0: 0x40,
            id_vendor: 0x1234,
            id_product: 0x1234,
            bcd_device: us2_0(),
            manufacturer: StringIntrinsics::text("Manufacturer"),
            product: StringIntrinsics::text("Product"),
            serial_number: StringIntrinsics::text("12345"),
            configurations: vec![ConfigurationNode {
                configuration: StringIntrinsics::text("Configuration 0"),
                configuration_value: 0x01,
                attributes: ConfigurationAttributes {
                    self_powered: false,
                    remote_wakeup: false,
                },
                max_power: Milliamperes(500),
                interfaces: vec![InterfaceNode {
                    interface: StringIntrinsics::text("Interface 0"),
                    alternate_setting: 0x00,
                    interface_class: InterfaceDeviceClass::HumanInterfaceDevice,
                    interface_suclass: 0x00,
                    interface_protocol: 0x00,
                    endpoints: vec![EndpointIntrinsics {
                        endpoint_address: EndpointAddress {
                            endpoint_number: 0x01,
                            direction: Direction::Out,
                        },
                        attributes: EndpointAttributes {
                            transfer_type: TransferType::Interrupt,
                            sync_type: SyncType::NoSync,
                            usage_type: UsageType::Data,
                        },
                        max_packet_size: 0x40,
                        interval: 0x01,
                    }],
                }],
            }],
        },
        StringIntrinsics::languages(vec![en_us()]),
    )
    .unwrap();

    for i in 0..store.descriptor_values().len() {
        let value = store.descriptor_values()[i];
        let descriptor = &store.descriptors()[i];
        println!("{} {}", value, descriptor.get_descriptor_type().to_string())
    }

    // descriptos list and descriptor_values have to be equal
    assert_eq!(store.descriptor_values().len(), store.descriptors().len());

    // check descriptor_values for dubplicates
    let mut found_descriptor_values = Vec::<u16>::new();
    for value in store.descriptor_values().iter() {
        assert_eq!(
            found_descriptor_values.contains(value),
            false,
            "Duplicate descriptor_value found: {}",
            value
        );
        found_descriptor_values.push(*value);

        // try to get descriptor by value
        let descriptor = store.get_descriptor(*value);
        assert_eq!(
            descriptor.is_ok(),
            true,
            "Descriptor not found for value: {}",
            value
        );

        // check if descriptor type matches forst 8 bits of value
        let descriptor_type = descriptor.unwrap().get_descriptor_type();
        assert_eq!(
            descriptor_type.encode().unwrap(),
            (*value >> 8) as u8,
            "Descriptor type does not match value: {}",
            value
        );
    }
}

#[test]
fn store_of_a_small_device_end_to_end() {
    let store =
        DescriptorStore::new(small_device(), StringIntrinsics::languages(vec![en_us()])).unwrap();

    assert_eq!(
        store.descriptor_values(),
        &vec![0x0100, 0x0305, 0x0304, 0x0303, 0x0201, 0x0302, 0x0400, 0x0301, 0x0501, 0x0300]
    );

    let device = store.get_descriptor(0x0100).unwrap();
    assert_eq!(device.get_descriptor_type(), DescriptorType::Device);
    assert_eq!(
        device.bytes(),
        &vec![18, 1, 0, 2, 0, 0, 0, 0x40, 0x34, 0x12, 0x34, 0x12, 0, 2, 3, 4, 5, 1]
    );

    let configuration = store.get_descriptor(0x0201).unwrap();
    assert_eq!(
        configuration.bytes(),
        &vec![9, 2, 16, 0, 1, 1, 2, 0x80, 250]
    );

    let interface = store.get_descriptor(0x0400).unwrap();
    assert_eq!(interface.bytes(), &vec![9, 4, 0, 0, 1, 3, 0, 0, 1]);

    let endpoint = store.get_descriptor(0x0501).unwrap();
    assert_eq!(endpoint.bytes(), &vec![7, 5, 0x01, 3, 0x40, 0, 1]);

    let languages = store.get_descriptor(0x0300).unwrap();
    assert_eq!(languages.bytes(), &vec![4, 3, 0x09, 0x04]);

    // Each name stands under the index that its descriptor refers to.
    let interface_name = store.get_descriptor(0x0301).unwrap();
    assert_eq!(interface_name.bytes()[0], 2 + 2 * 11);
    assert_eq!(interface_name.bytes()[2], b'I');
    let configuration_name = store.get_descriptor(0x0302).unwrap();
    assert_eq!(configuration_name.bytes()[2], b'C');
    let manufacturer = store.get_descriptor(0x0303).unwrap();
    assert_eq!(manufacturer.bytes()[2], b'M');
    let product = store.get_descriptor(0x0304).unwrap();
    assert_eq!(product.bytes()[2], b'P');
    let serial_number = store.get_descriptor(0x0305).unwrap();
    assert_eq!(
        serial_number.bytes(),
        &vec![12, 3, b'1', 0, b'2', 0, b'3', 0, b'4', 0, b'5', 0]
    );
}

#[test]
fn store_keeps_each_descriptor_under_its_own_value() {
    let store = DescriptorStore::new(
        device(vec![
            configuration(
                "A",
                1,
                vec![
                    interface(
                        "A0",
                        vec![endpoint(1, Direction::In), endpoint(1, Direction::Out)],
                    ),
                    interface("A1", vec![endpoint(2, Direction::In)]),
                ],
            ),
            configuration("B", 2, vec![interface("B0", vec![endpoint(3, Direction::In)])]),
        ]),
        StringIntrinsics::languages(vec![en_us(), de_de()]),
    )
    .unwrap();

    // 1 device + 1 language list + 3 names of the device
    // + 2 configurations + 2 names + 3 interfaces + 3 names + 4 endpoints
    assert_eq!(store.descriptors().len(), 19);

    for (i, value) in store.descriptor_values().iter().enumerate() {
        let found = store.get_descriptor(*value).unwrap();
        assert_eq!(found.get_w_value(), *value);
        assert_eq!(found.bytes(), store.descriptors()[i].bytes());
        let bytes = found.bytes();
        assert_eq!(bytes[0] as usize, bytes.len());
        assert_eq!(bytes[1], (*value >> 8) as u8);
        match found.get_descriptor_type() {
            DescriptorType::Device => assert_eq!(*value & 0xFF, 0),
            DescriptorType::Configuration => assert_eq!(bytes[5] as u16, *value & 0xFF),
            DescriptorType::Interface => assert_eq!(bytes[2] as u16, *value & 0xFF),
            DescriptorType::Endpoint => assert_eq!(bytes[2] as u16, *value & 0xFF),
            _ => {}
        }
    }

    // The second configuration: one interface of one endpoint.
    assert_eq!(
        store.get_descriptor(0x0202).unwrap().bytes(),
        &vec![9, 2, 16, 0, 1, 2, 5, 0x80, 250]
    );
    // The first configuration: two interfaces and three endpoints.
    assert_eq!(
        store.get_descriptor(0x0201).unwrap().bytes(),
        &vec![9, 2, 39, 0, 2, 1, 3, 0x80, 250]
    );
    // Interface numbers count through the whole device.
    assert_eq!(store.get_descriptor(0x0402).unwrap().bytes()[8], 4);
    assert_eq!(
        store.get_descriptor(0x0403).map(|d| d.get_w_value()),
        Err(LookupError::NotFound)
    );
}

#[test]
fn store_lookup_of_an_unknown_value_fails() {
    let store =
        DescriptorStore::new(small_device(), StringIntrinsics::languages(vec![en_us()])).unwrap();
    assert_eq!(
        store.get_descriptor(0x0101).map(|d| d.get_w_value()),
        Err(LookupError::NotFound)
    );
    assert_eq!(
        store.get_descriptor(0x2100).map(|d| d.get_w_value()),
        Err(LookupError::NotFound)
    );
    assert_eq!(
        store.get_descriptor(0x0306).map(|d| d.get_w_value()),
        Err(LookupError::NotFound)
    );
}

#[test]
fn store_concatenates_the_selected_types_in_table_order() {
    let store =
        DescriptorStore::new(small_device(), StringIntrinsics::languages(vec![en_us()])).unwrap();

    assert_eq!(
        store.encode(false, false, false, false, false).unwrap(),
        Vec::<u8>::new()
    );
    assert_eq!(
        store.encode(true, false, false, false, false).unwrap(),
        vec![18, 1, 0, 2, 0, 0, 0, 0x40, 0x34, 0x12, 0x34, 0x12, 0, 2, 3, 4, 5, 1]
    );
    assert_eq!(
        store.encode(false, true, true, true, false).unwrap(),
        vec![
            9, 2, 16, 0, 1, 1, 2, 0x80, 250, // configuration
            9, 4, 0, 0, 1, 3, 0, 0, 1, // interface
            7, 5, 0x01, 3, 0x40, 0, 1, // endpoint
        ]
    );
    let everything = store.encode(true, true, true, true, true).unwrap();
    let mut expected = Vec::<u8>::new();
    for descriptor in store.descriptors().iter() {
        expected.extend_from_slice(descriptor.bytes());
    }
    assert_eq!(everything, expected);
    assert_eq!(
        store.descriptors()[0].encode().unwrap(),
        store.encode(true, false, false, false, false).unwrap()
    );
}

#[test]
fn store_refuses_empty_collections() {
    // no language
    assert_eq!(
        DescriptorStore::new(small_device(), StringIntrinsics::languages(vec![])).err(),
        Some(CompileError::EmptyRequiredCollection)
    );
    // a text in place of the language list
    assert_eq!(
        DescriptorStore::new(small_device(), StringIntrinsics::text("en")).err(),
        Some(CompileError::EmptyRequiredCollection)
    );
    // a configuration without interfaces
    assert_eq!(
        DescriptorStore::new(
            device(vec![configuration("C", 1, vec![])]),
            StringIntrinsics::languages(vec![en_us()])
        )
        .err(),
        Some(CompileError::EmptyRequiredCollection)
    );
    // an interface without endpoints
    assert_eq!(
        DescriptorStore::new(
            device(vec![configuration("C", 1, vec![interface("I", vec![])])]),
            StringIntrinsics::languages(vec![en_us()])
        )
        .err(),
        Some(CompileError::EmptyRequiredCollection)
    );
}

#[test]
fn store_refuses_a_device_without_configurations() {
    assert_eq!(
        DescriptorStore::new(device(vec![]), StringIntrinsics::languages(vec![en_us()])).err(),
        Some(CompileError::EmptyRequiredCollection)
    );
}

#[test]
fn store_refuses_two_descriptors_under_one_value() {
    // two endpoints with one address
    assert_eq!(
        DescriptorStore::new(
            device(vec![configuration(
                "C",
                1,
                vec![interface(
                    "I",
                    vec![endpoint(1, Direction::In), endpoint(1, Direction::In)]
                )]
            )]),
            StringIntrinsics::languages(vec![en_us()])
        )
        .err(),
        Some(CompileError::DuplicateKey)
    );
    // two configurations with one configuration value
    assert_eq!(
        DescriptorStore::new(
            device(vec![
                configuration("C", 1, vec![interface("I", vec![endpoint(1, Direction::In)])]),
                configuration("D", 1, vec![interface("J", vec![endpoint(2, Direction::In)])]),
            ]),
            StringIntrinsics::languages(vec![en_us()])
        )
        .err(),
        Some(CompileError::DuplicateKey)
    );
}

#[test]
fn store_reports_what_is_wrong_with_a_node() {
    let mut wrong_class = small_device();
    wrong_class.device_class = DeviceDeviceClass::Hub;
    wrong_class.device_protocol = 3;
    assert_eq!(
        DescriptorStore::new(wrong_class, StringIntrinsics::languages(vec![en_us()])).err(),
        Some(CompileError::Validation(
            ValidationError::IncompatibleSubclassProtocol
        ))
    );

    let mut wrong_interface = small_device();
    wrong_interface.configurations[0].interfaces[0].interface_class = InterfaceDeviceClass::Image;
    assert_eq!(
        DescriptorStore::new(wrong_interface, StringIntrinsics::languages(vec![en_us()])).err(),
        Some(CompileError::Validation(
            ValidationError::IncompatibleSubclassProtocol
        ))
    );

    let mut too_much_power = small_device();
    too_much_power.configurations[0].max_power = Milliamperes(501);
    assert_eq!(
        DescriptorStore::new(too_much_power, StringIntrinsics::languages(vec![en_us()])).err(),
        Some(CompileError::Range(RangeError::Milliamperes))
    );

    let mut large_packets = small_device();
    large_packets.configurations[0].interfaces[0].endpoints[0].max_packet_size = 256;
    assert_eq!(
        DescriptorStore::new(large_packets, StringIntrinsics::languages(vec![en_us()])).err(),
        Some(CompileError::Range(RangeError::MaxPacketSize))
    );
}

#[test]
fn store_compiles_the_same_tree_to_the_same_table() {
    let first =
        DescriptorStore::new(small_device(), StringIntrinsics::languages(vec![en_us()])).unwrap();
    let second =
        DescriptorStore::new(small_device(), StringIntrinsics::languages(vec![en_us()])).unwrap();
    assert_eq!(first.descriptor_values(), second.descriptor_values());
    assert_eq!(first.descriptors().len(), second.descriptors().len());
    for i in 0..first.descriptors().len() {
        assert_eq!(
            first.descriptors()[i].bytes(),
            second.descriptors()[i].bytes()
        );
        assert_eq!(
            first.descriptors()[i].get_descriptor_type(),
            second.descriptors()[i].get_descriptor_type()
        );
    }
    assert_eq!(
        first.encode(true, true, true, true, true),
        second.encode(true, true, true, true, true)
    );
}

#[test]
fn store_reports_what_cannot_be_written_out() {
    let mut long_name = small_device();
    long_name.product = StringIntrinsics::text(&"x".repeat(127));
    assert_eq!(
        DescriptorStore::new(long_name, StringIntrinsics::languages(vec![en_us()])).err(),
        Some(CompileError::Encoding(EncodingError::LengthMismatch))
    );
}

#[test]
fn store_refuses_more_than_a_byte_can_count() {
    // 256 endpoints in one interface
    let many_endpoints: Vec<EndpointIntrinsics> = (0..256u32)
        .map(|i| endpoint((i % 16) as u8, Direction::In))
        .collect();
    assert_eq!(
        DescriptorStore::new(
            device(vec![configuration(
                "C",
                1,
                vec![interface("I", many_endpoints)]
            )]),
            StringIntrinsics::languages(vec![en_us()])
        )
        .err(),
        Some(CompileError::Range(RangeError::Count))
    );
    // more strings than one byte can number
    let many_interfaces: Vec<InterfaceNode> = (0..255u32)
        .map(|i| interface("I", vec![endpoint((i % 16) as u8, Direction::In)]))
        .collect();
    assert_eq!(
        DescriptorStore::new(
            device(vec![configuration("C", 1, many_interfaces)]),
            StringIntrinsics::languages(vec![en_us()])
        )
        .err(),
        Some(CompileError::Range(RangeError::Count))
    );
}

#[test]
fn store_keeps_each_name_under_the_index_that_its_owner_gives() {
    let store = DescriptorStore::new(
        device(vec![
            configuration(
                "A",
                1,
                vec![
                    interface(
                        "A0",
                        vec![endpoint(1, Direction::In), endpoint(1, Direction::Out)],
                    ),
                    interface("A1", vec![endpoint(2, Direction::In)]),
                ],
            ),
            configuration("B", 2, vec![interface("B0", vec![endpoint(3, Direction::In)])]),
        ]),
        StringIntrinsics::languages(vec![en_us()]),
    )
    .unwrap();

    let descriptors = store.descriptors();
    let mut owners = 0;
    for i in 0..descriptors.len() {
        let bytes = descriptors[i].bytes();
        let reference = match descriptors[i].get_descriptor_type() {
            DescriptorType::Configuration => bytes[6],
            DescriptorType::Interface => bytes[8],
            _ => continue,
        };
        owners += 1;
        // The name follows its owner, under the index that the owner gives.
        assert_eq!(
            descriptors[i + 1].get_descriptor_type(),
            DescriptorType::String
        );
        assert_eq!(descriptors[i + 1].get_w_value(), 0x0300 | reference as u16);
    }
    assert_eq!(owners, 5);

    let name_of = |key: u16, at: usize| {
        let owner = store.get_descriptor(key).unwrap().bytes();
        store
            .get_descriptor(0x0300 | owner[at] as u16)
            .unwrap()
            .bytes()
            .clone()
    };
    assert_eq!(name_of(0x0201, 6), vec![4, 3, b'A', 0]);
    assert_eq!(name_of(0x0202, 6), vec![4, 3, b'B', 0]);
    assert_eq!(name_of(0x0400, 8), vec![6, 3, b'A', 0, b'0', 0]);
    assert_eq!(name_of(0x0401, 8), vec![6, 3, b'A', 0, b'1', 0]);
    assert_eq!(name_of(0x0402, 8), vec![6, 3, b'B', 0, b'0', 0]);
    assert_eq!(name_of(0x0100, 14)[2], b'M');
    assert_eq!(name_of(0x0100, 15)[2], b'P');
    assert_eq!(name_of(0x0100, 16)[2], b'1');
}
