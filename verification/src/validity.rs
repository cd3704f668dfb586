use vstd::prelude::*;
use crate::descriptor::Descriptor;
use crate::descriptor_store::{
    put_string, store_configuration, store_configurations, store_device, store_endpoint,
    store_endpoints, store_interface, store_interfaces, store_start, store_string, stored,
    stored_descriptors, StoreCursor,
};
use crate::descriptors::table_of;
use crate::descriptors_builder::{
    add_configuration, add_configurations, add_device, add_endpoint, add_endpoints,
    add_interface, add_interfaces, add_string, compiled, names_in, start, string_count, Cursor,
};
use crate::numbering::lemma_compiled_values_distinct;
use crate::record::AnyDescriptorView;
use crate::store_numbering::lemma_stored_values_distinct;
use crate::string::string_descriptor::StringDescriptorView;
use crate::table::{all_writable, encoded_all, lemma_all_writable};
use crate::device::device_class::device_class_accepts;
use crate::interface::interface_class::interface_class_accepts;
use crate::model::{
    ConfigurationSpec, DeviceSpec, EndpointSpec, InterfaceSpec, MAX_PACKET_SIZE,
};
use crate::placement::interfaces_length;
use crate::store_numbering::lemma_names_in_front;
use crate::store_placement::lemma_interfaces_length_front;
use crate::string::string_content::StringContentView;

verus! {

/// An endpoint that can be compiled: its packet size is in range.
pub open spec fn valid_endpoint(endpoint: EndpointSpec) -> bool {
    endpoint.max_packet_size <= MAX_PACKET_SIZE
}

/// An interface that can be compiled: it has at least one endpoint and
/// not more than a byte can count, its class defines its subclass and
/// protocol, and its endpoints can be compiled.
pub open spec fn valid_interface(interface: InterfaceSpec) -> bool {
    &&& 1 <= interface.endpoints.len() <= u8::MAX
    &&& interface_class_accepts(
        interface.interface_class,
        interface.interface_suclass,
        interface.interface_protocol,
    )
    &&& forall|k: int|
        0 <= k < interface.endpoints.len() ==> valid_endpoint(#[trigger] interface.endpoints[k])
}

/// A configuration that can be compiled: it has at least one interface,
/// its interfaces can be compiled, and the lengths of their descriptors
/// and those of their endpoints fit the total length of two bytes.
pub open spec fn valid_configuration(configuration: ConfigurationSpec) -> bool {
    &&& 1 <= configuration.interfaces.len()
    &&& forall|k: int|
        0 <= k < configuration.interfaces.len() ==> valid_interface(
            #[trigger] configuration.interfaces[k],
        )
    &&& interfaces_length(configuration.interfaces) <= u16::MAX
}

/// A device that can be compiled: it has at least one configuration, its
/// class defines its subclass and protocol, its configurations can be
/// compiled, and a byte can number its strings.
pub open spec fn valid_device(device: DeviceSpec) -> bool {
    &&& 1 <= device.configurations.len()
    &&& device_class_accepts(device.device_class, device.device_suclass, device.device_protocol)
    &&& forall|k: int|
        0 <= k < device.configurations.len() ==> valid_configuration(
            #[trigger] device.configurations[k],
        )
    &&& string_count(device) <= u8::MAX + 1
}

/// No configuration of the device asks for more than 500 mA.
pub open spec fn within_power(device: DeviceSpec) -> bool {
    forall|k: int|
        0 <= k < device.configurations.len() ==> (#[trigger] device.configurations[k]).max_power.0
            <= 500
}

/// Endpoints that can be compiled are added, where their lengths fit the
/// total.
pub proof fn lemma_add_endpoints_succeed(cursor: Cursor, endpoints: Seq<EndpointSpec>)
    requires
        forall|k: int| 0 <= k < endpoints.len() ==> valid_endpoint(#[trigger] endpoints[k]),
        cursor.total_length + 7 * endpoints.len() <= u16::MAX,
    ensures
        add_endpoints(cursor, endpoints) is Ok,
        add_endpoints(cursor, endpoints)->Ok_0.total_length == cursor.total_length + 7
            * endpoints.len(),
        add_endpoints(cursor, endpoints)->Ok_0.next_interface == cursor.next_interface,
        add_endpoints(cursor, endpoints)->Ok_0.next_string == cursor.next_string,
    decreases endpoints.len(),
{
    if endpoints.len() > 0 {
        assert(valid_endpoint(endpoints.last()));
        let next = add_endpoint(cursor, endpoints.last())->Ok_0;
        assert forall|k: int| 0 <= k < endpoints.drop_last().len() implies valid_endpoint(
            #[trigger] endpoints.drop_last()[k],
        ) by {
            assert(endpoints.drop_last()[k] == endpoints[k]);
        }
        lemma_add_endpoints_succeed(next, endpoints.drop_last());
    }
}

/// Interfaces that can be compiled are added, where their lengths fit
/// the total and a byte can number them.
pub proof fn lemma_add_interfaces_succeed(cursor: Cursor, interfaces: Seq<InterfaceSpec>)
    requires
        forall|k: int| 0 <= k < interfaces.len() ==> valid_interface(#[trigger] interfaces[k]),
        cursor.total_length + interfaces_length(interfaces) <= u16::MAX,
        cursor.next_interface + interfaces.len() <= u8::MAX,
    ensures
        add_interfaces(cursor, interfaces) is Ok,
        add_interfaces(cursor, interfaces)->Ok_0.total_length == cursor.total_length
            + interfaces_length(interfaces),
        add_interfaces(cursor, interfaces)->Ok_0.next_interface == cursor.next_interface
            + interfaces.len(),
    decreases interfaces.len(),
{
    if interfaces.len() > 0 {
        let interface = interfaces.last();
        assert(valid_interface(interface));
        lemma_add_endpoints_succeed(cursor, interface.endpoints);
        let filled = add_endpoints(cursor, interface.endpoints)->Ok_0;
        assert(add_interface(filled, interface) is Ok);
        let next = add_interface(filled, interface)->Ok_0;
        assert forall|k: int| 0 <= k < interfaces.drop_last().len() implies valid_interface(
            #[trigger] interfaces.drop_last()[k],
        ) by {
            assert(interfaces.drop_last()[k] == interfaces[k]);
        }
        lemma_add_interfaces_succeed(next, interfaces.drop_last());
    }
}

/// Configurations that can be compiled are added, where a byte can
/// number their interfaces.
pub proof fn lemma_add_configurations_succeed(
    cursor: Cursor,
    configurations: Seq<ConfigurationSpec>,
)
    requires
        cursor.total_length == 0,
        forall|k: int|
            0 <= k < configurations.len() ==> valid_configuration(#[trigger] configurations[k]),
        cursor.next_interface + names_in(configurations) <= u8::MAX,
    ensures
        add_configurations(cursor, configurations) is Ok,
    decreases configurations.len(),
{
    if configurations.len() > 0 {
        let configuration = configurations.last();
        assert(valid_configuration(configuration));
        lemma_add_interfaces_succeed(cursor, configuration.interfaces);
        let filled = add_interfaces(cursor, configuration.interfaces)->Ok_0;
        assert(add_configuration(filled, configuration) is Ok);
        let next = add_configuration(filled, configuration)->Ok_0;
        assert forall|k: int|
            0 <= k < configurations.drop_last().len() implies valid_configuration(
            #[trigger] configurations.drop_last()[k],
        ) by {
            assert(configurations.drop_last()[k] == configurations[k]);
        }
        lemma_add_configurations_succeed(next, configurations.drop_last());
    }
}

/// There are at least as many names among some configurations as there
/// are configurations.
pub proof fn lemma_names_in_at_least(configurations: Seq<ConfigurationSpec>)
    ensures
        names_in(configurations) >= configurations.len(),
    decreases configurations.len(),
{
    if configurations.len() > 0 {
        lemma_names_in_at_least(configurations.drop_last());
    }
}

/// A device that can be compiled, with a list of at least one language,
/// compiles.
pub proof fn lemma_compiled_succeeds(device: DeviceSpec, languages: StringContentView)
    requires
        languages.is_language_list(),
        valid_device(device),
    ensures
        compiled(device, languages) is Ok,
{
    let first = start((string_count(device) - 1) as u8);
    lemma_add_configurations_succeed(first, device.configurations);
    lemma_names_in_at_least(device.configurations);
    let filled = add_configurations(first, device.configurations)->Ok_0;
    assert(add_device(filled, device) is Ok);
}

/// Endpoints that can be compiled are stored, where their lengths fit
/// the total.
pub proof fn lemma_store_endpoints_succeed(cursor: StoreCursor, endpoints: Seq<EndpointSpec>)
    requires
        forall|k: int| 0 <= k < endpoints.len() ==> valid_endpoint(#[trigger] endpoints[k]),
        cursor.total_length + 7 * endpoints.len() <= u16::MAX,
    ensures
        store_endpoints(cursor, endpoints) is Ok,
        store_endpoints(cursor, endpoints)->Ok_0.total_length == cursor.total_length + 7
            * endpoints.len(),
        store_endpoints(cursor, endpoints)->Ok_0.next_interface == cursor.next_interface,
        store_endpoints(cursor, endpoints)->Ok_0.next_string == cursor.next_string,
    decreases endpoints.len(),
{
    if endpoints.len() > 0 {
        assert(valid_endpoint(endpoints.first()));
        let next = store_endpoint(cursor, endpoints.first())->Ok_0;
        assert forall|k: int| 0 <= k < endpoints.drop_first().len() implies valid_endpoint(
            #[trigger] endpoints.drop_first()[k],
        ) by {
            assert(endpoints.drop_first()[k] == endpoints[k + 1]);
        }
        lemma_store_endpoints_succeed(next, endpoints.drop_first());
    }
}

/// Interfaces that can be compiled are stored, where their lengths fit
/// the total and a byte can number them and their names.
pub proof fn lemma_store_interfaces_succeed(cursor: StoreCursor, interfaces: Seq<InterfaceSpec>)
    requires
        forall|k: int| 0 <= k < interfaces.len() ==> valid_interface(#[trigger] interfaces[k]),
        cursor.total_length + interfaces_length(interfaces) <= u16::MAX,
        cursor.next_interface + interfaces.len() <= u8::MAX,
        cursor.next_string + interfaces.len() <= u8::MAX,
    ensures
        store_interfaces(cursor, interfaces) is Ok,
        store_interfaces(cursor, interfaces)->Ok_0.total_length == cursor.total_length
            + interfaces_length(interfaces),
        store_interfaces(cursor, interfaces)->Ok_0.next_interface == cursor.next_interface
            + interfaces.len(),
        store_interfaces(cursor, interfaces)->Ok_0.next_string == cursor.next_string
            + interfaces.len(),
    decreases interfaces.len(),
{
    if interfaces.len() > 0 {
        let interface = interfaces.first();
        assert(valid_interface(interface));
        lemma_interfaces_length_front(interfaces);
        lemma_store_endpoints_succeed(cursor, interface.endpoints);
        let filled = store_endpoints(cursor, interface.endpoints)->Ok_0;
        assert(store_string(filled, interface.interface) is Ok);
        assert(store_interface(cursor, interface) is Ok);
        let next = store_interface(cursor, interface)->Ok_0;
        assert forall|k: int| 0 <= k < interfaces.drop_first().len() implies valid_interface(
            #[trigger] interfaces.drop_first()[k],
        ) by {
            assert(interfaces.drop_first()[k] == interfaces[k + 1]);
        }
        lemma_store_interfaces_succeed(next, interfaces.drop_first());
    }
}

/// Configurations that can be compiled and do not ask for more than 500
/// mA are stored, where a byte can number their interfaces and names.
pub proof fn lemma_store_configurations_succeed(
    cursor: StoreCursor,
    configurations: Seq<ConfigurationSpec>,
)
    requires
        forall|k: int|
            0 <= k < configurations.len() ==> valid_configuration(#[trigger] configurations[k])
                && configurations[k].max_power.0 <= 500,
        cursor.next_interface + names_in(configurations) <= u8::MAX,
        cursor.next_string + names_in(configurations) <= u8::MAX,
    ensures
        store_configurations(cursor, configurations) is Ok,
        store_configurations(cursor, configurations)->Ok_0.next_string == cursor.next_string
            + names_in(configurations),
    decreases configurations.len(),
{
    if configurations.len() > 0 {
        let configuration = configurations.first();
        assert(valid_configuration(configuration));
        lemma_names_in_front(configurations);
        let fresh = StoreCursor { total_length: 0, ..cursor };
        lemma_store_interfaces_succeed(fresh, configuration.interfaces);
        let filled = store_interfaces(fresh, configuration.interfaces)->Ok_0;
        assert(store_string(filled, configuration.configuration) is Ok);
        assert(store_configuration(cursor, configuration) is Ok);
        let next = store_configuration(cursor, configuration)->Ok_0;
        assert forall|k: int|
            0 <= k < configurations.drop_first().len() implies valid_configuration(
            #[trigger] configurations.drop_first()[k],
        ) && configurations.drop_first()[k].max_power.0 <= 500 by {
            assert(configurations.drop_first()[k] == configurations[k + 1]);
        }
        lemma_store_configurations_succeed(next, configurations.drop_first());
    }
}

/// A tree of nodes that can be compiled and does not ask for more than
/// 500 mA, with a list of at least one language, compiles.
pub proof fn lemma_stored_descriptors_succeed(device: DeviceSpec, languages: StringContentView)
    requires
        languages.is_language_list(),
        valid_device(device),
        within_power(device),
    ensures
        stored_descriptors(device, languages) is Ok,
{
    let begun = store_string(store_start(), languages)->Ok_0;
    assert forall|k: int| 0 <= k < device.configurations.len() implies valid_configuration(
        #[trigger] device.configurations[k],
    ) && device.configurations[k].max_power.0 <= 500 by {}
    lemma_store_configurations_succeed(begun, device.configurations);
    lemma_names_in_at_least(device.configurations);
    let filled = store_configurations(begun, device.configurations)->Ok_0;
    assert(store_string(filled, device.manufacturer) is Ok);
    let first = store_string(filled, device.manufacturer)->Ok_0;
    assert(store_string(first, device.product) is Ok);
    assert(store_device(filled, device) is Ok);
}

/// A string that fits one descriptor: with the two bytes before it, its
/// bytes are not more than 255.
pub open spec fn fits(content: StringContentView) -> bool {
    2 + 2 * content.units().len() <= u8::MAX
}

/// The names of all the interfaces of a list fit one descriptor each.
pub open spec fn interface_names_fit(interfaces: Seq<InterfaceSpec>) -> bool {
    forall|k: int| 0 <= k < interfaces.len() ==> fits((#[trigger] interfaces[k]).interface)
}

/// The names of all the configurations of a list and of their interfaces
/// fit one descriptor each.
pub open spec fn configuration_names_fit(configurations: Seq<ConfigurationSpec>) -> bool {
    forall|k: int|
        0 <= k < configurations.len() ==> fits((#[trigger] configurations[k]).configuration)
            && interface_names_fit(configurations[k].interfaces)
}

/// All the strings of a device and the list of languages fit one
/// descriptor each.
pub open spec fn strings_fit(device: DeviceSpec, languages: StringContentView) -> bool {
    &&& fits(languages)
    &&& fits(device.manufacturer)
    &&& fits(device.product)
    &&& fits(device.serial_number)
    &&& configuration_names_fit(device.configurations)
}

/// All that is written out stays so when a descriptor that can be
/// written out joins.
pub proof fn lemma_writable_push(descriptors: Seq<AnyDescriptorView>, descriptor: AnyDescriptorView)
    requires
        all_writable(descriptors),
        descriptor.encoded() is Ok,
    ensures
        all_writable(descriptors.push(descriptor)),
{
    let longer = descriptors.push(descriptor);
    assert forall|k: int| 0 <= k < longer.len() implies (#[trigger] longer[k]).encoded() is Ok by {
        if k < descriptors.len() {
            assert(longer[k] == descriptors[k]);
        }
    }
}

/// A list that can be written out can be so when it is turned round.
pub proof fn lemma_writable_turn(descriptors: Seq<AnyDescriptorView>)
    requires
        all_writable(descriptors),
    ensures
        all_writable(descriptors.reverse()),
{
    let turned = descriptors.reverse();
    assert forall|k: int| 0 <= k < turned.len() implies (#[trigger] turned[k]).encoded() is Ok by {
        assert(turned[k] == descriptors[descriptors.len() - 1 - k]);
    }
}

/// The string descriptor of a string that fits can be written out.
pub proof fn lemma_string_writable(index: u8, content: StringContentView)
    requires
        fits(content),
    ensures
        AnyDescriptorView::String(StringDescriptorView { index, string: content }).encoded() is Ok,
{
}

/// The endpoint descriptors that are added can be written out.
pub proof fn lemma_add_endpoints_writable(cursor: Cursor, endpoints: Seq<EndpointSpec>)
    requires
        all_writable(cursor.emitted),
        add_endpoints(cursor, endpoints) is Ok,
    ensures
        all_writable(add_endpoints(cursor, endpoints)->Ok_0.emitted),
    decreases endpoints.len(),
{
    if endpoints.len() > 0 {
        let next = add_endpoint(cursor, endpoints.last())->Ok_0;
        lemma_writable_push(
            cursor.emitted,
            AnyDescriptorView::Endpoint(endpoints.last().build()->Ok_0),
        );
        lemma_add_endpoints_writable(next, endpoints.drop_last());
    }
}

/// What is added for interfaces whose names fit can be written out.
pub proof fn lemma_add_interfaces_writable(cursor: Cursor, interfaces: Seq<InterfaceSpec>)
    requires
        all_writable(cursor.emitted),
        interface_names_fit(interfaces),
        add_interfaces(cursor, interfaces) is Ok,
    ensures
        all_writable(add_interfaces(cursor, interfaces)->Ok_0.emitted),
    decreases interfaces.len(),
{
    if interfaces.len() > 0 {
        let interface = interfaces.last();
        assert(fits(interface.interface));
        lemma_add_endpoints_writable(cursor, interface.endpoints);
        let filled = add_endpoints(cursor, interface.endpoints)->Ok_0;
        let named = add_string(filled, interface.interface);
        lemma_string_writable(filled.next_string, interface.interface);
        lemma_writable_push(
            filled.emitted,
            AnyDescriptorView::String(
                StringDescriptorView { index: filled.next_string, string: interface.interface },
            ),
        );
        let next = add_interface(filled, interface)->Ok_0;
        lemma_writable_push(
            named.emitted,
            AnyDescriptorView::Interface(
                interface.build(
                    filled.next_interface,
                    filled.next_string,
                    interface.endpoints.len() as u8,
                )->Ok_0,
            ),
        );
        assert forall|k: int| 0 <= k < interfaces.drop_last().len() implies fits(
            (#[trigger] interfaces.drop_last()[k]).interface,
        ) by {
            assert(interfaces.drop_last()[k] == interfaces[k]);
        }
        lemma_add_interfaces_writable(next, interfaces.drop_last());
    }
}

/// What is added for configurations that do not ask for more than 500 mA
/// and whose names fit can be written out.
pub proof fn lemma_add_configurations_writable(
    cursor: Cursor,
    configurations: Seq<ConfigurationSpec>,
)
    requires
        all_writable(cursor.emitted),
        configuration_names_fit(configurations),
        forall|k: int|
            0 <= k < configurations.len() ==> (#[trigger] configurations[k]).max_power.0 <= 500,
        add_configurations(cursor, configurations) is Ok,
    ensures
        all_writable(add_configurations(cursor, configurations)->Ok_0.emitted),
    decreases configurations.len(),
{
    if configurations.len() > 0 {
        let configuration = configurations.last();
        assert(fits(configuration.configuration) && interface_names_fit(
            configuration.interfaces,
        ));
        assert(configuration.max_power.0 <= 500);
        lemma_add_interfaces_writable(cursor, configuration.interfaces);
        let filled = add_interfaces(cursor, configuration.interfaces)->Ok_0;
        let named = add_string(filled, configuration.configuration);
        lemma_string_writable(filled.next_string, configuration.configuration);
        lemma_writable_push(
            filled.emitted,
            AnyDescriptorView::String(
                StringDescriptorView {
                    index: filled.next_string,
                    string: configuration.configuration,
                },
            ),
        );
        let next = add_configuration(filled, configuration)->Ok_0;
        lemma_writable_push(
            named.emitted,
            AnyDescriptorView::Configuration(
                configuration.build(
                    named.total_length,
                    configuration.interfaces.len() as u8,
                    configuration.configuration_value,
                    filled.next_string,
                )->Ok_0,
            ),
        );
        assert forall|k: int| 0 <= k < configurations.drop_last().len() implies fits(
            (#[trigger] configurations.drop_last()[k]).configuration,
        ) && interface_names_fit(configurations.drop_last()[k].interfaces) by {
            assert(configurations.drop_last()[k] == configurations[k]);
        }
        assert forall|k: int| 0 <= k < configurations.drop_last().len() implies (
        #[trigger] configurations.drop_last()[k]).max_power.0 <= 500 by {
            assert(configurations.drop_last()[k] == configurations[k]);
        }
        lemma_add_configurations_writable(next, configurations.drop_last());
    }
}

/// What a device compiles to can be written out, where no configuration
/// asks for more than 500 mA and all strings fit.
pub proof fn lemma_compiled_writable(device: DeviceSpec, languages: StringContentView)
    requires
        compiled(device, languages) is Ok,
        within_power(device),
        strings_fit(device, languages),
    ensures
        all_writable(compiled(device, languages)->Ok_0),
        encoded_all(compiled(device, languages)->Ok_0) is Ok,
{
    let begin = start((string_count(device) - 1) as u8);
    assert(all_writable(begin.emitted));
    lemma_add_configurations_writable(begin, device.configurations);
    let filled = add_configurations(begin, device.configurations)->Ok_0;
    let first = add_string(filled, device.serial_number);
    lemma_string_writable(filled.next_string, device.serial_number);
    lemma_writable_push(
        filled.emitted,
        AnyDescriptorView::String(
            StringDescriptorView { index: filled.next_string, string: device.serial_number },
        ),
    );
    let second = add_string(first, device.product);
    lemma_string_writable(first.next_string, device.product);
    lemma_writable_push(
        first.emitted,
        AnyDescriptorView::String(
            StringDescriptorView { index: first.next_string, string: device.product },
        ),
    );
    let named = add_string(second, device.manufacturer);
    lemma_string_writable(second.next_string, device.manufacturer);
    lemma_writable_push(
        second.emitted,
        AnyDescriptorView::String(
            StringDescriptorView { index: second.next_string, string: device.manufacturer },
        ),
    );
    let made = add_device(filled, device)->Ok_0;
    lemma_writable_push(
        named.emitted,
        AnyDescriptorView::Device(
            device.build(
                device.configurations.len() as u8,
                second.next_string,
                first.next_string,
                filled.next_string,
            )->Ok_0,
        ),
    );
    let last = add_string(made, languages);
    lemma_string_writable(made.next_string, languages);
    lemma_writable_push(
        made.emitted,
        AnyDescriptorView::String(
            StringDescriptorView { index: made.next_string, string: languages },
        ),
    );
    lemma_writable_turn(last.emitted);
    lemma_all_writable(compiled(device, languages)->Ok_0);
}

/// A table is made of a device that can be compiled, with a list of at
/// least one language, where no configuration asks for more than 500 mA,
/// all strings fit, the endpoints have addresses of their own and the
/// configurations have configuration values of their own.
pub proof fn lemma_table_succeeds(device: DeviceSpec, languages: StringContentView)
    requires
        languages.is_language_list(),
        valid_device(device),
        within_power(device),
        strings_fit(device, languages),
        forall|i: int, j: int|
            #![trigger compiled(device, languages)->Ok_0[i], compiled(device, languages)->Ok_0[j]]
            0 <= i < compiled(device, languages)->Ok_0.len() && 0 <= j < compiled(
                device,
                languages,
            )->Ok_0.len() && i != j && compiled(device, languages)->Ok_0[i].descriptor_type()
                == compiled(device, languages)->Ok_0[j].descriptor_type() && (compiled(
                device,
                languages,
            )->Ok_0[i] is Endpoint || compiled(device, languages)->Ok_0[i] is Configuration)
                ==> compiled(device, languages)->Ok_0[i].index() != compiled(
                device,
                languages,
            )->Ok_0[j].index(),
    ensures
        compiled(device, languages) is Ok,
        table_of(compiled(device, languages)->Ok_0) is Ok,
{
    lemma_compiled_succeeds(device, languages);
    lemma_compiled_writable(device, languages);
    lemma_compiled_values_distinct(device, languages);
}

/// The endpoint descriptors that are stored can be written out.
pub proof fn lemma_store_endpoints_writable(cursor: StoreCursor, endpoints: Seq<EndpointSpec>)
    requires
        all_writable(cursor.emitted),
        store_endpoints(cursor, endpoints) is Ok,
    ensures
        all_writable(store_endpoints(cursor, endpoints)->Ok_0.emitted),
    decreases endpoints.len(),
{
    if endpoints.len() > 0 {
        let next = store_endpoint(cursor, endpoints.first())->Ok_0;
        lemma_writable_push(
            cursor.emitted,
            AnyDescriptorView::Endpoint(endpoints.first().build()->Ok_0),
        );
        lemma_store_endpoints_writable(next, endpoints.drop_first());
    }
}

/// What is stored for interfaces whose names fit can be written out.
pub proof fn lemma_store_interfaces_writable(cursor: StoreCursor, interfaces: Seq<InterfaceSpec>)
    requires
        all_writable(cursor.emitted),
        interface_names_fit(interfaces),
        store_interfaces(cursor, interfaces) is Ok,
    ensures
        all_writable(store_interfaces(cursor, interfaces)->Ok_0.emitted),
    decreases interfaces.len(),
{
    if interfaces.len() > 0 {
        let interface = interfaces.first();
        assert(fits(interface.interface));
        lemma_store_endpoints_writable(cursor, interface.endpoints);
        let filled = store_endpoints(cursor, interface.endpoints)->Ok_0;
        let named = store_string(filled, interface.interface)->Ok_0;
        lemma_string_writable(filled.next_string, interface.interface);
        lemma_writable_push(
            filled.emitted,
            AnyDescriptorView::String(
                StringDescriptorView { index: filled.next_string, string: interface.interface },
            ),
        );
        let next = store_interface(cursor, interface)->Ok_0;
        lemma_writable_push(
            named.emitted,
            AnyDescriptorView::Interface(
                interface.build(
                    named.next_interface,
                    filled.next_string,
                    interface.endpoints.len() as u8,
                )->Ok_0,
            ),
        );
        assert forall|k: int| 0 <= k < interfaces.drop_first().len() implies fits(
            (#[trigger] interfaces.drop_first()[k]).interface,
        ) by {
            assert(interfaces.drop_first()[k] == interfaces[k + 1]);
        }
        lemma_store_interfaces_writable(next, interfaces.drop_first());
    }
}

/// What is stored for configurations whose names fit can be written out.
pub proof fn lemma_store_configurations_writable(
    cursor: StoreCursor,
    configurations: Seq<ConfigurationSpec>,
)
    requires
        all_writable(cursor.emitted),
        configuration_names_fit(configurations),
        store_configurations(cursor, configurations) is Ok,
    ensures
        all_writable(store_configurations(cursor, configurations)->Ok_0.emitted),
    decreases configurations.len(),
{
    if configurations.len() > 0 {
        let configuration = configurations.first();
        assert(fits(configuration.configuration) && interface_names_fit(
            configuration.interfaces,
        ));
        let fresh = StoreCursor { total_length: 0, ..cursor };
        lemma_store_interfaces_writable(fresh, configuration.interfaces);
        let filled = store_interfaces(fresh, configuration.interfaces)->Ok_0;
        let named = store_string(filled, configuration.configuration)->Ok_0;
        lemma_string_writable(filled.next_string, configuration.configuration);
        lemma_writable_push(
            filled.emitted,
            AnyDescriptorView::String(
                StringDescriptorView {
                    index: filled.next_string,
                    string: configuration.configuration,
                },
            ),
        );
        let next = store_configuration(cursor, configuration)->Ok_0;
        lemma_writable_push(
            named.emitted,
            AnyDescriptorView::Configuration(
                configuration.build_checked(
                    named.total_length,
                    configuration.interfaces.len() as u8,
                    configuration.configuration_value,
                    filled.next_string,
                )->Ok_0,
            ),
        );
        assert forall|k: int| 0 <= k < configurations.drop_first().len() implies fits(
            (#[trigger] configurations.drop_first()[k]).configuration,
        ) && interface_names_fit(configurations.drop_first()[k].interfaces) by {
            assert(configurations.drop_first()[k] == configurations[k + 1]);
        }
        lemma_store_configurations_writable(next, configurations.drop_first());
    }
}

/// What a tree of nodes compiles to can be written out, where all
/// strings fit.
pub proof fn lemma_stored_writable(device: DeviceSpec, languages: StringContentView)
    requires
        stored_descriptors(device, languages) is Ok,
        strings_fit(device, languages),
    ensures
        all_writable(stored_descriptors(device, languages)->Ok_0),
        encoded_all(stored_descriptors(device, languages)->Ok_0) is Ok,
{
    let begun = store_string(store_start(), languages)->Ok_0;
    lemma_string_writable(0, languages);
    lemma_writable_push(
        store_start().emitted,
        AnyDescriptorView::String(StringDescriptorView { index: 0, string: languages }),
    );
    lemma_store_configurations_writable(begun, device.configurations);
    let filled = store_configurations(begun, device.configurations)->Ok_0;
    let first = store_string(filled, device.manufacturer)->Ok_0;
    lemma_string_writable(filled.next_string, device.manufacturer);
    lemma_writable_push(
        filled.emitted,
        AnyDescriptorView::String(
            StringDescriptorView { index: filled.next_string, string: device.manufacturer },
        ),
    );
    let second = store_string(first, device.product)->Ok_0;
    lemma_string_writable(first.next_string, device.product);
    lemma_writable_push(
        first.emitted,
        AnyDescriptorView::String(
            StringDescriptorView { index: first.next_string, string: device.product },
        ),
    );
    let third = put_string(second, device.serial_number);
    lemma_string_writable(second.next_string, device.serial_number);
    lemma_writable_push(
        second.emitted,
        AnyDescriptorView::String(
            StringDescriptorView { index: second.next_string, string: device.serial_number },
        ),
    );
    let made = store_device(filled, device)->Ok_0;
    lemma_writable_push(
        third.emitted,
        AnyDescriptorView::Device(
            device.build(
                device.configurations.len() as u8,
                filled.next_string,
                first.next_string,
                second.next_string,
            )->Ok_0,
        ),
    );
    lemma_writable_turn(made.emitted);
    lemma_all_writable(stored_descriptors(device, languages)->Ok_0);
}

/// A tree of nodes that can be compiled is kept, with a list of at least
/// one language, where no configuration asks for more than 500 mA, all
/// strings fit, the endpoints have addresses of their own and the
/// configurations have configuration values of their own.
pub proof fn lemma_stored_succeeds(device: DeviceSpec, languages: StringContentView)
    requires
        languages.is_language_list(),
        valid_device(device),
        within_power(device),
        strings_fit(device, languages),
        forall|i: int, j: int|
            #![trigger stored_descriptors(device, languages)->Ok_0[i], stored_descriptors(device, languages)->Ok_0[j]]
            0 <= i < stored_descriptors(device, languages)->Ok_0.len() && 0 <= j
                < stored_descriptors(device, languages)->Ok_0.len() && i != j
                && stored_descriptors(device, languages)->Ok_0[i].descriptor_type()
                == stored_descriptors(device, languages)->Ok_0[j].descriptor_type() && (
            stored_descriptors(device, languages)->Ok_0[i] is Endpoint || stored_descriptors(
                device,
                languages,
            )->Ok_0[i] is Configuration) ==> stored_descriptors(device, languages)->Ok_0[i].index()
                != stored_descriptors(device, languages)->Ok_0[j].index(),
    ensures
        stored_descriptors(device, languages) is Ok,
        stored(device, languages) is Ok,
{
    lemma_stored_descriptors_succeed(device, languages);
    lemma_stored_writable(device, languages);
    lemma_stored_values_distinct(device, languages);
}

} // verus!
