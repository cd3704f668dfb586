use vstd::prelude::*;
use crate::descriptors::table_of;
use crate::descriptors_builder::{
    add_configuration, add_configuration_tree, add_configurations, add_device, add_endpoint,
    add_endpoints, add_interface, add_interface_tree, add_interfaces, add_string, compiled,
    start, string_count, Cursor,
};
use crate::error::CompileError;
use crate::model::{ConfigurationSpec, DeviceSpec, EndpointSpec, InterfaceSpec};
use crate::record::AnyDescriptorView;
use crate::string::string_content::StringContentView;
use crate::table::{entry_matches, lemma_encoded_all, lemma_encoded_matches};

verus! {

/// The number of descriptors that belong to some interfaces: for each its
/// own, that of its name, and those of its endpoints.
pub open spec fn interfaces_size(interfaces: Seq<InterfaceSpec>) -> nat
    decreases interfaces.len(),
{
    if interfaces.len() == 0 {
        0
    } else {
        interfaces_size(interfaces.drop_last()) + 2 + interfaces.last().endpoints.len()
    }
}

/// The number of descriptors that belong to some configurations: for each
/// its own, that of its name, and those that belong to its interfaces.
pub open spec fn configurations_size(configurations: Seq<ConfigurationSpec>) -> nat
    decreases configurations.len(),
{
    if configurations.len() == 0 {
        0
    } else {
        configurations_size(configurations.drop_last()) + 2 + interfaces_size(
            configurations.last().interfaces,
        )
    }
}

/// The number of descriptors of a device: its own, the language list, its
/// three names, and those that belong to its configurations.
pub open spec fn device_size(device: DeviceSpec) -> nat {
    5 + configurations_size(device.configurations)
}

/// Endpoints that are added come on top of what was made, one descriptor
/// each.
pub proof fn lemma_add_endpoints_size(cursor: Cursor, endpoints: Seq<EndpointSpec>)
    requires
        add_endpoints(cursor, endpoints) is Ok,
    ensures
        add_endpoints(cursor, endpoints)->Ok_0.emitted.len() == cursor.emitted.len()
            + endpoints.len(),
    decreases endpoints.len(),
{
    if endpoints.len() > 0 {
        let next = add_endpoint(cursor, endpoints.last())->Ok_0;
        lemma_add_endpoints_size(next, endpoints.drop_last());
    }
}

/// Interfaces that are added come on top of what was made, with all that
/// belongs to them.
pub proof fn lemma_add_interfaces_size(cursor: Cursor, interfaces: Seq<InterfaceSpec>)
    requires
        add_interfaces(cursor, interfaces) is Ok,
    ensures
        add_interfaces(cursor, interfaces)->Ok_0.emitted.len() == cursor.emitted.len()
            + interfaces_size(interfaces),
    decreases interfaces.len(),
{
    if interfaces.len() > 0 {
        let interface = interfaces.last();
        lemma_add_endpoints_size(cursor, interface.endpoints);
        let filled = add_endpoints(cursor, interface.endpoints)->Ok_0;
        let next = add_interface(filled, interface)->Ok_0;
        assert(next.emitted.len() == filled.emitted.len() + 2);
        lemma_add_interfaces_size(next, interfaces.drop_last());
    }
}

/// Configurations that are added come on top of what was made, with all
/// that belongs to them.
pub proof fn lemma_add_configurations_size(cursor: Cursor, configurations: Seq<ConfigurationSpec>)
    requires
        add_configurations(cursor, configurations) is Ok,
    ensures
        add_configurations(cursor, configurations)->Ok_0.emitted.len() == cursor.emitted.len()
            + configurations_size(configurations),
    decreases configurations.len(),
{
    if configurations.len() > 0 {
        let configuration = configurations.last();
        lemma_add_interfaces_size(cursor, configuration.interfaces);
        let filled = add_interfaces(cursor, configuration.interfaces)->Ok_0;
        let next = add_configuration(filled, configuration)->Ok_0;
        assert(next.emitted.len() == filled.emitted.len() + 2);
        lemma_add_configurations_size(next, configurations.drop_last());
    }
}

/// A device compiles to as many descriptors as it is made of: one for
/// the device, one for the language list, three for the device's names,
/// and for each configuration one, one for its name, and for each of its
/// interfaces one, one for its name, and one for each of its endpoints.
pub proof fn lemma_compiled_size(device: DeviceSpec, languages: StringContentView)
    requires
        compiled(device, languages) is Ok,
    ensures
        compiled(device, languages)->Ok_0.len() == device_size(device),
{
    let first = start((string_count(device) - 1) as u8);
    lemma_add_configurations_size(first, device.configurations);
    let filled = add_configurations(first, device.configurations)->Ok_0;
    let made = add_device(filled, device)->Ok_0;
    assert(made.emitted.len() == filled.emitted.len() + 4);
    assert(add_string(made, languages).emitted.len() == made.emitted.len() + 1);
}

/// A configuration without interfaces cannot be added, wherever the
/// compilation stands.
pub proof fn lemma_configuration_needs_interfaces(cursor: Cursor, configuration: ConfigurationSpec)
    requires
        configuration.interfaces.len() == 0,
    ensures
        add_configuration_tree(cursor, configuration) is Err,
{
}

/// An interface without endpoints cannot be added, wherever the
/// compilation stands.
pub proof fn lemma_interface_needs_endpoints(cursor: Cursor, interface: InterfaceSpec)
    requires
        interface.endpoints.len() == 0,
    ensures
        add_interface_tree(cursor, interface) is Err,
{
}

/// Where one interface of a list cannot be added wherever the
/// compilation stands, the list cannot be added.
pub proof fn lemma_add_interfaces_fails(cursor: Cursor, interfaces: Seq<InterfaceSpec>, at: int)
    requires
        0 <= at < interfaces.len(),
        forall|any: Cursor| #[trigger] add_interface_tree(any, interfaces[at]) is Err,
    ensures
        add_interfaces(cursor, interfaces) is Err,
    decreases interfaces.len(),
{
    if at < interfaces.len() - 1 {
        match add_interface_tree(cursor, interfaces.last()) {
            Ok(next) => {
                assert(interfaces.drop_last()[at] == interfaces[at]);
                lemma_add_interfaces_fails(next, interfaces.drop_last(), at);
            },
            Err(_) => {},
        }
    }
}

/// Where one configuration of a list cannot be added wherever the
/// compilation stands, the list cannot be added.
pub proof fn lemma_add_configurations_fails(
    cursor: Cursor,
    configurations: Seq<ConfigurationSpec>,
    at: int,
)
    requires
        0 <= at < configurations.len(),
        forall|any: Cursor| #[trigger] add_configuration_tree(any, configurations[at]) is Err,
    ensures
        add_configurations(cursor, configurations) is Err,
    decreases configurations.len(),
{
    if at < configurations.len() - 1 {
        match add_configuration_tree(cursor, configurations.last()) {
            Ok(next) => {
                assert(configurations.drop_last()[at] == configurations[at]);
                lemma_add_configurations_fails(next, configurations.drop_last(), at);
            },
            Err(_) => {},
        }
    }
}

/// A device does not compile without a language: what is given as the
/// list of languages has to be a list, and has to hold a language.
pub proof fn lemma_compile_needs_a_language(device: DeviceSpec, languages: StringContentView)
    requires
        !languages.is_language_list(),
    ensures
        compiled(device, languages) == Err::<Seq<AnyDescriptorView>, CompileError>(
            CompileError::EmptyRequiredCollection,
        ),
{
}

/// A device without a configuration does not compile.
pub proof fn lemma_compile_needs_configurations(device: DeviceSpec, languages: StringContentView)
    requires
        device.configurations.len() == 0,
    ensures
        compiled(device, languages) == Err::<Seq<AnyDescriptorView>, CompileError>(
            CompileError::EmptyRequiredCollection,
        ),
{
}

/// A device with a configuration that has no interface does not compile.
pub proof fn lemma_compile_needs_interfaces(
    device: DeviceSpec,
    languages: StringContentView,
    configuration: int,
)
    requires
        0 <= configuration < device.configurations.len(),
        device.configurations[configuration].interfaces.len() == 0,
    ensures
        compiled(device, languages) is Err,
{
    if languages.is_language_list() && string_count(device) <= u8::MAX + 1 {
        assert forall|any: Cursor| #[trigger]
            add_configuration_tree(any, device.configurations[configuration]) is Err by {
            lemma_configuration_needs_interfaces(any, device.configurations[configuration]);
        }
        lemma_add_configurations_fails(
            start((string_count(device) - 1) as u8),
            device.configurations,
            configuration,
        );
    }
}

/// A device with an interface that has no endpoint does not compile.
pub proof fn lemma_compile_needs_endpoints(
    device: DeviceSpec,
    languages: StringContentView,
    configuration: int,
    interface: int,
)
    requires
        0 <= configuration < device.configurations.len(),
        0 <= interface < device.configurations[configuration].interfaces.len(),
        device.configurations[configuration].interfaces[interface].endpoints.len() == 0,
    ensures
        compiled(device, languages) is Err,
{
    if languages.is_language_list() && string_count(device) <= u8::MAX + 1 {
        let interfaces = device.configurations[configuration].interfaces;
        assert forall|any: Cursor| #[trigger]
            add_configuration_tree(any, device.configurations[configuration]) is Err by {
            assert forall|other: Cursor| #[trigger]
                add_interface_tree(other, interfaces[interface]) is Err by {
                lemma_interface_needs_endpoints(other, interfaces[interface]);
            }
            lemma_add_interfaces_fails(any, interfaces, interface);
        }
        lemma_add_configurations_fails(
            start((string_count(device) - 1) as u8),
            device.configurations,
            configuration,
        );
    }
}

/// In a table no lookup value stands twice, and each descriptor's bytes
/// begin with their own number and with the code that is the high byte
/// of the descriptor's lookup value; the number that the bytes hold to
/// tell the descriptor from others of its kind is the low byte.
pub proof fn lemma_table_is_well_formed(descriptors: Seq<AnyDescriptorView>)
    requires
        table_of(descriptors) is Ok,
    ensures
        table_of(descriptors)->Ok_0.0.len() == descriptors.len(),
        table_of(descriptors)->Ok_0.1.len() == descriptors.len(),
        table_of(descriptors)->Ok_0.1.no_duplicates(),
        forall|i: int|
            0 <= i < descriptors.len() ==> entry_matches(
                #[trigger] table_of(descriptors)->Ok_0.0[i],
                table_of(descriptors)->Ok_0.1[i],
            ),
{
    lemma_encoded_all(descriptors);
    assert forall|i: int| 0 <= i < descriptors.len() implies entry_matches(
        #[trigger] table_of(descriptors)->Ok_0.0[i],
        table_of(descriptors)->Ok_0.1[i],
    ) by {
        lemma_encoded_matches(descriptors[i]);
    }
}

} // verus!
