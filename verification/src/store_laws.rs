use vstd::prelude::*;
use crate::descriptor_store::{
    entries_of, entry_values, put_string, store_configuration, store_configurations,
    store_device, store_endpoint, store_endpoints, store_interface, store_interfaces,
    store_start, store_string, stored, stored_descriptors, table_wf, CompiledView,
    DescriptorStore, StoreCursor,
};
use crate::descriptors::Descriptors;
use crate::descriptors_builder::DescriptorsBuilder;
use crate::device::device_builder::DeviceBuilder;
use crate::device::device_node::DeviceNode;
use crate::error::CompileError;
use crate::laws::{configurations_size, device_size, interfaces_size};
use crate::model::{ConfigurationSpec, DeviceSpec, EndpointSpec, InterfaceSpec};
use crate::record::{w_values_of, AnyDescriptorView};
use crate::string::string_builder::StringBuidler;
use crate::string::string_content::StringContentView;
use crate::string::string_intrinsics::StringIntrinsics;
use crate::table::{byte_views, lemma_encoded_all, lemma_encoded_matches};

verus! {

/// With one more interface at the front, what belongs to it comes on top
/// of what belongs to the others.
pub proof fn lemma_interfaces_size_front(interfaces: Seq<InterfaceSpec>)
    requires
        interfaces.len() > 0,
    ensures
        interfaces_size(interfaces) == 2 + interfaces.first().endpoints.len() + interfaces_size(
            interfaces.drop_first(),
        ),
    decreases interfaces.len(),
{
    if interfaces.len() == 1 {
        assert(interfaces.drop_last() =~= interfaces.drop_first());
    } else {
        lemma_interfaces_size_front(interfaces.drop_last());
        assert(interfaces.drop_last().drop_first() =~= interfaces.drop_first().drop_last());
    }
}

/// With one more configuration at the front, what belongs to it comes on
/// top of what belongs to the others.
pub proof fn lemma_configurations_size_front(configurations: Seq<ConfigurationSpec>)
    requires
        configurations.len() > 0,
    ensures
        configurations_size(configurations) == 2 + interfaces_size(
            configurations.first().interfaces,
        ) + configurations_size(configurations.drop_first()),
    decreases configurations.len(),
{
    if configurations.len() == 1 {
        assert(configurations.drop_last() =~= configurations.drop_first());
    } else {
        lemma_configurations_size_front(configurations.drop_last());
        assert(configurations.drop_last().drop_first() =~= configurations.drop_first().drop_last());
    }
}

/// Endpoints that are stored come on top of what was made, one
/// descriptor each.
pub proof fn lemma_store_endpoints_size(cursor: StoreCursor, endpoints: Seq<EndpointSpec>)
    requires
        store_endpoints(cursor, endpoints) is Ok,
    ensures
        store_endpoints(cursor, endpoints)->Ok_0.emitted.len() == cursor.emitted.len()
            + endpoints.len(),
    decreases endpoints.len(),
{
    if endpoints.len() > 0 {
        let next = store_endpoint(cursor, endpoints.first())->Ok_0;
        lemma_store_endpoints_size(next, endpoints.drop_first());
    }
}

/// Interfaces that are stored come on top of what was made, with all
/// that belongs to them.
pub proof fn lemma_store_interfaces_size(cursor: StoreCursor, interfaces: Seq<InterfaceSpec>)
    requires
        store_interfaces(cursor, interfaces) is Ok,
    ensures
        store_interfaces(cursor, interfaces)->Ok_0.emitted.len() == cursor.emitted.len()
            + interfaces_size(interfaces),
    decreases interfaces.len(),
{
    if interfaces.len() > 0 {
        let interface = interfaces.first();
        lemma_store_endpoints_size(cursor, interface.endpoints);
        let filled = store_endpoints(cursor, interface.endpoints)->Ok_0;
        let next = store_interface(cursor, interface)->Ok_0;
        assert(next.emitted.len() == filled.emitted.len() + 2);
        lemma_store_interfaces_size(next, interfaces.drop_first());
        lemma_interfaces_size_front(interfaces);
    }
}

/// Configurations that are stored come on top of what was made, with all
/// that belongs to them.
pub proof fn lemma_store_configurations_size(
    cursor: StoreCursor,
    configurations: Seq<ConfigurationSpec>,
)
    requires
        store_configurations(cursor, configurations) is Ok,
    ensures
        store_configurations(cursor, configurations)->Ok_0.emitted.len() == cursor.emitted.len()
            + configurations_size(configurations),
    decreases configurations.len(),
{
    if configurations.len() > 0 {
        let configuration = configurations.first();
        let fresh = StoreCursor { total_length: 0, ..cursor };
        lemma_store_interfaces_size(fresh, configuration.interfaces);
        let filled = store_interfaces(fresh, configuration.interfaces)->Ok_0;
        let next = store_configuration(cursor, configuration)->Ok_0;
        assert(next.emitted.len() == filled.emitted.len() + 2);
        lemma_store_configurations_size(next, configurations.drop_first());
        lemma_configurations_size_front(configurations);
    }
}

/// A tree of nodes compiles to as many descriptors as it is made of: one
/// for the device, one for the language list, three for the device's
/// names, and for each configuration one, one for its name, and for each
/// of its interfaces one, one for its name, and one for each of its
/// endpoints. As many are kept.
pub proof fn lemma_stored_size(device: DeviceSpec, languages: StringContentView)
    requires
        stored_descriptors(device, languages) is Ok,
    ensures
        stored_descriptors(device, languages)->Ok_0.len() == device_size(device),
        stored(device, languages) is Ok ==> stored(device, languages)->Ok_0.len() == device_size(
            device,
        ),
{
    let first = store_string(store_start(), languages)->Ok_0;
    lemma_store_configurations_size(first, device.configurations);
    let filled = store_configurations(first, device.configurations)->Ok_0;
    let made = store_device(filled, device)->Ok_0;
    assert(made.emitted.len() == filled.emitted.len() + 4);
}

/// Where one interface of a list cannot be stored wherever the
/// compilation stands, the list cannot be stored.
pub proof fn lemma_store_interfaces_fails(
    cursor: StoreCursor,
    interfaces: Seq<InterfaceSpec>,
    at: int,
)
    requires
        0 <= at < interfaces.len(),
        forall|any: StoreCursor| #[trigger] store_interface(any, interfaces[at]) is Err,
    ensures
        store_interfaces(cursor, interfaces) is Err,
    decreases interfaces.len(),
{
    if at > 0 {
        match store_interface(cursor, interfaces.first()) {
            Ok(next) => {
                assert(interfaces.drop_first()[at - 1] == interfaces[at]);
                lemma_store_interfaces_fails(next, interfaces.drop_first(), at - 1);
            },
            Err(_) => {},
        }
    }
}

/// Where one configuration of a list cannot be stored wherever the
/// compilation stands, the list cannot be stored.
pub proof fn lemma_store_configurations_fails(
    cursor: StoreCursor,
    configurations: Seq<ConfigurationSpec>,
    at: int,
)
    requires
        0 <= at < configurations.len(),
        forall|any: StoreCursor| #[trigger] store_configuration(any, configurations[at]) is Err,
    ensures
        store_configurations(cursor, configurations) is Err,
    decreases configurations.len(),
{
    if at > 0 {
        match store_configuration(cursor, configurations.first()) {
            Ok(next) => {
                assert(configurations.drop_first()[at - 1] == configurations[at]);
                lemma_store_configurations_fails(next, configurations.drop_first(), at - 1);
            },
            Err(_) => {},
        }
    }
}

/// A tree of nodes does not compile without a language: what is given as
/// the list of languages has to be a list, and has to hold a language.
pub proof fn lemma_store_needs_a_language(device: DeviceSpec, languages: StringContentView)
    requires
        !languages.is_language_list(),
    ensures
        stored(device, languages) == Err::<Seq<CompiledView>, CompileError>(
            CompileError::EmptyRequiredCollection,
        ),
{
}

/// A tree without a configuration does not compile.
pub proof fn lemma_store_needs_configurations(device: DeviceSpec, languages: StringContentView)
    requires
        device.configurations.len() == 0,
    ensures
        stored(device, languages) == Err::<Seq<CompiledView>, CompileError>(
            CompileError::EmptyRequiredCollection,
        ),
{
}

/// A tree with a configuration that has no interface does not compile.
pub proof fn lemma_store_needs_interfaces(
    device: DeviceSpec,
    languages: StringContentView,
    configuration: int,
)
    requires
        0 <= configuration < device.configurations.len(),
        device.configurations[configuration].interfaces.len() == 0,
    ensures
        stored(device, languages) is Err,
{
    if languages.is_language_list() {
        assert forall|any: StoreCursor| #[trigger]
            store_configuration(any, device.configurations[configuration]) is Err by {
            let fresh = StoreCursor { total_length: 0, ..any };
            assert(store_interfaces(fresh, device.configurations[configuration].interfaces) == Ok::<
                StoreCursor,
                CompileError,
            >(fresh));
        }
        lemma_store_configurations_fails(
            store_string(store_start(), languages)->Ok_0,
            device.configurations,
            configuration,
        );
    }
}

/// A tree with an interface that has no endpoint does not compile.
pub proof fn lemma_store_needs_endpoints(
    device: DeviceSpec,
    languages: StringContentView,
    configuration: int,
    interface: int,
)
    requires
        0 <= configuration < device.configurations.len(),
        0 <= interface < device.configurations[configuration].interfaces.len(),
        device.configurations[configuration].interfaces[interface].endpoints.len() == 0,
    ensures
        stored(device, languages) is Err,
{
    if languages.is_language_list() {
        let interfaces = device.configurations[configuration].interfaces;
        assert forall|any: StoreCursor| #[trigger]
            store_configuration(any, device.configurations[configuration]) is Err by {
            assert forall|other: StoreCursor| #[trigger]
                store_interface(other, interfaces[interface]) is Err by {
                assert(store_endpoints(other, interfaces[interface].endpoints) == Ok::<
                    StoreCursor,
                    CompileError,
                >(other));
            }
            lemma_store_interfaces_fails(
                StoreCursor { total_length: 0, ..any },
                interfaces,
                interface,
            );
        }
        lemma_store_configurations_fails(
            store_string(store_start(), languages)->Ok_0,
            device.configurations,
            configuration,
        );
    }
}

/// What is kept of some descriptors has one entry for each of them, no
/// lookup value stands twice in it, and each entry's bytes stand rightly
/// under its lookup value.
pub proof fn lemma_entries_are_well_formed(descriptors: Seq<AnyDescriptorView>)
    requires
        entries_of(descriptors) is Ok,
    ensures
        entries_of(descriptors)->Ok_0.len() == descriptors.len(),
        table_wf(entries_of(descriptors)->Ok_0),
{
    let entries = entries_of(descriptors)->Ok_0;
    lemma_encoded_all(descriptors);
    assert forall|i: int| 0 <= i < entries.len() implies (#[trigger] entries[i]).wf() by {
        lemma_encoded_matches(descriptors[i]);
    }
    assert(entry_values(entries) =~= w_values_of(descriptors));
}

/// Two runs of `DescriptorStore::new` on trees that are the same, with
/// the same languages, keep the same bytes under the same lookup values
/// in the same order, or fail with the same error.
pub proof fn lemma_store_is_deterministic(
    first: DeviceNode,
    first_languages: StringIntrinsics,
    first_run: Result<DescriptorStore, CompileError>,
    second: DeviceNode,
    second_languages: StringIntrinsics,
    second_run: Result<DescriptorStore, CompileError>,
)
    requires
        first@ == second@,
        first_languages@ == second_languages@,
        call_ensures(DescriptorStore::new, (first, first_languages), first_run),
        call_ensures(DescriptorStore::new, (second, second_languages), second_run),
    ensures
        first_run is Ok <==> second_run is Ok,
        first_run is Ok ==> first_run->Ok_0@ == second_run->Ok_0@,
        first_run is Err ==> first_run->Err_0 == second_run->Err_0,
{
}

/// Two runs of `DescriptorsBuilder::build` on devices that are the same
/// tree, with the same languages, make the same descriptors in the same
/// order, or fail with the same error.
pub proof fn lemma_build_is_deterministic(
    first: DeviceBuilder,
    first_languages: StringBuidler,
    first_run: Result<DescriptorsBuilder, CompileError>,
    second: DeviceBuilder,
    second_languages: StringBuidler,
    second_run: Result<DescriptorsBuilder, CompileError>,
)
    requires
        first@ == second@,
        first_languages@ == second_languages@,
        call_ensures(DescriptorsBuilder::build, (&first, &first_languages), first_run),
        call_ensures(DescriptorsBuilder::build, (&second, &second_languages), second_run),
    ensures
        first_run is Ok <==> second_run is Ok,
        first_run is Ok ==> first_run->Ok_0@ == second_run->Ok_0@,
        first_run is Err ==> first_run->Err_0 == second_run->Err_0,
{
}

/// Two runs of `Descriptors::encode` on the same descriptors give the
/// same bytes under the same lookup values, or fail with the same error.
pub proof fn lemma_encode_is_deterministic(
    first: DescriptorsBuilder,
    first_run: Result<Descriptors, CompileError>,
    second: DescriptorsBuilder,
    second_run: Result<Descriptors, CompileError>,
)
    requires
        first@ == second@,
        call_ensures(Descriptors::encode, (&first,), first_run),
        call_ensures(Descriptors::encode, (&second,), second_run),
    ensures
        first_run is Ok <==> second_run is Ok,
        first_run is Ok ==> byte_views(first_run->Ok_0.descriptors@) == byte_views(
            second_run->Ok_0.descriptors@,
        ) && first_run->Ok_0.w_values@ == second_run->Ok_0.w_values@,
        first_run is Err ==> first_run->Err_0 == second_run->Err_0,
{
}

} // verus!
