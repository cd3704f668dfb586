use vstd::prelude::*;
use crate::descriptor::Descriptor;
use crate::descriptor_store::{
    entries_of, CompiledView, put_string, store_configuration, store_configurations, store_device,
    store_endpoint, store_endpoints, store_interface, store_interfaces, store_start,
    store_string, stored_descriptors, StoreCursor,
};
use crate::descriptors_builder::names_in;
use crate::error::CompileError;
use crate::model::{ConfigurationSpec, DeviceSpec, EndpointSpec, InterfaceSpec};
use crate::numbering::{
    is_name_of, lemma_join, lemma_turn, lemma_w_value_tells_apart, names_follow, names_precede,
    only_given_numbers_share,
};
use crate::record::{w_values_of, AnyDescriptorView};
use crate::string::string_content::StringContentView;
use crate::string::string_descriptor::StringDescriptorView;

verus! {

/// A descriptor's number has been handed out before the cursor: strings
/// and interfaces count up and stand below the next numbers. Endpoints
/// and configurations bring their own numbers, and a device is not before
/// a cursor that goes on.
pub open spec fn stored_before(cursor: StoreCursor, descriptor: AnyDescriptorView) -> bool {
    match descriptor {
        AnyDescriptorView::String(d) => d.index < cursor.next_string,
        AnyDescriptorView::Interface(d) => d.interface_number < cursor.next_interface,
        AnyDescriptorView::Configuration(_) => true,
        AnyDescriptorView::Endpoint(_) => true,
        AnyDescriptorView::Device(_) => false,
    }
}

/// All that a cursor has made is numbered before it, only endpoints and
/// configurations share lookup values, and each interface and each
/// configuration was made right after its name.
pub open spec fn stored_numbered(cursor: StoreCursor) -> bool {
    &&& only_given_numbers_share(cursor.emitted)
    &&& names_precede(cursor.emitted)
    &&& forall|k: int|
        0 <= k < cursor.emitted.len() ==> stored_before(cursor, #[trigger] cursor.emitted[k])
}

/// A descriptor that is numbered apart from all that a cursor has made,
/// and that comes right after its name if it has one, can join them.
pub proof fn lemma_store_push(cursor: StoreCursor, descriptor: AnyDescriptorView)
    requires
        stored_numbered(cursor),
        descriptor is Endpoint || descriptor is Configuration || !stored_before(
            cursor,
            descriptor,
        ),
        descriptor is Interface || descriptor is Configuration ==> cursor.emitted.len() > 0
            && is_name_of(cursor.emitted.last(), descriptor),
    ensures
        only_given_numbers_share(cursor.emitted.push(descriptor)),
        names_precede(cursor.emitted.push(descriptor)),
{
    assert forall|k: int|
        0 <= k < cursor.emitted.len() && (#[trigger] cursor.emitted[k]).w_value()
            == descriptor.w_value() implies (cursor.emitted[k] is Endpoint
        && descriptor is Endpoint) || (cursor.emitted[k] is Configuration
        && descriptor is Configuration) by {
        let other = cursor.emitted[k];
        assert(stored_before(cursor, other));
        lemma_w_value_tells_apart(
            other.descriptor_type(),
            other.index(),
            descriptor.descriptor_type(),
            descriptor.index(),
        );
    }
    lemma_join(cursor.emitted, descriptor);
}

/// A string that is stored keeps all numbered, and takes one index.
pub proof fn lemma_store_string_numbered(cursor: StoreCursor, content: StringContentView)
    requires
        stored_numbered(cursor),
        store_string(cursor, content) is Ok,
    ensures
        stored_numbered(store_string(cursor, content)->Ok_0),
        store_string(cursor, content)->Ok_0.next_string == cursor.next_string + 1,
        store_string(cursor, content)->Ok_0.next_interface == cursor.next_interface,
{
    let next = store_string(cursor, content)->Ok_0;
    let made = AnyDescriptorView::String(
        StringDescriptorView { index: cursor.next_string, string: content },
    );
    lemma_store_push(cursor, made);
    assert forall|k: int| 0 <= k < next.emitted.len() implies stored_before(
        next,
        #[trigger] next.emitted[k],
    ) by {
        if k < cursor.emitted.len() {
            assert(stored_before(cursor, cursor.emitted[k]));
        }
    }
}

/// Endpoints that are stored keep all numbered.
pub proof fn lemma_store_endpoints_numbered(cursor: StoreCursor, endpoints: Seq<EndpointSpec>)
    requires
        stored_numbered(cursor),
        store_endpoints(cursor, endpoints) is Ok,
    ensures
        stored_numbered(store_endpoints(cursor, endpoints)->Ok_0),
        store_endpoints(cursor, endpoints)->Ok_0.next_string == cursor.next_string,
    decreases endpoints.len(),
{
    if endpoints.len() > 0 {
        let next = store_endpoint(cursor, endpoints.first())->Ok_0;
        let made = AnyDescriptorView::Endpoint(endpoints.first().build()->Ok_0);
        lemma_store_push(cursor, made);
        assert forall|k: int| 0 <= k < next.emitted.len() implies stored_before(
            next,
            #[trigger] next.emitted[k],
        ) by {
            if k < cursor.emitted.len() {
                assert(stored_before(cursor, cursor.emitted[k]));
            }
        }
        lemma_store_endpoints_numbered(next, endpoints.drop_first());
    }
}

/// An interface that is stored keeps all numbered, and takes one string
/// index.
pub proof fn lemma_store_interface_numbered(cursor: StoreCursor, interface: InterfaceSpec)
    requires
        stored_numbered(cursor),
        store_interface(cursor, interface) is Ok,
    ensures
        stored_numbered(store_interface(cursor, interface)->Ok_0),
        store_interface(cursor, interface)->Ok_0.next_string == cursor.next_string + 1,
{
    lemma_store_endpoints_numbered(cursor, interface.endpoints);
    let filled = store_endpoints(cursor, interface.endpoints)->Ok_0;
    lemma_store_string_numbered(filled, interface.interface);
    let named = store_string(filled, interface.interface)->Ok_0;
    let next = store_interface(cursor, interface)->Ok_0;
    let made = AnyDescriptorView::Interface(
        interface.build(
            named.next_interface,
            filled.next_string,
            interface.endpoints.len() as u8,
        )->Ok_0,
    );
    assert(next.emitted == named.emitted.push(made));
    lemma_store_push(named, made);
    assert forall|k: int| 0 <= k < next.emitted.len() implies stored_before(
        next,
        #[trigger] next.emitted[k],
    ) by {
        if k < named.emitted.len() {
            assert(stored_before(named, named.emitted[k]));
        }
    }
}

/// Interfaces that are stored keep all numbered, and take one string
/// index each.
pub proof fn lemma_store_interfaces_numbered(cursor: StoreCursor, interfaces: Seq<InterfaceSpec>)
    requires
        stored_numbered(cursor),
        store_interfaces(cursor, interfaces) is Ok,
    ensures
        stored_numbered(store_interfaces(cursor, interfaces)->Ok_0),
        store_interfaces(cursor, interfaces)->Ok_0.next_string == cursor.next_string
            + interfaces.len(),
    decreases interfaces.len(),
{
    if interfaces.len() > 0 {
        lemma_store_interface_numbered(cursor, interfaces.first());
        let next = store_interface(cursor, interfaces.first())->Ok_0;
        lemma_store_interfaces_numbered(next, interfaces.drop_first());
    }
}

/// A configuration that is stored keeps all numbered, and takes one
/// string index for its name and one for each of its interfaces.
pub proof fn lemma_store_configuration_numbered(cursor: StoreCursor, configuration: ConfigurationSpec)
    requires
        stored_numbered(cursor),
        store_configuration(cursor, configuration) is Ok,
    ensures
        stored_numbered(store_configuration(cursor, configuration)->Ok_0),
        store_configuration(cursor, configuration)->Ok_0.next_string == cursor.next_string + 1
            + configuration.interfaces.len(),
{
    let fresh = StoreCursor { total_length: 0, ..cursor };
    assert(stored_numbered(fresh)) by {
        assert forall|k: int| 0 <= k < fresh.emitted.len() implies stored_before(
            fresh,
            #[trigger] fresh.emitted[k],
        ) by {
            assert(stored_before(cursor, cursor.emitted[k]));
        }
    }
    lemma_store_interfaces_numbered(fresh, configuration.interfaces);
    let filled = store_interfaces(fresh, configuration.interfaces)->Ok_0;
    lemma_store_string_numbered(filled, configuration.configuration);
    let named = store_string(filled, configuration.configuration)->Ok_0;
    let next = store_configuration(cursor, configuration)->Ok_0;
    let made = AnyDescriptorView::Configuration(
        configuration.build_checked(
            named.total_length,
            configuration.interfaces.len() as u8,
            configuration.configuration_value,
            filled.next_string,
        )->Ok_0,
    );
    assert(next.emitted == named.emitted.push(made));
    lemma_store_push(named, made);
    assert forall|k: int| 0 <= k < next.emitted.len() implies stored_before(
        next,
        #[trigger] next.emitted[k],
    ) by {
        if k < named.emitted.len() {
            assert(stored_before(named, named.emitted[k]));
        }
    }
}

/// With one more configuration at the front, its names come on top of
/// those of the others.
pub proof fn lemma_names_in_front(configurations: Seq<ConfigurationSpec>)
    requires
        configurations.len() > 0,
    ensures
        names_in(configurations) == 1 + configurations.first().interfaces.len() + names_in(
            configurations.drop_first(),
        ),
    decreases configurations.len(),
{
    if configurations.len() == 1 {
        assert(configurations.drop_last() =~= configurations.drop_first());
    } else {
        lemma_names_in_front(configurations.drop_last());
        assert(configurations.drop_last().drop_first() =~= configurations.drop_first().drop_last());
    }
}

/// Configurations that are stored keep all numbered, and take one string
/// index for each name.
pub proof fn lemma_store_configurations_numbered(
    cursor: StoreCursor,
    configurations: Seq<ConfigurationSpec>,
)
    requires
        stored_numbered(cursor),
        store_configurations(cursor, configurations) is Ok,
    ensures
        stored_numbered(store_configurations(cursor, configurations)->Ok_0),
        store_configurations(cursor, configurations)->Ok_0.next_string == cursor.next_string
            + names_in(configurations),
    decreases configurations.len(),
{
    if configurations.len() > 0 {
        lemma_store_configuration_numbered(cursor, configurations.first());
        let next = store_configuration(cursor, configurations.first())->Ok_0;
        lemma_store_configurations_numbered(next, configurations.drop_first());
        lemma_names_in_front(configurations);
    }
}

/// What a tree of nodes compiles to begins with the device descriptor
/// and the device's serial number, product and manufacturer, and ends
/// with the language list under string index 0. The device's names have
/// the three string indices that come after those of all the
/// configurations and interfaces, and the device descriptor refers to
/// each by its index. Each interface and each configuration is followed
/// by its name, the string descriptor whose index is the one by which it
/// refers to its name. Among all the descriptors, two that stand under
/// one lookup value are both endpoints or both configurations: the
/// strings and the interfaces are numbered apart, so that under the
/// lookup value of a string stands the one string that its owner refers
/// to.
pub proof fn lemma_stored_numbering(device: DeviceSpec, languages: StringContentView)
    requires
        stored_descriptors(device, languages) is Ok,
    ensures
        only_given_numbers_share(stored_descriptors(device, languages)->Ok_0),
        names_follow(stored_descriptors(device, languages)->Ok_0),
        stored_descriptors(device, languages)->Ok_0.len() >= 5,
        names_in(device.configurations) + 3 <= u8::MAX,
        ({
            let first = (names_in(device.configurations) + 1) as u8;
            &&& device.build(
                device.configurations.len() as u8,
                first,
                (first + 1) as u8,
                (first + 2) as u8,
            ) is Ok
            &&& stored_descriptors(device, languages)->Ok_0[0] == AnyDescriptorView::Device(
                device.build(
                    device.configurations.len() as u8,
                    first,
                    (first + 1) as u8,
                    (first + 2) as u8,
                )->Ok_0,
            )
            &&& stored_descriptors(device, languages)->Ok_0[1] == AnyDescriptorView::String(
                StringDescriptorView { index: (first + 2) as u8, string: device.serial_number },
            )
            &&& stored_descriptors(device, languages)->Ok_0[2] == AnyDescriptorView::String(
                StringDescriptorView { index: (first + 1) as u8, string: device.product },
            )
            &&& stored_descriptors(device, languages)->Ok_0[3] == AnyDescriptorView::String(
                StringDescriptorView { index: first, string: device.manufacturer },
            )
        }),
        stored_descriptors(device, languages)->Ok_0.last() == AnyDescriptorView::String(
            StringDescriptorView { index: 0, string: languages },
        ),
{
    let begun = store_string(store_start(), languages)->Ok_0;
    assert(stored_numbered(store_start()));
    lemma_store_string_numbered(store_start(), languages);
    lemma_store_configurations_numbered(begun, device.configurations);
    let filled = store_configurations(begun, device.configurations)->Ok_0;
    assert(filled.next_string == 1 + names_in(device.configurations));

    lemma_store_string_numbered(filled, device.manufacturer);
    let first = store_string(filled, device.manufacturer)->Ok_0;
    lemma_store_string_numbered(first, device.product);
    let second = store_string(first, device.product)->Ok_0;

    let serial = AnyDescriptorView::String(
        StringDescriptorView { index: second.next_string, string: device.serial_number },
    );
    let third = put_string(second, device.serial_number);
    assert(third.emitted == second.emitted.push(serial));
    lemma_store_push(second, serial);

    let made = store_device(filled, device)->Ok_0;
    let descriptor = AnyDescriptorView::Device(
        device.build(
            device.configurations.len() as u8,
            filled.next_string,
            first.next_string,
            second.next_string,
        )->Ok_0,
    );
    assert(made.emitted == third.emitted.push(descriptor));
    assert forall|k: int|
        0 <= k < third.emitted.len() && (#[trigger] third.emitted[k]).w_value()
            == descriptor.w_value() implies (third.emitted[k] is Endpoint
        && descriptor is Endpoint) || (third.emitted[k] is Configuration
        && descriptor is Configuration) by {
        let other = third.emitted[k];
        if k < second.emitted.len() {
            assert(stored_before(second, second.emitted[k]));
        }
        lemma_w_value_tells_apart(
            other.descriptor_type(),
            other.index(),
            descriptor.descriptor_type(),
            descriptor.index(),
        );
    }
    lemma_join(third.emitted, descriptor);
    lemma_turn(made.emitted);

    let out = stored_descriptors(device, languages)->Ok_0;
    assert(out == made.emitted.reverse());
    let n = made.emitted.len();
    assert(n == filled.emitted.len() + 4);
    assert(out[0] == made.emitted[n - 1]);
    assert(out[1] == made.emitted[n - 2]);
    assert(out[2] == made.emitted[n - 3]);
    assert(out[3] == made.emitted[n - 4]);
    assert(begun.emitted.len() == 1);
    lemma_store_emitted_grows(begun, device.configurations);
    assert(filled.emitted[0] == begun.emitted[0]);
    assert(made.emitted[0] == filled.emitted[0]);
    assert(out[n - 1] == made.emitted[0]);
}

/// Storing configurations leaves what was made before in its place.
pub proof fn lemma_store_emitted_grows(cursor: StoreCursor, configurations: Seq<ConfigurationSpec>)
    requires
        store_configurations(cursor, configurations) is Ok,
    ensures
        cursor.emitted.is_prefix_of(store_configurations(cursor, configurations)->Ok_0.emitted),
    decreases configurations.len(),
{
    if configurations.len() > 0 {
        let configuration = configurations.first();
        let fresh = StoreCursor { total_length: 0, ..cursor };
        lemma_store_interfaces_grow(fresh, configuration.interfaces);
        let next = store_configuration(cursor, configuration)->Ok_0;
        lemma_store_emitted_grows(next, configurations.drop_first());
    }
}

/// Storing interfaces leaves what was made before in its place.
pub proof fn lemma_store_interfaces_grow(cursor: StoreCursor, interfaces: Seq<InterfaceSpec>)
    requires
        store_interfaces(cursor, interfaces) is Ok,
    ensures
        cursor.emitted.is_prefix_of(store_interfaces(cursor, interfaces)->Ok_0.emitted),
    decreases interfaces.len(),
{
    if interfaces.len() > 0 {
        let interface = interfaces.first();
        lemma_store_endpoints_grow(cursor, interface.endpoints);
        let next = store_interface(cursor, interface)->Ok_0;
        lemma_store_interfaces_grow(next, interfaces.drop_first());
    }
}

/// Storing endpoints leaves what was made before in its place.
pub proof fn lemma_store_endpoints_grow(cursor: StoreCursor, endpoints: Seq<EndpointSpec>)
    requires
        store_endpoints(cursor, endpoints) is Ok,
    ensures
        cursor.emitted.is_prefix_of(store_endpoints(cursor, endpoints)->Ok_0.emitted),
    decreases endpoints.len(),
{
    if endpoints.len() > 0 {
        let next = store_endpoint(cursor, endpoints.first())->Ok_0;
        lemma_store_endpoints_grow(next, endpoints.drop_first());
    }
}

/// Where the endpoints of what a tree compiles to have addresses of
/// their own, and its configurations have configuration values of their
/// own, no lookup value stands twice, so that all can be kept unless one
/// cannot be written out.
pub proof fn lemma_stored_values_distinct(device: DeviceSpec, languages: StringContentView)
    requires
        stored_descriptors(device, languages) is Ok,
        forall|i: int, j: int|
            #![trigger stored_descriptors(device, languages)->Ok_0[i], stored_descriptors(device, languages)->Ok_0[j]]
            0 <= i < stored_descriptors(device, languages)->Ok_0.len() && 0 <= j
                < stored_descriptors(device, languages)->Ok_0.len() && i != j
                && stored_descriptors(device, languages)->Ok_0[i].descriptor_type()
                == stored_descriptors(device, languages)->Ok_0[j].descriptor_type() && (
            stored_descriptors(device, languages)->Ok_0[i] is Endpoint || stored_descriptors(
                device,
                languages,
            )->Ok_0[i] is Configuration) ==> stored_descriptors(device, languages)->Ok_0[i].index()
                != stored_descriptors(device, languages)->Ok_0[j].index(),
    ensures
        w_values_of(stored_descriptors(device, languages)->Ok_0).no_duplicates(),
        entries_of(stored_descriptors(device, languages)->Ok_0) != Err::<
            Seq<CompiledView>,
            CompileError,
        >(CompileError::DuplicateKey),
{
    lemma_stored_numbering(device, languages);
    let out = stored_descriptors(device, languages)->Ok_0;
    let values = w_values_of(out);
    assert forall|i: int, j: int|
        0 <= i < values.len() && 0 <= j < values.len() && i != j implies values[i]
        != values[j] by {
        if values[i] == values[j] {
            assert(out[i].w_value() == out[j].w_value());
            assert((out[i] is Endpoint && out[j] is Endpoint) || (out[i] is Configuration
                && out[j] is Configuration));
            assert(out[i].index() != out[j].index());
        }
    }
}

} // verus!
