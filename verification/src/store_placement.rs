use vstd::prelude::*;
use crate::descriptor_store::{
    store_configuration, store_configurations, store_device, store_endpoint, store_endpoints,
    store_interface, store_interfaces, store_start, store_string, stored_descriptors,
    StoreCursor,
};
use crate::laws::{configurations_size, interfaces_size};
use crate::model::{ConfigurationSpec, DeviceSpec, EndpointSpec, InterfaceSpec};
use crate::placement::{
    interfaces_length, is_configuration_of, lemma_configurations_size_split,
};
use crate::record::AnyDescriptorView;
use crate::store_laws::{
    lemma_configurations_size_front, lemma_store_configurations_size,
    lemma_store_interfaces_size, lemma_stored_size,
};
use crate::store_numbering::{lemma_store_emitted_grows, lemma_store_interfaces_grow};
use crate::string::string_content::StringContentView;
use crate::string::string_descriptor::StringDescriptorView;

verus! {

/// With one more interface at the front, the lengths of what belongs to
/// it come on top of those of the others.
pub proof fn lemma_interfaces_length_front(interfaces: Seq<InterfaceSpec>)
    requires
        interfaces.len() > 0,
    ensures
        interfaces_length(interfaces) == 9 + 7 * interfaces.first().endpoints.len()
            + interfaces_length(interfaces.drop_first()),
    decreases interfaces.len(),
{
    if interfaces.len() == 1 {
        assert(interfaces.drop_last() =~= interfaces.drop_first());
    } else {
        lemma_interfaces_length_front(interfaces.drop_last());
        assert(interfaces.drop_last().drop_first() =~= interfaces.drop_first().drop_last());
    }
}

/// Storing endpoints adds seven bytes to the total for each.
pub proof fn lemma_store_endpoints_length(cursor: StoreCursor, endpoints: Seq<EndpointSpec>)
    requires
        store_endpoints(cursor, endpoints) is Ok,
    ensures
        store_endpoints(cursor, endpoints)->Ok_0.total_length == cursor.total_length + 7
            * endpoints.len(),
    decreases endpoints.len(),
{
    if endpoints.len() > 0 {
        let next = store_endpoint(cursor, endpoints.first())->Ok_0;
        lemma_store_endpoints_length(next, endpoints.drop_first());
    }
}

/// Storing interfaces adds the lengths of what belongs to them to the
/// total.
pub proof fn lemma_store_interfaces_length(cursor: StoreCursor, interfaces: Seq<InterfaceSpec>)
    requires
        store_interfaces(cursor, interfaces) is Ok,
    ensures
        store_interfaces(cursor, interfaces)->Ok_0.total_length == cursor.total_length
            + interfaces_length(interfaces),
    decreases interfaces.len(),
{
    if interfaces.len() > 0 {
        let interface = interfaces.first();
        lemma_store_endpoints_length(cursor, interface.endpoints);
        let next = store_interface(cursor, interface)->Ok_0;
        lemma_store_interfaces_length(next, interfaces.drop_first());
        lemma_interfaces_length_front(interfaces);
    }
}

/// What storing endpoints makes: for each an endpoint descriptor, in
/// their order.
pub proof fn lemma_store_endpoints_block(cursor: StoreCursor, endpoints: Seq<EndpointSpec>)
    requires
        store_endpoints(cursor, endpoints) is Ok,
    ensures
        ({
            let next = store_endpoints(cursor, endpoints)->Ok_0;
            &&& cursor.emitted.is_prefix_of(next.emitted)
            &&& next.emitted.len() == cursor.emitted.len() + endpoints.len()
            &&& next.next_interface == cursor.next_interface
            &&& next.next_string == cursor.next_string
            &&& forall|k: int|
                0 <= k < endpoints.len() ==> (#[trigger] endpoints[k]).build() is Ok
                    && next.emitted[cursor.emitted.len() + k] == AnyDescriptorView::Endpoint(
                    endpoints[k].build()->Ok_0,
                )
        }),
    decreases endpoints.len(),
{
    if endpoints.len() > 0 {
        let step = store_endpoint(cursor, endpoints.first())->Ok_0;
        lemma_store_endpoints_block(step, endpoints.drop_first());
        let next = store_endpoints(cursor, endpoints)->Ok_0;
        assert forall|k: int| 0 <= k < endpoints.len() implies (#[trigger] endpoints[k]).build() is Ok
            && next.emitted[cursor.emitted.len() + k] == AnyDescriptorView::Endpoint(
            endpoints[k].build()->Ok_0,
        ) by {
            if k > 0 {
                assert(endpoints.drop_first()[k - 1] == endpoints[k]);
            } else {
                assert(next.emitted[cursor.emitted.len() as int] == step.emitted[cursor.emitted.len() as int]);
            }
        }
    }
}

/// What storing an interface makes: the endpoint descriptors in their
/// order, then the name of the interface under the next string index,
/// then the interface descriptor with the next interface number and the
/// number of the endpoints, which refers to the name by its index.
pub proof fn lemma_store_interface_block(cursor: StoreCursor, interface: InterfaceSpec)
    requires
        store_interface(cursor, interface) is Ok,
    ensures
        ({
            let next = store_interface(cursor, interface)->Ok_0;
            let first = cursor.emitted.len() as int;
            let count = interface.endpoints.len() as int;
            &&& cursor.emitted.is_prefix_of(next.emitted)
            &&& next.emitted.len() == first + count + 2
            &&& forall|k: int|
                0 <= k < count ==> (#[trigger] interface.endpoints[k]).build() is Ok
                    && next.emitted[first + k] == AnyDescriptorView::Endpoint(
                    interface.endpoints[k].build()->Ok_0,
                )
            &&& next.emitted[first + count] == AnyDescriptorView::String(
                StringDescriptorView { index: cursor.next_string, string: interface.interface },
            )
            &&& interface.build(cursor.next_interface, cursor.next_string, count as u8) is Ok
            &&& next.emitted[first + count + 1] == AnyDescriptorView::Interface(
                interface.build(cursor.next_interface, cursor.next_string, count as u8)->Ok_0,
            )
        }),
{
    lemma_store_endpoints_block(cursor, interface.endpoints);
}

/// A configuration that is stored is made last, after its name, with the
/// lengths of what belongs to it as its total length.
pub proof fn lemma_store_configuration_last(cursor: StoreCursor, configuration: ConfigurationSpec)
    requires
        store_configuration(cursor, configuration) is Ok,
    ensures
        ({
            let next = store_configuration(cursor, configuration)->Ok_0;
            &&& cursor.emitted.is_prefix_of(next.emitted)
            &&& next.emitted.len() == cursor.emitted.len() + 2 + interfaces_size(
                configuration.interfaces,
            )
            &&& is_configuration_of(
                next.emitted[next.emitted.len() - 1],
                next.emitted[next.emitted.len() - 2],
                configuration,
            )
        }),
{
    let fresh = StoreCursor { total_length: 0, ..cursor };
    lemma_store_interfaces_length(fresh, configuration.interfaces);
    lemma_store_interfaces_size(fresh, configuration.interfaces);
    lemma_store_interfaces_grow(fresh, configuration.interfaces);
}

/// Among configurations that are stored, each is made at its place: after
/// those that stand before it in the list, and after what belongs to it.
pub proof fn lemma_store_configurations_place(
    cursor: StoreCursor,
    configurations: Seq<ConfigurationSpec>,
    which: int,
)
    requires
        store_configurations(cursor, configurations) is Ok,
        0 <= which < configurations.len(),
    ensures
        ({
            let made = store_configurations(cursor, configurations)->Ok_0.emitted;
            let at = cursor.emitted.len() + configurations_size(configurations.take(which + 1))
                - 1;
            &&& 0 < at < made.len()
            &&& is_configuration_of(made[at], made[at - 1], configurations[which])
        }),
    decreases configurations.len(),
{
    let first = configurations.first();
    let next = store_configuration(cursor, first)->Ok_0;
    lemma_store_configuration_last(cursor, first);
    lemma_store_emitted_grows(next, configurations.drop_first());
    let made = store_configurations(cursor, configurations)->Ok_0.emitted;
    let front = configurations.take(which + 1);
    lemma_configurations_size_front(front);
    assert(front.first() == first);
    assert(front.drop_first() =~= configurations.drop_first().take(which));
    if which == 0 {
        assert(configurations_size(front.drop_first()) == 0);
        let at = next.emitted.len() - 1;
        assert(made[at] == next.emitted[at]);
        assert(made[at - 1] == next.emitted[at - 1]);
    } else {
        lemma_store_configurations_place(next, configurations.drop_first(), which - 1);
        assert(configurations.drop_first()[which - 1] == configurations[which]);
    }
}

/// In what a tree of nodes compiles to, each configuration has its
/// descriptor at its place: after the four descriptors that come first
/// and after all that belongs to the configurations behind it. The
/// descriptor keeps the configuration's own value, its total length is
/// that of the descriptors of the configuration's interfaces and
/// endpoints, and the configuration's name follows it under the index by
/// which the descriptor refers to it.
pub proof fn lemma_stored_configuration(
    device: DeviceSpec,
    languages: StringContentView,
    which: int,
)
    requires
        stored_descriptors(device, languages) is Ok,
        0 <= which < device.configurations.len(),
    ensures
        ({
            let out = stored_descriptors(device, languages)->Ok_0;
            let at = 4 + configurations_size(device.configurations.skip(which + 1)) as int;
            &&& at + 1 < out.len()
            &&& is_configuration_of(out[at], out[at + 1], device.configurations[which])
        }),
{
    let begun = store_string(store_start(), languages)->Ok_0;
    let filled = store_configurations(begun, device.configurations)->Ok_0;
    lemma_store_configurations_place(begun, device.configurations, which);
    lemma_store_configurations_size(begun, device.configurations);
    lemma_configurations_size_split(device.configurations, which + 1);
    lemma_stored_size(device, languages);

    let out = stored_descriptors(device, languages)->Ok_0;
    let made = store_device(filled, device)->Ok_0;
    assert(out == made.emitted.reverse());
    assert(filled.emitted.is_prefix_of(made.emitted));
    let place = configurations_size(device.configurations.take(which + 1)) as int;
    assert(made.emitted[place] == filled.emitted[place]);
    assert(made.emitted[place - 1] == filled.emitted[place - 1]);
    let at = 4 + configurations_size(device.configurations.skip(which + 1)) as int;
    assert(out[at] == made.emitted[out.len() - 1 - at]);
    assert(out[at + 1] == made.emitted[out.len() - 2 - at]);
}

} // verus!
