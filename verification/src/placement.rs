use vstd::prelude::*;
use crate::descriptors_builder::{lemma_names_in_step, names_in};
use crate::descriptors_builder::{
    add_configuration, add_configuration_tree, add_device, add_configurations, add_endpoint, add_endpoints,
    add_interface, add_interface_tree, add_interfaces, add_string, compiled, start, string_count,
    Cursor,
};
use crate::laws::{
    configurations_size, device_size, interfaces_size, lemma_add_configurations_size,
    lemma_add_interfaces_size, lemma_compiled_size,
};
use crate::model::{ConfigurationSpec, DeviceSpec, EndpointSpec, InterfaceSpec};
use crate::numbering::{
    lemma_add_configuration_numbered, lemma_add_interfaces_numbered, numbered,
};
use crate::record::AnyDescriptorView;
use crate::string::string_content::StringContentView;
use crate::string::string_descriptor::StringDescriptorView;

verus! {

/// The lengths of the descriptors that belong to some interfaces, added
/// up: nine bytes for each interface, seven for each of its endpoints.
pub open spec fn interfaces_length(interfaces: Seq<InterfaceSpec>) -> nat
    decreases interfaces.len(),
{
    if interfaces.len() == 0 {
        0
    } else {
        interfaces_length(interfaces.drop_last()) + 9 + 7 * interfaces.last().endpoints.len()
    }
}

/// What belongs to two lists of configurations, one after the other, is
/// what belongs to the one and what belongs to the other.
pub proof fn lemma_configurations_size_add(
    front: Seq<ConfigurationSpec>,
    back: Seq<ConfigurationSpec>,
)
    ensures
        configurations_size(front + back) == configurations_size(front) + configurations_size(back),
    decreases back.len(),
{
    if back.len() == 0 {
        assert(front + back =~= front);
    } else {
        assert((front + back).drop_last() =~= front + back.drop_last());
        assert((front + back).last() == back.last());
        lemma_configurations_size_add(front, back.drop_last());
    }
}

/// What belongs to a list of configurations is what belongs to those up
/// to a place and what belongs to those from that place on.
pub proof fn lemma_configurations_size_split(configurations: Seq<ConfigurationSpec>, at: int)
    requires
        0 <= at <= configurations.len(),
    ensures
        configurations_size(configurations) == configurations_size(configurations.take(at))
            + configurations_size(configurations.skip(at)),
{
    assert(configurations.take(at) + configurations.skip(at) =~= configurations);
    lemma_configurations_size_add(configurations.take(at), configurations.skip(at));
}

/// Adding endpoints leaves what was made before in its place, and adds
/// seven bytes to the total for each.
pub proof fn lemma_add_endpoints_grow(cursor: Cursor, endpoints: Seq<EndpointSpec>)
    requires
        add_endpoints(cursor, endpoints) is Ok,
    ensures
        cursor.emitted.is_prefix_of(add_endpoints(cursor, endpoints)->Ok_0.emitted),
        add_endpoints(cursor, endpoints)->Ok_0.total_length == cursor.total_length + 7
            * endpoints.len(),
    decreases endpoints.len(),
{
    if endpoints.len() > 0 {
        let next = add_endpoint(cursor, endpoints.last())->Ok_0;
        lemma_add_endpoints_grow(next, endpoints.drop_last());
    }
}

/// Adding interfaces leaves what was made before in its place, and adds
/// the lengths of what belongs to them to the total.
pub proof fn lemma_add_interfaces_grow(cursor: Cursor, interfaces: Seq<InterfaceSpec>)
    requires
        add_interfaces(cursor, interfaces) is Ok,
    ensures
        cursor.emitted.is_prefix_of(add_interfaces(cursor, interfaces)->Ok_0.emitted),
        add_interfaces(cursor, interfaces)->Ok_0.total_length == cursor.total_length
            + interfaces_length(interfaces),
    decreases interfaces.len(),
{
    if interfaces.len() > 0 {
        let interface = interfaces.last();
        lemma_add_endpoints_grow(cursor, interface.endpoints);
        let filled = add_endpoints(cursor, interface.endpoints)->Ok_0;
        let next = add_interface(filled, interface)->Ok_0;
        lemma_add_interfaces_grow(next, interfaces.drop_last());
    }
}

/// Adding configurations leaves what was made before in its place, and
/// leaves the total at 0.
pub proof fn lemma_add_configurations_grow(cursor: Cursor, configurations: Seq<ConfigurationSpec>)
    requires
        add_configurations(cursor, configurations) is Ok,
        cursor.total_length == 0,
    ensures
        cursor.emitted.is_prefix_of(add_configurations(cursor, configurations)->Ok_0.emitted),
        add_configurations(cursor, configurations)->Ok_0.total_length == 0,
    decreases configurations.len(),
{
    if configurations.len() > 0 {
        let configuration = configurations.last();
        lemma_add_interfaces_grow(cursor, configuration.interfaces);
        let next = add_configuration_tree(cursor, configuration)->Ok_0;
        lemma_add_configurations_grow(next, configurations.drop_last());
    }
}

/// What adding endpoints makes: for each an endpoint descriptor, that of
/// the last endpoint first.
pub proof fn lemma_add_endpoints_block(cursor: Cursor, endpoints: Seq<EndpointSpec>)
    requires
        add_endpoints(cursor, endpoints) is Ok,
    ensures
        ({
            let next = add_endpoints(cursor, endpoints)->Ok_0;
            &&& next.emitted.len() == cursor.emitted.len() + endpoints.len()
            &&& next.next_interface == cursor.next_interface
            &&& next.next_string == cursor.next_string
            &&& forall|k: int|
                0 <= k < endpoints.len() ==> (#[trigger] endpoints[k]).build() is Ok
                    && next.emitted[cursor.emitted.len() + endpoints.len() - 1 - k]
                    == AnyDescriptorView::Endpoint(endpoints[k].build()->Ok_0)
        }),
    decreases endpoints.len(),
{
    if endpoints.len() > 0 {
        let step = add_endpoint(cursor, endpoints.last())->Ok_0;
        lemma_add_endpoints_block(step, endpoints.drop_last());
        lemma_add_endpoints_grow(step, endpoints.drop_last());
        let next = add_endpoints(cursor, endpoints)->Ok_0;
        assert forall|k: int| 0 <= k < endpoints.len() implies (#[trigger] endpoints[k]).build() is Ok
            && next.emitted[cursor.emitted.len() + endpoints.len() - 1 - k]
            == AnyDescriptorView::Endpoint(endpoints[k].build()->Ok_0) by {
            if k < endpoints.len() - 1 {
                assert(endpoints.drop_last()[k] == endpoints[k]);
            } else {
                assert(next.emitted[cursor.emitted.len() as int] == step.emitted[cursor.emitted.len() as int]);
            }
        }
    }
}

/// What adding an interface with what belongs to it makes: the endpoint
/// descriptors, that of the last endpoint first, then the name of the
/// interface under the next string index, then the interface descriptor
/// with the next interface number and the number of the endpoints, which
/// refers to the name by that string index.
pub proof fn lemma_add_interface_tree_block(cursor: Cursor, interface: InterfaceSpec)
    requires
        add_interface_tree(cursor, interface) is Ok,
    ensures
        ({
            let next = add_interface_tree(cursor, interface)->Ok_0;
            let first = cursor.emitted.len() as int;
            let count = interface.endpoints.len() as int;
            &&& cursor.emitted.is_prefix_of(next.emitted)
            &&& next.emitted.len() == first + count + 2
            &&& forall|k: int|
                0 <= k < count ==> (#[trigger] interface.endpoints[k]).build() is Ok
                    && next.emitted[first + count - 1 - k] == AnyDescriptorView::Endpoint(
                    interface.endpoints[k].build()->Ok_0,
                )
            &&& next.emitted[first + count] == AnyDescriptorView::String(
                StringDescriptorView { index: cursor.next_string, string: interface.interface },
            )
            &&& interface.build(cursor.next_interface, cursor.next_string, count as u8) is Ok
            &&& next.emitted[first + count + 1] == AnyDescriptorView::Interface(
                interface.build(cursor.next_interface, cursor.next_string, count as u8)->Ok_0,
            )
        }),
{
    lemma_add_endpoints_block(cursor, interface.endpoints);
    lemma_add_endpoints_grow(cursor, interface.endpoints);
}

/// What is said of a configuration descriptor and of the string
/// descriptor that follows it: they are those of the given configuration.
/// The descriptor keeps the configuration's own value, its total length
/// is that of the descriptors of the configuration's interfaces and
/// endpoints, and it refers to its name by the name's string index.
pub open spec fn is_configuration_of(
    descriptor: AnyDescriptorView,
    name: AnyDescriptorView,
    configuration: ConfigurationSpec,
) -> bool {
    &&& descriptor matches AnyDescriptorView::Configuration(d)
    &&& name matches AnyDescriptorView::String(s)
    &&& d.total_length == interfaces_length(configuration.interfaces)
    &&& d.num_interfaces == configuration.interfaces.len()
    &&& d.configuration_value == configuration.configuration_value
    &&& d.attributes == configuration.attributes
    &&& d.max_power == configuration.max_power
    &&& s.string == configuration.configuration
    &&& d.configuration == s.index
}

/// A configuration that is added after a configuration, or first, is
/// made last, after its name, with the lengths of what belongs to it as
/// its total length.
pub proof fn lemma_add_configuration_tree_last(cursor: Cursor, configuration: ConfigurationSpec)
    requires
        cursor.total_length == 0,
        add_configuration_tree(cursor, configuration) is Ok,
    ensures
        ({
            let next = add_configuration_tree(cursor, configuration)->Ok_0;
            &&& next.emitted.len() == cursor.emitted.len() + 2 + interfaces_size(
                configuration.interfaces,
            )
            &&& is_configuration_of(
                next.emitted[next.emitted.len() - 1],
                next.emitted[next.emitted.len() - 2],
                configuration,
            )
            &&& next.total_length == 0
        }),
{
    lemma_add_interfaces_grow(cursor, configuration.interfaces);
    lemma_add_interfaces_size(cursor, configuration.interfaces);
}

/// Among configurations that are added, each is made at its place: after
/// those that stand behind it in the list, and after what belongs to it.
pub proof fn lemma_add_configurations_place(
    cursor: Cursor,
    configurations: Seq<ConfigurationSpec>,
    which: int,
)
    requires
        cursor.total_length == 0,
        add_configurations(cursor, configurations) is Ok,
        0 <= which < configurations.len(),
    ensures
        ({
            let made = add_configurations(cursor, configurations)->Ok_0.emitted;
            let at = cursor.emitted.len() + configurations_size(configurations.skip(which)) - 1;
            &&& 0 < at < made.len()
            &&& is_configuration_of(made[at], made[at - 1], configurations[which])
        }),
    decreases configurations.len(),
{
    let last = configurations.last();
    let next = add_configuration_tree(cursor, last)->Ok_0;
    lemma_add_configuration_tree_last(cursor, last);
    lemma_add_configurations_grow(next, configurations.drop_last());
    let made = add_configurations(cursor, configurations)->Ok_0.emitted;
    if which == configurations.len() - 1 {
        assert(configurations.skip(which) =~= seq![last]);
        assert(seq![last].drop_last() =~= Seq::<ConfigurationSpec>::empty());
        assert(seq![last].last() == last);
        assert(configurations_size(seq![last].drop_last()) == 0);
        assert(configurations_size(seq![last]) == 2 + interfaces_size(last.interfaces));
        let at = next.emitted.len() - 1;
        assert(made[at] == next.emitted[at]);
        assert(made[at - 1] == next.emitted[at - 1]);
    } else {
        lemma_add_configurations_place(next, configurations.drop_last(), which);
        assert(configurations.drop_last()[which] == configurations[which]);
        assert(configurations.skip(which).drop_last() =~= configurations.drop_last().skip(which));
        assert(configurations.skip(which).last() == last);
    }
}

/// In what a device compiles to, each configuration has its descriptor
/// at its place: after the five descriptors that come first and after all
/// that belongs to the configurations before it. The descriptor's total
/// length is that of the descriptors of the configuration's interfaces
/// and endpoints, and the configuration's name follows it.
pub proof fn lemma_compiled_configuration(
    device: DeviceSpec,
    languages: StringContentView,
    which: int,
)
    requires
        compiled(device, languages) is Ok,
        0 <= which < device.configurations.len(),
    ensures
        ({
            let out = compiled(device, languages)->Ok_0;
            let at = 5 + configurations_size(device.configurations.take(which)) as int;
            &&& at + 1 < out.len()
            &&& is_configuration_of(out[at], out[at + 1], device.configurations[which])
        }),
{
    let first = start((string_count(device) - 1) as u8);
    let filled = add_configurations(first, device.configurations)->Ok_0;
    lemma_add_configurations_place(first, device.configurations, which);
    lemma_add_configurations_size(first, device.configurations);
    lemma_configurations_size_split(device.configurations, which);
    lemma_compiled_size(device, languages);

    let out = compiled(device, languages)->Ok_0;
    let made = add_device(filled, device)->Ok_0;
    let last = add_string(made, languages);
    assert(out == last.emitted.reverse());
    assert(filled.emitted.is_prefix_of(last.emitted));
    let place = configurations_size(device.configurations.skip(which)) - 1;
    assert(last.emitted[place] == filled.emitted[place]);
    assert(last.emitted[place - 1] == filled.emitted[place - 1]);
    let at = 5 + configurations_size(device.configurations.take(which)) as int;
    assert(out[at] == last.emitted[out.len() - 1 - at]);
    assert(out[at + 1] == last.emitted[out.len() - 2 - at]);
}

/// The names among two lists of configurations, one after the other,
/// are those of the one and those of the other.
pub proof fn lemma_names_in_add(front: Seq<ConfigurationSpec>, back: Seq<ConfigurationSpec>)
    ensures
        names_in(front + back) == names_in(front) + names_in(back),
    decreases back.len(),
{
    if back.len() == 0 {
        assert(front + back =~= front);
    } else {
        assert((front + back).drop_last() =~= front + back.drop_last());
        assert((front + back).last() == back.last());
        lemma_names_in_add(front, back.drop_last());
    }
}

/// Among configurations that are added while the string index is not
/// below the number of their names, the name of each gets the string
/// index that is left when the names of those behind it and of its own
/// interfaces have taken theirs.
pub proof fn lemma_add_configurations_name_index(
    cursor: Cursor,
    configurations: Seq<ConfigurationSpec>,
    which: int,
)
    requires
        numbered(cursor),
        cursor.total_length == 0,
        cursor.next_string >= names_in(configurations),
        add_configurations(cursor, configurations) is Ok,
        0 <= which < configurations.len(),
    ensures
        ({
            let made = add_configurations(cursor, configurations)->Ok_0.emitted;
            let at = cursor.emitted.len() + configurations_size(configurations.skip(which)) - 1;
            &&& 0 < at < made.len()
            &&& made[at - 1] == AnyDescriptorView::String(
                StringDescriptorView {
                    index: (cursor.next_string - names_in(configurations.skip(which + 1))
                        - configurations[which].interfaces.len()) as u8,
                    string: configurations[which].configuration,
                },
            )
            &&& names_in(configurations.skip(which + 1)) + configurations[which].interfaces.len()
                <= cursor.next_string
        }),
    decreases configurations.len(),
{
    let last = configurations.last();
    let filled = add_interfaces(cursor, last.interfaces)->Ok_0;
    lemma_add_interfaces_numbered(cursor, last.interfaces);
    lemma_add_configuration_numbered(filled, last);
    let next = add_configuration_tree(cursor, last)->Ok_0;
    lemma_add_configuration_tree_last(cursor, last);
    lemma_add_configurations_grow(next, configurations.drop_last());
    lemma_add_configurations_place(cursor, configurations, which);
    let made = add_configurations(cursor, configurations)->Ok_0.emitted;
    if which == configurations.len() - 1 {
        assert(configurations.skip(which) =~= seq![last]);
        assert(seq![last].drop_last() =~= Seq::<ConfigurationSpec>::empty());
        assert(seq![last].last() == last);
        assert(configurations_size(seq![last].drop_last()) == 0);
        assert(configurations_size(seq![last]) == 2 + interfaces_size(last.interfaces));
        assert(configurations.skip(which + 1) =~= Seq::<ConfigurationSpec>::empty());
        let at = next.emitted.len() - 1;
        assert(made[at - 1] == next.emitted[at - 1]);
    } else {
        lemma_add_configurations_name_index(next, configurations.drop_last(), which);
        assert(configurations.drop_last()[which] == configurations[which]);
        assert(configurations.skip(which).drop_last() =~= configurations.drop_last().skip(which));
        assert(configurations.skip(which).last() == last);
        assert(configurations.skip(which + 1).drop_last() =~= configurations.drop_last().skip(
            which + 1,
        ));
        assert(configurations.skip(which + 1).last() == last);
    }
}

/// In what a device compiles to, the name of each configuration has the
/// string index that comes after the four of the language list and the
/// device's names and after those of the names of the configurations
/// before it and of their interfaces.
pub proof fn lemma_compiled_configuration_name(
    device: DeviceSpec,
    languages: StringContentView,
    which: int,
)
    requires
        compiled(device, languages) is Ok,
        0 <= which < device.configurations.len(),
    ensures
        ({
            let out = compiled(device, languages)->Ok_0;
            let at = 5 + configurations_size(device.configurations.take(which)) as int;
            &&& at + 1 < out.len()
            &&& 4 + names_in(device.configurations.take(which)) <= u8::MAX
            &&& out[at + 1] == AnyDescriptorView::String(
                StringDescriptorView {
                    index: (4 + names_in(device.configurations.take(which))) as u8,
                    string: device.configurations[which].configuration,
                },
            )
        }),
{
    let first = start((string_count(device) - 1) as u8);
    assert(numbered(first));
    let filled = add_configurations(first, device.configurations)->Ok_0;
    lemma_add_configurations_name_index(first, device.configurations, which);
    lemma_add_configurations_size(first, device.configurations);
    lemma_configurations_size_split(device.configurations, which);
    lemma_compiled_size(device, languages);
    assert(device.configurations.take(which + 1) + device.configurations.skip(which + 1)
        =~= device.configurations);
    lemma_names_in_add(
        device.configurations.take(which + 1),
        device.configurations.skip(which + 1),
    );
    lemma_names_in_step(device.configurations, which);

    let out = compiled(device, languages)->Ok_0;
    let made = add_device(filled, device)->Ok_0;
    let last = add_string(made, languages);
    assert(out == last.emitted.reverse());
    assert(filled.emitted.is_prefix_of(last.emitted));
    let place = configurations_size(device.configurations.skip(which)) - 1;
    assert(last.emitted[place - 1] == filled.emitted[place - 1]);
    let at = 5 + configurations_size(device.configurations.take(which)) as int;
    assert(out[at + 1] == last.emitted[out.len() - 2 - at]);
}

} // verus!
