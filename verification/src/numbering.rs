use vstd::prelude::*;
use crate::binary::w_value_of;
use crate::descriptor::Descriptor;
use crate::descriptor_type::DescriptorType;
use crate::descriptors::table_of;
use crate::descriptors_builder::{
    add_configuration, add_configurations, add_device, add_endpoint, add_endpoints,
    add_interface, add_interfaces, add_string, compiled, names_in, start, string_count, Cursor,
};
use crate::error::CompileError;
use crate::model::{ConfigurationSpec, DeviceSpec, EndpointSpec, InterfaceSpec};
use crate::record::{w_values_of, AnyDescriptorView};
use crate::string::string_content::StringContentView;
use crate::string::string_descriptor::StringDescriptorView;

verus! {

/// Two lookup values are the same only for the same type and the same
/// number.
pub proof fn lemma_w_value_tells_apart(
    first_type: DescriptorType,
    first: u8,
    second_type: DescriptorType,
    second: u8,
)
    requires
        w_value_of(first_type, first) == w_value_of(second_type, second),
    ensures
        first_type == second_type,
        first == second,
{
}

/// In a list of descriptors, two that stand under one lookup value are
/// both endpoints or both configurations: those bring their numbers
/// with them, the address of the endpoint and the configuration value.
pub open spec fn only_given_numbers_share(descriptors: Seq<AnyDescriptorView>) -> bool {
    forall|i: int, j: int|
        #![trigger descriptors[i], descriptors[j]]
        0 <= i < descriptors.len() && 0 <= j < descriptors.len() && i != j
            && descriptors[i].w_value() == descriptors[j].w_value() ==> (descriptors[i] is Endpoint
            && descriptors[j] is Endpoint) || (descriptors[i] is Configuration
            && descriptors[j] is Configuration)
}

/// A string descriptor is the name that a descriptor refers to: an
/// interface descriptor refers to the string whose index is its
/// `interface`, a configuration descriptor to the one whose index is its
/// `configuration`. Descriptors of other kinds are not asked.
pub open spec fn is_name_of(name: AnyDescriptorView, descriptor: AnyDescriptorView) -> bool {
    match descriptor {
        AnyDescriptorView::Interface(d) => name matches AnyDescriptorView::String(s) && s.index
            == d.interface,
        AnyDescriptorView::Configuration(d) => name matches AnyDescriptorView::String(s)
            && s.index == d.configuration,
        _ => true,
    }
}

/// In a list of descriptors in the order in which they are made, each
/// interface and each configuration is made right after its name.
pub open spec fn names_precede(descriptors: Seq<AnyDescriptorView>) -> bool {
    forall|k: int|
        0 <= k < descriptors.len() && ((#[trigger] descriptors[k]) is Interface
            || descriptors[k] is Configuration) ==> k > 0 && is_name_of(
            descriptors[k - 1],
            descriptors[k],
        )
}

/// In a list of descriptors in the order in which a host reads them, each
/// interface and each configuration is followed by its name: the string
/// descriptor whose index is the one by which it refers to its name.
pub open spec fn names_follow(descriptors: Seq<AnyDescriptorView>) -> bool {
    forall|k: int|
        0 <= k < descriptors.len() && ((#[trigger] descriptors[k]) is Interface
            || descriptors[k] is Configuration) ==> k + 1 < descriptors.len() && is_name_of(
            descriptors[k + 1],
            descriptors[k],
        )
}

/// A descriptor that shares its lookup value with none but endpoints or
/// configurations, and only if it is one itself, and that comes right
/// after its name if it has one, can join a list.
pub proof fn lemma_join(descriptors: Seq<AnyDescriptorView>, descriptor: AnyDescriptorView)
    requires
        only_given_numbers_share(descriptors),
        names_precede(descriptors),
        forall|k: int|
            0 <= k < descriptors.len() && (#[trigger] descriptors[k]).w_value()
                == descriptor.w_value() ==> (descriptors[k] is Endpoint && descriptor is Endpoint)
                || (descriptors[k] is Configuration && descriptor is Configuration),
        descriptor is Interface || descriptor is Configuration ==> descriptors.len() > 0
            && is_name_of(descriptors.last(), descriptor),
    ensures
        only_given_numbers_share(descriptors.push(descriptor)),
        names_precede(descriptors.push(descriptor)),
{
    let longer = descriptors.push(descriptor);
    assert forall|i: int, j: int|
        #![trigger longer[i], longer[j]]
        0 <= i < longer.len() && 0 <= j < longer.len() && i != j && longer[i].w_value()
            == longer[j].w_value() implies (longer[i] is Endpoint && longer[j] is Endpoint) || (
    longer[i] is Configuration && longer[j] is Configuration) by {
        if i < descriptors.len() && j < descriptors.len() {
            assert(descriptors[i].w_value() == descriptors[j].w_value());
        } else if i < descriptors.len() {
            assert(descriptors[i].w_value() == descriptor.w_value());
        } else {
            assert(descriptors[j].w_value() == descriptor.w_value());
        }
    }
    assert forall|k: int|
        0 <= k < longer.len() && ((#[trigger] longer[k]) is Interface
            || longer[k] is Configuration) implies k > 0 && is_name_of(
        longer[k - 1],
        longer[k],
    ) by {
        if k < descriptors.len() {
            assert(descriptors[k] is Interface || descriptors[k] is Configuration);
            assert(longer[k - 1] == descriptors[k - 1]);
        }
    }
}

/// A list that is turned round still has only endpoints and
/// configurations that share lookup values, and what was made right after
/// its name is followed by it.
pub proof fn lemma_turn(descriptors: Seq<AnyDescriptorView>)
    requires
        only_given_numbers_share(descriptors),
        names_precede(descriptors),
    ensures
        only_given_numbers_share(descriptors.reverse()),
        names_follow(descriptors.reverse()),
{
    let turned = descriptors.reverse();
    assert forall|i: int, j: int|
        #![trigger turned[i], turned[j]]
        0 <= i < turned.len() && 0 <= j < turned.len() && i != j && turned[i].w_value()
            == turned[j].w_value() implies (turned[i] is Endpoint && turned[j] is Endpoint) || (
    turned[i] is Configuration && turned[j] is Configuration) by {
        let a = descriptors.len() - 1 - i;
        let b = descriptors.len() - 1 - j;
        assert(descriptors[a].w_value() == descriptors[b].w_value());
    }
    assert forall|k: int|
        0 <= k < turned.len() && ((#[trigger] turned[k]) is Interface
            || turned[k] is Configuration) implies k + 1 < turned.len() && is_name_of(
        turned[k + 1],
        turned[k],
    ) by {
        let a = descriptors.len() - 1 - k;
        assert(descriptors[a] is Interface || descriptors[a] is Configuration);
        assert(turned[k + 1] == descriptors[a - 1]);
    }
}

/// A descriptor's number has been handed out before the cursor: strings
/// count down and stand above the next string index, interfaces count up
/// and stand below the next interface number. Endpoints and
/// configurations bring their own numbers, and a device is not before a
/// cursor that goes on.
pub open spec fn before(cursor: Cursor, descriptor: AnyDescriptorView) -> bool {
    match descriptor {
        AnyDescriptorView::String(d) => d.index > cursor.next_string,
        AnyDescriptorView::Interface(d) => d.interface_number < cursor.next_interface,
        AnyDescriptorView::Configuration(_) => true,
        AnyDescriptorView::Endpoint(_) => true,
        AnyDescriptorView::Device(_) => false,
    }
}

/// All that a cursor has made is numbered before it, only endpoints and
/// configurations share lookup values, and each interface and each
/// configuration was made right after its name.
pub open spec fn numbered(cursor: Cursor) -> bool {
    &&& only_given_numbers_share(cursor.emitted)
    &&& names_precede(cursor.emitted)
    &&& forall|k: int| 0 <= k < cursor.emitted.len() ==> before(cursor, #[trigger] cursor.emitted[k])
}

/// A descriptor that is numbered apart from all that a cursor has made,
/// and that comes right after its name if it has one, can join them.
pub proof fn lemma_push(cursor: Cursor, descriptor: AnyDescriptorView)
    requires
        numbered(cursor),
        descriptor is Endpoint || descriptor is Configuration || !before(cursor, descriptor),
        descriptor is Interface || descriptor is Configuration ==> cursor.emitted.len() > 0
            && is_name_of(cursor.emitted.last(), descriptor),
    ensures
        only_given_numbers_share(cursor.emitted.push(descriptor)),
        names_precede(cursor.emitted.push(descriptor)),
{
    assert forall|k: int|
        0 <= k < cursor.emitted.len() && (#[trigger] cursor.emitted[k]).w_value()
            == descriptor.w_value() implies (cursor.emitted[k] is Endpoint
        && descriptor is Endpoint) || (cursor.emitted[k] is Configuration
        && descriptor is Configuration) by {
        let other = cursor.emitted[k];
        assert(before(cursor, other));
        lemma_w_value_tells_apart(
            other.descriptor_type(),
            other.index(),
            descriptor.descriptor_type(),
            descriptor.index(),
        );
    }
    lemma_join(cursor.emitted, descriptor);
}

/// A string that is added while the string index is above 0 keeps all
/// numbered, and takes one index.
pub proof fn lemma_add_string_numbered(cursor: Cursor, content: StringContentView)
    requires
        numbered(cursor),
        cursor.next_string > 0,
    ensures
        numbered(add_string(cursor, content)),
        add_string(cursor, content).next_string == cursor.next_string - 1,
        add_string(cursor, content).next_interface == cursor.next_interface,
{
    let next = add_string(cursor, content);
    let made = AnyDescriptorView::String(
        StringDescriptorView { index: cursor.next_string, string: content },
    );
    lemma_push(cursor, made);
    assert forall|k: int| 0 <= k < next.emitted.len() implies before(
        next,
        #[trigger] next.emitted[k],
    ) by {
        if k < cursor.emitted.len() {
            assert(before(cursor, cursor.emitted[k]));
        }
    }
}

/// Endpoints that are added keep all numbered.
pub proof fn lemma_add_endpoints_numbered(cursor: Cursor, endpoints: Seq<EndpointSpec>)
    requires
        numbered(cursor),
        add_endpoints(cursor, endpoints) is Ok,
    ensures
        numbered(add_endpoints(cursor, endpoints)->Ok_0),
        add_endpoints(cursor, endpoints)->Ok_0.next_string == cursor.next_string,
    decreases endpoints.len(),
{
    if endpoints.len() > 0 {
        let next = add_endpoint(cursor, endpoints.last())->Ok_0;
        let made = AnyDescriptorView::Endpoint(endpoints.last().build()->Ok_0);
        lemma_push(cursor, made);
        assert forall|k: int| 0 <= k < next.emitted.len() implies before(
            next,
            #[trigger] next.emitted[k],
        ) by {
            if k < cursor.emitted.len() {
                assert(before(cursor, cursor.emitted[k]));
            }
        }
        lemma_add_endpoints_numbered(next, endpoints.drop_last());
    }
}

/// An interface that is added while the string index is above 0 keeps
/// all numbered, and takes one string index.
pub proof fn lemma_add_interface_numbered(cursor: Cursor, interface: InterfaceSpec)
    requires
        numbered(cursor),
        cursor.next_string > 0,
        add_interface(cursor, interface) is Ok,
    ensures
        numbered(add_interface(cursor, interface)->Ok_0),
        add_interface(cursor, interface)->Ok_0.next_string == cursor.next_string - 1,
{
    let named = add_string(cursor, interface.interface);
    lemma_add_string_numbered(cursor, interface.interface);
    let next = add_interface(cursor, interface)->Ok_0;
    let made = AnyDescriptorView::Interface(
        interface.build(
            cursor.next_interface,
            cursor.next_string,
            interface.endpoints.len() as u8,
        )->Ok_0,
    );
    assert(next.emitted == named.emitted.push(made));
    lemma_push(named, made);
    assert forall|k: int| 0 <= k < next.emitted.len() implies before(
        next,
        #[trigger] next.emitted[k],
    ) by {
        if k < named.emitted.len() {
            assert(before(named, named.emitted[k]));
        }
    }
}

/// Interfaces that are added while the string index is not below their
/// number keep all numbered, and take one string index each.
pub proof fn lemma_add_interfaces_numbered(cursor: Cursor, interfaces: Seq<InterfaceSpec>)
    requires
        numbered(cursor),
        cursor.next_string >= interfaces.len(),
        add_interfaces(cursor, interfaces) is Ok,
    ensures
        numbered(add_interfaces(cursor, interfaces)->Ok_0),
        add_interfaces(cursor, interfaces)->Ok_0.next_string == cursor.next_string
            - interfaces.len(),
    decreases interfaces.len(),
{
    if interfaces.len() > 0 {
        let interface = interfaces.last();
        lemma_add_endpoints_numbered(cursor, interface.endpoints);
        let filled = add_endpoints(cursor, interface.endpoints)->Ok_0;
        lemma_add_interface_numbered(filled, interface);
        let next = add_interface(filled, interface)->Ok_0;
        lemma_add_interfaces_numbered(next, interfaces.drop_last());
    }
}

/// A configuration that is added while the string index is above 0 keeps
/// all numbered, and takes one string index.
pub proof fn lemma_add_configuration_numbered(cursor: Cursor, configuration: ConfigurationSpec)
    requires
        numbered(cursor),
        cursor.next_string > 0,
        add_configuration(cursor, configuration) is Ok,
    ensures
        numbered(add_configuration(cursor, configuration)->Ok_0),
        add_configuration(cursor, configuration)->Ok_0.next_string == cursor.next_string - 1,
{
    let named = add_string(cursor, configuration.configuration);
    lemma_add_string_numbered(cursor, configuration.configuration);
    let next = add_configuration(cursor, configuration)->Ok_0;
    let made = AnyDescriptorView::Configuration(
        configuration.build(
            named.total_length,
            configuration.interfaces.len() as u8,
            configuration.configuration_value,
            cursor.next_string,
        )->Ok_0,
    );
    assert(next.emitted == named.emitted.push(made));
    lemma_push(named, made);
    assert forall|k: int| 0 <= k < next.emitted.len() implies before(
        next,
        #[trigger] next.emitted[k],
    ) by {
        if k < named.emitted.len() {
            assert(before(named, named.emitted[k]));
        }
    }
}

/// Configurations that are added while the string index is not below the
/// number of their names keep all numbered, and take one string index for
/// each name.
pub proof fn lemma_add_configurations_numbered(
    cursor: Cursor,
    configurations: Seq<ConfigurationSpec>,
)
    requires
        numbered(cursor),
        cursor.next_string >= names_in(configurations),
        add_configurations(cursor, configurations) is Ok,
    ensures
        numbered(add_configurations(cursor, configurations)->Ok_0),
        add_configurations(cursor, configurations)->Ok_0.next_string == cursor.next_string
            - names_in(configurations),
    decreases configurations.len(),
{
    if configurations.len() > 0 {
        let configuration = configurations.last();
        lemma_add_interfaces_numbered(cursor, configuration.interfaces);
        let filled = add_interfaces(cursor, configuration.interfaces)->Ok_0;
        lemma_add_configuration_numbered(filled, configuration);
        let next = add_configuration(filled, configuration)->Ok_0;
        lemma_add_configurations_numbered(next, configurations.drop_last());
    }
}

/// What a device compiles to begins with the language list under string
/// index 0, the device descriptor, and the device's manufacturer, product
/// and serial number under the string indices 1, 2 and 3, by which the
/// device descriptor refers to them. Each interface and each
/// configuration is followed by its name, the string descriptor whose
/// index is the one by which it refers to its name. Among all the
/// descriptors, two that stand under one lookup value are both endpoints
/// or both configurations: the strings and the interfaces are numbered
/// apart, so that under the lookup value of a string stands the one
/// string that its owner refers to.
pub proof fn lemma_compiled_numbering(device: DeviceSpec, languages: StringContentView)
    requires
        compiled(device, languages) is Ok,
    ensures
        only_given_numbers_share(compiled(device, languages)->Ok_0),
        names_follow(compiled(device, languages)->Ok_0),
        compiled(device, languages)->Ok_0.len() >= 5,
        compiled(device, languages)->Ok_0[0] == AnyDescriptorView::String(
            StringDescriptorView { index: 0, string: languages },
        ),
        compiled(device, languages)->Ok_0[1] == AnyDescriptorView::Device(
            device.build(device.configurations.len() as u8, 1, 2, 3)->Ok_0,
        ),
        device.build(device.configurations.len() as u8, 1, 2, 3) is Ok,
        compiled(device, languages)->Ok_0[2] == AnyDescriptorView::String(
            StringDescriptorView { index: 1, string: device.manufacturer },
        ),
        compiled(device, languages)->Ok_0[3] == AnyDescriptorView::String(
            StringDescriptorView { index: 2, string: device.product },
        ),
        compiled(device, languages)->Ok_0[4] == AnyDescriptorView::String(
            StringDescriptorView { index: 3, string: device.serial_number },
        ),
{
    let first = start((string_count(device) - 1) as u8);
    assert(numbered(first));
    lemma_add_configurations_numbered(first, device.configurations);
    let filled = add_configurations(first, device.configurations)->Ok_0;
    assert(filled.next_string == 3);

    let serial = add_string(filled, device.serial_number);
    lemma_add_string_numbered(filled, device.serial_number);
    let product = add_string(serial, device.product);
    lemma_add_string_numbered(serial, device.product);
    let named = add_string(product, device.manufacturer);
    lemma_add_string_numbered(product, device.manufacturer);
    assert(named.next_string == 0);

    let made = add_device(filled, device)->Ok_0;
    let descriptor = AnyDescriptorView::Device(
        device.build(device.configurations.len() as u8, 1, 2, 3)->Ok_0,
    );
    assert(made.emitted == named.emitted.push(descriptor));
    lemma_push(named, descriptor);

    let list = AnyDescriptorView::String(StringDescriptorView { index: 0, string: languages });
    let last = add_string(made, languages);
    assert(last.emitted == made.emitted.push(list));
    assert forall|k: int|
        0 <= k < made.emitted.len() && (#[trigger] made.emitted[k]).w_value()
            == list.w_value() implies (made.emitted[k] is Endpoint && list is Endpoint) || (
    made.emitted[k] is Configuration && list is Configuration) by {
        let other = made.emitted[k];
        if k < named.emitted.len() {
            assert(before(named, named.emitted[k]));
        }
        lemma_w_value_tells_apart(
            other.descriptor_type(),
            other.index(),
            list.descriptor_type(),
            list.index(),
        );
    }
    lemma_join(made.emitted, list);
    lemma_turn(last.emitted);

    let out = compiled(device, languages)->Ok_0;
    assert(out == last.emitted.reverse());
    let n = last.emitted.len();
    assert(n == filled.emitted.len() + 5);
    assert(out[0] == last.emitted[n - 1]);
    assert(out[1] == last.emitted[n - 2]);
    assert(out[2] == last.emitted[n - 3]);
    assert(out[3] == last.emitted[n - 4]);
    assert(out[4] == last.emitted[n - 5]);
}

/// Where the endpoints of what a device compiles to have addresses of
/// their own, and its configurations have configuration values of their
/// own, no lookup value stands twice, so that a table can be made of all
/// unless one cannot be written out.
pub proof fn lemma_compiled_values_distinct(device: DeviceSpec, languages: StringContentView)
    requires
        compiled(device, languages) is Ok,
        forall|i: int, j: int|
            #![trigger compiled(device, languages)->Ok_0[i], compiled(device, languages)->Ok_0[j]]
            0 <= i < compiled(device, languages)->Ok_0.len() && 0 <= j < compiled(
                device,
                languages,
            )->Ok_0.len() && i != j && compiled(device, languages)->Ok_0[i].descriptor_type()
                == compiled(device, languages)->Ok_0[j].descriptor_type() && (compiled(
                device,
                languages,
            )->Ok_0[i] is Endpoint || compiled(device, languages)->Ok_0[i] is Configuration)
                ==> compiled(device, languages)->Ok_0[i].index() != compiled(
                device,
                languages,
            )->Ok_0[j].index(),
    ensures
        w_values_of(compiled(device, languages)->Ok_0).no_duplicates(),
        table_of(compiled(device, languages)->Ok_0) != Err::<(Seq<Seq<u8>>, Seq<u16>), CompileError>(
            CompileError::DuplicateKey,
        ),
{
    lemma_compiled_numbering(device, languages);
    let out = compiled(device, languages)->Ok_0;
    let values = w_values_of(out);
    assert forall|i: int, j: int|
        0 <= i < values.len() && 0 <= j < values.len() && i != j implies values[i]
        != values[j] by {
        if values[i] == values[j] {
            assert(out[i].w_value() == out[j].w_value());
            assert((out[i] is Endpoint && out[j] is Endpoint) || (out[i] is Configuration
                && out[j] is Configuration));
            assert(out[i].index() != out[j].index());
        }
    }
}

} // verus!
