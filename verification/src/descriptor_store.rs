use vstd::prelude::*;
use crate::configuration::configuration_node::{interface_node_specs, ConfigurationNode};
use crate::descriptor::Descriptor;
use crate::descriptor_type::DescriptorType;
use crate::device::device_node::{configuration_node_specs, DeviceNode};
use crate::endpoint::endpoint_descriptor::ENDPOINT_DESCRIPTOR_LENGTH;
use crate::endpoint::endpoint_intrinsics::EndpointIntrinsics;
use crate::error::{CompileError, EncodingError, LookupError, RangeError};
use crate::interface::interface_descriptor::INTERFACE_DESCRIPTOR_LENGTH;
use crate::interface::interface_node::{endpoint_node_specs, InterfaceNode};
use crate::model::{ConfigurationSpec, DeviceSpec, EndpointSpec, InterfaceSpec};
use crate::record::{descriptor_views, reversed, w_values_of, AnyDescriptor, AnyDescriptorView};
use crate::string::string_content::{StringContent, StringContentView};
use crate::string::string_descriptor::StringDescriptorView;
use crate::string::string_intrinsics::StringIntrinsics;
use crate::table::{
    all_distinct, byte_views, encode_all, encoded_all, entry_matches, find, lemma_encoded_all,
    lemma_encoded_matches, position,
};

verus! {

/// Where the compilation of a tree of nodes stands: what it has made so
/// far, last made last, and the numbers that it hands out next.
pub struct StoreCursor {
    /// The descriptors made so far.
    pub emitted: Seq<AnyDescriptorView>,
    /// The lengths of the interface and endpoint descriptors made for the
    /// configuration at hand, added up.
    pub total_length: u16,
    /// The next interface number; it counts up.
    pub next_interface: u8,
    /// The index of the next string; it counts up.
    pub next_string: u8,
}

/// The cursor that a compilation starts from.
pub open spec fn store_start() -> StoreCursor {
    StoreCursor { emitted: Seq::empty(), total_length: 0, next_interface: 0, next_string: 0 }
}

/// Makes a string descriptor under the next string index.
pub open spec fn put_string(cursor: StoreCursor, content: StringContentView) -> StoreCursor {
    StoreCursor {
        emitted: cursor.emitted.push(
            AnyDescriptorView::String(
                StringDescriptorView { index: cursor.next_string, string: content },
            ),
        ),
        ..cursor
    }
}

/// Makes a string descriptor under the next string index and moves that
/// index up by one.
pub open spec fn store_string(cursor: StoreCursor, content: StringContentView) -> Result<
    StoreCursor,
    CompileError,
> {
    if cursor.next_string == u8::MAX {
        Err(CompileError::Range(RangeError::Count))
    } else {
        Ok(
            StoreCursor {
                next_string: (cursor.next_string + 1) as u8,
                ..put_string(cursor, content)
            },
        )
    }
}

/// Makes an endpoint descriptor and adds its length to the total.
pub open spec fn store_endpoint(cursor: StoreCursor, endpoint: EndpointSpec) -> Result<
    StoreCursor,
    CompileError,
> {
    match endpoint.build() {
        Err(e) => Err(CompileError::Range(e)),
        Ok(descriptor) => if cursor.total_length + ENDPOINT_DESCRIPTOR_LENGTH > u16::MAX {
            Err(CompileError::Range(RangeError::Count))
        } else {
            Ok(
                StoreCursor {
                    emitted: cursor.emitted.push(AnyDescriptorView::Endpoint(descriptor)),
                    total_length: (cursor.total_length + ENDPOINT_DESCRIPTOR_LENGTH) as u16,
                    ..cursor
                },
            )
        },
    }
}

/// Makes the endpoint descriptors of a list, the first one first.
pub open spec fn store_endpoints(cursor: StoreCursor, endpoints: Seq<EndpointSpec>) -> Result<
    StoreCursor,
    CompileError,
>
    decreases endpoints.len(),
{
    if endpoints.len() == 0 {
        Ok(cursor)
    } else {
        match store_endpoint(cursor, endpoints.first()) {
            Ok(next) => store_endpoints(next, endpoints.drop_first()),
            Err(e) => Err(e),
        }
    }
}

/// Makes what belongs to an interface: its endpoint descriptors, the
/// string descriptor of its name, and its interface descriptor, which
/// gets the next interface number and refers to the name by its index.
pub open spec fn store_interface(cursor: StoreCursor, interface: InterfaceSpec) -> Result<
    StoreCursor,
    CompileError,
> {
    if interface.endpoints.len() > u8::MAX {
        Err(CompileError::Range(RangeError::Count))
    } else {
        match store_endpoints(cursor, interface.endpoints) {
            Err(e) => Err(e),
            Ok(filled) => match store_string(filled, interface.interface) {
                Err(e) => Err(e),
                Ok(named) => match interface.build(
                    named.next_interface,
                    filled.next_string,
                    interface.endpoints.len() as u8,
                ) {
                    Err(e) => Err(e),
                    Ok(descriptor) => if named.next_interface == u8::MAX || named.total_length
                        + INTERFACE_DESCRIPTOR_LENGTH > u16::MAX {
                        Err(CompileError::Range(RangeError::Count))
                    } else {
                        Ok(
                            StoreCursor {
                                emitted: named.emitted.push(
                                    AnyDescriptorView::Interface(descriptor),
                                ),
                                total_length: (named.total_length
                                    + INTERFACE_DESCRIPTOR_LENGTH) as u16,
                                next_interface: (named.next_interface + 1) as u8,
                                ..named
                            },
                        )
                    },
                },
            },
        }
    }
}

/// Makes what belongs to the interfaces of a list, the first one first.
pub open spec fn store_interfaces(cursor: StoreCursor, interfaces: Seq<InterfaceSpec>) -> Result<
    StoreCursor,
    CompileError,
>
    decreases interfaces.len(),
{
    if interfaces.len() == 0 {
        Ok(cursor)
    } else {
        match store_interface(cursor, interfaces.first()) {
            Ok(next) => store_interfaces(next, interfaces.drop_first()),
            Err(e) => Err(e),
        }
    }
}

/// Makes what belongs to a configuration: what belongs to its
/// interfaces, the string descriptor of its name, and its configuration
/// descriptor, which takes the lengths of its interface and endpoint
/// descriptors as its total, keeps its own configuration value, and
/// refers to the name by its index.
pub open spec fn store_configuration(cursor: StoreCursor, configuration: ConfigurationSpec) -> Result<
    StoreCursor,
    CompileError,
> {
    if configuration.interfaces.len() > u8::MAX {
        Err(CompileError::Range(RangeError::Count))
    } else {
        match store_interfaces(
            StoreCursor { total_length: 0, ..cursor },
            configuration.interfaces,
        ) {
            Err(e) => Err(e),
            Ok(filled) => match store_string(filled, configuration.configuration) {
                Err(e) => Err(e),
                Ok(named) => match configuration.build_checked(
                    named.total_length,
                    configuration.interfaces.len() as u8,
                    configuration.configuration_value,
                    filled.next_string,
                ) {
                    Err(e) => Err(e),
                    Ok(descriptor) => Ok(
                        StoreCursor {
                            emitted: named.emitted.push(
                                AnyDescriptorView::Configuration(descriptor),
                            ),
                            ..named
                        },
                    ),
                },
            },
        }
    }
}

/// Makes what belongs to the configurations of a list, the first one
/// first.
pub open spec fn store_configurations(
    cursor: StoreCursor,
    configurations: Seq<ConfigurationSpec>,
) -> Result<StoreCursor, CompileError>
    decreases configurations.len(),
{
    if configurations.len() == 0 {
        Ok(cursor)
    } else {
        match store_configuration(cursor, configurations.first()) {
            Ok(next) => store_configurations(next, configurations.drop_first()),
            Err(e) => Err(e),
        }
    }
}

/// Makes the string descriptors of a device's manufacturer, product and
/// serial number, in this order, and then its device descriptor, which
/// refers to each by its index.
pub open spec fn store_device(cursor: StoreCursor, device: DeviceSpec) -> Result<
    StoreCursor,
    CompileError,
> {
    if device.configurations.len() > u8::MAX {
        Err(CompileError::Range(RangeError::Count))
    } else {
        match store_string(cursor, device.manufacturer) {
            Err(e) => Err(e),
            Ok(first) => match store_string(first, device.product) {
                Err(e) => Err(e),
                Ok(second) => match device.build(
                    device.configurations.len() as u8,
                    cursor.next_string,
                    first.next_string,
                    second.next_string,
                ) {
                    Err(e) => Err(CompileError::Validation(e)),
                    Ok(descriptor) => {
                        let third = put_string(second, device.serial_number);
                        Ok(
                            StoreCursor {
                                emitted: third.emitted.push(AnyDescriptorView::Device(descriptor)),
                                ..third
                            },
                        )
                    },
                },
            },
        }
    }
}

/// The descriptors that a tree of nodes and a list of languages compile
/// to, in the order in which they are kept: the device descriptor comes
/// first and the language list last, and all between them stand in the
/// opposite of the order in which they are made.
///
/// They are made in the order of the tree: the language list, which gets
/// string index 0, then what belongs to each configuration, then the
/// device's names and the device descriptor. String indices and
/// interface numbers count up from 0. There is nothing to compile without
/// a language or without a configuration.
pub open spec fn stored_descriptors(device: DeviceSpec, languages: StringContentView) -> Result<
    Seq<AnyDescriptorView>,
    CompileError,
> {
    if !languages.is_language_list() || device.configurations.len() == 0 {
        Err(CompileError::EmptyRequiredCollection)
    } else {
        match store_string(store_start(), languages) {
            Err(e) => Err(e),
            Ok(cursor) => match store_configurations(cursor, device.configurations) {
                Err(e) => Err(e),
                Ok(cursor) => match store_device(cursor, device) {
                    Err(e) => Err(e),
                    Ok(cursor) => Ok(cursor.emitted.reverse()),
                },
            },
        }
    }
}

/// A compiled descriptor as a mathematical value.
pub struct CompiledView {
    pub bytes: Seq<u8>,
    pub w_value: u16,
    pub descriptor_type: DescriptorType,
}

impl CompiledView {
    /// The bytes stand rightly under the lookup value, and the type is
    /// the one that the lookup value names.
    pub open spec fn wf(self) -> bool {
        &&& entry_matches(self.bytes, self.w_value)
        &&& self.descriptor_type.code() == self.w_value / 256
    }
}

/// What a list of descriptors is kept as: each written out, with its
/// lookup value and its type. Nothing is kept where a descriptor cannot
/// be written out, and nothing where two have one lookup value.
pub open spec fn entries_of(descriptors: Seq<AnyDescriptorView>) -> Result<
    Seq<CompiledView>,
    CompileError,
> {
    match encoded_all(descriptors) {
        Err(e) => Err(CompileError::Encoding(e)),
        Ok(written) => if w_values_of(descriptors).no_duplicates() {
            Ok(
                Seq::new(
                    descriptors.len(),
                    |i: int|
                        CompiledView {
                            bytes: written[i],
                            w_value: descriptors[i].w_value(),
                            descriptor_type: descriptors[i].descriptor_type(),
                        },
                ),
            )
        } else {
            Err(CompileError::DuplicateKey)
        },
    }
}

/// What a tree of nodes and a list of languages are kept as.
pub open spec fn stored(device: DeviceSpec, languages: StringContentView) -> Result<
    Seq<CompiledView>,
    CompileError,
> {
    match stored_descriptors(device, languages) {
        Err(e) => Err(e),
        Ok(descriptors) => entries_of(descriptors),
    }
}

/// The lookup values of some entries, in their order.
pub open spec fn entry_values(entries: Seq<CompiledView>) -> Seq<u16> {
    Seq::new(entries.len(), |i: int| entries[i].w_value)
}

/// Every entry stands rightly under its lookup value, and no lookup value
/// stands twice.
pub open spec fn table_wf(entries: Seq<CompiledView>) -> bool {
    &&& forall|i: int| 0 <= i < entries.len() ==> (#[trigger] entries[i]).wf()
    &&& entry_values(entries).no_duplicates()
}

/// Whether the descriptors of a type are among those asked for.
pub open spec fn selected(
    descriptor_type: DescriptorType,
    include_device_descriptor: bool,
    include_configuration_descriptors: bool,
    include_interface_descriptors: bool,
    include_endpoint_descriptors: bool,
    include_string_descriptors: bool,
) -> bool {
    match descriptor_type {
        DescriptorType::Device => include_device_descriptor,
        DescriptorType::Configuration => include_configuration_descriptors,
        DescriptorType::Interface => include_interface_descriptors,
        DescriptorType::Endpoint => include_endpoint_descriptors,
        DescriptorType::String => include_string_descriptors,
        DescriptorType::Hid => false,
        DescriptorType::Report => false,
    }
}

/// The bytes of the entries of the types asked for, one entry after the
/// other in the order of the entries.
pub open spec fn concatenated(
    entries: Seq<CompiledView>,
    include_device_descriptor: bool,
    include_configuration_descriptors: bool,
    include_interface_descriptors: bool,
    include_endpoint_descriptors: bool,
    include_string_descriptors: bool,
) -> Seq<u8>
    decreases entries.len(),
{
    if entries.len() == 0 {
        Seq::empty()
    } else {
        concatenated(
            entries.drop_last(),
            include_device_descriptor,
            include_configuration_descriptors,
            include_interface_descriptors,
            include_endpoint_descriptors,
            include_string_descriptors,
        ) + (if selected(
            entries.last().descriptor_type,
            include_device_descriptor,
            include_configuration_descriptors,
            include_interface_descriptors,
            include_endpoint_descriptors,
            include_string_descriptors,
        ) {
            entries.last().bytes
        } else {
            Seq::empty()
        })
    }
}

/// A descriptor as it is kept after compilation: its bytes, the value
/// under which a host asks for it, and its type.
pub struct CompiledDescriptor {
    bytes: Vec<u8>,
    w_value: u16,
    descriptor_type: DescriptorType,
}

impl View for CompiledDescriptor {
    type V = CompiledView;

    closed spec fn view(&self) -> CompiledView {
        CompiledView {
            bytes: self.bytes@,
            w_value: self.w_value,
            descriptor_type: self.descriptor_type,
        }
    }
}

impl CompiledDescriptor {
    #[verifier::type_invariant]
    spec fn inv(&self) -> bool {
        self@.wf()
    }

    /// The bytes of the descriptor.
    pub fn bytes(&self) -> (bytes: &Vec<u8>)
        ensures
            bytes@ == self@.bytes,
            self@.wf(),
    {
        proof {
            use_type_invariant(self);
        }
        &self.bytes
    }

    /// The bytes of the descriptor, in a vector of their own.
    pub fn encode(&self) -> (r: Result<Vec<u8>, EncodingError>)
        ensures
            r is Ok,
            r->Ok_0@ == self@.bytes,
            self@.wf(),
    {
        proof {
            use_type_invariant(self);
        }
        Ok(self.bytes.clone())
    }

    /// The kind of the descriptor.
    pub fn get_descriptor_type(&self) -> (descriptor_type: DescriptorType)
        ensures
            descriptor_type == self@.descriptor_type,
            self@.wf(),
    {
        proof {
            use_type_invariant(self);
        }
        self.descriptor_type
    }

    /// The value under which a host asks for the descriptor.
    pub fn get_w_value(&self) -> (w_value: u16)
        ensures
            w_value == self@.w_value,
            self@.wf(),
    {
        proof {
            use_type_invariant(self);
        }
        self.w_value
    }
}

/// The entries of a list as mathematical values.
pub open spec fn compiled_views(descriptors: Seq<CompiledDescriptor>) -> Seq<CompiledView> {
    Seq::new(descriptors.len(), |i: int| descriptors[i]@)
}

/// What is being made of a tree of nodes while it is compiled.
struct StoreBuilder {
    descriptors: Vec<AnyDescriptor>,
    total_length: u16,
    interface_descriptors_num: u8,
    string_descriptors_num: u8,
}

impl StoreBuilder {
    spec fn cursor(&self) -> StoreCursor {
        StoreCursor {
            emitted: descriptor_views(self.descriptors@),
            total_length: self.total_length,
            next_interface: self.interface_descriptors_num,
            next_string: self.string_descriptors_num,
        }
    }

    fn new() -> (builder: Self)
        ensures
            builder.cursor() == store_start(),
    {
        let builder = StoreBuilder {
            descriptors: Vec::<AnyDescriptor>::new(),
            total_length: 0,
            interface_descriptors_num: 0,
            string_descriptors_num: 0,
        };
        assert(descriptor_views(builder.descriptors@) =~= Seq::empty());
        builder
    }

    fn push(&mut self, descriptor: AnyDescriptor)
        ensures
            final(self).cursor() == (StoreCursor {
                emitted: old(self).cursor().emitted.push(descriptor@),
                ..old(self).cursor()
            }),
    {
        self.descriptors.push(descriptor);
        assert(descriptor_views(self.descriptors@) =~= descriptor_views(
            old(self).descriptors@,
        ).push(descriptor@));
    }

    fn put_string(&mut self, string: &StringIntrinsics)
        ensures
            final(self).cursor() == put_string(old(self).cursor(), string@),
    {
        let descriptor = string.build(self.string_descriptors_num);
        self.push(AnyDescriptor::String(descriptor));
    }

    fn store_string(&mut self, string: &StringIntrinsics) -> (r: Result<(), CompileError>)
        ensures
            match store_string(old(self).cursor(), string@) {
                Ok(cursor) => r is Ok && final(self).cursor() == cursor,
                Err(e) => r is Err && r->Err_0 == e,
            },
    {
        if self.string_descriptors_num == u8::MAX {
            return Err(CompileError::Range(RangeError::Count));
        }
        self.put_string(string);
        self.string_descriptors_num += 1;
        Ok(())
    }

    fn store_endpoint(&mut self, endpoint: &EndpointIntrinsics) -> (r: Result<(), CompileError>)
        ensures
            match store_endpoint(old(self).cursor(), endpoint@) {
                Ok(cursor) => r is Ok && final(self).cursor() == cursor,
                Err(e) => r is Err && r->Err_0 == e,
            },
    {
        let endpoint_descriptor = match endpoint.build() {
            Ok(descriptor) => descriptor,
            Err(e) => return Err(CompileError::Range(e)),
        };
        if self.total_length > u16::MAX - 7 {
            return Err(CompileError::Range(RangeError::Count));
        }
        self.total_length += endpoint_descriptor.length as u16;
        self.push(AnyDescriptor::Endpoint(endpoint_descriptor));
        Ok(())
    }

    fn store_endpoints(&mut self, endpoints: &Vec<EndpointIntrinsics>) -> (r: Result<
        (),
        CompileError,
    >)
        ensures
            match store_endpoints(old(self).cursor(), endpoint_node_specs(endpoints@)) {
                Ok(cursor) => r is Ok && final(self).cursor() == cursor,
                Err(e) => r is Err && r->Err_0 == e,
            },
    {
        let ghost first = self.cursor();
        let ghost all = endpoint_node_specs(endpoints@);
        let mut i: usize = 0;
        assert(all.skip(0) =~= all);
        while i < endpoints.len()
            invariant
                i <= endpoints.len(),
                all == endpoint_node_specs(endpoints@),
                first == old(self).cursor(),
                store_endpoints(first, all) == store_endpoints(self.cursor(), all.skip(i as int)),
            decreases endpoints.len() - i,
        {
            proof {
                assert(all.skip(i as int).first() == endpoints@[i as int]@);
                assert(all.skip(i as int).drop_first() =~= all.skip(i + 1));
            }
            match self.store_endpoint(&endpoints[i]) {
                Ok(()) => {},
                Err(e) => return Err(e),
            }
            i = i + 1;
        }
        Ok(())
    }

    fn store_interface(&mut self, interface_node: &InterfaceNode) -> (r: Result<(), CompileError>)
        ensures
            match store_interface(old(self).cursor(), interface_node@) {
                Ok(cursor) => r is Ok && final(self).cursor() == cursor,
                Err(e) => r is Err && r->Err_0 == e,
            },
    {
        if interface_node.endpoints.len() > 255 {
            return Err(CompileError::Range(RangeError::Count));
        }
        let num_endpoints: u8 = interface_node.endpoints.len() as u8;
        match self.store_endpoints(&interface_node.endpoints) {
            Ok(()) => {},
            Err(e) => return Err(e),
        }

        // Interface String Descriptor
        let interface: u8 = self.string_descriptors_num;
        match self.store_string(&interface_node.interface) {
            Ok(()) => {},
            Err(e) => return Err(e),
        }

        // Interface Descriptor
        let interface_descriptor = match interface_node.get_interface().build(
            self.interface_descriptors_num,
            interface,
            num_endpoints,
        ) {
            Ok(descriptor) => descriptor,
            Err(e) => return Err(e),
        };
        if self.interface_descriptors_num == u8::MAX || self.total_length > u16::MAX - 9 {
            return Err(CompileError::Range(RangeError::Count));
        }
        self.total_length += INTERFACE_DESCRIPTOR_LENGTH as u16;
        self.interface_descriptors_num += 1;
        self.push(AnyDescriptor::Interface(interface_descriptor));
        Ok(())
    }

    fn store_interfaces(&mut self, interfaces: &Vec<InterfaceNode>) -> (r: Result<(), CompileError>)
        ensures
            match store_interfaces(old(self).cursor(), interface_node_specs(interfaces@)) {
                Ok(cursor) => r is Ok && final(self).cursor() == cursor,
                Err(e) => r is Err && r->Err_0 == e,
            },
    {
        let ghost first = self.cursor();
        let ghost all = interface_node_specs(interfaces@);
        let mut i: usize = 0;
        assert(all.skip(0) =~= all);
        while i < interfaces.len()
            invariant
                i <= interfaces.len(),
                all == interface_node_specs(interfaces@),
                first == old(self).cursor(),
                store_interfaces(first, all) == store_interfaces(self.cursor(), all.skip(i as int)),
            decreases interfaces.len() - i,
        {
            proof {
                assert(all.skip(i as int).first() == interfaces@[i as int]@);
                assert(all.skip(i as int).drop_first() =~= all.skip(i + 1));
            }
            match self.store_interface(&interfaces[i]) {
                Ok(()) => {},
                Err(e) => return Err(e),
            }
            i = i + 1;
        }
        Ok(())
    }

    fn store_configuration(&mut self, configuration_node: &ConfigurationNode) -> (r: Result<
        (),
        CompileError,
    >)
        ensures
            match store_configuration(old(self).cursor(), configuration_node@) {
                Ok(cursor) => r is Ok && final(self).cursor() == cursor,
                Err(e) => r is Err && r->Err_0 == e,
            },
    {
        if configuration_node.interfaces.len() > 255 {
            return Err(CompileError::Range(RangeError::Count));
        }
        let num_interfaces: u8 = configuration_node.interfaces.len() as u8;
        self.total_length = 0;
        match self.store_interfaces(&configuration_node.interfaces) {
            Ok(()) => {},
            Err(e) => return Err(e),
        }

        // Configuration String Descriptor
        let configuration: u8 = self.string_descriptors_num;
        match self.store_string(&configuration_node.configuration) {
            Ok(()) => {},
            Err(e) => return Err(e),
        }

        // Configuration Descriptor
        let configuration_descriptor = match configuration_node.get_configuration().build(
            self.total_length,
            num_interfaces,
            configuration_node.configuration_value,
            configuration,
        ) {
            Ok(descriptor) => descriptor,
            Err(e) => return Err(e),
        };
        self.push(AnyDescriptor::Configuration(configuration_descriptor));
        Ok(())
    }

    fn store_configurations(&mut self, configurations: &Vec<ConfigurationNode>) -> (r: Result<
        (),
        CompileError,
    >)
        ensures
            match store_configurations(old(self).cursor(), configuration_node_specs(configurations@)) {
                Ok(cursor) => r is Ok && final(self).cursor() == cursor,
                Err(e) => r is Err && r->Err_0 == e,
            },
    {
        let ghost first = self.cursor();
        let ghost all = configuration_node_specs(configurations@);
        let mut i: usize = 0;
        assert(all.skip(0) =~= all);
        while i < configurations.len()
            invariant
                i <= configurations.len(),
                all == configuration_node_specs(configurations@),
                first == old(self).cursor(),
                store_configurations(first, all) == store_configurations(
                    self.cursor(),
                    all.skip(i as int),
                ),
            decreases configurations.len() - i,
        {
            proof {
                assert(all.skip(i as int).first() == configurations@[i as int]@);
                assert(all.skip(i as int).drop_first() =~= all.skip(i + 1));
            }
            match self.store_configuration(&configurations[i]) {
                Ok(()) => {},
                Err(e) => return Err(e),
            }
            i = i + 1;
        }
        Ok(())
    }

    fn store_device(&mut self, device_node: &DeviceNode) -> (r: Result<(), CompileError>)
        ensures
            match store_device(old(self).cursor(), device_node@) {
                Ok(cursor) => r is Ok && final(self).cursor() == cursor,
                Err(e) => r is Err && r->Err_0 == e,
            },
    {
        if device_node.configurations.len() > 255 {
            return Err(CompileError::Range(RangeError::Count));
        }
        let num_configurations: u8 = device_node.configurations.len() as u8;

        // Device Strings
        let manufacturer: u8 = self.string_descriptors_num;
        match self.store_string(&device_node.manufacturer) {
            Ok(()) => {},
            Err(e) => return Err(e),
        }
        let product: u8 = self.string_descriptors_num;
        match self.store_string(&device_node.product) {
            Ok(()) => {},
            Err(e) => return Err(e),
        }
        let serial_number: u8 = self.string_descriptors_num;

        // Device Descriptor
        let device_descriptor = match device_node.get_device().build(
            num_configurations,
            manufacturer,
            product,
            serial_number,
        ) {
            Ok(descriptor) => descriptor,
            Err(e) => return Err(CompileError::Validation(e)),
        };
        self.put_string(&device_node.serial_number);
        self.push(AnyDescriptor::Device(device_descriptor));
        Ok(())
    }
}

/// Compiles a tree of nodes and a list of languages into descriptors, in
/// the order in which they are kept.
pub fn compile_nodes(device_node: &DeviceNode, languages: &StringIntrinsics) -> (r: Result<
    Vec<AnyDescriptor>,
    CompileError,
>)
    ensures
        match stored_descriptors(device_node@, languages@) {
            Ok(descriptors) => r is Ok && descriptor_views(r->Ok_0@) == descriptors,
            Err(e) => r is Err && r->Err_0 == e,
        },
{
    match &languages.string {
        StringContent::Languages(codes) => {
            if codes.len() == 0 {
                return Err(CompileError::EmptyRequiredCollection);
            }
        },
        _ => {
            return Err(CompileError::EmptyRequiredCollection);
        },
    }
    if device_node.configurations.len() == 0 {
        return Err(CompileError::EmptyRequiredCollection);
    }
    let mut builder = StoreBuilder::new();

    // String Descriptor (Language)
    match builder.store_string(languages) {
        Ok(()) => {},
        Err(e) => return Err(e),
    }
    // Iterate Nodes
    match builder.store_configurations(&device_node.configurations) {
        Ok(()) => {},
        Err(e) => return Err(e),
    }
    match builder.store_device(device_node) {
        Ok(()) => {},
        Err(e) => return Err(e),
    }

    // reverse the order of the descriptors
    let ghost made = builder.cursor().emitted;
    let descriptors = reversed(builder.descriptors);
    assert(descriptor_views(descriptors@) =~= made.reverse());
    Ok(descriptors)
}

/// Stores descriptors for USB protocol
pub struct DescriptorStore {
    /// A list of stored descriptors
    descriptors: Vec<CompiledDescriptor>,
    /// Acts as a lookup table for the descriptors (same length and order)
    descriptor_values: Vec<u16>,
}

impl View for DescriptorStore {
    type V = Seq<CompiledView>;

    closed spec fn view(&self) -> Seq<CompiledView> {
        compiled_views(self.descriptors@)
    }
}

impl DescriptorStore {
    #[verifier::type_invariant]
    spec fn inv(&self) -> bool {
        &&& self.descriptor_values@ == entry_values(self@)
        &&& table_wf(self@)
    }

    /// Keeps some descriptors written out, unless one cannot be written
    /// out or two have one lookup value.
    pub fn from_descriptors(descriptors: &Vec<AnyDescriptor>) -> (r: Result<
        DescriptorStore,
        CompileError,
    >)
        ensures
            match entries_of(descriptor_views(descriptors@)) {
                Ok(entries) => r is Ok && r->Ok_0@ == entries && table_wf(entries),
                Err(e) => r is Err && r->Err_0 == e,
            },
    {
        let ghost all = descriptor_views(descriptors@);
        let mut written = match encode_all(descriptors) {
            Ok(written) => written,
            Err(e) => return Err(CompileError::Encoding(e)),
        };
        let ghost bytes = byte_views(written@);
        let mut descriptor_values = Vec::<u16>::new();
        let mut i: usize = 0;
        while i < descriptors.len()
            invariant
                i <= descriptors.len(),
                all == descriptor_views(descriptors@),
                descriptor_values@ == w_values_of(all).take(i as int),
            decreases descriptors.len() - i,
        {
            descriptor_values.push(descriptors[i].get_w_value());
            i = i + 1;
            assert(descriptor_values@ =~= w_values_of(all).take(i as int));
        }
        assert(descriptor_values@ =~= w_values_of(all));
        if !all_distinct(&descriptor_values) {
            return Err(CompileError::DuplicateKey);
        }
        proof {
            lemma_encoded_all(all);
        }
        let ghost entries = entries_of(all)->Ok_0;

        // The written descriptors are taken from the end, so the entries
        // are made last to first and turned round afterwards.
        let mut turned = Vec::<CompiledDescriptor>::new();
        let mut n: usize = descriptors.len();
        while n > 0
            invariant
                n <= descriptors.len(),
                all == descriptor_views(descriptors@),
                encoded_all(all) is Ok,
                bytes == encoded_all(all)->Ok_0,
                bytes.len() == all.len(),
                forall|k: int|
                    0 <= k < all.len() ==> (#[trigger] all[k]).encoded() == Ok::<
                        Seq<u8>,
                        EncodingError,
                    >(bytes[k]),
                entries == entries_of(all)->Ok_0,
                entries_of(all) is Ok,
                written@.len() == n,
                byte_views(written@) == bytes.take(n as int),
                turned@.len() == descriptors.len() - n,
                forall|k: int|
                    0 <= k < turned@.len() ==> (#[trigger] turned@[k])@ == entries[all.len() - 1
                        - k],
            decreases n,
        {
            n = n - 1;
            let ghost before = byte_views(written@);
            let encoded = written.pop().unwrap();
            proof {
                assert(encoded@ == before[n as int]);
                assert(byte_views(written@) =~= bytes.take(n as int));
                lemma_encoded_matches(all[n as int]);
            }
            let entry = CompiledDescriptor {
                bytes: encoded,
                w_value: descriptors[n].get_w_value(),
                descriptor_type: descriptors[n].get_descriptor_type(),
            };
            turned.push(entry);
        }
        let kept = reversed(turned);
        assert(compiled_views(kept@) =~= entries);
        assert(descriptor_values@ =~= entry_values(entries));
        assert forall|k: int| 0 <= k < entries.len() implies (#[trigger] entries[k]).wf() by {
            lemma_encoded_matches(all[k]);
        }
        Ok(DescriptorStore { descriptors: kept, descriptor_values })
    }

    /// Fill the descriptor store by providing a tree of descriptor nodes
    ///
    /// `new` converts the nodes into descriptors by calculating contextual values like indices and lengths
    pub fn new(device_node: DeviceNode, languages: StringIntrinsics) -> (r: Result<
        DescriptorStore,
        CompileError,
    >)
        ensures
            match stored(device_node@, languages@) {
                Ok(entries) => r is Ok && r->Ok_0@ == entries && table_wf(entries),
                Err(e) => r is Err && r->Err_0 == e,
            },
    {
        let descriptors = match compile_nodes(&device_node, &languages) {
            Ok(descriptors) => descriptors,
            Err(e) => return Err(e),
        };
        DescriptorStore::from_descriptors(&descriptors)
    }

    /// The stored descriptors, in their order.
    pub fn descriptors(&self) -> (descriptors: &Vec<CompiledDescriptor>)
        ensures
            compiled_views(descriptors@) == self@,
            table_wf(self@),
    {
        proof {
            use_type_invariant(self);
        }
        &self.descriptors
    }

    /// The lookup values of the stored descriptors, in the same order.
    pub fn descriptor_values(&self) -> (descriptor_values: &Vec<u16>)
        ensures
            descriptor_values@ == entry_values(self@),
            table_wf(self@),
    {
        proof {
            use_type_invariant(self);
        }
        &self.descriptor_values
    }

    /// Encode the selected descriptors into a continuous byte array
    pub fn encode(
        &self,
        include_device_descriptor: bool,
        include_configuration_descriptors: bool,
        include_interface_descriptors: bool,
        include_endpoint_descriptors: bool,
        include_string_descriptors: bool,
    ) -> (r: Result<Vec<u8>, EncodingError>)
        ensures
            r is Ok,
            r->Ok_0@ == concatenated(
                self@,
                include_device_descriptor,
                include_configuration_descriptors,
                include_interface_descriptors,
                include_endpoint_descriptors,
                include_string_descriptors,
            ),
    {
        let mut bytes = Vec::<u8>::new();
        let mut i: usize = 0;
        while i < self.descriptors.len()
            invariant
                i <= self.descriptors.len(),
                bytes@ == concatenated(
                    self@.take(i as int),
                    include_device_descriptor,
                    include_configuration_descriptors,
                    include_interface_descriptors,
                    include_endpoint_descriptors,
                    include_string_descriptors,
                ),
            decreases self.descriptors.len() - i,
        {
            proof {
                assert(self@.take(i + 1).drop_last() =~= self@.take(i as int));
                assert(self@.take(i + 1).last() == self.descriptors@[i as int]@);
            }
            let descriptor = &self.descriptors[i];
            let wanted = match descriptor.get_descriptor_type() {
                DescriptorType::Device => include_device_descriptor,
                DescriptorType::Configuration => include_configuration_descriptors,
                DescriptorType::Interface => include_interface_descriptors,
                DescriptorType::Endpoint => include_endpoint_descriptors,
                DescriptorType::String => include_string_descriptors,
                DescriptorType::Hid => false,
                DescriptorType::Report => false,
            };
            if wanted {
                let mut encoded = descriptor.bytes().clone();
                bytes.append(&mut encoded);
            }
            i = i + 1;
        }
        assert(self@.take(i as int) =~= self@);
        Ok(bytes)
    }

    /// Find a descriptor by its wValue (8b descriptor type + 8b descriptor indentifier)
    pub fn get_descriptor(&self, value: u16) -> (r: Result<&CompiledDescriptor, LookupError>)
        ensures
            r is Ok <==> entry_values(self@).contains(value),
            r is Ok ==> r->Ok_0@ == self@[position(entry_values(self@), value)],
            r is Ok ==> r->Ok_0@.w_value == value && r->Ok_0@.wf(),
            r is Err ==> r->Err_0 == LookupError::NotFound,
    {
        proof {
            use_type_invariant(self);
        }
        let at = find(&self.descriptor_values, value);
        proof {
            if entry_values(self@).contains(value) {
                let k = choose|k: int|
                    0 <= k < entry_values(self@).len() && entry_values(self@)[k] == value;
                assert(at <= k);
            }
        }
        if at < self.descriptors.len() {
            assert(self@[at as int] == self.descriptors@[at as int]@);
            assert(entry_values(self@)[at as int] == value);
            Ok(&self.descriptors[at])
        } else {
            Err(LookupError::NotFound)
        }
    }
}

} // verus!
