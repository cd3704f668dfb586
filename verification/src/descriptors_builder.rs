use vstd::prelude::*;
use crate::configuration::configuration_builder::{interface_specs, ConfigurationBuilder};
use crate::descriptor::Descriptor;
use crate::device::device_builder::{configuration_specs, DeviceBuilder};
use crate::endpoint::endpoint_builder::EndpointBuilder;
use crate::endpoint::endpoint_descriptor::ENDPOINT_DESCRIPTOR_LENGTH;
use crate::error::{CompileError, RangeError};
use crate::interface::interface_builder::{endpoint_specs, InterfaceBuilder};
use crate::interface::interface_descriptor::INTERFACE_DESCRIPTOR_LENGTH;
use crate::model::{ConfigurationSpec, DeviceSpec, EndpointSpec, InterfaceSpec};
use crate::record::{descriptor_views, reversed, w_values_of, AnyDescriptor, AnyDescriptorView};
use crate::string::string_builder::StringBuidler;
use crate::string::string_content::{StringContent, StringContentView};
use crate::string::string_descriptor::StringDescriptorView;

verus! {

/// Where a compilation stands: what it has made so far, last made last,
/// and the numbers that it hands out next.
pub struct Cursor {
    /// The descriptors made so far.
    pub emitted: Seq<AnyDescriptorView>,
    /// The lengths of the interface and endpoint descriptors made since
    /// the last configuration descriptor, added up.
    pub total_length: u16,
    /// The number of interface descriptors made so far, which is the next
    /// interface number.
    pub next_interface: u8,
    /// The index of the next string; it counts down and stays at 0.
    pub next_string: u8,
}

/// The cursor that a compilation starts from, given the index of its
/// first string.
pub open spec fn start(first_string: u8) -> Cursor {
    Cursor {
        emitted: Seq::empty(),
        total_length: 0,
        next_interface: 0,
        next_string: first_string,
    }
}

/// Makes a string descriptor under the next string index and moves that
/// index down by one, unless it is 0 already.
pub open spec fn add_string(cursor: Cursor, content: StringContentView) -> Cursor {
    Cursor {
        emitted: cursor.emitted.push(
            AnyDescriptorView::String(
                StringDescriptorView { index: cursor.next_string, string: content },
            ),
        ),
        next_string: if cursor.next_string > 0 {
            (cursor.next_string - 1) as u8
        } else {
            0
        },
        ..cursor
    }
}

/// Makes an endpoint descriptor and adds its length to the total.
pub open spec fn add_endpoint(cursor: Cursor, endpoint: EndpointSpec) -> Result<
    Cursor,
    CompileError,
> {
    match endpoint.build() {
        Err(e) => Err(CompileError::Range(e)),
        Ok(descriptor) => if cursor.total_length + ENDPOINT_DESCRIPTOR_LENGTH > u16::MAX {
            Err(CompileError::Range(RangeError::Count))
        } else {
            Ok(
                Cursor {
                    emitted: cursor.emitted.push(AnyDescriptorView::Endpoint(descriptor)),
                    total_length: (cursor.total_length + ENDPOINT_DESCRIPTOR_LENGTH) as u16,
                    ..cursor
                },
            )
        },
    }
}

/// Makes the string descriptor of an interface's name and then its
/// interface descriptor, under the next interface number, and adds the
/// latter's length to the total. The descriptor refers to the name by the
/// string index that the name was given.
pub open spec fn add_interface(cursor: Cursor, interface: InterfaceSpec) -> Result<
    Cursor,
    CompileError,
> {
    if interface.endpoints.len() > u8::MAX {
        Err(CompileError::Range(RangeError::Count))
    } else {
        let named = add_string(cursor, interface.interface);
        match interface.build(
            cursor.next_interface,
            cursor.next_string,
            interface.endpoints.len() as u8,
        ) {
            Err(e) => Err(e),
            Ok(descriptor) => if named.next_interface == u8::MAX || named.total_length
                + INTERFACE_DESCRIPTOR_LENGTH > u16::MAX {
                Err(CompileError::Range(RangeError::Count))
            } else {
                Ok(
                    Cursor {
                        emitted: named.emitted.push(AnyDescriptorView::Interface(descriptor)),
                        total_length: (named.total_length + INTERFACE_DESCRIPTOR_LENGTH) as u16,
                        next_interface: (named.next_interface + 1) as u8,
                        ..named
                    },
                )
            },
        }
    }
}

/// Makes the string descriptor of a configuration's name and then its
/// configuration descriptor, which takes the total that has been added
/// up, keeps the configuration's own configuration value, and starts the
/// total anew. The descriptor refers to the name by the string index that
/// the name was given.
pub open spec fn add_configuration(cursor: Cursor, configuration: ConfigurationSpec) -> Result<
    Cursor,
    CompileError,
> {
    if configuration.interfaces.len() > u8::MAX {
        Err(CompileError::Range(RangeError::Count))
    } else {
        let named = add_string(cursor, configuration.configuration);
        match configuration.build(
            named.total_length,
            configuration.interfaces.len() as u8,
            configuration.configuration_value,
            cursor.next_string,
        ) {
            Err(e) => Err(e),
            Ok(descriptor) => Ok(
                Cursor {
                    emitted: named.emitted.push(AnyDescriptorView::Configuration(descriptor)),
                    total_length: 0,
                    ..named
                },
            ),
        }
    }
}

/// Makes the string descriptors of a device's serial number, product and
/// manufacturer, in this order, and then its device descriptor, which
/// refers to each by the string index that it was given.
pub open spec fn add_device(cursor: Cursor, device: DeviceSpec) -> Result<Cursor, CompileError> {
    if device.configurations.len() > u8::MAX {
        Err(CompileError::Range(RangeError::Count))
    } else {
        let first = add_string(cursor, device.serial_number);
        let second = add_string(first, device.product);
        let named = add_string(second, device.manufacturer);
        match device.build(
            device.configurations.len() as u8,
            second.next_string,
            first.next_string,
            cursor.next_string,
        ) {
            Err(e) => Err(CompileError::Validation(e)),
            Ok(descriptor) => Ok(
                Cursor {
                    emitted: named.emitted.push(AnyDescriptorView::Device(descriptor)),
                    total_length: 0,
                    ..named
                },
            ),
        }
    }
}

/// Adds the endpoints of a list, the last one first.
pub open spec fn add_endpoints(cursor: Cursor, endpoints: Seq<EndpointSpec>) -> Result<
    Cursor,
    CompileError,
>
    decreases endpoints.len(),
{
    if endpoints.len() == 0 {
        Ok(cursor)
    } else {
        match add_endpoint(cursor, endpoints.last()) {
            Ok(next) => add_endpoints(next, endpoints.drop_last()),
            Err(e) => Err(e),
        }
    }
}

/// Adds an interface with what belongs to it: its endpoints, then itself.
pub open spec fn add_interface_tree(cursor: Cursor, interface: InterfaceSpec) -> Result<
    Cursor,
    CompileError,
> {
    match add_endpoints(cursor, interface.endpoints) {
        Ok(next) => add_interface(next, interface),
        Err(e) => Err(e),
    }
}

/// Adds the interfaces of a list, the last one first.
pub open spec fn add_interfaces(cursor: Cursor, interfaces: Seq<InterfaceSpec>) -> Result<
    Cursor,
    CompileError,
>
    decreases interfaces.len(),
{
    if interfaces.len() == 0 {
        Ok(cursor)
    } else {
        match add_interface_tree(cursor, interfaces.last()) {
            Ok(next) => add_interfaces(next, interfaces.drop_last()),
            Err(e) => Err(e),
        }
    }
}

/// Adds a configuration with what belongs to it: its interfaces, then
/// itself.
pub open spec fn add_configuration_tree(cursor: Cursor, configuration: ConfigurationSpec) -> Result<
    Cursor,
    CompileError,
> {
    match add_interfaces(cursor, configuration.interfaces) {
        Ok(next) => add_configuration(next, configuration),
        Err(e) => Err(e),
    }
}

/// Adds the configurations of a list, the last one first.
pub open spec fn add_configurations(cursor: Cursor, configurations: Seq<ConfigurationSpec>) -> Result<
    Cursor,
    CompileError,
>
    decreases configurations.len(),
{
    if configurations.len() == 0 {
        Ok(cursor)
    } else {
        match add_configuration_tree(cursor, configurations.last()) {
            Ok(next) => add_configurations(next, configurations.drop_last()),
            Err(e) => Err(e),
        }
    }
}

/// The number of names among some configurations: one for each of them
/// and one for each of their interfaces.
pub open spec fn names_in(configurations: Seq<ConfigurationSpec>) -> nat
    decreases configurations.len(),
{
    if configurations.len() == 0 {
        0
    } else {
        names_in(configurations.drop_last()) + 1 + configurations.last().interfaces.len()
    }
}

/// The number of string descriptors of a device: the language list, the
/// device's three names, and the names of its configurations and
/// interfaces.
pub open spec fn string_count(device: DeviceSpec) -> nat {
    4 + names_in(device.configurations)
}

/// The descriptors that a device and a list of languages compile to, in
/// the order in which a host reads them: the language list, the device
/// descriptor, the device's names, and for each configuration its
/// descriptor, its name and, for each of its interfaces, the interface
/// descriptor, the interface's name and the endpoint descriptors.
///
/// They are made in the opposite order, which is the order in which the
/// numbers are handed out: string indices count down to 0, which the
/// language list gets, and interface numbers count up from 0. There is
/// nothing to compile without a language or without a configuration.
pub open spec fn compiled(device: DeviceSpec, languages: StringContentView) -> Result<
    Seq<AnyDescriptorView>,
    CompileError,
> {
    if !languages.is_language_list() || device.configurations.len() == 0 {
        Err(CompileError::EmptyRequiredCollection)
    } else if string_count(device) > u8::MAX + 1 {
        Err(CompileError::Range(RangeError::Count))
    } else {
        match add_configurations(start((string_count(device) - 1) as u8), device.configurations) {
            Err(e) => Err(e),
            Ok(cursor) => match add_device(cursor, device) {
                Err(e) => Err(e),
                Ok(cursor) => Ok(add_string(cursor, languages).emitted.reverse()),
            },
        }
    }
}

/// The names of a part of a list are not more than those of the whole.
pub proof fn lemma_names_in_prefix(configurations: Seq<ConfigurationSpec>, n: int)
    requires
        0 <= n <= configurations.len(),
    ensures
        names_in(configurations.take(n)) <= names_in(configurations),
    decreases configurations.len(),
{
    if n == configurations.len() {
        assert(configurations.take(n) =~= configurations);
    } else {
        assert(configurations.drop_last().take(n) =~= configurations.take(n));
        lemma_names_in_prefix(configurations.drop_last(), n);
    }
}

/// With one more configuration, its names come on top of those before.
pub proof fn lemma_names_in_step(configurations: Seq<ConfigurationSpec>, n: int)
    requires
        0 <= n < configurations.len(),
    ensures
        names_in(configurations.take(n + 1)) == names_in(configurations.take(n)) + 1
            + configurations[n].interfaces.len(),
{
    assert(configurations.take(n + 1).drop_last() =~= configurations.take(n));
}

/// The descriptors of a device as they are made, with the value under
/// which a host asks for each.
pub struct DescriptorsBuilder {
    pub descriptors: Vec<AnyDescriptor>,
    pub w_values: Vec<u16>,
    configuration_total_length: u16,
    interface_descriptor_index: u8,  // counting up
    string_descriptor_index: u8,  // counting down
}

impl View for DescriptorsBuilder {
    type V = Seq<AnyDescriptorView>;

    /// The descriptors made, as mathematical values.
    closed spec fn view(&self) -> Seq<AnyDescriptorView> {
        descriptor_views(self.descriptors@)
    }
}

impl DescriptorsBuilder {
    /// Where the compilation stands.
    pub closed spec fn cursor(&self) -> Cursor {
        Cursor {
            emitted: descriptor_views(self.descriptors@),
            total_length: self.configuration_total_length,
            next_interface: self.interface_descriptor_index,
            next_string: self.string_descriptor_index,
        }
    }

    /// Each lookup value belongs to the descriptor at its place.
    pub closed spec fn wf(&self) -> bool {
        self.w_values@ == w_values_of(self@)
    }

    /// The descriptors made.
    pub fn descriptors(&self) -> (descriptors: &Vec<AnyDescriptor>)
        ensures
            descriptor_views(descriptors@) == self@,
    {
        &self.descriptors
    }

    /// The lookup values of the descriptors made.
    pub fn w_values(&self) -> (w_values: &Vec<u16>)
        ensures
            self.wf() ==> w_values@ == w_values_of(self@),
    {
        &self.w_values
    }

    fn push(&mut self, descriptor: AnyDescriptor)
        requires
            old(self).wf(),
        ensures
            final(self).wf(),
            final(self).cursor() == (Cursor {
                emitted: old(self).cursor().emitted.push(descriptor@),
                ..old(self).cursor()
            }),
    {
        let w_value = descriptor.get_w_value();
        self.descriptors.push(descriptor);
        self.w_values.push(w_value);
        assert(descriptor_views(self.descriptors@) =~= descriptor_views(
            old(self).descriptors@,
        ).push(descriptor@));
        assert(self.w_values@ =~= w_values_of(descriptor_views(self.descriptors@)));
    }

    fn add_endpoint_descriptor(&mut self, builder: &EndpointBuilder) -> (r: Result<
        (),
        CompileError,
    >)
        requires
            old(self).wf(),
        ensures
            match add_endpoint(old(self).cursor(), builder@) {
                Ok(cursor) => r is Ok && final(self).cursor() == cursor && final(self).wf(),
                Err(e) => r is Err && r->Err_0 == e,
            },
    {
        let descriptor = match builder.build() {
            Ok(descriptor) => descriptor,
            Err(e) => return Err(CompileError::Range(e)),
        };
        if self.configuration_total_length > u16::MAX - 7 {
            return Err(CompileError::Range(RangeError::Count));
        }
        self.configuration_total_length += ENDPOINT_DESCRIPTOR_LENGTH as u16;
        self.push(AnyDescriptor::Endpoint(descriptor));
        Ok(())
    }

    fn add_interface_descriptor(&mut self, builder: &InterfaceBuilder) -> (r: Result<
        (),
        CompileError,
    >)
        requires
            old(self).wf(),
        ensures
            match add_interface(old(self).cursor(), builder@) {
                Ok(cursor) => r is Ok && final(self).cursor() == cursor && final(self).wf(),
                Err(e) => r is Err && r->Err_0 == e,
            },
    {
        if builder.endpoints.len() > 255 {
            return Err(CompileError::Range(RangeError::Count));
        }
        let num_endpoints: u8 = builder.endpoints.len() as u8;

        let interface: u8 = self.string_descriptor_index;
        self.add_string_descriptor(&builder.interface);

        let descriptor = match builder.build(
            self.interface_descriptor_index,
            interface,
            num_endpoints,
        ) {
            Ok(descriptor) => descriptor,
            Err(e) => return Err(e),
        };
        if self.interface_descriptor_index == u8::MAX || self.configuration_total_length
            > u16::MAX - 9 {
            return Err(CompileError::Range(RangeError::Count));
        }
        self.interface_descriptor_index += 1;
        self.configuration_total_length += INTERFACE_DESCRIPTOR_LENGTH as u16;
        self.push(AnyDescriptor::Interface(descriptor));
        Ok(())
    }

    fn add_configuration_descriptor(&mut self, builder: &ConfigurationBuilder) -> (r: Result<
        (),
        CompileError,
    >)
        requires
            old(self).wf(),
        ensures
            match add_configuration(old(self).cursor(), builder@) {
                Ok(cursor) => r is Ok && final(self).cursor() == cursor && final(self).wf(),
                Err(e) => r is Err && r->Err_0 == e,
            },
    {
        if builder.interfaces.len() > 255 {
            return Err(CompileError::Range(RangeError::Count));
        }
        let num_interfaces: u8 = builder.interfaces.len() as u8;

        let configuration: u8 = self.string_descriptor_index;
        self.add_string_descriptor(&builder.configuration);

        let descriptor = match builder.build(
            self.configuration_total_length,
            num_interfaces,
            builder.configuration_value,
            configuration,
        ) {
            Ok(descriptor) => descriptor,
            Err(e) => return Err(e),
        };
        self.configuration_total_length = 0;
        self.push(AnyDescriptor::Configuration(descriptor));
        Ok(())
    }

    fn add_device_descriptor(&mut self, builder: &DeviceBuilder) -> (r: Result<(), CompileError>)
        requires
            old(self).wf(),
        ensures
            match add_device(old(self).cursor(), builder@) {
                Ok(cursor) => r is Ok && final(self).cursor() == cursor && final(self).wf(),
                Err(e) => r is Err && r->Err_0 == e,
            },
    {
        if builder.configurations.len() > 255 {
            return Err(CompileError::Range(RangeError::Count));
        }
        let num_configurations: u8 = builder.configurations.len() as u8;

        let serial_number: u8 = self.string_descriptor_index;
        self.add_string_descriptor(&builder.serial_number);
        let product: u8 = self.string_descriptor_index;
        self.add_string_descriptor(&builder.product);
        let manufacturer: u8 = self.string_descriptor_index;
        self.add_string_descriptor(&builder.manufacturer);

        let descriptor = match builder.build(
            num_configurations,
            manufacturer,
            product,
            serial_number,
        ) {
            Ok(descriptor) => descriptor,
            Err(e) => return Err(CompileError::Validation(e)),
        };
        self.configuration_total_length = 0;
        self.push(AnyDescriptor::Device(descriptor));
        Ok(())
    }

    fn add_string_descriptor(&mut self, builder: &StringBuidler)
        requires
            old(self).wf(),
        ensures
            final(self).wf(),
            final(self).cursor() == add_string(old(self).cursor(), builder@),
    {
        let string_index = self.string_descriptor_index;
        if string_index > 0 {
            self.string_descriptor_index -= 1;
        }
        let descriptor = builder.build(string_index);
        self.push(AnyDescriptor::String(descriptor));
    }

    fn add_endpoint_descriptors(&mut self, endpoints: &Vec<EndpointBuilder>) -> (r: Result<
        (),
        CompileError,
    >)
        requires
            old(self).wf(),
        ensures
            match add_endpoints(old(self).cursor(), endpoint_specs(endpoints@)) {
                Ok(cursor) => r is Ok && final(self).cursor() == cursor && final(self).wf(),
                Err(e) => r is Err && r->Err_0 == e,
            },
    {
        let ghost first = self.cursor();
        let ghost all = endpoint_specs(endpoints@);
        let mut i: usize = endpoints.len();
        assert(all.take(i as int) =~= all);
        while i > 0
            invariant
                i <= endpoints.len(),
                all == endpoint_specs(endpoints@),
                self.wf(),
                first == old(self).cursor(),
                add_endpoints(first, all) == add_endpoints(self.cursor(), all.take(i as int)),
            decreases i,
        {
            i = i - 1;
            proof {
                assert(all.take(i + 1).last() == endpoints@[i as int]@);
                assert(all.take(i + 1).drop_last() =~= all.take(i as int));
            }
            match self.add_endpoint_descriptor(&endpoints[i]) {
                Ok(()) => {},
                Err(e) => return Err(e),
            }
        }
        Ok(())
    }

    fn add_interface_descriptors(&mut self, interfaces: &Vec<InterfaceBuilder>) -> (r: Result<
        (),
        CompileError,
    >)
        requires
            old(self).wf(),
        ensures
            match add_interfaces(old(self).cursor(), interface_specs(interfaces@)) {
                Ok(cursor) => r is Ok && final(self).cursor() == cursor && final(self).wf(),
                Err(e) => r is Err && r->Err_0 == e,
            },
    {
        let ghost first = self.cursor();
        let ghost all = interface_specs(interfaces@);
        let mut i: usize = interfaces.len();
        assert(all.take(i as int) =~= all);
        while i > 0
            invariant
                i <= interfaces.len(),
                all == interface_specs(interfaces@),
                self.wf(),
                first == old(self).cursor(),
                add_interfaces(first, all) == add_interfaces(self.cursor(), all.take(i as int)),
            decreases i,
        {
            i = i - 1;
            proof {
                assert(all.take(i + 1).last() == interfaces@[i as int]@);
                assert(all.take(i + 1).drop_last() =~= all.take(i as int));
            }
            match self.add_endpoint_descriptors(&interfaces[i].endpoints) {
                Ok(()) => {},
                Err(e) => return Err(e),
            }
            match self.add_interface_descriptor(&interfaces[i]) {
                Ok(()) => {},
                Err(e) => return Err(e),
            }
        }
        Ok(())
    }

    fn add_configuration_descriptors(&mut self, configurations: &Vec<ConfigurationBuilder>) -> (r:
        Result<(), CompileError>)
        requires
            old(self).wf(),
        ensures
            match add_configurations(old(self).cursor(), configuration_specs(configurations@)) {
                Ok(cursor) => r is Ok && final(self).cursor() == cursor && final(self).wf(),
                Err(e) => r is Err && r->Err_0 == e,
            },
    {
        let ghost first = self.cursor();
        let ghost all = configuration_specs(configurations@);
        let mut i: usize = configurations.len();
        assert(all.take(i as int) =~= all);
        while i > 0
            invariant
                i <= configurations.len(),
                all == configuration_specs(configurations@),
                self.wf(),
                first == old(self).cursor(),
                add_configurations(first, all) == add_configurations(
                    self.cursor(),
                    all.take(i as int),
                ),
            decreases i,
        {
            i = i - 1;
            proof {
                assert(all.take(i + 1).last() == configurations@[i as int]@);
                assert(all.take(i + 1).drop_last() =~= all.take(i as int));
            }
            match self.add_interface_descriptors(&configurations[i].interfaces) {
                Ok(()) => {},
                Err(e) => return Err(e),
            }
            match self.add_configuration_descriptor(&configurations[i]) {
                Ok(()) => {},
                Err(e) => return Err(e),
            }
        }
        Ok(())
    }

    /// Counts the string descriptors of a device, as far as an index of
    /// one byte can number them.
    fn count_strings(device_builder: &DeviceBuilder) -> (r: Option<usize>)
        ensures
            match r {
                Some(count) => count == string_count(device_builder@) && count <= 256,
                None => string_count(device_builder@) > 256,
            },
    {
        let ghost all = configuration_specs(device_builder.configurations@);
        let mut string_descriptor_num: usize = 4;  // 1x language + 3x in device descriptor
        let mut i: usize = 0;
        while i < device_builder.configurations.len()
            invariant
                i <= device_builder.configurations.len(),
                all == configuration_specs(device_builder.configurations@),
                string_descriptor_num == 4 + names_in(all.take(i as int)),
                string_descriptor_num <= 256,
            decreases device_builder.configurations.len() - i,
        {
            let interfaces: usize = device_builder.configurations[i].interfaces.len();
            proof {
                lemma_names_in_step(all, i as int);
                lemma_names_in_prefix(all, i + 1);
            }
            if interfaces > 256 || string_descriptor_num + interfaces + 1 > 256 {
                return None;
            }
            string_descriptor_num = string_descriptor_num + interfaces + 1;
            i = i + 1;
        }
        assert(all.take(i as int) =~= all);
        Some(string_descriptor_num)
    }

    /// Compiles a device and a list of languages into the descriptors
    /// that a host reads, each with the value under which it asks for it.
    pub fn build(device_builder: &DeviceBuilder, language: &StringBuidler) -> (r: Result<
        DescriptorsBuilder,
        CompileError,
    >)
        ensures
            match compiled(device_builder@, language@) {
                Ok(descriptors) => r is Ok && r->Ok_0.wf() && r->Ok_0@ == descriptors,
                Err(e) => r is Err && r->Err_0 == e,
            },
    {
        match &language.string {
            StringContent::Languages(codes) => {
                if codes.len() == 0 {
                    return Err(CompileError::EmptyRequiredCollection);
                }
            },
            _ => {
                return Err(CompileError::EmptyRequiredCollection);
            },
        }
        if device_builder.configurations.len() == 0 {
            return Err(CompileError::EmptyRequiredCollection);
        }
        let string_descriptor_num: usize = match Self::count_strings(device_builder) {
            Some(count) => count,
            None => return Err(CompileError::Range(RangeError::Count)),
        };

        let mut helper = DescriptorsBuilder::default();
        helper.string_descriptor_index = (string_descriptor_num - 1) as u8;
        assert(helper.cursor() == start((string_count(device_builder@) - 1) as u8)) by {
            assert(descriptor_views(helper.descriptors@) =~= Seq::empty());
        }

        match helper.add_configuration_descriptors(&device_builder.configurations) {
            Ok(()) => {},
            Err(e) => return Err(e),
        }
        match helper.add_device_descriptor(device_builder) {
            Ok(()) => {},
            Err(e) => return Err(e),
        }
        helper.add_string_descriptor(language);

        let ghost made = helper.cursor().emitted;
        let DescriptorsBuilder {
            descriptors,
            w_values,
            configuration_total_length,
            interface_descriptor_index,
            string_descriptor_index,
        } = helper;
        let descriptors = reversed(descriptors);
        let w_values = reversed(w_values);
        let turned = DescriptorsBuilder {
            descriptors,
            w_values,
            configuration_total_length,
            interface_descriptor_index,
            string_descriptor_index,
        };
        assert(descriptor_views(turned.descriptors@) =~= made.reverse());
        assert(turned.w_values@ =~= w_values_of(descriptor_views(turned.descriptors@)));
        Ok(turned)
    }
}

impl Default for DescriptorsBuilder {
    fn default() -> (builder: Self)
        ensures
            builder.wf(),
            builder@ == Seq::<AnyDescriptorView>::empty(),
            builder.cursor() == start(0),
    {
        let builder = DescriptorsBuilder {
            descriptors: Vec::<AnyDescriptor>::new(),
            w_values: Vec::<u16>::new(),
            configuration_total_length: 0,
            interface_descriptor_index: 0,
            string_descriptor_index: 0,
        };
        assert(builder@ =~= Seq::empty());
        assert(builder.w_values@ =~= w_values_of(builder@));
        builder
    }
}

} // verus!
