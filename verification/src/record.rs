use vstd::prelude::*;
use crate::binary::w_value_of;
use crate::configuration::configuration_descriptor::ConfigurationDescriptor;
use crate::descriptor::Descriptor;
use crate::descriptor_type::DescriptorType;
use crate::device::device_descriptor::DeviceDescriptor;
use crate::endpoint::endpoint_descriptor::EndpointDescriptor;
use crate::error::EncodingError;
use crate::interface::interface_descriptor::InterfaceDescriptor;
use crate::string::string_descriptor::{StringDescriptor, StringDescriptorView};

verus! {

/// A descriptor of any of the five kinds that a device with its
/// configurations, interfaces, endpoints and strings is made of.
#[derive(Debug, PartialEq, Eq)]
pub enum AnyDescriptor {
    Device(DeviceDescriptor),
    Configuration(ConfigurationDescriptor),
    Interface(InterfaceDescriptor),
    Endpoint(EndpointDescriptor),
    String(StringDescriptor),
}

/// An `AnyDescriptor` as a mathematical value.
pub enum AnyDescriptorView {
    Device(DeviceDescriptor),
    Configuration(ConfigurationDescriptor),
    Interface(InterfaceDescriptor),
    Endpoint(EndpointDescriptor),
    String(StringDescriptorView),
}

impl AnyDescriptorView {
    /// The bytes of the descriptor, or why it has none.
    pub open spec fn encoded(self) -> Result<Seq<u8>, EncodingError> {
        match self {
            AnyDescriptorView::Device(d) => d.encoded(),
            AnyDescriptorView::Configuration(d) => d.encoded(),
            AnyDescriptorView::Interface(d) => d.encoded(),
            AnyDescriptorView::Endpoint(d) => d.encoded(),
            AnyDescriptorView::String(d) => d.encoded(),
        }
    }

    /// The kind of the descriptor.
    pub open spec fn descriptor_type(self) -> DescriptorType {
        match self {
            AnyDescriptorView::Device(d) => d.descriptor_type(),
            AnyDescriptorView::Configuration(d) => d.descriptor_type(),
            AnyDescriptorView::Interface(d) => d.descriptor_type(),
            AnyDescriptorView::Endpoint(d) => d.descriptor_type(),
            AnyDescriptorView::String(d) => DescriptorType::String,
        }
    }

    /// The number that tells the descriptor from others of its kind.
    pub open spec fn index(self) -> u8 {
        match self {
            AnyDescriptorView::Device(d) => d.index(),
            AnyDescriptorView::Configuration(d) => d.index(),
            AnyDescriptorView::Interface(d) => d.index(),
            AnyDescriptorView::Endpoint(d) => d.index(),
            AnyDescriptorView::String(d) => d.index,
        }
    }

    /// The value under which a host asks for the descriptor.
    pub open spec fn w_value(self) -> u16 {
        w_value_of(self.descriptor_type(), self.index())
    }
}

impl View for AnyDescriptor {
    type V = AnyDescriptorView;

    open spec fn view(&self) -> AnyDescriptorView {
        match self {
            AnyDescriptor::Device(d) => AnyDescriptorView::Device(*d),
            AnyDescriptor::Configuration(d) => AnyDescriptorView::Configuration(*d),
            AnyDescriptor::Interface(d) => AnyDescriptorView::Interface(*d),
            AnyDescriptor::Endpoint(d) => AnyDescriptorView::Endpoint(*d),
            AnyDescriptor::String(d) => AnyDescriptorView::String(d@),
        }
    }
}

impl Clone for AnyDescriptor {
    fn clone(&self) -> (copy: Self)
        ensures
            copy@ == self@,
    {
        match self {
            AnyDescriptor::Device(d) => AnyDescriptor::Device(*d),
            AnyDescriptor::Configuration(d) => AnyDescriptor::Configuration(*d),
            AnyDescriptor::Interface(d) => AnyDescriptor::Interface(*d),
            AnyDescriptor::Endpoint(d) => AnyDescriptor::Endpoint(*d),
            AnyDescriptor::String(d) => AnyDescriptor::String(d.clone()),
        }
    }
}

impl Descriptor for AnyDescriptor {
    open spec fn encoded(&self) -> Result<Seq<u8>, EncodingError> {
        self@.encoded()
    }

    open spec fn descriptor_type(&self) -> DescriptorType {
        self@.descriptor_type()
    }

    open spec fn index(&self) -> u8 {
        self@.index()
    }

    fn encode(&self) -> (r: Result<Vec<u8>, EncodingError>) {
        match self {
            AnyDescriptor::Device(d) => d.encode(),
            AnyDescriptor::Configuration(d) => d.encode(),
            AnyDescriptor::Interface(d) => d.encode(),
            AnyDescriptor::Endpoint(d) => d.encode(),
            AnyDescriptor::String(d) => d.encode(),
        }
    }

    fn get_descriptor_type(&self) -> (t: DescriptorType) {
        match self {
            AnyDescriptor::Device(d) => d.get_descriptor_type(),
            AnyDescriptor::Configuration(d) => d.get_descriptor_type(),
            AnyDescriptor::Interface(d) => d.get_descriptor_type(),
            AnyDescriptor::Endpoint(d) => d.get_descriptor_type(),
            AnyDescriptor::String(d) => d.get_descriptor_type(),
        }
    }

    fn get_w_value(&self) -> (w_value: u16) {
        match self {
            AnyDescriptor::Device(d) => d.get_w_value(),
            AnyDescriptor::Configuration(d) => d.get_w_value(),
            AnyDescriptor::Interface(d) => d.get_w_value(),
            AnyDescriptor::Endpoint(d) => d.get_w_value(),
            AnyDescriptor::String(d) => d.get_w_value(),
        }
    }
}

/// The descriptors of a list as mathematical values.
pub open spec fn descriptor_views(descriptors: Seq<AnyDescriptor>) -> Seq<AnyDescriptorView> {
    Seq::new(descriptors.len(), |i: int| descriptors[i]@)
}

/// The lookup values of the descriptors of a list, in the list's order.
pub open spec fn w_values_of(descriptors: Seq<AnyDescriptorView>) -> Seq<u16> {
    Seq::new(descriptors.len(), |i: int| descriptors[i].w_value())
}

/// Turns a list round.
pub fn reversed<T>(list: Vec<T>) -> (turned: Vec<T>)
    ensures
        turned@ == list@.reverse(),
{
    let mut list = list;
    let ghost whole = list@;
    let mut turned = Vec::<T>::new();
    while list.len() > 0
        invariant
            list@ == whole.take(list@.len() as int),
            list@.len() + turned@.len() == whole.len(),
            forall|k: int| 0 <= k < turned@.len() ==> turned@[k] == whole[whole.len() - 1 - k],
        decreases list@.len(),
    {
        let item = list.pop().unwrap();
        turned.push(item);
    }
    assert(turned@ =~= whole.reverse());
    turned
}

} // verus!
