use vstd::prelude::*;
use crate::binary::EncodeBytes;
use crate::descriptor::Descriptor;
use crate::descriptor_type::DescriptorType;
use crate::error::EncodingError;
use crate::string::string_content::{StringContent, StringContentView};

verus! {

pub const STRING_DESCRIPTOR_TYPE: DescriptorType = DescriptorType::String;

/// A string descriptor: the language list, or one of the device's texts.
#[derive(Debug, PartialEq, Eq)]
pub struct StringDescriptor {
    /// The number under which the other descriptors refer to the string,
    /// and under which a host asks for it.
    pub index: u8,
    /// Turns into `bString`
    pub string: StringContent,
}

/// A `StringDescriptor` as a mathematical value.
pub struct StringDescriptorView {
    pub index: u8,
    pub string: StringContentView,
}

impl StringDescriptorView {
    /// The number of bytes of the record: two, and two for each 16-bit
    /// value of its content.
    pub open spec fn length(self) -> nat {
        2 + 2 * self.string.units().len()
    }

    /// The length, the type, and the content as bytes, where the length
    /// fits into the first byte.
    pub open spec fn encoded(self) -> Result<Seq<u8>, EncodingError> {
        if self.length() <= 255 {
            Ok(seq![self.length() as u8, STRING_DESCRIPTOR_TYPE.code()] + self.string.bytes())
        } else {
            Err(EncodingError::LengthMismatch)
        }
    }
}

impl View for StringDescriptor {
    type V = StringDescriptorView;

    open spec fn view(&self) -> StringDescriptorView {
        StringDescriptorView { index: self.index, string: self.string@ }
    }
}

impl Clone for StringDescriptor {
    fn clone(&self) -> (copy: Self)
        ensures
            copy@ == self@,
    {
        StringDescriptor { index: self.index, string: self.string.clone() }
    }
}

impl Descriptor for StringDescriptor {
    open spec fn encoded(&self) -> Result<Seq<u8>, EncodingError> {
        self@.encoded()
    }

    open spec fn descriptor_type(&self) -> DescriptorType {
        STRING_DESCRIPTOR_TYPE
    }

    /// A string is told from others by its index.
    open spec fn index(&self) -> u8 {
        self.index
    }

    fn encode(&self) -> (r: Result<Vec<u8>, EncodingError>) {
        let mut content = match self.string.encode() {
            Ok(content) => content,
            Err(e) => return Err(EncodingError::Range(e)),
        };
        if content.len() > 253 {
            return Err(EncodingError::LengthMismatch);
        }
        let length: u8 = (content.len() + 2) as u8;
        let mut bytes = Vec::<u8>::new();
        bytes.push(length);
        bytes.push(0x03);
        bytes.append(&mut content);
        assert(bytes@ =~= seq![length, STRING_DESCRIPTOR_TYPE.code()] + self.string@.bytes());
        Ok(bytes)
    }

    fn get_descriptor_type(&self) -> (t: DescriptorType) {
        STRING_DESCRIPTOR_TYPE
    }

    fn get_w_value(&self) -> (w_value: u16) {
        let index: u16 = self.index as u16;
        0x0300 + index
    }
}

} // verus!
