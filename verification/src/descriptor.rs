use vstd::prelude::*;
use crate::binary::w_value_of;
use crate::descriptor_type::DescriptorType;
use crate::error::EncodingError;

verus! {

/// A record that a device hands to its host to describe itself.
pub trait Descriptor {
    /// The bytes of the record, or why it has none.
    spec fn encoded(&self) -> Result<Seq<u8>, EncodingError>;

    /// The kind of the record.
    spec fn descriptor_type(&self) -> DescriptorType;

    /// The number that tells the record from others of its kind.
    spec fn index(&self) -> u8;

    /// Writes the record out. The first byte of what is written is the
    /// number of bytes written, the second the code of the record's kind.
    fn encode(&self) -> (r: Result<Vec<u8>, EncodingError>)
        ensures
            r is Ok <==> self.encoded() is Ok,
            r is Ok ==> r->Ok_0@ == self.encoded()->Ok_0,
            r is Err ==> r->Err_0 == self.encoded()->Err_0,
            r is Ok ==> r->Ok_0@.len() >= 2 && r->Ok_0@[0] == r->Ok_0@.len() && r->Ok_0@[1]
                == self.descriptor_type().code(),
    ;

    fn get_descriptor_type(&self) -> (t: DescriptorType)
        ensures
            t == self.descriptor_type(),
    ;

    /// The value under which a host asks for the record.
    fn get_w_value(&self) -> (w_value: u16)
        ensures
            w_value == w_value_of(self.descriptor_type(), self.index()),
    ;
}

} // verus!
