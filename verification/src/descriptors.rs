use vstd::prelude::*;
use crate::descriptor::Descriptor;
use crate::descriptors_builder::DescriptorsBuilder;
use crate::error::CompileError;
use crate::record::{descriptor_views, w_values_of, AnyDescriptor, AnyDescriptorView};
use crate::table::{
    all_distinct, byte_views, encode_all, encoded_all, entry_matches, find, lemma_encoded_all,
    lemma_encoded_matches, position,
};

verus! {

/// The descriptors of a device as bytes, with the value under which a
/// host asks for each.
pub struct Descriptors {
    pub descriptors: Vec<Vec<u8>>,
    pub w_values: Vec<u16>,
}

/// The table that some descriptors make: what each is written out as,
/// and its lookup value. There is none where a descriptor cannot be
/// written out, and none where two have one lookup value.
pub open spec fn table_of(descriptors: Seq<AnyDescriptorView>) -> Result<
    (Seq<Seq<u8>>, Seq<u16>),
    CompileError,
> {
    match encoded_all(descriptors) {
        Err(e) => Err(CompileError::Encoding(e)),
        Ok(written) => if w_values_of(descriptors).no_duplicates() {
            Ok((written, w_values_of(descriptors)))
        } else {
            Err(CompileError::DuplicateKey)
        },
    }
}

/// Reads the lookup values of the descriptors of a list.
fn w_values_in(descriptors: &Vec<AnyDescriptor>) -> (w_values: Vec<u16>)
    ensures
        w_values@ == w_values_of(descriptor_views(descriptors@)),
{
    let mut w_values = Vec::<u16>::new();
    let mut i: usize = 0;
    while i < descriptors.len()
        invariant
            i <= descriptors.len(),
            w_values@ == w_values_of(descriptor_views(descriptors@)).take(i as int),
        decreases descriptors.len() - i,
    {
        w_values.push(descriptors[i].get_w_value());
        i = i + 1;
        assert(w_values@ =~= w_values_of(descriptor_views(descriptors@)).take(i as int));
    }
    assert(w_values@ =~= w_values_of(descriptor_views(descriptors@)));
    w_values
}

impl Descriptors {
    /// There is one lookup value for each descriptor, no lookup value
    /// stands twice, and each descriptor stands rightly under its value.
    pub open spec fn wf(&self) -> bool {
        &&& self.descriptors@.len() == self.w_values@.len()
        &&& self.w_values@.no_duplicates()
        &&& forall|i: int|
            0 <= i < self.descriptors@.len() ==> entry_matches(
                (#[trigger] self.descriptors@[i])@,
                self.w_values@[i],
            )
    }

    /// Writes out the descriptors that a compilation has made, and keeps
    /// them with their lookup values.
    pub fn encode(builder: &DescriptorsBuilder) -> (r: Result<Descriptors, CompileError>)
        ensures
            match table_of(builder@) {
                Ok(table) => r is Ok && byte_views(r->Ok_0.descriptors@) == table.0
                    && r->Ok_0.w_values@ == table.1 && r->Ok_0.wf(),
                Err(e) => r is Err && r->Err_0 == e,
            },
    {
        let descriptors = match encode_all(builder.descriptors()) {
            Ok(descriptors) => descriptors,
            Err(e) => return Err(CompileError::Encoding(e)),
        };
        let w_values = w_values_in(builder.descriptors());
        if !all_distinct(&w_values) {
            return Err(CompileError::DuplicateKey);
        }
        let made = Descriptors { descriptors, w_values };
        proof {
            lemma_encoded_all(builder@);
            assert forall|i: int| 0 <= i < made.descriptors@.len() implies entry_matches(
                (#[trigger] made.descriptors@[i])@,
                made.w_values@[i],
            ) by {
                assert(byte_views(made.descriptors@)[i] == made.descriptors@[i]@);
                lemma_encoded_matches(builder@[i]);
            }
        }
        Ok(made)
    }

    /// Finds the descriptor that stands under a lookup value: the one at
    /// the first place at which the value stands among the lookup values,
    /// where there is such a place and a descriptor at it.
    pub fn get_descriptor(&self, w_value: u16) -> (r: Option<&Vec<u8>>)
        ensures
            r is Some <==> position(self.w_values@, w_value) < self.w_values@.len() && position(
                self.w_values@,
                w_value,
            ) < self.descriptors@.len(),
            r is Some ==> *r->Some_0 == self.descriptors@[position(self.w_values@, w_value)],
            r is Some && self.wf() ==> entry_matches(r->Some_0@, w_value),
            self.wf() ==> (r is Some <==> self.w_values@.contains(w_value)),
    {
        let at = find(&self.w_values, w_value);
        proof {
            if self.w_values@.contains(w_value) {
                let k = choose|k: int| 0 <= k < self.w_values@.len() && self.w_values@[k] == w_value;
                assert(at <= k);
            }
        }
        if at < self.w_values.len() && at < self.descriptors.len() {
            Some(&self.descriptors[at])
        } else {
            None
        }
    }
}

} // verus!
