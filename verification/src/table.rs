use vstd::prelude::*;
use crate::binary::EncodeByte;
use crate::descriptor::Descriptor;
use crate::descriptor_type::DescriptorType;
use crate::error::EncodingError;
use crate::record::{descriptor_views, AnyDescriptor, AnyDescriptorView};

verus! {

/// The number by which a descriptor of bytes is told from others of its
/// kind, where the bytes hold it: 0 for a device, the configuration value
/// of a configuration, the number of an interface, the address of an
/// endpoint. The bytes of a string do not hold its index.
pub open spec fn index_in_bytes(bytes: Seq<u8>) -> Option<u8> {
    if bytes.len() < 2 {
        None
    } else if bytes[1] == DescriptorType::Device.code() {
        Some(0u8)
    } else if bytes[1] == DescriptorType::Configuration.code() && bytes.len() > 5 {
        Some(bytes[5])
    } else if bytes[1] == DescriptorType::Interface.code() && bytes.len() > 2 {
        Some(bytes[2])
    } else if bytes[1] == DescriptorType::Endpoint.code() && bytes.len() > 2 {
        Some(bytes[2])
    } else {
        None
    }
}

/// Whether some bytes are a descriptor that stands rightly under a lookup
/// value: their first byte is their number, their second byte is the high
/// byte of the value, and the number that they hold to tell them from
/// others of their kind, if they hold one, is its low byte.
pub open spec fn entry_matches(bytes: Seq<u8>, w_value: u16) -> bool {
    &&& bytes.len() >= 2
    &&& bytes[0] == bytes.len()
    &&& bytes[1] == w_value / 256
    &&& index_in_bytes(bytes) matches Some(index) ==> index == w_value % 256
}

/// What a descriptor is written out as stands rightly under the
/// descriptor's own lookup value.
pub proof fn lemma_encoded_matches(descriptor: AnyDescriptorView)
    requires
        descriptor.encoded() is Ok,
    ensures
        entry_matches(descriptor.encoded()->Ok_0, descriptor.w_value()),
{
    let bytes = descriptor.encoded()->Ok_0;
    match descriptor {
        AnyDescriptorView::Device(d) => {
            assert(bytes == d.layout());
        },
        AnyDescriptorView::Configuration(d) => {
            assert(bytes == d.layout(d.max_power.encoded()->Ok_0));
        },
        AnyDescriptorView::Interface(d) => {
            assert(bytes == d.layout());
        },
        AnyDescriptorView::Endpoint(d) => {
            assert(bytes == d.layout());
        },
        AnyDescriptorView::String(d) => {
            assert(bytes == seq![d.length() as u8, DescriptorType::String.code()]
                + d.string.bytes());
            assert(bytes[0] == d.length() as u8);
            assert(bytes[1] == DescriptorType::String.code());
        },
    }
}

/// The descriptors of a list written out, one after the other, or the
/// error of the first one that cannot be.
pub open spec fn encoded_all(descriptors: Seq<AnyDescriptorView>) -> Result<
    Seq<Seq<u8>>,
    EncodingError,
>
    decreases descriptors.len(),
{
    if descriptors.len() == 0 {
        Ok(Seq::empty())
    } else {
        match encoded_all(descriptors.drop_last()) {
            Err(e) => Err(e),
            Ok(written) => match descriptors.last().encoded() {
                Err(e) => Err(e),
                Ok(bytes) => Ok(written.push(bytes)),
            },
        }
    }
}

/// What `encoded_all` gives has one entry for each descriptor, which is
/// what that descriptor is written out as.
pub proof fn lemma_encoded_all(descriptors: Seq<AnyDescriptorView>)
    requires
        encoded_all(descriptors) is Ok,
    ensures
        encoded_all(descriptors)->Ok_0.len() == descriptors.len(),
        forall|i: int|
            0 <= i < descriptors.len() ==> (#[trigger] descriptors[i]).encoded() == Ok::<
                Seq<u8>,
                EncodingError,
            >(encoded_all(descriptors)->Ok_0[i]),
    decreases descriptors.len(),
{
    if descriptors.len() > 0 {
        lemma_encoded_all(descriptors.drop_last());
        let written = encoded_all(descriptors)->Ok_0;
        assert forall|i: int| 0 <= i < descriptors.len() implies (#[trigger] descriptors[i]).encoded()
            == Ok::<Seq<u8>, EncodingError>(written[i]) by {
            if i < descriptors.len() - 1 {
                assert(descriptors.drop_last()[i] == descriptors[i]);
            }
        }
    }
}

/// Every descriptor of a list can be written out.
pub open spec fn all_writable(descriptors: Seq<AnyDescriptorView>) -> bool {
    forall|k: int| 0 <= k < descriptors.len() ==> (#[trigger] descriptors[k]).encoded() is Ok
}

/// A list of descriptors can be written out where each of them can be.
pub proof fn lemma_all_writable(descriptors: Seq<AnyDescriptorView>)
    requires
        all_writable(descriptors),
    ensures
        encoded_all(descriptors) is Ok,
    decreases descriptors.len(),
{
    if descriptors.len() > 0 {
        assert forall|k: int| 0 <= k < descriptors.drop_last().len() implies (
        #[trigger] descriptors.drop_last()[k]).encoded() is Ok by {
            assert(descriptors.drop_last()[k] == descriptors[k]);
        }
        lemma_all_writable(descriptors.drop_last());
        assert(descriptors.last() == descriptors[descriptors.len() - 1]);
    }
}

/// The bytes that stand in a list of byte vectors.
pub open spec fn byte_views(descriptors: Seq<Vec<u8>>) -> Seq<Seq<u8>> {
    Seq::new(descriptors.len(), |i: int| descriptors[i]@)
}

/// Writes the descriptors of a list out, one after the other, and stops
/// at the first one that cannot be.
pub fn encode_all(descriptors: &Vec<AnyDescriptor>) -> (r: Result<Vec<Vec<u8>>, EncodingError>)
    ensures
        match encoded_all(descriptor_views(descriptors@)) {
            Ok(written) => r is Ok && byte_views(r->Ok_0@) == written,
            Err(e) => r is Err && r->Err_0 == e,
        },
{
    let ghost all = descriptor_views(descriptors@);
    let mut written = Vec::<Vec<u8>>::new();
    let mut i: usize = 0;
    assert(byte_views(written@) =~= Seq::empty());
    while i < descriptors.len()
        invariant
            i <= descriptors.len(),
            all == descriptor_views(descriptors@),
            encoded_all(all.take(i as int)) == Ok::<Seq<Seq<u8>>, EncodingError>(
                byte_views(written@),
            ),
        decreases descriptors.len() - i,
    {
        proof {
            assert(all.take(i + 1).drop_last() =~= all.take(i as int));
            assert(all.take(i + 1).last() == descriptors@[i as int]@);
        }
        match descriptors[i].encode() {
            Ok(bytes) => {
                let ghost before = byte_views(written@);
                written.push(bytes);
                assert(byte_views(written@) =~= before.push(bytes@));
            },
            Err(e) => {
                proof {
                    lemma_encoded_all_fails(all, i as int);
                }
                return Err(e);
            },
        }
        i = i + 1;
    }
    assert(all.take(i as int) =~= all);
    Ok(written)
}

/// Where the descriptors up to one can be written out and that one
/// cannot, its error is the error of the whole list.
pub proof fn lemma_encoded_all_fails(descriptors: Seq<AnyDescriptorView>, i: int)
    requires
        0 <= i < descriptors.len(),
        encoded_all(descriptors.take(i)) is Ok,
        descriptors[i].encoded() is Err,
    ensures
        encoded_all(descriptors) == Err::<Seq<Seq<u8>>, EncodingError>(
            descriptors[i].encoded()->Err_0,
        ),
    decreases descriptors.len(),
{
    if i == descriptors.len() - 1 {
        assert(descriptors.take(i) =~= descriptors.drop_last());
    } else {
        assert(descriptors.drop_last().take(i) =~= descriptors.take(i));
        lemma_encoded_all_fails(descriptors.drop_last(), i);
    }
}

/// The place of the first entry of a list that is a given value, or the
/// length of the list where none is.
pub open spec fn position(w_values: Seq<u16>, w_value: u16) -> int
    decreases w_values.len(),
{
    if w_values.len() == 0 {
        0
    } else if w_values[0] == w_value {
        0
    } else {
        1 + position(w_values.drop_first(), w_value)
    }
}

/// `position` is the one place before which the value does not stand and
/// at which it stands, or the length of the list.
pub proof fn lemma_position(w_values: Seq<u16>, w_value: u16, at: int)
    requires
        0 <= at <= w_values.len(),
        forall|j: int| 0 <= j < at ==> w_values[j] != w_value,
        at < w_values.len() ==> w_values[at] == w_value,
    ensures
        position(w_values, w_value) == at,
    decreases w_values.len(),
{
    if w_values.len() > 0 && at > 0 {
        assert(w_values[0] != w_value);
        let rest = w_values.drop_first();
        assert forall|j: int| 0 <= j < at - 1 implies rest[j] != w_value by {
            assert(rest[j] == w_values[j + 1]);
        }
        lemma_position(rest, w_value, at - 1);
    }
}

/// Finds the first place of a value in a list.
pub fn find(w_values: &Vec<u16>, w_value: u16) -> (at: usize)
    ensures
        at == position(w_values@, w_value),
        at <= w_values@.len(),
        at < w_values@.len() ==> w_values@[at as int] == w_value,
        forall|j: int| 0 <= j < at ==> w_values@[j] != w_value,
{
    let mut i: usize = 0;
    while i < w_values.len()
        invariant
            i <= w_values.len(),
            forall|j: int| 0 <= j < i ==> w_values@[j] != w_value,
        decreases w_values.len() - i,
    {
        if w_values[i] == w_value {
            proof {
                lemma_position(w_values@, w_value, i as int);
            }
            return i;
        }
        i = i + 1;
    }
    proof {
        lemma_position(w_values@, w_value, i as int);
    }
    i
}

/// Says whether no value stands twice in a list.
pub fn all_distinct(w_values: &Vec<u16>) -> (distinct: bool)
    ensures
        distinct == w_values@.no_duplicates(),
{
    let mut i: usize = 0;
    while i < w_values.len()
        invariant
            i <= w_values.len(),
            forall|a: int, b: int| 0 <= a < b < i ==> w_values@[a] != w_values@[b],
        decreases w_values.len() - i,
    {
        let mut j: usize = 0;
        while j < i
            invariant
                j <= i,
                i < w_values.len(),
                forall|a: int| 0 <= a < j ==> w_values@[a] != w_values@[i as int],
            decreases i - j,
        {
            if w_values[j] == w_values[i] {
                assert(!w_values@.no_duplicates());
                return false;
            }
            j = j + 1;
        }
        i = i + 1;
    }
    assert forall|a: int, b: int|
        0 <= a < w_values@.len() && 0 <= b < w_values@.len() && a != b implies w_values@[a]
        != w_values@[b] by {
        if a < b {
        } else {
            assert(w_values@[b] != w_values@[a]);
        }
    }
    true
}

} // verus!
