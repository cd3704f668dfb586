use vstd::prelude::*;
use crate::descriptor_type::DescriptorType;
use crate::error::{RangeError, ValidationError};

verus! {

/// The lookup value of a descriptor: the code of its type in the high
/// byte, a number that tells it from others of that type in the low byte.
pub open spec fn w_value_of(descriptor_type: DescriptorType, value: u8) -> u16 {
    (descriptor_type.code() * 256 + value) as u16
}

/// Puts the code of a descriptor type and a number together into a lookup
/// value.
pub fn encode_w_value(descriptor_type: &DescriptorType, value: u8) -> (r: Result<u16, RangeError>)
    ensures
        r == Ok::<u16, RangeError>(w_value_of(*descriptor_type, value)),
        r->Ok_0 / 256 == descriptor_type.code(),
        r->Ok_0 % 256 == value,
{
    let code: u8 = match descriptor_type.encode() {
        Ok(code) => code,
        Err(e) => return Err(e),
    };
    proof {
        lemma_w_value_bits(code, value);
    }
    Ok((code as u16) << 8 | (value as u16))
}

/// The high byte of `w_value_of` is the type's code shifted up by eight
/// bits, the low byte is the number.
pub proof fn lemma_w_value_bits(code: u8, value: u8)
    ensures
        (code * 256 + value) as u16 == ((code as u16) << 8) | (value as u16),
        (((code as u16) << 8) | (value as u16)) >> 8 == code as u16,
        (((code as u16) << 8) | (value as u16)) & 0xFF == value as u16,
{
    let c: u16 = code as u16;
    let v: u16 = value as u16;
    assert((c * 256 + v) as u16 == (c << 8) | v && ((c << 8) | v) >> 8 == c && ((c << 8) | v) & 0xFF
        == v) by (bit_vector)
        requires
            c < 256,
            v < 256,
    ;
}

/// A sequence of 16-bit values as bytes, each value low byte first.
pub open spec fn spec_le_bytes(units: Seq<u16>) -> Seq<u8> {
    Seq::new(
        2 * units.len(),
        |i: int|
            if i % 2 == 0 {
                (units[i / 2] % 256) as u8
            } else {
                (units[i / 2] / 256) as u8
            },
    )
}

/// Writes 16-bit values out as bytes, each value low byte first.
pub fn le_bytes(units: &Vec<u16>) -> (bytes: Vec<u8>)
    ensures
        bytes@ == spec_le_bytes(units@),
{
    let mut bytes = Vec::<u8>::new();
    let mut i: usize = 0;
    while i < units.len()
        invariant
            i <= units.len(),
            bytes@ == spec_le_bytes(units@.take(i as int)),
        decreases units.len() - i,
    {
        let pair = le_bytes_u16(units[i]);
        bytes.push(pair.0);
        bytes.push(pair.1);
        i = i + 1;
        assert(bytes@ =~= spec_le_bytes(units@.take(i as int)));
    }
    assert(units@.take(i as int) =~= units@);
    bytes
}

/// A 16-bit value as two bytes, the low one first.
pub open spec fn spec_le_bytes_u16(value: u16) -> Seq<u8> {
    seq![(value % 256) as u8, (value / 256) as u8]
}

/// Splits a 16-bit value into its low and its high byte.
pub fn le_bytes_u16(value: u16) -> (pair: (u8, u8))
    ensures
        pair.0 == value % 256,
        pair.1 == value / 256,
        seq![pair.0, pair.1] == spec_le_bytes_u16(value),
{
    ((value % 256) as u8, (value / 256) as u8)
}

/// A value that is written as several bytes.
pub trait EncodeBytes {
    /// The bytes that stand for the value.
    spec fn encoded(&self) -> Result<Seq<u8>, RangeError>;

    fn encode(&self) -> (r: Result<Vec<u8>, RangeError>)
        ensures
            r is Ok == self.encoded() is Ok,
            r is Ok ==> r->Ok_0@ == self.encoded()->Ok_0,
            r is Err ==> r->Err_0 == self.encoded()->Err_0,
    ;

    /// Says whether the value may be written out. A value is accepted
    /// unless its type says otherwise.
    fn validate(&self) -> (r: Result<(), ValidationError>) {
        Ok(())
    }
}

/// A value that is written as one byte.
pub trait EncodeByte {
    /// The byte that stands for the value, or why there is none.
    spec fn encoded(&self) -> Result<u8, RangeError>;

    fn encode(&self) -> (r: Result<u8, RangeError>)
        ensures
            r == self.encoded(),
    ;
}

} // verus!
