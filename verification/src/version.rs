use vstd::prelude::*;
use crate::binary::EncodeBytes;
use crate::error::RangeError;

verus! {

/// A two-part version number, as in `bcdUSB`.
#[derive(Debug, Clone, Copy, PartialEq, Eq, Structural)]
pub struct Version {
    pub major: u8,
    pub minor: u8,
}

impl EncodeBytes for Version {
    /// The minor part, then the major part.
    open spec fn encoded(&self) -> Result<Seq<u8>, RangeError> {
        Ok(seq![self.minor, self.major])
    }

    fn encode(&self) -> (r: Result<Vec<u8>, RangeError>) {
        let mut bytes = Vec::<u8>::new();
        bytes.push(self.minor);
        bytes.push(self.major);
        assert(bytes@ =~= self.encoded()->Ok_0);
        Ok(bytes)
    }
}

pub fn usb1_0() -> (v: Version)
    ensures
        v == (Version { major: 1, minor: 0 }),
{
    Version { major: 0x01, minor: 0x00 }
}

pub fn usb1_1() -> (v: Version)
    ensures
        v == (Version { major: 1, minor: 1 }),
{
    Version { major: 0x01, minor: 0x01 }
}

pub fn usb2_0() -> (v: Version)
    ensures
        v == (Version { major: 2, minor: 0 }),
{
    Version { major: 0x02, minor: 0x00 }
}

pub fn usb2_1() -> (v: Version)
    ensures
        v == (Version { major: 2, minor: 1 }),
{
    Version { major: 0x02, minor: 0x01 }
}

pub fn usb3_0() -> (v: Version)
    ensures
        v == (Version { major: 3, minor: 0 }),
{
    Version { major: 0x03, minor: 0x00 }
}

pub fn usb3_1() -> (v: Version)
    ensures
        v == (Version { major: 3, minor: 1 }),
{
    Version { major: 0x03, minor: 0x01 }
}

pub fn usb3_2() -> (v: Version)
    ensures
        v == (Version { major: 3, minor: 2 }),
{
    Version { major: 0x03, minor: 0x02 }
}

} // verus!
