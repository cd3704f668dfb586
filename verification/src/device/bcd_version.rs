use vstd::prelude::*;
use crate::binary::EncodeBytes;
use crate::error::RangeError;
use crate::version::Version;

verus! {

/// A two-part version number under the name that device nodes use for it.
#[derive(Debug, Clone, Copy, PartialEq, Eq, Structural)]
pub struct BcdVersion {
    pub major: u8,
    pub minor: u8,
}

impl BcdVersion {
    /// The same number as a `Version`.
    pub open spec fn version(self) -> Version {
        Version { major: self.major, minor: self.minor }
    }

    /// The number as a `Version`.
    pub fn to_version(&self) -> (version: Version)
        ensures
            version == self.version(),
    {
        Version { major: self.major, minor: self.minor }
    }
}

impl EncodeBytes for BcdVersion {
    /// The minor part, then the major part.
    open spec fn encoded(&self) -> Result<Seq<u8>, RangeError> {
        Ok(seq![self.minor, self.major])
    }

    fn encode(&self) -> (r: Result<Vec<u8>, RangeError>) {
        let mut bytes = Vec::<u8>::new();
        bytes.push(self.minor);
        bytes.push(self.major);
        assert(bytes@ =~= self.encoded()->Ok_0);
        Ok(bytes)
    }
}

pub fn us1_0() -> (v: BcdVersion)
    ensures
        v == (BcdVersion { major: 1, minor: 0 }),
{
    BcdVersion { major: 0x01, minor: 0x00 }
}

pub fn us1_1() -> (v: BcdVersion)
    ensures
        v == (BcdVersion { major: 1, minor: 1 }),
{
    BcdVersion { major: 0x01, minor: 0x01 }
}

pub fn us2_0() -> (v: BcdVersion)
    ensures
        v == (BcdVersion { major: 2, minor: 0 }),
{
    BcdVersion { major: 0x02, minor: 0x00 }
}

pub fn us2_1() -> (v: BcdVersion)
    ensures
        v == (BcdVersion { major: 2, minor: 1 }),
{
    BcdVersion { major: 0x02, minor: 0x01 }
}

pub fn us3_0() -> (v: BcdVersion)
    ensures
        v == (BcdVersion { major: 3, minor: 0 }),
{
    BcdVersion { major: 0x03, minor: 0x00 }
}

pub fn us3_1() -> (v: BcdVersion)
    ensures
        v == (BcdVersion { major: 3, minor: 1 }),
{
    BcdVersion { major: 0x03, minor: 0x01 }
}

pub fn us3_2() -> (v: BcdVersion)
    ensures
        v == (BcdVersion { major: 3, minor: 2 }),
{
    BcdVersion { major: 0x03, minor: 0x02 }
}

} // verus!
