use vstd::prelude::*;
use crate::binary::EncodeByte;
use crate::error::{LookupError, RangeError};
use vstd::string::StringExecFns;

verus! {

#[derive(Debug, Copy, Clone, PartialEq, Eq, Structural)]
pub enum DescriptorType {
    Device,
    Configuration,
    String,
    Interface,
    Endpoint,
    Hid,
    Report,
}

impl DescriptorType {
    /// The type that a code stands for, if it stands for one.
    pub open spec fn of_code(code: u8) -> Option<DescriptorType> {
        if code == 0x01 {
            Some(DescriptorType::Device)
        } else if code == 0x02 {
            Some(DescriptorType::Configuration)
        } else if code == 0x03 {
            Some(DescriptorType::String)
        } else if code == 0x04 {
            Some(DescriptorType::Interface)
        } else if code == 0x05 {
            Some(DescriptorType::Endpoint)
        } else if code == 0x21 {
            Some(DescriptorType::Hid)
        } else if code == 0x22 {
            Some(DescriptorType::Report)
        } else {
            None
        }
    }

    /// The type that a lookup value names: the one whose code is the high
    /// byte of the value, whatever the low byte is.
    pub open spec fn of_value(value: u16) -> Option<DescriptorType> {
        Self::of_code((value / 256) as u8)
    }

    /// Reads the descriptor type from a lookup value.
    pub fn from_value(value: u16) -> (r: Result<DescriptorType, LookupError>)
        ensures
            r is Ok <==> Self::of_value(value) is Some,
            r is Ok ==> r->Ok_0 == Self::of_value(value)->Some_0,
            r is Ok ==> r->Ok_0.code() == value / 256,
            r is Err ==> r->Err_0 == LookupError::NotFound,
    {
        let code: u16 = value / 256;
        match code {
            0x01 => Ok(DescriptorType::Device),
            0x02 => Ok(DescriptorType::Configuration),
            0x03 => Ok(DescriptorType::String),
            0x04 => Ok(DescriptorType::Interface),
            0x05 => Ok(DescriptorType::Endpoint),
            0x21 => Ok(DescriptorType::Hid),
            0x22 => Ok(DescriptorType::Report),
            _ => Err(LookupError::NotFound),
        }
    }

    /// The name of the type.
    pub open spec fn name(self) -> Seq<char> {
        match self {
            DescriptorType::Device => "Device"@,
            DescriptorType::Configuration => "Configuration"@,
            DescriptorType::String => "String"@,
            DescriptorType::Interface => "Interface"@,
            DescriptorType::Endpoint => "Endpoint"@,
            DescriptorType::Hid => "Hid"@,
            DescriptorType::Report => "Report"@,
        }
    }

    /// The name of the type as a string.
    pub fn to_string(&self) -> (text: String)
        ensures
            text@ == self.name(),
    {
        match self {
            DescriptorType::Device => String::from_str("Device"),
            DescriptorType::Configuration => String::from_str("Configuration"),
            DescriptorType::String => String::from_str("String"),
            DescriptorType::Interface => String::from_str("Interface"),
            DescriptorType::Endpoint => String::from_str("Endpoint"),
            DescriptorType::Hid => String::from_str("Hid"),
            DescriptorType::Report => String::from_str("Report"),
        }
    }

    /// The code that stands for the type in a descriptor's second byte.
    pub open spec fn code(self) -> u8 {
        match self {
            DescriptorType::Device => 0x01,
            DescriptorType::Configuration => 0x02,
            DescriptorType::String => 0x03,
            DescriptorType::Interface => 0x04,
            DescriptorType::Endpoint => 0x05,
            DescriptorType::Hid => 0x21,
            DescriptorType::Report => 0x22,
        }
    }
}

impl EncodeByte for DescriptorType {
    open spec fn encoded(&self) -> Result<u8, RangeError> {
        Ok(self.code())
    }

    fn encode(&self) -> (r: Result<u8, RangeError>) {
        match self {
            DescriptorType::Device => Ok(0x01),
            DescriptorType::Configuration => Ok(0x02),
            DescriptorType::String => Ok(0x03),
            DescriptorType::Interface => Ok(0x04),
            DescriptorType::Endpoint => Ok(0x05),
            DescriptorType::Hid => Ok(0x21),
            DescriptorType::Report => Ok(0x22),
        }
    }
}

} // verus!
