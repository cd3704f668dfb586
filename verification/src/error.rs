use vstd::prelude::*;

verus! {

/// A class code was combined with a subclass and protocol that the class
/// does not define.
#[derive(Debug, Clone, Copy, PartialEq, Eq, Structural)]
pub enum ValidationError {
    IncompatibleSubclassProtocol,
}

impl ValidationError {
    /// The text that describes the error.
    pub open spec fn text(self) -> Seq<char> {
        "The base class is not compatible with the subclass and protocol."@
    }

    /// The text that describes the error.
    pub fn message(&self) -> (text: &'static str)
        ensures
            text@ == self.text(),
    {
        "The base class is not compatible with the subclass and protocol."
    }
}

/// A number is larger than the field that has to carry it allows.
#[derive(Debug, Clone, Copy, PartialEq, Eq, Structural)]
pub enum RangeError {
    /// More than 500 mA were asked for.
    Milliamperes,
    /// An endpoint's packet size is above 255.
    MaxPacketSize,
    /// A count, an index or a total length does not fit its field.
    Count,
}

impl RangeError {
    /// The text that describes the error.
    pub open spec fn text(self) -> Seq<char> {
        match self {
            RangeError::Milliamperes => "Milliamperes cannot be greater than 500."@,
            RangeError::MaxPacketSize => "max_packet_size must be less than or equal to 255."@,
            RangeError::Count => "The value does not fit into its field."@,
        }
    }

    /// The text that describes the error.
    pub fn message(&self) -> (text: &'static str)
        ensures
            text@ == self.text(),
    {
        match self {
            RangeError::Milliamperes => "Milliamperes cannot be greater than 500.",
            RangeError::MaxPacketSize => "max_packet_size must be less than or equal to 255.",
            RangeError::Count => "The value does not fit into its field.",
        }
    }
}

/// Why a descriptor could not be written out.
#[derive(Debug, Clone, Copy, PartialEq, Eq, Structural)]
pub enum EncodingError {
    /// The bytes written are not as many as the descriptor's first byte says.
    LengthMismatch,
    /// The descriptor's class does not define its subclass and protocol.
    Validation(ValidationError),
    /// A field of the descriptor is out of its range.
    Range(RangeError),
}

impl EncodingError {
    /// The text that describes the error.
    pub open spec fn text(self) -> Seq<char> {
        match self {
            EncodingError::LengthMismatch => "bLength does not match the actual length"@,
            EncodingError::Validation(e) => e.text(),
            EncodingError::Range(e) => e.text(),
        }
    }

    /// The text that describes the error.
    pub fn message(&self) -> (text: &'static str)
        ensures
            text@ == self.text(),
    {
        match self {
            EncodingError::LengthMismatch => "bLength does not match the actual length",
            EncodingError::Validation(e) => e.message(),
            EncodingError::Range(e) => e.message(),
        }
    }
}

/// Why a tree of descriptors could not be compiled.
#[derive(Debug, Clone, Copy, PartialEq, Eq, Structural)]
pub enum CompileError {
    /// A configuration without interfaces, an interface without endpoints,
    /// or a language list without languages.
    EmptyRequiredCollection,
    /// Two descriptors ended up under one lookup value.
    DuplicateKey,
    /// A class does not define the subclass and protocol given with it.
    Validation(ValidationError),
    /// A value of the tree, or a number derived from it, is out of range.
    Range(RangeError),
    /// A compiled descriptor could not be written out.
    Encoding(EncodingError),
}

impl CompileError {
    /// The text that describes the error.
    pub open spec fn text(self) -> Seq<char> {
        match self {
            CompileError::EmptyRequiredCollection => "At least one language, one interface in each configuration and one endpoint in each interface are required."@,
            CompileError::DuplicateKey => "Two descriptors have the same wValue."@,
            CompileError::Validation(e) => e.text(),
            CompileError::Range(e) => e.text(),
            CompileError::Encoding(e) => e.text(),
        }
    }

    /// The text that describes the error.
    pub fn message(&self) -> (text: &'static str)
        ensures
            text@ == self.text(),
    {
        match self {
            CompileError::EmptyRequiredCollection => "At least one language, one interface in each configuration and one endpoint in each interface are required.",
            CompileError::DuplicateKey => "Two descriptors have the same wValue.",
            CompileError::Validation(e) => e.message(),
            CompileError::Range(e) => e.message(),
            CompileError::Encoding(e) => e.message(),
        }
    }
}

/// Why a lookup in a set of compiled descriptors gave nothing.
#[derive(Debug, Clone, Copy, PartialEq, Eq, Structural)]
pub enum LookupError {
    NotFound,
}

impl LookupError {
    /// The text that describes the error.
    pub open spec fn text(self) -> Seq<char> {
        "Descriptor not found"@
    }

    /// The text that describes the error.
    pub fn message(&self) -> (text: &'static str)
        ensures
            text@ == self.text(),
    {
        "Descriptor not found"
    }
}

} // verus!
