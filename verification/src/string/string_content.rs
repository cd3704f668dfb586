use vstd::prelude::*;
use crate::binary::{le_bytes, spec_le_bytes, EncodeBytes};
use crate::error::RangeError;
use crate::string::language_code::LanguageCode;
use crate::string::utf16::{encode_utf16, utf16_units};

verus! {

/// What a string descriptor carries: the list of languages that the
/// device has strings in, or one text.
#[derive(Debug, PartialEq, Eq)]
pub enum StringContent {
    Languages(Vec<LanguageCode>),
    Text(String),
}

/// A `StringContent` as a mathematical value.
pub enum StringContentView {
    Languages(Seq<LanguageCode>),
    Text(Seq<char>),
}

impl StringContentView {
    /// The 16-bit values that the content is made of: the language codes,
    /// or the text in UTF-16.
    pub open spec fn units(self) -> Seq<u16> {
        match self {
            StringContentView::Languages(codes) => Seq::new(codes.len(), |i: int| codes[i].0),
            StringContentView::Text(text) => utf16_units(text),
        }
    }

    /// The content as bytes, each 16-bit value low byte first.
    pub open spec fn bytes(self) -> Seq<u8> {
        spec_le_bytes(self.units())
    }

    /// Whether this is a list of at least one language.
    pub open spec fn is_language_list(self) -> bool {
        self matches StringContentView::Languages(codes) && codes.len() > 0
    }
}

impl View for StringContent {
    type V = StringContentView;

    open spec fn view(&self) -> StringContentView {
        match self {
            StringContent::Languages(codes) => StringContentView::Languages(codes@),
            StringContent::Text(text) => StringContentView::Text(text@),
        }
    }
}

impl StringContent {
    /// The 16-bit values that the content is made of.
    pub fn units(&self) -> (units: Vec<u16>)
        ensures
            units@ == self@.units(),
    {
        match self {
            StringContent::Languages(codes) => {
                let mut units = Vec::<u16>::new();
                let mut i: usize = 0;
                while i < codes.len()
                    invariant
                        i <= codes.len(),
                        units@ == Seq::new(i as nat, |k: int| codes@[k].0),
                    decreases codes.len() - i,
                {
                    units.push(codes[i].0);
                    i = i + 1;
                    assert(units@ =~= Seq::new(i as nat, |k: int| codes@[k].0));
                }
                units
            },
            StringContent::Text(text) => encode_utf16(text.as_str()),
        }
    }

    /// The number of bytes that the content takes, where one byte can hold
    /// that number.
    pub fn len(&self) -> (r: Result<u8, RangeError>)
        ensures
            r == (if 2 * self@.units().len() <= 255 {
                Ok::<u8, RangeError>((2 * self@.units().len()) as u8)
            } else {
                Err::<u8, RangeError>(RangeError::Count)
            }),
    {
        let units = self.units();
        if units.len() <= 127 {
            Ok((2 * units.len()) as u8)
        } else {
            Err(RangeError::Count)
        }
    }
}

impl Clone for StringContent {
    fn clone(&self) -> (copy: Self)
        ensures
            copy@ == self@,
    {
        match self {
            StringContent::Languages(codes) => {
                let mut copied = Vec::<LanguageCode>::new();
                let mut i: usize = 0;
                while i < codes.len()
                    invariant
                        i <= codes.len(),
                        copied@ == codes@.take(i as int),
                    decreases codes.len() - i,
                {
                    copied.push(codes[i]);
                    i = i + 1;
                    assert(copied@ =~= codes@.take(i as int));
                }
                assert(codes@.take(i as int) =~= codes@);
                StringContent::Languages(copied)
            },
            StringContent::Text(text) => StringContent::Text(text.clone()),
        }
    }
}

impl EncodeBytes for StringContent {
    open spec fn encoded(&self) -> Result<Seq<u8>, RangeError> {
        Ok(self@.bytes())
    }

    fn encode(&self) -> (r: Result<Vec<u8>, RangeError>) {
        let units = self.units();
        Ok(le_bytes(&units))
    }
}

} // verus!
