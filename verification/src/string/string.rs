use vstd::prelude::*;
use vstd::string::StringExecFns;
use crate::string::language_code::LanguageCode;
use crate::string::string_content::{StringContent, StringContentView};
use crate::string::string_descriptor::{StringDescriptor, StringDescriptorView};

verus! {

/// A string under the field name of its descriptor.
#[derive(Debug, PartialEq, Eq)]
pub struct String {
    pub b_string: StringContent,
}

impl View for String {
    type V = StringContentView;

    open spec fn view(&self) -> StringContentView {
        self.b_string@
    }
}

impl Clone for String {
    fn clone(&self) -> (copy: Self)
        ensures
            copy@ == self@,
    {
        String { b_string: self.b_string.clone() }
    }
}

impl String {
    pub fn text(string: &str) -> (made: String)
        ensures
            made@ == StringContentView::Text(string@),
    {
        String { b_string: StringContent::Text(std::string::String::from_str(string)) }
    }

    pub fn languages(languages: Vec<LanguageCode>) -> (made: String)
        ensures
            made@ == StringContentView::Languages(languages@),
    {
        String { b_string: StringContent::Languages(languages) }
    }

    /// Makes the string's descriptor under the given index.
    pub fn build(&self, index: u8) -> (descriptor: StringDescriptor)
        ensures
            descriptor@ == (StringDescriptorView { index, string: self@ }),
    {
        StringDescriptor { index, string: self.b_string.clone() }
    }
}

} // verus!
