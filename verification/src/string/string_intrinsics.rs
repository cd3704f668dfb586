use vstd::prelude::*;
use vstd::string::StringExecFns;
use crate::string::language_code::LanguageCode;
use crate::string::string_content::{StringContent, StringContentView};
use crate::string::string_descriptor::{StringDescriptor, StringDescriptorView};

verus! {

/// A string as it stands in a tree of nodes.
#[derive(Debug, PartialEq, Eq)]
pub struct StringIntrinsics {
    /// Turn into `bString`
    pub string: StringContent,
}

impl View for StringIntrinsics {
    type V = StringContentView;

    open spec fn view(&self) -> StringContentView {
        self.string@
    }
}

impl Clone for StringIntrinsics {
    fn clone(&self) -> (copy: Self)
        ensures
            copy@ == self@,
    {
        StringIntrinsics { string: self.string.clone() }
    }
}

impl StringIntrinsics {
    pub fn text(string: &str) -> (node: StringIntrinsics)
        ensures
            node@ == StringContentView::Text(string@),
    {
        StringIntrinsics { string: StringContent::Text(String::from_str(string)) }
    }

    pub fn languages(languages: Vec<LanguageCode>) -> (node: StringIntrinsics)
        ensures
            node@ == StringContentView::Languages(languages@),
    {
        StringIntrinsics { string: StringContent::Languages(languages) }
    }

    /// Makes the string's descriptor under the given index.
    pub fn build(&self, index: u8) -> (descriptor: StringDescriptor)
        ensures
            descriptor@ == (StringDescriptorView { index, string: self@ }),
    {
        StringDescriptor { index, string: self.string.clone() }
    }
}

} // verus!
