use vstd::prelude::*;
use vstd::string::StringExecFns;
use crate::string::language_code::{hex_text, LanguageCode};
use crate::string::string_content::{StringContent, StringContentView};
use crate::string::string_descriptor::{StringDescriptor, StringDescriptorView};

verus! {

/// A string as the author of a device writes it down.
#[derive(Debug, PartialEq, Eq)]
pub struct StringBuidler {
    /// Turn into `bString`
    pub string: StringContent,
}

impl View for StringBuidler {
    type V = StringContentView;

    open spec fn view(&self) -> StringContentView {
        self.string@
    }
}

impl Clone for StringBuidler {
    fn clone(&self) -> (copy: Self)
        ensures
            copy@ == self@,
    {
        StringBuidler { string: self.string.clone() }
    }
}

/// The languages of a list as they are shown: each in the notation
/// `0x0409`, each followed by a comma and a blank.
pub open spec fn languages_text(codes: Seq<LanguageCode>) -> Seq<char>
    decreases codes.len(),
{
    if codes.len() == 0 {
        Seq::<char>::empty()
    } else {
        languages_text(codes.drop_last()) + hex_text(codes.last().0) + seq![',', ' ']
    }
}

/// A content as it is shown: a text after `Text: `, a list of languages
/// between `Languages: [` and `]`.
pub open spec fn content_text(content: StringContentView) -> Seq<char> {
    match content {
        StringContentView::Languages(codes) => "Languages: ["@ + languages_text(codes) + "]"@,
        StringContentView::Text(text) => "Text: "@ + text,
    }
}

impl StringBuidler {
    pub fn text(string: &str) -> (builder: StringBuidler)
        ensures
            builder@ == StringContentView::Text(string@),
    {
        StringBuidler { string: StringContent::Text(String::from_str(string)) }
    }

    pub fn languages(languages: Vec<LanguageCode>) -> (builder: StringBuidler)
        ensures
            builder@ == StringContentView::Languages(languages@),
    {
        StringBuidler { string: StringContent::Languages(languages) }
    }

    /// Makes the string's descriptor under the given index.
    pub fn build(&self, index: u8) -> (descriptor: StringDescriptor)
        ensures
            descriptor@ == (StringDescriptorView { index, string: self@ }),
    {
        StringDescriptor { index, string: self.string.clone() }
    }

    /// The string as it is shown to a reader.
    pub fn to_string(&self) -> (text: String)
        ensures
            text@ == content_text(self@),
    {
        match &self.string {
            StringContent::Languages(languages) => {
                let mut text = String::from_str("Languages: [");
                let ghost head = text@;
                let mut i: usize = 0;
                while i < languages.len()
                    invariant
                        i <= languages.len(),
                        text@ == head + languages_text(languages@.take(i as int)),
                    decreases languages.len() - i,
                {
                    proof {
                        reveal_strlit(", ");
                        assert(languages@.take(i + 1).drop_last() =~= languages@.take(i as int));
                    }
                    let code = languages[i].to_string();
                    text.append(code.as_str());
                    text.append(", ");
                    i = i + 1;
                    assert(text@ =~= head + languages_text(languages@.take(i as int)));
                }
                assert(languages@.take(i as int) =~= languages@);
                text.append("]");
                text
            },
            StringContent::Text(string) => {
                let mut text = String::from_str("Text: ");
                text.append(string.as_str());
                text
            },
        }
    }
}

} // verus!
