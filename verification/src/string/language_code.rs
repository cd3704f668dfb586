use vstd::prelude::*;
use crate::binary::{le_bytes_u16, spec_le_bytes_u16, EncodeBytes};
use crate::error::RangeError;
use vstd::string::StringExecFns;

verus! {

/// A language identifier as it stands in the list of string descriptor 0.
#[derive(Debug, Clone, Copy, PartialEq, Eq, Structural)]
pub struct LanguageCode(pub u16);

/// English, United States.
pub fn en_us() -> (code: LanguageCode)
    ensures
        code == LanguageCode(0x0409),
{
    LanguageCode(0x0409)
}

/// German, Germany.
pub fn de_de() -> (code: LanguageCode)
    ensures
        code == LanguageCode(0x0407),
{
    LanguageCode(0x0407)
}

/// The character that stands for a value below 16 in hexadecimal
/// notation, with capital letters.
pub open spec fn hex_char(nibble: int) -> char {
    if nibble == 0 {
        '0'
    } else if nibble == 1 {
        '1'
    } else if nibble == 2 {
        '2'
    } else if nibble == 3 {
        '3'
    } else if nibble == 4 {
        '4'
    } else if nibble == 5 {
        '5'
    } else if nibble == 6 {
        '6'
    } else if nibble == 7 {
        '7'
    } else if nibble == 8 {
        '8'
    } else if nibble == 9 {
        '9'
    } else if nibble == 10 {
        'A'
    } else if nibble == 11 {
        'B'
    } else if nibble == 12 {
        'C'
    } else if nibble == 13 {
        'D'
    } else if nibble == 14 {
        'E'
    } else {
        'F'
    }
}

/// A 16-bit value in the notation `0x0409`: four hexadecimal digits after
/// `0x`, with capital letters.
pub open spec fn hex_text(value: u16) -> Seq<char> {
    seq![
        '0',
        'x',
        hex_char(value as int / 4096),
        hex_char(value as int / 256 % 16),
        hex_char(value as int / 16 % 16),
        hex_char(value as int % 16),
    ]
}

fn hex_digit(nibble: u16) -> (digit: &'static str)
    requires
        nibble < 16,
    ensures
        digit@ == seq![hex_char(nibble as int)],
{
    proof {
        reveal_strlit("0");
        reveal_strlit("1");
        reveal_strlit("2");
        reveal_strlit("3");
        reveal_strlit("4");
        reveal_strlit("5");
        reveal_strlit("6");
        reveal_strlit("7");
        reveal_strlit("8");
        reveal_strlit("9");
        reveal_strlit("A");
        reveal_strlit("B");
        reveal_strlit("C");
        reveal_strlit("D");
        reveal_strlit("E");
        reveal_strlit("F");
    }
    let digit = match nibble {
        0 => "0",
        1 => "1",
        2 => "2",
        3 => "3",
        4 => "4",
        5 => "5",
        6 => "6",
        7 => "7",
        8 => "8",
        9 => "9",
        10 => "A",
        11 => "B",
        12 => "C",
        13 => "D",
        14 => "E",
        _ => "F",
    };
    assert(digit@ =~= seq![hex_char(nibble as int)]);
    digit
}

impl LanguageCode {
    /// The code in the notation `0x0409`.
    pub fn to_string(&self) -> (text: String)
        ensures
            text@ == hex_text(self.0),
    {
        proof {
            reveal_strlit("0x");
        }
        let mut text = String::from_str("0x");
        text.append(hex_digit(self.0 / 4096));
        text.append(hex_digit(self.0 / 256 % 16));
        text.append(hex_digit(self.0 / 16 % 16));
        text.append(hex_digit(self.0 % 16));
        assert(text@ =~= hex_text(self.0));
        text
    }
}

impl EncodeBytes for LanguageCode {
    open spec fn encoded(&self) -> Result<Seq<u8>, RangeError> {
        Ok(spec_le_bytes_u16(self.0))
    }

    fn encode(&self) -> (r: Result<Vec<u8>, RangeError>) {
        let mut bytes = Vec::<u8>::new();
        let pair = le_bytes_u16(self.0);
        bytes.push(pair.0);
        bytes.push(pair.1);
        assert(bytes@ =~= self.encoded()->Ok_0);
        Ok(bytes)
    }
}

} // verus!
