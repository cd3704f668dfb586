use vstd::prelude::*;
use crate::error::ValidationError;

verus! {

/// The subclass and protocol pairs of the diagnostic class (0xDC), which
/// devices and interfaces share.
pub open spec fn diagnostic_pair(subclass: u8, protocol: u8) -> bool {
    ||| subclass == 0x01 && protocol == 0x01
    ||| 0x02 <= subclass <= 0x07 && protocol <= 0x01
    ||| subclass == 0x08 && protocol == 0x00
}

/// The subclass and protocol pairs of the miscellaneous class (0xEF),
/// which devices and interfaces share.
pub open spec fn miscellaneous_pair(subclass: u8, protocol: u8) -> bool {
    ||| (subclass == 0x01 || subclass == 0x02 || subclass == 0x06) && (protocol == 0x01 || protocol
        == 0x02)
    ||| subclass == 0x03 && protocol == 0x01
    ||| subclass == 0x04 && 0x01 <= protocol <= 0x07
    ||| (subclass == 0x05 || subclass == 0x07) && protocol <= 0x02
}

/// What a class table answers: nothing for a pair that the class defines,
/// the one validation error for any other.
pub open spec fn verdict(accepted: bool) -> Result<(), ValidationError> {
    if accepted {
        Ok(())
    } else {
        Err(ValidationError::IncompatibleSubclassProtocol)
    }
}

/// Looks a pair up among those of the diagnostic class.
pub fn validate_diagnostic(subclass: u8, protocol: u8) -> (r: Result<(), ValidationError>)
    ensures
        r == verdict(diagnostic_pair(subclass, protocol)),
{
    let error: Result<(), ValidationError> = Err(ValidationError::IncompatibleSubclassProtocol);
    match subclass {
        0x01 => match protocol {
            0x01 => Ok(()),
            _ => error,
        },
        0x02 | 0x03 | 0x04 | 0x05 | 0x06 | 0x07 => match protocol {
            0x00 | 0x01 => Ok(()),
            _ => error,
        },
        0x08 => match protocol {
            0x00 => Ok(()),
            _ => error,
        },
        _ => error,
    }
}

/// Looks a pair up among those of the miscellaneous class.
pub fn validate_miscellaneous(subclass: u8, protocol: u8) -> (r: Result<(), ValidationError>)
    ensures
        r == verdict(miscellaneous_pair(subclass, protocol)),
{
    let error: Result<(), ValidationError> = Err(ValidationError::IncompatibleSubclassProtocol);
    match subclass {
        0x01 | 0x02 | 0x06 => match protocol {
            0x01 | 0x02 => Ok(()),
            _ => error,
        },
        0x03 => match protocol {
            0x01 => Ok(()),
            _ => error,
        },
        0x04 => match protocol {
            0x01 | 0x02 | 0x03 | 0x04 | 0x05 | 0x06 | 0x07 => Ok(()),
            _ => error,
        },
        0x05 | 0x07 => match protocol {
            0x00 | 0x01 | 0x02 => Ok(()),
            _ => error,
        },
        _ => error,
    }
}

} // verus!
