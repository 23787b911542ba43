//! The errors that the library decides on, and the text each is answered with.

use vstd::prelude::*;
use crate::hexcodec::HexDecodeError;

verus! {

/// Why a request was refused.
#[derive(Debug, Clone, PartialEq, Eq)]
pub enum SignalError {
    /// The recipient of a text message is not a service id.
    InvalidRecipientServiceId(String),
    /// The recipient of a reaction is not a service id.
    InvalidRecipient(String),
    /// The group key given for a group message is not valid hex.
    InvalidHexGroupKey(HexDecodeError),
    /// No device linking was started for this data path, or it was already finished.
    NoActiveLinkingSession,
    /// Registration as a primary device is not offered; linking as a secondary device is.
    RegistrationUnsupported,
}

/// The text of a character as Rust's `Debug` writes it: quoted, with escapes.
pub uninterp spec fn char_debug_text(c: char) -> Seq<char>;

/// The decimal digits of `n`, without leading zeros.
pub open spec fn decimal_text(n: nat) -> Seq<char>
    decreases n,
{
    if n < 10 {
        seq![(48 + n) as char]
    } else {
        decimal_text(n / 10).push((48 + n % 10) as char)
    }
}

/// The text that a hex decoding error is described with.
pub open spec fn hex_error_text(e: HexDecodeError) -> Seq<char> {
    match e {
        HexDecodeError::InvalidHexCharacter { c, index } => "Invalid character "@ + char_debug_text(c)
            + " at position "@ + decimal_text(index as nat),
        HexDecodeError::OddLength => "Odd number of digits"@,
        HexDecodeError::InvalidStringLength => "Invalid string length"@,
    }
}

/// The text that a refused request is answered with.
pub open spec fn error_text(e: SignalError) -> Seq<char> {
    match e {
        SignalError::InvalidRecipientServiceId(r) => "Invalid recipient ServiceId: "@ + r@,
        SignalError::InvalidRecipient(r) => "Invalid recipient: "@ + r@,
        SignalError::InvalidHexGroupKey(h) => "Invalid hex group key: "@ + hex_error_text(h),
        SignalError::NoActiveLinkingSession => "No active linking session"@,
        SignalError::RegistrationUnsupported => "Primary registration not yet supported. Use linkDevice() to link as secondary device."@,
    }
}

/// `format!("{:?}", c)`: the `Debug` text of a character (trusted; only named).
#[verifier::external_body]
fn char_debug(c: char) -> (text: String)
    ensures
        text@ == char_debug_text(c),
{
    format!("{:?}", c)
}

/// The text of one decimal digit.
fn digit_text(d: usize) -> (text: &'static str)
    requires
        d < 10,
    ensures
        text@ == seq![(48 + d) as char],
{
    match d {
        0 => {
            proof {
                reveal_strlit("0");
            }
            "0"
        },
        1 => {
            proof {
                reveal_strlit("1");
            }
            "1"
        },
        2 => {
            proof {
                reveal_strlit("2");
            }
            "2"
        },
        3 => {
            proof {
                reveal_strlit("3");
            }
            "3"
        },
        4 => {
            proof {
                reveal_strlit("4");
            }
            "4"
        },
        5 => {
            proof {
                reveal_strlit("5");
            }
            "5"
        },
        6 => {
            proof {
                reveal_strlit("6");
            }
            "6"
        },
        7 => {
            proof {
                reveal_strlit("7");
            }
            "7"
        },
        8 => {
            proof {
                reveal_strlit("8");
            }
            "8"
        },
        _ => {
            proof {
                reveal_strlit("9");
            }
            "9"
        },
    }
}

/// The decimal digits of `n`, without leading zeros.
fn decimal(n: usize) -> (text: String)
    ensures
        text@ == decimal_text(n as nat),
    decreases n,
{
    if n < 10 {
        String::from_str(digit_text(n))
    } else {
        let mut text = decimal(n / 10);
        text.append(digit_text(n % 10));
        text
    }
}

/// The description of a hex decoding error.
pub fn hex_error_message(e: HexDecodeError) -> (text: String)
    ensures
        text@ == hex_error_text(e),
{
    match e {
        HexDecodeError::InvalidHexCharacter { c, index } => {
            let mut text = String::from_str("Invalid character ");
            let c_text = char_debug(c);
            text.append(c_text.as_str());
            text.append(" at position ");
            let index_text = decimal(index);
            text.append(index_text.as_str());
            text
        },
        HexDecodeError::OddLength => String::from_str("Odd number of digits"),
        HexDecodeError::InvalidStringLength => String::from_str("Invalid string length"),
    }
}

/// The text that a refused request is answered with.
pub fn error_message(e: &SignalError) -> (text: String)
    ensures
        text@ == error_text(*e),
{
    match e {
        SignalError::InvalidRecipientServiceId(r) => String::from_str("Invalid recipient ServiceId: ").concat(r.as_str()),
        SignalError::InvalidRecipient(r) => String::from_str("Invalid recipient: ").concat(r.as_str()),
        SignalError::InvalidHexGroupKey(h) => {
            let detail = hex_error_message(*h);
            String::from_str("Invalid hex group key: ").concat(detail.as_str())
        },
        SignalError::NoActiveLinkingSession => String::from_str("No active linking session"),
        SignalError::RegistrationUnsupported => String::from_str(
            "Primary registration not yet supported. Use linkDevice() to link as secondary device.",
        ),
    }
}

} // verus!
