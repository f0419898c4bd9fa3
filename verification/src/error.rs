//! The failures that the library reports.

use vstd::prelude::*;
use crate::text::{append_signed_decimal, signed_decimal};

verus! {

/// A failure of an operation of the library.
#[derive(Debug, PartialEq, Eq)]
pub enum SdkError {
    /// The transport failed to send or to receive.
    Channel(String),
    /// A channel or client was initialized in a state that does not allow it.
    Init(String),
    /// Bytes that do not hold what they should.
    Serialization(String),
    /// No reply came within the time allowed.
    Timeout,
    /// A channel or client was used before it was initialized.
    NotInitialized,
    /// The robot refused a call, with this code.
    ApiError(i32),
}

impl SdkError {
    /// What the failure reads as.
    pub open spec fn text(&self) -> Seq<char> {
        match self {
            SdkError::Channel(detail) => "Channel error: "@ + detail@,
            SdkError::Init(detail) => "Initialization error: "@ + detail@,
            SdkError::Serialization(detail) => "Serialization error: "@ + detail@,
            SdkError::Timeout => "Timeout"@,
            SdkError::NotInitialized => "Not initialized"@,
            SdkError::ApiError(code) => "API error code: "@ + signed_decimal(*code as int),
        }
    }

    /// The detail that a failure carries; empty where it carries none.
    pub open spec fn detail(&self) -> Seq<char> {
        match self {
            SdkError::Channel(detail) => detail@,
            SdkError::Init(detail) => detail@,
            SdkError::Serialization(detail) => detail@,
            _ => Seq::empty(),
        }
    }

    /// Renders the failure as text.
    pub fn to_string(&self) -> (r: String)
        ensures
            r@ == self.text(),
    {
        match self {
            SdkError::Channel(detail) => String::from_str("Channel error: ").concat(detail.as_str()),
            SdkError::Init(detail) => String::from_str("Initialization error: ").concat(
                detail.as_str(),
            ),
            SdkError::Serialization(detail) => String::from_str("Serialization error: ").concat(
                detail.as_str(),
            ),
            SdkError::Timeout => String::from_str("Timeout"),
            SdkError::NotInitialized => String::from_str("Not initialized"),
            SdkError::ApiError(code) => {
                let mut r = String::from_str("API error code: ");
                append_signed_decimal(&mut r, *code as i64);
                r
            },
        }
    }
}

} // verus!
