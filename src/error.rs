use vstd::prelude::*;

use crate::text::{decimal, decimal_text};

verus! {

/// What can go wrong while talking to the service.
#[derive(Debug, Clone)]
pub enum HolidayAPIError {
    /// The key does not have the shape of a credential.
    InvalidKeyFormat(String),
    /// The key has the right shape but the service refused it.
    InvalidOrExpiredKey(String),
    /// The requested API version is not one the library supports.
    InvalidVersion(String),
    /// The transport failed or the service answered with an error status:
    /// the status (when there was a reply) and the service's message.
    RequestError(Option<u16>, String),
    /// A reply body could not be decoded.
    DecodeError(String),
}

/// The human-readable text of an error.
pub open spec fn error_text(e: HolidayAPIError) -> Seq<char> {
    match e {
        HolidayAPIError::InvalidKeyFormat(k) => "Invalid key: "@ + k@,
        HolidayAPIError::InvalidOrExpiredKey(k) => "Invalid or expired key: "@ + k@,
        HolidayAPIError::InvalidVersion(m) => "Invalid version: "@ + m@,
        HolidayAPIError::RequestError(Some(s), m) => decimal_text(s as int) + ": "@ + m@,
        HolidayAPIError::RequestError(None, m) => "Request failed: "@ + m@,
        HolidayAPIError::DecodeError(b) => "Undecodable reply: "@ + b@,
    }
}

impl HolidayAPIError {
    /// The human-readable text of the error.
    pub fn message(&self) -> (r: String)
        ensures
            r@ == error_text(*self),
    {
        match self {
            HolidayAPIError::InvalidKeyFormat(k) => {
                let mut out = String::from_str("Invalid key: ");
                out.append(k.as_str());
                out
            },
            HolidayAPIError::InvalidOrExpiredKey(k) => {
                let mut out = String::from_str("Invalid or expired key: ");
                out.append(k.as_str());
                out
            },
            HolidayAPIError::InvalidVersion(m) => {
                let mut out = String::from_str("Invalid version: ");
                out.append(m.as_str());
                out
            },
            HolidayAPIError::RequestError(Some(s), m) => {
                let mut out = decimal(*s as i32);
                out.append(": ");
                out.append(m.as_str());
                out
            },
            HolidayAPIError::RequestError(None, m) => {
                let mut out = String::from_str("Request failed: ");
                out.append(m.as_str());
                out
            },
            HolidayAPIError::DecodeError(b) => {
                let mut out = String::from_str("Undecodable reply: ");
                out.append(b.as_str());
                out
            },
        }
    }
}

} // verus!
