//! The failures a request can meet, before and after it is sent.

use vstd::prelude::*;

verus! {

/// Why a request failed.
#[derive(Debug, PartialEq, Eq)]
pub enum Error {
    /// The base URL, or the URL of the endpoint, is malformed.
    UrlParseError,
    /// A parameter is outside the range the exchange accepts.
    ParameterOutOfRange,
    /// Two filters that exclude each other are both set.
    ConflictingParameters,
    /// A setter was used that the request variant does not offer.
    InvalidStateTransition,
    /// The request could not be delivered.
    TransportError,
    /// The exchange rejected the request: the HTTP status in `code`, the
    /// exchange's own error number in `reason` and its text in `message`.
    ApiError { code: u16, reason: i64, message: String },
    /// The response body does not have the expected shape.
    DecodeError,
}

impl Error {
    /// A short name for the kind of failure.
    pub fn name(&self) -> (s: &'static str)
        ensures
            s@ == match *self {
                Error::UrlParseError => "UrlParseError"@,
                Error::ParameterOutOfRange => "ParameterOutOfRange"@,
                Error::ConflictingParameters => "ConflictingParameters"@,
                Error::InvalidStateTransition => "InvalidStateTransition"@,
                Error::TransportError => "TransportError"@,
                Error::ApiError { .. } => "ApiError"@,
                Error::DecodeError => "DecodeError"@,
            },
    {
        match self {
            Error::UrlParseError => "UrlParseError",
            Error::ParameterOutOfRange => "ParameterOutOfRange",
            Error::ConflictingParameters => "ConflictingParameters",
            Error::InvalidStateTransition => "InvalidStateTransition",
            Error::TransportError => "TransportError",
            Error::ApiError { .. } => "ApiError",
            Error::DecodeError => "DecodeError",
        }
    }
}

} // verus!
