use vstd::prelude::*;
use crate::address::ParseError;

verus! {

/// The kinds of error that the server's request handlers answer with.
#[derive(Copy, Clone, Debug, PartialEq, Eq, Structural)]
pub enum AkErrorType {
    Internal,
    NotFound,
    Unauthorized,
    Validation,
}

/// An error of a request handler, with the reason given to the client.
#[derive(Clone, Debug)]
pub struct AkError {
    pub reason: String,
    pub t: AkErrorType,
}

/// The HTTP status code that answers an error of each kind.
pub open spec fn status_of(t: AkErrorType) -> u16 {
    match t {
        AkErrorType::Internal => 500,
        AkErrorType::NotFound => 404,
        AkErrorType::Unauthorized => 401,
        AkErrorType::Validation => 400,
    }
}

impl AkError {
    pub fn internal(reason: &str) -> (e: AkError)
        ensures
            e.reason@ == reason@,
            e.t == AkErrorType::Internal,
    {
        AkError { reason: String::from_str(reason), t: AkErrorType::Internal }
    }

    pub fn not_found(reason: &str) -> (e: AkError)
        ensures
            e.reason@ == reason@,
            e.t == AkErrorType::NotFound,
    {
        AkError { reason: String::from_str(reason), t: AkErrorType::NotFound }
    }

    pub fn unauthorized(reason: &str) -> (e: AkError)
        ensures
            e.reason@ == reason@,
            e.t == AkErrorType::Unauthorized,
    {
        AkError { reason: String::from_str(reason), t: AkErrorType::Unauthorized }
    }

    pub fn validation(reason: &str) -> (e: AkError)
        ensures
            e.reason@ == reason@,
            e.t == AkErrorType::Validation,
    {
        AkError { reason: String::from_str(reason), t: AkErrorType::Validation }
    }

    /// The status code of the response that reports this error: 500 for an
    /// internal error, 404 for not found, 401 for unauthorized, 400 for a
    /// failed validation.
    pub fn status_code(&self) -> (code: u16)
        ensures
            code == status_of(self.t),
    {
        match self.t {
            AkErrorType::Internal => 500,
            AkErrorType::NotFound => 404,
            AkErrorType::Unauthorized => 401,
            AkErrorType::Validation => 400,
        }
    }

    /// The text of the error: its reason.
    pub fn to_string(&self) -> (s: String)
        ensures
            s@ == self.reason@,
    {
        self.reason.clone()
    }
}

/// Why a message from a beacon was not understood.
#[derive(Copy, Clone, Debug, PartialEq, Eq, Structural)]
pub enum MessageError {
    ParseFormat,
    ParseFloat,
    ParseMac,
}

impl MessageError {
    /// The description of the error.
    pub fn to_string(&self) -> (s: &'static str)
        ensures
            s@ == (match *self {
                MessageError::ParseFormat => "Invalid message format"@,
                MessageError::ParseFloat => "Failed to parse float"@,
                MessageError::ParseMac => "Failed to parse mac address"@,
            }),
    {
        match self {
            MessageError::ParseFormat => "Invalid message format",
            MessageError::ParseFloat => "Failed to parse float",
            MessageError::ParseMac => "Failed to parse mac address",
        }
    }
}

impl From<ParseError> for MessageError {
    fn from(_item: ParseError) -> (r: MessageError) {
        MessageError::ParseMac
    }
}

impl vstd::std_specs::convert::FromSpecImpl<ParseError> for MessageError {
    open spec fn obeys_from_spec() -> bool {
        true
    }

    open spec fn from_spec(_item: ParseError) -> MessageError {
        MessageError::ParseMac
    }
}

} // verus!
