//! What can go wrong, and how an HTTP status is classified.

use vstd::prelude::*;
use vstd::string::*;
use crate::text::{ascii_chars, decimal_text, decimal_string};

verus! {

/// An error of the client or of the command line around it.
#[derive(Debug, PartialEq, Eq)]
pub enum TwitterError {
    /// A file could not be read or written.
    Io(String),
    /// The credentials file could not be parsed.
    Parse(String),
    /// The credentials file could not be written out.
    Serialize(String),
    /// A required argument is missing; the name of the argument.
    MissingArgument(String),
    /// The credentials file has no such profile; the name of the profile.
    ProfileNotFound(String),
    /// An argument has a value that is not accepted.
    Invalid(String),
    /// The request did not reach the server or no answer came back.
    Transport(String),
    /// The answer was a success but its body has not the expected shape;
    /// the name of the operation.
    Decode(String),
    /// The server answered with a status that is no success; the status and
    /// its classification.
    Api(u16, String),
    /// The server answered with a success and says that it did not do
    /// what was asked.
    Rejected(String),
    /// The system clock could not be read, so no request can be signed.
    ClockUnavailable,
}

/// The classes of HTTP statuses.
#[derive(Debug, PartialEq, Eq, Clone, Copy)]
pub enum StatusClass {
    Success,
    ClientError,
    ServerError,
    Unknown,
}

/// Whether a status is a success: 200 to 299.
pub open spec fn is_success(status: u16) -> bool {
    200 <= status <= 299
}

/// The class of a status: 2xx a success, 4xx a client error, 5xx a server
/// error, anything else unknown.
pub open spec fn status_class(status: u16) -> StatusClass {
    if 200 <= status <= 299 {
        StatusClass::Success
    } else if 400 <= status <= 499 {
        StatusClass::ClientError
    } else if 500 <= status <= 599 {
        StatusClass::ServerError
    } else {
        StatusClass::Unknown
    }
}

/// How the class of a failed status is written.
pub open spec fn class_label(class: StatusClass) -> Seq<char> {
    match class {
        StatusClass::ServerError => "Server error: "@,
        StatusClass::ClientError => "Client error: "@,
        _ => "Unknown error: "@,
    }
}

/// The message of an API error: the class and the status in decimal.
pub open spec fn api_message(status: u16) -> Seq<char> {
    class_label(status_class(status)) + ascii_chars(decimal_text(status as int))
}

/// Whether an error is the API error for a status.
pub open spec fn is_api_error(e: TwitterError, status: u16) -> bool {
    e matches TwitterError::Api(s, m) && s == status && m@ == api_message(status)
}

/// Whether an error is the decode error of an operation.
pub open spec fn is_decode_error(e: TwitterError, operation: Seq<char>) -> bool {
    e matches TwitterError::Decode(op) && op@ == operation
}

/// Classifies a status.
pub fn classify(status: u16) -> (class: StatusClass)
    ensures
        class == status_class(status),
{
    if 200 <= status && status <= 299 {
        StatusClass::Success
    } else if 400 <= status && status <= 499 {
        StatusClass::ClientError
    } else if 500 <= status && status <= 599 {
        StatusClass::ServerError
    } else {
        StatusClass::Unknown
    }
}

/// The error for an answer with a given status: a server error for 5xx, a
/// client error for 4xx, an unknown error otherwise, each with the status.
pub fn api_error(status: u16) -> (e: TwitterError)
    ensures
        is_api_error(e, status),
{
    let mut message = match classify(status) {
        StatusClass::ServerError => "Server error: ".to_owned(),
        StatusClass::ClientError => "Client error: ".to_owned(),
        _ => "Unknown error: ".to_owned(),
    };
    let digits = decimal_string(status as i32);
    message.append(digits.as_str());
    TwitterError::Api(status, message)
}

impl TwitterError {
    /// The text that is shown for this error.
    pub open spec fn message_text(self) -> Seq<char> {
        match self {
            TwitterError::Io(cause) => "I/O error: "@ + cause@,
            TwitterError::Parse(cause) => "Error parsing file: "@ + cause@,
            TwitterError::Serialize(cause) => "Error writing file: "@ + cause@,
            TwitterError::MissingArgument(arg) => "Missing argument: "@ + arg@,
            TwitterError::ProfileNotFound(arg) => "Profile not found in credentials file: "@
                + arg@,
            TwitterError::Invalid(arg) => "Invalid argument: "@ + arg@,
            TwitterError::Transport(cause) => "Transport error: "@ + cause@,
            TwitterError::Decode(operation) => "Could not decode the response of: "@ + operation@,
            TwitterError::Api(_, message) => "Twitter API error: "@ + message@,
            TwitterError::Rejected(message) => "Twitter API error: "@ + message@,
            TwitterError::ClockUnavailable => "System clock unavailable"@,
        }
    }

    /// The text that is shown for this error.
    pub fn message(&self) -> (text: String)
        ensures
            text@ == self.message_text(),
    {
        match self {
            TwitterError::Io(cause) => "I/O error: ".to_owned().concat(cause.as_str()),
            TwitterError::Parse(cause) => "Error parsing file: ".to_owned().concat(cause.as_str()),
            TwitterError::Serialize(cause) => "Error writing file: ".to_owned().concat(
                cause.as_str(),
            ),
            TwitterError::MissingArgument(arg) => "Missing argument: ".to_owned().concat(
                arg.as_str(),
            ),
            TwitterError::ProfileNotFound(arg) => "Profile not found in credentials file: "
                .to_owned().concat(arg.as_str()),
            TwitterError::Invalid(arg) => "Invalid argument: ".to_owned().concat(arg.as_str()),
            TwitterError::Transport(cause) => "Transport error: ".to_owned().concat(cause.as_str()),
            TwitterError::Decode(operation) => "Could not decode the response of: ".to_owned()
                .concat(operation.as_str()),
            TwitterError::Api(_, message) => "Twitter API error: ".to_owned().concat(
                message.as_str(),
            ),
            TwitterError::Rejected(message) => "Twitter API error: ".to_owned().concat(
                message.as_str(),
            ),
            TwitterError::ClockUnavailable => "System clock unavailable".to_owned(),
        }
    }
}

} // verus!
