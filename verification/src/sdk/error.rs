//! The errors of the API.

use vstd::prelude::*;
use vstd::string::*;
use crate::sdk::request_strategy::StatusCode;

verus! {

/// What can go wrong with a request.
#[derive(Debug)]
pub enum Error {
    /// The credentials were not accepted.
    Authentication(String),
    /// The API answered with an error.
    Api(ApiError),
    /// Too many requests.
    RateLimit(String),
    /// The parameters of the request were not accepted.
    InvalidRequest(String),
    /// The connection failed.
    Connection(String),
    /// The request took too long.
    Timeout(String),
    /// The client is not set up properly.
    Configuration(String),
    /// A value could not be written or read.
    Serialization(String),
    /// Anything else.
    Unexpected(String),
}

/// An error as the API reports it.
#[derive(Debug, Clone, PartialEq, Eq)]
pub struct ApiError {
    /// The details of the error.
    pub error: ApiErrorDetail,
}

/// The details of an error of the API.
#[derive(Debug, Clone, PartialEq, Eq)]
pub struct ApiErrorDetail {
    /// A message for a human reader.
    pub message: String,
    /// The parameter at fault, if one is.
    pub param: Option<String>,
    /// The code of the error, if it has one.
    pub code: Option<String>,
    /// The decline code of a card error.
    pub decline_code: Option<String>,
    /// Where the error is documented.
    pub doc_url: Option<String>,
    /// The kind of the error.
    pub type_: ErrorType,
}

/// The kinds of errors of the API.
#[derive(Debug, Clone, PartialEq, Eq)]
pub enum ErrorType {
    ApiError,
    CardError,
    AuthenticationError,
    RateLimitError,
    InvalidRequestError,
    ApiConnectionError,
    ConnectError,
    PermissionError,
    StripeError,
    Unknown,
}

/// What the transport says of a failed request.
#[derive(Debug, Clone, Copy)]
pub struct TransportFailure {
    /// The request timed out.
    pub is_timeout: bool,
    /// The connection could not be made.
    pub is_connect: bool,
    /// The failure comes from the status of the response.
    pub is_status: bool,
    /// The status of the response, where there was one.
    pub status: Option<StatusCode>,
}

impl ApiError {
    /// The message of the error.
    pub fn message(&self) -> (text: &str)
        ensures
            text@ == self.error.message@,
    {
        self.error.message.as_str()
    }
}

impl Error {
    /// What the error says: the phrase of its kind, then its text.
    pub open spec fn message_spec(self) -> Seq<char> {
        match self {
            Error::Authentication(text) => "Authentication failed: "@ + text@,
            Error::Api(api) => "Stripe API error: "@ + api.error.message@,
            Error::RateLimit(text) => "Rate limit exceeded: "@ + text@,
            Error::InvalidRequest(text) => "Invalid request: "@ + text@,
            Error::Connection(text) => "Connection error: "@ + text@,
            Error::Timeout(text) => "Request timed out: "@ + text@,
            Error::Configuration(text) => "Configuration error: "@ + text@,
            Error::Serialization(text) => "Serialization error: "@ + text@,
            Error::Unexpected(text) => "Unexpected error: "@ + text@,
        }
    }

    /// What the error says.
    pub fn message(&self) -> (text: String)
        ensures
            text@ == self.message_spec(),
    {
        match self {
            Error::Authentication(text) => String::from_str("Authentication failed: ").concat(
                text.as_str(),
            ),
            Error::Api(api) => String::from_str("Stripe API error: ").concat(api.message()),
            Error::RateLimit(text) => String::from_str("Rate limit exceeded: ").concat(
                text.as_str(),
            ),
            Error::InvalidRequest(text) => String::from_str("Invalid request: ").concat(
                text.as_str(),
            ),
            Error::Connection(text) => String::from_str("Connection error: ").concat(
                text.as_str(),
            ),
            Error::Timeout(text) => String::from_str("Request timed out: ").concat(text.as_str()),
            Error::Configuration(text) => String::from_str("Configuration error: ").concat(
                text.as_str(),
            ),
            Error::Serialization(text) => String::from_str("Serialization error: ").concat(
                text.as_str(),
            ),
            Error::Unexpected(text) => String::from_str("Unexpected error: ").concat(
                text.as_str(),
            ),
        }
    }

    /// The error that stands for a failure of the transport whose text is
    /// `message`. A timeout comes before a failed connection, and that
    /// before a status; of the statuses, 401 is a failed authentication and
    /// 429 a rate limit, and any other an error of the API of unknown kind.
    pub fn from_transport(failure: TransportFailure, message: String) -> (e: Error)
        ensures
            match e {
                Error::Timeout(text) => text == message && failure.is_timeout,
                Error::Connection(text) => text == message && !failure.is_timeout
                    && failure.is_connect,
                Error::Authentication(text) => text == message && Self::by_status(failure)
                    && failure.status == Some(StatusCode(401)),
                Error::RateLimit(text) => text == message && Self::by_status(failure)
                    && failure.status == Some(StatusCode(429)),
                Error::Api(api) => Self::by_status(failure) && failure.status != Some(
                    StatusCode(401),
                ) && failure.status != Some(StatusCode(429)) && api.error.message == message
                    && api.error.param is None && api.error.code is None
                    && api.error.decline_code is None && api.error.doc_url is None
                    && api.error.type_ is Unknown,
                Error::Unexpected(text) => text == message && !failure.is_timeout
                    && !failure.is_connect && !failure.is_status,
                _ => false,
            },
    {
        if failure.is_timeout {
            Error::Timeout(message)
        } else if failure.is_connect {
            Error::Connection(message)
        } else if failure.is_status {
            let code: Option<u16> = match failure.status {
                Some(status) => Some(status.0),
                None => None,
            };
            match code {
                Some(401) => Error::Authentication(message),
                Some(429) => Error::RateLimit(message),
                _ => Error::Api(
                    ApiError {
                        error: ApiErrorDetail {
                            message,
                            param: None,
                            code: None,
                            decline_code: None,
                            doc_url: None,
                            type_: ErrorType::Unknown,
                        },
                    },
                ),
            }
        } else {
            Error::Unexpected(message)
        }
    }

    /// The failure is told by the status of the response: it is neither a
    /// timeout nor a failed connection.
    pub open spec fn by_status(failure: TransportFailure) -> bool {
        !failure.is_timeout && !failure.is_connect && failure.is_status
    }
}

} // verus!
