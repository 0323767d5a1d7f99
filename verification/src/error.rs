//! Errors of the client and their messages.

use vstd::prelude::*;
use crate::text::{spec_decimal, decimal_u64, owned, push_str};
use crate::event_stream::EventStreamError;

verus! {

/// Why signing in or staying signed in failed.
#[derive(Debug)]
pub enum AuthError {
    NotAuthenticated,
    TokenExpired,
    RefreshFailed(String),
    DeviceFlowFailed(String),
}

/// An error answer of the service.
#[derive(Debug)]
pub enum ApiError {
    Throttling { message: String, retry_after: Option<u64> },
    Validation { message: String },
    AccessDenied { message: String },
    InternalServerError,
    ServiceUnavailable,
}

/// Any error of the client.
#[derive(Debug)]
pub enum KiroError {
    Auth(AuthError),
    Api(ApiError),
    Network(String),
    /// An I/O failure, by its message.
    Io(String),
    /// Any other failure, by its message.
    Other(String),
}

impl AuthError {
    /// The message of the error.
    pub open spec fn spec_message(&self) -> Seq<char> {
        match self {
            AuthError::NotAuthenticated => "not authenticated"@,
            AuthError::TokenExpired => "token expired"@,
            AuthError::RefreshFailed(s) => "refresh failed: "@ + s@,
            AuthError::DeviceFlowFailed(s) => "device flow failed: "@ + s@,
        }
    }

    /// The message of the error.
    pub fn message(&self) -> (r: String)
        ensures
            r@ == self.spec_message(),
    {
        match self {
            AuthError::NotAuthenticated => owned("not authenticated"),
            AuthError::TokenExpired => owned("token expired"),
            AuthError::RefreshFailed(s) => {
                let mut r = owned("refresh failed: ");
                push_str(&mut r, s.as_str());
                r
            },
            AuthError::DeviceFlowFailed(s) => {
                let mut r = owned("device flow failed: ");
                push_str(&mut r, s.as_str());
                r
            },
        }
    }
}

impl ApiError {
    /// The message of the error.
    pub open spec fn spec_message(&self) -> Seq<char> {
        match self {
            ApiError::Throttling { message, .. } => "throttling: "@ + message@,
            ApiError::Validation { message } => "validation error: "@ + message@,
            ApiError::AccessDenied { message } => "access denied: "@ + message@,
            ApiError::InternalServerError => "internal server error"@,
            ApiError::ServiceUnavailable => "service unavailable"@,
        }
    }

    /// The message of the error.
    pub fn message(&self) -> (r: String)
        ensures
            r@ == self.spec_message(),
    {
        match self {
            ApiError::Throttling { message, .. } => {
                let mut r = owned("throttling: ");
                push_str(&mut r, message.as_str());
                r
            },
            ApiError::Validation { message } => {
                let mut r = owned("validation error: ");
                push_str(&mut r, message.as_str());
                r
            },
            ApiError::AccessDenied { message } => {
                let mut r = owned("access denied: ");
                push_str(&mut r, message.as_str());
                r
            },
            ApiError::InternalServerError => owned("internal server error"),
            ApiError::ServiceUnavailable => owned("service unavailable"),
        }
    }
}

impl KiroError {
    /// The message of the error.
    pub open spec fn spec_message(&self) -> Seq<char> {
        match self {
            KiroError::Auth(e) => "authentication error: "@ + e.spec_message(),
            KiroError::Api(e) => "API error: "@ + e.spec_message(),
            KiroError::Network(s) => "network error: "@ + s@,
            KiroError::Io(s) => "IO error: "@ + s@,
            KiroError::Other(s) => s@,
        }
    }

    /// The message of the error.
    pub fn message(&self) -> (r: String)
        ensures
            r@ == self.spec_message(),
    {
        match self {
            KiroError::Auth(e) => {
                let mut r = owned("authentication error: ");
                push_str(&mut r, e.message().as_str());
                r
            },
            KiroError::Api(e) => {
                let mut r = owned("API error: ");
                push_str(&mut r, e.message().as_str());
                r
            },
            KiroError::Network(s) => {
                let mut r = owned("network error: ");
                push_str(&mut r, s.as_str());
                r
            },
            KiroError::Io(s) => {
                let mut r = owned("IO error: ");
                push_str(&mut r, s.as_str());
                r
            },
            KiroError::Other(s) => s.clone(),
        }
    }
}

impl EventStreamError {
    /// The message of the error.
    pub open spec fn spec_message(&self) -> Seq<char> {
        match self {
            EventStreamError::InvalidMessageLength { length } => "Invalid message length: "@
                + spec_decimal(*length as int),
            EventStreamError::PreludeCrcMismatch { expected, computed } => "Prelude CRC mismatch: expected "@
                + spec_decimal(*expected as int) + ", got "@ + spec_decimal(*computed as int),
            EventStreamError::MessageCrcMismatch { expected, computed } => "Message CRC mismatch: expected "@
                + spec_decimal(*expected as int) + ", got "@ + spec_decimal(*computed as int),
            EventStreamError::UnexpectedEof => "failed to fill whole buffer"@,
            EventStreamError::InvalidUtf8 { valid_up_to, error_len } => match error_len {
                Some(n) => "invalid utf-8 sequence of "@ + spec_decimal(*n as int) + " bytes from index "@
                    + spec_decimal(*valid_up_to as int),
                None => "incomplete utf-8 byte sequence from index "@ + spec_decimal(*valid_up_to as int),
            },
            EventStreamError::UnknownHeaderType { value_type } => "Unknown header type: "@
                + spec_decimal(*value_type as int),
        }
    }

    /// The message of the error.
    pub fn message(&self) -> (r: String)
        ensures
            r@ == self.spec_message(),
    {
        match self {
            EventStreamError::InvalidMessageLength { length } => {
                let mut r = owned("Invalid message length: ");
                push_str(&mut r, decimal_u64(*length as u64).as_str());
                r
            },
            EventStreamError::PreludeCrcMismatch { expected, computed } => {
                let mut r = owned("Prelude CRC mismatch: expected ");
                push_str(&mut r, decimal_u64(*expected as u64).as_str());
                push_str(&mut r, ", got ");
                push_str(&mut r, decimal_u64(*computed as u64).as_str());
                r
            },
            EventStreamError::MessageCrcMismatch { expected, computed } => {
                let mut r = owned("Message CRC mismatch: expected ");
                push_str(&mut r, decimal_u64(*expected as u64).as_str());
                push_str(&mut r, ", got ");
                push_str(&mut r, decimal_u64(*computed as u64).as_str());
                r
            },
            EventStreamError::UnexpectedEof => owned("failed to fill whole buffer"),
            EventStreamError::InvalidUtf8 { valid_up_to, error_len } => match error_len {
                Some(n) => {
                    let mut r = owned("invalid utf-8 sequence of ");
                    push_str(&mut r, decimal_u64(*n as u64).as_str());
                    push_str(&mut r, " bytes from index ");
                    push_str(&mut r, decimal_u64(*valid_up_to as u64).as_str());
                    r
                },
                None => {
                    let mut r = owned("incomplete utf-8 byte sequence from index ");
                    push_str(&mut r, decimal_u64(*valid_up_to as u64).as_str());
                    r
                },
            },
            EventStreamError::UnknownHeaderType { value_type } => {
                let mut r = owned("Unknown header type: ");
                push_str(&mut r, decimal_u64(*value_type as u64).as_str());
                r
            },
        }
    }
}

/// The reason phrase that the `http` crate gives a status code, if any.
pub uninterp spec fn http_reason_phrase(code: u16) -> Option<Seq<char>>;

/// `http::StatusCode::canonical_reason` of the status `code`: its standard
/// reason phrase, or `None` for a code without one.
#[verifier::external_body]
fn canonical_reason(code: u16) -> (r: Option<&'static str>)
    requires
        100 <= code <= 999,
    ensures
        match r {
            Some(s) => http_reason_phrase(code) == Some(s@),
            None => http_reason_phrase(code) is None,
        },
{
    match http::StatusCode::from_u16(code) {
        Ok(status) => status.canonical_reason(),
        Err(_) => None,
    }
}

/// How a status code is displayed: the code, a space and its reason phrase.
pub open spec fn spec_status_text(code: u16) -> Seq<char> {
    spec_decimal(code as int) + " "@ + match http_reason_phrase(code) {
        Some(p) => p,
        None => "<unknown status code>"@,
    }
}

/// The status line text of an HTTP status code, as the `http` crate displays it.
pub fn status_text(code: u16) -> (r: String)
    requires
        100 <= code <= 999,
    ensures
        r@ == spec_status_text(code),
{
    let mut r = decimal_u64(code as u64);
    push_str(&mut r, " ");
    match canonical_reason(code) {
        Some(p) => push_str(&mut r, p),
        None => push_str(&mut r, "<unknown status code>"),
    }
    r
}

/// The error for an unsuccessful HTTP answer with status `status` and body text `error_text`.
pub open spec fn spec_error_for_status(status: u16, error_text: Seq<char>) -> KiroErrorView {
    if status == 429 {
        KiroErrorView::Throttling { message: error_text, retry_after: None }
    } else if status == 400 {
        KiroErrorView::Validation { message: error_text }
    } else if status == 401 || status == 403 {
        KiroErrorView::AccessDenied { message: error_text }
    } else if status == 500 {
        KiroErrorView::InternalServerError
    } else if status == 503 {
        KiroErrorView::ServiceUnavailable
    } else {
        KiroErrorView::Network("HTTP "@ + spec_status_text(status) + ": "@ + error_text)
    }
}

/// The mathematical content of a [`KiroError`], flattened.
pub enum KiroErrorView {
    NotAuthenticated,
    TokenExpired,
    RefreshFailed(Seq<char>),
    DeviceFlowFailed(Seq<char>),
    Throttling { message: Seq<char>, retry_after: Option<u64> },
    Validation { message: Seq<char> },
    AccessDenied { message: Seq<char> },
    InternalServerError,
    ServiceUnavailable,
    Network(Seq<char>),
    Io(Seq<char>),
    Other(Seq<char>),
}

impl View for KiroError {
    type V = KiroErrorView;

    open spec fn view(&self) -> KiroErrorView {
        match self {
            KiroError::Auth(AuthError::NotAuthenticated) => KiroErrorView::NotAuthenticated,
            KiroError::Auth(AuthError::TokenExpired) => KiroErrorView::TokenExpired,
            KiroError::Auth(AuthError::RefreshFailed(s)) => KiroErrorView::RefreshFailed(s@),
            KiroError::Auth(AuthError::DeviceFlowFailed(s)) => KiroErrorView::DeviceFlowFailed(s@),
            KiroError::Api(ApiError::Throttling { message, retry_after }) => KiroErrorView::Throttling {
                message: message@,
                retry_after: *retry_after,
            },
            KiroError::Api(ApiError::Validation { message }) => KiroErrorView::Validation {
                message: message@,
            },
            KiroError::Api(ApiError::AccessDenied { message }) => KiroErrorView::AccessDenied {
                message: message@,
            },
            KiroError::Api(ApiError::InternalServerError) => KiroErrorView::InternalServerError,
            KiroError::Api(ApiError::ServiceUnavailable) => KiroErrorView::ServiceUnavailable,
            KiroError::Network(s) => KiroErrorView::Network(s@),
            KiroError::Io(s) => KiroErrorView::Io(s@),
            KiroError::Other(s) => KiroErrorView::Other(s@),
        }
    }
}

impl KiroError {
    /// The error for an unsuccessful HTTP answer: throttling (429),
    /// validation (400), access denied (401, 403), internal server error
    /// (500), service unavailable (503), and otherwise a network error
    /// naming the status.
    pub fn from_http_status(status: u16, error_text: String) -> (r: KiroError)
        requires
            100 <= status <= 999,
        ensures
            r@ == spec_error_for_status(status, error_text@),
    {
        if status == 429 {
            KiroError::Api(ApiError::Throttling { message: error_text, retry_after: None })
        } else if status == 400 {
            KiroError::Api(ApiError::Validation { message: error_text })
        } else if status == 401 || status == 403 {
            KiroError::Api(ApiError::AccessDenied { message: error_text })
        } else if status == 500 {
            KiroError::Api(ApiError::InternalServerError)
        } else if status == 503 {
            KiroError::Api(ApiError::ServiceUnavailable)
        } else {
            let mut m = owned("HTTP ");
            push_str(&mut m, status_text(status).as_str());
            push_str(&mut m, ": ");
            push_str(&mut m, error_text.as_str());
            KiroError::Network(m)
        }
    }
}

} // verus!
