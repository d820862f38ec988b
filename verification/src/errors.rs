//! The closed set of failures that may cross the gateway boundary.

use vstd::prelude::*;

verus! {

/// The kind of a failure, without its detail text.
#[derive(Clone, Copy, Debug, PartialEq, Eq, Structural)]
pub enum ErrorKind {
    /// A backend could not be reached or answered with an unexpected status.
    ServiceUnavailable,
    /// The caller's payload failed local shape validation.
    InvalidRequest,
    /// The caller's identity could not be resolved.
    Unauthorized,
    /// A referenced resource does not exist.
    NotFound,
    /// A backend answer violated its expected shape, or the failure is unclassified.
    InternalError,
}

/// A failure of a gateway operation: its kind and a human-readable detail.
#[derive(Clone, Debug, PartialEq, Eq)]
pub enum McpError {
    ServiceUnavailable(String),
    InvalidRequest(String),
    Unauthorized(String),
    NotFound(String),
    InternalError(String),
}

/// The mathematical content of a [`McpError`].
pub struct ErrorView {
    pub kind: ErrorKind,
    pub detail: Seq<char>,
}

/// The body sent to the caller for a failed operation.
#[derive(Clone, Debug, PartialEq, Eq)]
pub struct ErrorBody {
    /// The rendered failure, see [`McpError::message`].
    pub error: String,
    /// The status code, repeated inside the body.
    pub status: u16,
}

/// The status code under which a failure of kind `kind` leaves the gateway.
pub open spec fn status_of(kind: ErrorKind) -> u16 {
    match kind {
        ErrorKind::ServiceUnavailable => 503,
        ErrorKind::InvalidRequest => 400,
        ErrorKind::Unauthorized => 401,
        ErrorKind::NotFound => 404,
        ErrorKind::InternalError => 500,
    }
}

/// The words that introduce the detail when a failure of kind `kind` is rendered.
pub open spec fn label_of(kind: ErrorKind) -> Seq<char> {
    match kind {
        ErrorKind::ServiceUnavailable => "Service unavailable: "@,
        ErrorKind::InvalidRequest => "Invalid request: "@,
        ErrorKind::Unauthorized => "Unauthorized: "@,
        ErrorKind::NotFound => "Not found: "@,
        ErrorKind::InternalError => "Internal error: "@,
    }
}

/// The rendered text of a failure: the label of its kind, then its detail.
pub open spec fn rendered(error: ErrorView) -> Seq<char> {
    label_of(error.kind) + error.detail
}

/// The failure of kind `ServiceUnavailable` with the given detail.
pub open spec fn service_unavailable(detail: Seq<char>) -> ErrorView {
    ErrorView { kind: ErrorKind::ServiceUnavailable, detail }
}

/// The failure of kind `Unauthorized` with the given detail.
pub open spec fn unauthorized(detail: Seq<char>) -> ErrorView {
    ErrorView { kind: ErrorKind::Unauthorized, detail }
}

/// The failure of kind `InternalError` with the given detail.
pub open spec fn internal_error(detail: Seq<char>) -> ErrorView {
    ErrorView { kind: ErrorKind::InternalError, detail }
}

impl View for McpError {
    type V = ErrorView;

    open spec fn view(&self) -> ErrorView {
        match self {
            McpError::ServiceUnavailable(d) => ErrorView { kind: ErrorKind::ServiceUnavailable, detail: d@ },
            McpError::InvalidRequest(d) => ErrorView { kind: ErrorKind::InvalidRequest, detail: d@ },
            McpError::Unauthorized(d) => ErrorView { kind: ErrorKind::Unauthorized, detail: d@ },
            McpError::NotFound(d) => ErrorView { kind: ErrorKind::NotFound, detail: d@ },
            McpError::InternalError(d) => ErrorView { kind: ErrorKind::InternalError, detail: d@ },
        }
    }
}

impl McpError {
    /// The kind of this failure.
    pub fn kind(&self) -> (r: ErrorKind)
        ensures
            r == self@.kind,
    {
        match self {
            McpError::ServiceUnavailable(_) => ErrorKind::ServiceUnavailable,
            McpError::InvalidRequest(_) => ErrorKind::InvalidRequest,
            McpError::Unauthorized(_) => ErrorKind::Unauthorized,
            McpError::NotFound(_) => ErrorKind::NotFound,
            McpError::InternalError(_) => ErrorKind::InternalError,
        }
    }

    /// The detail text of this failure.
    pub fn detail(&self) -> (r: &str)
        ensures
            r@ == self@.detail,
    {
        match self {
            McpError::ServiceUnavailable(d) => d.as_str(),
            McpError::InvalidRequest(d) => d.as_str(),
            McpError::Unauthorized(d) => d.as_str(),
            McpError::NotFound(d) => d.as_str(),
            McpError::InternalError(d) => d.as_str(),
        }
    }

    /// The status code under which this failure leaves the gateway.
    pub fn status_code(&self) -> (r: u16)
        ensures
            r == status_of(self@.kind),
    {
        match self {
            McpError::ServiceUnavailable(_) => 503,
            McpError::InvalidRequest(_) => 400,
            McpError::Unauthorized(_) => 401,
            McpError::NotFound(_) => 404,
            McpError::InternalError(_) => 500,
        }
    }

    /// Renders this failure for a human reader: what kind it is, then the detail.
    pub fn message(&self) -> (r: String)
        ensures
            r@ == rendered(self@),
    {
        match self {
            McpError::ServiceUnavailable(d) => String::from_str("Service unavailable: ").concat(d.as_str()),
            McpError::InvalidRequest(d) => String::from_str("Invalid request: ").concat(d.as_str()),
            McpError::Unauthorized(d) => String::from_str("Unauthorized: ").concat(d.as_str()),
            McpError::NotFound(d) => String::from_str("Not found: ").concat(d.as_str()),
            McpError::InternalError(d) => String::from_str("Internal error: ").concat(d.as_str()),
        }
    }

    /// The body that reports this failure to the caller.
    pub fn error_response(&self) -> (r: ErrorBody)
        ensures
            r.error@ == rendered(self@),
            r.status == status_of(self@.kind),
    {
        ErrorBody { error: self.message(), status: self.status_code() }
    }
}

/// Every failure leaves the gateway with one of five status codes, each kind has
/// a code of its own, and the code tells the kind.
pub proof fn status_identifies_kind(a: ErrorKind, b: ErrorKind)
    ensures
        status_of(a) == 503 || status_of(a) == 400 || status_of(a) == 401 || status_of(a) == 404
            || status_of(a) == 500,
        status_of(a) == status_of(b) <==> a == b,
{
}

} // verus!
