use vstd::prelude::*;

verus! {

/// The closed set of failures an update call can surface.  Exactly one
/// variant is active per failure; there is no local recovery anywhere
/// in this library.
#[derive(Debug)]
#[allow(inconsistent_fields)]
pub enum Error {
    /// Transport-level failure (connect, timeout, TLS, low-level I/O),
    /// carrying the transport diagnostic and the HTTP status code if
    /// the transport exposed one.
    Request { message: String, status: Option<u16> },
    /// The base URL or the composed request URL failed to parse,
    /// carrying the parser diagnostic.
    UrlParse(String),
    /// A generic (de)serialization failure outside the two explicit
    /// decode paths, carrying the codec diagnostic.
    Json(String),
    /// A non-2xx HTTP response, carrying the status code and the
    /// extracted or fallback message.
    Api { status: u16, message: String },
    /// A 2xx response body that failed to decode as the expected
    /// success shape, carrying a description of the failure.
    UnexpectedResponse(String),
    /// Locally-detected invalid input before any network call,
    /// carrying a description of the problem.
    Validation(String),
}

/// The HTTP status an error carries: the code of an `Api` error, or
/// the code a transport failure happened to expose.
pub open spec fn spec_status_code(e: Error) -> Option<u16> {
    match e {
        Error::Api { status, .. } => Some(status),
        Error::Request { status, .. } => status,
        _ => None,
    }
}

/// Whether an error carries a 4xx status.
pub open spec fn spec_is_client_error(e: Error) -> bool {
    spec_status_code(e) matches Some(s) && 400 <= s < 500
}

/// Whether an error carries a 5xx status.
pub open spec fn spec_is_server_error(e: Error) -> bool {
    spec_status_code(e) matches Some(s) && 500 <= s < 600
}

impl Error {
    /// An `Api` error from a status code and a message.
    pub fn api(status: u16, message: String) -> (r: Error)
        ensures
            r == (Error::Api { status, message }),
    {
        Error::Api { status, message }
    }

    /// A `Validation` error from a message.
    pub fn validation(message: String) -> (r: Error)
        ensures
            r == Error::Validation(message),
    {
        Error::Validation(message)
    }

    /// The HTTP status code, for an `Api` error or a transport error
    /// that happened to carry one; `None` for every other kind.
    pub fn status_code(&self) -> (r: Option<u16>)
        ensures
            r == spec_status_code(*self),
    {
        match self {
            Error::Api { status, .. } => Some(*status),
            Error::Request { status, .. } => *status,
            _ => None,
        }
    }

    /// Whether this error carries a 4xx status.
    pub fn is_client_error(&self) -> (r: bool)
        ensures
            r == spec_is_client_error(*self),
    {
        match self.status_code() {
            Some(status) => 400 <= status && status < 500,
            None => false,
        }
    }

    /// Whether this error carries a 5xx status.
    pub fn is_server_error(&self) -> (r: bool)
        ensures
            r == spec_is_server_error(*self),
    {
        match self.status_code() {
            Some(status) => 500 <= status && status < 600,
            None => false,
        }
    }
}

/// Result type of this library's fallible operations.
pub type Result<T> = core::result::Result<T, Error>;

/// Outside of transport errors (which may carry a status code of their
/// own), an error is classified a client error exactly when it is an
/// `Api` error with a status in [400, 500), and a server error exactly
/// when it is an `Api` error with a status in [500, 600); every kind
/// that carries no HTTP status satisfies neither predicate.
pub proof fn lemma_error_classification(e: Error)
    requires
        !(e matches Error::Request { .. }),
    ensures
        spec_is_client_error(e) <==> (e matches Error::Api { status, .. } && 400 <= status
            < 500),
        spec_is_server_error(e) <==> (e matches Error::Api { status, .. } && 500 <= status
            < 600),
{
}

} // verus!
