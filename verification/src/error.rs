//! The error body of the HTTP API and the statuses it goes out with.
use vstd::prelude::*;

verus! {

/// The code and human-readable message of an API error.
#[derive(Debug, Clone)]
pub struct ApiErrorDetail {
    pub code: String,
    pub message: String,
}

/// The JSON body of an API error: `{"error": {"code": .., "message": ..}}`.
#[derive(Debug, Clone)]
pub struct ApiError {
    pub error: ApiErrorDetail,
}

/// The HTTP status `400 Bad Request`.
pub const STATUS_BAD_REQUEST: u16 = 400;

/// The HTTP status `404 Not Found`.
pub const STATUS_NOT_FOUND: u16 = 404;

/// The HTTP status `503 Service Unavailable`.
pub const STATUS_SERVICE_UNAVAILABLE: u16 = 503;

/// A result of an API handler: the value, or a status with an error body.
pub type ApiResult<T> = Result<T, (u16, ApiError)>;

impl ApiError {
    /// An error with the given code and message.
    pub fn new(code: &str, message: &str) -> (e: Self)
        ensures
            e.error.code@ == code@,
            e.error.message@ == message@,
    {
        ApiError { error: ApiErrorDetail { code: code.to_owned(), message: message.to_owned() } }
    }

    /// A `400 Bad Request` with the code `BAD_REQUEST`.
    pub fn bad_request(message: &str) -> (r: (u16, Self))
        ensures
            r.0 == STATUS_BAD_REQUEST,
            r.1.error.code@ == "BAD_REQUEST"@,
            r.1.error.message@ == message@,
    {
        (STATUS_BAD_REQUEST, ApiError::new("BAD_REQUEST", message))
    }

    /// A `503 Service Unavailable` with the given code.
    pub fn unavailable(code: &str, message: &str) -> (r: (u16, Self))
        ensures
            r.0 == STATUS_SERVICE_UNAVAILABLE,
            r.1.error.code@ == code@,
            r.1.error.message@ == message@,
    {
        (STATUS_SERVICE_UNAVAILABLE, ApiError::new(code, message))
    }

    /// A `404 Not Found` with the code `NOT_FOUND`.
    pub fn not_found(message: &str) -> (r: (u16, Self))
        ensures
            r.0 == STATUS_NOT_FOUND,
            r.1.error.code@ == "NOT_FOUND"@,
            r.1.error.message@ == message@,
    {
        (STATUS_NOT_FOUND, ApiError::new("NOT_FOUND", message))
    }
}

} // verus!
