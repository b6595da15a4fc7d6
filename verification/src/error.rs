use vstd::prelude::*;

verus! {

/// HTTP status code sent for a request the client got wrong.
pub const STATUS_BAD_REQUEST: u16 = 400;

/// HTTP status code sent when the addressed entity does not exist.
pub const STATUS_NOT_FOUND: u16 = 404;

/// HTTP status code sent when the server itself failed.
pub const STATUS_INTERNAL: u16 = 500;

/// An error answered to an API client: an HTTP status and a message.
#[derive(Clone, Debug, PartialEq, Eq)]
pub struct ApiError {
    pub status: u16,
    pub message: String,
}

impl ApiError {
    /// A `400 Bad Request` error with the given message.
    pub fn bad_request(message: String) -> (e: ApiError)
        ensures
            e.status == STATUS_BAD_REQUEST,
            e.message@ == message@,
    {
        ApiError { status: STATUS_BAD_REQUEST, message }
    }

    /// A `404 Not Found` error with the given message.
    pub fn not_found(message: String) -> (e: ApiError)
        ensures
            e.status == STATUS_NOT_FOUND,
            e.message@ == message@,
    {
        ApiError { status: STATUS_NOT_FOUND, message }
    }

    /// A `500 Internal Server Error` with the given message.
    pub fn internal(message: String) -> (e: ApiError)
        ensures
            e.status == STATUS_INTERNAL,
            e.message@ == message@,
    {
        ApiError { status: STATUS_INTERNAL, message }
    }
}

} // verus!
