//! The HTTP statuses that the service answers with.
use vstd::prelude::*;

verus! {

/// An HTTP status of the service's answers.
#[derive(Debug, Clone, Copy, PartialEq, Eq, Structural)]
pub enum ApiStatus {
    /// 200 OK
    Success,
    /// 201 Created
    Created,
    /// 400 Bad Request
    BadRequest,
    /// 401 Unauthorized
    Unauthorized,
    /// 404 Not Found
    NotFound,
    /// 500 Internal Server Error
    InternalServerError,
    /// 503 Service Unavailable
    ServiceUnavailable,
}

impl ApiStatus {
    /// The numeric HTTP status code.
    pub fn code(&self) -> (r: u16)
        ensures
            r == match *self {
                ApiStatus::Success => 200u16,
                ApiStatus::Created => 201u16,
                ApiStatus::BadRequest => 400u16,
                ApiStatus::Unauthorized => 401u16,
                ApiStatus::NotFound => 404u16,
                ApiStatus::InternalServerError => 500u16,
                ApiStatus::ServiceUnavailable => 503u16,
            },
    {
        match self {
            ApiStatus::Success => 200,
            ApiStatus::Created => 201,
            ApiStatus::BadRequest => 400,
            ApiStatus::Unauthorized => 401,
            ApiStatus::NotFound => 404,
            ApiStatus::InternalServerError => 500,
            ApiStatus::ServiceUnavailable => 503,
        }
    }
}

} // verus!
