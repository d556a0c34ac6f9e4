//! The decisions taken by the HTTP handlers, apart from the I/O they do.

pub mod subscriptions;
pub mod subsriptions_confirm;

use vstd::prelude::*;

verus! {

/// The HTTP statuses that the handlers answer with.
#[derive(Debug, Clone, Copy, PartialEq, Eq, Structural)]
pub enum HttpStatus {
    /// 200 OK
    Success,
    /// 400 Bad Request
    BadRequest,
    /// 401 Unauthorized
    Unauthorized,
    /// 500 Internal Server Error
    InternalServerError,
}

/// The numeric code of each status.
pub open spec fn status_number(status: HttpStatus) -> u16 {
    match status {
        HttpStatus::Success => 200,
        HttpStatus::BadRequest => 400,
        HttpStatus::Unauthorized => 401,
        HttpStatus::InternalServerError => 500,
    }
}

impl HttpStatus {
    /// The status's numeric code.
    pub fn code(&self) -> (r: u16)
        ensures
            r == status_number(*self),
    {
        match self {
            HttpStatus::Success => 200,
            HttpStatus::BadRequest => 400,
            HttpStatus::Unauthorized => 401,
            HttpStatus::InternalServerError => 500,
        }
    }
}

} // verus!
