//! `GET /subscriptions/confirm`: a subscriber follows the confirmation link.

use vstd::prelude::*;
use crate::routes::{HttpStatus, status_number};

verus! {

/// The query parameters of the confirmation link.
pub struct Parameters {
    pub subscription_token: String,
}

/// Why a confirmation failed.
pub enum ConfirmationError {
    /// Something went wrong on the way: `context` says what was being done,
    /// `cause` what failed.
    UnexpectedError { context: String, cause: String },
    /// No subscriber holds the token.
    UnknownToken,
}

/// The status that a confirmed subscriber's row gets.
pub open spec fn active_status_text() -> Seq<char> {
    "active"@
}

/// The status that a confirmed subscriber's row gets.
pub fn active_status() -> (r: &'static str)
    ensures
        r@ == active_status_text(),
{
    proof {
        reveal_strlit("active");
    }
    "active"
}

/// What the service says of a lookup that failed.
pub open spec fn lookup_failure_context() -> Seq<char> {
    "Failed to retrive a subscriber with the provided token"@
}

/// What the service says of an update that failed.
pub open spec fn update_failure_context() -> Seq<char> {
    "Failed to update subscriber to 'confirmed' status"@
}

/// How an unknown token is described.
pub open spec fn unknown_token_text() -> Seq<char> {
    "There is no subscriber with the provided token"@
}

/// The status that answers each error.
pub open spec fn error_status(e: ConfirmationError) -> HttpStatus {
    match e {
        ConfirmationError::UnexpectedError { .. } => HttpStatus::InternalServerError,
        ConfirmationError::UnknownToken => HttpStatus::Unauthorized,
    }
}

/// The text that describes each error.
pub open spec fn error_text(e: ConfirmationError) -> Seq<char> {
    match e {
        ConfirmationError::UnexpectedError { context, .. } => context@,
        ConfirmationError::UnknownToken => unknown_token_text(),
    }
}

impl ConfirmationError {
    /// The status that answers the error: `500` for an unexpected error,
    /// `401` for an unknown token.
    pub fn status_code(&self) -> (r: HttpStatus)
        ensures
            r == error_status(*self),
    {
        match self {
            ConfirmationError::UnexpectedError { .. } => HttpStatus::InternalServerError,
            ConfirmationError::UnknownToken => HttpStatus::Unauthorized,
        }
    }

    /// The error's description.
    pub fn to_string(&self) -> (r: String)
        ensures
            r@ == error_text(*self),
    {
        match self {
            ConfirmationError::UnexpectedError { context, .. } => context.clone(),
            ConfirmationError::UnknownToken => {
                proof {
                    reveal_strlit("There is no subscriber with the provided token");
                }
                String::from_str("There is no subscriber with the provided token")
            },
        }
    }
}

/// The decision on the lookup of the token's subscriber: a failed lookup is
/// an unexpected error, a token that nobody holds is unknown, and a found
/// subscriber is the one to confirm.
pub fn subscriber_found(lookup: Result<Option<u128>, String>) -> (r: Result<u128, ConfirmationError>)
    ensures
        match lookup {
            Err(cause) => r matches Err(ConfirmationError::UnexpectedError { context: c, cause: k })
                && c@ == lookup_failure_context() && k@ == cause@,
            Ok(None) => r matches Err(ConfirmationError::UnknownToken),
            Ok(Some(id)) => r == Ok::<u128, ConfirmationError>(id),
        },
{
    match lookup {
        Err(cause) => {
            proof {
                reveal_strlit("Failed to retrive a subscriber with the provided token");
            }
            Err(ConfirmationError::UnexpectedError {
                context: String::from_str("Failed to retrive a subscriber with the provided token"),
                cause,
            })
        },
        Ok(None) => Err(ConfirmationError::UnknownToken),
        Ok(Some(id)) => Ok(id),
    }
}

/// The decision once the subscriber's status was set to `active_status()`:
/// success answers `200 OK`, a failed update is an unexpected error.
pub fn subscriber_confirmed(update: Result<(), String>) -> (r: Result<HttpStatus, ConfirmationError>)
    ensures
        match update {
            Err(cause) => r matches Err(ConfirmationError::UnexpectedError { context: c, cause: k })
                && c@ == update_failure_context() && k@ == cause@,
            Ok(()) => r matches Ok(HttpStatus::Success),
        },
{
    match update {
        Err(cause) => {
            proof {
                reveal_strlit("Failed to update subscriber to 'confirmed' status");
            }
            Err(ConfirmationError::UnexpectedError {
                context: String::from_str("Failed to update subscriber to 'confirmed' status"),
                cause,
            })
        },
        Ok(()) => Ok(HttpStatus::Success),
    }
}

/// Every failed confirmation is answered `401 Unauthorized` when no
/// subscriber holds the token, and `500 Internal Server Error` otherwise.
pub proof fn failed_confirmations_are_answered(e: ConfirmationError)
    ensures
        status_number(error_status(e)) == (if e is UnknownToken { 401u16 } else { 500u16 }),
{
}

} // verus!
