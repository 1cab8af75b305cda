//! Unified error type for service operations.
//!
//! The transport layer maps each kind to one HTTP status: validation to
//! 400, not-found to 404, conflict to 409, unauthorized to 401 and
//! internal to 500.

use vstd::prelude::*;
use vstd::string::StringExecFns;

verus! {

/// One error kind per caller-visible failure class; the payload is a
/// human-readable message.
#[derive(Debug, Clone, PartialEq)]
pub enum ServiceError {
    /// Bad input shape or value.
    Validation(String),
    /// A referenced entity is absent.
    NotFound(String),
    /// Missing, invalid or expired credential.
    Unauthorized(String),
    /// Uniqueness violation on a natural key.
    Conflict(String),
    /// Storage or cryptographic failure not attributable to caller input.
    Internal(String),
}

impl ServiceError {
    /// Create a validation error.
    pub fn validation(message: &str) -> (e: ServiceError)
        ensures
            e is Validation,
    {
        ServiceError::Validation(message.to_owned())
    }

    /// Create a not-found error; the message names the missing resource.
    pub fn not_found(resource: &str) -> (e: ServiceError)
        ensures
            e is NotFound,
    {
        ServiceError::NotFound(resource.to_owned().concat(" not found"))
    }

    /// Create an unauthorized error.
    pub fn unauthorized(message: &str) -> (e: ServiceError)
        ensures
            e is Unauthorized,
    {
        ServiceError::Unauthorized(message.to_owned())
    }

    /// Create a conflict error.
    pub fn conflict(message: &str) -> (e: ServiceError)
        ensures
            e is Conflict,
    {
        ServiceError::Conflict(message.to_owned())
    }

    /// Create an internal error.
    pub fn internal(message: &str) -> (e: ServiceError)
        ensures
            e is Internal,
    {
        ServiceError::Internal(message.to_owned())
    }

    /// The message carried by the error.
    pub fn message(&self) -> (m: &String)
        ensures
            m == match self {
                ServiceError::Validation(s) => s,
                ServiceError::NotFound(s) => s,
                ServiceError::Unauthorized(s) => s,
                ServiceError::Conflict(s) => s,
                ServiceError::Internal(s) => s,
            },
    {
        match self {
            ServiceError::Validation(s) => s,
            ServiceError::NotFound(s) => s,
            ServiceError::Unauthorized(s) => s,
            ServiceError::Conflict(s) => s,
            ServiceError::Internal(s) => s,
        }
    }
}

/// Result type alias for service operations.
pub type ServiceResult<T> = Result<T, ServiceError>;

} // verus!
