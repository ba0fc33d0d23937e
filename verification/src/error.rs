//! The service-level error kinds and their mapping to HTTP status codes.

use vstd::prelude::*;

verus! {

/// Every failure the service distinguishes, as seen at a handler boundary.
#[derive(Clone, Copy, Debug, PartialEq, Eq, Structural)]
pub enum ServiceError {
    /// The requested download path does not have the required shape.
    BadRequest,
    /// No stored file backs the requested identifier.
    NotFound,
    /// A file for a freshly generated identifier already exists.
    AlreadyExists,
    /// Any other storage failure (permissions, disk full, ...).
    IoError,
    /// The client went away mid-stream; the response is abandoned.
    TransportError,
}

/// The status code each error kind is answered with, or `None` where the
/// connection is simply abandoned and no response is sent at all.
pub open spec fn spec_status_for_error(e: ServiceError) -> Option<u16> {
    match e {
        ServiceError::BadRequest => Some(404u16),
        ServiceError::NotFound => Some(404u16),
        ServiceError::AlreadyExists => Some(500u16),
        ServiceError::IoError => Some(500u16),
        ServiceError::TransportError => None,
    }
}

/// Maps an error kind to the status code of the response that reports it.
pub fn status_for_error(e: ServiceError) -> (s: Option<u16>)
    ensures
        s == spec_status_for_error(e),
{
    match e {
        ServiceError::BadRequest => Some(404),
        ServiceError::NotFound => Some(404),
        ServiceError::AlreadyExists => Some(500),
        ServiceError::IoError => Some(500),
        ServiceError::TransportError => None,
    }
}

/// Classifies a storage failure that is neither a missing file nor a
/// name collision: the catch-all I/O failure kind.
pub fn other() -> (e: ServiceError)
    ensures
        e == ServiceError::IoError,
{
    ServiceError::IoError
}

} // verus!
