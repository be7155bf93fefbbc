//! The domain error set and its mapping to transport status codes.
//!
//! Storage failures become `Database`, malformed stored payloads become
//! `Serialization`, semantic validation failures become `InvalidInput`,
//! and a uniqueness violation becomes `AlreadyExists`. Absence of rows is
//! never an error: it is reported as an empty result, `false` or zero.

use vstd::prelude::*;

verus! {

/// What can go wrong in the repository and below.
#[derive(Debug)]
pub enum LikesError {
    /// A backend failure not otherwise classified; carries the backend's
    /// own message, which is logged and never returned to a caller.
    Database(String),
    /// A malformed stored or transmitted payload.
    Serialization(String),
    /// A malformed or missing required field, rejected before any I/O.
    InvalidInput(String),
    /// A referenced resource is absent where absence must be reported.
    NotFound(String),
    /// A uniqueness violation: the (user, post) pair is already liked.
    AlreadyExists(String),
    /// An invariant violation inside the service itself.
    Internal(String),
}

/// The transport-level status classes the service replies with.
#[derive(Clone, Copy, Debug, PartialEq, Eq, Structural)]
pub enum RpcCode {
    InvalidArgument,
    NotFound,
    AlreadyExists,
    Internal,
}

/// A transport-level error reply: a status class and a message.
#[derive(Debug)]
pub struct RpcStatus {
    pub code: RpcCode,
    pub message: String,
}

/// Translates a domain error to its transport status. Validation errors
/// map to `InvalidArgument`, absence to `NotFound`, a uniqueness
/// violation to `AlreadyExists`. Backend and serialization failures map
/// to `Internal` with an opaque message: their detail never reaches the
/// caller.
pub fn status_of(e: LikesError) -> (r: RpcStatus)
    ensures
        match e {
            LikesError::InvalidInput(m) => r.code == RpcCode::InvalidArgument && r.message == m,
            LikesError::NotFound(m) => r.code == RpcCode::NotFound && r.message == m,
            LikesError::AlreadyExists(m) => r.code == RpcCode::AlreadyExists && r.message == m,
            LikesError::Database(_) => r.code == RpcCode::Internal && r.message@
                == "Database error occurred"@,
            LikesError::Serialization(_) => r.code == RpcCode::Internal && r.message@
                == "Serialization error occurred"@,
            LikesError::Internal(m) => r.code == RpcCode::Internal && r.message == m,
        },
{
    match e {
        LikesError::InvalidInput(m) => RpcStatus { code: RpcCode::InvalidArgument, message: m },
        LikesError::NotFound(m) => RpcStatus { code: RpcCode::NotFound, message: m },
        LikesError::AlreadyExists(m) => RpcStatus { code: RpcCode::AlreadyExists, message: m },
        LikesError::Database(_) => RpcStatus {
            code: RpcCode::Internal,
            message: "Database error occurred".to_owned(),
        },
        LikesError::Serialization(_) => RpcStatus {
            code: RpcCode::Internal,
            message: "Serialization error occurred".to_owned(),
        },
        LikesError::Internal(m) => RpcStatus { code: RpcCode::Internal, message: m },
    }
}

} // verus!
