//! The error taxonomy shared by every operation of the core.

use vstd::prelude::*;

verus! {

/// Every failure a request can end in.  Each variant carries the offending
/// field name (or an opaque detail for store failures) so that a response
/// body can name it.
#[derive(Debug, Clone, PartialEq, Eq)]
pub enum FieldError {
    /// Missing, malformed, or expired credential.
    Unauthenticated,
    /// Authenticated, but the role or ownership check failed.
    PermissionDenied,
    /// Malformed input; carries the field name, e.g. an order key outside
    /// the whitelist.
    InvalidParams(String),
    /// A referenced resource does not exist; carries the field name.
    NotFound(String),
    /// A uniqueness violation on create; carries the field name.
    AlreadyExists(String),
    /// An unexpected store-level failure; carries an opaque detail.
    DatabaseFailed(String),
}

impl FieldError {
    /// A stable machine-readable code for the variant.
    pub fn code(&self) -> (r: u32)
        ensures
            r == match *self {
                FieldError::Unauthenticated => 401u32,
                FieldError::PermissionDenied => 403u32,
                FieldError::InvalidParams(_) => 400u32,
                FieldError::NotFound(_) => 404u32,
                FieldError::AlreadyExists(_) => 409u32,
                FieldError::DatabaseFailed(_) => 500u32,
            },
    {
        match self {
            FieldError::Unauthenticated => 401,
            FieldError::PermissionDenied => 403,
            FieldError::InvalidParams(_) => 400,
            FieldError::NotFound(_) => 404,
            FieldError::AlreadyExists(_) => 409,
            FieldError::DatabaseFailed(_) => 500,
        }
    }

    /// The field name carried by the variant, when there is one.
    pub fn field(&self) -> (r: Option<&String>)
        ensures
            r == match *self {
                FieldError::InvalidParams(ref f) => Some(f),
                FieldError::NotFound(ref f) => Some(f),
                FieldError::AlreadyExists(ref f) => Some(f),
                FieldError::DatabaseFailed(ref f) => Some(f),
                _ => None::<&String>,
            },
    {
        match self {
            FieldError::InvalidParams(f) => Some(f),
            FieldError::NotFound(f) => Some(f),
            FieldError::AlreadyExists(f) => Some(f),
            FieldError::DatabaseFailed(f) => Some(f),
            _ => None,
        }
    }
}

} // verus!
