//! The domain error taxonomy: every failure carries a stable code, a
//! coarse category that transport adapters map to a wire status, and a
//! human-readable message.

use vstd::prelude::*;

verus! {

/// Coarse classification of a failure, used by transport adapters to
/// pick the nearest wire-level status.
#[derive(Clone, Copy, Debug, PartialEq, Eq, Structural)]
pub enum ErrorCategory {
    BadRequest,
    Unauthorized,
    Forbidden,
    NotFound,
    Conflict,
    Internal,
}

/// A domain failure: stable machine-readable code, category, and
/// per-call message text.
#[derive(Debug)]
pub struct DomainError {
    pub code: &'static str,
    pub category: ErrorCategory,
    pub message: String,
}

impl DomainError {
    pub fn new(code: &'static str, category: ErrorCategory, message: String) -> (r: Self)
        ensures
            r.code@ == code@,
            r.category == category,
            r.message@ == message@,
    {
        DomainError { code, category, message }
    }

    pub fn bad_request(code: &'static str, message: String) -> (r: Self)
        ensures
            r.code@ == code@,
            r.category == ErrorCategory::BadRequest,
            r.message@ == message@,
    {
        Self::new(code, ErrorCategory::BadRequest, message)
    }

    pub fn not_found(code: &'static str, message: String) -> (r: Self)
        ensures
            r.code@ == code@,
            r.category == ErrorCategory::NotFound,
            r.message@ == message@,
    {
        Self::new(code, ErrorCategory::NotFound, message)
    }

    pub fn internal(code: &'static str, message: String) -> (r: Self)
        ensures
            r.code@ == code@,
            r.category == ErrorCategory::Internal,
            r.message@ == message@,
    {
        Self::new(code, ErrorCategory::Internal, message)
    }
}

/// The generic internal error: what every repository-layer failure is
/// wrapped into.
pub open spec fn is_internal(e: DomainError) -> bool {
    e.category == ErrorCategory::Internal
}

/// The predefined "tenant does not exist" error.
pub open spec fn is_tenant_not_found(e: DomainError) -> bool {
    e.code@ == "E200101"@ && e.category == ErrorCategory::NotFound
}

/// The predefined "staff does not exist" error.
pub open spec fn is_staff_not_found(e: DomainError) -> bool {
    e.code@ == "E200201"@ && e.category == ErrorCategory::NotFound
}

pub fn internal() -> (r: DomainError)
    ensures
        r.code@ == "E100001"@,
        r.category == ErrorCategory::Internal,
        r.message@ == "Internal error"@,
{
    DomainError::internal("E100001", "Internal error".to_owned())
}

pub fn invalid_argument() -> (r: DomainError)
    ensures
        r.code@ == "E100002"@,
        r.category == ErrorCategory::BadRequest,
        r.message@ == "Invalid argument"@,
{
    DomainError::bad_request("E100002", "Invalid argument".to_owned())
}

pub fn tenant_not_found() -> (r: DomainError)
    ensures
        is_tenant_not_found(r),
        r.message@ == "Tenant not found"@,
{
    DomainError::not_found("E200101", "Tenant not found".to_owned())
}

pub fn staff_not_found() -> (r: DomainError)
    ensures
        is_staff_not_found(r),
        r.message@ == "Staff not found"@,
{
    DomainError::not_found("E200201", "Staff not found".to_owned())
}

} // verus!
