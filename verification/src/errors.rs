use vstd::prelude::*;

verus! {

/// Errors surfaced by the core service library.
///
/// The string payloads are the short machine-readable messages that the
/// surrounding application maps onto its transport-level error codes.
#[derive(Debug, PartialEq, Eq)]
pub enum CoreErrors {
    JWTGenerationError(String),
    HashPasswordError(String),
    DatabaseServiceError(String),
    DataValidationError(String),
    Unknown,
}

/// The result is a database-service error carrying exactly this message.
pub open spec fn is_db_error<T>(r: Result<T, CoreErrors>, msg: Seq<char>) -> bool {
    match r {
        Err(CoreErrors::DatabaseServiceError(m)) => m@ == msg,
        _ => false,
    }
}

/// The authorization taxonomy: every denial an operation can produce.
///
/// `PermissionDenied` and `NotAssociated` are distinguished here so that the
/// mutation service can reason about them separately; the application folds
/// both into one opaque denial before anything crosses the system boundary.
#[derive(Clone, Copy, Debug, PartialEq, Eq, Structural)]
pub enum AccessError {
    /// No grant path reaches the resource, or the resolved level is too weak.
    PermissionDenied,
    /// A grant mutation targeted a user with no grant on the resource.
    NotAssociated,
    /// A grant or note row would violate the one-scope-field invariant.
    InvalidResourceScope,
}

impl AccessError {
    /// The uniform message the application sends for this denial.
    pub fn message(&self) -> (r: &'static str)
        ensures
            r@ == self.spec_message(),
    {
        match self {
            AccessError::PermissionDenied => "permission_denied",
            AccessError::NotAssociated => "not_associated",
            AccessError::InvalidResourceScope => "invalid_resource_scope",
        }
    }

    /// Folds the denial into the library's error enum, under the uniform
    /// messages the transport layer reports.
    pub fn to_core(&self) -> (r: CoreErrors)
        ensures
            r matches CoreErrors::DatabaseServiceError(m) && m@ == self.spec_message(),
    {
        CoreErrors::DatabaseServiceError(self.message().to_owned())
    }

    pub open spec fn spec_message(self) -> Seq<char> {
        match self {
            AccessError::PermissionDenied => "permission_denied"@,
            AccessError::NotAssociated => "not_associated"@,
            AccessError::InvalidResourceScope => "invalid_resource_scope"@,
        }
    }
}

} // verus!
