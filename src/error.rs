use vstd::prelude::*;
use crate::membership::ValidationError;
use crate::resolve::NotFoundError;

verus! {

/// Why a run stops before it is done.
pub enum RunError {
    /// A target node is not a member of the declared group.
    Validation(ValidationError),
    /// A named group, configuration or image is absent.
    NotFound(NotFoundError),
    /// A backend call failed, with the backend's own message.
    Upstream(String),
}

impl RunError {
    /// Process exit code for this error: every error fails the run.
    pub fn exit_code(&self) -> (r: i32)
        ensures
            r == 1,
    {
        1
    }

    /// Name of the error's kind.
    pub fn kind(&self) -> (r: &'static str)
        ensures
            self is Validation ==> r@ == "validation"@,
            self is NotFound ==> r@ == "not found"@,
            self is Upstream ==> r@ == "upstream"@,
    {
        match self {
            RunError::Validation(_) => "validation",
            RunError::NotFound(_) => "not found",
            RunError::Upstream(_) => "upstream",
        }
    }
}

} // verus!
