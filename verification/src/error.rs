//! Engine-level errors, distinct from a hook's own outcome.
//!
//! A failing hook is reported through the hook result taxonomy; these errors
//! mean the engine itself could not resolve or launch anything.

use vstd::prelude::*;

verus! {

/// A resolution- or invocation-time failure of the engine.
#[derive(Clone, Copy, PartialEq, Eq, Structural, Debug)]
pub enum HooksError {
    /// A path could not be represented as text for the platform's
    /// process-launch or quoting scheme.
    PathToString,
    /// Shell expansion of the configured hooks path failed (an unresolvable
    /// environment reference).
    Expand,
    /// The repository's own configuration store could not be read.
    Git,
}

impl HooksError {
    /// A short description of the failure, for callers that report it.
    pub fn describe(&self) -> (r: &'static str)
        ensures
            *self is PathToString ==> r@ == "path cannot be represented as text"@,
            *self is Expand ==> r@ == "shell expansion of hooks path failed"@,
            *self is Git ==> r@ == "repository configuration could not be read"@,
    {
        match self {
            HooksError::PathToString => "path cannot be represented as text",
            HooksError::Expand => "shell expansion of hooks path failed",
            HooksError::Git => "repository configuration could not be read",
        }
    }
}

} // verus!
