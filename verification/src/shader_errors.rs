//! The error value reported when a shader cannot be created.

use vstd::prelude::*;

verus! {

/// A shader could not be created; the message names the source that
/// failed.
#[derive(Debug)]
pub struct ShaderCreationFailure {
    pub source: String,
}

impl ShaderCreationFailure {
    /// Wraps the failing source's description.
    pub fn new(source: String) -> (e: ShaderCreationFailure)
        ensures
            e.source == source,
    {
        ShaderCreationFailure { source }
    }

    /// The human-readable description of the failure.
    pub fn message(&self) -> (m: String)
        ensures
            m@ == self.source@,
    {
        self.source.clone()
    }
}

} // verus!
