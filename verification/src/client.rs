//! The client entry point of the game layer.

use vstd::prelude::*;

use crate::shader_errors::ShaderCreationFailure;

verus! {

/// Starts the client's play session. The session itself — object setup and
/// service wiring — is driven by the unverified front end; this entry point
/// reports readiness and cannot fail.
pub fn play() -> (r: Result<(), ShaderCreationFailure>)
    ensures
        r is Ok,
{
    Ok(())
}

} // verus!
