//! Shared vocabulary of the action-dispatch subsystem.
//!
//! The process-wide service registry and its asynchronous dispatch live in
//! the unverified front end; verified code only shares the marker trait a
//! service implements and the distinction between callback flavours.

use vstd::prelude::*;

verus! {

/// Marker for types the service registry manages.
pub trait Service {

}

/// Whether an action's callback runs synchronously or is awaited.
#[derive(Clone, Copy, Debug, PartialEq, Eq, Structural)]
pub enum CallbackType {
    Sync,
    Async,
}

} // verus!
