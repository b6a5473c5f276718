use vstd::prelude::*;

verus! {

/// The kind of failure a controller operation reports.
///
/// Every component-level failure is returned to the caller as one of
/// these kinds; compensation failures during a rollback escalate to
/// `InconsistentState` so that "the operation failed cleanly" can be
/// told apart from "the system is now in a bad state".
#[derive(Clone, Copy, Debug, PartialEq, Eq, Structural)]
pub enum ControllerError {
    /// A path or tag collision: the target already exists.
    AlreadyExists,
    /// An entity lookup missed, including "no admin user found".
    NotFound,
    /// A filesystem operation failed.
    IOError,
    /// Metadata persistence or a metadata query failed.
    StoreError,
    /// Hashing or verifying a credential failed (distinct from a
    /// simple wrong-password mismatch, which is not an error).
    CredentialError,
    /// A compensating action itself failed: orphaned disk state or
    /// metadata may remain.
    InconsistentState,
}

} // verus!
