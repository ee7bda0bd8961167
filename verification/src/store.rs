//! What the library knows of the backing store: calls either succeed with
//! plain values or fail opaquely. The store itself is an outside
//! collaborator; handlers receive its outcomes as arguments.
use vstd::prelude::*;

verus! {

/// A failed store call. The cause stays server-side; every handler maps it
/// to the uniform error envelope.
#[derive(Clone, Copy, Debug, PartialEq, Eq, Structural)]
pub struct StoreError;

/// What a successful write reports back: how many rows it touched and the
/// last identifier the store assigned.
#[derive(Clone, Copy, Debug, PartialEq, Eq, Structural)]
pub struct ExecResult {
    pub rows_affected: u64,
    pub last_insert_id: u64,
}

} // verus!
