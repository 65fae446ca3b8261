//! The choice of the backend that reaches the repository.

use vstd::prelude::*;

verus! {

/// The backends there are.
#[derive(Debug, Clone, Copy, PartialEq, Eq, Structural)]
pub enum BackendKind {
    Git2,
}

impl Default for BackendKind {
    fn default() -> (kind: Self)
        ensures
            kind == BackendKind::Git2,
    {
        BackendKind::Git2
    }
}

/// Opens repositories with the backend of a kind.
#[derive(Debug, Clone, Copy)]
pub struct GitDispatcher;

impl GitDispatcher {
    /// The kind of backend that is used where none is named.
    pub fn default_kind() -> (kind: BackendKind)
        ensures
            kind == BackendKind::Git2,
    {
        BackendKind::Git2
    }
}

} // verus!
