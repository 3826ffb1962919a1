//! The error taxonomy of the compilation pipeline. Authoring never fails;
//! all fallibility concentrates in `compile` and `execute`.

use vstd::prelude::*;

verus! {

/// Why a compile or execute call failed.
#[derive(Debug, Clone, PartialEq)]
pub enum Error {
    /// Scope imbalance detected while compiling a log: always fatal to that
    /// compile call, never silently repaired.
    StructuralError,
    /// An animation-register reference the backend cannot resolve; carries
    /// the offending register name.
    UnresolvedReference(String),
    /// Any other backend-specific compile or serialize failure; carries the
    /// backend's description.
    BackendError(String),
}

impl Error {
    /// A short description of the failure class.
    pub fn message(&self) -> (r: &str)
        ensures
            r@ == match self {
                Error::StructuralError => "scope imbalance in instruction log"@,
                Error::UnresolvedReference(_) => "unresolved animation register"@,
                Error::BackendError(_) => "backend failure"@,
            },
    {
        match self {
            Error::StructuralError => "scope imbalance in instruction log",
            Error::UnresolvedReference(_) => "unresolved animation register",
            Error::BackendError(_) => "backend failure",
        }
    }
}

} // verus!
