//! The engine's own top-level error.

use vstd::prelude::*;

verus! {

/// Failures of the engine's own plumbing.
#[derive(Clone, Copy, PartialEq, Eq, Structural, Debug)]
pub enum MyError {
    /// The shared configuration lock could not be taken.
    ConfigLockError,
}

impl MyError {
    /// The human-readable description.
    pub fn message(&self) -> (r: String)
        ensures
            r@ == "Config lock error"@,
    {
        "Config lock error".to_owned()
    }
}

} // verus!
