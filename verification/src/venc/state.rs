//! The states a handle is in, as type markers and as run-time values.

use vstd::prelude::*;

verus! {

/// Created, not started.
pub struct Initialized;

/// Started.
pub struct Started;

/// The state a handle is in at run time.
#[derive(Clone, Copy, Debug, PartialEq, Eq, Structural)]
pub enum Runtime {
    Initialized,
    Started,
}

} // verus!
