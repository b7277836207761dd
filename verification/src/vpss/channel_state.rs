//! The states a processing channel is in, as type markers and as run-time
//! values.

use vstd::prelude::*;

verus! {

/// Set up, not enabled.
pub struct Disabled;

/// Enabled.
pub struct Enabled;

/// Whether a channel is enabled, at run time.
#[derive(Clone, Copy, Debug, PartialEq, Eq, Structural)]
pub enum Runtime {
    Disabled,
    Enabled,
}

} // verus!
