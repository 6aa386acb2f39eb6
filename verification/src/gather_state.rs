//! Which out-of-band stream the protocol engine is currently gathering.

use vstd::prelude::*;

verus! {

/// Where the next channel-pressure byte on the management channel goes.
#[derive(Clone, Copy, Debug, PartialEq, Eq, Structural)]
pub enum GatherState {
    /// No stream is being gathered.
    Idle,
    Name,
    Text,
    Category,
    Binary,
}

impl Default for GatherState {
    fn default() -> (r: Self)
        ensures
            r == GatherState::Idle,
    {
        GatherState::Idle
    }
}

} // verus!
