//! The control messages the event-pump thread understands.

use vstd::prelude::*;

verus! {

/// What the controlling thread can ask of the inbound event pump; any
/// message stops it.
#[derive(Clone, Copy, Debug, PartialEq, Eq, Structural)]
pub enum ThreadControl {
    Pause,
    Resume,
    Stop,
}

} // verus!
