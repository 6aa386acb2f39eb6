//! Small naming traits shared by the protocol's enumerations.

use vstd::prelude::*;

verus! {

/// A fixed display name.
pub trait Named {
    fn name(&self) -> &'static str;
}

/// A computed description.
pub trait Described {
    fn describe(&self) -> String;
}

/// A fallible conversion from one raw protocol byte.
pub trait ParseByte<T> {
    fn parse(raw: u8) -> Option<T>;
}

} // verus!
