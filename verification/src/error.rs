//! The ways in which an operation on locations can fail.

use vstd::prelude::*;

verus! {

/// Why an operation gave no result.
#[derive(Debug, Clone, Copy, PartialEq, Eq, Structural)]
pub enum Error {
    /// The input does not have the shape that the scheme converts.
    NoMatch,
    /// The scheme works in one direction only, and the other one was asked for.
    UnsupportedDirection,
    /// The result would hold more junctions, or more ascents, than a location can.
    Overflow,
}

} // verus!
