//! The failures of identifier generation.
use vstd::prelude::*;

verus! {

/// Why a generator could not produce an identifier.
#[derive(Debug, Clone, Copy, PartialEq, Eq, Structural)]
pub enum UuidError {
    /// The system clock could not be read, or reads a time before the UNIX epoch.
    ClockUnavailable,
    /// No hardware address could be retrieved for the node field.
    NodeUnavailable,
}

} // verus!
