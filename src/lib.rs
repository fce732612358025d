//! Generation, encoding, decoding and validation of 128-bit Universally
//! Unique Identifiers as RFC 4122 lays them out.
use vstd::prelude::*;

pub mod base;
pub mod clock;
pub mod error;
pub mod layout;
pub mod name;
pub mod random;
pub mod text;

pub use clock::{ClockSeq, TimeStamp, Timestamp, UTC_EPOCH};
pub use error::UuidError;
pub use layout::{Layout, Node, Variant, Version, UUID};
pub use name::Algo;
pub use text::Case;

verus! {

/// The identifier type under its second name.
pub type Uuid = UUID;

} // verus!
