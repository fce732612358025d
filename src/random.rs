//! Version-4 identifiers, from random bits.
use vstd::prelude::*;

use crate::layout::{Layout, Variant, Version, UUID};

verus! {

/// Relies on `rand::random`: a value drawn from the thread-local generator,
/// of which nothing is known in advance.
pub assume_specification<T>[ rand::random::<T> ]() -> T
    where
        rand::distributions::Standard: rand::distributions::Distribution<T>,
;

impl UUID {
    /// Generate a version-4 UUID from 128 random bits: the bits are mapped
    /// onto the fields as `Layout::hash_fields` maps bytes, with version RAND
    /// and variant RFC.
    pub fn v4() -> (r: Layout)
        ensures
            exists|b: Seq<u8>| b.len() == 16 && r == Layout::spec_hash_fields(b, Version::RAND),
            r.spec_version() == Some(Version::RAND),
            r.spec_variant() == Some(Variant::RFC),
    {
        let bytes: [u8; 16] = rand::random::<[u8; 16]>();
        assert(bytes@.len() == 16);
        Layout::hash_fields(bytes, Version::RAND)
    }

    /// New UUID version-4 from a truly-random number; the same mapping as `v4`.
    pub fn new_from_rand() -> (r: Layout)
        ensures
            exists|b: Seq<u8>| b.len() == 16 && r == Layout::spec_hash_fields(b, Version::RAND),
            r.spec_version() == Some(Version::RAND),
            r.spec_variant() == Some(Variant::RFC),
    {
        let bytes: [u8; 16] = rand::random::<[u8; 16]>();
        assert(bytes@.len() == 16);
        Layout::hash_fields(bytes, Version::RAND)
    }
}

} // verus!
