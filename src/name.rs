//! Name-based identifiers: version 3 (MD5) and version 5 (SHA-1).
use vstd::prelude::*;
use vstd::string::StringSliceAdditionalSpecFns;

use crate::layout::{Layout, Variant, Version, UUID};

verus! {

/// The MD5 digest of a byte sequence.
pub uninterp spec fn md5_of(data: Seq<u8>) -> Seq<u8>;

/// The SHA-1 digest of a byte sequence.
pub uninterp spec fn sha1_of(data: Seq<u8>) -> Seq<u8>;

/// Relies on `md5::compute`: the 16-byte MD5 digest of the data, a function
/// of the data alone.
#[verifier::external_body]
fn md5_digest(data: &Vec<u8>) -> (r: [u8; 16])
    ensures
        r@ == md5_of(data@),
{
    md5::compute(data).0
}

/// Relies on `sha1::Sha1::from` and `Digest::bytes`: the 20-byte SHA-1
/// digest of the data, a function of the data alone.
#[verifier::external_body]
fn sha1_digest(data: &Vec<u8>) -> (r: [u8; 20])
    ensures
        r@ == sha1_of(data@),
{
    sha1::Sha1::from(data).digest().bytes()
}

/// The bytes hashed for a name: the namespace's 16 bytes, then the name's
/// UTF-8 bytes.
pub open spec fn name_input(ns: UUID, name: Seq<u8>) -> Seq<u8> {
    ns.0@ + name
}

/// The version-3 identifier of a name in a namespace.
pub open spec fn md5_name_layout(ns: UUID, name: Seq<u8>) -> Layout {
    Layout::spec_hash_fields(md5_of(name_input(ns, name)), Version::MD5)
}

/// The version-5 identifier of a name in a namespace: of the 20 digest bytes
/// the first 16 are used.
pub open spec fn sha1_name_layout(ns: UUID, name: Seq<u8>) -> Layout {
    Layout::spec_hash_fields(sha1_of(name_input(ns, name)).take(16), Version::SHA1)
}

/// The bytes of the predefined namespaces, which differ in their fourth byte.
pub open spec fn namespace_bytes(fourth: u8) -> Seq<u8> {
    seq![0x6bu8, 0xa7, 0xb8, fourth, 0x9d, 0xad, 0x11, 0xd1, 0x80, 0xb4, 0x00, 0xc0, 0x4f, 0xd4, 0x30, 0xc8]
}

/// The hash algorithm of a name-based identifier.
#[derive(Debug, Clone, Copy, PartialEq, Eq, Structural)]
pub enum Algo {
    MD5,
    SHA1,
}

impl UUID {
    /// UUID namespace for domain name system (DNS): `6ba7b810-9dad-11d1-80b4-00c04fd430c8`.
    pub fn namespace_dns() -> (r: UUID)
        ensures
            r.0@ == namespace_bytes(0x10),
    {
        let r = UUID([0x6b, 0xa7, 0xb8, 0x10, 0x9d, 0xad, 0x11, 0xd1, 0x80, 0xb4, 0x00, 0xc0, 0x4f, 0xd4, 0x30, 0xc8]);
        assert(r.0@ =~= namespace_bytes(0x10));
        r
    }

    /// UUID namespace for ISO object identifiers (OIDs): `6ba7b812-9dad-11d1-80b4-00c04fd430c8`.
    pub fn namespace_oid() -> (r: UUID)
        ensures
            r.0@ == namespace_bytes(0x12),
    {
        let r = UUID([0x6b, 0xa7, 0xb8, 0x12, 0x9d, 0xad, 0x11, 0xd1, 0x80, 0xb4, 0x00, 0xc0, 0x4f, 0xd4, 0x30, 0xc8]);
        assert(r.0@ =~= namespace_bytes(0x12));
        r
    }

    /// UUID namespace for uniform resource locators (URLs): `6ba7b811-9dad-11d1-80b4-00c04fd430c8`.
    pub fn namespace_url() -> (r: UUID)
        ensures
            r.0@ == namespace_bytes(0x11),
    {
        let r = UUID([0x6b, 0xa7, 0xb8, 0x11, 0x9d, 0xad, 0x11, 0xd1, 0x80, 0xb4, 0x00, 0xc0, 0x4f, 0xd4, 0x30, 0xc8]);
        assert(r.0@ =~= namespace_bytes(0x11));
        r
    }

    /// UUID namespace for X.500 distinguished names (DNs): `6ba7b814-9dad-11d1-80b4-00c04fd430c8`.
    pub fn namespace_x500() -> (r: UUID)
        ensures
            r.0@ == namespace_bytes(0x14),
    {
        let r = UUID([0x6b, 0xa7, 0xb8, 0x14, 0x9d, 0xad, 0x11, 0xd1, 0x80, 0xb4, 0x00, 0xc0, 0x4f, 0xd4, 0x30, 0xc8]);
        assert(r.0@ =~= namespace_bytes(0x14));
        r
    }

    /// The bytes to hash for `data` in the namespace `ns`.
    fn concat(data: &str, ns: UUID) -> (r: Vec<u8>)
        ensures
            r@ == name_input(ns, data.spec_bytes()),
    {
        let name = data.as_bytes();
        let mut r: Vec<u8> = Vec::new();
        let mut i: usize = 0;
        while i < 16
            invariant
                i <= 16,
                r@ =~= ns.0@.take(i as int),
            decreases 16 - i,
        {
            r.push(ns.0[i]);
            i = i + 1;
        }
        let mut j: usize = 0;
        while j < name.len()
            invariant
                j <= name@.len(),
                name@ == data.spec_bytes(),
                r@ =~= ns.0@ + name@.take(j as int),
            decreases name@.len() - j,
        {
            r.push(name[j]);
            j = j + 1;
        }
        assert(name@.take(name@.len() as int) =~= name@);
        r
    }

    /// New version-3 UUID: the MD5 digest of the namespace's bytes followed
    /// by the name, mapped onto the fields, with version MD5 and variant RFC.
    pub fn using_md5(data: &str, ns: UUID) -> (r: Layout)
        ensures
            r == md5_name_layout(ns, data.spec_bytes()),
            r.spec_version() == Some(Version::MD5),
            r.spec_variant() == Some(Variant::RFC),
    {
        let hash = md5_digest(&Self::concat(data, ns));
        Layout::hash_fields(hash, Version::MD5)
    }

    /// New version-5 UUID: the first 16 bytes of the SHA-1 digest of the
    /// namespace's bytes followed by the name, mapped onto the fields, with
    /// version SHA1 and variant RFC.
    pub fn using_sha1(data: &str, ns: UUID) -> (r: Layout)
        ensures
            r == sha1_name_layout(ns, data.spec_bytes()),
            r.spec_version() == Some(Version::SHA1),
            r.spec_variant() == Some(Variant::RFC),
    {
        let d = sha1_digest(&Self::concat(data, ns));
        let hash: [u8; 16] = [
            d[0], d[1], d[2], d[3], d[4], d[5], d[6], d[7],
            d[8], d[9], d[10], d[11], d[12], d[13], d[14], d[15],
        ];
        assert(hash@ =~= d@.take(16));
        Layout::hash_fields(hash, Version::SHA1)
    }
}

impl UUID {
    /// New name-based UUID with the selected algorithm: version 3 for MD5,
    /// version 5 for SHA-1.
    pub fn from_name(data: &str, ns: UUID, algo: Algo) -> (r: Layout)
        ensures
            r == match algo {
                Algo::MD5 => md5_name_layout(ns, data.spec_bytes()),
                Algo::SHA1 => sha1_name_layout(ns, data.spec_bytes()),
            },
    {
        match algo {
            Algo::MD5 => UUID::using_md5(data, ns),
            Algo::SHA1 => UUID::using_sha1(data, ns),
        }
    }
}

/// Name-based generation is deterministic: two calls with the same namespace
/// and name give byte-identical identifiers, for MD5 and for SHA-1.
pub proof fn lemma_name_based_deterministic(
    ns: UUID,
    name: Seq<u8>,
    md5_a: Layout,
    md5_b: Layout,
    sha1_a: Layout,
    sha1_b: Layout,
)
    requires
        md5_a == md5_name_layout(ns, name),
        md5_b == md5_name_layout(ns, name),
        sha1_a == sha1_name_layout(ns, name),
        sha1_b == sha1_name_layout(ns, name),
    ensures
        md5_a.spec_be_bytes() == md5_b.spec_be_bytes(),
        sha1_a.spec_be_bytes() == sha1_b.spec_be_bytes(),
{
}

} // verus!
