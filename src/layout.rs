//! The 128-bit field structure of an identifier, its packing and unpacking,
//! and its canonical 16-byte big-endian form.
use vstd::prelude::*;

verus! {

/// Variant is a type field that determines the layout of the UUID.
///
/// In this design the variant occupies the top nibble of
/// `clock_seq_high_and_reserved`: NCS = 0, RFC = 1, MS = 2, FUT = 3.
#[derive(Debug, Clone, Copy, PartialEq, Eq, Structural)]
pub enum Variant {
    /// Reserved, NCS backward compatibility.
    NCS,
    /// The variant specified in `rfc4122` document.
    RFC,
    /// Reserved, Microsoft Corporation backward compatibility.
    MS,
    /// Reserved for future definition.
    FUT,
}

/// Version represents the type of UUID, and is in the most significant 4 bits
/// of the Timestamp: TIME = 1, DCE = 2, MD5 = 3, RAND = 4, SHA1 = 5.
#[derive(Debug, Clone, Copy, PartialEq, Eq, Structural)]
pub enum Version {
    /// The time-based version specified in `rfc4122` document.
    TIME,
    /// DCE Security version, with embedded POSIX UIDs.
    DCE,
    /// The name-based version specified in `rfc4122` document that uses MD5 hashing.
    MD5,
    /// The randomly or pseudo-randomly generated version specified in `rfc4122` document.
    RAND,
    /// The name-based version specified in `rfc4122`document that uses SHA-1 hashing.
    SHA1,
}

impl Version {
    /// The value of the version nibble for this tag.
    pub open spec fn spec_nibble(self) -> u16 {
        match self {
            Version::TIME => 1,
            Version::DCE => 2,
            Version::MD5 => 3,
            Version::RAND => 4,
            Version::SHA1 => 5,
        }
    }

    /// The tag of a version nibble, if it names one.
    pub open spec fn spec_from_nibble(n: int) -> Option<Version> {
        if n == 1 {
            Some(Version::TIME)
        } else if n == 2 {
            Some(Version::DCE)
        } else if n == 3 {
            Some(Version::MD5)
        } else if n == 4 {
            Some(Version::RAND)
        } else if n == 5 {
            Some(Version::SHA1)
        } else {
            None
        }
    }

    /// The value of the version nibble for this tag.
    pub fn nibble(&self) -> (r: u16)
        ensures
            r == self.spec_nibble(),
            1 <= r <= 5,
    {
        match self {
            Version::TIME => 1,
            Version::DCE => 2,
            Version::MD5 => 3,
            Version::RAND => 4,
            Version::SHA1 => 5,
        }
    }
}

impl Variant {
    /// The value of the variant nibble for this tag.
    pub open spec fn spec_nibble(self) -> u8 {
        match self {
            Variant::NCS => 0,
            Variant::RFC => 1,
            Variant::MS => 2,
            Variant::FUT => 3,
        }
    }

    /// The tag of a variant nibble, if it names one.
    pub open spec fn spec_from_nibble(n: int) -> Option<Variant> {
        if n == 0 {
            Some(Variant::NCS)
        } else if n == 1 {
            Some(Variant::RFC)
        } else if n == 2 {
            Some(Variant::MS)
        } else if n == 3 {
            Some(Variant::FUT)
        } else {
            None
        }
    }

    /// The value of the variant nibble for this tag.
    pub fn nibble(&self) -> (r: u8)
        ensures
            r == self.spec_nibble(),
            r <= 3,
    {
        match self {
            Variant::NCS => 0,
            Variant::RFC => 1,
            Variant::MS => 2,
            Variant::FUT => 3,
        }
    }
}

/// A 48-bit node identifier, conventionally an IEEE 802 MAC-address.
#[derive(Debug, PartialEq, Default, Copy, Clone)]
pub struct Node(pub [u8; 6]);

/// Is a 128-bit number used to identify information in computer systems,
/// held as its 16 octets.
#[derive(Debug, Eq, PartialEq, Copy, Clone, Default)]
pub struct UUID(pub [u8; 16]);

/// The UUID format is 16 octets, split in five fields.
#[derive(Debug, Default, Clone, Copy, PartialEq)]
pub struct Layout {
    /// The low field of the Timestamp.
    pub time_low: u32,
    /// The mid field of the Timestamp.
    pub time_mid: u16,
    /// The high field of the Timestamp multiplexed with the version number.
    pub time_high_and_version: u16,
    /// The high field of the ClockSeq multiplexed with the variant.
    pub clock_seq_high_and_reserved: u8,
    /// The low field of the ClockSeq.
    pub clock_seq_low: u8,
    /// IEEE 802 MAC-address.
    pub node: Node,
}

/// The big-endian 16-bit value of two bytes.
pub open spec fn be16(hi: u8, lo: u8) -> u16 {
    (hi as int * 0x100 + lo as int) as u16
}

/// The big-endian 32-bit value of four bytes.
pub open spec fn be32(b0: u8, b1: u8, b2: u8, b3: u8) -> u32 {
    (b0 as int * 0x100_0000 + b1 as int * 0x1_0000 + b2 as int * 0x100 + b3 as int) as u32
}

/// Byte `i` (0 the most significant) of a 32-bit value.
pub open spec fn byte32(x: u32, i: int) -> u8 {
    if i == 0 {
        (x / 0x100_0000) as u8
    } else if i == 1 {
        (x / 0x1_0000 % 0x100) as u8
    } else if i == 2 {
        (x / 0x100 % 0x100) as u8
    } else {
        (x % 0x100) as u8
    }
}

/// Byte `i` (0 the most significant) of a 16-bit value.
pub open spec fn byte16(x: u16, i: int) -> u8 {
    if i == 0 {
        (x / 0x100) as u8
    } else {
        (x % 0x100) as u8
    }
}

/// A 16-bit value with its two bytes exchanged.
pub open spec fn swap16(x: u16) -> u16 {
    be16(byte16(x, 1), byte16(x, 0))
}

/// A 32-bit value with its four bytes in reverse order.
pub open spec fn swap32(x: u32) -> u32 {
    be32(byte32(x, 3), byte32(x, 2), byte32(x, 1), byte32(x, 0))
}

impl Layout {
    /// The layout of `pack`: version in the top nibble of the time-high field,
    /// variant in the top nibble of the clock-sequence-high field, every other
    /// input masked to the bits left for it.
    pub open spec fn spec_pack(
        time_low: u32,
        time_mid: u16,
        time_high: u16,
        version: Version,
        clock_seq: u16,
        variant: Variant,
        node: Node,
    ) -> Layout {
        Layout {
            time_low,
            time_mid,
            time_high_and_version: (time_high % 0x1000 + version.spec_nibble() * 0x1000) as u16,
            clock_seq_high_and_reserved: (clock_seq / 0x100 % 0x10 + variant.spec_nibble()
                * 0x10) as u8,
            clock_seq_low: (clock_seq % 0x100) as u8,
            node,
        }
    }

    /// The version nibble of the identifier.
    pub open spec fn version_nibble(self) -> int {
        self.time_high_and_version as int / 0x1000
    }

    /// The variant nibble of the identifier.
    pub open spec fn variant_nibble(self) -> int {
        self.clock_seq_high_and_reserved as int / 0x10
    }

    /// The version the identifier carries, `None` for an unrecognized nibble.
    pub open spec fn spec_version(self) -> Option<Version> {
        Version::spec_from_nibble(self.version_nibble())
    }

    /// The variant the identifier carries, `None` for an unrecognized nibble.
    pub open spec fn spec_variant(self) -> Option<Variant> {
        Variant::spec_from_nibble(self.variant_nibble())
    }

    /// The 60-bit timestamp: the time-high field without its version nibble,
    /// then the mid and low fields.
    pub open spec fn spec_timestamp(self) -> u64 {
        ((self.time_high_and_version % 0x1000) as int * 0x1_0000_0000_0000
            + self.time_mid as int * 0x1_0000_0000 + self.time_low as int) as u64
    }

    /// The 16-bit clock-sequence field, variant bits included.
    pub open spec fn spec_clock_seq(self) -> u16 {
        be16(self.clock_seq_high_and_reserved, self.clock_seq_low)
    }

    /// The canonical RFC 4122 byte order: every field big-endian, in field order.
    pub open spec fn spec_be_bytes(self) -> Seq<u8> {
        seq![
            byte32(self.time_low, 0),
            byte32(self.time_low, 1),
            byte32(self.time_low, 2),
            byte32(self.time_low, 3),
            byte16(self.time_mid, 0),
            byte16(self.time_mid, 1),
            byte16(self.time_high_and_version, 0),
            byte16(self.time_high_and_version, 1),
            self.clock_seq_high_and_reserved,
            self.clock_seq_low,
            self.node.0[0],
            self.node.0[1],
            self.node.0[2],
            self.node.0[3],
            self.node.0[4],
            self.node.0[5],
        ]
    }

    /// The byte order in which each multi-byte field is little-endian.
    pub open spec fn spec_le_bytes(self) -> Seq<u8> {
        seq![
            byte32(self.time_low, 3),
            byte32(self.time_low, 2),
            byte32(self.time_low, 1),
            byte32(self.time_low, 0),
            byte16(self.time_mid, 1),
            byte16(self.time_mid, 0),
            byte16(self.time_high_and_version, 1),
            byte16(self.time_high_and_version, 0),
            self.clock_seq_high_and_reserved,
            self.clock_seq_low,
            self.node.0[5],
            self.node.0[4],
            self.node.0[3],
            self.node.0[2],
            self.node.0[1],
            self.node.0[0],
        ]
    }

    /// The layout whose canonical byte form is `b`.
    pub open spec fn spec_from_be_bytes(b: Seq<u8>) -> Layout {
        Layout {
            time_low: be32(b[0], b[1], b[2], b[3]),
            time_mid: be16(b[4], b[5]),
            time_high_and_version: be16(b[6], b[7]),
            clock_seq_high_and_reserved: b[8],
            clock_seq_low: b[9],
            node: Node([b[10], b[11], b[12], b[13], b[14], b[15]]),
        }
    }

    /// The five field values, the two clock-sequence bytes joined.
    pub open spec fn spec_fields(self) -> (u32, u16, u16, u16, Node) {
        (
            self.time_low,
            self.time_mid,
            self.time_high_and_version,
            self.spec_clock_seq(),
            self.node,
        )
    }

    /// Constructs a layout from its fields. The version goes to the top nibble
    /// of the time-high field and the variant to the top nibble of the
    /// clock-sequence-high field; of `time_high` the low 12 bits are kept and
    /// of `clock_seq` the low 12 bits. Packing never fails.
    pub fn pack(
        time_low: u32,
        time_mid: u16,
        time_high: u16,
        version: Version,
        clock_seq: u16,
        variant: Variant,
        node: Node,
    ) -> (r: Layout)
        ensures
            r == Layout::spec_pack(time_low, time_mid, time_high, version, clock_seq, variant, node),
            r.spec_version() == Some(version),
            r.spec_variant() == Some(variant),
    {
        Layout {
            time_low,
            time_mid,
            time_high_and_version: time_high % 0x1000 + version.nibble() * 0x1000,
            clock_seq_high_and_reserved: (clock_seq / 0x100 % 0x10) as u8 + variant.nibble()
                * 0x10,
            clock_seq_low: (clock_seq % 0x100) as u8,
            node,
        }
    }
    /// Return the memory representation of the UUID in big-endian order:
    /// the canonical RFC 4122 16-byte form.
    pub fn be_bytes(&self) -> (r: UUID)
        ensures
            r.0@ == self.spec_be_bytes(),
    {
        let r = UUID(
            [
                (self.time_low / 0x100_0000) as u8,
                (self.time_low / 0x1_0000 % 0x100) as u8,
                (self.time_low / 0x100 % 0x100) as u8,
                (self.time_low % 0x100) as u8,
                (self.time_mid / 0x100) as u8,
                (self.time_mid % 0x100) as u8,
                (self.time_high_and_version / 0x100) as u8,
                (self.time_high_and_version % 0x100) as u8,
                self.clock_seq_high_and_reserved,
                self.clock_seq_low,
                self.node.0[0],
                self.node.0[1],
                self.node.0[2],
                self.node.0[3],
                self.node.0[4],
                self.node.0[5],
            ],
        );
        assert(r.0@ =~= self.spec_be_bytes());
        r
    }

    /// Return the memory representation of the UUID in little-endian order:
    /// the bytes of each multi-byte field, the node included, reversed.
    pub fn as_bytes(&self) -> (r: UUID)
        ensures
            r.0@ == self.spec_le_bytes(),
    {
        let r = UUID(
            [
                (self.time_low % 0x100) as u8,
                (self.time_low / 0x100 % 0x100) as u8,
                (self.time_low / 0x1_0000 % 0x100) as u8,
                (self.time_low / 0x100_0000) as u8,
                (self.time_mid % 0x100) as u8,
                (self.time_mid / 0x100) as u8,
                (self.time_high_and_version % 0x100) as u8,
                (self.time_high_and_version / 0x100) as u8,
                self.clock_seq_high_and_reserved,
                self.clock_seq_low,
                self.node.0[5],
                self.node.0[4],
                self.node.0[3],
                self.node.0[2],
                self.node.0[1],
                self.node.0[0],
            ],
        );
        assert(r.0@ =~= self.spec_le_bytes());
        r
    }

    /// Reads the five fields back from the canonical 16-byte form.
    pub fn from_bytes(uuid: &UUID) -> (r: Layout)
        ensures
            r == Layout::spec_from_be_bytes(uuid.0@),
    {
        let b = &uuid.0;
        Layout {
            time_low: b[0] as u32 * 0x100_0000 + b[1] as u32 * 0x1_0000 + b[2] as u32 * 0x100
                + b[3] as u32,
            time_mid: b[4] as u16 * 0x100 + b[5] as u16,
            time_high_and_version: b[6] as u16 * 0x100 + b[7] as u16,
            clock_seq_high_and_reserved: b[8],
            clock_seq_low: b[9],
            node: Node([b[10], b[11], b[12], b[13], b[14], b[15]]),
        }
    }

    /// Returns the five field values of the UUID in little-endian order: the
    /// field values themselves, the clock-sequence bytes joined.
    pub fn as_fields(&self) -> (r: (u32, u16, u16, u16, Node))
        ensures
            r == self.spec_fields(),
    {
        (
            self.time_low,
            self.time_mid,
            self.time_high_and_version,
            self.clock_seq_high_and_reserved as u16 * 0x100 + self.clock_seq_low as u16,
            self.node,
        )
    }

    /// Returns the five field values of the UUID in big-endian order: each
    /// integer with its bytes reversed, so that its little-endian memory form
    /// holds the canonical byte order; the node as it is.
    pub fn be_fields(&self) -> (r: (u32, u16, u16, u16, Node))
        ensures
            r == (
                swap32(self.time_low),
                swap16(self.time_mid),
                swap16(self.time_high_and_version),
                swap16(self.spec_clock_seq()),
                self.node,
            ),
    {
        let t = self.time_low;
        (
            (t % 0x100) as u32 * 0x100_0000 + (t / 0x100 % 0x100) as u32 * 0x1_0000 + (t / 0x1_0000
                % 0x100) as u32 * 0x100 + t / 0x100_0000,
            self.time_mid % 0x100 * 0x100 + self.time_mid / 0x100,
            self.time_high_and_version % 0x100 * 0x100 + self.time_high_and_version / 0x100,
            self.clock_seq_low as u16 * 0x100 + self.clock_seq_high_and_reserved as u16,
            self.node,
        )
    }

    /// Version of the current generated UUID: the top nibble of the time-high
    /// field, `None` where it names no version.
    pub fn get_version(&self) -> (r: Option<Version>)
        ensures
            r == self.spec_version(),
    {
        let n = self.time_high_and_version / 0x1000;
        if n == 1 {
            Some(Version::TIME)
        } else if n == 2 {
            Some(Version::DCE)
        } else if n == 3 {
            Some(Version::MD5)
        } else if n == 4 {
            Some(Version::RAND)
        } else if n == 5 {
            Some(Version::SHA1)
        } else {
            None
        }
    }

    /// Variant field of the current generated UUID: the top nibble of the
    /// clock-sequence-high field, `None` where it names no variant.
    pub fn get_variant(&self) -> (r: Option<Variant>)
        ensures
            r == self.spec_variant(),
    {
        let n = self.clock_seq_high_and_reserved / 0x10;
        if n == 0 {
            Some(Variant::NCS)
        } else if n == 1 {
            Some(Variant::RFC)
        } else if n == 2 {
            Some(Variant::MS)
        } else if n == 3 {
            Some(Variant::FUT)
        } else {
            None
        }
    }

    /// Get the 60-bit timestamp where the UUID was generated in. Meaningful
    /// for the time-based and DCE versions only.
    pub fn get_timestamp(&self) -> (r: u64)
        ensures
            r == self.spec_timestamp(),
            r < 0x1000_0000_0000_0000,
    {
        (self.time_high_and_version % 0x1000) as u64 * 0x1_0000_0000_0000 + self.time_mid as u64
            * 0x1_0000_0000 + self.time_low as u64
    }

    /// The layout of 16 hash or random bytes: the bytes read as the canonical
    /// form, then the version and the RFC variant written over their nibbles.
    pub open spec fn spec_hash_fields(h: Seq<u8>, v: Version) -> Layout {
        let f = Layout::spec_from_be_bytes(h);
        Layout::spec_pack(
            f.time_low,
            f.time_mid,
            f.time_high_and_version,
            v,
            f.spec_clock_seq(),
            Variant::RFC,
            f.node,
        )
    }

    /// Maps 16 hash or random bytes onto the five fields, big-endian, and
    /// overwrites the version nibble with `v` and the variant nibble with RFC.
    pub fn hash_fields(hash: [u8; 16], v: Version) -> (r: Layout)
        ensures
            r == Layout::spec_hash_fields(hash@, v),
            r.spec_version() == Some(v),
            r.spec_variant() == Some(Variant::RFC),
    {
        let f = Layout::from_bytes(&UUID(hash));
        Layout::pack(
            f.time_low,
            f.time_mid,
            f.time_high_and_version,
            v,
            f.clock_seq_high_and_reserved as u16 * 0x100 + f.clock_seq_low as u16,
            Variant::RFC,
            f.node,
        )
    }

    /// Get the MAC-address where the UUID was generated with.
    pub fn get_mac_addr(&self) -> (r: Node)
        ensures
            r == self.node,
    {
        self.node
    }
}

} // verus!

verus! {

proof fn lemma_be32_bytes(x: u32)
    ensures
        be32(byte32(x, 0), byte32(x, 1), byte32(x, 2), byte32(x, 3)) == x,
{
    assert(be32(byte32(x, 0), byte32(x, 1), byte32(x, 2), byte32(x, 3)) == x) by (bit_vector);
}

proof fn lemma_be16_bytes(x: u16)
    ensures
        be16(byte16(x, 0), byte16(x, 1)) == x,
{
    assert(be16(byte16(x, 0), byte16(x, 1)) == x) by (bit_vector);
}

/// Serialising a layout to its canonical 16 bytes and reading the fields
/// back reproduces the layout, and so its five field values, exactly.
pub proof fn lemma_bytes_round_trip(l: Layout)
    ensures
        Layout::spec_from_be_bytes(l.spec_be_bytes()) == l,
        Layout::spec_from_be_bytes(l.spec_be_bytes()).spec_fields() == l.spec_fields(),
{
    lemma_be32_bytes(l.time_low);
    lemma_be16_bytes(l.time_mid);
    lemma_be16_bytes(l.time_high_and_version);
    let b = l.spec_be_bytes();
    let n = Node([b[10], b[11], b[12], b[13], b[14], b[15]]);
    assert(n.0 =~= l.node.0);
}

} // verus!
