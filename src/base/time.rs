//! Version-1 and version-2 identifiers, from the time, the clock sequence and
//! a hardware address.
use vstd::prelude::*;

pub use crate::clock::{ClockSeq, TimeStamp, Timestamp, UTC_EPOCH};
pub use crate::layout::Node;

use crate::clock::{advanced, timestamp_of};
use crate::error::UuidError;
use crate::layout::{Layout, Variant, Version, UUID};

verus! {

/// Domain is security-domain-relative name: whose numeric identifier a
/// version-2 identifier carries.
#[derive(Debug, Clone, Copy, PartialEq, Eq, Structural)]
pub enum Domain {
    PERSON,
    GROUP,
    ORG,
}

impl Domain {
    /// The local-domain number: PERSON = 0, GROUP = 1, ORG = 2.
    pub open spec fn spec_id(self) -> u8 {
        match self {
            Domain::PERSON => 0,
            Domain::GROUP => 1,
            Domain::ORG => 2,
        }
    }

    /// The local-domain number: PERSON = 0, GROUP = 1, ORG = 2.
    pub fn id(&self) -> (r: u8)
        ensures
            r == self.spec_id(),
    {
        match self {
            Domain::PERSON => 0,
            Domain::GROUP => 1,
            Domain::ORG => 2,
        }
    }
}

/// Relies on `mac_address::get_mac_address` and `MacAddress::bytes`: the
/// address of a network interface of this machine, `None` where there is none
/// or the lookup fails.
#[verifier::external_body]
fn device_mac_addr() -> Option<Node> {
    match mac_address::get_mac_address() {
        Ok(Some(m)) => Some(Node(m.bytes())),
        Ok(None) => None,
        Err(_) => None,
    }
}

/// The layout of a time-based identifier: the low 32 bits of the timestamp in
/// the low field, the next 16 in the mid field, the next 12 under the version.
pub open spec fn spec_time_layout(utc: u64, v: Version, clock_seq: u16, node: Node) -> Layout {
    Layout::spec_pack(
        (utc as int % 0x1_0000_0000) as u32,
        (utc as int / 0x1_0000_0000 % 0x1_0000) as u16,
        (utc as int / 0x1_0000_0000_0000 % 0x1_0000) as u16,
        v,
        clock_seq,
        Variant::RFC,
        node,
    )
}

/// The layout of a DCE-security identifier: a time-based layout of version
/// DCE whose clock-sequence-low byte holds the local-domain number.
pub open spec fn spec_dce_layout(utc: u64, clock_seq: u16, domain: Domain, node: Node) -> Layout {
    Layout { clock_seq_low: domain.spec_id(), ..spec_time_layout(utc, Version::DCE, clock_seq, node) }
}

impl Layout {
    /// The time-based layout of a timestamp, a clock-sequence value and a
    /// node, with version TIME and variant RFC. The layout keeps the low 60
    /// bits of the timestamp.
    pub fn time_fields(utc: u64, clock_seq: u16, node: Node) -> (r: Layout)
        ensures
            r == spec_time_layout(utc, Version::TIME, clock_seq, node),
            r.spec_version() == Some(Version::TIME),
            r.spec_variant() == Some(Variant::RFC),
            r.spec_timestamp() == utc as int % 0x1000_0000_0000_0000,
    {
        let r = Layout::pack(
            (utc % 0x1_0000_0000) as u32,
            (utc / 0x1_0000_0000 % 0x1_0000) as u16,
            (utc / 0x1_0000_0000_0000 % 0x1_0000) as u16,
            Version::TIME,
            clock_seq,
            Variant::RFC,
            node,
        );
        proof {
            lemma_time_layout_timestamp(utc, Version::TIME, clock_seq, node);
        }
        r
    }

    /// The DCE-security layout: as `time_fields` with version DCE, and the
    /// local-domain number in the clock-sequence-low byte.
    pub fn dce_fields(utc: u64, clock_seq: u16, domain: Domain, node: Node) -> (r: Layout)
        ensures
            r == spec_dce_layout(utc, clock_seq, domain, node),
            r.spec_version() == Some(Version::DCE),
            r.spec_variant() == Some(Variant::RFC),
            r.spec_timestamp() == utc as int % 0x1000_0000_0000_0000,
    {
        let l = Layout::pack(
            (utc % 0x1_0000_0000) as u32,
            (utc / 0x1_0000_0000 % 0x1_0000) as u16,
            (utc / 0x1_0000_0000_0000 % 0x1_0000) as u16,
            Version::DCE,
            clock_seq,
            Variant::RFC,
            node,
        );
        proof {
            lemma_time_layout_timestamp(utc, Version::DCE, clock_seq, node);
        }
        Layout { clock_seq_low: domain.id(), ..l }
    }

    /// Get the time where the UUID was generated in: the 60-bit timestamp.
    pub fn get_time(&self) -> (r: Timestamp)
        ensures
            r.0 == self.spec_timestamp(),
    {
        Timestamp(self.get_timestamp())
    }
}

proof fn lemma_time_layout_timestamp(utc: u64, v: Version, clock_seq: u16, node: Node)
    ensures
        spec_time_layout(utc, v, clock_seq, node).spec_timestamp() == utc as int
            % 0x1000_0000_0000_0000,
{
    let u = utc as int;
    let l = spec_time_layout(utc, v, clock_seq, node);
    assert(l.time_high_and_version as int % 0x1000 == u / 0x1_0000_0000_0000 % 0x1000);
    assert(u % 0x1000_0000_0000_0000 == (u / 0x1_0000_0000_0000 % 0x1000) * 0x1_0000_0000_0000 + (u
        / 0x1_0000_0000 % 0x1_0000) * 0x1_0000_0000 + u % 0x1_0000_0000) by (nonlinear_arith);
}

impl UUID {
    /// Generate a time-based and MAC address UUID (version 1): the current
    /// timestamp, the next value of `clock`, and this machine's hardware
    /// address. Fails with `ClockUnavailable` or `NodeUnavailable`; the clock
    /// sequence advances only on success.
    pub fn v1(clock: &mut ClockSeq) -> (r: Result<Layout, UuidError>)
        ensures
            r matches Ok(l) ==> {
                &&& final(clock).value() == advanced(old(clock).value(), 1)
                &&& exists|nanos: u128, node: Node|
                    l == #[trigger] spec_time_layout(
                        timestamp_of(nanos),
                        Version::TIME,
                        final(clock).value() as u16,
                        node,
                    )
                &&& l.spec_version() == Some(Version::TIME)
                &&& l.spec_variant() == Some(Variant::RFC)
            },
            r matches Err(e) ==> {
                &&& e == UuidError::ClockUnavailable || e == UuidError::NodeUnavailable
                &&& final(clock).value() == old(clock).value()
            },
    {
        let utc = match Timestamp::new() {
            Ok(t) => t,
            Err(e) => return Err(e),
        };
        let node = match device_mac_addr() {
            Some(n) => n,
            None => return Err(UuidError::NodeUnavailable),
        };
        let l = Layout::time_fields(utc, clock.next(), node);
        proof {
            let nanos = choose|n: u128| utc == timestamp_of(n);
            assert(l == spec_time_layout(timestamp_of(nanos), Version::TIME, clock.value() as u16, node));
        }
        Ok(l)
    }

    /// Generate a time-based, MAC address and DCE security version UUID
    /// (version 2): as `v1`, with version DCE and the domain's number in the
    /// clock-sequence-low byte.
    pub fn v2(domain: Domain, clock: &mut ClockSeq) -> (r: Result<Layout, UuidError>)
        ensures
            r matches Ok(l) ==> {
                &&& final(clock).value() == advanced(old(clock).value(), 1)
                &&& exists|nanos: u128, node: Node|
                    l == #[trigger] spec_dce_layout(
                        timestamp_of(nanos),
                        final(clock).value() as u16,
                        domain,
                        node,
                    )
                &&& l.spec_version() == Some(Version::DCE)
                &&& l.spec_variant() == Some(Variant::RFC)
                &&& l.clock_seq_low == domain.spec_id()
            },
            r matches Err(e) ==> {
                &&& e == UuidError::ClockUnavailable || e == UuidError::NodeUnavailable
                &&& final(clock).value() == old(clock).value()
            },
    {
        let utc = match Timestamp::new() {
            Ok(t) => t,
            Err(e) => return Err(e),
        };
        let node = match device_mac_addr() {
            Some(n) => n,
            None => return Err(UuidError::NodeUnavailable),
        };
        let l = Layout::dce_fields(utc, clock.next(), domain, node);
        proof {
            let nanos = choose|n: u128| utc == timestamp_of(n);
            assert(l == spec_dce_layout(timestamp_of(nanos), clock.value() as u16, domain, node));
        }
        Ok(l)
    }

    /// New version-1 UUID from the system time; the same as `v1`.
    pub fn new_from_sys_time(clock: &mut ClockSeq) -> (r: Result<Layout, UuidError>)
        ensures
            r matches Ok(l) ==> {
                &&& final(clock).value() == advanced(old(clock).value(), 1)
                &&& exists|nanos: u128, node: Node|
                    l == #[trigger] spec_time_layout(
                        timestamp_of(nanos),
                        Version::TIME,
                        final(clock).value() as u16,
                        node,
                    )
                &&& l.spec_version() == Some(Version::TIME)
                &&& l.spec_variant() == Some(Variant::RFC)
            },
            r matches Err(e) ==> {
                &&& e == UuidError::ClockUnavailable || e == UuidError::NodeUnavailable
                &&& final(clock).value() == old(clock).value()
            },
    {
        UUID::v1(clock)
    }

    /// New version-1 UUID with a user defined MAC-address: the current
    /// timestamp, the next value of `clock`, and `node`. Fails with
    /// `ClockUnavailable` only.
    pub fn from_node(node: Node, clock: &mut ClockSeq) -> (r: Result<Layout, UuidError>)
        ensures
            r matches Ok(l) ==> {
                &&& final(clock).value() == advanced(old(clock).value(), 1)
                &&& exists|nanos: u128|
                    l == #[trigger] spec_time_layout(
                        timestamp_of(nanos),
                        Version::TIME,
                        final(clock).value() as u16,
                        node,
                    )
                &&& l.node == node
                &&& l.spec_version() == Some(Version::TIME)
                &&& l.spec_variant() == Some(Variant::RFC)
            },
            r matches Err(e) ==> {
                &&& e == UuidError::ClockUnavailable
                &&& final(clock).value() == old(clock).value()
            },
    {
        let utc = match Timestamp::new() {
            Ok(t) => t,
            Err(e) => return Err(e),
        };
        let l = Layout::time_fields(utc, clock.next(), node);
        proof {
            let nanos = choose|n: u128| utc == timestamp_of(n);
            assert(l == spec_time_layout(timestamp_of(nanos), Version::TIME, clock.value() as u16, node));
        }
        Ok(l)
    }

    /// New version-1 UUID with a specific timestamp: `utc`, the next value of
    /// `clock`, and this machine's hardware address. Fails with
    /// `NodeUnavailable` only.
    pub fn from_utc(utc: u64, clock: &mut ClockSeq) -> (r: Result<Layout, UuidError>)
        ensures
            r matches Ok(l) ==> {
                &&& final(clock).value() == advanced(old(clock).value(), 1)
                &&& exists|node: Node|
                    l == #[trigger] spec_time_layout(utc, Version::TIME, final(clock).value() as u16, node)
                &&& l.spec_timestamp() == utc as int % 0x1000_0000_0000_0000
                &&& l.spec_version() == Some(Version::TIME)
                &&& l.spec_variant() == Some(Variant::RFC)
            },
            r matches Err(e) ==> {
                &&& e == UuidError::NodeUnavailable
                &&& final(clock).value() == old(clock).value()
            },
    {
        let node = match device_mac_addr() {
            Some(n) => n,
            None => return Err(UuidError::NodeUnavailable),
        };
        let l = Layout::time_fields(utc, clock.next(), node);
        assert(l == spec_time_layout(utc, Version::TIME, clock.value() as u16, node));
        Ok(l)
    }
}

} // verus!
