//! The clock sequence and the timestamp that time-based identifiers carry.
use vstd::prelude::*;

use std::time::{Duration, SystemTime, SystemTimeError};

use crate::error::UuidError;

verus! {

/// Is 100-ns ticks between UNIX and UTC epochs.
pub const UTC_EPOCH: u64 = 0x1b21_dd21_3814_000;

/// The number of values of the clock sequence: it counts modulo 2^14.
pub const CLOCK_SEQ_MODULUS: u16 = 0x4000;

#[verifier::external_type_specification]
#[verifier::external_body]
pub struct ExSystemTime(SystemTime);

#[verifier::external_type_specification]
#[verifier::external_body]
pub struct ExSystemTimeError(SystemTimeError);

/// Relies on `SystemTime::now`: the current wall-clock time, of which nothing
/// is known in advance.
pub assume_specification[ SystemTime::now ]() -> SystemTime;

/// Relies on `SystemTime::duration_since`: the time elapsed since `earlier`,
/// or an error where `earlier` is later.
pub assume_specification[ SystemTime::duration_since ](
    this: &SystemTime,
    earlier: SystemTime,
) -> Result<Duration, SystemTimeError>;

/// Relies on `Duration::as_nanos`: the whole duration in nanoseconds.
pub assume_specification[ Duration::as_nanos ](this: &Duration) -> u128;

/// Relies on `Duration::from_nanos`: a duration of that many nanoseconds.
pub assume_specification[ Duration::from_nanos ](nanos: u64) -> Duration;

/// Relies on `SystemTime::UNIX_EPOCH`: the time 1970-01-01 00:00:00 UTC.
#[verifier::external_body]
fn unix_epoch() -> SystemTime {
    SystemTime::UNIX_EPOCH
}

/// Used to avoid duplicates that could arise when the clock is set backwards
/// in time: a 14-bit counter that advances by one, modulo 2^14, on every call
/// of `next`.
#[derive(Debug)]
pub struct ClockSeq(u16);

/// The value of a clock sequence `k` calls of `next` after the value `v`.
pub open spec fn advanced(v: int, k: int) -> int {
    (v + k) % (CLOCK_SEQ_MODULUS as int)
}

impl ClockSeq {
    /// The current 14-bit value of the sequence.
    pub closed spec fn value(&self) -> int {
        self.0 as int % (CLOCK_SEQ_MODULUS as int)
    }

    /// A sequence seeded with the low 14 bits of `r`.
    pub fn new(r: u16) -> (c: ClockSeq)
        ensures
            c.value() == r as int % (CLOCK_SEQ_MODULUS as int),
    {
        ClockSeq(r % CLOCK_SEQ_MODULUS)
    }

    /// A sequence seeded from a random 16-bit draw.
    pub fn from_random() -> (c: ClockSeq)
        ensures
            0 <= c.value() < CLOCK_SEQ_MODULUS,
    {
        ClockSeq::new(rand::random::<u16>())
    }

    /// Advances the sequence by one, wrapping at 2^14, and returns the new value.
    pub fn next(&mut self) -> (r: u16)
        ensures
            final(self).value() == advanced(old(self).value(), 1),
            r as int == final(self).value(),
            r < CLOCK_SEQ_MODULUS,
    {
        let v = (self.0 % CLOCK_SEQ_MODULUS + 1) % CLOCK_SEQ_MODULUS;
        self.0 = v;
        v
    }
}

/// Calls of `next` one after the other, from a sequence whose value was `v`,
/// return values that are all distinct as long as there are at most 2^14 of
/// them, and that increase strictly until the counter wraps around.
///
/// `rs` holds the values returned, in order: each is one more than the one
/// before, modulo 2^14, as `next` promises.
pub proof fn lemma_next_distinct(v: int, rs: Seq<u16>)
    requires
        0 <= v < CLOCK_SEQ_MODULUS,
        rs.len() <= CLOCK_SEQ_MODULUS,
        rs.len() > 0 ==> rs[0] as int == advanced(v, 1),
        forall|k: int| 0 <= k < rs.len() - 1 ==> #[trigger] rs[k + 1] as int == advanced(rs[k] as int, 1),
    ensures
        forall|i: int, j: int| 0 <= i < j < rs.len() ==> rs[i] != rs[j],
        forall|i: int, j: int|
            0 <= i < j < rs.len() && v + j + 1 < CLOCK_SEQ_MODULUS ==> rs[i] < rs[j],
{
    lemma_next_values(v, rs, rs.len() as int);
    assert forall|i: int, j: int| 0 <= i < j < rs.len() implies rs[i] != rs[j] by {
        assert(rs[i] as int == advanced(v, i + 1));
        assert(rs[j] as int == advanced(v, j + 1));
    }
    assert forall|i: int, j: int|
        0 <= i < j < rs.len() && v + j + 1 < CLOCK_SEQ_MODULUS implies rs[i] < rs[j] by {
        assert(rs[i] as int == advanced(v, i + 1));
        assert(rs[j] as int == advanced(v, j + 1));
    }
}

proof fn lemma_next_values(v: int, rs: Seq<u16>, n: int)
    requires
        0 <= v < CLOCK_SEQ_MODULUS,
        0 <= n <= rs.len(),
        rs.len() > 0 ==> rs[0] as int == advanced(v, 1),
        forall|k: int| 0 <= k < rs.len() - 1 ==> #[trigger] rs[k + 1] as int == advanced(rs[k] as int, 1),
    ensures
        forall|k: int| 0 <= k < n ==> #[trigger] rs[k] as int == advanced(v, k + 1),
    decreases n,
{
    if n > 1 {
        lemma_next_values(v, rs, n - 1);
        assert(rs[n - 1] as int == advanced(rs[n - 2] as int, 1));
    }
}

/// The timestamp of a time-based identifier, read from the system time: the
/// nanoseconds since the UNIX epoch with the epoch offset `UTC_EPOCH` added.
#[derive(Debug, Eq, PartialEq, Clone, Copy, Default)]
pub struct Timestamp(pub u64);

/// The same timestamp type under its second name.
pub type TimeStamp = Timestamp;

/// The timestamp of a wall-clock reading `nanos` nanoseconds after the UNIX
/// epoch: the epoch offset added, the sum kept to its low 64 bits.
pub open spec fn timestamp_of(nanos: u128) -> u64 {
    ((nanos as int + UTC_EPOCH as int) % 0x1_0000_0000_0000_0000) as u64
}

impl Timestamp {
    /// The timestamp of a reading `nanos` nanoseconds after the UNIX epoch.
    pub fn from_unix_nanos(nanos: u128) -> (r: u64)
        ensures
            r == timestamp_of(nanos),
    {
        let low = nanos % 0x1_0000_0000_0000_0000;
        ((low + UTC_EPOCH as u128) % 0x1_0000_0000_0000_0000) as u64
    }

    /// Generate a new timestamp from the system time: nanoseconds since the
    /// UNIX epoch, plus the epoch offset, masked to 64 bits. Fails with
    /// `ClockUnavailable` where the clock reads a time before the UNIX epoch.
    pub fn new() -> (r: Result<u64, UuidError>)
        ensures
            r matches Err(e) ==> e == UuidError::ClockUnavailable,
            r matches Ok(t) ==> exists|nanos: u128| t == timestamp_of(nanos),
    {
        match SystemTime::now().duration_since(unix_epoch()) {
            Ok(d) => Ok(Timestamp::from_unix_nanos(d.as_nanos())),
            Err(_) => Err(UuidError::ClockUnavailable),
        }
    }

    /// The timestamp as a duration of that many nanoseconds.
    pub fn duration(&self) -> Duration {
        Duration::from_nanos(self.0)
    }
}

} // verus!
