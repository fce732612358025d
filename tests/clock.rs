use std::time::Duration;
use uuid_rs::{ClockSeq, Timestamp, UTC_EPOCH};

#[test]
fn clock_sequence_advances_and_wraps() {
    let mut c = ClockSeq::new(0x3ffe);
    assert_eq!(c.next(), 0x3fff);
    assert_eq!(c.next(), 0);
    assert_eq!(c.next(), 1);
    let mut d = ClockSeq::new(0xffff);
    assert_eq!(d.next(), 0);
}

#[test]
fn clock_sequence_values_distinct() {
    let mut c = ClockSeq::new(5);
    let mut seen = vec![false; 0x4000];
    let mut last = 5u16;
    for _ in 0..0x4000 {
        let v = c.next();
        assert!(v < 0x4000);
        assert!(!seen[v as usize]);
        seen[v as usize] = true;
        if v != 0 {
            assert!(v > last);
        }
        last = v;
    }
}

#[test]
fn timestamp_from_nanos() {
    assert_eq!(Timestamp::from_unix_nanos(0), UTC_EPOCH);
    assert_eq!(Timestamp::from_unix_nanos(1), UTC_EPOCH + 1);
    assert_eq!(Timestamp::from_unix_nanos(u64::MAX as u128), UTC_EPOCH - 1);
    assert_eq!(Timestamp::from_unix_nanos(1u128 << 64), UTC_EPOCH);
}

#[test]
fn timestamp_now_is_after_epoch_offset() {
    let t = Timestamp::new().unwrap();
    assert!(t > UTC_EPOCH);
}

#[test]
fn timestamp_duration() {
    assert_eq!(Timestamp(1_500_000_000).duration(), Duration::from_millis(1500));
}
