use flovyn_sdk::common::time::{clock_reading_nanos, unix_millis_from_reading, unix_ns_from_reading};

#[test]
fn a_clock_before_the_epoch_counts_as_the_epoch() {
    assert_eq!(unix_ns_from_reading(None), 0);
    assert_eq!(unix_millis_from_reading(None), 0);
}

#[test]
fn a_reading_in_nanoseconds_is_kept() {
    assert_eq!(unix_ns_from_reading(Some(1_700_000_000_123_456_789)), 1_700_000_000_123_456_789);
}

#[test]
fn a_reading_in_milliseconds_drops_the_rest() {
    assert_eq!(unix_millis_from_reading(Some(1_700_000_000_123_456_789)), 1_700_000_000_123);
    assert_eq!(unix_millis_from_reading(Some(999_999)), 0);
}

#[test]
fn a_reading_beyond_64_bits_keeps_its_low_bits() {
    let n: u128 = (1u128 << 64) + 5;
    assert_eq!(unix_ns_from_reading(Some(n)), 5);
}

#[test]
fn the_system_clock_reads_after_the_epoch() {
    let reading = clock_reading_nanos();
    assert!(reading.is_some());
    assert!(unix_ns_from_reading(reading) > 0);
}
