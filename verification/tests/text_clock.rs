use lore::clock::{is_expired, is_expired_at, millis_since_epoch};
use lore::text::{decimal_text, parse_number};
use std::time::{Duration, SystemTime, UNIX_EPOCH};

#[test]
fn numbers_are_written_in_decimal() {
    for n in [0, 1, 9, 10, 99, 100, 101, 1_234_567_890, u64::MAX] {
        assert_eq!(decimal_text(n), n.to_string());
    }
}

#[test]
fn numbers_are_read_as_they_are_written() {
    for n in [0, 9, 10, 128, usize::MAX] {
        assert_eq!(parse_number(&decimal_text(n as u64)), Some(n));
    }
    for text in ["7", "+7", "007", "+", "", "-7", "7 ", "++7", "7a", "\u{0667}"] {
        assert_eq!(parse_number(text), text.parse().ok(), "{text}");
    }
    assert_eq!(parse_number("18446744073709551616"), None);
    assert_eq!(parse_number("99999999999999999999x"), None);
}

#[test]
fn an_elapsed_time_counts_whole_milliseconds() {
    assert_eq!(millis_since_epoch(Ok(Duration::from_millis(1500))), 1500);
    assert_eq!(millis_since_epoch(Ok(Duration::from_nanos(1_999_999))), 1);
    assert_eq!(millis_since_epoch(Ok(Duration::ZERO)), 0);
}

#[test]
fn a_clock_before_the_epoch_reads_zero() {
    let before = UNIX_EPOCH - Duration::from_secs(5);
    assert_eq!(millis_since_epoch(before.duration_since(UNIX_EPOCH)), 0);
}

#[test]
fn expiry_is_at_the_named_millisecond() {
    assert!(!is_expired_at(1000, 999));
    assert!(is_expired_at(1000, 1000));
    assert!(is_expired_at(1000, 1001));
    assert!(is_expired_at(0, 0));
    assert!(!is_expired_at(u64::MAX, u64::MAX as u128 - 1));
    assert!(is_expired_at(u64::MAX, u64::MAX as u128 + 1));
}

#[test]
fn expiry_goes_by_the_system_clock() {
    let now = SystemTime::now().duration_since(UNIX_EPOCH).unwrap().as_millis() as u64;
    assert!(is_expired(0));
    assert!(is_expired(now - 60_000));
    assert!(!is_expired(now + 60_000));
    assert!(!is_expired(u64::MAX));
}
