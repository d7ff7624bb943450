use fabric::clock::{
    now, now_or_epoch, reading_of, reading_or_epoch, seconds_of, NANOS_PER_SECOND,
};
use fabric::error::FabricError;
use fabric::text::{parse_u64_decimal, same_text, split_segments, u64_to_decimal};

#[test]
fn same_text_compares_characters() {
    assert!(same_text("online", "online"));
    assert!(!same_text("online", "offline"));
    assert!(!same_text("", "a"));
    assert!(same_text("", ""));
}

#[test]
fn split_segments_cuts_at_every_slash() {
    assert_eq!(split_segments("fabric/n1/status"), vec!["fabric", "n1", "status"]);
    assert_eq!(split_segments("plain"), vec!["plain"]);
    assert_eq!(split_segments(""), vec![""]);
    assert_eq!(split_segments("/a//b/"), vec!["", "a", "", "b", ""]);
    assert_eq!(split_segments("é/日本"), vec!["é", "日本"]);
}

#[test]
fn split_segments_agrees_with_std() {
    for text in ["a/b/c", "/", "//", "node/*/data", "x", "a/b/"] {
        let expected: Vec<String> = text.split('/').map(|s| s.to_string()).collect();
        assert_eq!(split_segments(text), expected);
    }
}

#[test]
fn u64_to_decimal_writes_digits() {
    assert_eq!(u64_to_decimal(0), "0");
    assert_eq!(u64_to_decimal(7), "7");
    assert_eq!(u64_to_decimal(10), "10");
    assert_eq!(u64_to_decimal(1234567890), "1234567890");
    assert_eq!(u64_to_decimal(u64::MAX), "18446744073709551615");
}

#[test]
fn parse_u64_decimal_reads_digits() {
    assert_eq!(parse_u64_decimal("0"), Some(0));
    assert_eq!(parse_u64_decimal("42"), Some(42));
    assert_eq!(parse_u64_decimal("18446744073709551615"), Some(u64::MAX));
    assert_eq!(parse_u64_decimal("18446744073709551616"), None);
    assert_eq!(parse_u64_decimal("99999999999999999999999"), None);
    assert_eq!(parse_u64_decimal(""), None);
    assert_eq!(parse_u64_decimal("-1"), None);
    assert_eq!(parse_u64_decimal("1.0"), None);
    assert_eq!(parse_u64_decimal("12a"), None);
    assert_eq!(parse_u64_decimal("１２"), None);
}

#[test]
fn decimal_round_trip() {
    for n in [0u64, 1, 9, 10, 99, 100, 65535, 1u64 << 40, u64::MAX - 1, u64::MAX] {
        assert_eq!(parse_u64_decimal(&u64_to_decimal(n)), Some(n));
    }
}

#[test]
fn seconds_of_counts_whole_seconds() {
    assert_eq!(NANOS_PER_SECOND, 1_000_000_000);
    assert_eq!(seconds_of(0), 0);
    assert_eq!(seconds_of(999_999_999), 0);
    assert_eq!(seconds_of(1_000_000_000), 1);
    assert_eq!(seconds_of(1_234_567_890_123_456_789), 1_234_567_890);
    assert_eq!(seconds_of(u64::MAX as u128 * 1_000_000_000), u64::MAX);
    assert_eq!(seconds_of(u128::MAX), u64::MAX);
}

#[test]
fn the_clock_is_read() {
    let before = std::time::SystemTime::now()
        .duration_since(std::time::UNIX_EPOCH)
        .unwrap()
        .as_nanos();
    let first = now().unwrap();
    let second = now_or_epoch();
    assert!(before <= first);
    assert!(first <= second);
}

#[test]
fn a_reading_keeps_the_count_or_the_words_of_the_failure() {
    assert_eq!(reading_of(Ok(0)), Ok(0));
    assert_eq!(reading_of(Ok(1_700_000_000_000_000_000)), Ok(1_700_000_000_000_000_000));
    assert_eq!(
        reading_of(Err("before the epoch".to_string())),
        Err(FabricError::Other("before the epoch".to_string()))
    );
}

#[test]
fn a_failed_reading_counts_as_the_epoch() {
    assert_eq!(reading_or_epoch(Ok(42)), 42);
    assert_eq!(reading_or_epoch(Ok(u128::MAX)), u128::MAX);
    assert_eq!(reading_or_epoch(Err(FabricError::Other("before the epoch".to_string()))), 0);
}
