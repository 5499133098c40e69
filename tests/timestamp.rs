use git_snapshot::timestamp::{SECS_PER_DAY, SECS_PER_MONTH, SECS_PER_YEAR};
use git_snapshot::{format_timestamp, get_timestamp};

#[test]
fn epoch_start_is_first_of_january_1970() {
    assert_eq!(format_timestamp(0), "1970-01-01_00-00-00");
}

#[test]
fn known_instant_uses_fixed_buckets() {
    // 53 fixed years, 11 thirty-day months, 22 h 13 min 20 s.
    assert_eq!(format_timestamp(1_700_000_000), "2023-12-01_22-13-20");
}

#[test]
fn last_second_of_a_fixed_year_shows_month_thirteen() {
    assert_eq!(format_timestamp(31_535_999), "1970-13-05_23-59-59");
}

#[test]
fn seconds_field_is_padded() {
    assert_eq!(format_timestamp(59), "1970-01-01_00-00-59");
}

#[test]
fn year_is_1970_plus_whole_fixed_years() {
    for years in [0u64, 1, 30, 55, 200] {
        let text = format_timestamp(years * SECS_PER_YEAR + 12 * SECS_PER_MONTH);
        assert_eq!(text, format!("{:04}-13-01_00-00-00", 1970 + years));
    }
}

#[test]
fn same_seconds_give_same_text() {
    let secs = 1_234_567_890u64;
    assert_eq!(format_timestamp(secs), format_timestamp(secs));
    assert_ne!(format_timestamp(secs), format_timestamp(secs + 1));
}

#[test]
fn day_bucket_moves_by_one() {
    assert_eq!(format_timestamp(SECS_PER_DAY), "1970-01-02_00-00-00");
}

#[test]
fn largest_seconds_value_does_not_overflow() {
    assert_eq!(format_timestamp(u64::MAX), "584942419325-01-27_07-00-15");
}

#[test]
fn clock_timestamp_has_the_fixed_shape() {
    let text = get_timestamp().expect("the clock reads after the epoch");
    let chars: Vec<char> = text.chars().collect();
    assert_eq!(chars.len(), 19);
    assert_eq!(chars[4], '-');
    assert_eq!(chars[7], '-');
    assert_eq!(chars[10], '_');
    assert_eq!(chars[13], '-');
    assert_eq!(chars[16], '-');
    assert!(text.starts_with("20"));
}
