use thread_supervisor::notice::{
    closes_at, decimal_text, timeout_notice, unsigned_text, warning_notice,
};

#[test]
fn decimal_text_of_small_numbers() {
    assert_eq!(decimal_text(0), "0");
    assert_eq!(decimal_text(7), "7");
    assert_eq!(decimal_text(10), "10");
    assert_eq!(decimal_text(101), "101");
    assert_eq!(decimal_text(1_700_000_000), "1700000000");
}

#[test]
fn decimal_text_of_negative_numbers() {
    assert_eq!(decimal_text(-1), "-1");
    assert_eq!(decimal_text(-10), "-10");
    assert_eq!(decimal_text(-9_876_543_210), "-9876543210");
}

#[test]
fn decimal_text_at_the_ends_of_the_range() {
    assert_eq!(decimal_text(i64::MAX), "9223372036854775807");
    assert_eq!(decimal_text(i64::MIN), "-9223372036854775808");
}

#[test]
fn decimal_text_agrees_with_the_standard_library() {
    let mut n: i64 = 1;
    for _ in 0..62 {
        assert_eq!(decimal_text(n), n.to_string());
        assert_eq!(decimal_text(-n), (-n).to_string());
        assert_eq!(decimal_text(n - 1), (n - 1).to_string());
        n *= 2;
    }
}

#[test]
fn closing_time_adds_whole_seconds() {
    assert_eq!(closes_at(1_700_000_000, 5_000), 1_700_000_005);
    assert_eq!(closes_at(1_700_000_000, 5_999), 1_700_000_005);
    assert_eq!(closes_at(1_700_000_000, 999), 1_700_000_000);
    assert_eq!(closes_at(-10, 3_000), -7);
    assert_eq!(closes_at(0, 0), 0);
}

#[test]
fn closing_time_stops_at_the_last_second() {
    assert_eq!(closes_at(i64::MAX, 1_000), i64::MAX);
    assert_eq!(closes_at(i64::MAX - 1, 1_000), i64::MAX);
    assert_eq!(closes_at(i64::MAX - 1, 999), i64::MAX - 1);
    assert_eq!(closes_at(0, u64::MAX), 18_446_744_073_709_551);
    assert_eq!(closes_at(i64::MAX - 18_446_744_073_709_551, u64::MAX), i64::MAX);
    assert_eq!(closes_at(i64::MIN, u64::MAX), i64::MIN + 18_446_744_073_709_551);
}

#[test]
fn warning_names_the_closing_time() {
    let notice = warning_notice(1_700_000_300);
    assert_eq!(notice.title, "⚠️ Timeout warning");
    assert_eq!(
        notice.description,
        "This thread will closed automatically for inactivity <t:1700000300:R>"
    );
    let early = warning_notice(-5);
    assert_eq!(
        early.description,
        "This thread will closed automatically for inactivity <t:-5:R>"
    );
}

#[test]
fn timeout_notice_says_that_the_thread_was_closed() {
    let notice = timeout_notice();
    assert_eq!(notice.title, "⚠️ Timeout");
    assert_eq!(notice.description, "This thread has been closed due to inactivity");
}

#[test]
fn unsigned_text_covers_the_whole_range() {
    assert_eq!(unsigned_text(0), "0");
    assert_eq!(unsigned_text(9), "9");
    assert_eq!(unsigned_text(10), "10");
    assert_eq!(unsigned_text(1_000_000), "1000000");
    assert_eq!(unsigned_text(9_223_372_036_854_775_808), "9223372036854775808");
    assert_eq!(unsigned_text(u64::MAX), "18446744073709551615");
}
