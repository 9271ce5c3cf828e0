use speaking_turns::display::{to_display, to_display_h_m_s};

#[test]
fn stopwatch_reading() {
    assert_eq!(to_display(0), "00:00.00");
    assert_eq!(to_display(9_999_999), "00:00.00");
    assert_eq!(to_display(10_000_000), "00:00.01");
    assert_eq!(to_display(61_230_000_000), "01:01.23");
    assert_eq!(to_display(3_599_990_000_000), "59:59.99");
    assert_eq!(to_display(3_600_000_000_000), "60:00.00");
    assert_eq!(to_display(7_265_000_000_000), "121:05.00");
}

#[test]
fn hours_minutes_seconds() {
    assert_eq!(to_display_h_m_s(0), "0h 00m 00s");
    assert_eq!(to_display_h_m_s(999_999_999), "0h 00m 00s");
    assert_eq!(to_display_h_m_s(59_000_000_000), "0h 00m 59s");
    assert_eq!(to_display_h_m_s(3_661_000_000_000), "1h 01m 01s");
    assert_eq!(to_display_h_m_s(360_000_000_000_000 + 754_000_000_000), "100h 12m 34s");
}
