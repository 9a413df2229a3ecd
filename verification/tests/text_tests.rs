use arcade_core::text::{i64_string, pong_text, score_lives_text, u64_string};

#[test]
fn decimal_rendering_of_unsigned_counters() {
    assert_eq!(u64_string(0), "0");
    assert_eq!(u64_string(7), "7");
    assert_eq!(u64_string(905), "905");
    assert_eq!(u64_string(1000), "1000");
    assert_eq!(u64_string(u64::MAX), "18446744073709551615");
}

#[test]
fn decimal_rendering_of_signed_counters() {
    assert_eq!(i64_string(15), "15");
    assert_eq!(i64_string(0), "0");
    assert_eq!(i64_string(-1), "-1");
    assert_eq!(i64_string(-15), "-15");
    assert_eq!(i64_string(i64::MIN), "-9223372036854775808");
}

#[test]
fn pong_display_line() {
    assert_eq!(pong_text(0, 0, 0), "Score: 0x0 - Hits: 0");
    assert_eq!(pong_text(3, 2, 14), "Score: 3x2 - Hits: 14");
}

#[test]
fn score_lives_display_line() {
    assert_eq!(score_lives_text(0, 15), "Score: 0 Lives: 15");
    assert_eq!(score_lives_text(12, -1), "Score: 12 Lives: -1");
}
