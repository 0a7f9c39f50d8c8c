use status_led::brightness::{
    from_percent, from_u32_clamped, max_value, min_value, to_u32, DUTY_SCALE_NUM,
    MAX_BRIGHTNESS,
};

#[test]
fn percent_landmarks() {
    assert_eq!(from_percent(0), 0);
    assert_eq!(from_percent(1), 3);
    assert_eq!(from_percent(50), 128);
    assert_eq!(from_percent(100), 255);
    assert_eq!(from_percent(101), 255);
    assert_eq!(from_percent(255), 255);
}

#[test]
fn percent_rounds_to_nearest() {
    for pct in 0..=100u8 {
        let exact = pct as f64 * 255.0 / 100.0;
        let expected = (exact + 0.5).floor() as u8;
        assert_eq!(from_percent(pct), expected, "pct={pct}");
    }
    // 39 % of 255 is 99.45, which rounds to 99.
    assert_eq!(from_percent(39), 99);
    assert_eq!(from_percent(99), 252);
}

#[test]
fn percent_monotonic() {
    for pct in 0..255u8 {
        assert!(from_percent(pct) <= from_percent(pct + 1));
    }
}

#[test]
fn clamping() {
    assert_eq!(from_u32_clamped(0), 0);
    assert_eq!(from_u32_clamped(200), 200);
    assert_eq!(from_u32_clamped(255), 255);
    assert_eq!(from_u32_clamped(256), 255);
    assert_eq!(from_u32_clamped(u32::MAX), 255);
    for b in 0..=255u8 {
        assert_eq!(from_u32_clamped(to_u32(b)), b);
    }
}

#[test]
fn range_constants() {
    assert_eq!(max_value(), 255);
    assert_eq!(min_value(), 0);
    assert_eq!(MAX_BRIGHTNESS, 255);
    assert_eq!(DUTY_SCALE_NUM, 257);
    assert_eq!(to_u32(200), 200);
}
