use embedded_hal_mock::eh1::pwm::Mock as PwmMock;
use embedded_hal_mock::eh1::pwm::Transaction as PwmTrans;
use status_led::breath::{cordic_sin, Breath, BreathLed};
use status_led::pwm::GammaCorrection;
use status_led::PolarityMode;

// ── cordic_sin ───────────────────────────────

#[test]
fn cordic_sin_range() {
    for phase in (0..=65535u16).step_by(137) {
        let _v = cordic_sin(phase);
        // cordic_sin always returns u8, so 0..=255 is guaranteed by type
    }
}

#[test]
fn cordic_sin_endpoints() {
    // sin(0) ≈ 0, mapped to 128 (midpoint of [0,255] for sine's zero crossing)
    let v0 = cordic_sin(0);
    assert!(v0 >= 126 && v0 <= 130, "sin(0) = {}", v0);

    // sin(π/2) = sin(16384) ≈ 1, mapped to 255
    let v90 = cordic_sin(16384);
    assert!(v90 >= 253, "sin(π/2) = {}", v90);

    // sin(π) = sin(32768) ≈ 0, mapped to 128
    let v180 = cordic_sin(32768);
    assert!(v180 >= 126 && v180 <= 130, "sin(π) = {}", v180);

    // sin(3π/2) = sin(49152) ≈ -1, mapped to near 0
    let v270 = cordic_sin(49152);
    assert!(v270 <= 2, "sin(3π/2) = {}", v270);
}

#[test]
fn cordic_sin_symmetry() {
    // sin(phase) and sin(π − phase) should be symmetric around 128
    for phase in (0..=16384u16).step_by(257) {
        let a = cordic_sin(phase);
        let b = cordic_sin(32768 - phase);
        let sym_a = (a as i16 - 128).unsigned_abs();
        let sym_b = (b as i16 - 128).unsigned_abs();
        let diff = (sym_a as i16 - sym_b as i16).unsigned_abs();
        assert!(
            diff <= 2,
            "symmetry broken at phase={}: a={}, b={}",
            phase,
            a,
            b
        );
    }
}

#[test]
fn cordic_sin_monotonic_rising() {
    // In [0, 16384] (0 to π/2), output should be non-decreasing
    let mut prev = cordic_sin(0);
    for phase in 1..=16384u16 {
        let val = cordic_sin(phase);
        assert!(
            val >= prev,
            "non-monotonic at phase={}: {} -> {}",
            phase,
            prev,
            val
        );
        prev = val;
    }
}

// ── Breath ────────────────────────────────────

#[test]
fn breath_new_does_not_panic() {
    let _b = Breath::new(1000, 50);
}

#[test]
fn breath_next_returns_valid_range() {
    let mut b = Breath::new(1000, 50);
    for _ in 0..1000 {
        let _v = b.next();
        // next() returns u8, so 0..=255 is guaranteed by type.
        // This test verifies no panic over many iterations.
    }
}

#[test]
fn breath_next_advances() {
    // A large interval ensures a big phase step, so consecutive calls
    // should return noticeably different brightness values.
    let mut b = Breath::new(65536, 16384);
    let v1 = b.next();
    let v2 = b.next();
    let diff = (v1 as i16 - v2 as i16).unsigned_abs();
    assert!(diff > 0, "phase didn't advance: {}→{}", v1, v2);
}

#[test]
fn breath_reset() {
    let mut b = Breath::new(65536, 16384); // 90° per step
    // Advance several steps away from the start
    for _ in 0..10 {
        b.next();
    }
    // Reset to cycle start
    b.reset();
    // After reset, next() should return near the starting brightness
    let v = b.next();
    // sin(0) ≈ 128 (±2)
    assert!(
        (126..=130).contains(&v),
        "after reset got {v}, expected ~128"
    );
}

#[test]
fn breath_full_cycle_reaches_min_and_max() {
    // 256 steps per cycle — enough samples to hit both extremes
    let mut b = Breath::new(65536, 256);
    let mut min = 255u8;
    let mut max = 0u8;
    for _ in 0..300 {
        let v = b.next();
        min = min.min(v);
        max = max.max(v);
    }
    assert!(min <= 2, "min should be near 0, got {}", min);
    assert!(max >= 253, "max should be near 255, got {}", max);
}

// ── BreathLed (with a PWM mock) ─────────────

const MAX_DUTY: u16 = 1000;

#[test]
fn breath_led_new_starts_off() {
    let e = [
        PwmTrans::max_duty_cycle(MAX_DUTY),
        PwmTrans::set_duty_cycle(0),
    ];
    let led = BreathLed::new(
        PwmMock::new(&e),
        GammaCorrection::Linear,
        PolarityMode::ActiveHigh,
        10_000,
        50,
    )
    .unwrap();
    assert!(led.led().is_off());
    led.release().release().done();
}

#[test]
fn breath_led_reset_breath() {
    let e = [
        PwmTrans::max_duty_cycle(MAX_DUTY),
        PwmTrans::set_duty_cycle(0), // new → off
    ];
    let mut led = BreathLed::new(
        PwmMock::new(&e),
        GammaCorrection::Linear,
        PolarityMode::ActiveHigh,
        10_000,
        50,
    )
    .unwrap();
    // reset_breath() should not cause any PWM operations
    led.reset_breath();
    led.release().release().done();
}

// ── Further cases ─────────────────────────────────────

#[test]
fn cordic_sin_exact_landmarks() {
    assert_eq!(cordic_sin(0), 128);
    assert_eq!(cordic_sin(16384), 255);
    assert_eq!(cordic_sin(32768), 127);
    assert_eq!(cordic_sin(49152), 0);
}

#[test]
fn cordic_sin_mirror_is_exact() {
    for phase in 1..32768u16 {
        assert_eq!(cordic_sin(32768 - phase), cordic_sin(phase), "phase={phase}");
    }
}

#[test]
fn cordic_sin_opposite_phases_sum() {
    for phase in 0..32768u16 {
        let s = cordic_sin(phase) as u16 + cordic_sin(phase + 32768) as u16;
        assert!(s == 255 || s == 256, "phase={phase}: sum {s}");
    }
}

#[test]
fn breath_step_for_common_settings() {
    // 12.8 s cycle at 50 ms: 65536 × 50 / 12800 = 256 per call.
    let mut b = Breath::new(12_800, 50);
    assert_eq!(b.interval_ms(), 50);
    assert_eq!(b.next(), cordic_sin(0));
    assert_eq!(b.next(), cordic_sin(256));
    assert_eq!(b.next(), cordic_sin(512));
}

#[test]
fn breath_step_never_zero() {
    // 65536 × 1 / 100000 = 0 → clamped to a step of 1.
    let mut b = Breath::new(100_000, 1);
    assert_eq!(b.next(), cordic_sin(0));
    assert_eq!(b.next(), cordic_sin(1));
}

#[test]
fn breath_step_wraps_when_interval_exceeds_cycle() {
    // 65536 × 3 / 2 = 98304 → truncated to 16 bits: 32768.
    let mut b = Breath::new(2, 3);
    assert_eq!(b.next(), cordic_sin(0));
    assert_eq!(b.next(), cordic_sin(32768));
    assert_eq!(b.next(), cordic_sin(0));
}

#[test]
fn breath_interval_equal_to_cycle_is_a_whole_cycle() {
    // One call per full cycle: the phase comes back to where it was.
    let mut b = Breath::new(1000, 1000);
    for _ in 0..5 {
        assert_eq!(b.next(), cordic_sin(0));
    }
}

#[test]
fn breath_phase_after_n_calls() {
    // Step 65536 × 50 / 1000 = 3276; the k-th value is the sine at k × 3276.
    let mut b = Breath::new(1000, 50);
    for k in 0..100u32 {
        assert_eq!(b.next(), cordic_sin(((k * 3276) % 65536) as u16), "k={k}");
    }
}

#[test]
fn breath_led_step_sets_breath_brightness() {
    // Step 16384 per call: brightness sin(0) = 128, then sin(π/2) = 255.
    let e = [
        PwmTrans::max_duty_cycle(MAX_DUTY),
        PwmTrans::set_duty_cycle(0),
        PwmTrans::set_duty_cycle(502),
        PwmTrans::set_duty_cycle(MAX_DUTY),
    ];
    let mut led = BreathLed::new(
        PwmMock::new(&e),
        GammaCorrection::Linear,
        PolarityMode::ActiveHigh,
        65536,
        16384,
    )
    .unwrap();
    assert_eq!(led.interval_ms(), 16384);
    led.breathe_step().unwrap();
    assert_eq!(led.led().brightness(), 128);
    led.breathe_step().unwrap();
    assert_eq!(led.led().brightness(), 255);
    led.release().release().done();
}
