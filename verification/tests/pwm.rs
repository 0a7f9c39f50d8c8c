use embedded_hal::pwm::ErrorKind;
use embedded_hal_mock::eh1::MockError;
use std::io::ErrorKind as IoKind;
use embedded_hal::pwm::SetDutyCycle;
use embedded_hal_mock::eh1::pwm::Mock as PwmMock;
use embedded_hal_mock::eh1::pwm::Transaction as PwmTrans;
use status_led::pwm::{GammaCorrection, GammaMap, PwmLed, CIE_KNOTS};
use status_led::PolarityMode;

/// Exact CIE 1976 L* lightness of `raw / 255`, scaled to 0–255 and rounded.
fn cie_reference(raw: u8) -> u8 {
    let t = raw as f64 / 255.0;
    let l_star = if t <= 0.008856 {
        903.3 * t
    } else {
        116.0 * t.powf(1.0 / 3.0) - 16.0
    };
    let val = (l_star * 2.55).round() as i32;
    val.clamp(0, 255) as u8
}

// ── CIE L* compact interpolation ──────────────────

#[test]
fn cie_prefix_exact() {
    for raw in 0..16u8 {
        assert_eq!(
            GammaCorrection::CieLStar.map(raw),
            cie_reference(raw),
            "prefix mismatch at raw={raw}"
        );
    }
}

#[test]
fn cie_knots_exact() {
    // Knot positions (raw = 16, 32, 48, …, 240, 255) must match exactly.
    for raw in (16..=255).step_by(16) {
        let raw = raw as u8;
        assert_eq!(
            GammaCorrection::CieLStar.map(raw),
            cie_reference(raw),
            "knot mismatch at raw={raw}"
        );
    }
}

#[test]
fn cie_knots_endpoints() {
    assert_eq!(CIE_KNOTS[0], 77);
    assert_eq!(CIE_KNOTS[15], 255);
}

#[test]
fn cie_interp_max_error() {
    let mut max_err = 0u16;
    for raw in 16..=255u8 {
        let got = GammaCorrection::CieLStar.map(raw);
        let ref_val = cie_reference(raw);
        let err = (got as i16 - ref_val as i16).unsigned_abs();
        max_err = max_err.max(err);
    }
    assert!(max_err <= 4, "CIE L* interp max error {max_err} > 4");
}

#[test]
fn cie_lstar_monotonic() {
    let mut prev = 0u8;
    for raw in 0..=255u8 {
        let val = GammaCorrection::CieLStar.map(raw);
        assert!(
            val >= prev,
            "CIE L* non-monotonic at raw={raw}: {prev} -> {val}"
        );
        prev = val;
    }
}

#[test]
fn cie_lstar_endpoints() {
    assert_eq!(GammaCorrection::CieLStar.map(0), 0);
    assert_eq!(GammaCorrection::CieLStar.map(255), 255);
}

#[test]
fn cie_lstar_at_midpoint() {
    // 50% input → ~76% perceived (194/255), exact at knot point
    assert_eq!(GammaCorrection::CieLStar.map(128), 194);
}

#[test]
fn cie_lstar_low_end_smooth() {
    // First 10 steps should each increase by ≤ 9 (no sudden jumps)
    let mut prev = 0u8;
    for raw in 1..=10u8 {
        let val = GammaCorrection::CieLStar.map(raw);
        let step = val - prev;
        assert!(
            step <= 9,
            "raw={raw}: step {step} too large (prev={prev}, val={val})"
        );
        prev = val;
    }
    // Raw 0→1 should be relatively small (≤9 vs 21 for gamma 2.2)
    assert_eq!(GammaCorrection::CieLStar.map(1), 9);
}

#[test]
fn linear_is_identity() {
    for raw in 0..=255u8 {
        assert_eq!(GammaCorrection::Linear.map(raw), raw);
    }
}

// ── Polarity helper ───────────────────────────────

#[test]
fn polarity_off_and_full_on_invert() {
    assert_eq!(PolarityMode::ActiveLow.map_duty(0), 255);
    assert_eq!(PolarityMode::ActiveLow.map_duty(255), 0);
}

// ── PwmLed behaviour (via embedded-hal-mock) ───────

const MAX_DUTY: u16 = 1000;

#[test]
fn new_sets_off() {
    let e = [
        PwmTrans::max_duty_cycle(MAX_DUTY),
        PwmTrans::set_duty_cycle(0),
    ];
    let led = PwmLed::new(
        PwmMock::new(&e),
        GammaCorrection::Linear,
        PolarityMode::ActiveHigh,
    )
    .unwrap();
    assert_eq!(led.brightness(), 0);
    assert!(led.is_off());
    assert!(!led.is_on());
    led.release().done();
}

#[test]
fn pwm_from_pin_no_touch() {
    let e = [PwmTrans::max_duty_cycle(MAX_DUTY)];
    let led = PwmLed::from_pin(
        PwmMock::new(&e),
        GammaCorrection::Linear,
        PolarityMode::ActiveHigh,
    );
    assert_eq!(led.brightness(), 0);
    led.release().done();
}

#[test]
fn set_brightness_active_high() {
    let e = [
        PwmTrans::max_duty_cycle(MAX_DUTY),
        PwmTrans::set_duty_cycle(0),
        PwmTrans::set_duty_cycle(MAX_DUTY),
    ];
    let mut led = PwmLed::new(
        PwmMock::new(&e),
        GammaCorrection::Linear,
        PolarityMode::ActiveHigh,
    )
    .unwrap();
    led.set_brightness(255).unwrap();
    assert_eq!(led.brightness(), 255);
    assert!(led.is_on());
    led.release().done();
}

#[test]
fn set_brightness_active_low_polarity_inverts_duty() {
    // active-low: brightness 0 → duty=MAX, brightness 255 → duty=0
    let e = [
        PwmTrans::max_duty_cycle(MAX_DUTY),
        PwmTrans::set_duty_cycle(MAX_DUTY), // off
        PwmTrans::set_duty_cycle(0),        // on
    ];
    let mut led = PwmLed::new(
        PwmMock::new(&e),
        GammaCorrection::Linear,
        PolarityMode::ActiveLow,
    )
    .unwrap();
    led.on().unwrap();
    assert_eq!(led.brightness(), 255);
    led.release().done();
}

#[test]
fn on_and_off_track_correctly() {
    let e = [
        PwmTrans::max_duty_cycle(MAX_DUTY),
        PwmTrans::set_duty_cycle(0),
        PwmTrans::set_duty_cycle(MAX_DUTY),
        PwmTrans::set_duty_cycle(0),
    ];
    let mut led = PwmLed::new(
        PwmMock::new(&e),
        GammaCorrection::Linear,
        PolarityMode::ActiveHigh,
    )
    .unwrap();
    assert!(led.is_off());
    led.on().unwrap();
    assert!(led.is_on());
    led.off().unwrap();
    assert!(led.is_off());
    led.release().done();
}

/// The duty value that `set_brightness` produces for a given raw input with
/// Linear gamma and the specified polarity.
fn expected_duty(raw: u8, polarity: PolarityMode, max_duty: u16) -> u16 {
    let duty_raw = polarity.map_duty(raw) as u32;
    let duty_scale = max_duty as u32 * 257;
    ((duty_raw * duty_scale + 32768) >> 16) as u16
}

#[test]
fn brightness_percent_rounding() {
    let e = [
        PwmTrans::max_duty_cycle(MAX_DUTY),
        PwmTrans::set_duty_cycle(0),
        PwmTrans::set_duty_cycle(expected_duty(3, PolarityMode::ActiveHigh, MAX_DUTY)),
        PwmTrans::set_duty_cycle(0),
        PwmTrans::set_duty_cycle(MAX_DUTY),
        PwmTrans::set_duty_cycle(expected_duty(128, PolarityMode::ActiveHigh, MAX_DUTY)),
    ];
    let mut led = PwmLed::new(
        PwmMock::new(&e),
        GammaCorrection::Linear,
        PolarityMode::ActiveHigh,
    )
    .unwrap();
    led.set_brightness_percent(1).unwrap();
    assert_eq!(led.brightness(), 3);
    led.set_brightness_percent(0).unwrap();
    assert_eq!(led.brightness(), 0);
    led.set_brightness_percent(100).unwrap();
    assert_eq!(led.brightness(), 255);
    led.set_brightness_percent(50).unwrap();
    assert_eq!(led.brightness(), 128);
    led.release().done();
}

struct InvertGamma;

impl GammaMap for InvertGamma {
    fn map(&self, raw: u8) -> u8 {
        255 - raw
    }
}

#[test]
fn custom_gamma_map() {
    let e = [
        PwmTrans::max_duty_cycle(MAX_DUTY),
        PwmTrans::set_duty_cycle(MAX_DUTY), // new → off (InvertGamma: 0→255→1000)
        PwmTrans::set_duty_cycle(0),        // on  (InvertGamma: 255→0→0)
    ];
    let mut led = PwmLed::new(PwmMock::new(&e), InvertGamma, PolarityMode::ActiveHigh).unwrap();
    led.on().unwrap();
    // InvertGamma maps 255 → 0, so hardware duty is 0
    assert!(led.is_on()); // tracked state: brightness 255
    led.release().done();
}

#[test]
fn set_duty_raw_bypasses_gamma() {
    let e = [
        PwmTrans::max_duty_cycle(MAX_DUTY),
        PwmTrans::set_duty_cycle(0),   // new → off
        PwmTrans::set_duty_cycle(500), // set_duty_raw
    ];
    let mut led = PwmLed::new(
        PwmMock::new(&e),
        GammaCorrection::CieLStar,
        PolarityMode::ActiveHigh,
    )
    .unwrap();
    led.set_duty_raw(500).unwrap();
    assert_eq!(led.brightness(), 0); // tracking NOT updated
    led.release().done();
}

#[test]
fn set_duty_cycle_trait_passthrough() {
    let e = [
        PwmTrans::max_duty_cycle(MAX_DUTY),
        PwmTrans::set_duty_cycle(0), // new → off
        PwmTrans::set_duty_cycle(250),
    ];
    let mut led = PwmLed::new(
        PwmMock::new(&e),
        GammaCorrection::Linear,
        PolarityMode::ActiveHigh,
    )
    .unwrap();
    <PwmLed<PwmMock> as SetDutyCycle>::set_duty_cycle(&mut led, 250).unwrap();
    assert_eq!(led.max_duty_cycle(), MAX_DUTY);
    led.release().done();
}

#[test]
fn accessors() {
    let e = [PwmTrans::max_duty_cycle(MAX_DUTY)];
    let led = PwmLed::from_pin(
        PwmMock::new(&e),
        GammaCorrection::CieLStar,
        PolarityMode::ActiveLow,
    );
    assert_eq!(led.polarity(), PolarityMode::ActiveLow);
    assert_eq!(led.max_duty(), MAX_DUTY);
    assert_eq!(led.brightness(), 0);
    assert_eq!(*led.gamma(), GammaCorrection::CieLStar);
    led.release().done();
}

// ── Further cases ─────────────────────────────────────

#[test]
fn cie_interp_error_within_documented_bound() {
    for raw in 0..=255u8 {
        let got = GammaCorrection::CieLStar.map(raw) as i16;
        let ref_val = cie_reference(raw) as i16;
        assert!((got - ref_val).abs() <= 2, "raw={raw}: {got} vs {ref_val}");
    }
}

#[test]
fn cie_interpolation_exact_values() {
    // knot 0 → 1 is 77 → 107: raw 17 is 77 + round(30 / 16) = 79,
    // raw 24 (halfway) is 77 + 15 = 92, raw 31 is 77 + round(450 / 16) = 105.
    assert_eq!(GammaCorrection::CieLStar.map(17), 79);
    assert_eq!(GammaCorrection::CieLStar.map(24), 92);
    assert_eq!(GammaCorrection::CieLStar.map(31), 105);
    // last interval 249 → 255: raw 254 is 249 + round(84 / 16) = 254.
    assert_eq!(GammaCorrection::CieLStar.map(254), 254);
}

#[test]
fn duty_for_formula_and_limits() {
    let e = [PwmTrans::max_duty_cycle(MAX_DUTY)];
    let led = PwmLed::from_pin(
        PwmMock::new(&e),
        GammaCorrection::Linear,
        PolarityMode::ActiveHigh,
    );
    assert_eq!(led.duty_for(0), 0);
    assert_eq!(led.duty_for(255), MAX_DUTY);
    // 128 × 1000 × 257 = 32_896_000; + 32_768 → >> 16 = 502
    assert_eq!(led.duty_for(128), 502);
    for b in 0..=255u8 {
        assert!(led.duty_for(b) <= MAX_DUTY);
    }
    led.release().done();

    let e = [PwmTrans::max_duty_cycle(MAX_DUTY)];
    let led = PwmLed::from_pin(PwmMock::new(&e), GammaCorrection::Linear, PolarityMode::ActiveLow);
    assert_eq!(led.duty_for(0), MAX_DUTY);
    assert_eq!(led.duty_for(255), 0);
    led.release().done();
}

#[test]
fn full_fraction_is_full_duty_on_any_channel() {
    let e = [PwmTrans::max_duty_cycle(u16::MAX)];
    let led = PwmLed::from_pin(PwmMock::new(&e), GammaCorrection::Linear, PolarityMode::ActiveHigh);
    assert_eq!(led.duty_for(255), u16::MAX);
    assert_eq!(led.duty_for(0), 0);
    // (128 × 65535 × 257 + 32768) >> 16 = 32895, one below 128 × 65535 / 255.
    assert_eq!(led.duty_for(128), 32895);
    assert_eq!(led.duty_for(1), 257);
    led.release().done();

    let e = [PwmTrans::max_duty_cycle(u16::MAX)];
    let led = PwmLed::from_pin(PwmMock::new(&e), GammaCorrection::Linear, PolarityMode::ActiveLow);
    assert_eq!(led.duty_for(0), u16::MAX);
    led.release().done();

    let e = [PwmTrans::max_duty_cycle(32768)];
    let led = PwmLed::from_pin(PwmMock::new(&e), GammaCorrection::Linear, PolarityMode::ActiveHigh);
    assert_eq!(led.duty_for(255), 32768);
    led.release().done();
}

#[test]
fn set_brightness_cie_sends_corrected_duty() {
    // CIE L*: raw 128 → 194; duty = (194 × 1000 × 257 + 32768) >> 16 = 761
    let e = [
        PwmTrans::max_duty_cycle(MAX_DUTY),
        PwmTrans::set_duty_cycle(0),
        PwmTrans::set_duty_cycle(761),
    ];
    let mut led = PwmLed::new(
        PwmMock::new(&e),
        GammaCorrection::CieLStar,
        PolarityMode::ActiveHigh,
    )
    .unwrap();
    led.set_brightness(128).unwrap();
    assert_eq!(led.brightness(), 128);
    led.release().done();
}

#[test]
fn failed_write_keeps_tracked_brightness() {
    let e = [
        PwmTrans::max_duty_cycle(MAX_DUTY),
        PwmTrans::set_duty_cycle(0),
        PwmTrans::set_duty_cycle(MAX_DUTY).with_error(MockError::Io(IoKind::NotConnected)),
    ];
    let mut led = PwmLed::new(
        PwmMock::new(&e),
        GammaCorrection::Linear,
        PolarityMode::ActiveHigh,
    )
    .unwrap();
    assert_eq!(led.set_brightness(255), Err(ErrorKind::Other));
    assert_eq!(led.brightness(), 0);
    led.release().done();
}

#[test]
fn duty_formula_for_every_channel_size() {
    for max in [1u16, 2, 3, 100, 152, 255, 1000, 4095, 32767, 32768, 40000, 65534, 65535] {
        let e = [PwmTrans::max_duty_cycle(max)];
        let led = PwmLed::from_pin(PwmMock::new(&e), GammaCorrection::Linear, PolarityMode::ActiveHigh);
        assert_eq!(led.max_duty(), max);
        for b in 0..=255u8 {
            let expected = if b == 255 {
                max as u32
            } else {
                (b as u32 * (max as u32 * 257) + 32768) >> 16
            };
            let exact = (2 * b as u32 * max as u32 + 255) / 510;
            let got = led.duty_for(b) as u32;
            assert_eq!(got, expected, "max={max} b={b}");
            assert!(got <= exact && got + 1 >= exact, "max={max} b={b}");
            assert!(got <= max as u32);
        }
        led.release().done();
    }
}

#[test]
fn duty_keeps_shift_scaling_below_full() {
    // 229 × 152 × 257 + 32768 >> 16 = 136 (exact rounding would give 137).
    let e = [PwmTrans::max_duty_cycle(152)];
    let led = PwmLed::from_pin(PwmMock::new(&e), GammaCorrection::Linear, PolarityMode::ActiveHigh);
    assert_eq!(led.duty_for(229), 136);
    led.release().done();
}

#[test]
fn new_on_large_channel_starts_dark_when_active_low() {
    let e = [
        PwmTrans::max_duty_cycle(u16::MAX),
        PwmTrans::set_duty_cycle(u16::MAX), // off, active-low: full duty
        PwmTrans::set_duty_cycle(0),        // on
    ];
    let mut led = PwmLed::new(
        PwmMock::new(&e),
        GammaCorrection::CieLStar,
        PolarityMode::ActiveLow,
    )
    .unwrap();
    led.on().unwrap();
    led.release().done();
}

#[test]
fn percent_above_hundred_is_full() {
    let e = [
        PwmTrans::max_duty_cycle(MAX_DUTY),
        PwmTrans::set_duty_cycle(MAX_DUTY),
    ];
    let mut led = PwmLed::from_pin(
        PwmMock::new(&e),
        GammaCorrection::Linear,
        PolarityMode::ActiveHigh,
    );
    led.set_brightness_percent(200).unwrap();
    assert_eq!(led.brightness(), 255);
    led.release().done();
}
