use status_led::led::Level;
use status_led::polarity::{ActiveHigh, ActiveLow, Polarity};
use status_led::PolarityMode;

#[test]
fn active_high_marker() {
    assert_eq!(ActiveHigh::MODE, PolarityMode::ActiveHigh);
    assert_eq!(ActiveHigh::physical_on(), Level::High);
    assert_eq!(ActiveHigh::physical_off(), Level::Low);
    assert!(ActiveHigh::is_logical_on(true));
    assert!(!ActiveHigh::is_logical_on(false));
    assert_eq!(ActiveHigh::map_duty(0), 0);
    assert_eq!(ActiveHigh::map_duty(200), 200);
}

#[test]
fn active_low_marker() {
    assert_eq!(ActiveLow::MODE, PolarityMode::ActiveLow);
    assert_eq!(ActiveLow::physical_on(), Level::Low);
    assert_eq!(ActiveLow::physical_off(), Level::High);
    assert!(!ActiveLow::is_logical_on(true));
    assert!(ActiveLow::is_logical_on(false));
    assert_eq!(ActiveLow::map_duty(0), 255);
    assert_eq!(ActiveLow::map_duty(255), 0);
    assert_eq!(ActiveLow::map_duty(55), 200);
}

fn markers_agree_with_mode<T: Polarity>() {
    for b in 0..=255u8 {
        assert_eq!(T::map_duty(b), T::MODE.map_duty(b));
    }
    assert_eq!(T::physical_on(), T::MODE.physical_on());
    assert_eq!(T::physical_off(), T::MODE.physical_off());
    for h in [false, true] {
        assert_eq!(T::is_logical_on(h), T::MODE.is_logical_on(h));
    }
}

#[test]
fn markers_match_runtime_mode() {
    markers_agree_with_mode::<ActiveHigh>();
    markers_agree_with_mode::<ActiveLow>();
}
