use embedded_hal::digital::ErrorKind;
use embedded_hal_mock::eh1::MockError;
use std::io::ErrorKind as IoKind;
use embedded_hal_mock::eh1::digital::{Mock as PinMock, State as EState, Transaction as PinTrans};
use status_led::{Led, Level, PolarityMode};

#[test]
fn new_active_high_sets_off() {
    let e = [PinTrans::set(EState::Low)];
    Led::new(PinMock::new(&e), PolarityMode::ActiveHigh)
        .unwrap()
        .release()
        .done();
}

#[test]
fn new_active_low_sets_off() {
    let e = [PinTrans::set(EState::High)];
    Led::new(PinMock::new(&e), PolarityMode::ActiveLow)
        .unwrap()
        .release()
        .done();
}

#[test]
fn led_from_pin_no_touch() {
    Led::from_pin(PinMock::new(&[]), PolarityMode::ActiveHigh)
        .release()
        .done();
}

#[test]
fn active_high_on_off() {
    let e = [
        PinTrans::set(EState::Low),
        PinTrans::set(EState::High),
        PinTrans::set(EState::Low),
    ];
    let mut led = Led::new(PinMock::new(&e), PolarityMode::ActiveHigh).unwrap();
    led.on().unwrap();
    led.off().unwrap();
    led.release().done();
}

#[test]
fn active_low_on_off() {
    let e = [
        PinTrans::set(EState::High),
        PinTrans::set(EState::Low),
        PinTrans::set(EState::High),
    ];
    let mut led = Led::new(PinMock::new(&e), PolarityMode::ActiveLow).unwrap();
    led.on().unwrap();
    led.off().unwrap();
    led.release().done();
}

#[test]
fn set_state() {
    let e = [
        PinTrans::set(EState::Low),
        PinTrans::set(EState::High),
        PinTrans::set(EState::Low),
    ];
    let mut led = Led::new(PinMock::new(&e), PolarityMode::ActiveHigh).unwrap();
    led.set(true).unwrap();
    led.set(false).unwrap();
    led.release().done();
}

#[test]
fn toggle() {
    let e = [PinTrans::set(EState::Low), PinTrans::toggle()];
    let mut led = Led::new(PinMock::new(&e), PolarityMode::ActiveHigh).unwrap();
    led.toggle().unwrap();
    led.release().done();
}

#[test]
fn is_on_active_high() {
    let e = [PinTrans::set(EState::Low), PinTrans::get_state(EState::Low)];
    let mut led = Led::new(PinMock::new(&e), PolarityMode::ActiveHigh).unwrap();
    assert!(!led.is_on().unwrap());
    led.release().done();
}

#[test]
fn is_on_active_low() {
    let e = [
        PinTrans::set(EState::High),
        PinTrans::get_state(EState::High),
    ];
    let mut led = Led::new(PinMock::new(&e), PolarityMode::ActiveLow).unwrap();
    assert!(!led.is_on().unwrap());
    led.release().done();
}

#[test]
fn polarity_accessor() {
    let led = Led::from_pin(PinMock::new(&[]), PolarityMode::ActiveLow);
    assert_eq!(led.polarity(), PolarityMode::ActiveLow);
    led.release().done();
}

// ── Further cases ─────────────────────────────────────

#[test]
fn is_off_reads_inverse_of_is_on() {
    let e = [
        PinTrans::set(EState::High),
        PinTrans::get_state(EState::Low),
        PinTrans::get_state(EState::Low),
    ];
    let mut led = Led::new(PinMock::new(&e), PolarityMode::ActiveLow).unwrap();
    assert!(led.is_on().unwrap());
    assert!(!led.is_off().unwrap());
    led.release().done();
}

#[test]
fn set_state_active_low() {
    let e = [
        PinTrans::set(EState::High),
        PinTrans::set(EState::Low),
        PinTrans::set(EState::High),
    ];
    let mut led = Led::new(PinMock::new(&e), PolarityMode::ActiveLow).unwrap();
    led.set(true).unwrap();
    led.set(false).unwrap();
    led.release().done();
}

#[test]
fn pin_error_is_reported() {
    let e = [PinTrans::set(EState::Low).with_error(MockError::Io(IoKind::NotConnected))];
    let mut pin = PinMock::new(&e);
    let r = Led::new(pin.clone(), PolarityMode::ActiveHigh);
    assert!(matches!(r, Err(ErrorKind::Other)));
    pin.done();
}

#[test]
fn polarity_levels() {
    assert_eq!(PolarityMode::ActiveHigh.physical_on(), Level::High);
    assert_eq!(PolarityMode::ActiveHigh.physical_off(), Level::Low);
    assert_eq!(PolarityMode::ActiveLow.physical_on(), Level::Low);
    assert_eq!(PolarityMode::ActiveLow.physical_off(), Level::High);
    assert!(PolarityMode::ActiveHigh.is_logical_on(true));
    assert!(!PolarityMode::ActiveHigh.is_logical_on(false));
    assert!(!PolarityMode::ActiveLow.is_logical_on(true));
    assert!(PolarityMode::ActiveLow.is_logical_on(false));
}

#[test]
fn polarity_round_trip() {
    for mode in [PolarityMode::ActiveHigh, PolarityMode::ActiveLow] {
        assert!(mode.is_logical_on(mode.physical_on() == Level::High));
        assert!(!mode.is_logical_on(mode.physical_off() == Level::High));
        assert_ne!(mode.physical_on(), mode.physical_off());
        for b in 0..=255u8 {
            assert_eq!(mode.map_duty(mode.map_duty(b)), b);
        }
    }
}
