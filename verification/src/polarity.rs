//! Compile-time polarity markers: map logical ON/OFF to physical High/Low
//! without a runtime value.

use crate::led::{Level, PolarityMode};
use vstd::prelude::*;

mod sealed;

verus! {

/// Compile-time logic-level polarity: maps logical ON/OFF to physical High/Low.
///
/// This trait is sealed; only the built-in [`ActiveHigh`] / [`ActiveLow`]
/// markers implement it, and each behaves exactly as its runtime
/// [`PolarityMode`] (`MODE`) does.
pub trait Polarity: sealed::Sealed {
    /// The corresponding runtime [`PolarityMode`].
    const MODE: PolarityMode;

    /// Physical pin level corresponding to logical ON.
    fn physical_on() -> (r: Level)
        ensures
            r == Self::MODE.on_level(),
            r == Level::High <==> Self::MODE == PolarityMode::ActiveHigh,
    ;

    /// Physical pin level corresponding to logical OFF.
    fn physical_off() -> (r: Level)
        ensures
            r == Self::MODE.off_level(),
            r == Level::High <==> Self::MODE == PolarityMode::ActiveLow,
    ;

    /// Given a physical high level, return whether the LED is logically ON.
    fn is_logical_on(physical_high: bool) -> (r: bool)
        ensures
            r == Self::MODE.logical_on(physical_high),
            r == (physical_high == (Self::MODE == PolarityMode::ActiveHigh)),
    ;

    /// Map a gamma-corrected on-time fraction (0 = off, 255 = fully on) to a
    /// PWM duty fraction (0 = 0 % duty, 255 = 100 % duty).
    fn map_duty(brightness: u8) -> (r: u8)
        ensures
            r == Self::MODE.duty(brightness),
            Self::MODE == PolarityMode::ActiveHigh ==> r == brightness,
            Self::MODE == PolarityMode::ActiveLow ==> r + brightness == 255,
    ;
}

/// Active-high: LED is on when the pin is High (most common).
pub struct ActiveHigh;

impl sealed::Sealed for ActiveHigh {}

impl Polarity for ActiveHigh {
    const MODE: PolarityMode = PolarityMode::ActiveHigh;

    fn physical_on() -> (r: Level) {
        Level::High
    }

    fn physical_off() -> (r: Level) {
        Level::Low
    }

    fn is_logical_on(physical_high: bool) -> (r: bool) {
        physical_high
    }

    fn map_duty(brightness: u8) -> (r: u8) {
        brightness
    }
}

/// Active-low: LED is on when the pin is Low (common on Nucleo, ESP32 boards).
pub struct ActiveLow;

impl sealed::Sealed for ActiveLow {}

impl Polarity for ActiveLow {
    const MODE: PolarityMode = PolarityMode::ActiveLow;

    fn physical_on() -> (r: Level) {
        Level::Low
    }

    fn physical_off() -> (r: Level) {
        Level::High
    }

    fn is_logical_on(physical_high: bool) -> (r: bool) {
        !physical_high
    }

    fn map_duty(brightness: u8) -> (r: u8) {
        255 - brightness
    }
}

} // verus!
