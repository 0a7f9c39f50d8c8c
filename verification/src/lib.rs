//! Monochrome status LED abstraction.
//!
//! Provides polarity via [`PolarityMode`] (or the compile-time markers in
//! [`polarity`]), PWM brightness with CIE L* gamma correction in [`pwm`], and
//! a CORDIC sinusoidal breathing generator in [`breath`].

pub mod breath;
pub mod brightness;
pub mod led;
pub mod polarity;
pub mod pwm;

pub use breath::{Breath, BreathLed};
pub use led::{Led, Level, PolarityMode};
pub use pwm::{GammaCorrection, GammaMap, PwmLed};
