# status_led

A `no_std`-style monochrome status LED library, verified with Verus.

- `src/led.rs` — `PolarityMode` (logical ON/OFF to physical level) and `Led`,
  a GPIO LED over an `embedded_hal` output pin.
- `src/polarity.rs` — compile-time polarity markers `ActiveHigh` / `ActiveLow`.
- `src/brightness.rs` — 8-bit brightness helpers (clamping, percentages).
- `src/pwm.rs` — `GammaCorrection` (identity and a compact CIE L* curve),
  and `PwmLed`, a PWM LED with gamma, polarity and duty scaling.
- `src/breath.rs` — `cordic_sin` (shift-add CORDIC sine), the `Breath`
  generator and `BreathLed`.
- `app/lib.rs` — the async `breathe` loop step (sleeps with `embassy_time`)
  and constructors that reject zero durations by panicking.

Every function in `src/` carries a contract that Verus proves.  The calls into
`embedded_hal` sit in two small modules, `src/led/line.rs` (the digital pin)
and `src/pwm/channel.rs` (the PWM channel).  They are the only code that
touches the pin or channel.  Their ghost records of the exchanges are
extended only by the trusted wrappers: each wrapper appends its exchange (what
was handed over and what came back), including the one `max_duty_cycle`
answer that the channel caches.  Nothing is claimed about the hardware's
answers.
