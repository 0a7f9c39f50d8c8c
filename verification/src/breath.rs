//! Sinusoidal breathing effect for monochrome LEDs.
//!
//! [`Breath`] generates a stream of brightness values (0–255) following a
//! sine wave computed by CORDIC rotation (shift-add only, no floating point),
//! and [`BreathLed`] pairs it with a [`PwmLed`].

use crate::led::PolarityMode;
use crate::pwm::{GammaCorrection, GammaMap, PwmLed};
use embedded_hal::pwm::{ErrorKind, SetDutyCycle};
use vstd::prelude::*;

verus! {

// Phase: u16, full circle = 65536, π/2 = 16384.
// Angles in the rotation are in the same unit (π/2 = 16384).

/// atan(2^(-i)) in phase units (π/2 = 16384), i = 0..14.
pub const CORDIC_ATAN: [i16; 15] = [8192, 4836, 2555, 1297, 651, 326, 163, 81, 41, 20, 10, 5, 3, 1, 1];

/// Start value of x: round(32768 × 256 × K) with K ≈ 0.607252935, so that
/// y ends near 8,388,608 × sin θ.
pub const X_INIT: i32 = 5_094_520;

/// The rotation-angle table as a sequence.
pub open spec fn cordic_atan() -> Seq<i16> {
    seq![8192i16, 4836, 2555, 1297, 651, 326, 163, 81, 41, 20, 10, 5, 3, 1, 1]
}

/// Quadrant reduction: the angle in [0, 16384] (that is, [0, π/2]) whose
/// sine has the magnitude of the sine of `phase`.
pub open spec fn quadrant_angle(phase: u16) -> i32 {
    let a = if phase >= 32768 { phase - 32768 } else { phase as int };
    (if a > 16384 { 32768 - a } else { a }) as i32
}

/// One CORDIC rotation step `i` on the state (x, y, residual angle):
/// rotate towards the residual by ±atan(2^-i) using arithmetic shifts.
pub open spec fn cordic_rotate(s: (i32, i32, i32), i: usize) -> (i32, i32, i32) {
    let (x, y, z) = s;
    if z >= 0 {
        ((x - (y >> i)) as i32, (y + (x >> i)) as i32, (z - cordic_atan()[i as int]) as i32)
    } else {
        ((x + (y >> i)) as i32, (y - (x >> i)) as i32, (z + cordic_atan()[i as int]) as i32)
    }
}

/// The state after the first `n` rotation steps from `s`.
pub open spec fn cordic_iter(s: (i32, i32, i32), n: nat) -> (i32, i32, i32)
    decreases n,
{
    if n == 0 {
        s
    } else {
        cordic_rotate(cordic_iter(s, (n - 1) as nat), (n - 1) as usize)
    }
}

/// y after all 15 rotations of the reduced angle of `phase`.
pub open spec fn cordic_y(phase: u16) -> i32 {
    cordic_iter((X_INIT, 0, quadrant_angle(phase)), 15).1
}

/// Map a scaled sine `y` (about ±8,388,608) to 0..=255: `(y >> 16) + 128`,
/// clamped.
pub open spec fn sine_byte(y: i32) -> u8 {
    let v = (y >> 16) + 128;
    if v < 0 {
        0
    } else if v > 255 {
        255
    } else {
        v as u8
    }
}

/// The brightness `cordic_sin` produces for `phase`: the sine of the reduced
/// angle, negated in the lower half of the circle, mapped to 0..=255.
pub open spec fn cordic_sine(phase: u16) -> u8 {
    let y = cordic_y(phase);
    if phase >= 32768 {
        sine_byte((-y) as i32)
    } else {
        sine_byte(y)
    }
}

/// Bound on |x| and |y| after `i` rotation steps.
pub open spec fn cordic_bound(i: usize) -> i32 {
    if i == 0 {
        5094520
    } else if i == 1 {
        10189041
    } else if i == 2 {
        15283562
    } else if i == 3 {
        19104453
    } else if i == 4 {
        21492510
    } else if i == 5 {
        22835792
    } else if i == 6 {
        23549411
    } else if i == 7 {
        23917371
    } else if i == 8 {
        24104226
    } else if i == 9 {
        24198384
    } else if i == 10 {
        24245647
    } else if i == 11 {
        24269325
    } else if i == 12 {
        24281176
    } else if i == 13 {
        24287105
    } else if i == 14 {
        24290070
    } else {
        24291553
    }
}

/// Each step's bound covers the previous bound plus its shifted copy.
proof fn lemma_bound_step(i: usize)
    by (bit_vector)
    requires
        i < 15,
    ensures
        cordic_bound(i) + (cordic_bound(i) >> i) + 1 <= cordic_bound((i + 1) as usize),
        0 <= cordic_bound(i) >> i,
        cordic_bound((i + 1) as usize) <= 24291553,
{
}

/// The final bound, scaled down to the output range.
proof fn lemma_final_bound_shifted()
    by (bit_vector)
    ensures
        cordic_bound(15) >> 16usize == 370,
{
}

/// An arithmetic right shift keeps a value within the shifted bound.
proof fn lemma_shr_within(v: i32, b: i32, i: usize)
    by (bit_vector)
    requires
        0 <= b,
        -b <= v <= b,
        i < 32,
    ensures
        -(b >> i) - 1 <= v >> i <= b >> i,
{
}

/// Every rotation angle is positive and at most π/4.
proof fn lemma_atan_range(i: int)
    requires
        0 <= i < 15,
    ensures
        0 < cordic_atan()[i] <= 8192,
{
}

/// The CORDIC state stays within the step bounds and the residual angle
/// within ±π/2, for any start angle in [0, π/2].
pub proof fn lemma_cordic_iter_bounds(a: i32, n: nat)
    requires
        0 <= a <= 16384,
        n <= 15,
    ensures
        ({
            let (x, y, z) = cordic_iter((X_INIT, 0, a), n);
            &&& -cordic_bound(n as usize) <= x <= cordic_bound(n as usize)
            &&& -cordic_bound(n as usize) <= y <= cordic_bound(n as usize)
            &&& -16384 <= z <= 16384
        }),
    decreases n,
{
    if n > 0 {
        let i = (n - 1) as usize;
        lemma_cordic_iter_bounds(a, (n - 1) as nat);
        let (x, y, z) = cordic_iter((X_INIT, 0, a), (n - 1) as nat);
        let b = cordic_bound(i);
        lemma_bound_step(i);
        lemma_shr_within(x, b, i);
        lemma_shr_within(y, b, i);
        lemma_atan_range(i as int);
    }
}

/// Compute sin(phase) mapped to 0..=255.
///
/// Phase is a `u16` where 0 → 0°, 16384 → 90°, 32768 → 180°.  CORDIC
/// rotation mode with shift-add only: no lookup table beyond the 30-byte
/// atan table, no floating point.
pub fn cordic_sin(phase: u16) -> (r: u8)
    ensures
        r == cordic_sine(phase),
{
    // Quadrant reduction: map to [0, π/2] = [0, 16384].
    let mut negate = false;
    let mut angle: i32 = phase as i32;
    if angle >= 32768 {
        // Q3 / Q4: sin is negative
        negate = true;
        angle -= 32768;
    }
    if angle > 16384 {
        // Q2: sin(θ) = sin(π − θ)
        angle = 32768 - angle;
    }
    let ghost a0 = angle;
    assert(a0 == quadrant_angle(phase));

    // CORDIC rotation (15 iterations, shift-add).
    let mut x: i32 = X_INIT;
    let mut y: i32 = 0;
    assert(CORDIC_ATAN@ == cordic_atan());
    for i in 0..15
        invariant
            0 <= a0 <= 16384,
            (x, y, angle) == cordic_iter((X_INIT, 0, a0), i as nat),
            CORDIC_ATAN@ == cordic_atan(),
    {
        proof {
            lemma_cordic_iter_bounds(a0, i as nat);
            lemma_bound_step(i);
            lemma_shr_within(x, cordic_bound(i), i);
            lemma_shr_within(y, cordic_bound(i), i);
            lemma_atan_range(i as int);
        }
        // Rotate towards the residual angle by ±atan(2^-i).
        let x_shift = x >> i;
        let y_shift = y >> i;
        if angle >= 0 {
            x = x - y_shift;
            y = y + x_shift;
            angle -= CORDIC_ATAN[i] as i32;
        } else {
            x = x + y_shift;
            y = y - x_shift;
            angle += CORDIC_ATAN[i] as i32;
        }
    }
    proof {
        lemma_cordic_iter_bounds(a0, 15);
        lemma_bound_step(14);
    }
    assert(y == cordic_y(phase));
    if negate {
        y = -y;
    }
    proof {
        lemma_shr_within(y, cordic_bound(15), 16);
        lemma_final_bound_shifted();
    }
    // y ∈ [-8_388_608, 8_388_608], >>16 → [-128, 128], +128 → [0, 256], clamp.
    let v: i32 = (y >> 16) + 128;
    if v < 0 {
        0
    } else if v > 255 {
        255
    } else {
        v as u8
    }
}

/// Sine symmetry about π/2: sin(π − θ) = sin θ, exactly, on the upper half
/// of the circle.
pub proof fn lemma_sine_mirror(phase: u16)
    requires
        0 < phase < 32768,
    ensures
        cordic_sine((32768 - phase) as u16) == cordic_sine(phase),
{
    assert(quadrant_angle((32768 - phase) as u16) == quadrant_angle(phase));
}

/// Shifting a value and its negation by 16 gives opposite results, up to
/// the rounding of the arithmetic shift.
proof fn lemma_negated_shift(y: i32)
    by (bit_vector)
    requires
        -0x4000_0000 < y < 0x4000_0000,
    ensures
        (y >> 16) + ((-y) as i32 >> 16) == 0 || (y >> 16) + ((-y) as i32 >> 16) == -1,
{
}

/// Sine antisymmetry: sin(θ + π) = −sin θ.  On the 0..=255 scale a phase
/// and the opposite phase add up to 255 or 256.
pub proof fn lemma_sine_opposite(phase: u16)
    requires
        phase < 32768,
    ensures
        cordic_sine(phase) + cordic_sine((phase + 32768) as u16) == 255
            || cordic_sine(phase) + cordic_sine((phase + 32768) as u16) == 256,
{
    let opposite = (phase + 32768) as u16;
    assert(quadrant_angle(opposite) == quadrant_angle(phase));
    lemma_cordic_iter_bounds(quadrant_angle(phase), 15);
    lemma_bound_step(14);
    lemma_negated_shift(cordic_y(phase));
}

/// Phase advance per call for a `cycle_ms` cycle sampled every
/// `interval_ms`: the fraction `interval_ms / cycle_ms` of a full circle
/// (65536), rounded down but at least 1 so that a very slow breath still
/// moves, and taken modulo a full circle.
pub open spec fn phase_step_for(cycle_ms: u32, interval_ms: u32) -> u16 {
    let q = 65536 * interval_ms as int / cycle_ms as int;
    ((if q >= 1 {
        q
    } else {
        1
    }) % 65536) as u16
}

/// The phase after `n` calls of `next` from `phase` with step `step`.
pub open spec fn phase_after(phase: u16, step: u16, n: nat) -> u16
    decreases n,
{
    if n == 0 {
        phase
    } else {
        ((phase_after(phase, step, (n - 1) as nat) + step) % 65536) as u16
    }
}

/// After `n` calls the phase is `phase + n × step` around the circle, so the
/// `k`-th value (counting from 0) is the sine at `phase + k × step`.
pub proof fn lemma_phase_after(phase: u16, step: u16, n: nat)
    ensures
        phase_after(phase, step, n) == (phase + n * step) % 65536,
    decreases n,
{
    if n > 0 {
        lemma_phase_after(phase, step, (n - 1) as nat);
        let before = phase + (n - 1) * step;
        assert(n * step == (n - 1) * step + step) by (nonlinear_arith);
        vstd::arithmetic::div_mod::lemma_add_mod_noop(before, step as int, 65536);
        vstd::arithmetic::div_mod::lemma_small_mod(step as nat, 65536);
        assert((before % 65536 + step) % 65536 == (before + step) % 65536);
        let v = (phase_after(phase, step, (n - 1) as nat) + step) % 65536;
        assert(0 <= v < 65536);
        assert(phase_after(phase, step, n) == v as u16);
        assert(v == (phase + n * step) % 65536);
        assert(phase_after(phase, step, n) as int == v);
    } else {
        vstd::arithmetic::div_mod::lemma_small_mod(phase as nat, 65536);
        assert(n * step == 0) by (nonlinear_arith)
            requires
                n == 0,
        ;
        assert(phase_after(phase, step, n) == (phase + n * step) % 65536);
    }
}

/// Breathing effect generator: a stream of brightness values (0–255)
/// following a sinusoidal pattern.
#[derive(Debug)]
pub struct Breath {
    phase: u16,
    phase_step: u16,
    interval_ms: u32,
}

impl Breath {
    /// Current phase (full circle = 65536).
    pub closed spec fn phase_spec(&self) -> u16 {
        self.phase
    }

    /// Phase advance per call.
    pub closed spec fn step_spec(&self) -> u16 {
        self.phase_step
    }

    /// Time between calls of `next`, in milliseconds.
    pub closed spec fn interval_spec(&self) -> u32 {
        self.interval_ms
    }

    /// The generator after `k` more calls of [`next`](Self::next).
    pub closed spec fn after_calls(self, k: nat) -> Breath {
        Breath {
            phase: phase_after(self.phase, self.phase_step, k),
            phase_step: self.phase_step,
            interval_ms: self.interval_ms,
        }
    }

    /// What [`after_calls`](Self::after_calls) keeps and moves: the phase
    /// advances by `k` steps around the circle, step and interval stay, and
    /// one more call after `k` calls is `k + 1` calls.
    pub proof fn lemma_after_calls(self, k: nat)
        ensures
            self.after_calls(k).phase_spec() == phase_after(self.phase_spec(), self.step_spec(), k),
            self.after_calls(k).step_spec() == self.step_spec(),
            self.after_calls(k).interval_spec() == self.interval_spec(),
            self.after_calls(0) == self,
            self.after_calls(k).after_calls(1) == self.after_calls(k + 1),
    {
        assert(phase_after(phase_after(self.phase, self.phase_step, k), self.phase_step, 1)
            == phase_after(self.phase, self.phase_step, k + 1)) by {
            reveal_with_fuel(phase_after, 2);
        }
    }

    /// Create a new breathing generator.
    ///
    /// * `cycle_ms` — duration of one full breath cycle in milliseconds.
    /// * `interval_ms` — time between [`next`](Self::next) calls in
    ///   milliseconds.  Should be ≤ `cycle_ms`.
    ///
    /// Both must be non-zero.
    pub fn new(cycle_ms: u32, interval_ms: u32) -> (r: Self)
        requires
            cycle_ms > 0,
            interval_ms > 0,
        ensures
            r.phase_spec() == 0,
            r.step_spec() == phase_step_for(cycle_ms, interval_ms),
            interval_ms < cycle_ms ==> r.step_spec() >= 1,
            interval_ms == cycle_ms ==> r.step_spec() == 0,
            r.interval_spec() == interval_ms,
    {
        // phase_step = 65536 × interval_ms / cycle_ms
        assert(65536 * interval_ms <= 65536 * 0xffff_ffffu64) by (nonlinear_arith)
            requires
                interval_ms <= 0xffff_ffffu32,
        ;
        let quotient: u64 = (65536u64 * interval_ms as u64) / cycle_ms as u64;
        let at_least_one: u64 = if quotient >= 1 { quotient } else { 1 };
        let step = at_least_one as u16;
        assert(step == at_least_one % 65536) by (bit_vector)
            requires
                step == at_least_one as u16,
        ;
        proof {
            if interval_ms < cycle_ms {
                assert(65536 * interval_ms < 65536 * cycle_ms) by (nonlinear_arith)
                    requires
                        interval_ms < cycle_ms,
                ;
                vstd::arithmetic::div_mod::lemma_div_by_multiple_is_strongly_ordered(
                    65536 * interval_ms as int,
                    65536 * cycle_ms as int,
                    65536,
                    cycle_ms as int,
                );
                vstd::arithmetic::div_mod::lemma_div_by_multiple(65536, cycle_ms as int);
                assert(quotient < 65536);
            }
            if interval_ms == cycle_ms {
                vstd::arithmetic::div_mod::lemma_div_by_multiple(65536, cycle_ms as int);
            }
        }
        Breath { phase: 0, phase_step: step, interval_ms }
    }

    /// Advance the phase and return the next brightness value (0–255).
    pub fn next(&mut self) -> (r: u8)
        ensures
            r == cordic_sine(old(self).phase_spec()),
            final(self).phase_spec() == (old(self).phase_spec() + old(self).step_spec()) % 65536,
            final(self).step_spec() == old(self).step_spec(),
            final(self).interval_spec() == old(self).interval_spec(),
            *final(self) == old(self).after_calls(1),
    {
        let brightness = cordic_sin(self.phase);
        self.phase = self.phase.wrapping_add(self.phase_step);
        proof {
            reveal_with_fuel(phase_after, 2);
        }
        brightness
    }

    /// Reset the phase to the start of the cycle.
    pub fn reset(&mut self)
        ensures
            final(self).phase_spec() == 0,
            final(self).step_spec() == old(self).step_spec(),
            final(self).interval_spec() == old(self).interval_spec(),
    {
        self.phase = 0;
    }

    /// Time between [`next`](Self::next) calls, in milliseconds.
    pub fn interval_ms(&self) -> (r: u32)
        ensures
            r == self.interval_spec(),
    {
        self.interval_ms
    }
}

/// The breathing stream from the cycle start: for a generator at phase 0
/// (just built by [`Breath::new`], or just [`reset`](Breath::reset)), after
/// `k` calls of `next` the phase is `k × step` around the circle, so the
/// `k`-th call (counting from 0) returns the sine at phase `k × step`.
pub proof fn lemma_stream_from_start(start: Breath, k: nat)
    requires
        start.phase_spec() == 0,
    ensures
        start.after_calls(k).phase_spec() == (k * start.step_spec()) % 65536,
        cordic_sine(start.after_calls(k).phase_spec()) == cordic_sine(
            ((k * start.step_spec()) % 65536) as u16,
        ),
        start.after_calls(k).after_calls(1) == start.after_calls(k + 1),
{
    start.lemma_after_calls(k);
    lemma_phase_after(0, start.step_spec(), k);
}

/// PWM LED with a built-in sinusoidal breathing effect.
pub struct BreathLed<P, G = GammaCorrection> {
    led: PwmLed<P, G>,
    breath: Breath,
}

impl<P, G> BreathLed<P, G> {
    /// The wrapped PWM LED.
    pub closed spec fn led_spec(&self) -> PwmLed<P, G> {
        self.led
    }

    /// The breathing generator.
    pub closed spec fn breath_spec(&self) -> Breath {
        self.breath
    }
}

impl<P: SetDutyCycle, G: GammaMap> BreathLed<P, G> {
    /// Create a new breathing PWM LED and force it to the logical OFF state,
    /// with the breath phase at the cycle start.
    pub fn new(pin: P, gamma: G, polarity: PolarityMode, cycle_ms: u32, interval_ms: u32) -> (r:
        Result<Self, ErrorKind>)
        requires
            cycle_ms > 0,
            interval_ms > 0,
        ensures
            r matches Ok(b) ==> {
                &&& b.led_spec().gamma_spec() == gamma
                &&& b.led_spec().polarity_spec() == polarity
                &&& b.led_spec().brightness_spec() == 0
                &&& b.led_spec().reported() == seq![b.led_spec().max_duty_spec()]
                &&& exists|c: u8|
                    call_ensures(G::map, (&gamma, 0u8), c) && b.led_spec().writes() == seq![
                        (b.led_spec().duty_of(c), Ok::<(), ErrorKind>(())),
                    ]
                &&& b.breath_spec().phase_spec() == 0
                &&& b.breath_spec().step_spec() == phase_step_for(cycle_ms, interval_ms)
                &&& b.breath_spec().interval_spec() == interval_ms
            },
    {
        match PwmLed::new(pin, gamma, polarity) {
            Ok(led) => {
                let breath = Breath::new(cycle_ms, interval_ms);
                Ok(BreathLed { led, breath })
            },
            Err(e) => Err(e),
        }
    }

    /// Reset the breathing cycle to the start; the LED is not updated.
    pub fn reset_breath(&mut self)
        ensures
            final(self).led_spec() == old(self).led_spec(),
            final(self).breath_spec().phase_spec() == 0,
            final(self).breath_spec().step_spec() == old(self).breath_spec().step_spec(),
            final(self).breath_spec().interval_spec() == old(self).breath_spec().interval_spec(),
    {
        self.breath.reset();
    }

    /// Advance one breath step and show it: the LED takes the brightness of
    /// the current phase, then the phase moves on.  The caller waits
    /// [`interval_ms`](Self::interval_ms) before the next step.
    pub fn breathe_step(&mut self) -> (r: Result<(), ErrorKind>)
        ensures
            final(self).led_spec().showed_raw(
                &old(self).led_spec(),
                cordic_sine(old(self).breath_spec().phase_spec()),
                r,
            ),
            final(self).breath_spec().phase_spec() == (old(self).breath_spec().phase_spec()
                + old(self).breath_spec().step_spec()) % 65536,
            final(self).breath_spec().step_spec() == old(self).breath_spec().step_spec(),
            final(self).breath_spec().interval_spec() == old(self).breath_spec().interval_spec(),
            final(self).breath_spec() == old(self).breath_spec().after_calls(1),
    {
        let brightness = self.breath.next();
        self.led.set_brightness(brightness)
    }

    /// Time between steps, in milliseconds.
    pub fn interval_ms(&self) -> (r: u32)
        ensures
            r == self.breath_spec().interval_spec(),
    {
        self.breath.interval_ms()
    }

    /// A reference to the inner [`PwmLed`].
    pub fn led(&self) -> (r: &PwmLed<P, G>)
        ensures
            *r == self.led_spec(),
    {
        &self.led
    }

    /// Consume and return the inner [`PwmLed`], discarding the breath state.
    pub fn release(self) -> (r: PwmLed<P, G>)
        ensures
            r == self.led_spec(),
    {
        self.led
    }
}

/// The states of one CORDIC run from x0 = X_INIT, y0 = 0 and the start
/// angle z0, step by step, each step as [`cordic_rotate`] takes it.
spec fn cordic_trace(x0: i32, y0: i32, z0: i32, x1: i32, y1: i32, z1: i32, x2: i32, y2: i32, z2: i32, x3: i32, y3: i32, z3: i32, x4: i32, y4: i32, z4: i32, x5: i32, y5: i32, z5: i32, x6: i32, y6: i32, z6: i32, x7: i32, y7: i32, z7: i32, x8: i32, y8: i32, z8: i32, x9: i32, y9: i32, z9: i32, x10: i32, y10: i32, z10: i32, x11: i32, y11: i32, z11: i32, x12: i32, y12: i32, z12: i32, x13: i32, y13: i32, z13: i32, x14: i32, y14: i32, z14: i32, x15: i32, y15: i32, z15: i32) -> bool {
    &&& x0 == 5094520
    &&& y0 == 0
    &&& x1 == (if z0 >= 0 { x0 - (y0 >> 0usize) } else { x0 + (y0 >> 0usize) }) as i32
    &&& y1 == (if z0 >= 0 { y0 + (x0 >> 0usize) } else { y0 - (x0 >> 0usize) }) as i32
    &&& z1 == (if z0 >= 0 { z0 - 8192 } else { z0 + 8192 }) as i32
    &&& x2 == (if z1 >= 0 { x1 - (y1 >> 1usize) } else { x1 + (y1 >> 1usize) }) as i32
    &&& y2 == (if z1 >= 0 { y1 + (x1 >> 1usize) } else { y1 - (x1 >> 1usize) }) as i32
    &&& z2 == (if z1 >= 0 { z1 - 4836 } else { z1 + 4836 }) as i32
    &&& x3 == (if z2 >= 0 { x2 - (y2 >> 2usize) } else { x2 + (y2 >> 2usize) }) as i32
    &&& y3 == (if z2 >= 0 { y2 + (x2 >> 2usize) } else { y2 - (x2 >> 2usize) }) as i32
    &&& z3 == (if z2 >= 0 { z2 - 2555 } else { z2 + 2555 }) as i32
    &&& x4 == (if z3 >= 0 { x3 - (y3 >> 3usize) } else { x3 + (y3 >> 3usize) }) as i32
    &&& y4 == (if z3 >= 0 { y3 + (x3 >> 3usize) } else { y3 - (x3 >> 3usize) }) as i32
    &&& z4 == (if z3 >= 0 { z3 - 1297 } else { z3 + 1297 }) as i32
    &&& x5 == (if z4 >= 0 { x4 - (y4 >> 4usize) } else { x4 + (y4 >> 4usize) }) as i32
    &&& y5 == (if z4 >= 0 { y4 + (x4 >> 4usize) } else { y4 - (x4 >> 4usize) }) as i32
    &&& z5 == (if z4 >= 0 { z4 - 651 } else { z4 + 651 }) as i32
    &&& x6 == (if z5 >= 0 { x5 - (y5 >> 5usize) } else { x5 + (y5 >> 5usize) }) as i32
    &&& y6 == (if z5 >= 0 { y5 + (x5 >> 5usize) } else { y5 - (x5 >> 5usize) }) as i32
    &&& z6 == (if z5 >= 0 { z5 - 326 } else { z5 + 326 }) as i32
    &&& x7 == (if z6 >= 0 { x6 - (y6 >> 6usize) } else { x6 + (y6 >> 6usize) }) as i32
    &&& y7 == (if z6 >= 0 { y6 + (x6 >> 6usize) } else { y6 - (x6 >> 6usize) }) as i32
    &&& z7 == (if z6 >= 0 { z6 - 163 } else { z6 + 163 }) as i32
    &&& x8 == (if z7 >= 0 { x7 - (y7 >> 7usize) } else { x7 + (y7 >> 7usize) }) as i32
    &&& y8 == (if z7 >= 0 { y7 + (x7 >> 7usize) } else { y7 - (x7 >> 7usize) }) as i32
    &&& z8 == (if z7 >= 0 { z7 - 81 } else { z7 + 81 }) as i32
    &&& x9 == (if z8 >= 0 { x8 - (y8 >> 8usize) } else { x8 + (y8 >> 8usize) }) as i32
    &&& y9 == (if z8 >= 0 { y8 + (x8 >> 8usize) } else { y8 - (x8 >> 8usize) }) as i32
    &&& z9 == (if z8 >= 0 { z8 - 41 } else { z8 + 41 }) as i32
    &&& x10 == (if z9 >= 0 { x9 - (y9 >> 9usize) } else { x9 + (y9 >> 9usize) }) as i32
    &&& y10 == (if z9 >= 0 { y9 + (x9 >> 9usize) } else { y9 - (x9 >> 9usize) }) as i32
    &&& z10 == (if z9 >= 0 { z9 - 20 } else { z9 + 20 }) as i32
    &&& x11 == (if z10 >= 0 { x10 - (y10 >> 10usize) } else { x10 + (y10 >> 10usize) }) as i32
    &&& y11 == (if z10 >= 0 { y10 + (x10 >> 10usize) } else { y10 - (x10 >> 10usize) }) as i32
    &&& z11 == (if z10 >= 0 { z10 - 10 } else { z10 + 10 }) as i32
    &&& x12 == (if z11 >= 0 { x11 - (y11 >> 11usize) } else { x11 + (y11 >> 11usize) }) as i32
    &&& y12 == (if z11 >= 0 { y11 + (x11 >> 11usize) } else { y11 - (x11 >> 11usize) }) as i32
    &&& z12 == (if z11 >= 0 { z11 - 5 } else { z11 + 5 }) as i32
    &&& x13 == (if z12 >= 0 { x12 - (y12 >> 12usize) } else { x12 + (y12 >> 12usize) }) as i32
    &&& y13 == (if z12 >= 0 { y12 + (x12 >> 12usize) } else { y12 - (x12 >> 12usize) }) as i32
    &&& z13 == (if z12 >= 0 { z12 - 3 } else { z12 + 3 }) as i32
    &&& x14 == (if z13 >= 0 { x13 - (y13 >> 13usize) } else { x13 + (y13 >> 13usize) }) as i32
    &&& y14 == (if z13 >= 0 { y13 + (x13 >> 13usize) } else { y13 - (x13 >> 13usize) }) as i32
    &&& z14 == (if z13 >= 0 { z13 - 1 } else { z13 + 1 }) as i32
    &&& x15 == (if z14 >= 0 { x14 - (y14 >> 14usize) } else { x14 + (y14 >> 14usize) }) as i32
    &&& y15 == (if z14 >= 0 { y14 + (x14 >> 14usize) } else { y14 - (x14 >> 14usize) }) as i32
    &&& z15 == (if z14 >= 0 { z14 - 1 } else { z14 + 1 }) as i32
}

/// Adjacent start angles in [0, 2048) give non-decreasing `y >> 16`.
#[verifier::rlimit(100)]
proof fn lemma_rise_0(ax0: i32, ay0: i32, az0: i32, ax1: i32, ay1: i32, az1: i32, ax2: i32, ay2: i32, az2: i32, ax3: i32, ay3: i32, az3: i32, ax4: i32, ay4: i32, az4: i32, ax5: i32, ay5: i32, az5: i32, ax6: i32, ay6: i32, az6: i32, ax7: i32, ay7: i32, az7: i32, ax8: i32, ay8: i32, az8: i32, ax9: i32, ay9: i32, az9: i32, ax10: i32, ay10: i32, az10: i32, ax11: i32, ay11: i32, az11: i32, ax12: i32, ay12: i32, az12: i32, ax13: i32, ay13: i32, az13: i32, ax14: i32, ay14: i32, az14: i32, ax15: i32, ay15: i32, az15: i32, bx0: i32, by0: i32, bz0: i32, bx1: i32, by1: i32, bz1: i32, bx2: i32, by2: i32, bz2: i32, bx3: i32, by3: i32, bz3: i32, bx4: i32, by4: i32, bz4: i32, bx5: i32, by5: i32, bz5: i32, bx6: i32, by6: i32, bz6: i32, bx7: i32, by7: i32, bz7: i32, bx8: i32, by8: i32, bz8: i32, bx9: i32, by9: i32, bz9: i32, bx10: i32, by10: i32, bz10: i32, bx11: i32, by11: i32, bz11: i32, bx12: i32, by12: i32, bz12: i32, bx13: i32, by13: i32, bz13: i32, bx14: i32, by14: i32, bz14: i32, bx15: i32, by15: i32, bz15: i32)
    by (bit_vector)
    requires
        cordic_trace(ax0, ay0, az0, ax1, ay1, az1, ax2, ay2, az2, ax3, ay3, az3, ax4, ay4, az4, ax5, ay5, az5, ax6, ay6, az6, ax7, ay7, az7, ax8, ay8, az8, ax9, ay9, az9, ax10, ay10, az10, ax11, ay11, az11, ax12, ay12, az12, ax13, ay13, az13, ax14, ay14, az14, ax15, ay15, az15),
        cordic_trace(bx0, by0, bz0, bx1, by1, bz1, bx2, by2, bz2, bx3, by3, bz3, bx4, by4, bz4, bx5, by5, bz5, bx6, by6, bz6, bx7, by7, bz7, bx8, by8, bz8, bx9, by9, bz9, bx10, by10, bz10, bx11, by11, bz11, bx12, by12, bz12, bx13, by13, bz13, bx14, by14, bz14, bx15, by15, bz15),
        0 <= az0 < 2048,
        bz0 == az0 + 1,
    ensures
        (ay15 >> 16i32) <= (by15 >> 16i32),
{
}

/// Adjacent start angles in [2048, 4096) give non-decreasing `y >> 16`.
#[verifier::rlimit(100)]
proof fn lemma_rise_1(ax0: i32, ay0: i32, az0: i32, ax1: i32, ay1: i32, az1: i32, ax2: i32, ay2: i32, az2: i32, ax3: i32, ay3: i32, az3: i32, ax4: i32, ay4: i32, az4: i32, ax5: i32, ay5: i32, az5: i32, ax6: i32, ay6: i32, az6: i32, ax7: i32, ay7: i32, az7: i32, ax8: i32, ay8: i32, az8: i32, ax9: i32, ay9: i32, az9: i32, ax10: i32, ay10: i32, az10: i32, ax11: i32, ay11: i32, az11: i32, ax12: i32, ay12: i32, az12: i32, ax13: i32, ay13: i32, az13: i32, ax14: i32, ay14: i32, az14: i32, ax15: i32, ay15: i32, az15: i32, bx0: i32, by0: i32, bz0: i32, bx1: i32, by1: i32, bz1: i32, bx2: i32, by2: i32, bz2: i32, bx3: i32, by3: i32, bz3: i32, bx4: i32, by4: i32, bz4: i32, bx5: i32, by5: i32, bz5: i32, bx6: i32, by6: i32, bz6: i32, bx7: i32, by7: i32, bz7: i32, bx8: i32, by8: i32, bz8: i32, bx9: i32, by9: i32, bz9: i32, bx10: i32, by10: i32, bz10: i32, bx11: i32, by11: i32, bz11: i32, bx12: i32, by12: i32, bz12: i32, bx13: i32, by13: i32, bz13: i32, bx14: i32, by14: i32, bz14: i32, bx15: i32, by15: i32, bz15: i32)
    by (bit_vector)
    requires
        cordic_trace(ax0, ay0, az0, ax1, ay1, az1, ax2, ay2, az2, ax3, ay3, az3, ax4, ay4, az4, ax5, ay5, az5, ax6, ay6, az6, ax7, ay7, az7, ax8, ay8, az8, ax9, ay9, az9, ax10, ay10, az10, ax11, ay11, az11, ax12, ay12, az12, ax13, ay13, az13, ax14, ay14, az14, ax15, ay15, az15),
        cordic_trace(bx0, by0, bz0, bx1, by1, bz1, bx2, by2, bz2, bx3, by3, bz3, bx4, by4, bz4, bx5, by5, bz5, bx6, by6, bz6, bx7, by7, bz7, bx8, by8, bz8, bx9, by9, bz9, bx10, by10, bz10, bx11, by11, bz11, bx12, by12, bz12, bx13, by13, bz13, bx14, by14, bz14, bx15, by15, bz15),
        2048 <= az0 < 4096,
        bz0 == az0 + 1,
    ensures
        (ay15 >> 16i32) <= (by15 >> 16i32),
{
}

/// Adjacent start angles in [4096, 6144) give non-decreasing `y >> 16`.
#[verifier::rlimit(100)]
proof fn lemma_rise_2(ax0: i32, ay0: i32, az0: i32, ax1: i32, ay1: i32, az1: i32, ax2: i32, ay2: i32, az2: i32, ax3: i32, ay3: i32, az3: i32, ax4: i32, ay4: i32, az4: i32, ax5: i32, ay5: i32, az5: i32, ax6: i32, ay6: i32, az6: i32, ax7: i32, ay7: i32, az7: i32, ax8: i32, ay8: i32, az8: i32, ax9: i32, ay9: i32, az9: i32, ax10: i32, ay10: i32, az10: i32, ax11: i32, ay11: i32, az11: i32, ax12: i32, ay12: i32, az12: i32, ax13: i32, ay13: i32, az13: i32, ax14: i32, ay14: i32, az14: i32, ax15: i32, ay15: i32, az15: i32, bx0: i32, by0: i32, bz0: i32, bx1: i32, by1: i32, bz1: i32, bx2: i32, by2: i32, bz2: i32, bx3: i32, by3: i32, bz3: i32, bx4: i32, by4: i32, bz4: i32, bx5: i32, by5: i32, bz5: i32, bx6: i32, by6: i32, bz6: i32, bx7: i32, by7: i32, bz7: i32, bx8: i32, by8: i32, bz8: i32, bx9: i32, by9: i32, bz9: i32, bx10: i32, by10: i32, bz10: i32, bx11: i32, by11: i32, bz11: i32, bx12: i32, by12: i32, bz12: i32, bx13: i32, by13: i32, bz13: i32, bx14: i32, by14: i32, bz14: i32, bx15: i32, by15: i32, bz15: i32)
    by (bit_vector)
    requires
        cordic_trace(ax0, ay0, az0, ax1, ay1, az1, ax2, ay2, az2, ax3, ay3, az3, ax4, ay4, az4, ax5, ay5, az5, ax6, ay6, az6, ax7, ay7, az7, ax8, ay8, az8, ax9, ay9, az9, ax10, ay10, az10, ax11, ay11, az11, ax12, ay12, az12, ax13, ay13, az13, ax14, ay14, az14, ax15, ay15, az15),
        cordic_trace(bx0, by0, bz0, bx1, by1, bz1, bx2, by2, bz2, bx3, by3, bz3, bx4, by4, bz4, bx5, by5, bz5, bx6, by6, bz6, bx7, by7, bz7, bx8, by8, bz8, bx9, by9, bz9, bx10, by10, bz10, bx11, by11, bz11, bx12, by12, bz12, bx13, by13, bz13, bx14, by14, bz14, bx15, by15, bz15),
        4096 <= az0 < 6144,
        bz0 == az0 + 1,
    ensures
        (ay15 >> 16i32) <= (by15 >> 16i32),
{
}

/// Adjacent start angles in [6144, 8192) give non-decreasing `y >> 16`.
#[verifier::rlimit(100)]
proof fn lemma_rise_3(ax0: i32, ay0: i32, az0: i32, ax1: i32, ay1: i32, az1: i32, ax2: i32, ay2: i32, az2: i32, ax3: i32, ay3: i32, az3: i32, ax4: i32, ay4: i32, az4: i32, ax5: i32, ay5: i32, az5: i32, ax6: i32, ay6: i32, az6: i32, ax7: i32, ay7: i32, az7: i32, ax8: i32, ay8: i32, az8: i32, ax9: i32, ay9: i32, az9: i32, ax10: i32, ay10: i32, az10: i32, ax11: i32, ay11: i32, az11: i32, ax12: i32, ay12: i32, az12: i32, ax13: i32, ay13: i32, az13: i32, ax14: i32, ay14: i32, az14: i32, ax15: i32, ay15: i32, az15: i32, bx0: i32, by0: i32, bz0: i32, bx1: i32, by1: i32, bz1: i32, bx2: i32, by2: i32, bz2: i32, bx3: i32, by3: i32, bz3: i32, bx4: i32, by4: i32, bz4: i32, bx5: i32, by5: i32, bz5: i32, bx6: i32, by6: i32, bz6: i32, bx7: i32, by7: i32, bz7: i32, bx8: i32, by8: i32, bz8: i32, bx9: i32, by9: i32, bz9: i32, bx10: i32, by10: i32, bz10: i32, bx11: i32, by11: i32, bz11: i32, bx12: i32, by12: i32, bz12: i32, bx13: i32, by13: i32, bz13: i32, bx14: i32, by14: i32, bz14: i32, bx15: i32, by15: i32, bz15: i32)
    by (bit_vector)
    requires
        cordic_trace(ax0, ay0, az0, ax1, ay1, az1, ax2, ay2, az2, ax3, ay3, az3, ax4, ay4, az4, ax5, ay5, az5, ax6, ay6, az6, ax7, ay7, az7, ax8, ay8, az8, ax9, ay9, az9, ax10, ay10, az10, ax11, ay11, az11, ax12, ay12, az12, ax13, ay13, az13, ax14, ay14, az14, ax15, ay15, az15),
        cordic_trace(bx0, by0, bz0, bx1, by1, bz1, bx2, by2, bz2, bx3, by3, bz3, bx4, by4, bz4, bx5, by5, bz5, bx6, by6, bz6, bx7, by7, bz7, bx8, by8, bz8, bx9, by9, bz9, bx10, by10, bz10, bx11, by11, bz11, bx12, by12, bz12, bx13, by13, bz13, bx14, by14, bz14, bx15, by15, bz15),
        6144 <= az0 < 8192,
        bz0 == az0 + 1,
    ensures
        (ay15 >> 16i32) <= (by15 >> 16i32),
{
}

/// Adjacent start angles in [8192, 10240) give non-decreasing `y >> 16`.
#[verifier::rlimit(100)]
proof fn lemma_rise_4(ax0: i32, ay0: i32, az0: i32, ax1: i32, ay1: i32, az1: i32, ax2: i32, ay2: i32, az2: i32, ax3: i32, ay3: i32, az3: i32, ax4: i32, ay4: i32, az4: i32, ax5: i32, ay5: i32, az5: i32, ax6: i32, ay6: i32, az6: i32, ax7: i32, ay7: i32, az7: i32, ax8: i32, ay8: i32, az8: i32, ax9: i32, ay9: i32, az9: i32, ax10: i32, ay10: i32, az10: i32, ax11: i32, ay11: i32, az11: i32, ax12: i32, ay12: i32, az12: i32, ax13: i32, ay13: i32, az13: i32, ax14: i32, ay14: i32, az14: i32, ax15: i32, ay15: i32, az15: i32, bx0: i32, by0: i32, bz0: i32, bx1: i32, by1: i32, bz1: i32, bx2: i32, by2: i32, bz2: i32, bx3: i32, by3: i32, bz3: i32, bx4: i32, by4: i32, bz4: i32, bx5: i32, by5: i32, bz5: i32, bx6: i32, by6: i32, bz6: i32, bx7: i32, by7: i32, bz7: i32, bx8: i32, by8: i32, bz8: i32, bx9: i32, by9: i32, bz9: i32, bx10: i32, by10: i32, bz10: i32, bx11: i32, by11: i32, bz11: i32, bx12: i32, by12: i32, bz12: i32, bx13: i32, by13: i32, bz13: i32, bx14: i32, by14: i32, bz14: i32, bx15: i32, by15: i32, bz15: i32)
    by (bit_vector)
    requires
        cordic_trace(ax0, ay0, az0, ax1, ay1, az1, ax2, ay2, az2, ax3, ay3, az3, ax4, ay4, az4, ax5, ay5, az5, ax6, ay6, az6, ax7, ay7, az7, ax8, ay8, az8, ax9, ay9, az9, ax10, ay10, az10, ax11, ay11, az11, ax12, ay12, az12, ax13, ay13, az13, ax14, ay14, az14, ax15, ay15, az15),
        cordic_trace(bx0, by0, bz0, bx1, by1, bz1, bx2, by2, bz2, bx3, by3, bz3, bx4, by4, bz4, bx5, by5, bz5, bx6, by6, bz6, bx7, by7, bz7, bx8, by8, bz8, bx9, by9, bz9, bx10, by10, bz10, bx11, by11, bz11, bx12, by12, bz12, bx13, by13, bz13, bx14, by14, bz14, bx15, by15, bz15),
        8192 <= az0 < 10240,
        bz0 == az0 + 1,
    ensures
        (ay15 >> 16i32) <= (by15 >> 16i32),
{
}

/// Adjacent start angles in [10240, 12288) give non-decreasing `y >> 16`.
#[verifier::rlimit(100)]
proof fn lemma_rise_5(ax0: i32, ay0: i32, az0: i32, ax1: i32, ay1: i32, az1: i32, ax2: i32, ay2: i32, az2: i32, ax3: i32, ay3: i32, az3: i32, ax4: i32, ay4: i32, az4: i32, ax5: i32, ay5: i32, az5: i32, ax6: i32, ay6: i32, az6: i32, ax7: i32, ay7: i32, az7: i32, ax8: i32, ay8: i32, az8: i32, ax9: i32, ay9: i32, az9: i32, ax10: i32, ay10: i32, az10: i32, ax11: i32, ay11: i32, az11: i32, ax12: i32, ay12: i32, az12: i32, ax13: i32, ay13: i32, az13: i32, ax14: i32, ay14: i32, az14: i32, ax15: i32, ay15: i32, az15: i32, bx0: i32, by0: i32, bz0: i32, bx1: i32, by1: i32, bz1: i32, bx2: i32, by2: i32, bz2: i32, bx3: i32, by3: i32, bz3: i32, bx4: i32, by4: i32, bz4: i32, bx5: i32, by5: i32, bz5: i32, bx6: i32, by6: i32, bz6: i32, bx7: i32, by7: i32, bz7: i32, bx8: i32, by8: i32, bz8: i32, bx9: i32, by9: i32, bz9: i32, bx10: i32, by10: i32, bz10: i32, bx11: i32, by11: i32, bz11: i32, bx12: i32, by12: i32, bz12: i32, bx13: i32, by13: i32, bz13: i32, bx14: i32, by14: i32, bz14: i32, bx15: i32, by15: i32, bz15: i32)
    by (bit_vector)
    requires
        cordic_trace(ax0, ay0, az0, ax1, ay1, az1, ax2, ay2, az2, ax3, ay3, az3, ax4, ay4, az4, ax5, ay5, az5, ax6, ay6, az6, ax7, ay7, az7, ax8, ay8, az8, ax9, ay9, az9, ax10, ay10, az10, ax11, ay11, az11, ax12, ay12, az12, ax13, ay13, az13, ax14, ay14, az14, ax15, ay15, az15),
        cordic_trace(bx0, by0, bz0, bx1, by1, bz1, bx2, by2, bz2, bx3, by3, bz3, bx4, by4, bz4, bx5, by5, bz5, bx6, by6, bz6, bx7, by7, bz7, bx8, by8, bz8, bx9, by9, bz9, bx10, by10, bz10, bx11, by11, bz11, bx12, by12, bz12, bx13, by13, bz13, bx14, by14, bz14, bx15, by15, bz15),
        10240 <= az0 < 12288,
        bz0 == az0 + 1,
    ensures
        (ay15 >> 16i32) <= (by15 >> 16i32),
{
}

/// Adjacent start angles in [12288, 14336) give non-decreasing `y >> 16`.
#[verifier::rlimit(100)]
proof fn lemma_rise_6(ax0: i32, ay0: i32, az0: i32, ax1: i32, ay1: i32, az1: i32, ax2: i32, ay2: i32, az2: i32, ax3: i32, ay3: i32, az3: i32, ax4: i32, ay4: i32, az4: i32, ax5: i32, ay5: i32, az5: i32, ax6: i32, ay6: i32, az6: i32, ax7: i32, ay7: i32, az7: i32, ax8: i32, ay8: i32, az8: i32, ax9: i32, ay9: i32, az9: i32, ax10: i32, ay10: i32, az10: i32, ax11: i32, ay11: i32, az11: i32, ax12: i32, ay12: i32, az12: i32, ax13: i32, ay13: i32, az13: i32, ax14: i32, ay14: i32, az14: i32, ax15: i32, ay15: i32, az15: i32, bx0: i32, by0: i32, bz0: i32, bx1: i32, by1: i32, bz1: i32, bx2: i32, by2: i32, bz2: i32, bx3: i32, by3: i32, bz3: i32, bx4: i32, by4: i32, bz4: i32, bx5: i32, by5: i32, bz5: i32, bx6: i32, by6: i32, bz6: i32, bx7: i32, by7: i32, bz7: i32, bx8: i32, by8: i32, bz8: i32, bx9: i32, by9: i32, bz9: i32, bx10: i32, by10: i32, bz10: i32, bx11: i32, by11: i32, bz11: i32, bx12: i32, by12: i32, bz12: i32, bx13: i32, by13: i32, bz13: i32, bx14: i32, by14: i32, bz14: i32, bx15: i32, by15: i32, bz15: i32)
    by (bit_vector)
    requires
        cordic_trace(ax0, ay0, az0, ax1, ay1, az1, ax2, ay2, az2, ax3, ay3, az3, ax4, ay4, az4, ax5, ay5, az5, ax6, ay6, az6, ax7, ay7, az7, ax8, ay8, az8, ax9, ay9, az9, ax10, ay10, az10, ax11, ay11, az11, ax12, ay12, az12, ax13, ay13, az13, ax14, ay14, az14, ax15, ay15, az15),
        cordic_trace(bx0, by0, bz0, bx1, by1, bz1, bx2, by2, bz2, bx3, by3, bz3, bx4, by4, bz4, bx5, by5, bz5, bx6, by6, bz6, bx7, by7, bz7, bx8, by8, bz8, bx9, by9, bz9, bx10, by10, bz10, bx11, by11, bz11, bx12, by12, bz12, bx13, by13, bz13, bx14, by14, bz14, bx15, by15, bz15),
        12288 <= az0 < 14336,
        bz0 == az0 + 1,
    ensures
        (ay15 >> 16i32) <= (by15 >> 16i32),
{
}

/// Adjacent start angles in [14336, 16384) give non-decreasing `y >> 16`.
#[verifier::rlimit(100)]
proof fn lemma_rise_7(ax0: i32, ay0: i32, az0: i32, ax1: i32, ay1: i32, az1: i32, ax2: i32, ay2: i32, az2: i32, ax3: i32, ay3: i32, az3: i32, ax4: i32, ay4: i32, az4: i32, ax5: i32, ay5: i32, az5: i32, ax6: i32, ay6: i32, az6: i32, ax7: i32, ay7: i32, az7: i32, ax8: i32, ay8: i32, az8: i32, ax9: i32, ay9: i32, az9: i32, ax10: i32, ay10: i32, az10: i32, ax11: i32, ay11: i32, az11: i32, ax12: i32, ay12: i32, az12: i32, ax13: i32, ay13: i32, az13: i32, ax14: i32, ay14: i32, az14: i32, ax15: i32, ay15: i32, az15: i32, bx0: i32, by0: i32, bz0: i32, bx1: i32, by1: i32, bz1: i32, bx2: i32, by2: i32, bz2: i32, bx3: i32, by3: i32, bz3: i32, bx4: i32, by4: i32, bz4: i32, bx5: i32, by5: i32, bz5: i32, bx6: i32, by6: i32, bz6: i32, bx7: i32, by7: i32, bz7: i32, bx8: i32, by8: i32, bz8: i32, bx9: i32, by9: i32, bz9: i32, bx10: i32, by10: i32, bz10: i32, bx11: i32, by11: i32, bz11: i32, bx12: i32, by12: i32, bz12: i32, bx13: i32, by13: i32, bz13: i32, bx14: i32, by14: i32, bz14: i32, bx15: i32, by15: i32, bz15: i32)
    by (bit_vector)
    requires
        cordic_trace(ax0, ay0, az0, ax1, ay1, az1, ax2, ay2, az2, ax3, ay3, az3, ax4, ay4, az4, ax5, ay5, az5, ax6, ay6, az6, ax7, ay7, az7, ax8, ay8, az8, ax9, ay9, az9, ax10, ay10, az10, ax11, ay11, az11, ax12, ay12, az12, ax13, ay13, az13, ax14, ay14, az14, ax15, ay15, az15),
        cordic_trace(bx0, by0, bz0, bx1, by1, bz1, bx2, by2, bz2, bx3, by3, bz3, bx4, by4, bz4, bx5, by5, bz5, bx6, by6, bz6, bx7, by7, bz7, bx8, by8, bz8, bx9, by9, bz9, bx10, by10, bz10, bx11, by11, bz11, bx12, by12, bz12, bx13, by13, bz13, bx14, by14, bz14, bx15, by15, bz15),
        14336 <= az0 < 16384,
        bz0 == az0 + 1,
    ensures
        (ay15 >> 16i32) <= (by15 >> 16i32),
{
}

/// The run [`cordic_iter`] describes is a [`cordic_trace`].
proof fn lemma_iter_is_trace(a: i32)
    ensures
        cordic_trace(cordic_iter((X_INIT, 0, a), 0).0, cordic_iter((X_INIT, 0, a), 0).1, cordic_iter((X_INIT, 0, a), 0).2, cordic_iter((X_INIT, 0, a), 1).0, cordic_iter((X_INIT, 0, a), 1).1, cordic_iter((X_INIT, 0, a), 1).2, cordic_iter((X_INIT, 0, a), 2).0, cordic_iter((X_INIT, 0, a), 2).1, cordic_iter((X_INIT, 0, a), 2).2, cordic_iter((X_INIT, 0, a), 3).0, cordic_iter((X_INIT, 0, a), 3).1, cordic_iter((X_INIT, 0, a), 3).2, cordic_iter((X_INIT, 0, a), 4).0, cordic_iter((X_INIT, 0, a), 4).1, cordic_iter((X_INIT, 0, a), 4).2, cordic_iter((X_INIT, 0, a), 5).0, cordic_iter((X_INIT, 0, a), 5).1, cordic_iter((X_INIT, 0, a), 5).2, cordic_iter((X_INIT, 0, a), 6).0, cordic_iter((X_INIT, 0, a), 6).1, cordic_iter((X_INIT, 0, a), 6).2, cordic_iter((X_INIT, 0, a), 7).0, cordic_iter((X_INIT, 0, a), 7).1, cordic_iter((X_INIT, 0, a), 7).2, cordic_iter((X_INIT, 0, a), 8).0, cordic_iter((X_INIT, 0, a), 8).1, cordic_iter((X_INIT, 0, a), 8).2, cordic_iter((X_INIT, 0, a), 9).0, cordic_iter((X_INIT, 0, a), 9).1, cordic_iter((X_INIT, 0, a), 9).2, cordic_iter((X_INIT, 0, a), 10).0, cordic_iter((X_INIT, 0, a), 10).1, cordic_iter((X_INIT, 0, a), 10).2, cordic_iter((X_INIT, 0, a), 11).0, cordic_iter((X_INIT, 0, a), 11).1, cordic_iter((X_INIT, 0, a), 11).2, cordic_iter((X_INIT, 0, a), 12).0, cordic_iter((X_INIT, 0, a), 12).1, cordic_iter((X_INIT, 0, a), 12).2, cordic_iter((X_INIT, 0, a), 13).0, cordic_iter((X_INIT, 0, a), 13).1, cordic_iter((X_INIT, 0, a), 13).2, cordic_iter((X_INIT, 0, a), 14).0, cordic_iter((X_INIT, 0, a), 14).1, cordic_iter((X_INIT, 0, a), 14).2, cordic_iter((X_INIT, 0, a), 15).0, cordic_iter((X_INIT, 0, a), 15).1, cordic_iter((X_INIT, 0, a), 15).2),
{
    assert(cordic_atan() == seq![8192i16, 4836, 2555, 1297, 651, 326, 163, 81, 41, 20, 10, 5, 3, 1, 1]);
}

/// Raising the start angle by one never lowers `y >> 16` on [0, π/2].
proof fn lemma_y_rises(a: i32, b: i32)
    requires
        0 <= a < 16384,
        b == a + 1,
    ensures
        cordic_iter((X_INIT, 0, a), 15).1 >> 16i32 <= cordic_iter((X_INIT, 0, b), 15).1 >> 16i32,
{
    lemma_iter_is_trace(a);
    lemma_iter_is_trace(b);
    if a < 2048 {
        lemma_rise_0(cordic_iter((X_INIT, 0, a), 0).0, cordic_iter((X_INIT, 0, a), 0).1, cordic_iter((X_INIT, 0, a), 0).2, cordic_iter((X_INIT, 0, a), 1).0, cordic_iter((X_INIT, 0, a), 1).1, cordic_iter((X_INIT, 0, a), 1).2, cordic_iter((X_INIT, 0, a), 2).0, cordic_iter((X_INIT, 0, a), 2).1, cordic_iter((X_INIT, 0, a), 2).2, cordic_iter((X_INIT, 0, a), 3).0, cordic_iter((X_INIT, 0, a), 3).1, cordic_iter((X_INIT, 0, a), 3).2, cordic_iter((X_INIT, 0, a), 4).0, cordic_iter((X_INIT, 0, a), 4).1, cordic_iter((X_INIT, 0, a), 4).2, cordic_iter((X_INIT, 0, a), 5).0, cordic_iter((X_INIT, 0, a), 5).1, cordic_iter((X_INIT, 0, a), 5).2, cordic_iter((X_INIT, 0, a), 6).0, cordic_iter((X_INIT, 0, a), 6).1, cordic_iter((X_INIT, 0, a), 6).2, cordic_iter((X_INIT, 0, a), 7).0, cordic_iter((X_INIT, 0, a), 7).1, cordic_iter((X_INIT, 0, a), 7).2, cordic_iter((X_INIT, 0, a), 8).0, cordic_iter((X_INIT, 0, a), 8).1, cordic_iter((X_INIT, 0, a), 8).2, cordic_iter((X_INIT, 0, a), 9).0, cordic_iter((X_INIT, 0, a), 9).1, cordic_iter((X_INIT, 0, a), 9).2, cordic_iter((X_INIT, 0, a), 10).0, cordic_iter((X_INIT, 0, a), 10).1, cordic_iter((X_INIT, 0, a), 10).2, cordic_iter((X_INIT, 0, a), 11).0, cordic_iter((X_INIT, 0, a), 11).1, cordic_iter((X_INIT, 0, a), 11).2, cordic_iter((X_INIT, 0, a), 12).0, cordic_iter((X_INIT, 0, a), 12).1, cordic_iter((X_INIT, 0, a), 12).2, cordic_iter((X_INIT, 0, a), 13).0, cordic_iter((X_INIT, 0, a), 13).1, cordic_iter((X_INIT, 0, a), 13).2, cordic_iter((X_INIT, 0, a), 14).0, cordic_iter((X_INIT, 0, a), 14).1, cordic_iter((X_INIT, 0, a), 14).2, cordic_iter((X_INIT, 0, a), 15).0, cordic_iter((X_INIT, 0, a), 15).1, cordic_iter((X_INIT, 0, a), 15).2, cordic_iter((X_INIT, 0, b), 0).0, cordic_iter((X_INIT, 0, b), 0).1, cordic_iter((X_INIT, 0, b), 0).2, cordic_iter((X_INIT, 0, b), 1).0, cordic_iter((X_INIT, 0, b), 1).1, cordic_iter((X_INIT, 0, b), 1).2, cordic_iter((X_INIT, 0, b), 2).0, cordic_iter((X_INIT, 0, b), 2).1, cordic_iter((X_INIT, 0, b), 2).2, cordic_iter((X_INIT, 0, b), 3).0, cordic_iter((X_INIT, 0, b), 3).1, cordic_iter((X_INIT, 0, b), 3).2, cordic_iter((X_INIT, 0, b), 4).0, cordic_iter((X_INIT, 0, b), 4).1, cordic_iter((X_INIT, 0, b), 4).2, cordic_iter((X_INIT, 0, b), 5).0, cordic_iter((X_INIT, 0, b), 5).1, cordic_iter((X_INIT, 0, b), 5).2, cordic_iter((X_INIT, 0, b), 6).0, cordic_iter((X_INIT, 0, b), 6).1, cordic_iter((X_INIT, 0, b), 6).2, cordic_iter((X_INIT, 0, b), 7).0, cordic_iter((X_INIT, 0, b), 7).1, cordic_iter((X_INIT, 0, b), 7).2, cordic_iter((X_INIT, 0, b), 8).0, cordic_iter((X_INIT, 0, b), 8).1, cordic_iter((X_INIT, 0, b), 8).2, cordic_iter((X_INIT, 0, b), 9).0, cordic_iter((X_INIT, 0, b), 9).1, cordic_iter((X_INIT, 0, b), 9).2, cordic_iter((X_INIT, 0, b), 10).0, cordic_iter((X_INIT, 0, b), 10).1, cordic_iter((X_INIT, 0, b), 10).2, cordic_iter((X_INIT, 0, b), 11).0, cordic_iter((X_INIT, 0, b), 11).1, cordic_iter((X_INIT, 0, b), 11).2, cordic_iter((X_INIT, 0, b), 12).0, cordic_iter((X_INIT, 0, b), 12).1, cordic_iter((X_INIT, 0, b), 12).2, cordic_iter((X_INIT, 0, b), 13).0, cordic_iter((X_INIT, 0, b), 13).1, cordic_iter((X_INIT, 0, b), 13).2, cordic_iter((X_INIT, 0, b), 14).0, cordic_iter((X_INIT, 0, b), 14).1, cordic_iter((X_INIT, 0, b), 14).2, cordic_iter((X_INIT, 0, b), 15).0, cordic_iter((X_INIT, 0, b), 15).1, cordic_iter((X_INIT, 0, b), 15).2);
    } else if a < 4096 {
        lemma_rise_1(cordic_iter((X_INIT, 0, a), 0).0, cordic_iter((X_INIT, 0, a), 0).1, cordic_iter((X_INIT, 0, a), 0).2, cordic_iter((X_INIT, 0, a), 1).0, cordic_iter((X_INIT, 0, a), 1).1, cordic_iter((X_INIT, 0, a), 1).2, cordic_iter((X_INIT, 0, a), 2).0, cordic_iter((X_INIT, 0, a), 2).1, cordic_iter((X_INIT, 0, a), 2).2, cordic_iter((X_INIT, 0, a), 3).0, cordic_iter((X_INIT, 0, a), 3).1, cordic_iter((X_INIT, 0, a), 3).2, cordic_iter((X_INIT, 0, a), 4).0, cordic_iter((X_INIT, 0, a), 4).1, cordic_iter((X_INIT, 0, a), 4).2, cordic_iter((X_INIT, 0, a), 5).0, cordic_iter((X_INIT, 0, a), 5).1, cordic_iter((X_INIT, 0, a), 5).2, cordic_iter((X_INIT, 0, a), 6).0, cordic_iter((X_INIT, 0, a), 6).1, cordic_iter((X_INIT, 0, a), 6).2, cordic_iter((X_INIT, 0, a), 7).0, cordic_iter((X_INIT, 0, a), 7).1, cordic_iter((X_INIT, 0, a), 7).2, cordic_iter((X_INIT, 0, a), 8).0, cordic_iter((X_INIT, 0, a), 8).1, cordic_iter((X_INIT, 0, a), 8).2, cordic_iter((X_INIT, 0, a), 9).0, cordic_iter((X_INIT, 0, a), 9).1, cordic_iter((X_INIT, 0, a), 9).2, cordic_iter((X_INIT, 0, a), 10).0, cordic_iter((X_INIT, 0, a), 10).1, cordic_iter((X_INIT, 0, a), 10).2, cordic_iter((X_INIT, 0, a), 11).0, cordic_iter((X_INIT, 0, a), 11).1, cordic_iter((X_INIT, 0, a), 11).2, cordic_iter((X_INIT, 0, a), 12).0, cordic_iter((X_INIT, 0, a), 12).1, cordic_iter((X_INIT, 0, a), 12).2, cordic_iter((X_INIT, 0, a), 13).0, cordic_iter((X_INIT, 0, a), 13).1, cordic_iter((X_INIT, 0, a), 13).2, cordic_iter((X_INIT, 0, a), 14).0, cordic_iter((X_INIT, 0, a), 14).1, cordic_iter((X_INIT, 0, a), 14).2, cordic_iter((X_INIT, 0, a), 15).0, cordic_iter((X_INIT, 0, a), 15).1, cordic_iter((X_INIT, 0, a), 15).2, cordic_iter((X_INIT, 0, b), 0).0, cordic_iter((X_INIT, 0, b), 0).1, cordic_iter((X_INIT, 0, b), 0).2, cordic_iter((X_INIT, 0, b), 1).0, cordic_iter((X_INIT, 0, b), 1).1, cordic_iter((X_INIT, 0, b), 1).2, cordic_iter((X_INIT, 0, b), 2).0, cordic_iter((X_INIT, 0, b), 2).1, cordic_iter((X_INIT, 0, b), 2).2, cordic_iter((X_INIT, 0, b), 3).0, cordic_iter((X_INIT, 0, b), 3).1, cordic_iter((X_INIT, 0, b), 3).2, cordic_iter((X_INIT, 0, b), 4).0, cordic_iter((X_INIT, 0, b), 4).1, cordic_iter((X_INIT, 0, b), 4).2, cordic_iter((X_INIT, 0, b), 5).0, cordic_iter((X_INIT, 0, b), 5).1, cordic_iter((X_INIT, 0, b), 5).2, cordic_iter((X_INIT, 0, b), 6).0, cordic_iter((X_INIT, 0, b), 6).1, cordic_iter((X_INIT, 0, b), 6).2, cordic_iter((X_INIT, 0, b), 7).0, cordic_iter((X_INIT, 0, b), 7).1, cordic_iter((X_INIT, 0, b), 7).2, cordic_iter((X_INIT, 0, b), 8).0, cordic_iter((X_INIT, 0, b), 8).1, cordic_iter((X_INIT, 0, b), 8).2, cordic_iter((X_INIT, 0, b), 9).0, cordic_iter((X_INIT, 0, b), 9).1, cordic_iter((X_INIT, 0, b), 9).2, cordic_iter((X_INIT, 0, b), 10).0, cordic_iter((X_INIT, 0, b), 10).1, cordic_iter((X_INIT, 0, b), 10).2, cordic_iter((X_INIT, 0, b), 11).0, cordic_iter((X_INIT, 0, b), 11).1, cordic_iter((X_INIT, 0, b), 11).2, cordic_iter((X_INIT, 0, b), 12).0, cordic_iter((X_INIT, 0, b), 12).1, cordic_iter((X_INIT, 0, b), 12).2, cordic_iter((X_INIT, 0, b), 13).0, cordic_iter((X_INIT, 0, b), 13).1, cordic_iter((X_INIT, 0, b), 13).2, cordic_iter((X_INIT, 0, b), 14).0, cordic_iter((X_INIT, 0, b), 14).1, cordic_iter((X_INIT, 0, b), 14).2, cordic_iter((X_INIT, 0, b), 15).0, cordic_iter((X_INIT, 0, b), 15).1, cordic_iter((X_INIT, 0, b), 15).2);
    } else if a < 6144 {
        lemma_rise_2(cordic_iter((X_INIT, 0, a), 0).0, cordic_iter((X_INIT, 0, a), 0).1, cordic_iter((X_INIT, 0, a), 0).2, cordic_iter((X_INIT, 0, a), 1).0, cordic_iter((X_INIT, 0, a), 1).1, cordic_iter((X_INIT, 0, a), 1).2, cordic_iter((X_INIT, 0, a), 2).0, cordic_iter((X_INIT, 0, a), 2).1, cordic_iter((X_INIT, 0, a), 2).2, cordic_iter((X_INIT, 0, a), 3).0, cordic_iter((X_INIT, 0, a), 3).1, cordic_iter((X_INIT, 0, a), 3).2, cordic_iter((X_INIT, 0, a), 4).0, cordic_iter((X_INIT, 0, a), 4).1, cordic_iter((X_INIT, 0, a), 4).2, cordic_iter((X_INIT, 0, a), 5).0, cordic_iter((X_INIT, 0, a), 5).1, cordic_iter((X_INIT, 0, a), 5).2, cordic_iter((X_INIT, 0, a), 6).0, cordic_iter((X_INIT, 0, a), 6).1, cordic_iter((X_INIT, 0, a), 6).2, cordic_iter((X_INIT, 0, a), 7).0, cordic_iter((X_INIT, 0, a), 7).1, cordic_iter((X_INIT, 0, a), 7).2, cordic_iter((X_INIT, 0, a), 8).0, cordic_iter((X_INIT, 0, a), 8).1, cordic_iter((X_INIT, 0, a), 8).2, cordic_iter((X_INIT, 0, a), 9).0, cordic_iter((X_INIT, 0, a), 9).1, cordic_iter((X_INIT, 0, a), 9).2, cordic_iter((X_INIT, 0, a), 10).0, cordic_iter((X_INIT, 0, a), 10).1, cordic_iter((X_INIT, 0, a), 10).2, cordic_iter((X_INIT, 0, a), 11).0, cordic_iter((X_INIT, 0, a), 11).1, cordic_iter((X_INIT, 0, a), 11).2, cordic_iter((X_INIT, 0, a), 12).0, cordic_iter((X_INIT, 0, a), 12).1, cordic_iter((X_INIT, 0, a), 12).2, cordic_iter((X_INIT, 0, a), 13).0, cordic_iter((X_INIT, 0, a), 13).1, cordic_iter((X_INIT, 0, a), 13).2, cordic_iter((X_INIT, 0, a), 14).0, cordic_iter((X_INIT, 0, a), 14).1, cordic_iter((X_INIT, 0, a), 14).2, cordic_iter((X_INIT, 0, a), 15).0, cordic_iter((X_INIT, 0, a), 15).1, cordic_iter((X_INIT, 0, a), 15).2, cordic_iter((X_INIT, 0, b), 0).0, cordic_iter((X_INIT, 0, b), 0).1, cordic_iter((X_INIT, 0, b), 0).2, cordic_iter((X_INIT, 0, b), 1).0, cordic_iter((X_INIT, 0, b), 1).1, cordic_iter((X_INIT, 0, b), 1).2, cordic_iter((X_INIT, 0, b), 2).0, cordic_iter((X_INIT, 0, b), 2).1, cordic_iter((X_INIT, 0, b), 2).2, cordic_iter((X_INIT, 0, b), 3).0, cordic_iter((X_INIT, 0, b), 3).1, cordic_iter((X_INIT, 0, b), 3).2, cordic_iter((X_INIT, 0, b), 4).0, cordic_iter((X_INIT, 0, b), 4).1, cordic_iter((X_INIT, 0, b), 4).2, cordic_iter((X_INIT, 0, b), 5).0, cordic_iter((X_INIT, 0, b), 5).1, cordic_iter((X_INIT, 0, b), 5).2, cordic_iter((X_INIT, 0, b), 6).0, cordic_iter((X_INIT, 0, b), 6).1, cordic_iter((X_INIT, 0, b), 6).2, cordic_iter((X_INIT, 0, b), 7).0, cordic_iter((X_INIT, 0, b), 7).1, cordic_iter((X_INIT, 0, b), 7).2, cordic_iter((X_INIT, 0, b), 8).0, cordic_iter((X_INIT, 0, b), 8).1, cordic_iter((X_INIT, 0, b), 8).2, cordic_iter((X_INIT, 0, b), 9).0, cordic_iter((X_INIT, 0, b), 9).1, cordic_iter((X_INIT, 0, b), 9).2, cordic_iter((X_INIT, 0, b), 10).0, cordic_iter((X_INIT, 0, b), 10).1, cordic_iter((X_INIT, 0, b), 10).2, cordic_iter((X_INIT, 0, b), 11).0, cordic_iter((X_INIT, 0, b), 11).1, cordic_iter((X_INIT, 0, b), 11).2, cordic_iter((X_INIT, 0, b), 12).0, cordic_iter((X_INIT, 0, b), 12).1, cordic_iter((X_INIT, 0, b), 12).2, cordic_iter((X_INIT, 0, b), 13).0, cordic_iter((X_INIT, 0, b), 13).1, cordic_iter((X_INIT, 0, b), 13).2, cordic_iter((X_INIT, 0, b), 14).0, cordic_iter((X_INIT, 0, b), 14).1, cordic_iter((X_INIT, 0, b), 14).2, cordic_iter((X_INIT, 0, b), 15).0, cordic_iter((X_INIT, 0, b), 15).1, cordic_iter((X_INIT, 0, b), 15).2);
    } else if a < 8192 {
        lemma_rise_3(cordic_iter((X_INIT, 0, a), 0).0, cordic_iter((X_INIT, 0, a), 0).1, cordic_iter((X_INIT, 0, a), 0).2, cordic_iter((X_INIT, 0, a), 1).0, cordic_iter((X_INIT, 0, a), 1).1, cordic_iter((X_INIT, 0, a), 1).2, cordic_iter((X_INIT, 0, a), 2).0, cordic_iter((X_INIT, 0, a), 2).1, cordic_iter((X_INIT, 0, a), 2).2, cordic_iter((X_INIT, 0, a), 3).0, cordic_iter((X_INIT, 0, a), 3).1, cordic_iter((X_INIT, 0, a), 3).2, cordic_iter((X_INIT, 0, a), 4).0, cordic_iter((X_INIT, 0, a), 4).1, cordic_iter((X_INIT, 0, a), 4).2, cordic_iter((X_INIT, 0, a), 5).0, cordic_iter((X_INIT, 0, a), 5).1, cordic_iter((X_INIT, 0, a), 5).2, cordic_iter((X_INIT, 0, a), 6).0, cordic_iter((X_INIT, 0, a), 6).1, cordic_iter((X_INIT, 0, a), 6).2, cordic_iter((X_INIT, 0, a), 7).0, cordic_iter((X_INIT, 0, a), 7).1, cordic_iter((X_INIT, 0, a), 7).2, cordic_iter((X_INIT, 0, a), 8).0, cordic_iter((X_INIT, 0, a), 8).1, cordic_iter((X_INIT, 0, a), 8).2, cordic_iter((X_INIT, 0, a), 9).0, cordic_iter((X_INIT, 0, a), 9).1, cordic_iter((X_INIT, 0, a), 9).2, cordic_iter((X_INIT, 0, a), 10).0, cordic_iter((X_INIT, 0, a), 10).1, cordic_iter((X_INIT, 0, a), 10).2, cordic_iter((X_INIT, 0, a), 11).0, cordic_iter((X_INIT, 0, a), 11).1, cordic_iter((X_INIT, 0, a), 11).2, cordic_iter((X_INIT, 0, a), 12).0, cordic_iter((X_INIT, 0, a), 12).1, cordic_iter((X_INIT, 0, a), 12).2, cordic_iter((X_INIT, 0, a), 13).0, cordic_iter((X_INIT, 0, a), 13).1, cordic_iter((X_INIT, 0, a), 13).2, cordic_iter((X_INIT, 0, a), 14).0, cordic_iter((X_INIT, 0, a), 14).1, cordic_iter((X_INIT, 0, a), 14).2, cordic_iter((X_INIT, 0, a), 15).0, cordic_iter((X_INIT, 0, a), 15).1, cordic_iter((X_INIT, 0, a), 15).2, cordic_iter((X_INIT, 0, b), 0).0, cordic_iter((X_INIT, 0, b), 0).1, cordic_iter((X_INIT, 0, b), 0).2, cordic_iter((X_INIT, 0, b), 1).0, cordic_iter((X_INIT, 0, b), 1).1, cordic_iter((X_INIT, 0, b), 1).2, cordic_iter((X_INIT, 0, b), 2).0, cordic_iter((X_INIT, 0, b), 2).1, cordic_iter((X_INIT, 0, b), 2).2, cordic_iter((X_INIT, 0, b), 3).0, cordic_iter((X_INIT, 0, b), 3).1, cordic_iter((X_INIT, 0, b), 3).2, cordic_iter((X_INIT, 0, b), 4).0, cordic_iter((X_INIT, 0, b), 4).1, cordic_iter((X_INIT, 0, b), 4).2, cordic_iter((X_INIT, 0, b), 5).0, cordic_iter((X_INIT, 0, b), 5).1, cordic_iter((X_INIT, 0, b), 5).2, cordic_iter((X_INIT, 0, b), 6).0, cordic_iter((X_INIT, 0, b), 6).1, cordic_iter((X_INIT, 0, b), 6).2, cordic_iter((X_INIT, 0, b), 7).0, cordic_iter((X_INIT, 0, b), 7).1, cordic_iter((X_INIT, 0, b), 7).2, cordic_iter((X_INIT, 0, b), 8).0, cordic_iter((X_INIT, 0, b), 8).1, cordic_iter((X_INIT, 0, b), 8).2, cordic_iter((X_INIT, 0, b), 9).0, cordic_iter((X_INIT, 0, b), 9).1, cordic_iter((X_INIT, 0, b), 9).2, cordic_iter((X_INIT, 0, b), 10).0, cordic_iter((X_INIT, 0, b), 10).1, cordic_iter((X_INIT, 0, b), 10).2, cordic_iter((X_INIT, 0, b), 11).0, cordic_iter((X_INIT, 0, b), 11).1, cordic_iter((X_INIT, 0, b), 11).2, cordic_iter((X_INIT, 0, b), 12).0, cordic_iter((X_INIT, 0, b), 12).1, cordic_iter((X_INIT, 0, b), 12).2, cordic_iter((X_INIT, 0, b), 13).0, cordic_iter((X_INIT, 0, b), 13).1, cordic_iter((X_INIT, 0, b), 13).2, cordic_iter((X_INIT, 0, b), 14).0, cordic_iter((X_INIT, 0, b), 14).1, cordic_iter((X_INIT, 0, b), 14).2, cordic_iter((X_INIT, 0, b), 15).0, cordic_iter((X_INIT, 0, b), 15).1, cordic_iter((X_INIT, 0, b), 15).2);
    } else if a < 10240 {
        lemma_rise_4(cordic_iter((X_INIT, 0, a), 0).0, cordic_iter((X_INIT, 0, a), 0).1, cordic_iter((X_INIT, 0, a), 0).2, cordic_iter((X_INIT, 0, a), 1).0, cordic_iter((X_INIT, 0, a), 1).1, cordic_iter((X_INIT, 0, a), 1).2, cordic_iter((X_INIT, 0, a), 2).0, cordic_iter((X_INIT, 0, a), 2).1, cordic_iter((X_INIT, 0, a), 2).2, cordic_iter((X_INIT, 0, a), 3).0, cordic_iter((X_INIT, 0, a), 3).1, cordic_iter((X_INIT, 0, a), 3).2, cordic_iter((X_INIT, 0, a), 4).0, cordic_iter((X_INIT, 0, a), 4).1, cordic_iter((X_INIT, 0, a), 4).2, cordic_iter((X_INIT, 0, a), 5).0, cordic_iter((X_INIT, 0, a), 5).1, cordic_iter((X_INIT, 0, a), 5).2, cordic_iter((X_INIT, 0, a), 6).0, cordic_iter((X_INIT, 0, a), 6).1, cordic_iter((X_INIT, 0, a), 6).2, cordic_iter((X_INIT, 0, a), 7).0, cordic_iter((X_INIT, 0, a), 7).1, cordic_iter((X_INIT, 0, a), 7).2, cordic_iter((X_INIT, 0, a), 8).0, cordic_iter((X_INIT, 0, a), 8).1, cordic_iter((X_INIT, 0, a), 8).2, cordic_iter((X_INIT, 0, a), 9).0, cordic_iter((X_INIT, 0, a), 9).1, cordic_iter((X_INIT, 0, a), 9).2, cordic_iter((X_INIT, 0, a), 10).0, cordic_iter((X_INIT, 0, a), 10).1, cordic_iter((X_INIT, 0, a), 10).2, cordic_iter((X_INIT, 0, a), 11).0, cordic_iter((X_INIT, 0, a), 11).1, cordic_iter((X_INIT, 0, a), 11).2, cordic_iter((X_INIT, 0, a), 12).0, cordic_iter((X_INIT, 0, a), 12).1, cordic_iter((X_INIT, 0, a), 12).2, cordic_iter((X_INIT, 0, a), 13).0, cordic_iter((X_INIT, 0, a), 13).1, cordic_iter((X_INIT, 0, a), 13).2, cordic_iter((X_INIT, 0, a), 14).0, cordic_iter((X_INIT, 0, a), 14).1, cordic_iter((X_INIT, 0, a), 14).2, cordic_iter((X_INIT, 0, a), 15).0, cordic_iter((X_INIT, 0, a), 15).1, cordic_iter((X_INIT, 0, a), 15).2, cordic_iter((X_INIT, 0, b), 0).0, cordic_iter((X_INIT, 0, b), 0).1, cordic_iter((X_INIT, 0, b), 0).2, cordic_iter((X_INIT, 0, b), 1).0, cordic_iter((X_INIT, 0, b), 1).1, cordic_iter((X_INIT, 0, b), 1).2, cordic_iter((X_INIT, 0, b), 2).0, cordic_iter((X_INIT, 0, b), 2).1, cordic_iter((X_INIT, 0, b), 2).2, cordic_iter((X_INIT, 0, b), 3).0, cordic_iter((X_INIT, 0, b), 3).1, cordic_iter((X_INIT, 0, b), 3).2, cordic_iter((X_INIT, 0, b), 4).0, cordic_iter((X_INIT, 0, b), 4).1, cordic_iter((X_INIT, 0, b), 4).2, cordic_iter((X_INIT, 0, b), 5).0, cordic_iter((X_INIT, 0, b), 5).1, cordic_iter((X_INIT, 0, b), 5).2, cordic_iter((X_INIT, 0, b), 6).0, cordic_iter((X_INIT, 0, b), 6).1, cordic_iter((X_INIT, 0, b), 6).2, cordic_iter((X_INIT, 0, b), 7).0, cordic_iter((X_INIT, 0, b), 7).1, cordic_iter((X_INIT, 0, b), 7).2, cordic_iter((X_INIT, 0, b), 8).0, cordic_iter((X_INIT, 0, b), 8).1, cordic_iter((X_INIT, 0, b), 8).2, cordic_iter((X_INIT, 0, b), 9).0, cordic_iter((X_INIT, 0, b), 9).1, cordic_iter((X_INIT, 0, b), 9).2, cordic_iter((X_INIT, 0, b), 10).0, cordic_iter((X_INIT, 0, b), 10).1, cordic_iter((X_INIT, 0, b), 10).2, cordic_iter((X_INIT, 0, b), 11).0, cordic_iter((X_INIT, 0, b), 11).1, cordic_iter((X_INIT, 0, b), 11).2, cordic_iter((X_INIT, 0, b), 12).0, cordic_iter((X_INIT, 0, b), 12).1, cordic_iter((X_INIT, 0, b), 12).2, cordic_iter((X_INIT, 0, b), 13).0, cordic_iter((X_INIT, 0, b), 13).1, cordic_iter((X_INIT, 0, b), 13).2, cordic_iter((X_INIT, 0, b), 14).0, cordic_iter((X_INIT, 0, b), 14).1, cordic_iter((X_INIT, 0, b), 14).2, cordic_iter((X_INIT, 0, b), 15).0, cordic_iter((X_INIT, 0, b), 15).1, cordic_iter((X_INIT, 0, b), 15).2);
    } else if a < 12288 {
        lemma_rise_5(cordic_iter((X_INIT, 0, a), 0).0, cordic_iter((X_INIT, 0, a), 0).1, cordic_iter((X_INIT, 0, a), 0).2, cordic_iter((X_INIT, 0, a), 1).0, cordic_iter((X_INIT, 0, a), 1).1, cordic_iter((X_INIT, 0, a), 1).2, cordic_iter((X_INIT, 0, a), 2).0, cordic_iter((X_INIT, 0, a), 2).1, cordic_iter((X_INIT, 0, a), 2).2, cordic_iter((X_INIT, 0, a), 3).0, cordic_iter((X_INIT, 0, a), 3).1, cordic_iter((X_INIT, 0, a), 3).2, cordic_iter((X_INIT, 0, a), 4).0, cordic_iter((X_INIT, 0, a), 4).1, cordic_iter((X_INIT, 0, a), 4).2, cordic_iter((X_INIT, 0, a), 5).0, cordic_iter((X_INIT, 0, a), 5).1, cordic_iter((X_INIT, 0, a), 5).2, cordic_iter((X_INIT, 0, a), 6).0, cordic_iter((X_INIT, 0, a), 6).1, cordic_iter((X_INIT, 0, a), 6).2, cordic_iter((X_INIT, 0, a), 7).0, cordic_iter((X_INIT, 0, a), 7).1, cordic_iter((X_INIT, 0, a), 7).2, cordic_iter((X_INIT, 0, a), 8).0, cordic_iter((X_INIT, 0, a), 8).1, cordic_iter((X_INIT, 0, a), 8).2, cordic_iter((X_INIT, 0, a), 9).0, cordic_iter((X_INIT, 0, a), 9).1, cordic_iter((X_INIT, 0, a), 9).2, cordic_iter((X_INIT, 0, a), 10).0, cordic_iter((X_INIT, 0, a), 10).1, cordic_iter((X_INIT, 0, a), 10).2, cordic_iter((X_INIT, 0, a), 11).0, cordic_iter((X_INIT, 0, a), 11).1, cordic_iter((X_INIT, 0, a), 11).2, cordic_iter((X_INIT, 0, a), 12).0, cordic_iter((X_INIT, 0, a), 12).1, cordic_iter((X_INIT, 0, a), 12).2, cordic_iter((X_INIT, 0, a), 13).0, cordic_iter((X_INIT, 0, a), 13).1, cordic_iter((X_INIT, 0, a), 13).2, cordic_iter((X_INIT, 0, a), 14).0, cordic_iter((X_INIT, 0, a), 14).1, cordic_iter((X_INIT, 0, a), 14).2, cordic_iter((X_INIT, 0, a), 15).0, cordic_iter((X_INIT, 0, a), 15).1, cordic_iter((X_INIT, 0, a), 15).2, cordic_iter((X_INIT, 0, b), 0).0, cordic_iter((X_INIT, 0, b), 0).1, cordic_iter((X_INIT, 0, b), 0).2, cordic_iter((X_INIT, 0, b), 1).0, cordic_iter((X_INIT, 0, b), 1).1, cordic_iter((X_INIT, 0, b), 1).2, cordic_iter((X_INIT, 0, b), 2).0, cordic_iter((X_INIT, 0, b), 2).1, cordic_iter((X_INIT, 0, b), 2).2, cordic_iter((X_INIT, 0, b), 3).0, cordic_iter((X_INIT, 0, b), 3).1, cordic_iter((X_INIT, 0, b), 3).2, cordic_iter((X_INIT, 0, b), 4).0, cordic_iter((X_INIT, 0, b), 4).1, cordic_iter((X_INIT, 0, b), 4).2, cordic_iter((X_INIT, 0, b), 5).0, cordic_iter((X_INIT, 0, b), 5).1, cordic_iter((X_INIT, 0, b), 5).2, cordic_iter((X_INIT, 0, b), 6).0, cordic_iter((X_INIT, 0, b), 6).1, cordic_iter((X_INIT, 0, b), 6).2, cordic_iter((X_INIT, 0, b), 7).0, cordic_iter((X_INIT, 0, b), 7).1, cordic_iter((X_INIT, 0, b), 7).2, cordic_iter((X_INIT, 0, b), 8).0, cordic_iter((X_INIT, 0, b), 8).1, cordic_iter((X_INIT, 0, b), 8).2, cordic_iter((X_INIT, 0, b), 9).0, cordic_iter((X_INIT, 0, b), 9).1, cordic_iter((X_INIT, 0, b), 9).2, cordic_iter((X_INIT, 0, b), 10).0, cordic_iter((X_INIT, 0, b), 10).1, cordic_iter((X_INIT, 0, b), 10).2, cordic_iter((X_INIT, 0, b), 11).0, cordic_iter((X_INIT, 0, b), 11).1, cordic_iter((X_INIT, 0, b), 11).2, cordic_iter((X_INIT, 0, b), 12).0, cordic_iter((X_INIT, 0, b), 12).1, cordic_iter((X_INIT, 0, b), 12).2, cordic_iter((X_INIT, 0, b), 13).0, cordic_iter((X_INIT, 0, b), 13).1, cordic_iter((X_INIT, 0, b), 13).2, cordic_iter((X_INIT, 0, b), 14).0, cordic_iter((X_INIT, 0, b), 14).1, cordic_iter((X_INIT, 0, b), 14).2, cordic_iter((X_INIT, 0, b), 15).0, cordic_iter((X_INIT, 0, b), 15).1, cordic_iter((X_INIT, 0, b), 15).2);
    } else if a < 14336 {
        lemma_rise_6(cordic_iter((X_INIT, 0, a), 0).0, cordic_iter((X_INIT, 0, a), 0).1, cordic_iter((X_INIT, 0, a), 0).2, cordic_iter((X_INIT, 0, a), 1).0, cordic_iter((X_INIT, 0, a), 1).1, cordic_iter((X_INIT, 0, a), 1).2, cordic_iter((X_INIT, 0, a), 2).0, cordic_iter((X_INIT, 0, a), 2).1, cordic_iter((X_INIT, 0, a), 2).2, cordic_iter((X_INIT, 0, a), 3).0, cordic_iter((X_INIT, 0, a), 3).1, cordic_iter((X_INIT, 0, a), 3).2, cordic_iter((X_INIT, 0, a), 4).0, cordic_iter((X_INIT, 0, a), 4).1, cordic_iter((X_INIT, 0, a), 4).2, cordic_iter((X_INIT, 0, a), 5).0, cordic_iter((X_INIT, 0, a), 5).1, cordic_iter((X_INIT, 0, a), 5).2, cordic_iter((X_INIT, 0, a), 6).0, cordic_iter((X_INIT, 0, a), 6).1, cordic_iter((X_INIT, 0, a), 6).2, cordic_iter((X_INIT, 0, a), 7).0, cordic_iter((X_INIT, 0, a), 7).1, cordic_iter((X_INIT, 0, a), 7).2, cordic_iter((X_INIT, 0, a), 8).0, cordic_iter((X_INIT, 0, a), 8).1, cordic_iter((X_INIT, 0, a), 8).2, cordic_iter((X_INIT, 0, a), 9).0, cordic_iter((X_INIT, 0, a), 9).1, cordic_iter((X_INIT, 0, a), 9).2, cordic_iter((X_INIT, 0, a), 10).0, cordic_iter((X_INIT, 0, a), 10).1, cordic_iter((X_INIT, 0, a), 10).2, cordic_iter((X_INIT, 0, a), 11).0, cordic_iter((X_INIT, 0, a), 11).1, cordic_iter((X_INIT, 0, a), 11).2, cordic_iter((X_INIT, 0, a), 12).0, cordic_iter((X_INIT, 0, a), 12).1, cordic_iter((X_INIT, 0, a), 12).2, cordic_iter((X_INIT, 0, a), 13).0, cordic_iter((X_INIT, 0, a), 13).1, cordic_iter((X_INIT, 0, a), 13).2, cordic_iter((X_INIT, 0, a), 14).0, cordic_iter((X_INIT, 0, a), 14).1, cordic_iter((X_INIT, 0, a), 14).2, cordic_iter((X_INIT, 0, a), 15).0, cordic_iter((X_INIT, 0, a), 15).1, cordic_iter((X_INIT, 0, a), 15).2, cordic_iter((X_INIT, 0, b), 0).0, cordic_iter((X_INIT, 0, b), 0).1, cordic_iter((X_INIT, 0, b), 0).2, cordic_iter((X_INIT, 0, b), 1).0, cordic_iter((X_INIT, 0, b), 1).1, cordic_iter((X_INIT, 0, b), 1).2, cordic_iter((X_INIT, 0, b), 2).0, cordic_iter((X_INIT, 0, b), 2).1, cordic_iter((X_INIT, 0, b), 2).2, cordic_iter((X_INIT, 0, b), 3).0, cordic_iter((X_INIT, 0, b), 3).1, cordic_iter((X_INIT, 0, b), 3).2, cordic_iter((X_INIT, 0, b), 4).0, cordic_iter((X_INIT, 0, b), 4).1, cordic_iter((X_INIT, 0, b), 4).2, cordic_iter((X_INIT, 0, b), 5).0, cordic_iter((X_INIT, 0, b), 5).1, cordic_iter((X_INIT, 0, b), 5).2, cordic_iter((X_INIT, 0, b), 6).0, cordic_iter((X_INIT, 0, b), 6).1, cordic_iter((X_INIT, 0, b), 6).2, cordic_iter((X_INIT, 0, b), 7).0, cordic_iter((X_INIT, 0, b), 7).1, cordic_iter((X_INIT, 0, b), 7).2, cordic_iter((X_INIT, 0, b), 8).0, cordic_iter((X_INIT, 0, b), 8).1, cordic_iter((X_INIT, 0, b), 8).2, cordic_iter((X_INIT, 0, b), 9).0, cordic_iter((X_INIT, 0, b), 9).1, cordic_iter((X_INIT, 0, b), 9).2, cordic_iter((X_INIT, 0, b), 10).0, cordic_iter((X_INIT, 0, b), 10).1, cordic_iter((X_INIT, 0, b), 10).2, cordic_iter((X_INIT, 0, b), 11).0, cordic_iter((X_INIT, 0, b), 11).1, cordic_iter((X_INIT, 0, b), 11).2, cordic_iter((X_INIT, 0, b), 12).0, cordic_iter((X_INIT, 0, b), 12).1, cordic_iter((X_INIT, 0, b), 12).2, cordic_iter((X_INIT, 0, b), 13).0, cordic_iter((X_INIT, 0, b), 13).1, cordic_iter((X_INIT, 0, b), 13).2, cordic_iter((X_INIT, 0, b), 14).0, cordic_iter((X_INIT, 0, b), 14).1, cordic_iter((X_INIT, 0, b), 14).2, cordic_iter((X_INIT, 0, b), 15).0, cordic_iter((X_INIT, 0, b), 15).1, cordic_iter((X_INIT, 0, b), 15).2);
    } else {
        lemma_rise_7(cordic_iter((X_INIT, 0, a), 0).0, cordic_iter((X_INIT, 0, a), 0).1, cordic_iter((X_INIT, 0, a), 0).2, cordic_iter((X_INIT, 0, a), 1).0, cordic_iter((X_INIT, 0, a), 1).1, cordic_iter((X_INIT, 0, a), 1).2, cordic_iter((X_INIT, 0, a), 2).0, cordic_iter((X_INIT, 0, a), 2).1, cordic_iter((X_INIT, 0, a), 2).2, cordic_iter((X_INIT, 0, a), 3).0, cordic_iter((X_INIT, 0, a), 3).1, cordic_iter((X_INIT, 0, a), 3).2, cordic_iter((X_INIT, 0, a), 4).0, cordic_iter((X_INIT, 0, a), 4).1, cordic_iter((X_INIT, 0, a), 4).2, cordic_iter((X_INIT, 0, a), 5).0, cordic_iter((X_INIT, 0, a), 5).1, cordic_iter((X_INIT, 0, a), 5).2, cordic_iter((X_INIT, 0, a), 6).0, cordic_iter((X_INIT, 0, a), 6).1, cordic_iter((X_INIT, 0, a), 6).2, cordic_iter((X_INIT, 0, a), 7).0, cordic_iter((X_INIT, 0, a), 7).1, cordic_iter((X_INIT, 0, a), 7).2, cordic_iter((X_INIT, 0, a), 8).0, cordic_iter((X_INIT, 0, a), 8).1, cordic_iter((X_INIT, 0, a), 8).2, cordic_iter((X_INIT, 0, a), 9).0, cordic_iter((X_INIT, 0, a), 9).1, cordic_iter((X_INIT, 0, a), 9).2, cordic_iter((X_INIT, 0, a), 10).0, cordic_iter((X_INIT, 0, a), 10).1, cordic_iter((X_INIT, 0, a), 10).2, cordic_iter((X_INIT, 0, a), 11).0, cordic_iter((X_INIT, 0, a), 11).1, cordic_iter((X_INIT, 0, a), 11).2, cordic_iter((X_INIT, 0, a), 12).0, cordic_iter((X_INIT, 0, a), 12).1, cordic_iter((X_INIT, 0, a), 12).2, cordic_iter((X_INIT, 0, a), 13).0, cordic_iter((X_INIT, 0, a), 13).1, cordic_iter((X_INIT, 0, a), 13).2, cordic_iter((X_INIT, 0, a), 14).0, cordic_iter((X_INIT, 0, a), 14).1, cordic_iter((X_INIT, 0, a), 14).2, cordic_iter((X_INIT, 0, a), 15).0, cordic_iter((X_INIT, 0, a), 15).1, cordic_iter((X_INIT, 0, a), 15).2, cordic_iter((X_INIT, 0, b), 0).0, cordic_iter((X_INIT, 0, b), 0).1, cordic_iter((X_INIT, 0, b), 0).2, cordic_iter((X_INIT, 0, b), 1).0, cordic_iter((X_INIT, 0, b), 1).1, cordic_iter((X_INIT, 0, b), 1).2, cordic_iter((X_INIT, 0, b), 2).0, cordic_iter((X_INIT, 0, b), 2).1, cordic_iter((X_INIT, 0, b), 2).2, cordic_iter((X_INIT, 0, b), 3).0, cordic_iter((X_INIT, 0, b), 3).1, cordic_iter((X_INIT, 0, b), 3).2, cordic_iter((X_INIT, 0, b), 4).0, cordic_iter((X_INIT, 0, b), 4).1, cordic_iter((X_INIT, 0, b), 4).2, cordic_iter((X_INIT, 0, b), 5).0, cordic_iter((X_INIT, 0, b), 5).1, cordic_iter((X_INIT, 0, b), 5).2, cordic_iter((X_INIT, 0, b), 6).0, cordic_iter((X_INIT, 0, b), 6).1, cordic_iter((X_INIT, 0, b), 6).2, cordic_iter((X_INIT, 0, b), 7).0, cordic_iter((X_INIT, 0, b), 7).1, cordic_iter((X_INIT, 0, b), 7).2, cordic_iter((X_INIT, 0, b), 8).0, cordic_iter((X_INIT, 0, b), 8).1, cordic_iter((X_INIT, 0, b), 8).2, cordic_iter((X_INIT, 0, b), 9).0, cordic_iter((X_INIT, 0, b), 9).1, cordic_iter((X_INIT, 0, b), 9).2, cordic_iter((X_INIT, 0, b), 10).0, cordic_iter((X_INIT, 0, b), 10).1, cordic_iter((X_INIT, 0, b), 10).2, cordic_iter((X_INIT, 0, b), 11).0, cordic_iter((X_INIT, 0, b), 11).1, cordic_iter((X_INIT, 0, b), 11).2, cordic_iter((X_INIT, 0, b), 12).0, cordic_iter((X_INIT, 0, b), 12).1, cordic_iter((X_INIT, 0, b), 12).2, cordic_iter((X_INIT, 0, b), 13).0, cordic_iter((X_INIT, 0, b), 13).1, cordic_iter((X_INIT, 0, b), 13).2, cordic_iter((X_INIT, 0, b), 14).0, cordic_iter((X_INIT, 0, b), 14).1, cordic_iter((X_INIT, 0, b), 14).2, cordic_iter((X_INIT, 0, b), 15).0, cordic_iter((X_INIT, 0, b), 15).1, cordic_iter((X_INIT, 0, b), 15).2);
    }
}

/// The sine rises steadily on the first quarter circle: for phases
/// 0 ≤ p ≤ q ≤ 16384 (0 to π/2), `cordic_sin(p) ≤ cordic_sin(q)`.
pub proof fn lemma_sine_rises(p: u16, q: u16)
    requires
        p <= q <= 16384,
    ensures
        cordic_sine(p) <= cordic_sine(q),
    decreases q - p,
{
    if p < q {
        let m = (q - 1) as u16;
        lemma_sine_rises(p, m);
        assert(quadrant_angle(m) == m as i32 && quadrant_angle(q) == q as i32);
        lemma_y_rises(m as i32, q as i32);
    }
}

/// The breathing LED's stream from the cycle start: if the generator is `k`
/// calls past a start at phase 0 (a new `BreathLed`, or one just
/// `reset_breath`), one `breathe_step` shows the sine at phase `k × step` (the
/// channel gets that brightness's duty, tracked on success) and leaves the
/// generator `k + 1` calls past the start.  The requirements on `after` are
/// what `breathe_step` ensures.
pub proof fn lemma_breath_led_stream<P, G: GammaMap>(
    start: Breath,
    k: nat,
    before: BreathLed<P, G>,
    after: BreathLed<P, G>,
    answer: Result<(), ErrorKind>,
)
    requires
        start.phase_spec() == 0,
        before.breath_spec() == start.after_calls(k),
        after.led_spec().showed_raw(
            &before.led_spec(),
            cordic_sine(before.breath_spec().phase_spec()),
            answer,
        ),
        after.breath_spec() == before.breath_spec().after_calls(1),
    ensures
        after.led_spec().showed_raw(
            &before.led_spec(),
            cordic_sine(((k * start.step_spec()) % 65536) as u16),
            answer,
        ),
        after.breath_spec() == start.after_calls(k + 1),
{
    lemma_stream_from_start(start, k);
}

} // verus!
