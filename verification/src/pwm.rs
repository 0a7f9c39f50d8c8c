use crate::brightness::{from_percent, percent_brightness, DUTY_SCALE_NUM};
use crate::led::PolarityMode;
use embedded_hal::pwm::{ErrorKind, SetDutyCycle};
use vstd::prelude::*;

mod channel;

use channel::{write_duty, Channel};

verus! {

/// Map a logical brightness value (0–255) to a gamma-corrected output
/// (also 0–255) before polarity inversion and duty-cycle scaling.
///
/// Users can implement `GammaMap` on their own types for other transfer
/// functions; the trait is statically dispatched.
pub trait GammaMap {
    fn map(&self, raw: u8) -> u8;
}

/// Gamma correction mode.
///
/// `CieLStar` uses a 16-byte prefix table (raw 0–15, exact) plus 16-knot
/// equidistant interpolation (raw ≥ 16, rounded to nearest).
#[derive(Clone, Copy, Debug, PartialEq, Eq, Structural)]
pub enum GammaCorrection {
    /// No correction: duty = input linearly.
    Linear,
    /// CIE 1976 L* perceptual lightness.
    CieLStar,
}

/// CIE L* values for raw inputs 0–15.
pub const CIE_PREFIX: [u8; 16] = [0, 9, 18, 26, 33, 39, 44, 48, 52, 56, 60, 63, 66, 69, 72, 74];

/// CIE L* values at the knots raw = 16, 32, …, 240, and 255.
pub const CIE_KNOTS: [u8; 16] = [
    77, 107, 129, 146, 160, 173, 184, 194, 204, 212, 221, 228, 236, 242, 249, 255,
];

/// The prefix table as a sequence.
pub open spec fn cie_prefix() -> Seq<u8> {
    seq![0u8, 9, 18, 26, 33, 39, 44, 48, 52, 56, 60, 63, 66, 69, 72, 74]
}

/// The knot table as a sequence.
pub open spec fn cie_knots() -> Seq<u8> {
    seq![77u8, 107, 129, 146, 160, 173, 184, 194, 204, 212, 221, 228, 236, 242, 249, 255]
}

/// Linear interpolation between knot `k` and knot `k + 1` at position
/// `frac / 16`, rounded to the nearest integer (halves round up).
pub open spec fn cie_interp(k: int, frac: int) -> int {
    let lo = cie_knots()[k] as int;
    let hi = cie_knots()[k + 1] as int;
    lo + ((hi - lo) * frac + 8) / 16
}

/// The compact CIE L* curve: exact prefix for raw < 16, the endpoint at 255,
/// and interpolation between equidistant knots in between.
pub open spec fn cie_lstar(raw: u8) -> u8 {
    if raw < 16 {
        cie_prefix()[raw as int]
    } else if raw == 255 {
        255
    } else {
        cie_interp((raw as int - 16) / 16, raw as int % 16) as u8
    }
}

/// The mapping a `GammaCorrection` mode performs.
pub open spec fn gamma_spec(mode: GammaCorrection, raw: u8) -> u8 {
    match mode {
        GammaCorrection::Linear => raw,
        GammaCorrection::CieLStar => cie_lstar(raw),
    }
}

/// `diff * frac` by shift-add, for a four-bit `frac`.
proof fn lemma_shift_add_product(diff: u16, frac: u8)
    requires
        diff < 256,
        frac < 16,
    ensures
        (if frac & 8 != 0 { diff << 3 } else { 0 }) + (if frac & 4 != 0 { diff << 2 } else { 0 })
            + (if frac & 2 != 0 { diff << 1 } else { 0 }) + (if frac & 1 != 0 { diff } else { 0 })
            == diff * frac,
{
    assert((if frac & 8 != 0 { diff << 3 } else { 0u16 }) + (if frac & 4 != 0 { diff << 2 } else { 0u16 })
        + (if frac & 2 != 0 { diff << 1 } else { 0u16 }) + (if frac & 1 != 0 { diff } else { 0u16 })
        == diff * frac) by (bit_vector)
        requires
            diff < 256,
            frac < 16,
    ;
}

impl GammaCorrection {
    /// Interpolated CIE L* value for 16 ≤ raw < 255, with no multiplication:
    /// `diff × frac / 16` by shift-add, rounded to nearest.
    fn cie_interpolate(raw: u8) -> (r: u8)
        requires
            16 <= raw < 255,
        ensures
            r == cie_interp((raw as int - 16) / 16, raw as int % 16),
    {
        let idx = ((raw - 16) >> 4) as usize;
        assert(idx == (raw - 16) / 16) by (bit_vector)
            requires
                idx == ((raw - 16) as u8 >> 4) as usize,
                16 <= raw,
        ;
        assert(idx < 15);
        let lo = CIE_KNOTS[idx];
        let hi = CIE_KNOTS[idx + 1];
        assert(CIE_KNOTS@ == cie_knots());
        assert(lo <= hi);
        let diff = (hi - lo) as u16;
        let frac = raw & 0x0F;
        assert(frac == raw % 16) by (bit_vector)
            requires
                frac == raw & 0x0F,
        ;
        let t8: u16 = if frac & 8 != 0 { diff << 3 } else { 0 };
        let t4: u16 = if frac & 4 != 0 { diff << 2 } else { 0 };
        let t2: u16 = if frac & 2 != 0 { diff << 1 } else { 0 };
        let t1: u16 = if frac & 1 != 0 { diff } else { 0 };
        proof {
            lemma_shift_add_product(diff, frac);
            assert(diff * frac <= 255 * 15) by (nonlinear_arith)
                requires
                    diff < 256,
                    frac < 16,
            ;
            assert((diff * frac + 8) / 16 <= diff) by (nonlinear_arith)
                requires
                    frac < 16,
            ;
        }
        let acc: u16 = t8 + t4 + t2 + t1 + 8;
        let offset = acc >> 4;
        assert(offset == acc / 16) by (bit_vector)
            requires
                offset == acc >> 4,
        ;
        lo + offset as u8
    }
}

impl GammaMap for GammaCorrection {
    /// `Linear` is the identity; `CieLStar` follows [`cie_lstar`].
    fn map(&self, raw: u8) -> (r: u8)
        ensures
            r == gamma_spec(*self, raw),
    {
        match self {
            GammaCorrection::Linear => raw,
            GammaCorrection::CieLStar => {
                if raw < 16 {
                    assert(CIE_PREFIX@ == cie_prefix());
                    CIE_PREFIX[raw as usize]
                } else if raw == 255 {
                    255
                } else {
                    GammaCorrection::cie_interpolate(raw)
                }
            },
        }
    }
}

/// Linear correction is the identity on every input.
pub proof fn lemma_linear_is_identity(raw: u8)
    ensures
        gamma_spec(GammaCorrection::Linear, raw) == raw,
{
}

/// The CIE L* curve is exact on the prefix (raw 0–15) and at every knot
/// (raw = 16, 32, …, 240, and 255), and maps 0 to 0 and 255 to 255.
pub proof fn lemma_cie_exact_points(raw: u8)
    ensures
        raw < 16 ==> cie_lstar(raw) == cie_prefix()[raw as int],
        16 <= raw && raw % 16 == 0 ==> cie_lstar(raw) == cie_knots()[(raw - 16) / 16],
        raw == 255 ==> cie_lstar(raw) == cie_knots()[15],
        cie_lstar(0) == 0,
        cie_lstar(255) == 255,
{
}

/// Both tables increase strictly from entry to entry, and the prefix ends
/// below the first knot.
proof fn lemma_tables_increasing(i: int)
    requires
        0 <= i < 15,
    ensures
        cie_prefix()[i] < cie_prefix()[i + 1],
        cie_knots()[i] < cie_knots()[i + 1],
        cie_prefix()[15] < cie_knots()[0],
{
}

/// Interpolation inside one knot interval stays between the two knots,
/// starts at the lower knot, and never decreases as `frac` grows.
proof fn lemma_interp_bounds(k: int, frac: int)
    requires
        0 <= k < 15,
        0 <= frac < 16,
    ensures
        cie_knots()[k] <= cie_interp(k, frac) <= cie_knots()[k + 1],
        cie_interp(k, 0) == cie_knots()[k],
        frac < 15 ==> cie_interp(k, frac) <= cie_interp(k, frac + 1),
{
    lemma_tables_increasing(k);
    let d = cie_knots()[k + 1] - cie_knots()[k];
    assert(0 <= (d * frac + 8) / 16 <= d) by (nonlinear_arith)
        requires
            0 < d,
            0 <= frac < 16,
    ;
    assert(frac < 15 ==> (d * frac + 8) / 16 <= (d * (frac + 1) + 8) / 16) by (nonlinear_arith)
        requires
            0 < d,
            0 <= frac,
    ;
}

/// Adjacent inputs never decrease the CIE L* output.
proof fn lemma_cie_step_monotonic(raw: u8)
    requires
        raw < 255,
    ensures
        cie_lstar(raw) <= cie_lstar((raw + 1) as u8),
{
    let next = (raw + 1) as u8;
    if raw < 15 {
        lemma_tables_increasing(raw as int);
    } else if raw == 15 {
        lemma_tables_increasing(0);
        lemma_interp_bounds(0, 0);
    } else if raw == 254 {
        lemma_interp_bounds(14, 14);
    } else {
        let k = (raw as int - 16) / 16;
        let f = raw as int % 16;
        lemma_interp_bounds(k, f);
        if f < 15 {
            assert((next as int - 16) / 16 == k && next as int % 16 == f + 1);
            lemma_interp_bounds(k, f + 1);
        } else {
            assert((next as int - 16) / 16 == k + 1 && next as int % 16 == 0);
            lemma_interp_bounds(k + 1, 0);
        }
    }
}

/// The CIE L* curve is monotonically non-decreasing.
pub proof fn lemma_cie_monotonic(a: u8, b: u8)
    requires
        a <= b,
    ensures
        cie_lstar(a) <= cie_lstar(b),
    decreases b - a,
{
    if a < b {
        lemma_cie_monotonic(a, (b - 1) as u8);
        lemma_cie_step_monotonic((b - 1) as u8);
    }
}

/// Both corrections are monotonically non-decreasing and fix 0 and 255.
pub proof fn lemma_gamma_monotonic(mode: GammaCorrection, a: u8, b: u8)
    requires
        a <= b,
    ensures
        gamma_spec(mode, a) <= gamma_spec(mode, b),
        gamma_spec(mode, 0) == 0,
        gamma_spec(mode, 255) == 255,
{
    lemma_cie_monotonic(a, b);
    lemma_cie_exact_points(0);
}

/// Hardware duty produced for a polarity-mapped duty fraction `duty_raw`
/// (0–255) on a channel whose full duty is `max_duty`: the full duty for a
/// full fraction, otherwise `duty_raw × max_duty × 257 / 65536` rounded to
/// nearest (257 / 65536 ≈ 1 / 255, so no division by 255 is needed).
pub open spec fn duty_value(duty_raw: u8, max_duty: u16) -> int {
    if duty_raw == 255 {
        max_duty as int
    } else {
        (duty_raw as int * (max_duty as int * DUTY_SCALE_NUM as int) + 32768) / 65536
    }
}

/// `duty_raw × max_duty / 255`, rounded to nearest (halves up).
pub open spec fn duty_exact(duty_raw: u8, max_duty: u16) -> int {
    (2 * duty_raw as int * max_duty as int + 255) / 510
}

/// The shift-scaled quotient `(257 t + 32768) / 65536` is `t / 255` rounded
/// to nearest, or one less.
///
/// With `t = 255q + r`, `257 t + 32768 = 65536 q + (257 r − q + 32768)`, and
/// the bracket lies in [0, 65536) or [−65536, 0) when `r < 128`, and in
/// [0, 131072) when `r ≥ 128`.
proof fn lemma_scaled_approx(t: int)
    requires
        0 <= t <= 255 * 65535,
    ensures
        (2 * t + 255) / 510 - 1 <= (t * 257 + 32768) / 65536 <= (2 * t + 255) / 510,
{
    let q = t / 255;
    let r = t % 255;
    assert(t == 255 * q + r && 0 <= r < 255 && 0 <= q <= 65535);
    assert(t * 257 + 32768 == 65536 * q + (257 * r - q + 32768));
    assert((2 * t + 255) / 510 == q + (if r >= 128 { 1int } else { 0 }));
}

/// The hardware duty stays within one step below exact rounding of
/// `duty_raw × max_duty / 255`, and is exact for a full fraction.
pub proof fn lemma_duty_value_close(duty_raw: u8, max_duty: u16)
    ensures
        duty_exact(duty_raw, max_duty) - 1 <= duty_value(duty_raw, max_duty) <= duty_exact(
            duty_raw,
            max_duty,
        ),
        duty_raw == 255 ==> duty_value(duty_raw, max_duty) == duty_exact(duty_raw, max_duty),
{
    let t = duty_raw as int * max_duty as int;
    assert(0 <= t <= 255 * 65535) by (nonlinear_arith)
        requires
            t == duty_raw as int * max_duty as int,
            duty_raw <= 255,
            max_duty <= 65535,
    ;
    assert(duty_raw as int * (max_duty as int * 257) == t * 257 && 2 * duty_raw as int
        * max_duty as int == 2 * t) by (nonlinear_arith)
        requires
            t == duty_raw as int * max_duty as int,
    ;
    lemma_scaled_approx(t);
    let m = max_duty as int;
    assert((2 * 255 * m + 255) / 510 == m) by (nonlinear_arith)
        requires
            0 <= m,
    ;
}

/// The hardware duty never exceeds the channel's full duty, a zero fraction
/// gives zero duty, and a larger fraction never gives a smaller duty.
pub proof fn lemma_duty_value_bounds(a: u8, b: u8, max_duty: u16)
    requires
        a <= b,
    ensures
        0 <= duty_value(a, max_duty) <= max_duty,
        duty_value(0, max_duty) == 0,
        duty_value(a, max_duty) <= duty_value(b, max_duty),
{
    let m = max_duty as int;
    lemma_duty_value_close(a, max_duty);
    lemma_duty_value_close(b, max_duty);
    assert(0 <= (2 * a as int * m + 255) / 510 <= m) by (nonlinear_arith)
        requires
            0 <= a <= 255,
            0 <= m,
    ;
    assert(0 <= (a as int * (m * 257) + 32768) / 65536) by (nonlinear_arith)
        requires
            0 <= a,
            0 <= m,
    ;
    assert((a as int * (m * 257) + 32768) / 65536 <= (b as int * (m * 257) + 32768) / 65536)
        by (nonlinear_arith)
        requires
            0 <= a <= b,
            0 <= m,
    ;
}

/// A full fraction drives exactly the channel's full duty.
pub proof fn lemma_duty_value_full(max_duty: u16)
    ensures
        duty_value(255, max_duty) == max_duty,
{
}

/// With a built-in gamma, OFF (brightness 0) drives no light at all and ON
/// (brightness 255) drives full light: zero duty and full duty respectively
/// when active-high, the reverse when active-low.
pub proof fn lemma_off_and_on_duty(mode: GammaCorrection, polarity: PolarityMode, max_duty: u16)
    ensures
        duty_value(polarity.duty(gamma_spec(mode, 0)), max_duty) == (match polarity {
            PolarityMode::ActiveHigh => 0int,
            PolarityMode::ActiveLow => max_duty as int,
        }),
        duty_value(polarity.duty(gamma_spec(mode, 255)), max_duty) == (match polarity {
            PolarityMode::ActiveHigh => max_duty as int,
            PolarityMode::ActiveLow => 0int,
        }),
{
    lemma_gamma_monotonic(mode, 0, 255);
    lemma_duty_value_bounds(0, 255, max_duty);
    lemma_duty_value_full(max_duty);
}

#[verifier::external_type_specification]
#[verifier::external_body]
pub struct ExPwmErrorKind(ErrorKind);

/// PWM-driven monochrome LED with gamma correction and polarity control.
///
/// Caches `max_duty_cycle()` at construction time and tracks the last-set
/// logical brightness.
pub struct PwmLed<P, G = GammaCorrection> {
    channel: Channel<P>,
    gamma: G,
    polarity: PolarityMode,
    /// Last logical brightness passed to `set_brightness`.
    brightness: u8,
}

impl<P, G> PwmLed<P, G> {
    /// The PWM channel.
    pub closed spec fn pin_spec(&self) -> P {
        self.channel.pin_spec()
    }

    /// The gamma mapper.
    pub closed spec fn gamma_spec(&self) -> G {
        self.gamma
    }

    /// The polarity chosen at construction.
    pub closed spec fn polarity_spec(&self) -> PolarityMode {
        self.polarity
    }

    /// The cached full duty of the channel.
    pub closed spec fn max_duty_spec(&self) -> u16 {
        self.channel.max_duty_spec()
    }

    /// Every answer the channel gave to `max_duty_cycle`, oldest first.
    pub closed spec fn reported(&self) -> Seq<u16> {
        self.channel.reported()
    }

    /// The tracked logical brightness.
    pub closed spec fn brightness_spec(&self) -> u8 {
        self.brightness
    }

    /// Every duty handed to the channel since construction, oldest first,
    /// each with the channel's answer.
    pub closed spec fn writes(&self) -> Seq<(u16, Result<(), ErrorKind>)> {
        self.channel.writes()
    }

    /// The hardware duty for a gamma output `corrected` on this LED.
    pub open spec fn duty_of(&self, corrected: u8) -> u16 {
        duty_value(self.polarity_spec().duty(corrected), self.max_duty_spec()) as u16
    }

    /// `self` is `before` after handing the channel the duty for the gamma
    /// output `corrected` of brightness `raw` and receiving `answer`, with the
    /// brightness tracked on success only.
    pub open spec fn showed(
        &self,
        before: &Self,
        raw: u8,
        corrected: u8,
        answer: Result<(), ErrorKind>,
    ) -> bool {
        &&& self.same_setup(before)
        &&& self.writes() == before.writes().push((before.duty_of(corrected), answer))
        &&& self.brightness_spec() == (if answer is Ok {
            raw
        } else {
            before.brightness_spec()
        })
    }

    /// Everything but the tracked brightness and the channel itself.
    pub open spec fn same_setup(&self, other: &Self) -> bool {
        &&& self.gamma_spec() == other.gamma_spec()
        &&& self.polarity_spec() == other.polarity_spec()
        &&& self.max_duty_spec() == other.max_duty_spec()
        &&& self.reported() == other.reported()
    }
}

impl<P, G> PwmLed<P, G> {
    /// The duty written for a gamma output `corrected`: the scaled fraction
    /// itself when active-high, the scaled complement `255 − corrected` when
    /// active-low (so an active-low LED at brightness `b` is lit for the
    /// fraction `b`, not `255 − b`, of the time).
    pub proof fn lemma_duty_of(&self, corrected: u8)
        ensures
            self.polarity_spec() == PolarityMode::ActiveHigh ==> self.duty_of(corrected)
                == duty_value(corrected, self.max_duty_spec()),
            self.polarity_spec() == PolarityMode::ActiveLow ==> self.duty_of(corrected)
                == duty_value((255 - corrected) as u8, self.max_duty_spec()),
    {
        lemma_duty_value_bounds(self.polarity_spec().duty(corrected), 255, self.max_duty_spec());
    }
}

impl<P, G: GammaMap> PwmLed<P, G> {
    /// `self` is `before` after showing brightness `raw`: the channel was
    /// handed the duty for what the gamma mapper returned for `raw`, answered
    /// `answer`, and the brightness is tracked on success only.
    pub open spec fn showed_raw(&self, before: &Self, raw: u8, answer: Result<(), ErrorKind>) -> bool {
        exists|c: u8|
            call_ensures(G::map, (&before.gamma_spec(), raw), c) && #[trigger] self.showed(
                before,
                raw,
                c,
                answer,
            )
    }
}

/// With a built-in gamma, showing brightness `raw` hands the channel exactly
/// the duty of the built-in curve's output for `raw`.
pub proof fn lemma_builtin_gamma_shows<P>(
    before: PwmLed<P, GammaCorrection>,
    after: PwmLed<P, GammaCorrection>,
    raw: u8,
    answer: Result<(), ErrorKind>,
)
    requires
        after.showed_raw(&before, raw, answer),
    ensures
        after.writes() == before.writes().push(
            (before.duty_of(gamma_spec(before.gamma_spec(), raw)), answer),
        ),
{
    let c = choose|c: u8|
        call_ensures(GammaCorrection::map, (&before.gamma_spec(), raw), c) && #[trigger] after.showed(
            &before,
            raw,
            c,
            answer,
        );
    assert(c == gamma_spec(before.gamma_spec(), raw));
}

impl<P: SetDutyCycle, G: GammaMap> PwmLed<P, G> {
    /// Assemble a LED around `pin`, reading the channel's full duty once.
    fn assemble(pin: P, gamma: G, polarity: PolarityMode) -> (r: Self)
        ensures
            r.pin_spec() == pin,
            r.gamma_spec() == gamma,
            r.polarity_spec() == polarity,
            r.brightness_spec() == 0,
            r.reported() == seq![r.max_duty_spec()],
            r.writes() == Seq::<(u16, Result<(), ErrorKind>)>::empty(),
    {
        PwmLed { channel: Channel::open(pin), gamma, polarity, brightness: 0 }
    }

    /// Create a new PWM LED and force it to the logical OFF state.
    pub fn new(pin: P, gamma: G, polarity: PolarityMode) -> (r: Result<Self, ErrorKind>)
        ensures
            r matches Ok(led) ==> {
                &&& led.gamma_spec() == gamma
                &&& led.polarity_spec() == polarity
                &&& led.brightness_spec() == 0
                &&& led.reported() == seq![led.max_duty_spec()]
                &&& exists|c: u8|
                    call_ensures(G::map, (&gamma, 0u8), c) && led.writes() == seq![
                        (led.duty_of(c), Ok::<(), ErrorKind>(())),
                    ]
            },
    {
        let mut led = Self::assemble(pin, gamma, polarity);
        let ghost before = led;
        let answer = led.off();
        match answer {
            Ok(unit) => {
                assert(unit == ());
                let ghost c = choose|c: u8|
                    call_ensures(G::map, (&before.gamma_spec(), 0u8), c) && #[trigger] led.showed(
                        &before,
                        0,
                        c,
                        answer,
                    );
                assert(led.writes() =~= seq![(led.duty_of(c), Ok::<(), ErrorKind>(()))]);
                Ok(led)
            },
            Err(e) => Err(e),
        }
    }

    /// Build from an already-configured channel without changing its duty
    /// cycle.  The tracked brightness starts at 0.
    pub fn from_pin(pin: P, gamma: G, polarity: PolarityMode) -> (r: Self)
        ensures
            r.pin_spec() == pin,
            r.gamma_spec() == gamma,
            r.polarity_spec() == polarity,
            r.brightness_spec() == 0,
            r.reported() == seq![r.max_duty_spec()],
            r.writes() == Seq::<(u16, Result<(), ErrorKind>)>::empty(),
    {
        Self::assemble(pin, gamma, polarity)
    }

    /// Hardware duty for a gamma-corrected on-time fraction `corrected`:
    /// polarity mapping, then scaling to the channel's full duty.
    pub fn duty_for(&self, corrected: u8) -> (r: u16)
        ensures
            r == duty_value(self.polarity_spec().duty(corrected), self.max_duty_spec()),
            self.polarity_spec() == PolarityMode::ActiveHigh ==> r == duty_value(
                corrected,
                self.max_duty_spec(),
            ),
            self.polarity_spec() == PolarityMode::ActiveLow ==> r == duty_value(
                (255 - corrected) as u8,
                self.max_duty_spec(),
            ),
            r <= self.max_duty_spec(),
            self.reported() == seq![self.max_duty_spec()],
    {
        self.channel.duty(self.polarity.map_duty(corrected))
    }

    /// Set brightness (0–255).  Pipeline: `raw → gamma → polarity → duty`.
    pub fn set_brightness(&mut self, raw: u8) -> (r: Result<(), ErrorKind>)
        ensures
            final(self).showed_raw(old(self), raw, r),
    {
        let ghost before = *self;
        let corrected = self.gamma.map(raw);
        let duty = self.duty_for(corrected);
        let answer = write_duty(&mut self.channel, duty);
        if answer.is_ok() {
            self.brightness = raw;
        }
        assert(self.showed(&before, raw, corrected, answer));
        answer
    }

    /// Set brightness as a percentage (0–100), rounded to the nearest 8-bit
    /// value; percentages above 100 count as 100.
    pub fn set_brightness_percent(&mut self, pct: u8) -> (r: Result<(), ErrorKind>)
        ensures
            final(self).showed_raw(old(self), percent_brightness(pct), r),
    {
        let raw = from_percent(pct);
        self.set_brightness(raw)
    }

    /// Set the raw hardware duty cycle, bypassing gamma correction, polarity
    /// mapping and brightness tracking.  As embedded-hal requires of every
    /// caller of `set_duty_cycle`, `duty` must not exceed the channel's full
    /// duty.
    pub fn set_duty_raw(&mut self, duty: u16) -> (r: Result<(), ErrorKind>)
        requires
            duty <= old(self).max_duty_spec(),
        ensures
            final(self).same_setup(old(self)),
            final(self).brightness_spec() == old(self).brightness_spec(),
            final(self).writes() == old(self).writes().push((duty, r)),
    {
        write_duty(&mut self.channel, duty)
    }

    /// Turn the LED off (brightness = 0, respects polarity).
    pub fn off(&mut self) -> (r: Result<(), ErrorKind>)
        ensures
            final(self).showed_raw(old(self), 0, r),
    {
        self.set_brightness(0)
    }

    /// Turn the LED fully on (brightness = 255, respects polarity).
    pub fn on(&mut self) -> (r: Result<(), ErrorKind>)
        ensures
            final(self).showed_raw(old(self), 255, r),
    {
        self.set_brightness(255)
    }

    /// The last logical brightness set (0–255); not a hardware read.
    pub fn brightness(&self) -> (r: u8)
        ensures
            r == self.brightness_spec(),
    {
        self.brightness
    }

    /// Whether the last-set brightness is greater than zero.
    pub fn is_on(&self) -> (r: bool)
        ensures
            r == (self.brightness_spec() > 0),
    {
        self.brightness > 0
    }

    /// Whether the last-set brightness is zero.
    pub fn is_off(&self) -> (r: bool)
        ensures
            r == (self.brightness_spec() == 0),
    {
        self.brightness == 0
    }

    /// A reference to the gamma mapper.
    pub fn gamma(&self) -> (r: &G)
        ensures
            *r == self.gamma_spec(),
    {
        &self.gamma
    }

    /// The current polarity.
    pub fn polarity(&self) -> (r: PolarityMode)
        ensures
            r == self.polarity_spec(),
    {
        self.polarity
    }

    /// The cached maximum duty cycle.
    pub fn max_duty(&self) -> (r: u16)
        ensures
            r == self.max_duty_spec(),
    {
        self.channel.max_duty()
    }

    /// Consume and return the underlying PWM channel.
    pub fn release(self) -> (r: P)
        ensures
            r == self.pin_spec(),
    {
        self.channel.release()
    }
}

impl<P: SetDutyCycle, G: GammaMap> embedded_hal::pwm::ErrorType for PwmLed<P, G> {
    type Error = ErrorKind;
}

impl<P: SetDutyCycle, G: GammaMap> SetDutyCycle for PwmLed<P, G> {
    /// The cached full duty.
    fn max_duty_cycle(&self) -> (r: u16)
        ensures
            r == self.max_duty_spec(),
    {
        self.channel.max_duty()
    }

    /// Passes `duty` straight to the channel, bypassing gamma, polarity and
    /// brightness tracking.
    fn set_duty_cycle(&mut self, duty: u16) -> (r: Result<(), ErrorKind>)
        requires
            duty <= old(self).max_duty_spec(),
        ensures
            final(self).same_setup(old(self)),
            final(self).brightness_spec() == old(self).brightness_spec(),
            final(self).writes() == old(self).writes().push((duty, r)),
    {
        write_duty(&mut self.channel, duty)
    }
}

/// The CIE 1976 L* lightness of `i / 255`, scaled by 2.55, rounded to
/// nearest and clamped to 0–255: `903.3 t` for `t ≤ 0.008856`, else
/// `116 t^(1/3) − 16`.  The reference the compact curve is held to.
pub open spec fn cie_reference(i: u8) -> u8 {
    if i == 0 {
        0
    } else if i == 1 {
        9
    } else if i == 2 {
        18
    } else if i == 3 {
        26
    } else if i == 4 {
        33
    } else if i == 5 {
        39
    } else if i == 6 {
        44
    } else if i == 7 {
        48
    } else if i == 8 {
        52
    } else if i == 9 {
        56
    } else if i == 10 {
        60
    } else if i == 11 {
        63
    } else if i == 12 {
        66
    } else if i == 13 {
        69
    } else if i == 14 {
        72
    } else if i == 15 {
        74
    } else if i == 16 {
        77
    } else if i == 17 {
        79
    } else if i == 18 {
        81
    } else if i == 19 {
        84
    } else if i == 20 {
        86
    } else if i == 21 {
        88
    } else if i == 22 {
        90
    } else if i == 23 {
        92
    } else if i == 24 {
        94
    } else if i == 25 {
        96
    } else if i == 26 {
        97
    } else if i == 27 {
        99
    } else if i == 28 {
        101
    } else if i == 29 {
        103
    } else if i == 30 {
        104
    } else if i == 31 {
        106
    } else if i == 32 {
        107
    } else if i == 33 {
        109
    } else if i == 34 {
        110
    } else if i == 35 {
        112
    } else if i == 36 {
        113
    } else if i == 37 {
        115
    } else if i == 38 {
        116
    } else if i == 39 {
        117
    } else if i == 40 {
        119
    } else if i == 41 {
        120
    } else if i == 42 {
        121
    } else if i == 43 {
        123
    } else if i == 44 {
        124
    } else if i == 45 {
        125
    } else if i == 46 {
        126
    } else if i == 47 {
        128
    } else if i == 48 {
        129
    } else if i == 49 {
        130
    } else if i == 50 {
        131
    } else if i == 51 {
        132
    } else if i == 52 {
        133
    } else if i == 53 {
        134
    } else if i == 54 {
        136
    } else if i == 55 {
        137
    } else if i == 56 {
        138
    } else if i == 57 {
        139
    } else if i == 58 {
        140
    } else if i == 59 {
        141
    } else if i == 60 {
        142
    } else if i == 61 {
        143
    } else if i == 62 {
        144
    } else if i == 63 {
        145
    } else if i == 64 {
        146
    } else if i == 65 {
        147
    } else if i == 66 {
        148
    } else if i == 67 {
        149
    } else if i == 68 {
        150
    } else if i == 69 {
        151
    } else if i == 70 {
        151
    } else if i == 71 {
        152
    } else if i == 72 {
        153
    } else if i == 73 {
        154
    } else if i == 74 {
        155
    } else if i == 75 {
        156
    } else if i == 76 {
        157
    } else if i == 77 {
        158
    } else if i == 78 {
        159
    } else if i == 79 {
        159
    } else if i == 80 {
        160
    } else if i == 81 {
        161
    } else if i == 82 {
        162
    } else if i == 83 {
        163
    } else if i == 84 {
        163
    } else if i == 85 {
        164
    } else if i == 86 {
        165
    } else if i == 87 {
        166
    } else if i == 88 {
        167
    } else if i == 89 {
        167
    } else if i == 90 {
        168
    } else if i == 91 {
        169
    } else if i == 92 {
        170
    } else if i == 93 {
        171
    } else if i == 94 {
        171
    } else if i == 95 {
        172
    } else if i == 96 {
        173
    } else if i == 97 {
        174
    } else if i == 98 {
        174
    } else if i == 99 {
        175
    } else if i == 100 {
        176
    } else if i == 101 {
        176
    } else if i == 102 {
        177
    } else if i == 103 {
        178
    } else if i == 104 {
        179
    } else if i == 105 {
        179
    } else if i == 106 {
        180
    } else if i == 107 {
        181
    } else if i == 108 {
        181
    } else if i == 109 {
        182
    } else if i == 110 {
        183
    } else if i == 111 {
        183
    } else if i == 112 {
        184
    } else if i == 113 {
        185
    } else if i == 114 {
        185
    } else if i == 115 {
        186
    } else if i == 116 {
        187
    } else if i == 117 {
        187
    } else if i == 118 {
        188
    } else if i == 119 {
        189
    } else if i == 120 {
        189
    } else if i == 121 {
        190
    } else if i == 122 {
        191
    } else if i == 123 {
        191
    } else if i == 124 {
        192
    } else if i == 125 {
        192
    } else if i == 126 {
        193
    } else if i == 127 {
        194
    } else if i == 128 {
        194
    } else if i == 129 {
        195
    } else if i == 130 {
        196
    } else if i == 131 {
        196
    } else if i == 132 {
        197
    } else if i == 133 {
        197
    } else if i == 134 {
        198
    } else if i == 135 {
        198
    } else if i == 136 {
        199
    } else if i == 137 {
        200
    } else if i == 138 {
        200
    } else if i == 139 {
        201
    } else if i == 140 {
        201
    } else if i == 141 {
        202
    } else if i == 142 {
        203
    } else if i == 143 {
        203
    } else if i == 144 {
        204
    } else if i == 145 {
        204
    } else if i == 146 {
        205
    } else if i == 147 {
        205
    } else if i == 148 {
        206
    } else if i == 149 {
        206
    } else if i == 150 {
        207
    } else if i == 151 {
        208
    } else if i == 152 {
        208
    } else if i == 153 {
        209
    } else if i == 154 {
        209
    } else if i == 155 {
        210
    } else if i == 156 {
        210
    } else if i == 157 {
        211
    } else if i == 158 {
        211
    } else if i == 159 {
        212
    } else if i == 160 {
        212
    } else if i == 161 {
        213
    } else if i == 162 {
        213
    } else if i == 163 {
        214
    } else if i == 164 {
        215
    } else if i == 165 {
        215
    } else if i == 166 {
        216
    } else if i == 167 {
        216
    } else if i == 168 {
        217
    } else if i == 169 {
        217
    } else if i == 170 {
        218
    } else if i == 171 {
        218
    } else if i == 172 {
        219
    } else if i == 173 {
        219
    } else if i == 174 {
        220
    } else if i == 175 {
        220
    } else if i == 176 {
        221
    } else if i == 177 {
        221
    } else if i == 178 {
        222
    } else if i == 179 {
        222
    } else if i == 180 {
        223
    } else if i == 181 {
        223
    } else if i == 182 {
        224
    } else if i == 183 {
        224
    } else if i == 184 {
        225
    } else if i == 185 {
        225
    } else if i == 186 {
        225
    } else if i == 187 {
        226
    } else if i == 188 {
        226
    } else if i == 189 {
        227
    } else if i == 190 {
        227
    } else if i == 191 {
        228
    } else if i == 192 {
        228
    } else if i == 193 {
        229
    } else if i == 194 {
        229
    } else if i == 195 {
        230
    } else if i == 196 {
        230
    } else if i == 197 {
        231
    } else if i == 198 {
        231
    } else if i == 199 {
        232
    } else if i == 200 {
        232
    } else if i == 201 {
        232
    } else if i == 202 {
        233
    } else if i == 203 {
        233
    } else if i == 204 {
        234
    } else if i == 205 {
        234
    } else if i == 206 {
        235
    } else if i == 207 {
        235
    } else if i == 208 {
        236
    } else if i == 209 {
        236
    } else if i == 210 {
        236
    } else if i == 211 {
        237
    } else if i == 212 {
        237
    } else if i == 213 {
        238
    } else if i == 214 {
        238
    } else if i == 215 {
        239
    } else if i == 216 {
        239
    } else if i == 217 {
        240
    } else if i == 218 {
        240
    } else if i == 219 {
        240
    } else if i == 220 {
        241
    } else if i == 221 {
        241
    } else if i == 222 {
        242
    } else if i == 223 {
        242
    } else if i == 224 {
        242
    } else if i == 225 {
        243
    } else if i == 226 {
        243
    } else if i == 227 {
        244
    } else if i == 228 {
        244
    } else if i == 229 {
        245
    } else if i == 230 {
        245
    } else if i == 231 {
        245
    } else if i == 232 {
        246
    } else if i == 233 {
        246
    } else if i == 234 {
        247
    } else if i == 235 {
        247
    } else if i == 236 {
        247
    } else if i == 237 {
        248
    } else if i == 238 {
        248
    } else if i == 239 {
        249
    } else if i == 240 {
        249
    } else if i == 241 {
        249
    } else if i == 242 {
        250
    } else if i == 243 {
        250
    } else if i == 244 {
        251
    } else if i == 245 {
        251
    } else if i == 246 {
        251
    } else if i == 247 {
        252
    } else if i == 248 {
        252
    } else if i == 249 {
        253
    } else if i == 250 {
        253
    } else if i == 251 {
        253
    } else if i == 252 {
        254
    } else if i == 253 {
        254
    } else if i == 254 {
        255
    } else {
        255
    }
}

/// [`cie_prefix`] as a function of the index.
pub open spec fn prefix_at(i: u8) -> u8 {
    if i == 0 {
        0
    } else if i == 1 {
        9
    } else if i == 2 {
        18
    } else if i == 3 {
        26
    } else if i == 4 {
        33
    } else if i == 5 {
        39
    } else if i == 6 {
        44
    } else if i == 7 {
        48
    } else if i == 8 {
        52
    } else if i == 9 {
        56
    } else if i == 10 {
        60
    } else if i == 11 {
        63
    } else if i == 12 {
        66
    } else if i == 13 {
        69
    } else if i == 14 {
        72
    } else {
        74
    }
}

/// [`cie_knots`] as a function of the index.
pub open spec fn knot_at(i: u8) -> u8 {
    if i == 0 {
        77
    } else if i == 1 {
        107
    } else if i == 2 {
        129
    } else if i == 3 {
        146
    } else if i == 4 {
        160
    } else if i == 5 {
        173
    } else if i == 6 {
        184
    } else if i == 7 {
        194
    } else if i == 8 {
        204
    } else if i == 9 {
        212
    } else if i == 10 {
        221
    } else if i == 11 {
        228
    } else if i == 12 {
        236
    } else if i == 13 {
        242
    } else if i == 14 {
        249
    } else {
        255
    }
}

/// [`cie_lstar`] written over [`prefix_at`] and [`knot_at`].
spec fn cie_lstar_by_index(raw: u8) -> u16 {
    if raw < 16 {
        prefix_at(raw) as u16
    } else if raw == 255 {
        255
    } else {
        let k = ((raw - 16) / 16) as u8;
        let f = (raw % 16) as u16;
        let lo = knot_at(k) as u16;
        let hi = knot_at((k + 1) as u8) as u16;
        (lo + ((hi - lo) * f + 8) / 16) as u16
    }
}

/// The compact curve stays within 2 of the reference, on every input.
#[verifier::rlimit(100)]
proof fn lemma_by_index_within_two(raw: u8)
    by (bit_vector)
    ensures
        cie_lstar_by_index(raw) <= cie_reference(raw) as u16 + 2,
        cie_reference(raw) as u16 <= cie_lstar_by_index(raw) + 2,
{
}

/// The two spellings of the prefix table agree.
proof fn lemma_prefix_at(i: u8)
    requires
        i < 16,
    ensures
        prefix_at(i) == cie_prefix()[i as int],
{
}

/// The two spellings of the knot table agree.
proof fn lemma_knot_at(k: u8)
    requires
        k < 16,
    ensures
        knot_at(k) == cie_knots()[k as int],
{
}

/// [`cie_lstar_by_index`] is [`cie_lstar`].
proof fn lemma_by_index_matches(raw: u8)
    ensures
        cie_lstar(raw) as u16 == cie_lstar_by_index(raw),
{
    if raw < 16 {
        lemma_prefix_at(raw);
    } else if raw != 255 {
        let k = ((raw - 16) / 16) as u8;
        lemma_knot_at(k);
        lemma_knot_at((k + 1) as u8);
        lemma_interp_bounds(k as int, raw as int % 16);
    }
}

/// The compact CIE L* curve is within 2 of the CIE L* reference on every
/// input (exact on the prefix and at the knots).
pub proof fn lemma_cie_accuracy(raw: u8)
    ensures
        cie_lstar(raw) <= cie_reference(raw) + 2,
        cie_reference(raw) <= cie_lstar(raw) + 2,
{
    lemma_by_index_within_two(raw);
    lemma_by_index_matches(raw);
}

} // verus!
