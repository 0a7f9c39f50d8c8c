//! The PWM channel behind a [`PwmLed`](super::PwmLed): the only code that
//! talks to the channel.  Its ghost records are extended only by the trusted
//! wrappers; verified code only starts them empty and moves them along.

use super::{duty_value, lemma_duty_value_bounds};
use crate::brightness::DUTY_SCALE_NUM;
use embedded_hal::pwm::{Error, ErrorKind, SetDutyCycle};
use vstd::prelude::*;

verus! {

/// A channel's full duty together with the precomputed `max_duty × 257`,
/// so that the hardware duty for a fraction comes out without dividing by
/// 255.
struct DutyScale {
    max_duty: u16,
    scale: u32,
}

impl DutyScale {
    #[verifier::type_invariant]
    spec fn scale_matches(self) -> bool {
        self.scale == self.max_duty as int * DUTY_SCALE_NUM as int
    }

    spec fn max_duty_spec(self) -> u16 {
        self.max_duty
    }

    fn new(max_duty: u16) -> (r: Self)
        ensures
            r.max_duty_spec() == max_duty,
    {
        DutyScale { max_duty, scale: max_duty as u32 * DUTY_SCALE_NUM }
    }

    fn max_duty(&self) -> (r: u16)
        ensures
            r == self.max_duty_spec(),
    {
        self.max_duty
    }

    /// The hardware duty for `duty_raw`: the full duty for a full fraction,
    /// otherwise `(duty_raw × scale + 32768) >> 16`, without dividing.
    fn duty(&self, duty_raw: u8) -> (r: u16)
        ensures
            r == duty_value(duty_raw, self.max_duty_spec()),
    {
        proof {
            use_type_invariant(self);
            lemma_duty_value_bounds(duty_raw, 255, self.max_duty);
        }
        if duty_raw == 255 {
            return self.max_duty;
        }
        let raw = duty_raw as u32;
        assert(raw * self.scale <= 255 * (65535 * 257)) by (nonlinear_arith)
            requires
                raw <= 255,
                self.scale == self.max_duty * 257,
                self.max_duty <= 65535,
        ;
        let sum: u32 = raw * self.scale + 32768;
        let duty = sum >> 16;
        assert(duty == sum / 65536) by (bit_vector)
            requires
                duty == sum >> 16,
        ;
        duty as u16
    }
}

/// A PWM channel with its full duty, read once when the channel is taken
/// over, and ghost records of the exchanges with it.
pub struct Channel<P> {
    pin: P,
    /// The full duty the channel reported, with its precomputed scale.
    scale: DutyScale,
    /// Every answer of `max_duty_cycle`, oldest first.
    reported: Ghost<Seq<u16>>,
    /// Every duty handed to `set_duty_cycle`, oldest first, with its answer.
    writes: Ghost<Seq<(u16, Result<(), ErrorKind>)>>,
}

impl<P> Channel<P> {
    /// The channel was asked for its full duty exactly once, and the cached
    /// full duty is its answer.
    #[verifier::type_invariant]
    spec fn reported_once(self) -> bool {
        self.reported@ == seq![self.scale.max_duty_spec()]
    }

    /// The channel itself.
    pub closed spec fn pin_spec(&self) -> P {
        self.pin
    }

    /// The cached full duty.
    pub closed spec fn max_duty_spec(&self) -> u16 {
        self.scale.max_duty_spec()
    }

    /// Every answer of `max_duty_cycle`, oldest first.
    pub closed spec fn reported(&self) -> Seq<u16> {
        self.reported@
    }

    /// Every duty handed to `set_duty_cycle`, oldest first, with its answer.
    pub closed spec fn writes(&self) -> Seq<(u16, Result<(), ErrorKind>)> {
        self.writes@
    }

    /// The cached full duty, which is the channel's one reported answer.
    pub fn max_duty(&self) -> (r: u16)
        ensures
            r == self.max_duty_spec(),
            self.reported() == seq![r],
    {
        proof {
            use_type_invariant(self);
        }
        self.scale.max_duty()
    }

    /// Hardware duty for a duty fraction `duty_raw` (0–255).
    pub fn duty(&self, duty_raw: u8) -> (r: u16)
        ensures
            r == duty_value(duty_raw, self.max_duty_spec()),
            r <= self.max_duty_spec(),
            self.reported() == seq![self.max_duty_spec()],
    {
        proof {
            use_type_invariant(self);
            lemma_duty_value_bounds(duty_raw, 255, self.max_duty_spec());
        }
        self.scale.duty(duty_raw)
    }

    /// Give the channel back.
    pub fn release(self) -> (r: P)
        ensures
            r == self.pin_spec(),
    {
        self.pin
    }
}

/// A channel not yet asked for its full duty, with the ghost record of the
/// answers it gives.
struct Unopened<P> {
    pin: P,
    reported: Ghost<Seq<u16>>,
}

/// Calls `SetDutyCycle::max_duty_cycle` on the channel.  The contract claims
/// only that the answer is appended to the ghost record and the channel is
/// kept; nothing is claimed of the answer itself, which is the channel's.
#[verifier::external_body]
fn read_max_duty<P: SetDutyCycle>(ch: &mut Unopened<P>) -> (r: u16)
    ensures
        final(ch).pin == old(ch).pin,
        final(ch).reported@ == old(ch).reported@.push(r),
{
    ch.pin.max_duty_cycle()
}

impl<P: SetDutyCycle> Channel<P> {
    /// Take over a channel: ask it once for its full duty and cache the
    /// answer.  Nothing is written to the channel.
    pub fn open(pin: P) -> (r: Self)
        ensures
            r.pin_spec() == pin,
            r.reported() == seq![r.max_duty_spec()],
            r.writes() == Seq::<(u16, Result<(), ErrorKind>)>::empty(),
    {
        let mut asking = Unopened { pin, reported: Ghost(Seq::empty()) };
        let max_duty = read_max_duty(&mut asking);
        assert(asking.reported@ =~= seq![max_duty]);
        Channel {
            pin: asking.pin,
            scale: DutyScale::new(max_duty),
            reported: asking.reported,
            writes: Ghost(Seq::empty()),
        }
    }
}

/// Calls `SetDutyCycle::set_duty_cycle` on the channel with `duty` and
/// reports a failure by its `ErrorKind`.  embedded-hal leaves it to the
/// caller to keep `duty` at or below what `max_duty_cycle` reported, so that
/// is required here: the cached full duty is, by the channel's type
/// invariant, that one reported answer.  The contract claims only that this
/// exchange is appended to the ghost record, with the duty handed over and
/// the answer returned, and that the cached full duty stays; nothing is
/// claimed of the answer itself, which is the HAL's.
#[verifier::external_body]
pub(crate) fn write_duty<P: SetDutyCycle>(ch: &mut Channel<P>, duty: u16) -> (r: Result<
    (),
    ErrorKind,
>)
    requires
        duty <= old(ch).max_duty_spec(),
    ensures
        final(ch).max_duty_spec() == old(ch).max_duty_spec(),
        final(ch).reported() == old(ch).reported(),
        final(ch).writes() == old(ch).writes().push((duty, r)),
{
    ch.pin.set_duty_cycle(duty).map_err(|e| e.kind())
}

} // verus!
