//! The digital pin behind a [`Led`](super::Led): the only code that talks to
//! the pin and the only code that writes the ghost record of those
//! exchanges.

use super::Level;
use embedded_hal::digital::{Error, ErrorKind, OutputPin, PinState, StatefulOutputPin};
use vstd::prelude::*;

verus! {

#[verifier::external_type_specification]
#[verifier::external_body]
pub struct ExErrorKind(ErrorKind);

/// One exchange with the LED's pin, as the library records it: what was
/// handed to the pin and what the pin answered.
pub enum PinOp {
    /// `set_state` to the given level, with the pin's answer.
    Drive(Level, Result<(), ErrorKind>),
    /// `is_set_high`, with the pin's answer.
    ReadHigh(Result<bool, ErrorKind>),
    /// `toggle`, with the pin's answer.
    Toggle(Result<(), ErrorKind>),
}

/// The level that `PinState::from(high)` names.
pub open spec fn level_of(high: bool) -> Level {
    if high {
        Level::High
    } else {
        Level::Low
    }
}

/// `PinState::from(true)` is High and `PinState::from(false)` is Low.
pub proof fn lemma_level_of(high: bool)
    ensures
        level_of(high) == Level::High <==> high,
        level_of(high) == Level::Low <==> !high,
{
}

/// An output pin with a ghost record of every exchange with it.
pub struct Line<P> {
    pin: P,
    ops: Ghost<Seq<PinOp>>,
}

impl<P> Line<P> {
    /// The pin itself.
    pub closed spec fn pin_spec(&self) -> P {
        self.pin
    }

    /// Every exchange with the pin, oldest first.
    pub closed spec fn ops(&self) -> Seq<PinOp> {
        self.ops@
    }

    /// Take over a pin, with nothing exchanged yet.
    pub fn open(pin: P) -> (r: Self)
        ensures
            r.pin_spec() == pin,
            r.ops() == Seq::<PinOp>::empty(),
    {
        Line { pin, ops: Ghost(Seq::empty()) }
    }

    /// Give the pin back.
    pub fn release(self) -> (r: P)
        ensures
            r == self.pin_spec(),
    {
        self.pin
    }
}

/// Calls `OutputPin::set_state` on the pin with `PinState::from(high)` (High
/// for `true`, Low for `false`) and reports a failure by its `ErrorKind`.  The
/// contract claims only that this exchange is appended to the ghost record,
/// with the level handed over and the answer returned; nothing is claimed of
/// the answer itself, which is the HAL's.
#[verifier::external_body]
pub(crate) fn drive_pin<P: OutputPin>(line: &mut Line<P>, high: bool) -> (r: Result<(), ErrorKind>)
    ensures
        final(line).ops() == old(line).ops().push(PinOp::Drive(level_of(high), r)),
{
    line.pin.set_state(PinState::from(high)).map_err(|e| e.kind())
}

/// Calls `StatefulOutputPin::is_set_high` on the pin.  The contract claims
/// only that the exchange is appended to the ghost record with the answer
/// returned; the answer is the hardware's.
#[verifier::external_body]
pub(crate) fn read_pin_high<P: StatefulOutputPin>(line: &mut Line<P>) -> (r: Result<bool, ErrorKind>)
    ensures
        final(line).ops() == old(line).ops().push(PinOp::ReadHigh(r)),
{
    line.pin.is_set_high().map_err(|e| e.kind())
}

/// Calls `StatefulOutputPin::toggle` on the pin.  The contract claims only
/// that the exchange is appended to the ghost record with the answer
/// returned.
#[verifier::external_body]
pub(crate) fn toggle_pin<P: StatefulOutputPin>(line: &mut Line<P>) -> (r: Result<(), ErrorKind>)
    ensures
        final(line).ops() == old(line).ops().push(PinOp::Toggle(r)),
{
    line.pin.toggle().map_err(|e| e.kind())
}

} // verus!
