use embedded_hal::digital::{ErrorKind, OutputPin, StatefulOutputPin};
use vstd::prelude::*;

mod line;

pub use line::{level_of, PinOp};
use line::{drive_pin, read_pin_high, toggle_pin, Line};

verus! {

/// Physical level of an output pin, as the library reasons about it.
#[derive(Clone, Copy, Debug, PartialEq, Eq, Structural)]
pub enum Level {
    /// Pin driven low.
    Low,
    /// Pin driven high.
    High,
}

/// Runtime polarity mode.
///
/// Determines whether a logical ON maps to a physical `High` or `Low` pin level.
/// Chosen at construction time, making it suitable for polarity derived from
/// runtime configuration.
#[derive(Clone, Copy, Debug, PartialEq, Eq, Structural)]
pub enum PolarityMode {
    /// Active-high: pin High = LED on.
    ActiveHigh,
    /// Active-low: pin Low = LED on.
    ActiveLow,
}

impl PolarityMode {
    /// The physical level that lights the LED.
    pub open spec fn on_level(self) -> Level {
        match self {
            PolarityMode::ActiveHigh => Level::High,
            PolarityMode::ActiveLow => Level::Low,
        }
    }

    /// The physical level that darkens the LED.
    pub open spec fn off_level(self) -> Level {
        match self {
            PolarityMode::ActiveHigh => Level::Low,
            PolarityMode::ActiveLow => Level::High,
        }
    }

    /// Whether a pin that is driven high (`physical_high`) lights the LED.
    pub open spec fn logical_on(self, physical_high: bool) -> bool {
        match self {
            PolarityMode::ActiveHigh => physical_high,
            PolarityMode::ActiveLow => !physical_high,
        }
    }

    /// PWM duty fraction (0 = 0 %, 255 = 100 %) for an on-time fraction
    /// `brightness` (0 = off, 255 = fully on).
    pub open spec fn duty(self, brightness: u8) -> u8 {
        match self {
            PolarityMode::ActiveHigh => brightness,
            PolarityMode::ActiveLow => (255 - brightness) as u8,
        }
    }

    /// Physical pin level corresponding to logical ON.
    pub fn physical_on(self) -> (r: Level)
        ensures
            r == self.on_level(),
            r == Level::High <==> self == PolarityMode::ActiveHigh,
    {
        match self {
            PolarityMode::ActiveHigh => Level::High,
            PolarityMode::ActiveLow => Level::Low,
        }
    }

    /// Physical pin level corresponding to logical OFF.
    pub fn physical_off(self) -> (r: Level)
        ensures
            r == self.off_level(),
            r == Level::High <==> self == PolarityMode::ActiveLow,
    {
        match self {
            PolarityMode::ActiveHigh => Level::Low,
            PolarityMode::ActiveLow => Level::High,
        }
    }

    /// Given whether the pin is driven high, return whether the LED is logically ON.
    pub fn is_logical_on(self, physical_high: bool) -> (r: bool)
        ensures
            r == self.logical_on(physical_high),
            r == (physical_high == (self == PolarityMode::ActiveHigh)),
    {
        match self {
            PolarityMode::ActiveHigh => physical_high,
            PolarityMode::ActiveLow => !physical_high,
        }
    }

    /// Map an on-time fraction (0 = off, 255 = fully on) to a PWM duty fraction
    /// (0 = 0 % duty, 255 = 100 % duty).
    pub fn map_duty(self, brightness: u8) -> (r: u8)
        ensures
            r == self.duty(brightness),
            self == PolarityMode::ActiveHigh ==> r == brightness,
            self == PolarityMode::ActiveLow ==> r + brightness == 255,
    {
        match self {
            PolarityMode::ActiveHigh => brightness,
            PolarityMode::ActiveLow => 255 - brightness,
        }
    }
}

/// What each polarity means, input by input: active-high lights the LED
/// with a High pin, active-low with a Low pin; a pin read as high is ON
/// exactly for active-high; and the duty fraction is the on-time fraction
/// for active-high and its complement to 255 for active-low.
pub proof fn lemma_polarity_meaning(mode: PolarityMode, physical_high: bool, brightness: u8)
    ensures
        mode.on_level() == Level::High <==> mode == PolarityMode::ActiveHigh,
        mode.off_level() == Level::High <==> mode == PolarityMode::ActiveLow,
        mode.logical_on(physical_high) == (physical_high == (mode == PolarityMode::ActiveHigh)),
        PolarityMode::ActiveHigh.duty(brightness) == brightness,
        PolarityMode::ActiveLow.duty(brightness) + brightness == 255,
{
}

/// Logical ON and logical OFF are always opposite physical levels.
pub proof fn lemma_on_off_levels_differ(mode: PolarityMode)
    ensures
        mode.on_level() != mode.off_level(),
        mode.on_level() == Level::High <==> mode.off_level() == Level::Low,
{
}

/// A pin driven to the ON level reads back as logically ON, and a pin driven to
/// the OFF level reads back as logically OFF.
pub proof fn lemma_level_round_trip(mode: PolarityMode)
    ensures
        mode.logical_on(mode.on_level() == Level::High),
        !mode.logical_on(mode.off_level() == Level::High),
{
}

/// Full brightness and darkness swap their duty under active-low polarity,
/// and duty mapping is an involution.
pub proof fn lemma_duty_involution(mode: PolarityMode, brightness: u8)
    ensures
        mode.duty(mode.duty(brightness)) == brightness,
        PolarityMode::ActiveLow.duty(0) == 255,
        PolarityMode::ActiveLow.duty(255) == 0,
        PolarityMode::ActiveHigh.duty(brightness) == brightness,
{
}

/// What `is_on` reports for a register read `read` under `mode`.
pub open spec fn logical_read(mode: PolarityMode, read: Result<bool, ErrorKind>) -> Result<
    bool,
    ErrorKind,
> {
    match read {
        Ok(high) => Ok(mode.logical_on(high)),
        Err(e) => Err(e),
    }
}

/// What a read reports, input by input: a failed read passes its error on;
/// a successful read `high` is ON exactly when `high` matches active-high,
/// and the inverse reading is the opposite, so exactly one of ON and OFF
/// holds.  Driving the ON level and reading it back gives ON; driving the OFF
/// level and reading it back gives OFF.
pub proof fn lemma_read_meaning(mode: PolarityMode, read: Result<bool, ErrorKind>)
    ensures
        read matches Ok(high) ==> logical_read(mode, read) == Ok::<bool, ErrorKind>(
            high == (mode == PolarityMode::ActiveHigh),
        ),
        read matches Ok(high) ==> negated_read(logical_read(mode, read)) == Ok::<bool, ErrorKind>(
            high != (mode == PolarityMode::ActiveHigh),
        ),
        read matches Err(e) ==> logical_read(mode, read) == Err::<bool, ErrorKind>(e),
        read matches Err(e) ==> negated_read(logical_read(mode, read)) == Err::<bool, ErrorKind>(e),
        logical_read(mode, Ok(mode.on_level() == Level::High)) == Ok::<bool, ErrorKind>(true),
        logical_read(mode, Ok(mode.off_level() == Level::High)) == Ok::<bool, ErrorKind>(false),
        negated_read(logical_read(mode, Ok(mode.off_level() == Level::High))) == Ok::<
            bool,
            ErrorKind,
        >(true),
{
}

/// Inverts the reading of a successful `is_on`.
pub open spec fn negated_read(read: Result<bool, ErrorKind>) -> Result<bool, ErrorKind> {
    match read {
        Ok(on) => Ok(!on),
        Err(e) => Err(e),
    }
}

/// Monochrome LED with polarity chosen at construction time.
///
/// No internal state cache: `is_on()` reads the pin's output register and
/// applies the polarity conversion.  The pin's ghost record of every exchange
/// lets contracts say what each operation hands to the pin.
pub struct Led<P> {
    line: Line<P>,
    polarity: PolarityMode,
}

impl<P> Led<P> {
    /// The pin that drives the LED.
    pub closed spec fn pin_spec(&self) -> P {
        self.line.pin_spec()
    }

    /// The polarity chosen at construction.
    pub closed spec fn polarity_spec(&self) -> PolarityMode {
        self.polarity
    }

    /// Every exchange with the pin since construction, oldest first.
    pub closed spec fn ops(&self) -> Seq<PinOp> {
        self.line.ops()
    }

    /// Build from an already-configured pin without changing its level.
    pub fn from_pin(pin: P, polarity: PolarityMode) -> (r: Self)
        ensures
            r.pin_spec() == pin,
            r.polarity_spec() == polarity,
            r.ops() == Seq::<PinOp>::empty(),
    {
        Led { line: Line::open(pin), polarity }
    }

    /// Return the current polarity.
    pub fn polarity(&self) -> (r: PolarityMode)
        ensures
            r == self.polarity_spec(),
    {
        self.polarity
    }

    /// Consume the `Led` and return the underlying pin.
    pub fn release(self) -> (r: P)
        ensures
            r == self.pin_spec(),
    {
        self.line.release()
    }
}

impl<P: OutputPin> Led<P> {
    /// Build and force the pin to the logical OFF state; a refusal by the pin
    /// is returned as its error kind.
    pub fn new(pin: P, polarity: PolarityMode) -> (r: Result<Self, ErrorKind>)
        ensures
            r matches Ok(led) ==> {
                &&& led.polarity_spec() == polarity
                &&& led.ops() == seq![PinOp::Drive(polarity.off_level(), Ok(()))]
            },
    {
        let mut led = Led { line: Line::open(pin), polarity };
        let answer = drive_pin(&mut led.line, polarity.physical_off() == Level::High);
        assert(led.ops() =~= seq![PinOp::Drive(polarity.off_level(), answer)]);
        match answer {
            Ok(unit) => {
                assert(unit == ());
                assert(answer == Ok::<(), ErrorKind>(()));
                assert(led.ops() == seq![PinOp::Drive(polarity.off_level(), Ok(()))]);
                Ok(led)
            },
            Err(e) => Err(e),
        }
    }

    /// Turn the LED on (logical ON, physical level determined by polarity).
    /// Returns the pin's answer.
    pub fn on(&mut self) -> (r: Result<(), ErrorKind>)
        ensures
            final(self).polarity_spec() == old(self).polarity_spec(),
            final(self).ops() == old(self).ops().push(
                PinOp::Drive(old(self).polarity_spec().on_level(), r),
            ),
            final(self).ops().last() == PinOp::Drive(
                if old(self).polarity_spec() == PolarityMode::ActiveHigh {
                    Level::High
                } else {
                    Level::Low
                },
                r,
            ),
    {
        let high = self.polarity.physical_on() == Level::High;
        drive_pin(&mut self.line, high)
    }

    /// Turn the LED off (logical OFF, physical level determined by polarity).
    /// Returns the pin's answer.
    pub fn off(&mut self) -> (r: Result<(), ErrorKind>)
        ensures
            final(self).polarity_spec() == old(self).polarity_spec(),
            final(self).ops() == old(self).ops().push(
                PinOp::Drive(old(self).polarity_spec().off_level(), r),
            ),
            final(self).ops().last() == PinOp::Drive(
                if old(self).polarity_spec() == PolarityMode::ActiveHigh {
                    Level::Low
                } else {
                    Level::High
                },
                r,
            ),
    {
        let high = self.polarity.physical_off() == Level::High;
        drive_pin(&mut self.line, high)
    }

    /// Set the logical state: `true` = ON, `false` = OFF.
    pub fn set(&mut self, state: bool) -> (r: Result<(), ErrorKind>)
        ensures
            final(self).polarity_spec() == old(self).polarity_spec(),
            final(self).ops() == old(self).ops().push(
                PinOp::Drive(
                    if state {
                        old(self).polarity_spec().on_level()
                    } else {
                        old(self).polarity_spec().off_level()
                    },
                    r,
                ),
            ),
    {
        if state {
            self.on()
        } else {
            self.off()
        }
    }
}

impl<P: StatefulOutputPin> Led<P> {
    /// Read the logical state from the pin's output register: the register
    /// read, converted through the polarity.
    pub fn is_on(&mut self) -> (r: Result<bool, ErrorKind>)
        ensures
            final(self).polarity_spec() == old(self).polarity_spec(),
            exists|read: Result<bool, ErrorKind>|
                {
                    &&& final(self).ops() == old(self).ops().push(PinOp::ReadHigh(read))
                    &&& r == logical_read(old(self).polarity_spec(), read)
                    &&& read matches Ok(high) ==> r == Ok::<bool, ErrorKind>(
                        high == (old(self).polarity_spec() == PolarityMode::ActiveHigh),
                    )
                    &&& read matches Err(e) ==> r == Err::<bool, ErrorKind>(e)
                },
    {
        let read = read_pin_high(&mut self.line);
        let r = match read {
            Ok(high) => Ok(self.polarity.is_logical_on(high)),
            Err(e) => Err(e),
        };
        assert(r == logical_read(self.polarity, read));
        r
    }

    /// Inverse of [`is_on`](Self::is_on): one register read, converted
    /// through the polarity and negated.
    pub fn is_off(&mut self) -> (r: Result<bool, ErrorKind>)
        ensures
            final(self).polarity_spec() == old(self).polarity_spec(),
            exists|read: Result<bool, ErrorKind>|
                {
                    &&& final(self).ops() == old(self).ops().push(PinOp::ReadHigh(read))
                    &&& r == negated_read(logical_read(old(self).polarity_spec(), read))
                    &&& read matches Ok(high) ==> r == Ok::<bool, ErrorKind>(
                        high != (old(self).polarity_spec() == PolarityMode::ActiveHigh),
                    )
                    &&& read matches Err(e) ==> r == Err::<bool, ErrorKind>(e)
                },
    {
        let on = self.is_on();
        let r = match on {
            Ok(on) => Ok(!on),
            Err(e) => Err(e),
        };
        assert(r == negated_read(on));
        r
    }

    /// Toggle the logical state by flipping the physical pin.  Returns the
    /// pin's answer.
    pub fn toggle(&mut self) -> (r: Result<(), ErrorKind>)
        ensures
            final(self).polarity_spec() == old(self).polarity_spec(),
            final(self).ops() == old(self).ops().push(PinOp::Toggle(r)),
    {
        toggle_pin(&mut self.line)
    }
}

} // verus!
