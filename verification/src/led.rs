use crate::pin::{Level, Pin, PinState, PinV};
use vstd::prelude::*;

verus! {

/// The mathematical view of an LED: which line it owns and whether it is
/// lit. With active-high wiring the LED is on exactly when its line drives
/// high.
pub struct LedV {
    pub line: u8,
    pub on: bool,
}

/// An LED: the exclusive owner of one pin in push-pull output state.
///
/// `enable` and `disable` drive the line; `is_on` and `is_off` read back
/// the driven level (not the line's electrical input — the line is an
/// output), so for any sequence of calls `is_on` holds exactly when the
/// most recent call was `enable`, and `is_on`/`is_off` are exact
/// complements. An LED starts off.
pub struct Led {
    pin: Pin,
}

impl View for Led {
    type V = LedV;

    closed spec fn view(&self) -> LedV {
        LedV { line: self.pin@.line, on: self.pin@.state == PinState::PushPullOutput(Level::High) }
    }
}

impl Led {
    /// The owned pin is configured as a push-pull output.
    pub closed spec fn wf(&self) -> bool {
        self.pin@.state is PushPullOutput
    }

    /// Claims `pin`, in whatever state, as an LED line: it is driven low,
    /// so the LED starts off.
    pub(crate) fn new(pin: Pin) -> (r: Led)
        ensures
            r.wf(),
            r@.line == pin@.line,
            !r@.on,
    {
        Led { pin: pin.into_push_pull_output(Level::Low) }
    }

    /// Turns the LED on by driving its line high.
    pub fn enable(&mut self)
        requires
            old(self).wf(),
        ensures
            final(self).wf(),
            final(self)@.line == old(self)@.line,
            final(self)@.on,
    {
        self.pin.set_level(Level::High);
    }

    /// Turns the LED off by driving its line low.
    pub fn disable(&mut self)
        requires
            old(self).wf(),
        ensures
            final(self).wf(),
            final(self)@.line == old(self)@.line,
            !final(self)@.on,
    {
        self.pin.set_level(Level::Low);
    }

    /// Whether the LED is lit: exactly when the line drives high.
    pub fn is_on(&self) -> (r: bool)
        ensures
            r == self@.on,
    {
        let s = self.pin.state();
        s == PinState::PushPullOutput(Level::High)
    }

    /// Whether the LED is dark: always the exact complement of `is_on`.
    pub fn is_off(&self) -> (r: bool)
        ensures
            r == !self@.on,
    {
        let s = self.pin.state();
        s != PinState::PushPullOutput(Level::High)
    }

    /// The line the LED owns.
    pub fn line(&self) -> (r: u8)
        ensures
            r == self@.line,
    {
        self.pin.line()
    }
}

/// The board's LEDs.
pub struct Leds {
    pub d3: Led,
    pub conn: Led,
}

} // verus!
