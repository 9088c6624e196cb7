use crate::tokens::{PeripheralId, Token};
use vstd::prelude::*;

verus! {

/// A logical line level: the value driven onto, or read from, a GPIO line.
#[derive(Clone, Copy, PartialEq, Eq, Structural, Debug)]
pub enum Level {
    Low,
    High,
}

/// The electrical configuration of a GPIO line.
///
/// A freshly claimed pin is `Disconnected`; it changes configuration only
/// through the consuming conversions on [`Pin`], so a handle's state tag
/// always matches the configuration last programmed through it. An output
/// pin remembers the level it drives.
#[derive(Clone, Copy, PartialEq, Eq, Structural, Debug)]
pub enum PinState {
    Disconnected,
    FloatingInput,
    PullUpInput,
    PushPullOutput(Level),
}

/// The mathematical view of a pin handle: which physical line it owns and
/// the electrical configuration that line is in.
pub struct PinV {
    pub line: u8,
    pub state: PinState,
}

/// Exclusive handle to one physical GPIO line.
///
/// Lines `0..32` belong to port 0 and lines `32..48` to port 1. A pin is
/// claimed from its port's peripheral token during board initialization and
/// is owned thereafter by whichever handle claimed it; the conversions
/// consume the handle, so no two live handles can disagree about a line's
/// configuration. `Pin` is deliberately not `Clone`.
pub struct Pin {
    line: u8,
    state: PinState,
}

impl View for Pin {
    type V = PinV;

    closed spec fn view(&self) -> PinV {
        PinV { line: self.line, state: self.state }
    }
}

impl Pin {
    /// Claims one line of a GPIO port. The new pin starts unconfigured.
    pub(crate) fn claim(port: &Token, line: u8) -> (r: Pin)
        requires
            (port@ == PeripheralId::P0 && line < 32) || (port@ == PeripheralId::P1 && 32 <= line
                < 48),
        ensures
            r@.line == line,
            r@.state == PinState::Disconnected,
    {
        Pin { line, state: PinState::Disconnected }
    }

    /// The physical line this handle owns.
    pub fn line(&self) -> (r: u8)
        ensures
            r == self@.line,
    {
        self.line
    }

    /// The electrical configuration the line is in.
    pub fn state(&self) -> (r: PinState)
        ensures
            r == self@.state,
    {
        self.state
    }

    /// Reconfigures the line as a floating input, consuming the old handle.
    pub fn into_floating_input(self) -> (r: Pin)
        ensures
            r@.line == self@.line,
            r@.state == PinState::FloatingInput,
    {
        Pin { line: self.line, state: PinState::FloatingInput }
    }

    /// Reconfigures the line as an input with an internal pull-up resistor,
    /// consuming the old handle.
    pub fn into_pullup_input(self) -> (r: Pin)
        ensures
            r@.line == self@.line,
            r@.state == PinState::PullUpInput,
    {
        Pin { line: self.line, state: PinState::PullUpInput }
    }

    /// Reconfigures the line as a push-pull output driving `level`,
    /// consuming the old handle.
    pub fn into_push_pull_output(self, level: Level) -> (r: Pin)
        ensures
            r@.line == self@.line,
            r@.state == PinState::PushPullOutput(level),
    {
        Pin { line: self.line, state: PinState::PushPullOutput(level) }
    }

    /// Drives a configured output line to `level`. The line identity and the
    /// output configuration are preserved; only the driven level changes.
    pub fn set_level(&mut self, level: Level)
        requires
            old(self)@.state is PushPullOutput,
        ensures
            final(self)@.line == old(self)@.line,
            final(self)@.state == PinState::PushPullOutput(level),
    {
        self.state = PinState::PushPullOutput(level);
    }
}

} // verus!
