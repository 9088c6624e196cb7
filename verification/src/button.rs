use crate::pin::{Level, Pin, PinState};
use vstd::prelude::*;

verus! {

/// Whether a pull-up input line at `level` counts as pressed. The switch is
/// wired active-low: the pull-up idles the line high, and a closed switch
/// pulls it low.
pub open spec fn pressed_at(level: Level) -> bool {
    level == Level::Low
}

/// The mathematical view of a button: which line it owns.
pub struct ButtonV {
    pub line: u8,
}

/// A button: the exclusive owner of one pin in pull-up input state.
///
/// Reading the line is input from the outside world, so the queries take
/// the sampled level as an argument; they are pure and mutate nothing, and
/// for any given level `is_pressed` and `is_released` are exact
/// complements.
pub struct Button {
    pin: Pin,
}

impl View for Button {
    type V = ButtonV;

    closed spec fn view(&self) -> ButtonV {
        ButtonV { line: self.pin@.line }
    }
}

impl Button {
    /// The owned pin is configured as a pull-up input.
    pub closed spec fn wf(&self) -> bool {
        self.pin@.state == PinState::PullUpInput
    }

    /// Claims `pin`, in whatever state, as the button line, configuring it
    /// as a pull-up input.
    pub(crate) fn new(pin: Pin) -> (r: Button)
        ensures
            r.wf(),
            r@.line == pin@.line,
    {
        Button { pin: pin.into_pullup_input() }
    }

    /// Whether the button is pressed when its line samples at `level`:
    /// exactly when the line reads low.
    pub fn is_pressed(&self, level: Level) -> (r: bool)
        ensures
            r == pressed_at(level),
    {
        level == Level::Low
    }

    /// Whether the button is released: for every level, the exact
    /// complement of `is_pressed`.
    pub fn is_released(&self, level: Level) -> (r: bool)
        ensures
            r == !pressed_at(level),
    {
        level == Level::High
    }

    /// The line the button owns.
    pub fn line(&self) -> (r: u8)
        ensures
            r == self@.line,
    {
        self.pin.line()
    }
}

/// Every line level makes the button either pressed or released, never
/// both and never neither.
pub proof fn lemma_pressed_released_complement(level: Level)
    ensures
        pressed_at(level) <==> !(level == Level::High),
{
    match level {
        Level::Low => {},
        Level::High => {},
    }
}

/// The board's buttons.
pub struct Buttons {
    pub switch: Button,
}

} // verus!
