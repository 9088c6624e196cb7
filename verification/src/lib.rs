//! A verified resource-ownership model of a small development board.
//!
//! The library hands out the board's fixed hardware resources — GPIO pins,
//! bus handles, LEDs, a button, and the remaining peripheral blocks — as a
//! single aggregate obtained through a guarded, one-time acquisition. The
//! contracts state the ownership discipline: every pin and peripheral block
//! is represented by exactly one live handle, pins move forward through
//! consuming state transitions, and the safe acquisition path succeeds at
//! most once per registry.

pub mod board;
pub mod bus;
pub mod button;
pub mod led;
pub mod pin;
pub mod registry;
pub mod tokens;

pub use board::{Board, Pins};
pub use bus::{Parity, SpiMode, Spim, SpimV, Uarte, UarteV};
pub use button::{Button, ButtonV, Buttons};
pub use led::{Led, LedV, Leds};
pub use pin::{Level, Pin, PinState, PinV};
pub use registry::{Registry, RegistryV};
pub use tokens::{PeripheralId, Token, TokenBank};
