use crate::pin::{Pin, PinState, PinV};
use crate::tokens::{PeripheralId, Token};
use vstd::prelude::*;

verus! {

/// Parity setting of a serial link.
#[derive(Clone, Copy, PartialEq, Eq, Structural, Debug)]
pub enum Parity {
    Excluded,
    Included,
}

/// SPI transfer mode: clock polarity and sampling phase.
#[derive(Clone, Copy, PartialEq, Eq, Structural, Debug)]
pub enum SpiMode {
    Mode0,
    Mode1,
    Mode2,
    Mode3,
}

/// The mathematical view of a UART handle: the pins it owns and the
/// negotiated configuration.
pub struct UarteV {
    pub txd: PinV,
    pub rxd: PinV,
    pub cts: Option<PinV>,
    pub rts: Option<PinV>,
    pub parity: Parity,
    pub baudrate: u32,
}

/// A UART bus handle. It owns its peripheral token and the pins wired to
/// its signal lines; it cannot be constructed without first moving those
/// pins into the electrical state the bus requires.
pub struct Uarte {
    token: Token,
    txd: Pin,
    rxd: Pin,
    cts: Option<Pin>,
    rts: Option<Pin>,
    parity: Parity,
    baudrate: u32,
}

impl View for Uarte {
    type V = UarteV;

    closed spec fn view(&self) -> UarteV {
        UarteV {
            txd: self.txd@,
            rxd: self.rxd@,
            cts: match self.cts {
                Some(p) => Some(p@),
                None => None,
            },
            rts: match self.rts {
                Some(p) => Some(p@),
                None => None,
            },
            parity: self.parity,
            baudrate: self.baudrate,
        }
    }
}

impl Uarte {
    /// The handle owns the UART peripheral block, its transmit line is an
    /// output and its receive line a floating input; a wired request-to-send
    /// line is an output and a wired clear-to-send line a floating input.
    pub closed spec fn wf(&self) -> bool {
        &&& self.token@ == PeripheralId::Uarte0
        &&& self.txd@.state is PushPullOutput
        &&& self.rxd@.state == PinState::FloatingInput
        &&& match self.cts {
            Some(p) => p@.state == PinState::FloatingInput,
            None => true,
        }
        &&& match self.rts {
            Some(p) => p@.state is PushPullOutput,
            None => true,
        }
    }

    /// Builds the UART handle from its peripheral token and configured
    /// pins.
    pub fn new(
        token: Token,
        txd: Pin,
        rxd: Pin,
        cts: Option<Pin>,
        rts: Option<Pin>,
        parity: Parity,
        baudrate: u32,
    ) -> (r: Uarte)
        requires
            token@ == PeripheralId::Uarte0,
            txd@.state is PushPullOutput,
            rxd@.state == PinState::FloatingInput,
            (match cts {
                Some(p) => p@.state == PinState::FloatingInput,
                None => true,
            }),
            (match rts {
                Some(p) => p@.state is PushPullOutput,
                None => true,
            }),
        ensures
            r.wf(),
            r@.txd == txd@,
            r@.rxd == rxd@,
            r@.cts == (match cts {
                Some(p) => Some(p@),
                None => None::<PinV>,
            }),
            r@.rts == (match rts {
                Some(p) => Some(p@),
                None => None::<PinV>,
            }),
            r@.parity == parity,
            r@.baudrate == baudrate,
    {
        Uarte { token, txd, rxd, cts, rts, parity, baudrate }
    }

    /// The transmit pin.
    pub fn txd(&self) -> (r: &Pin)
        ensures
            r@ == self@.txd,
    {
        &self.txd
    }

    /// The receive pin.
    pub fn rxd(&self) -> (r: &Pin)
        ensures
            r@ == self@.rxd,
    {
        &self.rxd
    }

    /// The parity setting.
    pub fn parity(&self) -> (r: Parity)
        ensures
            r == self@.parity,
    {
        self.parity
    }

    /// The baud rate.
    pub fn baudrate(&self) -> (r: u32)
        ensures
            r == self@.baudrate,
    {
        self.baudrate
    }
}

/// The mathematical view of a SPI handle.
pub struct SpimV {
    pub sck: PinV,
    pub mosi: Option<PinV>,
    pub miso: Option<PinV>,
    pub frequency: u32,
    pub mode: SpiMode,
    pub orc: u8,
}

/// A SPI bus handle owning its peripheral token, its clock pin, and the
/// data pins that are wired. `orc` is the over-read character the bus
/// transmits when a transfer reads more than it writes.
pub struct Spim {
    token: Token,
    sck: Pin,
    mosi: Option<Pin>,
    miso: Option<Pin>,
    frequency: u32,
    mode: SpiMode,
    orc: u8,
}

impl View for Spim {
    type V = SpimV;

    closed spec fn view(&self) -> SpimV {
        SpimV {
            sck: self.sck@,
            mosi: match self.mosi {
                Some(p) => Some(p@),
                None => None,
            },
            miso: match self.miso {
                Some(p) => Some(p@),
                None => None,
            },
            frequency: self.frequency,
            mode: self.mode,
            orc: self.orc,
        }
    }
}

impl Spim {
    /// The handle owns the SPI peripheral block, its clock and data-out
    /// lines are outputs, and its data-in line is a floating input.
    pub closed spec fn wf(&self) -> bool {
        &&& self.token@ == PeripheralId::Spim2
        &&& self.sck@.state is PushPullOutput
        &&& match self.mosi {
            Some(p) => p@.state is PushPullOutput,
            None => true,
        }
        &&& match self.miso {
            Some(p) => p@.state == PinState::FloatingInput,
            None => true,
        }
    }

    /// Builds the SPI handle from its peripheral token and configured pins.
    pub fn new(
        token: Token,
        sck: Pin,
        mosi: Option<Pin>,
        miso: Option<Pin>,
        frequency: u32,
        mode: SpiMode,
        orc: u8,
    ) -> (r: Spim)
        requires
            token@ == PeripheralId::Spim2,
            sck@.state is PushPullOutput,
            (match mosi {
                Some(p) => p@.state is PushPullOutput,
                None => true,
            }),
            (match miso {
                Some(p) => p@.state == PinState::FloatingInput,
                None => true,
            }),
        ensures
            r.wf(),
            r@.sck == sck@,
            r@.mosi == (match mosi {
                Some(p) => Some(p@),
                None => None::<PinV>,
            }),
            r@.miso == (match miso {
                Some(p) => Some(p@),
                None => None::<PinV>,
            }),
            r@.frequency == frequency,
            r@.mode == mode,
            r@.orc == orc,
    {
        Spim { token, sck, mosi, miso, frequency, mode, orc }
    }

    /// The clock pin.
    pub fn sck(&self) -> (r: &Pin)
        ensures
            r@ == self@.sck,
    {
        &self.sck
    }

    /// The data-out pin, if wired.
    pub fn mosi(&self) -> (r: &Option<Pin>)
        ensures
            (match r {
                Some(p) => self@.mosi == Some(p@),
                None => self@.mosi is None,
            }),
    {
        &self.mosi
    }

    /// The data-in pin, if wired.
    pub fn miso(&self) -> (r: &Option<Pin>)
        ensures
            (match r {
                Some(p) => self@.miso == Some(p@),
                None => self@.miso is None,
            }),
    {
        &self.miso
    }

    /// The clock frequency, in cycles per second.
    pub fn frequency(&self) -> (r: u32)
        ensures
            r == self@.frequency,
    {
        self.frequency
    }

    /// The transfer mode.
    pub fn mode(&self) -> (r: SpiMode)
        ensures
            r == self@.mode,
    {
        self.mode
    }

    /// The over-read character.
    pub fn orc(&self) -> (r: u8)
        ensures
            r == self@.orc,
    {
        self.orc
    }
}

} // verus!
