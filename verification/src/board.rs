use crate::bus::{Parity, SpiMode, Spim, Uarte};
use crate::button::{Button, Buttons};
use crate::led::{Led, Leds};
use crate::pin::{Level, Pin, PinState, PinV};
use crate::registry::Registry;
use crate::tokens::{is_core, is_device, PeripheralId, TokenBank};
use vstd::prelude::*;

verus! {

// The board's wiring: which physical line each named signal sits on.
// Lines 0..32 are port 0 and lines 32..48 are port 1.
pub const LINE_FLASH_SCK: u8 = 19;

pub const LINE_FLASH_MOSI: u8 = 21;

pub const LINE_FLASH_MISO: u8 = 17;

pub const LINE_FLASH_CS: u8 = 20;

pub const LINE_UART_TX: u8 = 25;

pub const LINE_UART_RX: u8 = 24;

pub const LINE_LED_D3: u8 = 47;

pub const LINE_LED_CONN: u8 = 42;

pub const LINE_BUTTON: u8 = 34;

pub const LINE_RESET: u8 = 18;

pub const LINE_A0: u8 = 4;

pub const LINE_A1: u8 = 5;

pub const LINE_A2: u8 = 30;

pub const LINE_A3: u8 = 28;

pub const LINE_A4: u8 = 2;

pub const LINE_A5: u8 = 3;

pub const LINE_SCK: u8 = 14;

pub const LINE_MOSI: u8 = 13;

pub const LINE_MISO: u8 = 15;

pub const LINE_SCL: u8 = 11;

pub const LINE_SDA: u8 = 12;

pub const LINE_D2: u8 = 10;

pub const LINE_D5: u8 = 40;

pub const LINE_D6: u8 = 7;

pub const LINE_D9: u8 = 26;

pub const LINE_D10: u8 = 27;

pub const LINE_D11: u8 = 6;

pub const LINE_D12: u8 = 8;

pub const LINE_D13: u8 = 41;

/// The on-board SPI flash is clocked at 500 kHz.
pub const SPI_FLASH_FREQUENCY: u32 = 500_000;

/// The USB-bridged UART runs at 115200 baud.
pub const UART_BAUDRATE: u32 = 115_200;

/// The named pins the board leaves to the caller's own wiring. Every pin
/// here is still unconfigured; none of the bus, LED or button lines appears
/// among them.
pub struct Pins {
    /// The reset line. It is owned here so nothing else can claim it;
    /// reconfiguring it forfeits the board's reset function.
    pub reset: Pin,
    pub a0: Pin,
    pub a1: Pin,
    pub a2: Pin,
    pub a3: Pin,
    pub a4: Pin,
    pub a5: Pin,
    pub sck: Pin,
    pub mosi: Pin,
    pub miso: Pin,
    pub scl: Pin,
    pub sda: Pin,
    pub d2: Pin,
    pub d5: Pin,
    pub d6: Pin,
    pub d9: Pin,
    pub d10: Pin,
    pub d11: Pin,
    pub d12: Pin,
    pub d13: Pin,
}

impl Pins {
    /// Every named pin owns its documented line and is still disconnected.
    pub closed spec fn wf(&self) -> bool {
        &&& self.reset@ == (PinV { line: LINE_RESET, state: PinState::Disconnected })
        &&& self.a0@ == (PinV { line: LINE_A0, state: PinState::Disconnected })
        &&& self.a1@ == (PinV { line: LINE_A1, state: PinState::Disconnected })
        &&& self.a2@ == (PinV { line: LINE_A2, state: PinState::Disconnected })
        &&& self.a3@ == (PinV { line: LINE_A3, state: PinState::Disconnected })
        &&& self.a4@ == (PinV { line: LINE_A4, state: PinState::Disconnected })
        &&& self.a5@ == (PinV { line: LINE_A5, state: PinState::Disconnected })
        &&& self.sck@ == (PinV { line: LINE_SCK, state: PinState::Disconnected })
        &&& self.mosi@ == (PinV { line: LINE_MOSI, state: PinState::Disconnected })
        &&& self.miso@ == (PinV { line: LINE_MISO, state: PinState::Disconnected })
        &&& self.scl@ == (PinV { line: LINE_SCL, state: PinState::Disconnected })
        &&& self.sda@ == (PinV { line: LINE_SDA, state: PinState::Disconnected })
        &&& self.d2@ == (PinV { line: LINE_D2, state: PinState::Disconnected })
        &&& self.d5@ == (PinV { line: LINE_D5, state: PinState::Disconnected })
        &&& self.d6@ == (PinV { line: LINE_D6, state: PinState::Disconnected })
        &&& self.d9@ == (PinV { line: LINE_D9, state: PinState::Disconnected })
        &&& self.d10@ == (PinV { line: LINE_D10, state: PinState::Disconnected })
        &&& self.d11@ == (PinV { line: LINE_D11, state: PinState::Disconnected })
        &&& self.d12@ == (PinV { line: LINE_D12, state: PinState::Disconnected })
        &&& self.d13@ == (PinV { line: LINE_D13, state: PinState::Disconnected })
    }
}

/// The peripheral blocks the board hands to the caller untouched: all of
/// them except the GPIO ports, partitioned into pins, and the two bus
/// controllers, consumed by the bus handles.
pub open spec fn retained(id: PeripheralId) -> bool {
    is_core(id) || (is_device(id) && id != PeripheralId::P0 && id != PeripheralId::P1 && id
        != PeripheralId::Uarte0 && id != PeripheralId::Spim2)
}

/// The board handle: the aggregate owning every claimed resource. Its
/// existence is the proof that initialization succeeded; it is the sole
/// capability needed to operate any board feature.
pub struct Board {
    /// The named pins not otherwise occupied, still unconfigured.
    pub pins: Pins,
    /// The UART wired to the USB bridge.
    pub cdc: Uarte,
    /// The SPI bus wired to the on-board flash chip.
    pub flash: Spim,
    /// The flash chip-select line, kept outside the bus handle so the
    /// caller can drive it per transaction. It starts high: deselected.
    pub flash_cs: Pin,
    /// The board's LEDs.
    pub leds: Leds,
    /// The board's buttons.
    pub buttons: Buttons,
    /// The peripheral tokens not consumed by the bus handles or the pin
    /// partition.
    pub tokens: TokenBank,
}

impl Board {
    /// What a freshly constructed board looks like: every named pin on its
    /// documented line and disconnected, both buses configured as the board
    /// wiring requires, the chip-select line deselected, the LEDs off, the
    /// button a pull-up input, and exactly the unconsumed peripheral tokens
    /// in the bank.
    pub open spec fn is_initial(&self) -> bool {
        &&& self.pins.wf()
        &&& self.flash.wf()
        &&& self.flash@.sck == (PinV {
            line: LINE_FLASH_SCK,
            state: PinState::PushPullOutput(Level::Low),
        })
        &&& self.flash@.mosi == Some(
            PinV { line: LINE_FLASH_MOSI, state: PinState::PushPullOutput(Level::Low) },
        )
        &&& self.flash@.miso == Some(
            PinV { line: LINE_FLASH_MISO, state: PinState::FloatingInput },
        )
        &&& self.flash@.frequency == SPI_FLASH_FREQUENCY
        &&& self.flash@.mode == SpiMode::Mode0
        &&& self.flash@.orc == 0
        &&& self.flash_cs@ == (PinV {
            line: LINE_FLASH_CS,
            state: PinState::PushPullOutput(Level::High),
        })
        &&& self.cdc.wf()
        &&& self.cdc@.txd == (PinV {
            line: LINE_UART_TX,
            state: PinState::PushPullOutput(Level::High),
        })
        &&& self.cdc@.rxd == (PinV { line: LINE_UART_RX, state: PinState::FloatingInput })
        &&& self.cdc@.cts is None
        &&& self.cdc@.rts is None
        &&& self.cdc@.parity == Parity::Excluded
        &&& self.cdc@.baudrate == UART_BAUDRATE
        &&& self.leds.d3.wf()
        &&& self.leds.d3@.line == LINE_LED_D3
        &&& !self.leds.d3@.on
        &&& self.leds.conn.wf()
        &&& self.leds.conn@.line == LINE_LED_CONN
        &&& !self.leds.conn@.on
        &&& self.buttons.switch.wf()
        &&& self.buttons.switch@.line == LINE_BUTTON
        &&& self.tokens.wf()
        &&& forall|id: PeripheralId| self.tokens@.contains(id) <==> #[trigger] retained(id)
    }

    /// Takes the board safely: the first call on a fresh registry returns
    /// the fully populated handle, and every later call returns nothing, so
    /// at most one handle is ever produced this way per registry.
    pub fn take(registry: &mut Registry) -> (r: Option<Board>)
        ensures
            r is Some <==> (!old(registry)@.core_taken && !old(registry)@.device_taken),
            final(registry)@.core_taken,
            final(registry)@.device_taken == (old(registry)@.device_taken || !old(
                registry,
            )@.core_taken),
            (match r {
                Some(b) => b.is_initial(),
                None => true,
            }),
    {
        match registry.take_core() {
            None => None,
            Some(core) => match registry.take_device() {
                None => None,
                Some(device) => Some(Board::new(core, device)),
            },
        }
    }

    /// Builds a board regardless of whether the registry's sets were
    /// already handed out.
    ///
    /// The caller accepts the risk: calling this more than once, or
    /// combining it with `take`, yields several live handles to the same
    /// physical pins and peripherals, and the caller must show by
    /// construction that their program never uses two at once.
    pub fn steal(registry: &mut Registry) -> (r: Board)
        ensures
            final(registry)@.core_taken,
            final(registry)@.device_taken,
            r.is_initial(),
    {
        let core = registry.steal_core();
        let device = registry.steal_device();
        Board::new(core, device)
    }

    /// Builds the board from the two freshly granted token sets: partitions
    /// the GPIO ports into named pins, configures and wraps the bus, LED
    /// and button lines, and collects everything else untouched.
    fn new(core: TokenBank, device: TokenBank) -> (r: Board)
        requires
            core.wf(),
            forall|id: PeripheralId| core@.contains(id) <==> #[trigger] is_core(id),
            device.wf(),
            forall|id: PeripheralId| device@.contains(id) <==> #[trigger] is_device(id),
        ensures
            r.is_initial(),
    {
        let mut device = device;
        proof {
            assert(is_device(PeripheralId::P0));
            assert(is_device(PeripheralId::P1));
            assert(is_device(PeripheralId::Uarte0));
            assert(is_device(PeripheralId::Spim2));
        }
        let p0 = device.take_present(PeripheralId::P0);
        let p1 = device.take_present(PeripheralId::P1);
        let uarte0 = device.take_present(PeripheralId::Uarte0);
        let spim2 = device.take_present(PeripheralId::Spim2);

        // The SPI bus to the on-board flash chip: clock and data-out driven
        // low, data-in floating, a fixed 500 kHz clock and transfer mode 0,
        // no over-read character.
        let sck = Pin::claim(&p0, LINE_FLASH_SCK).into_push_pull_output(Level::Low);
        let mosi = Pin::claim(&p0, LINE_FLASH_MOSI).into_push_pull_output(Level::Low);
        let miso = Pin::claim(&p0, LINE_FLASH_MISO).into_floating_input();
        let flash = Spim::new(
            spim2,
            sck,
            Some(mosi),
            Some(miso),
            SPI_FLASH_FREQUENCY,
            SpiMode::Mode0,
            0,
        );

        // The flash chip-select, driven high: deselected until the caller
        // starts a transaction.
        let flash_cs = Pin::claim(&p0, LINE_FLASH_CS).into_push_pull_output(Level::High);

        // The USB-bridged UART: transmit driven high (idle), receive
        // floating, no flow control, no parity, 115200 baud.
        let txd = Pin::claim(&p0, LINE_UART_TX).into_push_pull_output(Level::High);
        let rxd = Pin::claim(&p0, LINE_UART_RX).into_floating_input();
        let cdc = Uarte::new(uarte0, txd, rxd, None, None, Parity::Excluded, UART_BAUDRATE);

        // The LEDs start off; the button line gets its pull-up.
        let leds = Leds {
            d3: Led::new(Pin::claim(&p1, LINE_LED_D3)),
            conn: Led::new(Pin::claim(&p1, LINE_LED_CONN)),
        };
        let buttons = Buttons { switch: Button::new(Pin::claim(&p1, LINE_BUTTON)) };

        // Every line not claimed above stays available, unconfigured.
        let pins = Pins {
            reset: Pin::claim(&p0, LINE_RESET),
            a0: Pin::claim(&p0, LINE_A0),
            a1: Pin::claim(&p0, LINE_A1),
            a2: Pin::claim(&p0, LINE_A2),
            a3: Pin::claim(&p0, LINE_A3),
            a4: Pin::claim(&p0, LINE_A4),
            a5: Pin::claim(&p0, LINE_A5),
            sck: Pin::claim(&p0, LINE_SCK),
            mosi: Pin::claim(&p0, LINE_MOSI),
            miso: Pin::claim(&p0, LINE_MISO),
            scl: Pin::claim(&p0, LINE_SCL),
            sda: Pin::claim(&p0, LINE_SDA),
            d2: Pin::claim(&p0, LINE_D2),
            d5: Pin::claim(&p1, LINE_D5),
            d6: Pin::claim(&p0, LINE_D6),
            d9: Pin::claim(&p0, LINE_D9),
            d10: Pin::claim(&p0, LINE_D10),
            d11: Pin::claim(&p0, LINE_D11),
            d12: Pin::claim(&p0, LINE_D12),
            d13: Pin::claim(&p1, LINE_D13),
        };

        // Everything not consumed above goes to the caller in one bank.
        let mut tokens = core;
        proof {
            assert forall|id: PeripheralId| tokens@.contains(id) implies !device@.contains(
                id,
            ) by {
                assert(is_core(id));
                assert(!is_device(id));
            }
        }
        tokens.absorb(device);
        let board = Board { pins, cdc, flash, flash_cs, leds, buttons, tokens };
        proof {
            assert forall|id: PeripheralId|
                board.tokens@.contains(id) <==> #[trigger] retained(id) by {}
        }
        board
    }
}

/// The lines claimed by the bus, chip-select, LED and button handles.
pub open spec fn claimed_line(l: u8) -> bool {
    l == LINE_FLASH_SCK || l == LINE_FLASH_MOSI || l == LINE_FLASH_MISO || l == LINE_FLASH_CS || l
        == LINE_UART_TX || l == LINE_UART_RX || l == LINE_LED_D3 || l == LINE_LED_CONN || l
        == LINE_BUTTON
}

/// The lines of the named pins the board leaves to the caller.
pub open spec fn unclaimed_line(l: u8) -> bool {
    l == LINE_RESET || l == LINE_A0 || l == LINE_A1 || l == LINE_A2 || l == LINE_A3 || l == LINE_A4
        || l == LINE_A5 || l == LINE_SCK || l == LINE_MOSI || l == LINE_MISO || l == LINE_SCL || l
        == LINE_SDA || l == LINE_D2 || l == LINE_D5 || l == LINE_D6 || l == LINE_D9 || l
        == LINE_D10 || l == LINE_D11 || l == LINE_D12 || l == LINE_D13
}

/// After construction the claimed and unclaimed pins partition cleanly: no
/// line is both, every pin in the exposed aggregate sits on an unclaimed
/// line and is still disconnected, and every bus, chip-select, LED and
/// button handle sits on a claimed line.
pub proof fn lemma_pin_partition(b: &Board)
    requires
        b.is_initial(),
    ensures
        forall|l: u8| !(claimed_line(l) && unclaimed_line(l)),
        unclaimed_line(b.pins.a0@.line) && b.pins.a0@.state == PinState::Disconnected,
        unclaimed_line(b.pins.a1@.line) && b.pins.a1@.state == PinState::Disconnected,
        unclaimed_line(b.pins.a2@.line) && b.pins.a2@.state == PinState::Disconnected,
        unclaimed_line(b.pins.a3@.line) && b.pins.a3@.state == PinState::Disconnected,
        unclaimed_line(b.pins.a4@.line) && b.pins.a4@.state == PinState::Disconnected,
        unclaimed_line(b.pins.a5@.line) && b.pins.a5@.state == PinState::Disconnected,
        unclaimed_line(b.pins.sck@.line) && b.pins.sck@.state == PinState::Disconnected,
        unclaimed_line(b.pins.mosi@.line) && b.pins.mosi@.state == PinState::Disconnected,
        unclaimed_line(b.pins.miso@.line) && b.pins.miso@.state == PinState::Disconnected,
        unclaimed_line(b.pins.scl@.line) && b.pins.scl@.state == PinState::Disconnected,
        unclaimed_line(b.pins.sda@.line) && b.pins.sda@.state == PinState::Disconnected,
        unclaimed_line(b.pins.d2@.line) && b.pins.d2@.state == PinState::Disconnected,
        unclaimed_line(b.pins.d5@.line) && b.pins.d5@.state == PinState::Disconnected,
        unclaimed_line(b.pins.d6@.line) && b.pins.d6@.state == PinState::Disconnected,
        unclaimed_line(b.pins.d9@.line) && b.pins.d9@.state == PinState::Disconnected,
        unclaimed_line(b.pins.d10@.line) && b.pins.d10@.state == PinState::Disconnected,
        unclaimed_line(b.pins.d11@.line) && b.pins.d11@.state == PinState::Disconnected,
        unclaimed_line(b.pins.d12@.line) && b.pins.d12@.state == PinState::Disconnected,
        unclaimed_line(b.pins.d13@.line) && b.pins.d13@.state == PinState::Disconnected,
        claimed_line(b.flash@.sck.line),
        (match b.flash@.mosi {
            Some(p) => claimed_line(p.line),
            None => false,
        }),
        (match b.flash@.miso {
            Some(p) => claimed_line(p.line),
            None => false,
        }),
        claimed_line(b.flash_cs@.line),
        claimed_line(b.cdc@.txd.line),
        claimed_line(b.cdc@.rxd.line),
        claimed_line(b.leds.d3@.line),
        claimed_line(b.leds.conn@.line),
        claimed_line(b.buttons.switch@.line),
{
}

/// The blocks consumed during construction — the two GPIO ports and the
/// two bus controllers — are exactly the ones missing from the board's
/// token bank; every other block's token is there.
pub proof fn lemma_consumed_blocks(b: &Board)
    requires
        b.is_initial(),
    ensures
        !b.tokens@.contains(PeripheralId::P0),
        !b.tokens@.contains(PeripheralId::P1),
        !b.tokens@.contains(PeripheralId::Uarte0),
        !b.tokens@.contains(PeripheralId::Spim2),
        forall|id: PeripheralId|
            (is_core(id) || is_device(id)) && !(id == PeripheralId::P0 || id == PeripheralId::P1
                || id == PeripheralId::Uarte0 || id == PeripheralId::Spim2)
                ==> #[trigger] b.tokens@.contains(id),
{
    assert(!retained(PeripheralId::P0));
    assert(!retained(PeripheralId::P1));
    assert(!retained(PeripheralId::Uarte0));
    assert(!retained(PeripheralId::Spim2));
    assert forall|id: PeripheralId|
        (is_core(id) || is_device(id)) && !(id == PeripheralId::P0 || id == PeripheralId::P1 || id
            == PeripheralId::Uarte0 || id == PeripheralId::Spim2) implies #[trigger] b.tokens@.contains(
        id,
    ) by {
        assert(retained(id));
    }
}

} // verus!
