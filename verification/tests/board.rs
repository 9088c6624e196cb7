use feather_express::board::Board;
use feather_express::pin::{Level, PinState};
use feather_express::registry::Registry;
use feather_express::tokens::PeripheralId;
use feather_express::bus::{Parity, SpiMode};

#[test]
fn take_succeeds_exactly_once() {
    let mut registry = Registry::new();
    let first = Board::take(&mut registry);
    assert!(first.is_some());
    let second = Board::take(&mut registry);
    assert!(second.is_none());
    let third = Board::take(&mut registry);
    assert!(third.is_none());
}

#[test]
fn first_take_yields_a_populated_board() {
    let mut registry = Registry::new();
    let board = Board::take(&mut registry).unwrap();
    assert!(board.leds.d3.is_off());
    assert!(board.leds.conn.is_off());
    assert_eq!(board.buttons.switch.line(), 34);
    assert!(board.tokens.contains(PeripheralId::Timer0));
}

#[test]
fn steal_always_succeeds() {
    let mut registry = Registry::new();
    let first = Board::take(&mut registry);
    assert!(first.is_some());
    let stolen = Board::steal(&mut registry);
    assert!(stolen.leds.d3.is_off());
    let stolen_again = Board::steal(&mut registry);
    assert!(stolen_again.leds.conn.is_off());
}

#[test]
fn take_after_steal_yields_nothing() {
    let mut registry = Registry::new();
    let _stolen = Board::steal(&mut registry);
    assert!(Board::take(&mut registry).is_none());
}

#[test]
fn registry_flags_follow_acquisition() {
    let mut registry = Registry::new();
    assert!(!registry.core_taken());
    assert!(!registry.device_taken());
    let _board = Board::take(&mut registry);
    assert!(registry.core_taken());
    assert!(registry.device_taken());
}

#[test]
fn named_pins_start_disconnected() {
    let mut registry = Registry::new();
    let board = Board::take(&mut registry).unwrap();
    let pins = &board.pins;
    let named = [
        (&pins.reset, 18u8),
        (&pins.a0, 4),
        (&pins.a1, 5),
        (&pins.a2, 30),
        (&pins.a3, 28),
        (&pins.a4, 2),
        (&pins.a5, 3),
        (&pins.sck, 14),
        (&pins.mosi, 13),
        (&pins.miso, 15),
        (&pins.scl, 11),
        (&pins.sda, 12),
        (&pins.d2, 10),
        (&pins.d5, 40),
        (&pins.d6, 7),
        (&pins.d9, 26),
        (&pins.d10, 27),
        (&pins.d11, 6),
        (&pins.d12, 8),
        (&pins.d13, 41),
    ];
    for (pin, line) in named {
        assert_eq!(pin.line(), line);
        assert_eq!(pin.state(), PinState::Disconnected);
    }
}

#[test]
fn claimed_and_unclaimed_lines_are_disjoint() {
    let mut registry = Registry::new();
    let board = Board::take(&mut registry).unwrap();
    let claimed = [
        board.flash.sck().line(),
        board.flash.mosi().as_ref().unwrap().line(),
        board.flash.miso().as_ref().unwrap().line(),
        board.flash_cs.line(),
        board.cdc.txd().line(),
        board.cdc.rxd().line(),
        board.leds.d3.line(),
        board.leds.conn.line(),
        board.buttons.switch.line(),
    ];
    let unclaimed = [
        board.pins.reset.line(),
        board.pins.a0.line(),
        board.pins.a1.line(),
        board.pins.a2.line(),
        board.pins.a3.line(),
        board.pins.a4.line(),
        board.pins.a5.line(),
        board.pins.sck.line(),
        board.pins.mosi.line(),
        board.pins.miso.line(),
        board.pins.scl.line(),
        board.pins.sda.line(),
        board.pins.d2.line(),
        board.pins.d5.line(),
        board.pins.d6.line(),
        board.pins.d9.line(),
        board.pins.d10.line(),
        board.pins.d11.line(),
        board.pins.d12.line(),
        board.pins.d13.line(),
    ];
    for c in claimed {
        for u in unclaimed {
            assert_ne!(c, u);
        }
    }
}

#[test]
fn led_d3_toggles() {
    let mut registry = Registry::new();
    let mut board = Board::take(&mut registry).unwrap();
    board.leds.d3.enable();
    assert!(board.leds.d3.is_on());
    assert!(!board.leds.d3.is_off());
    board.leds.d3.disable();
    assert!(!board.leds.d3.is_on());
    assert!(board.leds.d3.is_off());
}

#[test]
fn led_observations_are_complements_along_any_sequence() {
    let mut registry = Registry::new();
    let mut board = Board::take(&mut registry).unwrap();
    assert!(!board.leds.conn.is_on());
    assert!(board.leds.conn.is_off());
    board.leds.conn.enable();
    board.leds.conn.enable();
    assert!(board.leds.conn.is_on());
    assert!(!board.leds.conn.is_off());
    board.leds.conn.disable();
    board.leds.conn.disable();
    assert!(!board.leds.conn.is_on());
    assert!(board.leds.conn.is_off());
    board.leds.conn.disable();
    board.leds.conn.enable();
    assert!(board.leds.conn.is_on());
    assert!(!board.leds.conn.is_off());
}

#[test]
fn button_is_active_low_and_pure() {
    let mut registry = Registry::new();
    let board = Board::take(&mut registry).unwrap();
    let switch = &board.buttons.switch;
    assert!(switch.is_pressed(Level::Low));
    assert!(!switch.is_released(Level::Low));
    assert!(!switch.is_pressed(Level::High));
    assert!(switch.is_released(Level::High));
    // Re-sampling the same level gives identical answers.
    assert_eq!(switch.is_pressed(Level::Low), switch.is_pressed(Level::Low));
    assert_eq!(switch.is_released(Level::High), switch.is_released(Level::High));
}

#[test]
fn flash_chip_select_starts_deselected() {
    let mut registry = Registry::new();
    let board = Board::take(&mut registry).unwrap();
    assert_eq!(board.flash_cs.line(), 20);
    assert_eq!(board.flash_cs.state(), PinState::PushPullOutput(Level::High));
}

#[test]
fn uart_transmit_idles_high() {
    let mut registry = Registry::new();
    let board = Board::take(&mut registry).unwrap();
    assert_eq!(board.cdc.txd().line(), 25);
    assert_eq!(board.cdc.txd().state(), PinState::PushPullOutput(Level::High));
    assert_eq!(board.cdc.rxd().line(), 24);
    assert_eq!(board.cdc.rxd().state(), PinState::FloatingInput);
    assert_eq!(board.cdc.parity(), Parity::Excluded);
    assert_eq!(board.cdc.baudrate(), 115_200);
}

#[test]
fn spi_flash_bus_is_configured_for_the_flash_chip() {
    let mut registry = Registry::new();
    let board = Board::take(&mut registry).unwrap();
    assert_eq!(board.flash.sck().line(), 19);
    assert_eq!(board.flash.sck().state(), PinState::PushPullOutput(Level::Low));
    let mosi = board.flash.mosi().as_ref().unwrap();
    assert_eq!(mosi.line(), 21);
    assert_eq!(mosi.state(), PinState::PushPullOutput(Level::Low));
    let miso = board.flash.miso().as_ref().unwrap();
    assert_eq!(miso.line(), 17);
    assert_eq!(miso.state(), PinState::FloatingInput);
    assert_eq!(board.flash.frequency(), 500_000);
    assert_eq!(board.flash.mode(), SpiMode::Mode0);
    assert_eq!(board.flash.orc(), 0);
}

#[test]
fn consumed_blocks_are_not_in_the_token_bank() {
    let mut registry = Registry::new();
    let board = Board::take(&mut registry).unwrap();
    assert!(!board.tokens.contains(PeripheralId::P0));
    assert!(!board.tokens.contains(PeripheralId::P1));
    assert!(!board.tokens.contains(PeripheralId::Uarte0));
    assert!(!board.tokens.contains(PeripheralId::Spim2));
    assert!(board.tokens.contains(PeripheralId::Rng));
    assert!(board.tokens.contains(PeripheralId::Radio));
    assert!(board.tokens.contains(PeripheralId::Nvic));
    assert!(board.tokens.contains(PeripheralId::I2s));
}

#[test]
fn a_token_can_be_taken_at_most_once() {
    let mut registry = Registry::new();
    let mut board = Board::take(&mut registry).unwrap();
    let rng = board.tokens.take(PeripheralId::Rng);
    assert_eq!(rng.unwrap().id(), PeripheralId::Rng);
    assert!(board.tokens.take(PeripheralId::Rng).is_none());
    assert!(!board.tokens.contains(PeripheralId::Rng));
    assert!(board.tokens.contains(PeripheralId::Temp));
}
