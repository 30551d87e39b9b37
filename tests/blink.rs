use std::cell::Cell;

use blinky::board::{Board, Family, PinSpec, Polarity, Port};
use blinky::control::{delay, initial_state, step, LedState, LONG_DELAY, SHORT_DELAY};
use blinky::device::{initialize, PeripheralSlot, ResourceAlreadyTaken};
use blinky::init::{field_op, init_f1, init_f4, init_nrf52, init_ops, GPIOAEN, GPIOCEN, IOPAEN, IOPCEN};
use blinky::led::led_write;
use blinky::regs::{RegOp, Register, RegisterFile};

const ALL_BOARDS: [Board; 4] = [Board::NucleoF411, Board::BlackPill, Board::BluePill, Board::Nrf52840];

fn brought_up(board: Board, start: u32) -> (blinky::device::Peripherals, RegisterFile) {
    let mut slot = PeripheralSlot::new();
    let (p, ops) = initialize(&mut slot, board).unwrap();
    let mut regs = RegisterFile::new(start);
    regs.apply_all(&ops);
    (p, regs)
}

#[test]
fn second_initialize_fails_on_every_board() {
    for board in ALL_BOARDS {
        let mut slot = PeripheralSlot::new();
        assert!(!slot.is_taken());
        let first = initialize(&mut slot, board);
        assert!(first.is_ok());
        assert!(slot.is_taken());
        let second = initialize(&mut slot, board);
        assert!(matches!(second, Err(ResourceAlreadyTaken)));
        assert!(slot.is_taken());
    }
}

#[test]
fn initialize_returns_handle_for_board() {
    let mut slot = PeripheralSlot::new();
    let (p, ops) = initialize(&mut slot, Board::BlackPill).unwrap();
    assert_eq!(p.board(), Board::BlackPill);
    assert_eq!(ops, init_ops(Board::BlackPill));
}

#[test]
fn nucleo_led_pin_is_low_speed_push_pull_output() {
    for start in [0u32, 0xffff_ffff, 0xa800_0000] {
        let (_, regs) = brought_up(Board::NucleoF411, start);
        assert_eq!((regs.read(Register::Moder(Port::A)) >> 10) & 3, 1);
        assert_eq!((regs.read(Register::Otyper(Port::A)) >> 5) & 1, 0);
        assert_eq!((regs.read(Register::Ospeedr(Port::A)) >> 10) & 3, 0);
        // the clock-output pins PA8 and PC9 are very-high-speed alternate function pins
        assert_eq!((regs.read(Register::Moder(Port::A)) >> 16) & 3, 2);
        assert_eq!((regs.read(Register::Ospeedr(Port::A)) >> 16) & 3, 3);
        assert_eq!((regs.read(Register::Moder(Port::C)) >> 18) & 3, 2);
        assert_eq!((regs.read(Register::Otyper(Port::C)) >> 9) & 1, 0);
    }
}

#[test]
fn black_pill_led_pin_is_low_speed_push_pull_output() {
    for start in [0u32, 0xffff_ffff] {
        let (_, regs) = brought_up(Board::BlackPill, start);
        assert_eq!((regs.read(Register::Moder(Port::C)) >> 26) & 3, 1);
        assert_eq!((regs.read(Register::Otyper(Port::C)) >> 13) & 1, 0);
        assert_eq!((regs.read(Register::Ospeedr(Port::C)) >> 26) & 3, 0);
    }
}

#[test]
fn blue_pill_led_pin_is_low_speed_push_pull_output() {
    for start in [0u32, 0x4444_4444, 0xffff_ffff] {
        let (_, regs) = brought_up(Board::BluePill, start);
        assert_eq!((regs.read(Register::Crh(Port::C)) >> 20) & 15, 2);
        assert_eq!(regs.read(Register::Crl(Port::C)), start);
        assert_ne!(regs.read(Register::Apb2Enr) & IOPCEN, 0);
    }
    let (_, regs) = brought_up(Board::BluePill, 0x4444_4444);
    assert_eq!(regs.read(Register::Crh(Port::C)), 0x4424_4444);
}

#[test]
fn f1_pin_below_eight_uses_low_configuration_register() {
    let pin = PinSpec { port: Port::A, index: 3, polarity: Polarity::ActiveHigh };
    let ops = init_f1(pin);
    assert_eq!(
        ops,
        vec![
            RegOp::Modify { reg: Register::Apb2Enr, mask: IOPAEN, bits: IOPAEN },
            RegOp::Modify { reg: Register::Crl(Port::A), mask: 0xf000, bits: 0x2000 },
        ]
    );
    let pin = PinSpec { port: Port::C, index: 8, polarity: Polarity::ActiveLow };
    let ops = init_f1(pin);
    assert_eq!(ops[1], RegOp::Modify { reg: Register::Crh(Port::C), mask: 0xf, bits: 0x2 });
}

#[test]
fn f4_bring_up_sequence() {
    let pin = PinSpec { port: Port::A, index: 5, polarity: Polarity::ActiveHigh };
    let ops = init_f4(pin);
    assert_eq!(ops.len(), 11);
    assert_eq!(ops[0], RegOp::Modify { reg: Register::Ahb1Enr, mask: 5, bits: 5 });
    assert_eq!(ops[7], RegOp::Modify { reg: Register::Cfgr, mask: 0xff60_0000, bits: 0x3f00_0000 });
    assert_eq!(ops[10], RegOp::Modify { reg: Register::Moder(Port::A), mask: 0xc00, bits: 0x400 });
}

#[test]
fn clock_output_configuration_in_cfgr() {
    let (_, regs) = brought_up(Board::NucleoF411, 0);
    let cfgr = regs.read(Register::Cfgr);
    assert_eq!((cfgr >> 21) & 3, 0); // MCO1 = HSI
    assert_eq!((cfgr >> 24) & 7, 7); // MCO1PRE = divide by 5
    assert_eq!((cfgr >> 27) & 7, 7); // MCO2PRE = divide by 5
    assert_eq!((cfgr >> 30) & 3, 0); // MCO2 = SYSCLK
}

#[test]
fn bring_up_keeps_i2s_clock_source_and_other_cfgr_bits() {
    let (_, regs) = brought_up(Board::NucleoF411, 0x0080_0000);
    assert_eq!(regs.read(Register::Cfgr), 0x3f80_0000);
    let (_, regs) = brought_up(Board::BlackPill, 0xffff_ffff);
    let cfgr = regs.read(Register::Cfgr);
    assert_eq!(cfgr & 0x009f_ffff, 0x009f_ffff);
    assert_eq!(cfgr, 0x3f9f_ffff);
}

#[test]
fn nrf52_initialize_touches_no_register() {
    assert!(init_nrf52().is_empty());
    let mut slot = PeripheralSlot::new();
    let (p, ops) = initialize(&mut slot, Board::Nrf52840).unwrap();
    assert!(ops.is_empty());
    assert_eq!(blinky::device::set(&p, true), None);
    assert_eq!(Board::Nrf52840.led(), None);
    assert_eq!(Board::Nrf52840.family(), Family::Nrf52840);
}

#[test]
fn on_then_off_leaves_off_level_last() {
    // active-high: off is a reset write
    let (p, mut regs) = brought_up(Board::NucleoF411, 0);
    regs.apply(blinky::device::set(&p, true).unwrap());
    regs.apply(blinky::device::set(&p, false).unwrap());
    assert_eq!(regs.pin_writes(Port::A), vec![1u32 << 5, 1u32 << 21]);
    // active-low: off is a set write
    let (p, mut regs) = brought_up(Board::BlackPill, 0);
    regs.apply(blinky::device::set(&p, true).unwrap());
    regs.apply(blinky::device::set(&p, false).unwrap());
    assert_eq!(regs.pin_writes(Port::C).last(), Some(&(1u32 << 13)));
}

#[test]
fn blue_pill_on_off_on_write_sequence() {
    let (p, mut regs) = brought_up(Board::BluePill, 0);
    for on in [true, false, true] {
        regs.apply(blinky::device::set(&p, on).unwrap());
    }
    assert_eq!(regs.pin_writes(Port::C), vec![1u32 << 29, 1u32 << 13, 1u32 << 29]);
    assert!(regs.pin_writes(Port::A).is_empty());
}

#[test]
fn black_pill_on_off_on_write_sequence() {
    let (p, mut regs) = brought_up(Board::BlackPill, 0);
    for on in [true, false, true] {
        regs.apply(blinky::device::set(&p, on).unwrap());
    }
    assert_eq!(regs.pin_writes(Port::C), vec![0x2000_0000, 0x2000, 0x2000_0000]);
}

#[test]
fn nucleo_clocks_enabled_before_led_write() {
    let (p, mut regs) = brought_up(Board::NucleoF411, 0);
    let ops = init_ops(Board::NucleoF411);
    regs.apply(blinky::device::set(&p, true).unwrap());
    let ahb = regs.read(Register::Ahb1Enr);
    assert_ne!(ahb & GPIOAEN, 0);
    assert_ne!(ahb & GPIOCEN, 0);
    assert!(matches!(ops[0], RegOp::Modify { reg: Register::Ahb1Enr, .. }));
    for op in &ops[1..] {
        assert!(!matches!(op, RegOp::Modify { reg: Register::Ahb1Enr, .. }));
    }
    assert_eq!(regs.pin_writes(Port::A), vec![1u32 << 5]);
}

#[test]
fn led_write_words() {
    let high = PinSpec { port: Port::A, index: 5, polarity: Polarity::ActiveHigh };
    let low = PinSpec { port: Port::C, index: 13, polarity: Polarity::ActiveLow };
    assert_eq!(led_write(high, true), RegOp::Write { reg: Register::Bsrr(Port::A), value: 0x20 });
    assert_eq!(led_write(high, false), RegOp::Write { reg: Register::Bsrr(Port::A), value: 0x20_0000 });
    assert_eq!(led_write(low, true), RegOp::Write { reg: Register::Bsrr(Port::C), value: 0x2000_0000 });
    assert_eq!(led_write(low, false), RegOp::Write { reg: Register::Bsrr(Port::C), value: 0x2000 });
    let top = PinSpec { port: Port::A, index: 15, polarity: Polarity::ActiveHigh };
    assert_eq!(led_write(top, false), RegOp::Write { reg: Register::Bsrr(Port::A), value: 0x8000_0000 });
}

#[test]
fn field_op_shifts_mask_and_value() {
    assert_eq!(
        field_op(Register::Ospeedr(Port::C), 30, 3, 1),
        RegOp::Modify { reg: Register::Ospeedr(Port::C), mask: 0xc000_0000, bits: 0x4000_0000 }
    );
    assert_eq!(
        field_op(Register::Otyper(Port::A), 0, 1, 0),
        RegOp::Modify { reg: Register::Otyper(Port::A), mask: 1, bits: 0 }
    );
}

#[test]
fn register_file_modify_and_write() {
    let mut regs = RegisterFile::new(0xffff_00ff);
    regs.apply(RegOp::Modify { reg: Register::Moder(Port::A), mask: 0xf0, bits: 0x30 });
    assert_eq!(regs.read(Register::Moder(Port::A)), 0xffff_003f);
    assert_eq!(regs.read(Register::Moder(Port::C)), 0xffff_00ff);
    regs.apply(RegOp::Write { reg: Register::Bsrr(Port::C), value: 4 });
    assert_eq!(regs.read(Register::Bsrr(Port::C)), 4);
    assert_eq!(regs.pin_writes(Port::C), vec![4]);
}

#[test]
fn delay_zero_executes_no_instruction() {
    let calls = Cell::new(0u32);
    let executed = delay(0, |_| calls.set(calls.get() + 1));
    assert_eq!(executed, 0);
    assert_eq!(calls.get(), 0);
}

#[test]
fn delay_executes_requested_count() {
    let calls = Cell::new(0u32);
    let last = Cell::new(u32::MAX);
    assert_eq!(
        delay(7, |k| {
            assert_eq!(k, calls.get());
            calls.set(calls.get() + 1);
            last.set(k);
        }),
        7
    );
    assert_eq!(calls.get(), 7);
    assert_eq!(last.get(), 6);
    let more = Cell::new(0u32);
    assert_eq!(delay(1000, |_| more.set(more.get() + 1)), 1000);
    assert!(more.get() >= calls.get());
}

#[test]
fn blink_loop_alternates() {
    let s0 = initial_state();
    assert_eq!(s0, LedState::Off);
    let a = step(s0);
    assert_eq!((a.next, a.led_on, a.wait), (LedState::On, true, SHORT_DELAY));
    let b = step(a.next);
    assert_eq!((b.next, b.led_on, b.wait), (LedState::Off, false, LONG_DELAY));
    assert_eq!(SHORT_DELAY, 200000);
    assert_eq!(LONG_DELAY, 800000);
}

#[test]
fn board_pins() {
    assert_eq!(Board::NucleoF411.led(), Some(PinSpec { port: Port::A, index: 5, polarity: Polarity::ActiveHigh }));
    assert_eq!(Board::BluePill.led(), Some(PinSpec { port: Port::C, index: 13, polarity: Polarity::ActiveLow }));
    assert_eq!(Board::BlackPill.family(), Family::Stm32F4);
    assert_eq!(Board::BluePill.family(), Family::Stm32F1);
}
