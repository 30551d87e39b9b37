use vstd::prelude::*;
use crate::board::{Board, Family, PinSpec, Port, board_family, board_led, pin_valid};
use crate::regs::{RegOp, Register};

verus! {

/// MODER value: general-purpose output.
pub const MODE_OUTPUT: u32 = 1;
/// MODER value: alternate function.
pub const MODE_ALTERNATE: u32 = 2;
/// OTYPER value: push-pull.
pub const OTYPE_PUSH_PULL: u32 = 0;
/// OSPEEDR value: low speed.
pub const SPEED_LOW: u32 = 0;
/// OSPEEDR value: very high speed.
pub const SPEED_VERY_HIGH: u32 = 3;
/// CRL/CRH nibble: push-pull output (CNF = 00) at low speed, 2 MHz (MODE = 10).
pub const CONF_OUTPUT_LOW_SPEED: u32 = 2;

/// AHB1ENR bit enabling the clock of GPIO port A.
pub const GPIOAEN: u32 = 1;
/// AHB1ENR bit enabling the clock of GPIO port C.
pub const GPIOCEN: u32 = 4;
/// APB2ENR bit enabling the clock of I/O port A.
pub const IOPAEN: u32 = 4;
/// APB2ENR bit enabling the clock of I/O port C.
pub const IOPCEN: u32 = 16;

/// CFGR fields for the two clock outputs: MCO1 (bits 21..23), MCO1PRE
/// (bits 24..27), MCO2PRE (bits 27..30), MCO2 (bits 30..32). Bit 23, the
/// I2S clock source, is not among them and keeps its value.
pub const MCO_MASK: u32 = 0xff60_0000;
/// MCO1 = HSI, MCO1PRE = divide by 5, MCO2PRE = divide by 5, MCO2 = SYSCLK.
pub const MCO_BITS: u32 = 0x3f00_0000;

/// Sets the field of `reg` selected by `field_mask` at `shift` to `value`.
pub open spec fn field_write(reg: Register, shift: u32, field_mask: u32, value: u32) -> RegOp {
    RegOp::Modify { reg, mask: field_mask << shift, bits: value << shift }
}

/// The operations that put pin `index` of `port` in a given output type,
/// speed and mode, on an STM32F4.
pub open spec fn f4_pin_ops(port: Port, index: u32, speed: u32, mode: u32) -> Seq<RegOp> {
    seq![
        field_write(Register::Otyper(port), index, 1, OTYPE_PUSH_PULL),
        field_write(Register::Ospeedr(port), (2 * index) as u32, 3, speed),
        field_write(Register::Moder(port), (2 * index) as u32, 3, mode),
    ]
}

/// STM32F4 bring-up: clocks of ports A and C on; PA8 (MCO1) and PC9 (MCO2)
/// as very-high-speed push-pull alternate-function pins; the clock outputs
/// chosen; then the LED pin as a low-speed push-pull output.
pub open spec fn f4_ops(led: PinSpec) -> Seq<RegOp> {
    seq![RegOp::Modify { reg: Register::Ahb1Enr, mask: GPIOAEN | GPIOCEN, bits: GPIOAEN | GPIOCEN }]
        + f4_pin_ops(Port::A, 8, SPEED_VERY_HIGH, MODE_ALTERNATE)
        + f4_pin_ops(Port::C, 9, SPEED_VERY_HIGH, MODE_ALTERNATE)
        + seq![RegOp::Modify { reg: Register::Cfgr, mask: MCO_MASK, bits: MCO_BITS }]
        + f4_pin_ops(led.port, led.index, SPEED_LOW, MODE_OUTPUT)
}

pub open spec fn f1_clock_bit(port: Port) -> u32 {
    if port == Port::A { IOPAEN } else { IOPCEN }
}

/// The STM32F1 configuration register that holds pin `index`: CRL for pins
/// below 8, CRH for the others.
pub open spec fn f1_config_register(port: Port, index: u32) -> Register {
    if index < 8 { Register::Crl(port) } else { Register::Crh(port) }
}

/// STM32F1 bring-up: clock of the LED's port on, then the LED pin as a
/// low-speed push-pull output.
pub open spec fn f1_ops(led: PinSpec) -> Seq<RegOp> {
    seq![
        RegOp::Modify { reg: Register::Apb2Enr, mask: f1_clock_bit(led.port), bits: f1_clock_bit(led.port) },
        field_write(f1_config_register(led.port, led.index), (4 * (led.index % 8)) as u32, 15, CONF_OUTPUT_LOW_SPEED),
    ]
}

/// The register operations that bring `board` up.
pub open spec fn board_init_ops(board: Board) -> Seq<RegOp> {
    match (board_family(board), board_led(board)) {
        (Family::Stm32F4, Some(led)) => f4_ops(led),
        (Family::Stm32F1, Some(led)) => f1_ops(led),
        _ => Seq::empty(),
    }
}

/// The operation that sets one field of a register, leaving its other bits.
pub fn field_op(reg: Register, shift: u32, field_mask: u32, value: u32) -> (r: RegOp)
    requires
        shift < 32,
    ensures
        r == field_write(reg, shift, field_mask, value),
{
    RegOp::Modify { reg, mask: field_mask << shift, bits: value << shift }
}

fn push_f4_pin_ops(ops: &mut Vec<RegOp>, port: Port, index: u32, speed: u32, mode: u32)
    requires
        index < 16,
    ensures
        final(ops)@ == old(ops)@ + f4_pin_ops(port, index, speed, mode),
{
    ops.push(field_op(Register::Otyper(port), index, 1, OTYPE_PUSH_PULL));
    ops.push(field_op(Register::Ospeedr(port), 2 * index, 3, speed));
    ops.push(field_op(Register::Moder(port), 2 * index, 3, mode));
    assert(ops@ =~= old(ops)@ + f4_pin_ops(port, index, speed, mode));
}

/// STM32F4 bring-up for an LED on `led`.
pub fn init_f4(led: PinSpec) -> (r: Vec<RegOp>)
    requires
        pin_valid(led),
    ensures
        r@ == f4_ops(led),
{
    let mut ops: Vec<RegOp> = Vec::new();
    ops.push(RegOp::Modify { reg: Register::Ahb1Enr, mask: GPIOAEN | GPIOCEN, bits: GPIOAEN | GPIOCEN });
    push_f4_pin_ops(&mut ops, Port::A, 8, SPEED_VERY_HIGH, MODE_ALTERNATE);
    push_f4_pin_ops(&mut ops, Port::C, 9, SPEED_VERY_HIGH, MODE_ALTERNATE);
    ops.push(RegOp::Modify { reg: Register::Cfgr, mask: MCO_MASK, bits: MCO_BITS });
    push_f4_pin_ops(&mut ops, led.port, led.index, SPEED_LOW, MODE_OUTPUT);
    assert(ops@ =~= f4_ops(led));
    ops
}

/// STM32F1 bring-up for an LED on `led`.
pub fn init_f1(led: PinSpec) -> (r: Vec<RegOp>)
    requires
        pin_valid(led),
    ensures
        r@ == f1_ops(led),
{
    let clock: u32 = if led.port == Port::A { IOPAEN } else { IOPCEN };
    let config = if led.index < 8 { Register::Crl(led.port) } else { Register::Crh(led.port) };
    let mut ops: Vec<RegOp> = Vec::new();
    ops.push(RegOp::Modify { reg: Register::Apb2Enr, mask: clock, bits: clock });
    ops.push(field_op(config, 4 * (led.index % 8), 15, CONF_OUTPUT_LOW_SPEED));
    assert(ops@ =~= f1_ops(led));
    ops
}

/// nRF52840 bring-up: no register needs setting.
pub fn init_nrf52() -> (r: Vec<RegOp>)
    ensures
        r@ == Seq::<RegOp>::empty(),
{
    Vec::new()
}

/// The register operations that bring `board` up.
pub fn init_ops(board: Board) -> (r: Vec<RegOp>)
    ensures
        r@ == board_init_ops(board),
{
    match (board.family(), board.led()) {
        (Family::Stm32F4, Some(led)) => init_f4(led),
        (Family::Stm32F1, Some(led)) => init_f1(led),
        _ => init_nrf52(),
    }
}

} // verus!
