use vstd::prelude::*;
use crate::board::{Board, Family, Polarity, Port, board_family, board_led};
use crate::device::{claim_succeeds, set_spec};
use crate::led::{drives_high, led_write_spec, level_word};
use crate::init::{
    CONF_OUTPUT_LOW_SPEED, MCO_MASK, GPIOAEN, GPIOCEN, IOPAEN, IOPCEN, MODE_OUTPUT, OTYPE_PUSH_PULL,
    SPEED_LOW, board_init_ops, f1_config_register, f4_pin_ops,
};
use crate::regs::{RegOp, Register, field, op_effect, op_target, pin_writes, register_port, value_after};

verus! {

/// Whether `op` switches on the clock of GPIO `port`.
pub open spec fn enables_clock(op: RegOp, port: Port) -> bool {
    match op {
        RegOp::Modify { reg: Register::Ahb1Enr, bits, .. } => bits & (if port == Port::A {
            GPIOAEN
        } else {
            GPIOCEN
        }) != 0,
        RegOp::Modify { reg: Register::Apb2Enr, bits, .. } => bits & (if port == Port::A {
            IOPAEN
        } else {
            IOPCEN
        }) != 0,
        _ => false,
    }
}

/// The writes of one `set` call on `board`, as a sequence.
pub open spec fn set_ops(board: Board, on: bool) -> Seq<RegOp> {
    match set_spec(board, on) {
        Some(w) => seq![w],
        None => Seq::empty(),
    }
}

/// Whether the LED pin of `board` is a low-speed push-pull output once `ops`
/// have been performed on registers that held `regs`.
pub open spec fn led_pin_configured(board: Board, ops: Seq<RegOp>, regs: spec_fn(Register) -> u32) -> bool {
    match (board_family(board), board_led(board)) {
        (Family::Stm32F4, Some(pin)) => {
            let moder = Register::Moder(pin.port);
            let otyper = Register::Otyper(pin.port);
            let ospeedr = Register::Ospeedr(pin.port);
            &&& field(value_after(ops, moder, regs(moder)), (2 * pin.index) as u32, 3) == MODE_OUTPUT
            &&& field(value_after(ops, otyper, regs(otyper)), pin.index, 1) == OTYPE_PUSH_PULL
            &&& field(value_after(ops, ospeedr, regs(ospeedr)), (2 * pin.index) as u32, 3) == SPEED_LOW
        },
        (Family::Stm32F1, Some(pin)) => {
            let conf = f1_config_register(pin.port, pin.index);
            field(value_after(ops, conf, regs(conf)), (4 * (pin.index % 8)) as u32, 15)
                == CONF_OUTPUT_LOW_SPEED
        },
        _ => true,
    }
}

proof fn lemma_field_set(before: u32, shift: u32, field_mask: u32, v: u32)
    by (bit_vector)
    requires
        v & field_mask == v,
        (field_mask == 1 && shift < 32) || (field_mask == 3 && shift <= 30) || (field_mask == 15
            && shift <= 28),
    ensures
        (((before & !(field_mask << shift)) | (v << shift)) >> shift) & field_mask == v,
{
}

proof fn lemma_field_values()
    ensures
        MODE_OUTPUT & 3 == MODE_OUTPUT,
        SPEED_LOW & 3 == SPEED_LOW,
        OTYPE_PUSH_PULL & 1 == OTYPE_PUSH_PULL,
        CONF_OUTPUT_LOW_SPEED & 15 == CONF_OUTPUT_LOW_SPEED,
        (GPIOAEN | GPIOCEN) & GPIOAEN != 0,
        (GPIOAEN | GPIOCEN) & GPIOCEN != 0,
        IOPAEN & IOPAEN != 0,
        IOPCEN & IOPCEN != 0,
{
    assert(1u32 & 3u32 == 1u32) by (bit_vector);
    assert(0u32 & 3u32 == 0u32) by (bit_vector);
    assert(0u32 & 1u32 == 0u32) by (bit_vector);
    assert(2u32 & 15u32 == 2u32) by (bit_vector);
    assert((1u32 | 4u32) & 1u32 != 0u32) by (bit_vector);
    assert((1u32 | 4u32) & 4u32 != 0u32) by (bit_vector);
    assert(4u32 & 4u32 != 0u32) by (bit_vector);
    assert(16u32 & 16u32 != 0u32) by (bit_vector);
}

/// The value of `reg` after `ops` is set by the last operation on it.
proof fn lemma_last_access(ops: Seq<RegOp>, k: int, reg: Register, start: u32)
    requires
        0 <= k < ops.len(),
        op_target(ops[k]) == reg,
        forall|j: int| k < j < ops.len() ==> op_target(#[trigger] ops[j]) != reg,
    ensures
        value_after(ops, reg, start) == op_effect(ops[k], value_after(ops.take(k), reg, start)),
    decreases ops.len(),
{
    if k == ops.len() - 1 {
        assert(ops.drop_last() =~= ops.take(k));
    } else {
        let rest = ops.drop_last();
        assert(op_target(ops[ops.len() - 1]) != reg);
        assert forall|j: int| k < j < rest.len() implies op_target(#[trigger] rest[j]) != reg by {
            assert(rest[j] == ops[j]);
        }
        lemma_last_access(rest, k, reg, start);
        assert(rest.take(k) =~= ops.take(k));
    }
}

proof fn lemma_pin_writes_append(a: Seq<RegOp>, b: Seq<RegOp>, port: Port)
    ensures
        pin_writes(a + b, port) == pin_writes(a, port) + pin_writes(b, port),
    decreases b.len(),
{
    if b.len() == 0 {
        assert(a + b =~= a);
        assert(pin_writes(a, port) + Seq::<u32>::empty() =~= pin_writes(a, port));
    } else {
        lemma_pin_writes_append(a, b.drop_last(), port);
        assert((a + b).drop_last() =~= a + b.drop_last());
        assert((a + b).last() == b.last());
        let pa = pin_writes(a, port);
        let pb = pin_writes(b.drop_last(), port);
        match b.last() {
            RegOp::Write { reg: Register::Bsrr(p), value } => {
                if p == port {
                    assert((pa + pb).push(value) =~= pa + pb.push(value));
                }
            },
            _ => {},
        }
    }
}

proof fn lemma_no_pin_writes(ops: Seq<RegOp>, port: Port)
    requires
        forall|i: int| 0 <= i < ops.len() ==> (#[trigger] ops[i]) is Modify,
    ensures
        pin_writes(ops, port) == Seq::<u32>::empty(),
    decreases ops.len(),
{
    if ops.len() > 0 {
        let rest = ops.drop_last();
        assert forall|i: int| 0 <= i < rest.len() implies (#[trigger] rest[i]) is Modify by {
            assert(rest[i] == ops[i]);
        }
        lemma_no_pin_writes(rest, port);
        assert(ops.last() == ops[ops.len() - 1]);
    }
}

proof fn lemma_pin_writes_single(op: RegOp, port: Port, value: u32)
    requires
        op == (RegOp::Write { reg: Register::Bsrr(port), value }),
    ensures
        pin_writes(seq![op], port) == seq![value],
{
    let s = seq![op];
    assert(s.drop_last() =~= Seq::<RegOp>::empty());
    assert(s.last() == op);
    assert(pin_writes(s.drop_last(), port) == Seq::<u32>::empty());
    assert(Seq::<u32>::empty().push(value) =~= seq![value]);
}

/// Bring-up succeeds at most once: `initialize` leaves the claim taken,
/// whatever it found, and a claim on a taken slot fails.
pub proof fn lemma_second_initialize_fails(after_first: bool)
    requires
        after_first,
    ensures
        !claim_succeeds(after_first),
{
}

/// After bring-up the LED pin is a push-pull output at low speed, whatever
/// the registers held before.
pub proof fn lemma_initialize_configures_led(board: Board, regs: spec_fn(Register) -> u32)
    ensures
        led_pin_configured(board, board_init_ops(board), regs),
{
    let ops = board_init_ops(board);
    lemma_field_values();
    match (board_family(board), board_led(board)) {
        (Family::Stm32F4, Some(pin)) => {
            let p = pin.port;
            let i = pin.index;
            let moder = Register::Moder(p);
            let otyper = Register::Otyper(p);
            let ospeedr = Register::Ospeedr(p);
            let tail = f4_pin_ops(p, i, SPEED_LOW, MODE_OUTPUT);
            assert(ops.len() == 11);
            assert(ops[8] == tail[0]);
            assert(ops[9] == tail[1]);
            assert(ops[10] == tail[2]);
            lemma_last_access(ops, 10, moder, regs(moder));
            lemma_field_set(value_after(ops.take(10), moder, regs(moder)), (2 * i) as u32, 3, MODE_OUTPUT);
            lemma_last_access(ops, 9, ospeedr, regs(ospeedr));
            lemma_field_set(value_after(ops.take(9), ospeedr, regs(ospeedr)), (2 * i) as u32, 3, SPEED_LOW);
            lemma_last_access(ops, 8, otyper, regs(otyper));
            lemma_field_set(value_after(ops.take(8), otyper, regs(otyper)), i, 1, OTYPE_PUSH_PULL);
        },
        (Family::Stm32F1, Some(pin)) => {
            let conf = f1_config_register(pin.port, pin.index);
            assert(ops.len() == 2);
            lemma_last_access(ops, 1, conf, regs(conf));
            lemma_field_set(
                value_after(ops.take(1), conf, regs(conf)),
                (4 * (pin.index % 8)) as u32,
                15,
                CONF_OUTPUT_LOW_SPEED,
            );
        },
        _ => {},
    }
}

proof fn lemma_init_only_modifies(board: Board)
    ensures
        forall|i: int|
            0 <= i < board_init_ops(board).len() ==> (#[trigger] board_init_ops(board)[i]) is Modify,
{
    let ops = board_init_ops(board);
    assert forall|i: int| 0 <= i < ops.len() implies (#[trigger] ops[i]) is Modify by {
        if board_family(board) == Family::Stm32F4 {
            assert(0 <= i < 11);
        }
    }
}

proof fn lemma_led_writes(board: Board, states: Seq<bool>)
    requires
        board_led(board) is Some,
        states.len() <= 3,
    ensures
        ({
            let pin = board_led(board).unwrap();
            let ops = board_init_ops(board) + set_ops(board, states[0]) + set_ops(board, states[1]);
            states.len() == 2 ==> pin_writes(ops, pin.port) == seq![
                level_word(pin, drives_high(pin, states[0])),
                level_word(pin, drives_high(pin, states[1])),
            ]
        }),
        ({
            let pin = board_led(board).unwrap();
            let ops = board_init_ops(board) + set_ops(board, states[0]) + set_ops(board, states[1])
                + set_ops(board, states[2]);
            states.len() == 3 ==> pin_writes(ops, pin.port) == seq![
                level_word(pin, drives_high(pin, states[0])),
                level_word(pin, drives_high(pin, states[1])),
                level_word(pin, drives_high(pin, states[2])),
            ]
        }),
{
    let pin = board_led(board).unwrap();
    let port = pin.port;
    let init = board_init_ops(board);
    lemma_init_only_modifies(board);
    lemma_no_pin_writes(init, port);
    if states.len() >= 2 {
        let a = set_ops(board, states[0]);
        let b = set_ops(board, states[1]);
        let wa = level_word(pin, drives_high(pin, states[0]));
        let wb = level_word(pin, drives_high(pin, states[1]));
        lemma_pin_writes_single(led_write_spec(pin, states[0]), port, wa);
        lemma_pin_writes_single(led_write_spec(pin, states[1]), port, wb);
        lemma_pin_writes_append(init, a, port);
        lemma_pin_writes_append(init + a, b, port);
        assert(Seq::<u32>::empty() + seq![wa] + seq![wb] =~= seq![wa, wb]);
        if states.len() == 3 {
            let c = set_ops(board, states[2]);
            let wc = level_word(pin, drives_high(pin, states[2]));
            lemma_pin_writes_single(led_write_spec(pin, states[2]), port, wc);
            lemma_pin_writes_append(init + a + b, c, port);
            assert(seq![wa, wb] + seq![wc] =~= seq![wa, wb, wc]);
        }
    }
}

/// Lighting the LED and then darkening it leaves, as the last bit set/reset
/// write of its port, the word for the dark level: a reset bit where a high
/// pin lights the LED, a set bit where the LED drains current.
pub proof fn lemma_last_write_is_off(board: Board)
    requires
        board_led(board) is Some,
    ensures
        ({
            let pin = board_led(board).unwrap();
            let writes = pin_writes(
                board_init_ops(board) + set_ops(board, true) + set_ops(board, false),
                pin.port,
            );
            &&& writes.len() > 0
            &&& writes.last() == if pin.polarity == Polarity::ActiveHigh {
                1u32 << ((pin.index + 16) as u32)
            } else {
                1u32 << pin.index
            }
        }),
{
    lemma_led_writes(board, seq![true, false]);
}

/// On a board whose LED drains current, bring-up followed by on, off, on
/// writes reset, set, reset words of the LED pin, in that order, and nothing
/// else, to the port's bit set/reset register.
pub proof fn lemma_active_low_on_off_on(board: Board)
    requires
        board_led(board) matches Some(pin) && pin.polarity == Polarity::ActiveLow,
    ensures
        ({
            let pin = board_led(board).unwrap();
            pin_writes(
                board_init_ops(board) + set_ops(board, true) + set_ops(board, false) + set_ops(
                    board,
                    true,
                ),
                pin.port,
            ) == seq![
                1u32 << ((pin.index + 16) as u32),
                1u32 << pin.index,
                1u32 << ((pin.index + 16) as u32),
            ]
        }),
{
    lemma_led_writes(board, seq![true, false, true]);
}

/// Every access to a GPIO port's registers, during bring-up and the LED
/// write that follows it, comes after an operation that switches that
/// port's clock on.
pub proof fn lemma_clock_before_port_access(board: Board, on: bool)
    ensures
        ({
            let ops = board_init_ops(board) + set_ops(board, on);
            forall|j: int|
                0 <= j < ops.len() && (register_port(op_target(#[trigger] ops[j])) is Some)
                    ==> exists|i: int|
                    0 <= i < j && enables_clock(
                        ops[i],
                        register_port(op_target(ops[j])).unwrap(),
                    )
        }),
{
    let ops = board_init_ops(board) + set_ops(board, on);
    lemma_field_values();
    assert forall|j: int|
        0 <= j < ops.len() && (register_port(op_target(#[trigger] ops[j])) is Some) implies exists|
        i: int,
    |
        0 <= i < j && enables_clock(ops[i], register_port(op_target(ops[j])).unwrap()) by {
        let p = register_port(op_target(ops[j])).unwrap();
        if board_family(board) == Family::Stm32F4 {
            assert(j != 0);
            assert(enables_clock(ops[0], p));
        } else if board_family(board) == Family::Stm32F1 {
            assert(j == 1 || j == 2);
            assert(p == Port::C);
            assert(enables_clock(ops[0], p));
        }
    }
}

/// On an STM32F4 board, bring-up starts by switching on the clocks of
/// ports A and C.
pub proof fn lemma_f4_enables_ports_a_and_c(board: Board)
    requires
        board_family(board) == Family::Stm32F4,
    ensures
        board_init_ops(board).len() > 0,
        enables_clock(board_init_ops(board)[0], Port::A),
        enables_clock(board_init_ops(board)[0], Port::C),
{
    lemma_field_values();
}

/// STM32F4 bring-up changes only the clock-output fields of CFGR: every
/// other bit of it, the I2S clock source among them, keeps its value.
pub proof fn lemma_f4_bring_up_keeps_other_cfgr_bits(board: Board, before: u32)
    requires
        board_family(board) == Family::Stm32F4,
    ensures
        value_after(board_init_ops(board), Register::Cfgr, before) & !MCO_MASK == before
            & !MCO_MASK,
{
    let ops = board_init_ops(board);
    assert(ops.len() == 11);
    assert(forall|j: int| 7 < j < 11 ==> op_target(#[trigger] ops[j]) != Register::Cfgr);
    lemma_last_access(ops, 7, Register::Cfgr, before);
    let prior = value_after(ops.take(7), Register::Cfgr, before);
    assert forall|j: int| 0 <= j < 7 implies op_target(#[trigger] ops.take(7)[j])
        != Register::Cfgr by {
        assert(ops.take(7)[j] == ops[j]);
    }
    lemma_untouched(ops.take(7), Register::Cfgr, before);
    assert(((prior & !0xff60_0000u32) | 0x3f00_0000u32) & !0xff60_0000u32 == prior
        & !0xff60_0000u32) by (bit_vector);
}

/// A register that no operation of `ops` targets keeps its value.
proof fn lemma_untouched(ops: Seq<RegOp>, reg: Register, start: u32)
    requires
        forall|j: int| 0 <= j < ops.len() ==> op_target(#[trigger] ops[j]) != reg,
    ensures
        value_after(ops, reg, start) == start,
    decreases ops.len(),
{
    if ops.len() > 0 {
        let rest = ops.drop_last();
        assert forall|j: int| 0 <= j < rest.len() implies op_target(#[trigger] rest[j]) != reg by {
            assert(rest[j] == ops[j]);
        }
        assert(op_target(ops[ops.len() - 1]) != reg);
        lemma_untouched(rest, reg, start);
    }
}

} // verus!
