use vstd::prelude::*;
use crate::board::{PinSpec, Polarity, pin_valid};
use crate::regs::{RegOp, Register};

verus! {

/// Whether lighting (`on`) or darkening the LED on `pin` drives the pin high.
pub open spec fn drives_high(pin: PinSpec, on: bool) -> bool {
    on == (pin.polarity == Polarity::ActiveHigh)
}

/// The bit set/reset word that drives `pin` high (set bit) or low (reset bit).
pub open spec fn level_word(pin: PinSpec, high: bool) -> u32 {
    if high {
        1u32 << pin.index
    } else {
        1u32 << ((pin.index + 16) as u32)
    }
}

/// The single write that lights or darkens the LED on `pin`.
pub open spec fn led_write_spec(pin: PinSpec, on: bool) -> RegOp {
    RegOp::Write { reg: Register::Bsrr(pin.port), value: level_word(pin, drives_high(pin, on)) }
}

/// The atomic bit set/reset write that lights (`on`) or darkens the LED on
/// `pin`, taking its wiring into account.
pub fn led_write(pin: PinSpec, on: bool) -> (r: RegOp)
    requires
        pin_valid(pin),
    ensures
        r == led_write_spec(pin, on),
{
    let high = on == (pin.polarity == Polarity::ActiveHigh);
    let value: u32 = if high {
        1u32 << pin.index
    } else {
        1u32 << ((pin.index + 16) as u32)
    };
    RegOp::Write { reg: Register::Bsrr(pin.port), value }
}

} // verus!
