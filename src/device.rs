use vstd::prelude::*;
use crate::board::{Board, board_led};
use crate::init::{board_init_ops, init_ops};
use crate::led::{led_write, led_write_spec};
use crate::regs::RegOp;

verus! {

/// The one error of bring-up: the peripherals were claimed already.
#[derive(PartialEq, Eq, Structural, Clone, Copy, Debug)]
pub struct ResourceAlreadyTaken;

/// The claim on the device's peripherals: armed when the program starts,
/// consumed by the first `initialize`, never released.
pub struct PeripheralSlot {
    taken: bool,
}

/// Exclusive ownership of the peripherals of one board. It cannot be copied
/// and is made only by `initialize`.
pub struct Peripherals {
    board: Board,
}

impl View for PeripheralSlot {
    /// Whether the peripherals have been claimed.
    type V = bool;

    closed spec fn view(&self) -> bool {
        self.taken
    }
}

impl View for Peripherals {
    /// The board whose peripherals are owned.
    type V = Board;

    closed spec fn view(&self) -> Board {
        self.board
    }
}

impl PeripheralSlot {
    /// The claim as the program starts: not taken.
    pub fn new() -> (r: PeripheralSlot)
        ensures
            !r@,
    {
        PeripheralSlot { taken: false }
    }

    pub fn is_taken(&self) -> (r: bool)
        ensures
            r == self@,
    {
        self.taken
    }
}

impl Peripherals {
    pub fn board(&self) -> (r: Board)
        ensures
            r == self@,
    {
        self.board
    }
}

/// Whether a claim on a slot in state `taken` succeeds.
pub open spec fn claim_succeeds(taken: bool) -> bool {
    !taken
}

/// Claims the peripherals of `board` and returns them with the register
/// operations that enable the clocks and configure the LED pin, in the order
/// in which they must be performed. Fails if they were claimed before; the
/// claim is taken afterwards in either case.
pub fn initialize(slot: &mut PeripheralSlot, board: Board) -> (r: Result<
    (Peripherals, Vec<RegOp>),
    ResourceAlreadyTaken,
>)
    ensures
        final(slot)@,
        r is Ok <==> claim_succeeds(old(slot)@),
        r matches Ok((p, ops)) ==> p@ == board && ops@ == board_init_ops(board),
{
    if slot.taken {
        return Err(ResourceAlreadyTaken);
    }
    slot.taken = true;
    Ok((Peripherals { board }, init_ops(board)))
}

/// The register write that lights (`on`) or darkens the board's LED; `None`
/// on a board that drives no LED.
pub open spec fn set_spec(board: Board, on: bool) -> Option<RegOp> {
    match board_led(board) {
        Some(pin) => Some(led_write_spec(pin, on)),
        None => None,
    }
}

/// The single bit set/reset write that lights (`on`) or darkens the LED of
/// the board owned by `p`.
pub fn set(p: &Peripherals, on: bool) -> (r: Option<RegOp>)
    ensures
        r == set_spec(p@, on),
{
    match p.board.led() {
        Some(pin) => Some(led_write(pin, on)),
        None => None,
    }
}

} // verus!
