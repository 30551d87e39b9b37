use vstd::prelude::*;

verus! {

/// Busy-wait length while the LED is lit, in no-op instructions.
pub const SHORT_DELAY: u32 = 200000;
/// Busy-wait length while the LED is dark, in no-op instructions.
pub const LONG_DELAY: u32 = 800000;

/// The state of the blink loop.
#[derive(PartialEq, Eq, Structural, Clone, Copy, Debug)]
pub enum LedState {
    On,
    Off,
}

/// What the blink loop does next: drive the LED, then wait.
#[derive(PartialEq, Eq, Structural, Clone, Copy, Debug)]
pub struct Step {
    pub next: LedState,
    pub led_on: bool,
    pub wait: u32,
}

pub open spec fn step_spec(state: LedState) -> Step {
    match state {
        LedState::Off => Step { next: LedState::On, led_on: true, wait: SHORT_DELAY },
        LedState::On => Step { next: LedState::Off, led_on: false, wait: LONG_DELAY },
    }
}

/// The state after bring-up.
pub fn initial_state() -> (r: LedState)
    ensures
        r == LedState::Off,
{
    LedState::Off
}

/// One transition of the blink loop: a dark LED is lit and held for the
/// short delay; a lit one is darkened and held for the long delay.
pub fn step(state: LedState) -> (r: Step)
    ensures
        r == step_spec(state),
        r.next == (if r.led_on { LedState::On } else { LedState::Off }),
{
    match state {
        LedState::Off => Step { next: LedState::On, led_on: true, wait: SHORT_DELAY },
        LedState::On => Step { next: LedState::Off, led_on: false, wait: LONG_DELAY },
    }
}

/// Busy-waits by calling `spin` (one architectural no-op instruction, which
/// the compiler must not remove) once for each of the counts `0..cycles`, in
/// order; returns how many calls it made.
pub fn delay<F: Fn(u32)>(cycles: u32, spin: F) -> (executed: u32)
    requires
        forall|k: u32| k < cycles ==> spin.requires((k,)),
    ensures
        executed == cycles,
        forall|k: u32| k < cycles ==> spin.ensures((k,), ()),
{
    let mut i: u32 = 0;
    while i < cycles
        invariant
            i <= cycles,
            forall|k: u32| k < cycles ==> spin.requires((k,)),
            forall|k: u32| k < i ==> spin.ensures((k,), ()),
        decreases cycles - i,
    {
        spin(i);
        i = i + 1;
    }
    i
}

} // verus!
