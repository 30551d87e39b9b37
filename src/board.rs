use vstd::prelude::*;

verus! {

/// Microcontroller family; each has its own peripheral layout.
#[derive(PartialEq, Eq, Structural, Clone, Copy, Debug)]
pub enum Family {
    Stm32F4,
    Stm32F1,
    Nrf52840,
}

/// The supported boards. Exactly one is chosen when the program is built.
#[derive(PartialEq, Eq, Structural, Clone, Copy, Debug)]
pub enum Board {
    /// Nucleo-F411RE: LED LD2 on PA5, lit by driving the pin high.
    NucleoF411,
    /// STM32F411 "black pill": LED on PC13, lit by draining current.
    BlackPill,
    /// STM32F103 "blue pill": LED on PC13, lit by draining current.
    BluePill,
    /// nRF52840: peripherals are claimed, no LED pin is driven.
    Nrf52840,
}

/// A GPIO port that hosts the LED or a clock-output pin.
#[derive(PartialEq, Eq, Structural, Clone, Copy, Debug)]
pub enum Port {
    A,
    C,
}

/// Which electrical level lights the LED.
#[derive(PartialEq, Eq, Structural, Clone, Copy, Debug)]
pub enum Polarity {
    /// The LED lights when the pin is driven high.
    ActiveHigh,
    /// The LED lights when the pin sinks current (driven low).
    ActiveLow,
}

/// Where the LED sits and how it is wired.
#[derive(PartialEq, Eq, Structural, Clone, Copy, Debug)]
pub struct PinSpec {
    pub port: Port,
    pub index: u32,
    pub polarity: Polarity,
}

pub open spec fn board_family(b: Board) -> Family {
    match b {
        Board::NucleoF411 => Family::Stm32F4,
        Board::BlackPill => Family::Stm32F4,
        Board::BluePill => Family::Stm32F1,
        Board::Nrf52840 => Family::Nrf52840,
    }
}

pub open spec fn board_led(b: Board) -> Option<PinSpec> {
    match b {
        Board::NucleoF411 => Some(PinSpec { port: Port::A, index: 5, polarity: Polarity::ActiveHigh }),
        Board::BlackPill => Some(PinSpec { port: Port::C, index: 13, polarity: Polarity::ActiveLow }),
        Board::BluePill => Some(PinSpec { port: Port::C, index: 13, polarity: Polarity::ActiveLow }),
        Board::Nrf52840 => None,
    }
}

/// A pin of a 16-pin GPIO port.
pub open spec fn pin_valid(pin: PinSpec) -> bool {
    pin.index < 16
}

impl Board {
    pub fn family(self) -> (r: Family)
        ensures
            r == board_family(self),
    {
        match self {
            Board::NucleoF411 => Family::Stm32F4,
            Board::BlackPill => Family::Stm32F4,
            Board::BluePill => Family::Stm32F1,
            Board::Nrf52840 => Family::Nrf52840,
        }
    }

    /// The LED pin of the board, if it drives one.
    pub fn led(self) -> (r: Option<PinSpec>)
        ensures
            r == board_led(self),
            r matches Some(pin) ==> pin_valid(pin),
    {
        match self {
            Board::NucleoF411 => Some(PinSpec { port: Port::A, index: 5, polarity: Polarity::ActiveHigh }),
            Board::BlackPill => Some(PinSpec { port: Port::C, index: 13, polarity: Polarity::ActiveLow }),
            Board::BluePill => Some(PinSpec { port: Port::C, index: 13, polarity: Polarity::ActiveLow }),
            Board::Nrf52840 => None,
        }
    }
}

} // verus!
