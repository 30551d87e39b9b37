//! Board support for a single status LED on STM32F4, STM32F1 and nRF52840
//! boards. The library decides which register operations bring a board up
//! and drive its LED; the program around it performs them on the hardware.

pub mod board;
pub mod regs;
pub mod init;
pub mod led;
pub mod device;
pub mod control;
pub mod laws;
