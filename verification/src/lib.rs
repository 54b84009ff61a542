//! Hardware abstraction layer for a small RISC-V demonstration
//! system-on-chip.
//!
//! The library models each peripheral's memory-mapped register block as a
//! plain value (`GpioRegisters`, `UartRegisters`, ...) and verifies the
//! drivers that operate on them: GPIO pins with a compile-time direction
//! tag, a polling UART, an SPI controller with software chip-select, PWM
//! channels, and a 64-bit free-running timer split across 32-bit register
//! halves.

pub mod gpio;
pub mod pwm;
pub mod serial;
pub mod spi;
pub mod timer;
pub mod utils;

pub use gpio::pin::{ErasePin, GpioExt};
