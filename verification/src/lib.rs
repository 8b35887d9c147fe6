//! Register-level logic of the STM32F4 chip support (GPIO, EXTI, SYSCFG, RCC),
//! the interrupt dispatch of the STM32F4 and STM32F1 chips, and the semihosting
//! console and reset-time setup of the STM32F4 Discovery board.
//!
//! Peripheral register blocks are modelled as plain values: every operation
//! takes the block it reads or writes and states, bit by bit, what it leaves
//! there.

pub mod board;
pub mod chip;
pub mod exti;
pub mod gpio;
pub mod helpers;
pub mod io;
pub mod nvic;
pub mod rcc;
pub mod semihosting;
pub mod stm32f1;
pub mod syscfg;
