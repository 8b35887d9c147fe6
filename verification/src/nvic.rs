//! STM32F4 interrupt numbers of the external interrupt lines 0 to 4.

use vstd::prelude::*;

verus! {

pub const EXTI0: u32 = 6;
pub const EXTI1: u32 = 7;
pub const EXTI2: u32 = 8;
pub const EXTI3: u32 = 9;
pub const EXTI4: u32 = 10;

} // verus!
