//! Interrupt dispatch of the STM32F1.

use vstd::prelude::*;

verus! {

/// STM32F1 interrupt number of timer 2.
pub const TIM2: u32 = 28;

/// STM32F1 interrupt number of USART 1.
pub const USART1: u32 = 37;

/// The peripherals whose interrupts the STM32F1 chip handles.
#[derive(Copy, Clone, Debug, PartialEq, Eq, Structural)]
pub enum InterruptSource {
    Timer2,
    Usart1,
}

/// The peripheral that handles interrupt number `interrupt`; any number other
/// than `TIM2` and `USART1` is unhandled and comes back as the error.
pub fn service_interrupt(interrupt: u32) -> (r: Result<InterruptSource, u32>)
    ensures
        interrupt == TIM2 ==> r == Ok::<InterruptSource, u32>(InterruptSource::Timer2),
        interrupt == USART1 ==> r == Ok::<InterruptSource, u32>(InterruptSource::Usart1),
        interrupt != TIM2 && interrupt != USART1 ==> r == Err::<InterruptSource, u32>(interrupt),
{
    if interrupt == TIM2 {
        Ok(InterruptSource::Timer2)
    } else if interrupt == USART1 {
        Ok(InterruptSource::Usart1)
    } else {
        Err(interrupt)
    }
}

} // verus!
