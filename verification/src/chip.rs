//! Interrupt dispatch of the STM32F4.
//!
//! The chip drains the NVIC's pending interrupts one at a time; for each one
//! [`service_interrupt`] decides what is done with it.

use vstd::prelude::*;
use crate::exti::{self, Exti};
use crate::gpio::PinId;
use crate::nvic::{EXTI0, EXTI1, EXTI2, EXTI3, EXTI4};

verus! {

/// The external interrupt line that interrupt number `interrupt` belongs to:
/// lines 0 to 4 for `EXTI0` to `EXTI4`, none for any other number.
pub open spec fn exti_line_of(interrupt: u32) -> Option<int> {
    if interrupt == EXTI0 {
        Some(0)
    } else if interrupt == EXTI1 {
        Some(1)
    } else if interrupt == EXTI2 {
        Some(2)
    } else if interrupt == EXTI3 {
        Some(3)
    } else if interrupt == EXTI4 {
        Some(4)
    } else {
        None
    }
}

/// Handles pending interrupt `interrupt`. An EXTI interrupt is handled by its
/// line: its pending bit is cleared and the pin bound to it, if any, is
/// returned for its client to be notified. Any other interrupt is unhandled
/// and comes back as the error.
pub fn service_interrupt(interrupt: u32, exti: &Exti, regs: &mut exti::Registers) -> (r: Result<
    Option<PinId>,
    u32,
>)
    ensures
        match exti_line_of(interrupt) {
            Some(i) => {
                let line = exti.lines@[i]@;
                &&& r == Ok::<Option<PinId>, u32>(line.gpio)
                &&& *final(regs) == (exti::Registers { pr: 1u32 << (line.line as u32), ..*old(regs) })
            },
            None => {
                &&& r == Err::<Option<PinId>, u32>(interrupt)
                &&& *final(regs) == *old(regs)
            },
        },
{
    if interrupt == EXTI0 {
        Ok(exti.index(0).handle_interrupt(regs))
    } else if interrupt == EXTI1 {
        Ok(exti.index(1).handle_interrupt(regs))
    } else if interrupt == EXTI2 {
        Ok(exti.index(2).handle_interrupt(regs))
    } else if interrupt == EXTI3 {
        Ok(exti.index(3).handle_interrupt(regs))
    } else if interrupt == EXTI4 {
        Ok(exti.index(4).handle_interrupt(regs))
    } else {
        Err(interrupt)
    }
}

/// The interrupt numbers of lines 0 to 4 are consecutive from `EXTI0`: line
/// `i` is reached by interrupt `EXTI0 + i` and by no other number.
pub proof fn lemma_exti_interrupt_numbers(interrupt: u32, i: int)
    requires
        0 <= i < 5,
    ensures
        exti_line_of(interrupt) == Some(i) <==> interrupt == EXTI0 + i,
{
}

} // verus!
