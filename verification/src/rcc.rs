//! Reset and clock control.

use vstd::prelude::*;
use crate::helpers::{bitfield_set_bit, with_bit, bit_of, lemma_bit_read_after_write, lemma_bit_frame};

verus! {

/// Address of the RCC register block.
pub const RCC_BASE_ADDRESS: usize = 0x4002_3800;

/// The RCC registers (the reserved words between them are left out).
#[derive(Copy, Clone, Debug, PartialEq, Eq, Structural)]
pub struct Registers {
    pub cr: u32,
    pub pllcfgr: u32,
    pub cfgr: u32,
    pub cir: u32,
    pub ahb1rstr: u32,
    pub ahb2rstr: u32,
    pub ahb3rstr: u32,
    pub apb1rstr: u32,
    pub apb2rstr: u32,
    pub ahb1enr: u32,
    pub ahb2enr: u32,
    pub ahb3enr: u32,
    pub apb1enr: u32,
    pub apb2enr: u32,
    pub ahb1lpenr: u32,
    pub ahb2lpenr: u32,
    pub ahb3lpenr: u32,
    pub apb1lpenr: u32,
    pub apb2lpenr: u32,
    pub bdcr: u32,
    pub csr: u32,
    pub sscgr: u32,
    pub plli2scfgr: u32,
}

impl Registers {
    /// A block with every register zero.
    pub fn new() -> (r: Registers)
        ensures
            r == (Registers {
                cr: 0,
                pllcfgr: 0,
                cfgr: 0,
                cir: 0,
                ahb1rstr: 0,
                ahb2rstr: 0,
                ahb3rstr: 0,
                apb1rstr: 0,
                apb2rstr: 0,
                ahb1enr: 0,
                ahb2enr: 0,
                ahb3enr: 0,
                apb1enr: 0,
                apb2enr: 0,
                ahb1lpenr: 0,
                ahb2lpenr: 0,
                ahb3lpenr: 0,
                apb1lpenr: 0,
                apb2lpenr: 0,
                bdcr: 0,
                csr: 0,
                sscgr: 0,
                plli2scfgr: 0,
            }),
    {
        Registers {
            cr: 0,
            pllcfgr: 0,
            cfgr: 0,
            cir: 0,
            ahb1rstr: 0,
            ahb2rstr: 0,
            ahb3rstr: 0,
            apb1rstr: 0,
            apb2rstr: 0,
            ahb1enr: 0,
            ahb2enr: 0,
            ahb3enr: 0,
            apb1enr: 0,
            apb2enr: 0,
            ahb1lpenr: 0,
            ahb2lpenr: 0,
            ahb3lpenr: 0,
            apb1lpenr: 0,
            apb2lpenr: 0,
            bdcr: 0,
            csr: 0,
            sscgr: 0,
            plli2scfgr: 0,
        }
    }
}

#[derive(Copy, Clone, Debug, PartialEq, Eq, Structural)]
pub enum Clock {
    AHB1(AHB1Clock),
    AHB2,
    AHB3,
    APB1,
    APB2,
    AHB1LP,
    AHB2LP,
    AHB3LP,
}

#[derive(Copy, Clone, Debug, PartialEq, Eq, Structural)]
pub enum AHB1Clock {
    GPIOA,
    GPIOB,
    GPIOC,
    GPIOD,
}

impl AHB1Clock {
    /// The clock's bit in AHB1ENR: `GPIOA` is bit 0, `GPIOD` bit 3.
    pub open spec fn value(self) -> u32 {
        match self {
            AHB1Clock::GPIOA => 0,
            AHB1Clock::GPIOB => 1,
            AHB1Clock::GPIOC => 2,
            AHB1Clock::GPIOD => 3,
        }
    }

    pub fn as_usize(self) -> (r: usize)
        ensures
            r == self.value(),
            r == self as usize,
    {
        match self {
            AHB1Clock::GPIOA => 0,
            AHB1Clock::GPIOB => 1,
            AHB1Clock::GPIOC => 2,
            AHB1Clock::GPIOD => 3,
        }
    }
}

/// The RCC registers after `enable_clock(clock, enable)`: the clock's bit of
/// AHB1ENR set to `enable` for an AHB1 clock, no change for the other buses.
pub open spec fn with_clock(regs: Registers, clock: Clock, enable: bool) -> Registers {
    match clock {
        Clock::AHB1(c) => Registers { ahb1enr: with_bit(regs.ahb1enr, c.value(), enable), ..regs },
        _ => regs,
    }
}

/// Turns the clock of a peripheral on or off. Only AHB1 clocks are handled;
/// a clock of another bus is left as it is.
pub fn enable_clock(regs: &mut Registers, clock: Clock, enable: bool)
    ensures
        *final(regs) == with_clock(*old(regs), clock, enable),
{
    let c: AHB1Clock = match clock {
        Clock::AHB1(c) => c,
        _ => return,
    };
    let mut val: u32 = regs.ahb1enr;
    bitfield_set_bit(&mut val, c.as_usize(), enable);
    regs.ahb1enr = val;
}

/// Turning an AHB1 clock on or off reads back from its AHB1ENR bit and leaves
/// the bits of the other AHB1 clocks as they were.
pub proof fn lemma_enable_clock(regs: Registers, c: AHB1Clock, enable: bool, other: AHB1Clock)
    ensures
        bit_of(with_clock(regs, Clock::AHB1(c), enable).ahb1enr, c.value()) == enable,
        other != c ==> bit_of(with_clock(regs, Clock::AHB1(c), enable).ahb1enr, other.value()) == bit_of(
            regs.ahb1enr,
            other.value(),
        ),
{
    lemma_bit_read_after_write(regs.ahb1enr, c.value(), enable);
    if other != c {
        lemma_bit_frame(regs.ahb1enr, c.value(), enable, other.value());
    }
}

/// The AHB1 clocks in the order they are declared: GPIOA to GPIOD.
pub open spec fn ahb1_clock_order() -> Seq<AHB1Clock> {
    seq![AHB1Clock::GPIOA, AHB1Clock::GPIOB, AHB1Clock::GPIOC, AHB1Clock::GPIOD]
}

/// An AHB1 clock's AHB1ENR bit is its place among GPIOA to GPIOD, which is
/// the discriminant the compiler gives it: turning clock `k` on or off sets
/// exactly bit `k`, and the other clocks' bits stay as they were.
pub proof fn lemma_clock_bit_is_position(k: int, c: AHB1Clock, regs: Registers, enable: bool, j: int)
    requires
        0 <= k < 4,
        0 <= j < 4,
    ensures
        c.value() == c as u32,
        ahb1_clock_order().len() == 4,
        ahb1_clock_order()[c.value() as int] == c,
        ahb1_clock_order()[k].value() == k,
        bit_of(with_clock(regs, Clock::AHB1(ahb1_clock_order()[k]), enable).ahb1enr, k as u32) == enable,
        j != k ==> bit_of(with_clock(regs, Clock::AHB1(ahb1_clock_order()[k]), enable).ahb1enr, j as u32)
            == bit_of(regs.ahb1enr, j as u32),
{
    lemma_enable_clock(regs, ahb1_clock_order()[k], enable, ahb1_clock_order()[j]);
}

} // verus!
