//! External interrupt controller.
//!
//! Each [`ExtiLine`] may be bound to a GPIO pin whose number equals the line;
//! binding it also routes the pin's port to the line in SYSCFG.

use vstd::prelude::*;
use crate::gpio::{PinId, PortNum, port_order};
use crate::helpers::{Bit, BitRange, with_bit, with_field, field_of, bit_of, low_mask, lemma_field_read_after_write};
use crate::syscfg;

verus! {

/// Address of the EXTI register block.
pub const BASE_ADDRESS: usize = 0x4001_3C00;

/// Number of lines that [`Exti`] provides.
pub const NUM_LINES: usize = 5;

/// The EXTI register block.
#[derive(Copy, Clone, Debug, PartialEq, Eq, Structural)]
pub struct Registers {
    pub imr: u32,
    pub emr: u32,
    pub rtsr: u32,
    pub ftsr: u32,
    pub swier: u32,
    pub pr: u32,
}

impl Registers {
    /// A block with every register zero.
    pub fn new() -> (r: Registers)
        ensures
            r == (Registers { imr: 0, emr: 0, rtsr: 0, ftsr: 0, swier: 0, pr: 0 }),
    {
        Registers { imr: 0, emr: 0, rtsr: 0, ftsr: 0, swier: 0, pr: 0 }
    }
}

/// What an [`ExtiLine`] holds: its number and the pin bound to it.
#[derive(Copy, Clone, Debug, PartialEq, Eq, Structural)]
pub struct LineState {
    pub line: usize,
    pub gpio: Option<PinId>,
}

pub struct ExtiLine {
    line: usize,
    gpio: Option<PinId>,
}

impl View for ExtiLine {
    type V = LineState;

    closed spec fn view(&self) -> LineState {
        LineState { line: self.line, gpio: self.gpio }
    }
}

/// SYSCFG after routing `port` to external interrupt line `line`: the
/// EXTICR register of the line (EXTICR1 for lines 0 to 3, EXTICR2 for 4 to 7,
/// EXTICR3 for 8 to 11, EXTICR4 for 12 to 15) gets the port's number in its
/// four bits at `4 * (port % 3)`; for lines past 15 nothing changes.
pub open spec fn with_exti_source(regs: syscfg::Registers, line: int, port: PortNum) -> syscfg::Registers {
    let pos = (port.value() % 3) * 4;
    if line <= 3 {
        syscfg::Registers { exticr1: with_field(regs.exticr1, (pos + 3) as u32, pos as u32, port.value()), ..regs }
    } else if line <= 7 {
        syscfg::Registers { exticr2: with_field(regs.exticr2, (pos + 3) as u32, pos as u32, port.value()), ..regs }
    } else if line <= 11 {
        syscfg::Registers { exticr3: with_field(regs.exticr3, (pos + 3) as u32, pos as u32, port.value()), ..regs }
    } else if line <= 15 {
        syscfg::Registers { exticr4: with_field(regs.exticr4, (pos + 3) as u32, pos as u32, port.value()), ..regs }
    } else {
        regs
    }
}

/// Whether `gpio` is a pin that line `line` accepts: one whose number is the line's.
pub open spec fn accepts(line: usize, gpio: Option<PinId>) -> bool {
    match gpio {
        Some(g) => g.pin == line,
        None => false,
    }
}

impl ExtiLine {
    /// Line numbers fit the 32-bit EXTI registers.
    #[verifier::type_invariant]
    closed spec fn line_fits_registers(self) -> bool {
        self.line < 32
    }

    pub fn new(line: usize) -> (r: ExtiLine)
        requires
            line < 32,
        ensures
            r@ == (LineState { line: line, gpio: None }),
    {
        ExtiLine { line: line, gpio: None }
    }

    /// Unmasks (or masks) the line's interrupt: its bit of IMR.
    pub fn enable_interrupt(&self, regs: &mut Registers, enable: bool)
        ensures
            *final(regs) == (Registers { imr: with_bit(old(regs).imr, self@.line as u32, enable), ..*old(regs) }),
    {
        proof {
            use_type_invariant(self);
        }
        regs.imr.set_bit(self.line, enable);
    }

    /// Selects the edges that trigger the line: its bits of RTSR and FTSR.
    pub fn set_trigger(&self, regs: &mut Registers, raising: bool, falling: bool)
        ensures
            *final(regs) == (Registers {
                rtsr: with_bit(old(regs).rtsr, self@.line as u32, raising),
                ftsr: with_bit(old(regs).ftsr, self@.line as u32, falling),
                ..*old(regs)
            }),
    {
        proof {
            use_type_invariant(self);
        }
        regs.rtsr.set_bit(self.line, raising);
        regs.ftsr.set_bit(self.line, falling);
    }

    /// Whether the line has a pending interrupt: its bit of PR.
    pub fn has_pending(&self, regs: &Registers) -> (r: bool)
        ensures
            r == bit_of(regs.pr, self@.line as u32),
    {
        proof {
            use_type_invariant(self);
        }
        regs.pr.bit(self.line)
    }

    fn set_exti_source(&self, syscfg: &mut syscfg::Registers, port: PortNum)
        ensures
            *final(syscfg) == with_exti_source(*old(syscfg), self@.line as int, port),
    {
        let port: u32 = port.as_u32();
        let pos: usize = ((port % 3) * 4) as usize;
        if self.line <= 3 {
            syscfg.exticr1.set_bit_range(pos + 3, pos, port);
        } else if self.line <= 7 {
            syscfg.exticr2.set_bit_range(pos + 3, pos, port);
        } else if self.line <= 11 {
            syscfg.exticr3.set_bit_range(pos + 3, pos, port);
        } else if self.line <= 15 {
            syscfg.exticr4.set_bit_range(pos + 3, pos, port);
        }
    }

    /// Binds the line to `gpio` and routes the pin's port to the line, when
    /// the pin's number is the line's; otherwise (`None` included) changes nothing.
    pub fn set_client(&mut self, syscfg: &mut syscfg::Registers, gpio: Option<PinId>)
        ensures
            accepts(old(self)@.line, gpio) ==> {
                &&& final(self)@ == (LineState { gpio: gpio, ..old(self)@ })
                &&& *final(syscfg) == with_exti_source(*old(syscfg), old(self)@.line as int, gpio->0.port)
            },
            !accepts(old(self)@.line, gpio) ==> {
                &&& *final(self) == *old(self)
                &&& *final(syscfg) == *old(syscfg)
            },
    {
        proof {
            use_type_invariant(&*self);
        }
        match gpio {
            Some(g) => {
                if g.pin == self.line {
                    self.gpio = Some(g);
                    self.set_exti_source(syscfg, g.port);
                }
            },
            None => {},
        }
    }

    /// Clears the line's pending interrupt by writing its bit alone to PR, and
    /// returns the pin bound to the line, whose client is to be notified.
    pub fn handle_interrupt(&self, regs: &mut Registers) -> (r: Option<PinId>)
        ensures
            *final(regs) == (Registers { pr: 1u32 << (self@.line as u32), ..*old(regs) }),
            r == self@.gpio,
    {
        proof {
            use_type_invariant(self);
        }
        regs.pr = 1u32 << (self.line as u32);
        self.gpio
    }
}

/// The external interrupt lines 0 to 4.
pub struct Exti {
    pub lines: [ExtiLine; 5],
}

impl Exti {
    pub fn new() -> (r: Exti)
        ensures
            forall|i: int| 0 <= i < 5 ==> #[trigger] r.lines@[i]@ == (LineState { line: i as usize, gpio: None }),
    {
        Exti {
            lines: [ExtiLine::new(0), ExtiLine::new(1), ExtiLine::new(2), ExtiLine::new(3), ExtiLine::new(4)],
        }
    }

    pub fn index(&self, index: usize) -> (r: &ExtiLine)
        requires
            index < NUM_LINES,
        ensures
            *r == self.lines@[index as int],
    {
        &self.lines[index]
    }

    pub fn index_mut(&mut self, index: usize) -> (r: &mut ExtiLine)
        requires
            index < NUM_LINES,
        ensures
            *r == old(self).lines@[index as int],
            final(self).lines@ == old(self).lines@.update(index as int, *final(r)),
    {
        &mut self.lines[index]
    }
}

/// Routing a port to a line below 16 writes the port's number into the
/// line's EXTICR register, where it reads back at bit `4 * (port % 3)`; every
/// other SYSCFG register is unchanged.
pub proof fn lemma_exti_source_routes_port(regs: syscfg::Registers, line: int, port: PortNum)
    requires
        0 <= line < 16,
    ensures
        ({
            let after = with_exti_source(regs, line, port);
            let pos = ((port.value() % 3) * 4) as u32;
            let reg = if line <= 3 {
                after.exticr1
            } else if line <= 7 {
                after.exticr2
            } else if line <= 11 {
                after.exticr3
            } else {
                after.exticr4
            };
            &&& field_of(reg, (pos + 3) as u32, pos) == port.value()
            &&& line > 3 ==> after.exticr1 == regs.exticr1
            &&& (line <= 3 || line > 7) ==> after.exticr2 == regs.exticr2
            &&& (line <= 7 || line > 11) ==> after.exticr3 == regs.exticr3
            &&& line <= 11 ==> after.exticr4 == regs.exticr4
            &&& after == (syscfg::Registers {
                exticr1: after.exticr1,
                exticr2: after.exticr2,
                exticr3: after.exticr3,
                exticr4: after.exticr4,
                ..regs
            })
        }),
{
    let pos = ((port.value() % 3) * 4) as u32;
    let x = port.value();
    let v = if line <= 3 {
        regs.exticr1
    } else if line <= 7 {
        regs.exticr2
    } else if line <= 11 {
        regs.exticr3
    } else {
        regs.exticr4
    };
    lemma_field_read_after_write(v, (pos + 3) as u32, pos, x);
    assert(x & low_mask(4) == x) by (bit_vector)
        requires
            x < 16,
    ;
    assert(((pos + 3) as u32 - pos + 1) as u32 == 4u32);
}

/// Routing the `i`-th port (A is 0, G is 6) to a line below 16 writes `i` into
/// the line's EXTICR register, at bit `4 * (i % 3)`.
pub proof fn lemma_routing_writes_port_position(regs: syscfg::Registers, line: int, i: int)
    requires
        0 <= line < 16,
        0 <= i < 10,
    ensures
        ({
            let after = with_exti_source(regs, line, port_order()[i]);
            let pos = ((i % 3) * 4) as u32;
            let reg = if line <= 3 {
                after.exticr1
            } else if line <= 7 {
                after.exticr2
            } else if line <= 11 {
                after.exticr3
            } else {
                after.exticr4
            };
            field_of(reg, (pos + 3) as u32, pos) == i
        }),
{
    crate::gpio::lemma_port_number_is_position(i, port_order()[i]);
    lemma_exti_source_routes_port(regs, line, port_order()[i]);
}

} // verus!
