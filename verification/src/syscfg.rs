//! System configuration controller.

use vstd::prelude::*;

verus! {

/// Address of the SYSCFG register block.
pub const BASE_ADDRESS: usize = 0x4001_3800;

/// The SYSCFG register block; the four EXTICR registers choose the port of
/// each external interrupt line.
#[derive(Copy, Clone, Debug, PartialEq, Eq, Structural)]
pub struct Registers {
    pub memrmp: u32,
    pub pmc: u32,
    pub exticr1: u32,
    pub exticr2: u32,
    pub exticr3: u32,
    pub exticr4: u32,
    pub cmpcr: u32,
}

impl Registers {
    /// A block with every register zero.
    pub fn new() -> (r: Registers)
        ensures
            r == (Registers { memrmp: 0, pmc: 0, exticr1: 0, exticr2: 0, exticr3: 0, exticr4: 0, cmpcr: 0 }),
    {
        Registers { memrmp: 0, pmc: 0, exticr1: 0, exticr2: 0, exticr3: 0, exticr4: 0, cmpcr: 0 }
    }
}

} // verus!
