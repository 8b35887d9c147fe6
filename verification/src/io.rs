//! Board console setup.

use vstd::prelude::*;
use crate::semihosting::OpenMode;

verus! {

/// Address of the Debug Halting Control and Status Register.
pub const DHCSR: usize = 0xe000_edf0;

/// DHCSR bit that is set while a debugger is connected.
pub const C_DEBUGEN_MASK: u32 = 1;

/// Whether the DHCSR value `dhcsr` says that a debugger is connected.
pub open spec fn debugger_connected(dhcsr: u32) -> bool {
    dhcsr & C_DEBUGEN_MASK != 0
}

/// The host file that the standard output console writes to: the terminal.
pub open spec fn console_name() -> Seq<char> {
    seq![':', 't', 't']
}

/// Decides how the standard output console is set up, given the value read
/// from DHCSR: when a debugger is connected, the host's terminal `:tt` is to
/// be opened for writing, and the name and mode to open it with are returned;
/// otherwise semihosting is left alone.
pub fn std_out_init(dhcsr: u32) -> (r: Option<(&'static str, OpenMode)>)
    ensures
        debugger_connected(dhcsr) ==> (r matches Some((name, mode)) && name@ == console_name() && mode
            == OpenMode::Write),
        !debugger_connected(dhcsr) ==> r is None,
{
    if (dhcsr & C_DEBUGEN_MASK) != 0 {
        let name: &'static str = ":tt";
        proof {
            reveal_strlit(":tt");
        }
        assert(name@ =~= console_name());
        Some((name, OpenMode::Write))
    } else {
        None
    }
}

} // verus!
