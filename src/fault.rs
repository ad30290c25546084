use vstd::prelude::*;

verus! {

/// The faults that stop the machine. None of them is transient: each one is
/// an error in the loaded program or in how the machine is driven.
#[derive(Clone, Copy, Debug, PartialEq, Eq, Structural)]
pub enum Fault {
    /// The program image does not fit between 0x200 and the end of memory.
    ProgramTooLarge,
    /// An access that starts at the given address reaches past the end of
    /// memory.
    MemoryFault(u16),
    /// No instruction has this bit pattern.
    UnknownOpcode(u16),
    /// 0NNN (other than 00E0 and 00EE): a call into native machine code,
    /// which this machine does not support.
    UnsupportedLegacyOpcode(u16),
    /// A call with sixteen return addresses already on the stack.
    CallStackOverflow,
    /// A return with no return address on the stack.
    CallStackUnderflow,
}

} // verus!
