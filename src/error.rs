use vstd::prelude::*;

verus! {

/// Why a fetch-execute step could not complete.
#[derive(Debug, Clone, Copy, PartialEq, Eq, Structural)]
pub enum EmulatorError {
    /// The 7-bit opcode has no registered descriptor.
    InvalidOpcode,
    /// The opcode is known but no funct3/funct7 combination (or SYSTEM immediate) matches.
    UnknownInstruction,
    /// The memory rejected the address/width combination.
    OutOfBoundsAccess,
    /// A CSR instruction variant outside the implemented subset was reached.
    UnsupportedCsrOperation,
    /// Program-counter arithmetic left the address space.
    ArithmeticOverflow,
    /// An environment call or breakpoint, which this core does not service.
    UnhandledTrap,
}

} // verus!
