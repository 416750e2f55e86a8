//! Decode, dispatch and execution core of an RV64I hart emulator: instruction-word fields,
//! the descriptor table and its opcode-indexed registry, per-instruction semantics, memory,
//! and the fetch-execute loop; plus register layouts and page-table entry helpers of the
//! companion kernel.
#![allow(non_camel_case_types)]

use vstd::prelude::*;

pub mod clint;
pub mod cpu;
pub mod csr;
pub mod error;
pub mod mem;
pub mod heap;
pub mod instructions;
pub mod mutex;
pub mod paging;
pub mod plic;
pub mod raw_instructions;
pub mod reg;
pub mod riscv;
pub mod uart;
pub mod virtio;
pub mod vm;

verus! {

/// Unsigned value of one guest register (RV64).
pub type uguest = u64;

/// Signed view of one guest register (RV64).
pub type iguest = i64;

/// Size of one full-width instruction word.
pub type InstructionSize = u32;

} // verus!
