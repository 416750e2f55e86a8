use vstd::prelude::*;

use crate::csr::{CsrID, CsrValue, CSR_COUNT};
use crate::mem::DRAM_BASE;
use crate::reg::Reg;
use crate::uguest;

verus! {

/// Number of integer registers.
pub const REG_COUNT: usize = 32;

/// Privilege modes, by their two-bit encoding in `mstatus.MPP`.
#[derive(Debug, Clone, Copy, PartialEq, Eq, Structural)]
pub enum PrivilegeLevel {
    User,
    Supervisor,
    Reserved,
    Machine,
}

impl PrivilegeLevel {
    /// The two-bit encoding.
    pub open spec fn bits(self) -> u64 {
        match self {
            PrivilegeLevel::User => 0,
            PrivilegeLevel::Supervisor => 1,
            PrivilegeLevel::Reserved => 2,
            PrivilegeLevel::Machine => 3,
        }
    }

    /// The mode with two-bit encoding `b`.
    pub open spec fn from_bits(b: u64) -> PrivilegeLevel {
        if b == 0 {
            PrivilegeLevel::User
        } else if b == 1 {
            PrivilegeLevel::Supervisor
        } else if b == 2 {
            PrivilegeLevel::Reserved
        } else {
            PrivilegeLevel::Machine
        }
    }

    /// The mode with two-bit encoding `b & 3`.
    pub fn from_mpp(b: u64) -> (r: PrivilegeLevel)
        ensures
            r == Self::from_bits(b % 4),
    {
        let v = b % 4;
        if v == 0 {
            PrivilegeLevel::User
        } else if v == 1 {
            PrivilegeLevel::Supervisor
        } else if v == 2 {
            PrivilegeLevel::Reserved
        } else {
            PrivilegeLevel::Machine
        }
    }

    /// `mstatus` with only the MPP field set to User.
    pub fn user() -> (r: u64)
        ensures
            r == PrivilegeLevel::User.bits() * 0x800,
    {
        0 * 0x800
    }

    /// `mstatus` with only the MPP field set to Supervisor.
    pub fn supervisor() -> (r: u64)
        ensures
            r == PrivilegeLevel::Supervisor.bits() * 0x800,
    {
        1 * 0x800
    }

    /// `mstatus` with only the MPP field set to Machine.
    pub fn machine() -> (r: u64)
        ensures
            r == PrivilegeLevel::Machine.bits() * 0x800,
    {
        3 * 0x800
    }
}

/// Register file, CSR bank, privilege mode and program counter of one hart.
pub struct CPU {
    pub regs: Vec<uguest>,
    pub csrs: Vec<CsrValue>,
    pub privilege_level: PrivilegeLevel,
    pub pc: uguest,
}

impl CPU {
    /// 32 registers and 4096 CSRs.
    pub open spec fn wf(&self) -> bool {
        &&& self.regs@.len() == REG_COUNT
        &&& self.csrs@.len() == CSR_COUNT
    }

    /// All registers and CSRs zero, machine mode, `pc` at the start of DRAM.
    pub fn new() -> (r: CPU)
        ensures
            r.wf(),
            forall|i: int| 0 <= i < REG_COUNT ==> r.regs@[i] == 0,
            forall|i: int| 0 <= i < CSR_COUNT ==> (#[trigger] r.csrs@[i]).0 == 0,
            r.privilege_level == PrivilegeLevel::Machine,
            r.pc == DRAM_BASE,
    {
        let mut regs: Vec<uguest> = Vec::new();
        let mut i: usize = 0;
        while i < REG_COUNT
            invariant
                i <= REG_COUNT,
                regs@.len() == i,
                forall|k: int| 0 <= k < i ==> regs@[k] == 0,
            decreases REG_COUNT - i,
        {
            regs.push(0);
            i += 1;
        }
        let mut csrs: Vec<CsrValue> = Vec::new();
        let mut j: usize = 0;
        while j < CSR_COUNT
            invariant
                j <= CSR_COUNT,
                csrs@.len() == j,
                forall|k: int| 0 <= k < j ==> (#[trigger] csrs@[k]).0 == 0,
            decreases CSR_COUNT - j,
        {
            csrs.push(CsrValue(0));
            j += 1;
        }
        CPU { regs, csrs, privilege_level: PrivilegeLevel::Machine, pc: DRAM_BASE }
    }

    /// The slot of register `reg`.
    pub fn reg(&mut self, reg: Reg) -> (r: &mut uguest)
        requires
            old(self).wf(),
        ensures
            *r == old(self).regs@[reg.index() as int],
            final(self).regs@ == old(self).regs@.update(reg.index() as int, *final(r)),
            final(self).csrs == old(self).csrs,
            final(self).privilege_level == old(self).privilege_level,
            final(self).pc == old(self).pc,
    {
        &mut self.regs[reg.idx()]
    }

    /// The slot of CSR `csr`.
    pub fn csr(&mut self, csr: CsrID) -> (r: &mut CsrValue)
        requires
            old(self).wf(),
            csr.addr() < CSR_COUNT,
        ensures
            *r == old(self).csrs@[csr.addr() as int],
            final(self).csrs@ == old(self).csrs@.update(csr.addr() as int, *final(r)),
            final(self).regs == old(self).regs,
            final(self).privilege_level == old(self).privilege_level,
            final(self).pc == old(self).pc,
    {
        &mut self.csrs[csr.get() as usize]
    }
}

} // verus!
