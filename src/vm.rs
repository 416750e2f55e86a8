use vstd::prelude::*;
use vstd::wrapping::u64_specs::{wrapping_add, wrapping_sub};

use crate::cpu::{PrivilegeLevel, CPU, REG_COUNT};
use crate::csr::{CsrID, CsrValue, CSR_COUNT};
use crate::error::EmulatorError;
use crate::instructions::{
    imm_b_signed, imm_i_of, imm_i_signed, imm_j_signed, imm_s_signed, imm_u_signed,
    lemma_field_bounds, rd_of, rs1_of, rs2_of, sext, sign_extend, to_guest, Instruction32,
};
use crate::mem::{
    dram_bytes, dram_writable, dram_write, in_dram, in_uart, le_bytes, le_value, valid_width, Memory, DRAM_BASE,
    UART_BASE,
};
use crate::raw_instructions::{
    decode, try_find_instruction32_desc, InstructionDescription32, InstructionRegistry, Mnemonic,
};
use crate::reg::Reg;

verus! {

/// Address of `mstatus`.
pub const MSTATUS: u16 = 0x300;

/// Address of `mepc`.
pub const MEPC: u16 = 0x341;

/// SYSTEM-opcode immediate of `mret`.
pub const MRET_IMM: u32 = 0x302;

/// The architectural state that instructions read and write.
pub struct HartState {
    pub regs: Seq<u64>,
    pub csrs: Seq<u64>,
    pub pc: u64,
    pub privilege: PrivilegeLevel,
    pub dram: Seq<u8>,
    pub uart: Seq<u8>,
}

/// A hart with its memory.
pub struct VM {
    pub mem: Memory,
    pub cpu: CPU,
}

impl View for VM {
    type V = HartState;

    open spec fn view(&self) -> HartState {
        HartState {
            regs: self.cpu.regs@,
            csrs: self.cpu.csrs@.map_values(|c: CsrValue| c.0),
            pc: self.cpu.pc,
            privilege: self.cpu.privilege_level,
            dram: self.mem.dram.inner@,
            uart: self.mem.uart.out@,
        }
    }
}

/// 32 registers and 4096 CSRs.
pub open spec fn state_wf(s: HartState) -> bool {
    s.regs.len() == REG_COUNT && s.csrs.len() == CSR_COUNT
}

/// `s` with register `i` set to `v`.
pub open spec fn with_reg(s: HartState, i: int, v: u64) -> HartState {
    HartState { regs: s.regs.update(i, v), csrs: s.csrs, pc: s.pc, privilege: s.privilege, dram: s.dram, uart: s.uart }
}

/// `s` with CSR `i` set to `v`.
pub open spec fn with_csr(s: HartState, i: int, v: u64) -> HartState {
    HartState { regs: s.regs, csrs: s.csrs.update(i, v), pc: s.pc, privilege: s.privilege, dram: s.dram, uart: s.uart }
}

/// A 32-bit result sign-extended to a register.
pub open spec fn sext32(x: u32) -> u64 {
    to_guest(sign_extend(x as int, 0x8000_0000))
}

/// The arithmetic, logic and shift operations; `b` is `rs2` or the sign-extended immediate.
pub open spec fn alu(m: Mnemonic, a: u64, b: u64) -> u64 {
    match m {
        Mnemonic::Add | Mnemonic::Addi => wrapping_add(a, b),
        Mnemonic::Sub => wrapping_sub(a, b),
        Mnemonic::Sll | Mnemonic::Slli => a << (b % 64),
        Mnemonic::Slt | Mnemonic::Slti => if (a as i64) < (b as i64) { 1 } else { 0 },
        Mnemonic::Sltu | Mnemonic::Sltiu => if a < b { 1 } else { 0 },
        Mnemonic::Xor | Mnemonic::Xori => a ^ b,
        Mnemonic::Srl | Mnemonic::Srli => a >> (b % 64),
        Mnemonic::Sra | Mnemonic::Srai => ((a as i64) >> (b % 64)) as u64,
        Mnemonic::Or | Mnemonic::Ori => a | b,
        Mnemonic::And | Mnemonic::Andi => a & b,
        Mnemonic::Addw | Mnemonic::Addiw => sext32(wrapping_add(a, b) as u32),
        Mnemonic::Subw => sext32(wrapping_sub(a, b) as u32),
        Mnemonic::Sllw | Mnemonic::Slliw => sext32((a as u32) << (b % 32)),
        Mnemonic::Srlw | Mnemonic::Srliw => sext32((a as u32) >> (b % 32)),
        Mnemonic::Sraw | Mnemonic::Sraiw => sext32((((a as u32) as i32) >> (b % 32)) as u32),
        _ => 0,
    }
}

/// Register-register arithmetic, logic and shifts.
pub open spec fn is_alu_r(m: Mnemonic) -> bool {
    matches!(m, Mnemonic::Add | Mnemonic::Sub | Mnemonic::Sll | Mnemonic::Slt | Mnemonic::Sltu
        | Mnemonic::Xor | Mnemonic::Srl | Mnemonic::Sra | Mnemonic::Or | Mnemonic::And
        | Mnemonic::Addw | Mnemonic::Subw | Mnemonic::Sllw | Mnemonic::Srlw | Mnemonic::Sraw)
}

/// Register-immediate arithmetic, logic and shifts.
pub open spec fn is_alu_i(m: Mnemonic) -> bool {
    matches!(m, Mnemonic::Addi | Mnemonic::Slli | Mnemonic::Slti | Mnemonic::Sltiu
        | Mnemonic::Xori | Mnemonic::Srli | Mnemonic::Srai | Mnemonic::Ori | Mnemonic::Andi
        | Mnemonic::Addiw | Mnemonic::Slliw | Mnemonic::Srliw | Mnemonic::Sraiw)
}

/// Loads.
pub open spec fn is_load(m: Mnemonic) -> bool {
    matches!(m, Mnemonic::Lb | Mnemonic::Lh | Mnemonic::Lw | Mnemonic::Ld | Mnemonic::Lbu
        | Mnemonic::Lhu | Mnemonic::Lwu | Mnemonic::Ldu)
}

/// Stores.
pub open spec fn is_store(m: Mnemonic) -> bool {
    matches!(m, Mnemonic::Sb | Mnemonic::Sh | Mnemonic::Sw | Mnemonic::Sd)
}

/// Conditional branches.
pub open spec fn is_branch(m: Mnemonic) -> bool {
    matches!(m, Mnemonic::Beq | Mnemonic::Bne | Mnemonic::Blt | Mnemonic::Bge | Mnemonic::Bltu
        | Mnemonic::Bgeu)
}

/// Bytes moved by a load or store.
pub open spec fn access_width(m: Mnemonic) -> u64 {
    match m {
        Mnemonic::Lb | Mnemonic::Lbu | Mnemonic::Sb => 1,
        Mnemonic::Lh | Mnemonic::Lhu | Mnemonic::Sh => 2,
        Mnemonic::Lw | Mnemonic::Lwu | Mnemonic::Sw => 4,
        _ => 8,
    }
}

/// Register value of a loaded little-endian quantity: sign- or zero-extended per mnemonic.
pub open spec fn load_extend(m: Mnemonic, v: nat) -> u64 {
    match m {
        Mnemonic::Lb => to_guest(sign_extend(v as int, 0x80)),
        Mnemonic::Lh => to_guest(sign_extend(v as int, 0x8000)),
        Mnemonic::Lw => to_guest(sign_extend(v as int, 0x8000_0000)),
        _ => v as u64,
    }
}

/// Whether a branch is taken.
pub open spec fn branch_taken(m: Mnemonic, a: u64, b: u64) -> bool {
    match m {
        Mnemonic::Beq => a == b,
        Mnemonic::Bne => a != b,
        Mnemonic::Blt => (a as i64) < (b as i64),
        Mnemonic::Bge => (a as i64) >= (b as i64),
        Mnemonic::Bltu => a < b,
        _ => a >= b,
    }
}

/// Little-endian value of `width` bytes at `addr`, if the memory accepts the access.
pub open spec fn mem_read(s: HartState, addr: u64, width: u64) -> Option<nat> {
    if in_dram(addr, width as int) {
        Some(le_value(dram_bytes(s.dram, addr, width as nat)))
    } else {
        None
    }
}

/// State after writing `bytes` at `addr`, if the memory accepts the access.
pub open spec fn mem_write(s: HartState, addr: u64, bytes: Seq<u8>) -> Option<HartState> {
    if in_dram(addr, bytes.len() as int) {
        if dram_writable(addr, bytes.len() as int) {
            Some(HartState { dram: dram_write(s.dram, addr - DRAM_BASE, bytes), ..s })
        } else {
            None
        }
    } else if in_uart(addr, bytes.len() as int) {
        Some(HartState {
            uart: if addr == UART_BASE && bytes.len() > 0 { s.uart.push(bytes[0]) } else { s.uart },
            ..s
        })
    } else {
        None
    }
}

/// `pc + offset`, if it stays in the address space.
pub open spec fn pc_offset(pc: u64, offset: int) -> Result<u64, EmulatorError> {
    if 0 <= pc + offset <= u64::MAX {
        Ok((pc + offset) as u64)
    } else {
        Err(EmulatorError::ArithmeticOverflow)
    }
}

/// The effect of the semantic action of `m` on word `w`: the new state, and the new `pc`
/// when the action sets it.
pub open spec fn action(s: HartState, m: Mnemonic, w: u32) -> Result<(HartState, Option<u64>), EmulatorError> {
    let v1 = s.regs[rs1_of(w) as int];
    let v2 = s.regs[rs2_of(w) as int];
    let rd = rd_of(w) as int;
    let csr = imm_i_of(w) as int;
    if is_alu_r(m) {
        Ok((with_reg(s, rd, alu(m, v1, v2)), None))
    } else if is_alu_i(m) {
        Ok((with_reg(s, rd, alu(m, v1, to_guest(imm_i_signed(w)))), None))
    } else if is_load(m) {
        match mem_read(s, wrapping_add(v1, to_guest(imm_i_signed(w))), access_width(m)) {
            Some(v) => Ok((with_reg(s, rd, load_extend(m, v)), None)),
            None => Err(EmulatorError::OutOfBoundsAccess),
        }
    } else if is_store(m) {
        match mem_write(s, wrapping_add(v1, to_guest(imm_s_signed(w))), le_bytes(v2 as nat, access_width(m) as nat)) {
            Some(t) => Ok((t, None)),
            None => Err(EmulatorError::OutOfBoundsAccess),
        }
    } else if is_branch(m) {
        if branch_taken(m, v1, v2) {
            match pc_offset(s.pc, imm_b_signed(w)) {
                Ok(t) => Ok((s, Some(t))),
                Err(e) => Err(e),
            }
        } else {
            Ok((s, None))
        }
    } else {
        match m {
            Mnemonic::Jal => match pc_offset(s.pc, imm_j_signed(w)) {
                Ok(t) => Ok((with_reg(s, rd, (s.pc + 4) as u64), Some(t))),
                Err(e) => Err(e),
            },
            Mnemonic::Jalr => Ok((with_reg(s, rd, (s.pc + 4) as u64), Some(wrapping_add(v1, to_guest(imm_i_signed(w)))))),
            Mnemonic::Lui => Ok((with_reg(s, rd, to_guest(imm_u_signed(w))), None)),
            Mnemonic::Auipc => Ok((with_reg(s, rd, wrapping_add(s.pc, to_guest(imm_u_signed(w)))), None)),
            Mnemonic::Fence | Mnemonic::Fencei => Ok((s, None)),
            Mnemonic::Ecall => if imm_i_of(w) == MRET_IMM {
                Ok((
                    HartState { privilege: PrivilegeLevel::from_bits((s.csrs[MSTATUS as int] >> 11u64) % 4), ..s },
                    Some(s.csrs[MEPC as int]),
                ))
            } else if imm_i_of(w) == 0 || imm_i_of(w) == 1 {
                Err(EmulatorError::UnhandledTrap)
            } else {
                Err(EmulatorError::UnknownInstruction)
            },
            Mnemonic::Ebreak => Err(EmulatorError::UnhandledTrap),
            Mnemonic::Csrrw => Ok((with_reg(with_csr(s, csr, v1), rd, s.csrs[csr]), None)),
            Mnemonic::Csrrs | Mnemonic::Csrrc => if rs1_of(w) == 0 {
                Ok((with_reg(s, rd, s.csrs[csr]), None))
            } else {
                Err(EmulatorError::UnsupportedCsrOperation)
            },
            _ => Err(EmulatorError::UnsupportedCsrOperation),
        }
    }
}

/// One retired instruction: the action, then `pc` moves to the action's target or past the
/// word, and register 0 is reset to zero.
pub open spec fn retire(s: HartState, m: Mnemonic, w: u32) -> Result<HartState, EmulatorError> {
    if s.pc > u64::MAX - 4 {
        Err(EmulatorError::ArithmeticOverflow)
    } else {
        match action(s, m, w) {
            Err(e) => Err(e),
            Ok((t, jump)) => Ok(HartState {
                regs: t.regs.update(0, 0),
                pc: match jump {
                    Some(p) => p,
                    None => (s.pc + 4) as u64,
                },
                ..t
            }),
        }
    }
}

/// One fetch-execute step: `Ok(None)` when the word at `pc` is zero (nothing loaded there).
pub open spec fn next_state(s: HartState) -> Result<Option<HartState>, EmulatorError> {
    match mem_read(s, s.pc, 4) {
        None => Err(EmulatorError::OutOfBoundsAccess),
        Some(v) => if v == 0 {
            Ok(None)
        } else {
            match decode(v as u32) {
                Err(e) => Err(e),
                Ok(m) => match retire(s, m, v as u32) {
                    Ok(t) => Ok(Some(t)),
                    Err(e) => Err(e),
                },
            }
        },
    }
}

/// The state after the semantic action of `m` on `w`, and the result it returns.
pub open spec fn action_done(
    before: HartState,
    after: HartState,
    m: Mnemonic,
    w: u32,
    r: Result<Option<u64>, EmulatorError>,
) -> bool {
    match action(before, m, w) {
        Ok((t, j)) => r == Ok::<Option<u64>, EmulatorError>(j) && after == t,
        Err(e) => r == Err::<Option<u64>, EmulatorError>(e) && after == before,
    }
}

/// The arithmetic, logic and shift operations.
pub fn alu_exec(m: Mnemonic, a: u64, b: u64) -> (r: u64)
    ensures
        r == alu(m, a, b),
{
    match m {
        Mnemonic::Add | Mnemonic::Addi => a.wrapping_add(b),
        Mnemonic::Sub => a.wrapping_sub(b),
        Mnemonic::Sll | Mnemonic::Slli => a << (b % 64),
        Mnemonic::Slt | Mnemonic::Slti => if (a as i64) < (b as i64) { 1 } else { 0 },
        Mnemonic::Sltu | Mnemonic::Sltiu => if a < b { 1 } else { 0 },
        Mnemonic::Xor | Mnemonic::Xori => a ^ b,
        Mnemonic::Srl | Mnemonic::Srli => a >> (b % 64),
        Mnemonic::Sra | Mnemonic::Srai => ((a as i64) >> (b % 64)) as u64,
        Mnemonic::Or | Mnemonic::Ori => a | b,
        Mnemonic::And | Mnemonic::Andi => a & b,
        Mnemonic::Addw | Mnemonic::Addiw => sext(a.wrapping_add(b) as u32 as u64, 0x8000_0000),
        Mnemonic::Subw => sext(a.wrapping_sub(b) as u32 as u64, 0x8000_0000),
        Mnemonic::Sllw | Mnemonic::Slliw => sext(((a as u32) << (b % 32)) as u64, 0x8000_0000),
        Mnemonic::Srlw | Mnemonic::Srliw => sext(((a as u32) >> (b % 32)) as u64, 0x8000_0000),
        Mnemonic::Sraw | Mnemonic::Sraiw => sext(
            ((((a as u32) as i32) >> (b % 32)) as u32) as u64,
            0x8000_0000,
        ),
        _ => 0,
    }
}

/// Whether a branch is taken.
pub fn branch_taken_exec(m: Mnemonic, a: u64, b: u64) -> (r: bool)
    ensures
        r == branch_taken(m, a, b),
{
    match m {
        Mnemonic::Beq => a == b,
        Mnemonic::Bne => a != b,
        Mnemonic::Blt => (a as i64) < (b as i64),
        Mnemonic::Bge => (a as i64) >= (b as i64),
        Mnemonic::Bltu => a < b,
        _ => a >= b,
    }
}

/// Signed value of a raw immediate whose sign bit has weight `sign_bit`.
fn signed_imm(raw: u32, sign_bit: u32) -> (r: i64)
    requires
        0 < sign_bit <= 0x4000_0000,
        raw < 2 * sign_bit,
    ensures
        r == sign_extend(raw as int, sign_bit as int),
{
    if raw >= sign_bit {
        raw as i64 - 2 * sign_bit as i64
    } else {
        raw as i64
    }
}

/// `pc + offset`, failing when it leaves the address space.
fn add_offset(pc: u64, offset: i64) -> (r: Result<u64, EmulatorError>)
    ensures
        r == pc_offset(pc, offset as int),
{
    match pc.checked_add_signed(offset) {
        Some(t) => Ok(t),
        None => Err(EmulatorError::ArithmeticOverflow),
    }
}

impl VM {
    /// 32 registers and 4096 CSRs.
    pub open spec fn wf(&self) -> bool {
        self.cpu.wf()
    }

    /// A hart in its reset state with `program` loaded at the start of DRAM.
    pub fn new(program: Vec<u8>) -> (r: VM)
        ensures
            r.wf(),
            forall|i: int| 0 <= i < REG_COUNT ==> r@.regs[i] == 0,
            forall|i: int| 0 <= i < CSR_COUNT ==> r@.csrs[i] == 0,
            r@.pc == DRAM_BASE,
            r@.privilege == PrivilegeLevel::Machine,
            r@.dram == program@,
            r@.uart == Seq::<u8>::empty(),
    {
        VM { mem: Memory::with_program(program), cpu: CPU::new() }
    }

    /// Value of register `r`.
    pub fn read_reg(&self, r: Reg) -> (v: u64)
        requires
            self.wf(),
        ensures
            v == self@.regs[r.index() as int],
    {
        self.cpu.regs[r.idx()]
    }

    /// Value of the CSR at address `id`.
    pub fn read_csr(&self, id: u16) -> (v: u64)
        requires
            self.wf(),
            id < CSR_COUNT,
        ensures
            v == self@.csrs[id as int],
    {
        self.cpu.csrs[id as usize].0
    }

    /// Stores `v` in register `r`.
    pub fn write_reg(&mut self, r: Reg, v: u64)
        requires
            old(self).wf(),
        ensures
            final(self).wf(),
            final(self)@ == with_reg(old(self)@, r.index() as int, v),
    {
        *self.cpu.reg(r) = v;
        assert(self@.regs =~= old(self)@.regs.update(r.index() as int, v));
    }

    /// Stores `v` in the CSR at address `id`, through its write handler.
    pub fn write_csr(&mut self, id: u16, v: u64)
        requires
            old(self).wf(),
            id < CSR_COUNT,
        ensures
            final(self).wf(),
            final(self)@ == with_csr(old(self)@, id as int, v),
    {
        let csr = CsrID::new(id);
        let stored = crate::csr::pass_through_write(csr, v);
        self.cpu.csr(csr).0 = stored;
        assert(self@.csrs =~= old(self)@.csrs.update(id as int, v));
    }

    fn exec_alu(&mut self, m: Mnemonic, inst: Instruction32) -> (r: Result<Option<u64>, EmulatorError>)
        requires
            old(self).wf(),
            is_alu_r(m) || is_alu_i(m),
        ensures
            final(self).wf(),
            action_done(old(self)@, final(self)@, m, inst.0, r),
    {
        let (rs1, rs2, rd) = inst.parse_r();
        let v1 = self.read_reg(rs1);
        let b = if is_alu_r_exec(m) {
            self.read_reg(rs2)
        } else {
            let (imm, _, _) = inst.parse_i();
            proof {
                lemma_field_bounds(inst.0);
            }
            sext(imm as u64, 0x800)
        };
        let v = alu_exec(m, v1, b);
        self.write_reg(rd, v);
        Ok(None)
    }

    fn exec_load(&mut self, m: Mnemonic, inst: Instruction32) -> (r: Result<Option<u64>, EmulatorError>)
        requires
            old(self).wf(),
            is_load(m),
        ensures
            final(self).wf(),
            action_done(old(self)@, final(self)@, m, inst.0, r),
    {
        let (imm, rs1, rd) = inst.parse_i();
        proof {
            lemma_field_bounds(inst.0);
            reveal_with_fuel(crate::mem::pow256, 9);
        }
        let addr = self.read_reg(rs1).wrapping_add(sext(imm as u64, 0x800));
        let width: u64 = match m {
            Mnemonic::Lb | Mnemonic::Lbu => 1,
            Mnemonic::Lh | Mnemonic::Lhu => 2,
            Mnemonic::Lw | Mnemonic::Lwu => 4,
            _ => 8,
        };
        assert(width == access_width(m));
        proof {
            crate::mem::lemma_le_value_bound(dram_bytes(old(self)@.dram, addr, width as nat));
        }
        let v = self.mem.get(addr, width)?;
        let value = match m {
            Mnemonic::Lb => sext(v, 0x80),
            Mnemonic::Lh => sext(v, 0x8000),
            Mnemonic::Lw => sext(v, 0x8000_0000),
            _ => v,
        };
        self.write_reg(rd, value);
        Ok(None)
    }

    fn exec_store(&mut self, m: Mnemonic, inst: Instruction32) -> (r: Result<Option<u64>, EmulatorError>)
        requires
            old(self).wf(),
            is_store(m),
        ensures
            final(self).wf(),
            action_done(old(self)@, final(self)@, m, inst.0, r),
    {
        let (imm, rs1, rs2) = inst.parse_s();
        proof {
            lemma_field_bounds(inst.0);
        }
        let addr = self.read_reg(rs1).wrapping_add(sext(imm as u64, 0x800));
        let v2 = self.read_reg(rs2);
        let width: u64 = match m {
            Mnemonic::Sb => 1,
            Mnemonic::Sh => 2,
            Mnemonic::Sw => 4,
            _ => 8,
        };
        proof {
            crate::mem::lemma_le_bytes_len(v2 as nat, width as nat);
        }
        self.mem.set(addr, width, v2)?;
        Ok(None)
    }

    fn exec_branch(&mut self, m: Mnemonic, inst: Instruction32) -> (r: Result<Option<u64>, EmulatorError>)
        requires
            old(self).wf(),
            is_branch(m),
        ensures
            final(self).wf(),
            action_done(old(self)@, final(self)@, m, inst.0, r),
    {
        let (imm, rs1, rs2) = inst.parse_b();
        proof {
            lemma_field_bounds(inst.0);
        }
        let v1 = self.read_reg(rs1);
        let v2 = self.read_reg(rs2);
        if branch_taken_exec(m, v1, v2) {
            let target = add_offset(self.cpu.pc, signed_imm(imm as u32, 0x1000))?;
            Ok(Some(target))
        } else {
            Ok(None)
        }
    }

    fn exec_system(&mut self, m: Mnemonic, inst: Instruction32) -> (r: Result<Option<u64>, EmulatorError>)
        requires
            old(self).wf(),
            m == Mnemonic::Ecall || m == Mnemonic::Ebreak || m == Mnemonic::Csrrw || m
                == Mnemonic::Csrrs || m == Mnemonic::Csrrc || m == Mnemonic::Csrrwi || m
                == Mnemonic::Csrrsi || m == Mnemonic::Csrrci,
        ensures
            final(self).wf(),
            action_done(old(self)@, final(self)@, m, inst.0, r),
    {
        let (imm, rs1, rd) = inst.parse_i();
        proof {
            lemma_field_bounds(inst.0);
        }
        match m {
            Mnemonic::Ecall => {
                if imm as u32 == MRET_IMM {
                    let mepc = self.read_csr(MEPC);
                    let mstatus = self.read_csr(MSTATUS);
                    self.cpu.privilege_level = PrivilegeLevel::from_mpp(mstatus >> 11u64);
                    Ok(Some(mepc))
                } else if imm == 0 || imm == 1 {
                    Err(EmulatorError::UnhandledTrap)
                } else {
                    Err(EmulatorError::UnknownInstruction)
                }
            },
            Mnemonic::Ebreak => Err(EmulatorError::UnhandledTrap),
            Mnemonic::Csrrw => {
                let v1 = self.read_reg(rs1);
                let prev = self.read_csr(imm);
                self.write_csr(imm, v1);
                self.write_reg(rd, prev);
                Ok(None)
            },
            Mnemonic::Csrrs | Mnemonic::Csrrc => {
                if rs1 == Reg::zero {
                    let v = self.read_csr(imm);
                    self.write_reg(rd, v);
                    Ok(None)
                } else {
                    Err(EmulatorError::UnsupportedCsrOperation)
                }
            },
            _ => Err(EmulatorError::UnsupportedCsrOperation),
        }
    }
}

/// Whether `m` is a register-register arithmetic, logic or shift instruction.
fn is_alu_r_exec(m: Mnemonic) -> (r: bool)
    ensures
        r == is_alu_r(m),
{
    matches!(m, Mnemonic::Add | Mnemonic::Sub | Mnemonic::Sll | Mnemonic::Slt | Mnemonic::Sltu
        | Mnemonic::Xor | Mnemonic::Srl | Mnemonic::Sra | Mnemonic::Or | Mnemonic::And
        | Mnemonic::Addw | Mnemonic::Subw | Mnemonic::Sllw | Mnemonic::Srlw | Mnemonic::Sraw)
}

/// How a bounded run ended without error.
#[derive(Debug, Clone, Copy, PartialEq, Eq, Structural)]
pub enum RunExit {
    /// A zero word was fetched: nothing is loaded at `pc`.
    Halted,
    /// The step budget ran out.
    StepLimit,
}

/// The outcome and final state of at most `n` steps from `s`.
pub open spec fn run_steps(s: HartState, n: nat) -> (Result<RunExit, EmulatorError>, HartState)
    decreases n,
{
    if n == 0 {
        (Ok(RunExit::StepLimit), s)
    } else {
        match next_state(s) {
            Err(e) => (Err(e), s),
            Ok(None) => (Ok(RunExit::Halted), s),
            Ok(Some(t)) => run_steps(t, (n - 1) as nat),
        }
    }
}

impl VM {
    /// Executes one decoded instruction: its semantic action, the `pc` update (the action's
    /// target, else the next word) and the reset of register 0. On error nothing changes.
    pub fn execute(&mut self, d: InstructionDescription32, inst: Instruction32) -> (r: Result<(), EmulatorError>)
        requires
            old(self).wf(),
        ensures
            final(self).wf(),
            match retire(old(self)@, d.name, inst.0) {
                Ok(t) => r is Ok && final(self)@ == t,
                Err(e) => r == Err::<(), EmulatorError>(e) && final(self)@ == old(self)@,
            },
    {
        if self.cpu.pc > u64::MAX - 4 {
            return Err(EmulatorError::ArithmeticOverflow);
        }
        let m = d.name;
        let pc = self.cpu.pc;
        proof {
            lemma_field_bounds(inst.0);
        }
        let jump = match m {
            Mnemonic::Jal => {
                let (imm, rd) = inst.parse_j();
                let target = add_offset(pc, signed_imm(imm, 0x10_0000))?;
                self.write_reg(rd, pc + 4);
                Some(target)
            },
            Mnemonic::Jalr => {
                let (imm, rs1, rd) = inst.parse_i();
                let target = self.read_reg(rs1).wrapping_add(sext(imm as u64, 0x800));
                self.write_reg(rd, pc + 4);
                Some(target)
            },
            Mnemonic::Lui => {
                let (imm, rd) = inst.parse_u();
                self.write_reg(rd, sext(imm as u64, 0x8000_0000));
                None
            },
            Mnemonic::Auipc => {
                let (imm, rd) = inst.parse_u();
                self.write_reg(rd, pc.wrapping_add(sext(imm as u64, 0x8000_0000)));
                None
            },
            Mnemonic::Fence | Mnemonic::Fencei => None,
            Mnemonic::Lb | Mnemonic::Lh | Mnemonic::Lw | Mnemonic::Ld | Mnemonic::Lbu
            | Mnemonic::Lhu | Mnemonic::Lwu | Mnemonic::Ldu => self.exec_load(m, inst)?,
            Mnemonic::Sb | Mnemonic::Sh | Mnemonic::Sw | Mnemonic::Sd => self.exec_store(m, inst)?,
            Mnemonic::Beq | Mnemonic::Bne | Mnemonic::Blt | Mnemonic::Bge | Mnemonic::Bltu
            | Mnemonic::Bgeu => self.exec_branch(m, inst)?,
            Mnemonic::Ecall | Mnemonic::Ebreak | Mnemonic::Csrrw | Mnemonic::Csrrs
            | Mnemonic::Csrrc | Mnemonic::Csrrwi | Mnemonic::Csrrsi | Mnemonic::Csrrci => self.exec_system(m, inst)?,
            _ => self.exec_alu(m, inst)?,
        };
        self.cpu.pc = match jump {
            Some(target) => target,
            None => pc + 4,
        };
        self.write_reg(Reg::zero, 0);
        Ok(())
    }

    /// One fetch-execute step. `Ok(true)`: an instruction retired; `Ok(false)`: the word at
    /// `pc` is zero and nothing changed. On error nothing changes.
    pub fn step(&mut self, registry: &InstructionRegistry) -> (r: Result<bool, EmulatorError>)
        requires
            old(self).wf(),
            registry.wf(),
        ensures
            final(self).wf(),
            match next_state(old(self)@) {
                Ok(Some(t)) => r == Ok::<bool, EmulatorError>(true) && final(self)@ == t,
                Ok(None) => r == Ok::<bool, EmulatorError>(false) && final(self)@ == old(self)@,
                Err(e) => r == Err::<bool, EmulatorError>(e) && final(self)@ == old(self)@,
            },
    {
        proof {
            crate::mem::lemma_le_value_bound(dram_bytes(self@.dram, self@.pc, 4));
            reveal_with_fuel(crate::mem::pow256, 5);
        }
        let w = self.mem.get(self.cpu.pc, 4)?;
        if w == 0 {
            return Ok(false);
        }
        let inst = Instruction32(w as u32);
        let d = try_find_instruction32_desc(registry, inst)?;
        self.execute(d, inst)?;
        Ok(true)
    }

    /// The fetch-execute loop, for at most `max_steps` steps. It stops at a zero word, at the
    /// first error (leaving the state of the last retired instruction), or at the step limit.
    pub fn run(&mut self, registry: &InstructionRegistry, max_steps: u64) -> (r: Result<RunExit, EmulatorError>)
        requires
            old(self).wf(),
            registry.wf(),
        ensures
            final(self).wf(),
            r == run_steps(old(self)@, max_steps as nat).0,
            final(self)@ == run_steps(old(self)@, max_steps as nat).1,
    {
        let mut left = max_steps;
        while left > 0
            invariant
                self.wf(),
                registry.wf(),
                run_steps(old(self)@, max_steps as nat) == run_steps(self@, left as nat),
            decreases left,
        {
            match self.step(registry) {
                Ok(true) => {},
                Ok(false) => return Ok(RunExit::Halted),
                Err(e) => return Err(e),
            }
            left -= 1;
        }
        Ok(RunExit::StepLimit)
    }
}

/// The register file keeps its 32 slots through any semantic action.
proof fn lemma_action_keeps_regs_len(s: HartState, m: Mnemonic, w: u32)
    requires
        state_wf(s),
    ensures
        action(s, m, w) matches Ok((t, _)) ==> t.regs.len() == REG_COUNT,
{
    lemma_field_bounds(w);
}

/// After every retired instruction register 0 reads 0, whatever the instruction wrote to it.
pub proof fn lemma_register_zero(s: HartState)
    requires
        state_wf(s),
    ensures
        next_state(s) matches Ok(Some(t)) ==> t.regs[0] == 0 && state_wf(t),
{
    if let Some(v) = mem_read(s, s.pc, 4) {
        if let Ok(m) = decode(v as u32) {
            lemma_action_keeps_regs_len(s, m, v as u32);
            lemma_field_bounds(v as u32);
        }
    }
}

/// Register 0 reads 0 after a run that retired at least one instruction, and at every point of
/// a run that starts with it at 0 (as every hart does after reset).
pub proof fn lemma_run_register_zero(s: HartState, n: nat)
    requires
        state_wf(s),
    ensures
        state_wf(run_steps(s, n).1),
        run_steps(s, n).1 != s ==> run_steps(s, n).1.regs[0] == 0,
        s.regs[0] == 0 ==> run_steps(s, n).1.regs[0] == 0,
    decreases n,
{
    if n > 0 {
        lemma_register_zero(s);
        if let Ok(Some(t)) = next_state(s) {
            lemma_register_zero(t);
            lemma_run_register_zero(t, (n - 1) as nat);
        }
    }
}

} // verus!
