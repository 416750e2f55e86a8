use vstd::prelude::*;

use crate::error::EmulatorError;
use crate::raw_instructions::{
    decode, find_instruction32_desc, try_find_instruction32_desc, Imm, Instruction32Format,
    InstructionRegistry, JImm, Rd, Rs1, Rs2, UImm,
};
use crate::reg::Reg;

verus! {

/// Bits [6:0] of a word.
pub open spec fn opcode_of(w: u32) -> u32 {
    w & 0x7f
}

/// Bits [11:7] of a word.
pub open spec fn rd_of(w: u32) -> u32 {
    (w >> 7u32) & 0x1f
}

/// Bits [14:12] of a word.
pub open spec fn funct3_of(w: u32) -> u32 {
    (w >> 12u32) & 0x7
}

/// Bits [19:15] of a word.
pub open spec fn rs1_of(w: u32) -> u32 {
    (w >> 15u32) & 0x1f
}

/// Bits [24:20] of a word.
pub open spec fn rs2_of(w: u32) -> u32 {
    (w >> 20u32) & 0x1f
}

/// Bits [31:25] of a word.
pub open spec fn funct7_of(w: u32) -> u32 {
    w >> 25u32
}

/// I-format: bits [31:20] give imm[11:0].
pub open spec fn imm_i_of(w: u32) -> u32 {
    w >> 20u32
}

/// S-format: bits [11:7] give imm[4:0], bits [31:25] give imm[11:5].
pub open spec fn imm_s_of(w: u32) -> u32 {
    ((w >> 7u32) & 0x1f) | ((w >> 25u32) << 5u32)
}

/// B-format: bits [11:8] give imm[4:1], bits [30:25] imm[10:5], bit 7 imm[11], bit 31 imm[12].
pub open spec fn imm_b_of(w: u32) -> u32 {
    (((w >> 8u32) & 0xf) << 1u32) | (((w >> 25u32) & 0x3f) << 5u32) | (((w >> 7u32) & 1)
        << 11u32) | ((w >> 31u32) << 12u32)
}

/// U-format: bits [31:12] stay in place, bits [11:0] are zero.
pub open spec fn imm_u_of(w: u32) -> u32 {
    w & 0xFFFF_F000
}

/// J-format: bits [30:21] give imm[10:1], bit 20 imm[11], bits [19:12] imm[19:12], bit 31 imm[20].
pub open spec fn imm_j_of(w: u32) -> u32 {
    (((w >> 21u32) & 0x3ff) << 1u32) | (((w >> 20u32) & 1) << 11u32) | (w & 0xF_F000) | ((w
        >> 31u32) << 20u32)
}

/// Two's complement reading of `v`, whose sign bit has weight `sign_bit`.
pub open spec fn sign_extend(v: int, sign_bit: int) -> int {
    if v >= sign_bit {
        v - 2 * sign_bit
    } else {
        v
    }
}

/// The 64-bit register pattern of a signed or unsigned value.
pub open spec fn to_guest(i: int) -> u64 {
    if i < 0 {
        (i + 0x1_0000_0000_0000_0000) as u64
    } else {
        i as u64
    }
}

/// Signed value of the I-format immediate.
pub open spec fn imm_i_signed(w: u32) -> int {
    sign_extend(imm_i_of(w) as int, 0x800)
}

/// Signed value of the S-format immediate.
pub open spec fn imm_s_signed(w: u32) -> int {
    sign_extend(imm_s_of(w) as int, 0x800)
}

/// Signed value of the B-format immediate (a branch offset).
pub open spec fn imm_b_signed(w: u32) -> int {
    sign_extend(imm_b_of(w) as int, 0x1000)
}

/// Signed value of the U-format immediate.
pub open spec fn imm_u_signed(w: u32) -> int {
    sign_extend(imm_u_of(w) as int, 0x8000_0000)
}

/// Signed value of the J-format immediate (a jump offset).
pub open spec fn imm_j_signed(w: u32) -> int {
    sign_extend(imm_j_of(w) as int, 0x10_0000)
}

/// Ranges of the raw fields and immediates of any word.
pub proof fn lemma_field_bounds(w: u32)
    ensures
        opcode_of(w) < 128,
        rd_of(w) < 32,
        funct3_of(w) < 8,
        rs1_of(w) < 32,
        rs2_of(w) < 32,
        funct7_of(w) < 128,
        imm_i_of(w) < 0x1000,
        imm_s_of(w) < 0x1000,
        imm_b_of(w) < 0x2000,
        imm_j_of(w) < 0x20_0000,
{
    assert(w & 0x7f < 128 && (w >> 7u32) & 0x1f < 32 && (w >> 12u32) & 0x7 < 8 && (w >> 15u32)
        & 0x1f < 32 && (w >> 20u32) & 0x1f < 32 && w >> 25u32 < 128 && w >> 20u32 < 0x1000 && (((
    w >> 7u32) & 0x1f) | ((w >> 25u32) << 5u32)) < 0x1000 && ((((w >> 8u32) & 0xf) << 1u32) | (((w
        >> 25u32) & 0x3f) << 5u32) | (((w >> 7u32) & 1) << 11u32) | ((w >> 31u32) << 12u32))
        < 0x2000 && ((((w >> 21u32) & 0x3ff) << 1u32) | (((w >> 20u32) & 1) << 11u32) | (w
        & 0xF_F000) | ((w >> 31u32) << 20u32)) < 0x20_0000) by (bit_vector);
}

/// Shape of the reconstructed immediates of any word: B- and J-format offsets are even, and
/// the U-format immediate has its low 12 bits clear, before and after sign extension.
pub proof fn lemma_immediate_shape(w: u32)
    ensures
        imm_b_of(w) % 2 == 0,
        imm_b_signed(w) % 2 == 0,
        imm_j_of(w) % 2 == 0,
        imm_j_signed(w) % 2 == 0,
        imm_u_of(w) % 0x1000 == 0,
        imm_u_signed(w) % 0x1000 == 0,
{
    assert(((((w >> 8u32) & 0xf) << 1u32) | (((w >> 25u32) & 0x3f) << 5u32) | (((w >> 7u32) & 1)
        << 11u32) | ((w >> 31u32) << 12u32)) % 2 == 0 && ((((w >> 21u32) & 0x3ff) << 1u32) | (((w
        >> 20u32) & 1) << 11u32) | (w & 0xF_F000) | ((w >> 31u32) << 20u32)) % 2 == 0 && (w
        & 0xFFFF_F000) % 0x1000 == 0) by (bit_vector);
}

/// Sign-extends a raw immediate whose sign bit has weight `sign_bit` to a register value.
pub fn sext(raw: u64, sign_bit: u64) -> (r: u64)
    requires
        0 < sign_bit <= 0x8000_0000_0000_0000,
        raw < 2 * sign_bit,
    ensures
        r == to_guest(sign_extend(raw as int, sign_bit as int)),
{
    if raw >= sign_bit {
        raw.wrapping_sub(sign_bit).wrapping_sub(sign_bit)
    } else {
        raw
    }
}

/// A full-width (32-bit) instruction word.
#[derive(Clone, Copy, Debug, PartialEq, Eq, Structural)]
pub struct Instruction32(pub u32);

impl Instruction32 {
    /// Bits [6:0].
    pub fn opcode(self) -> (r: u8)
        ensures
            r == opcode_of(self.0),
            r < 128,
    {
        proof {
            lemma_field_bounds(self.0);
        }
        (self.0 & 0x7f) as u8
    }

    /// Bits [11:7], the destination register number.
    pub fn _raw_rd(self) -> (r: u8)
        ensures
            r == rd_of(self.0),
            r < 32,
    {
        proof {
            lemma_field_bounds(self.0);
        }
        ((self.0 >> 7u32) & 0x1f) as u8
    }

    /// Bits [19:15], the first source register number.
    pub fn _raw_rs1(self) -> (r: u8)
        ensures
            r == rs1_of(self.0),
            r < 32,
    {
        proof {
            lemma_field_bounds(self.0);
        }
        ((self.0 >> 15u32) & 0x1f) as u8
    }

    /// Bits [24:20], the second source register number.
    pub fn _raw_rs2(self) -> (r: u8)
        ensures
            r == rs2_of(self.0),
            r < 32,
    {
        proof {
            lemma_field_bounds(self.0);
        }
        ((self.0 >> 20u32) & 0x1f) as u8
    }

    /// Destination register.
    pub fn rd(self) -> (r: Reg)
        ensures
            r.index() == rd_of(self.0),
    {
        Reg::new(self._raw_rd())
    }

    /// First source register.
    pub fn rs1(self) -> (r: Reg)
        ensures
            r.index() == rs1_of(self.0),
    {
        Reg::new(self._raw_rs1())
    }

    /// Second source register.
    pub fn rs2(self) -> (r: Reg)
        ensures
            r.index() == rs2_of(self.0),
    {
        Reg::new(self._raw_rs2())
    }

    /// Bits [14:12].
    pub fn fun3(self) -> (r: u32)
        ensures
            r == funct3_of(self.0),
            r < 8,
    {
        proof {
            lemma_field_bounds(self.0);
        }
        (self.0 >> 12u32) & 0x7
    }

    /// Bits [31:25].
    pub fn fun7(self) -> (r: u32)
        ensures
            r == funct7_of(self.0),
            r < 128,
    {
        proof {
            lemma_field_bounds(self.0);
        }
        self.0 >> 25u32
    }

    /// Operands of an R-format instruction.
    pub fn parse_r(self) -> (r: (Rs1, Rs2, Rd))
        ensures
            r.0.index() == rs1_of(self.0),
            r.1.index() == rs2_of(self.0),
            r.2.index() == rd_of(self.0),
    {
        (self.rs1(), self.rs2(), self.rd())
    }

    /// Operands of an I-format instruction: raw 12-bit immediate, source and destination.
    pub fn parse_i(self) -> (r: (Imm, Rs1, Rd))
        ensures
            r.0 == imm_i_of(self.0),
            r.1.index() == rs1_of(self.0),
            r.2.index() == rd_of(self.0),
    {
        proof {
            lemma_field_bounds(self.0);
        }
        ((self.0 >> 20u32) as u16, self.rs1(), self.rd())
    }

    /// Operands of an S-format instruction: raw 12-bit immediate and the two sources.
    pub fn parse_s(self) -> (r: (Imm, Rs1, Rs2))
        ensures
            r.0 == imm_s_of(self.0),
            r.1.index() == rs1_of(self.0),
            r.2.index() == rs2_of(self.0),
    {
        proof {
            lemma_field_bounds(self.0);
        }
        ((((self.0 >> 7u32) & 0x1f) | ((self.0 >> 25u32) << 5u32)) as u16, self.rs1(), self.rs2())
    }

    /// Operands of a B-format instruction: raw 13-bit even offset and the two sources.
    pub fn parse_b(self) -> (r: (Imm, Rs1, Rs2))
        ensures
            r.0 == imm_b_of(self.0),
            r.1.index() == rs1_of(self.0),
            r.2.index() == rs2_of(self.0),
    {
        proof {
            lemma_field_bounds(self.0);
        }
        let w = self.0;
        let imm = (((w >> 8u32) & 0xf) << 1u32) | (((w >> 25u32) & 0x3f) << 5u32) | (((w >> 7u32)
            & 1) << 11u32) | ((w >> 31u32) << 12u32);
        (imm as u16, self.rs1(), self.rs2())
    }

    /// Operands of a U-format instruction: the immediate in place, and the destination.
    pub fn parse_u(self) -> (r: (UImm, Rd))
        ensures
            r.0 == imm_u_of(self.0),
            r.1.index() == rd_of(self.0),
    {
        (self.0 & 0xFFFF_F000, self.rd())
    }

    /// Operands of a J-format instruction: raw 21-bit even offset and the destination.
    pub fn parse_j(self) -> (r: (JImm, Rd))
        ensures
            r.0 == imm_j_of(self.0),
            r.1.index() == rd_of(self.0),
    {
        let w = self.0;
        ((((w >> 21u32) & 0x3ff) << 1u32) | (((w >> 20u32) & 1) << 11u32) | (w & 0xF_F000) | ((w
            >> 31u32) << 20u32), self.rd())
    }
}

/// A compressed (16-bit) instruction word.
#[derive(Clone, Copy, Debug, PartialEq, Eq, Structural)]
pub struct Instruction16(pub u16);

impl Instruction16 {
    pub fn new(instruction: u16) -> (r: Self)
        ensures
            r.0 == instruction,
    {
        Self(instruction)
    }

    /// Bits [1:0].
    pub fn opcode(self) -> (r: u8)
        ensures
            r == self.0 & 0b11,
            r < 4,
    {
        let x = self.0;
        assert(x & 0b11 < 4) by (bit_vector);
        (x & 0b11) as u8
    }
}

/// An operand slot: a register, or an immediate (for S/B, the memory offset or branch offset).
#[derive(Debug, Clone, Copy, PartialEq, Eq, Structural)]
pub enum Destination {
    CpuRegister(Reg),
    Immediate(u32),
}

/// The raw immediate a format carries (none for R).
pub open spec fn imm_of_format(fmt: Instruction32Format, w: u32) -> u32 {
    match fmt {
        Instruction32Format::R => 0,
        Instruction32Format::I => imm_i_of(w),
        Instruction32Format::S => imm_s_of(w),
        Instruction32Format::B => imm_b_of(w),
        Instruction32Format::U => imm_u_of(w),
        Instruction32Format::J => imm_j_of(w),
    }
}

impl Instruction32 {
    /// The word, if it decodes.
    pub fn new(registry: &InstructionRegistry, inst: u32) -> (r: Result<Self, EmulatorError>)
        requires
            registry.wf(),
        ensures
            match decode(inst) {
                Ok(_) => r == Ok::<Self, EmulatorError>(Instruction32(inst)),
                Err(e) => r == Err::<Self, EmulatorError>(e),
            },
    {
        let s = Self(inst);
        try_find_instruction32_desc(registry, s)?;
        Ok(s)
    }

    /// Format of the descriptor the word decodes to.
    pub fn format(self, registry: &InstructionRegistry) -> (r: Instruction32Format)
        requires
            registry.wf(),
            decode(self.0) is Ok,
        ensures
            r == decode(self.0)->Ok_0.format(),
    {
        find_instruction32_desc(registry, self).format
    }

    /// The raw immediate of the word's format.
    pub fn auto_imm(self, registry: &InstructionRegistry) -> (r: u32)
        requires
            registry.wf(),
            decode(self.0) is Ok,
            decode(self.0)->Ok_0.format() != Instruction32Format::R,
        ensures
            r == imm_of_format(decode(self.0)->Ok_0.format(), self.0),
    {
        match self.format(registry) {
            Instruction32Format::R => 0,
            Instruction32Format::I => self.parse_i().0 as u32,
            Instruction32Format::S => self.parse_s().0 as u32,
            Instruction32Format::B => self.parse_b().0 as u32,
            Instruction32Format::U => self.parse_u().0,
            Instruction32Format::J => self.parse_j().0,
        }
    }

    /// Where the result goes: `rd` for R/I/U/J; for S and B, which write no register, the
    /// immediate (memory offset or branch offset).
    pub fn destination(self, registry: &InstructionRegistry) -> (r: Destination)
        requires
            registry.wf(),
            decode(self.0) is Ok,
        ensures
            r == (match decode(self.0)->Ok_0.format() {
                Instruction32Format::S => Destination::Immediate(imm_s_of(self.0)),
                Instruction32Format::B => Destination::Immediate(imm_b_of(self.0)),
                _ => Destination::CpuRegister(Reg::spec_new(rd_of(self.0))),
            }),
    {
        match self.format(registry) {
            Instruction32Format::S => Destination::Immediate(self.parse_s().0 as u32),
            Instruction32Format::B => Destination::Immediate(self.parse_b().0 as u32),
            _ => Destination::CpuRegister(self.rd()),
        }
    }

    /// First source operand, and whether there is a second one (see `s2`).
    pub fn s1(self, registry: &InstructionRegistry) -> (r: (Destination, bool))
        requires
            registry.wf(),
            decode(self.0) is Ok,
        ensures
            r == (match decode(self.0)->Ok_0.format() {
                Instruction32Format::U => (Destination::Immediate(imm_u_of(self.0)), false),
                Instruction32Format::J => (Destination::Immediate(imm_j_of(self.0)), false),
                _ => (Destination::CpuRegister(Reg::spec_new(rs1_of(self.0))), true),
            }),
    {
        match self.format(registry) {
            Instruction32Format::U => (Destination::Immediate(self.parse_u().0), false),
            Instruction32Format::J => (Destination::Immediate(self.parse_j().0), false),
            _ => (Destination::CpuRegister(self.rs1()), true),
        }
    }

    /// Second source operand: `rs2` for R/S/B, the raw immediate for I. U and J have none
    /// (`Immediate(0)`).
    pub fn s2(self, registry: &InstructionRegistry) -> (r: Destination)
        requires
            registry.wf(),
            decode(self.0) is Ok,
        ensures
            r == (match decode(self.0)->Ok_0.format() {
                Instruction32Format::I => Destination::Immediate(imm_i_of(self.0)),
                Instruction32Format::U | Instruction32Format::J => Destination::Immediate(0),
                _ => Destination::CpuRegister(Reg::spec_new(rs2_of(self.0))),
            }),
    {
        match self.format(registry) {
            Instruction32Format::I => Destination::Immediate(self.parse_i().0 as u32),
            Instruction32Format::U | Instruction32Format::J => Destination::Immediate(0),
            _ => Destination::CpuRegister(self.rs2()),
        }
    }
}

/// A fetched word: one full-width instruction, or compressed ones.
pub enum Instruction {
    Base(Instruction32),
    Compressed(Instruction16),
}

impl Instruction {
    /// Splits a fetched word: a full-width instruction when its low two bits are `11`, else
    /// two compressed halves (low half first).
    pub fn new(registry: &InstructionRegistry, instruction: u32) -> (r: Result<
        (Self, Option<Instruction16>),
        EmulatorError,
    >)
        requires
            registry.wf(),
        ensures
            instruction & 0b11 == 0b11 ==> match decode(instruction) {
                Ok(_) => (r matches Ok((Instruction::Base(i), None)) && i.0 == instruction),
                Err(e) => r == Err::<(Self, Option<Instruction16>), EmulatorError>(e),
            },
            instruction & 0b11 != 0b11 ==> (r matches Ok((Instruction::Compressed(lo), Some(hi)))
                && lo.0 == instruction & 0xFFFF && hi.0 == instruction >> 16u32),
    {
        if instruction & 0b11 == 0b11 {
            Ok((Self::Base(Instruction32::new(registry, instruction)?), None))
        } else {
            let x = instruction;
            assert(x & 0xFFFF < 0x1_0000 && x >> 16u32 < 0x1_0000) by (bit_vector);
            Ok(
                (
                    Self::Compressed(Instruction16::new((instruction & 0xFFFF) as u16)),
                    Some(Instruction16::new((instruction >> 16u32) as u16)),
                ),
            )
        }
    }
}

} // verus!
