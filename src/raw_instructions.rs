use vstd::prelude::*;

use crate::error::EmulatorError;
use crate::instructions::{funct3_of, funct7_of, lemma_field_bounds, opcode_of, Instruction32};

verus! {

pub type Rd = crate::reg::Reg;

pub type Rs1 = crate::reg::Reg;

pub type Rs2 = crate::reg::Reg;

pub type Vs1 = crate::uguest;

pub type Vs2 = crate::uguest;

/// Raw 12- or 13-bit immediate of the I, S and B formats.
pub type Imm = u16;

/// Raw U-format immediate, already in place in the upper bits.
pub type UImm = u32;

/// Raw 21-bit J-format immediate.
pub type JImm = u32;

/// A word holding only the fixed bits (opcode, funct3, funct7) of one instruction.
#[derive(Clone, Copy, Debug, PartialEq, Eq, Structural)]
pub struct Instruction32Mask(pub u32);

/// The fixed bits of one compressed instruction.
#[derive(Clone, Copy, Debug, PartialEq, Eq, Structural)]
pub struct Instruction16Mask(pub u16);

/// The six base encoding formats.
#[derive(Debug, Clone, Copy, PartialEq, Eq, Structural)]
pub enum Instruction32Format {
    R,
    I,
    S,
    B,
    U,
    J,
}

/// The compressed encoding formats.
#[derive(Debug, Clone, Copy, PartialEq, Eq, Structural)]
pub enum Instruction16Format {
    /// Register
    CR,
    /// Immediate
    CI,
    /// Stack-relative store
    CSS,
    /// Wide immediate
    CIW,
    /// Load
    CL,
    /// Store
    CS,
    /// Arithmetic
    CA,
    /// Branch/arithmetic
    CB,
    /// Jump
    CJ,
}

/// One mnemonic of the base instruction set; it also selects the semantic action.
#[derive(Debug, Clone, Copy, PartialEq, Eq, Structural)]
pub enum Mnemonic {
    Lb,
    Lh,
    Lw,
    Ld,
    Lbu,
    Lhu,
    Lwu,
    Ldu,
    Fence,
    Fencei,
    Addi,
    Slli,
    Slti,
    Sltiu,
    Xori,
    Srli,
    Srai,
    Ori,
    Andi,
    Auipc,
    Addiw,
    Slliw,
    Srliw,
    Sraiw,
    Sb,
    Sh,
    Sw,
    Sd,
    Add,
    Sub,
    Sll,
    Slt,
    Sltu,
    Xor,
    Srl,
    Sra,
    Or,
    And,
    Lui,
    Addw,
    Subw,
    Sllw,
    Srlw,
    Sraw,
    Beq,
    Bne,
    Blt,
    Bge,
    Bltu,
    Bgeu,
    Jalr,
    Jal,
    Ecall,
    Ebreak,
    Csrrw,
    Csrrs,
    Csrrc,
    Csrrwi,
    Csrrsi,
    Csrrci,
}

/// Number of descriptors in the table.
pub const INSTRUCTION_COUNT: usize = 60;

/// Number of opcode buckets (one per 7-bit opcode).
pub const OPCODE_COUNT: usize = 128;

impl Mnemonic {
    /// The table row of this mnemonic: format, opcode, funct3, funct7.
    pub open spec fn encoding(self) -> (Instruction32Format, u32, u32, u32) {
        match self {
            Mnemonic::Lb => (Instruction32Format::I, 0x03, 0, 0x00),
            Mnemonic::Lh => (Instruction32Format::I, 0x03, 1, 0x00),
            Mnemonic::Lw => (Instruction32Format::I, 0x03, 2, 0x00),
            Mnemonic::Ld => (Instruction32Format::I, 0x03, 3, 0x00),
            Mnemonic::Lbu => (Instruction32Format::I, 0x03, 4, 0x00),
            Mnemonic::Lhu => (Instruction32Format::I, 0x03, 5, 0x00),
            Mnemonic::Lwu => (Instruction32Format::I, 0x03, 6, 0x00),
            Mnemonic::Ldu => (Instruction32Format::I, 0x03, 7, 0x00),
            Mnemonic::Fence => (Instruction32Format::I, 0x0f, 0, 0x00),
            Mnemonic::Fencei => (Instruction32Format::I, 0x0f, 1, 0x00),
            Mnemonic::Addi => (Instruction32Format::I, 0x13, 0, 0x00),
            Mnemonic::Slli => (Instruction32Format::I, 0x13, 1, 0x00),
            Mnemonic::Slti => (Instruction32Format::I, 0x13, 2, 0x00),
            Mnemonic::Sltiu => (Instruction32Format::I, 0x13, 3, 0x00),
            Mnemonic::Xori => (Instruction32Format::I, 0x13, 4, 0x00),
            Mnemonic::Srli => (Instruction32Format::I, 0x13, 5, 0x00),
            Mnemonic::Srai => (Instruction32Format::I, 0x13, 5, 0x20),
            Mnemonic::Ori => (Instruction32Format::I, 0x13, 6, 0x00),
            Mnemonic::Andi => (Instruction32Format::I, 0x13, 7, 0x00),
            Mnemonic::Auipc => (Instruction32Format::U, 0x17, 0, 0x00),
            Mnemonic::Addiw => (Instruction32Format::I, 0x1b, 0, 0x00),
            Mnemonic::Slliw => (Instruction32Format::I, 0x1b, 1, 0x00),
            Mnemonic::Srliw => (Instruction32Format::I, 0x1b, 5, 0x00),
            Mnemonic::Sraiw => (Instruction32Format::I, 0x1b, 5, 0x20),
            Mnemonic::Sb => (Instruction32Format::S, 0x23, 0, 0x00),
            Mnemonic::Sh => (Instruction32Format::S, 0x23, 1, 0x00),
            Mnemonic::Sw => (Instruction32Format::S, 0x23, 2, 0x00),
            Mnemonic::Sd => (Instruction32Format::S, 0x23, 3, 0x00),
            Mnemonic::Add => (Instruction32Format::R, 0x33, 0, 0x00),
            Mnemonic::Sub => (Instruction32Format::R, 0x33, 0, 0x20),
            Mnemonic::Sll => (Instruction32Format::R, 0x33, 1, 0x00),
            Mnemonic::Slt => (Instruction32Format::R, 0x33, 2, 0x00),
            Mnemonic::Sltu => (Instruction32Format::R, 0x33, 3, 0x00),
            Mnemonic::Xor => (Instruction32Format::R, 0x33, 4, 0x00),
            Mnemonic::Srl => (Instruction32Format::R, 0x33, 5, 0x00),
            Mnemonic::Sra => (Instruction32Format::R, 0x33, 5, 0x20),
            Mnemonic::Or => (Instruction32Format::R, 0x33, 6, 0x00),
            Mnemonic::And => (Instruction32Format::R, 0x33, 7, 0x00),
            Mnemonic::Lui => (Instruction32Format::U, 0x37, 0, 0x00),
            Mnemonic::Addw => (Instruction32Format::R, 0x3b, 0, 0x00),
            Mnemonic::Subw => (Instruction32Format::R, 0x3b, 0, 0x20),
            Mnemonic::Sllw => (Instruction32Format::R, 0x3b, 1, 0x00),
            Mnemonic::Srlw => (Instruction32Format::R, 0x3b, 5, 0x00),
            Mnemonic::Sraw => (Instruction32Format::R, 0x3b, 5, 0x20),
            Mnemonic::Beq => (Instruction32Format::B, 0x63, 0, 0x00),
            Mnemonic::Bne => (Instruction32Format::B, 0x63, 1, 0x00),
            Mnemonic::Blt => (Instruction32Format::B, 0x63, 4, 0x00),
            Mnemonic::Bge => (Instruction32Format::B, 0x63, 5, 0x00),
            Mnemonic::Bltu => (Instruction32Format::B, 0x63, 6, 0x00),
            Mnemonic::Bgeu => (Instruction32Format::B, 0x63, 7, 0x00),
            Mnemonic::Jalr => (Instruction32Format::I, 0x67, 0, 0x00),
            Mnemonic::Jal => (Instruction32Format::J, 0x6f, 0, 0x00),
            Mnemonic::Ecall => (Instruction32Format::I, 0x73, 0, 0x00),
            Mnemonic::Ebreak => (Instruction32Format::I, 0x73, 0, 0x01),
            Mnemonic::Csrrw => (Instruction32Format::I, 0x73, 1, 0x00),
            Mnemonic::Csrrs => (Instruction32Format::I, 0x73, 2, 0x00),
            Mnemonic::Csrrc => (Instruction32Format::I, 0x73, 3, 0x00),
            Mnemonic::Csrrwi => (Instruction32Format::I, 0x73, 5, 0x00),
            Mnemonic::Csrrsi => (Instruction32Format::I, 0x73, 6, 0x00),
            Mnemonic::Csrrci => (Instruction32Format::I, 0x73, 7, 0x00),
        }
    }

    /// Encoding format of the row.
    pub open spec fn format(self) -> Instruction32Format {
        self.encoding().0
    }

    /// Opcode of the row.
    pub open spec fn opcode(self) -> u32 {
        self.encoding().1
    }

    /// funct3 of the row.
    pub open spec fn funct3(self) -> u32 {
        self.encoding().2
    }

    /// funct7 of the row (0 where the format has none).
    pub open spec fn funct7(self) -> u32 {
        self.encoding().3
    }

    /// The descriptor of this mnemonic.
    pub open spec fn descriptor(self) -> InstructionDescription32 {
        InstructionDescription32 {
            name: self,
            format: self.format(),
            mask: Instruction32Mask(mask_of(self.opcode(), self.funct3(), self.funct7())),
        }
    }

    /// The table row of this mnemonic: format, opcode, funct3, funct7.
    pub fn encoding_exec(self) -> (r: (Instruction32Format, u32, u32, u32))
        ensures
            r == self.encoding(),
    {
        match self {
            Mnemonic::Lb => (Instruction32Format::I, 0x03, 0, 0x00),
            Mnemonic::Lh => (Instruction32Format::I, 0x03, 1, 0x00),
            Mnemonic::Lw => (Instruction32Format::I, 0x03, 2, 0x00),
            Mnemonic::Ld => (Instruction32Format::I, 0x03, 3, 0x00),
            Mnemonic::Lbu => (Instruction32Format::I, 0x03, 4, 0x00),
            Mnemonic::Lhu => (Instruction32Format::I, 0x03, 5, 0x00),
            Mnemonic::Lwu => (Instruction32Format::I, 0x03, 6, 0x00),
            Mnemonic::Ldu => (Instruction32Format::I, 0x03, 7, 0x00),
            Mnemonic::Fence => (Instruction32Format::I, 0x0f, 0, 0x00),
            Mnemonic::Fencei => (Instruction32Format::I, 0x0f, 1, 0x00),
            Mnemonic::Addi => (Instruction32Format::I, 0x13, 0, 0x00),
            Mnemonic::Slli => (Instruction32Format::I, 0x13, 1, 0x00),
            Mnemonic::Slti => (Instruction32Format::I, 0x13, 2, 0x00),
            Mnemonic::Sltiu => (Instruction32Format::I, 0x13, 3, 0x00),
            Mnemonic::Xori => (Instruction32Format::I, 0x13, 4, 0x00),
            Mnemonic::Srli => (Instruction32Format::I, 0x13, 5, 0x00),
            Mnemonic::Srai => (Instruction32Format::I, 0x13, 5, 0x20),
            Mnemonic::Ori => (Instruction32Format::I, 0x13, 6, 0x00),
            Mnemonic::Andi => (Instruction32Format::I, 0x13, 7, 0x00),
            Mnemonic::Auipc => (Instruction32Format::U, 0x17, 0, 0x00),
            Mnemonic::Addiw => (Instruction32Format::I, 0x1b, 0, 0x00),
            Mnemonic::Slliw => (Instruction32Format::I, 0x1b, 1, 0x00),
            Mnemonic::Srliw => (Instruction32Format::I, 0x1b, 5, 0x00),
            Mnemonic::Sraiw => (Instruction32Format::I, 0x1b, 5, 0x20),
            Mnemonic::Sb => (Instruction32Format::S, 0x23, 0, 0x00),
            Mnemonic::Sh => (Instruction32Format::S, 0x23, 1, 0x00),
            Mnemonic::Sw => (Instruction32Format::S, 0x23, 2, 0x00),
            Mnemonic::Sd => (Instruction32Format::S, 0x23, 3, 0x00),
            Mnemonic::Add => (Instruction32Format::R, 0x33, 0, 0x00),
            Mnemonic::Sub => (Instruction32Format::R, 0x33, 0, 0x20),
            Mnemonic::Sll => (Instruction32Format::R, 0x33, 1, 0x00),
            Mnemonic::Slt => (Instruction32Format::R, 0x33, 2, 0x00),
            Mnemonic::Sltu => (Instruction32Format::R, 0x33, 3, 0x00),
            Mnemonic::Xor => (Instruction32Format::R, 0x33, 4, 0x00),
            Mnemonic::Srl => (Instruction32Format::R, 0x33, 5, 0x00),
            Mnemonic::Sra => (Instruction32Format::R, 0x33, 5, 0x20),
            Mnemonic::Or => (Instruction32Format::R, 0x33, 6, 0x00),
            Mnemonic::And => (Instruction32Format::R, 0x33, 7, 0x00),
            Mnemonic::Lui => (Instruction32Format::U, 0x37, 0, 0x00),
            Mnemonic::Addw => (Instruction32Format::R, 0x3b, 0, 0x00),
            Mnemonic::Subw => (Instruction32Format::R, 0x3b, 0, 0x20),
            Mnemonic::Sllw => (Instruction32Format::R, 0x3b, 1, 0x00),
            Mnemonic::Srlw => (Instruction32Format::R, 0x3b, 5, 0x00),
            Mnemonic::Sraw => (Instruction32Format::R, 0x3b, 5, 0x20),
            Mnemonic::Beq => (Instruction32Format::B, 0x63, 0, 0x00),
            Mnemonic::Bne => (Instruction32Format::B, 0x63, 1, 0x00),
            Mnemonic::Blt => (Instruction32Format::B, 0x63, 4, 0x00),
            Mnemonic::Bge => (Instruction32Format::B, 0x63, 5, 0x00),
            Mnemonic::Bltu => (Instruction32Format::B, 0x63, 6, 0x00),
            Mnemonic::Bgeu => (Instruction32Format::B, 0x63, 7, 0x00),
            Mnemonic::Jalr => (Instruction32Format::I, 0x67, 0, 0x00),
            Mnemonic::Jal => (Instruction32Format::J, 0x6f, 0, 0x00),
            Mnemonic::Ecall => (Instruction32Format::I, 0x73, 0, 0x00),
            Mnemonic::Ebreak => (Instruction32Format::I, 0x73, 0, 0x01),
            Mnemonic::Csrrw => (Instruction32Format::I, 0x73, 1, 0x00),
            Mnemonic::Csrrs => (Instruction32Format::I, 0x73, 2, 0x00),
            Mnemonic::Csrrc => (Instruction32Format::I, 0x73, 3, 0x00),
            Mnemonic::Csrrwi => (Instruction32Format::I, 0x73, 5, 0x00),
            Mnemonic::Csrrsi => (Instruction32Format::I, 0x73, 6, 0x00),
            Mnemonic::Csrrci => (Instruction32Format::I, 0x73, 7, 0x00),
        }
    }

    /// The assembler name.
    pub open spec fn spec_name(self) -> &'static str {
        match self {
            Mnemonic::Lb => "lb",
            Mnemonic::Lh => "lh",
            Mnemonic::Lw => "lw",
            Mnemonic::Ld => "ld",
            Mnemonic::Lbu => "lbu",
            Mnemonic::Lhu => "lhu",
            Mnemonic::Lwu => "lwu",
            Mnemonic::Ldu => "ldu",
            Mnemonic::Fence => "fence",
            Mnemonic::Fencei => "fencei",
            Mnemonic::Addi => "addi",
            Mnemonic::Slli => "slli",
            Mnemonic::Slti => "slti",
            Mnemonic::Sltiu => "sltiu",
            Mnemonic::Xori => "xori",
            Mnemonic::Srli => "srli",
            Mnemonic::Srai => "srai",
            Mnemonic::Ori => "ori",
            Mnemonic::Andi => "andi",
            Mnemonic::Auipc => "auipc",
            Mnemonic::Addiw => "addiw",
            Mnemonic::Slliw => "slliw",
            Mnemonic::Srliw => "srliw",
            Mnemonic::Sraiw => "sraiw",
            Mnemonic::Sb => "sb",
            Mnemonic::Sh => "sh",
            Mnemonic::Sw => "sw",
            Mnemonic::Sd => "sd",
            Mnemonic::Add => "add",
            Mnemonic::Sub => "sub",
            Mnemonic::Sll => "sll",
            Mnemonic::Slt => "slt",
            Mnemonic::Sltu => "sltu",
            Mnemonic::Xor => "xor",
            Mnemonic::Srl => "srl",
            Mnemonic::Sra => "sra",
            Mnemonic::Or => "or",
            Mnemonic::And => "and",
            Mnemonic::Lui => "lui",
            Mnemonic::Addw => "addw",
            Mnemonic::Subw => "subw",
            Mnemonic::Sllw => "sllw",
            Mnemonic::Srlw => "srlw",
            Mnemonic::Sraw => "sraw",
            Mnemonic::Beq => "beq",
            Mnemonic::Bne => "bne",
            Mnemonic::Blt => "blt",
            Mnemonic::Bge => "bge",
            Mnemonic::Bltu => "bltu",
            Mnemonic::Bgeu => "bgeu",
            Mnemonic::Jalr => "jalr",
            Mnemonic::Jal => "jal",
            Mnemonic::Ecall => "ecall",
            Mnemonic::Ebreak => "ebreak",
            Mnemonic::Csrrw => "csrrw",
            Mnemonic::Csrrs => "csrrs",
            Mnemonic::Csrrc => "csrrc",
            Mnemonic::Csrrwi => "csrrwi",
            Mnemonic::Csrrsi => "csrrsi",
            Mnemonic::Csrrci => "csrrci",
        }
    }

    /// The assembler name.
    pub fn name(self) -> (r: &'static str)
        ensures
            r == self.spec_name(),
    {
        match self {
            Mnemonic::Lb => "lb",
            Mnemonic::Lh => "lh",
            Mnemonic::Lw => "lw",
            Mnemonic::Ld => "ld",
            Mnemonic::Lbu => "lbu",
            Mnemonic::Lhu => "lhu",
            Mnemonic::Lwu => "lwu",
            Mnemonic::Ldu => "ldu",
            Mnemonic::Fence => "fence",
            Mnemonic::Fencei => "fencei",
            Mnemonic::Addi => "addi",
            Mnemonic::Slli => "slli",
            Mnemonic::Slti => "slti",
            Mnemonic::Sltiu => "sltiu",
            Mnemonic::Xori => "xori",
            Mnemonic::Srli => "srli",
            Mnemonic::Srai => "srai",
            Mnemonic::Ori => "ori",
            Mnemonic::Andi => "andi",
            Mnemonic::Auipc => "auipc",
            Mnemonic::Addiw => "addiw",
            Mnemonic::Slliw => "slliw",
            Mnemonic::Srliw => "srliw",
            Mnemonic::Sraiw => "sraiw",
            Mnemonic::Sb => "sb",
            Mnemonic::Sh => "sh",
            Mnemonic::Sw => "sw",
            Mnemonic::Sd => "sd",
            Mnemonic::Add => "add",
            Mnemonic::Sub => "sub",
            Mnemonic::Sll => "sll",
            Mnemonic::Slt => "slt",
            Mnemonic::Sltu => "sltu",
            Mnemonic::Xor => "xor",
            Mnemonic::Srl => "srl",
            Mnemonic::Sra => "sra",
            Mnemonic::Or => "or",
            Mnemonic::And => "and",
            Mnemonic::Lui => "lui",
            Mnemonic::Addw => "addw",
            Mnemonic::Subw => "subw",
            Mnemonic::Sllw => "sllw",
            Mnemonic::Srlw => "srlw",
            Mnemonic::Sraw => "sraw",
            Mnemonic::Beq => "beq",
            Mnemonic::Bne => "bne",
            Mnemonic::Blt => "blt",
            Mnemonic::Bge => "bge",
            Mnemonic::Bltu => "bltu",
            Mnemonic::Bgeu => "bgeu",
            Mnemonic::Jalr => "jalr",
            Mnemonic::Jal => "jal",
            Mnemonic::Ecall => "ecall",
            Mnemonic::Ebreak => "ebreak",
            Mnemonic::Csrrw => "csrrw",
            Mnemonic::Csrrs => "csrrs",
            Mnemonic::Csrrc => "csrrc",
            Mnemonic::Csrrwi => "csrrwi",
            Mnemonic::Csrrsi => "csrrsi",
            Mnemonic::Csrrci => "csrrci",
        }
    }
}

/// The mnemonic in row `i` of the descriptor table, in declaration order.
pub open spec fn table_at(i: int) -> Mnemonic {
    if i == 0 {
        Mnemonic::Lb
    } else if i == 1 {
        Mnemonic::Lh
    } else if i == 2 {
        Mnemonic::Lw
    } else if i == 3 {
        Mnemonic::Ld
    } else if i == 4 {
        Mnemonic::Lbu
    } else if i == 5 {
        Mnemonic::Lhu
    } else if i == 6 {
        Mnemonic::Lwu
    } else if i == 7 {
        Mnemonic::Ldu
    } else if i == 8 {
        Mnemonic::Fence
    } else if i == 9 {
        Mnemonic::Fencei
    } else if i == 10 {
        Mnemonic::Addi
    } else if i == 11 {
        Mnemonic::Slli
    } else if i == 12 {
        Mnemonic::Slti
    } else if i == 13 {
        Mnemonic::Sltiu
    } else if i == 14 {
        Mnemonic::Xori
    } else if i == 15 {
        Mnemonic::Srli
    } else if i == 16 {
        Mnemonic::Srai
    } else if i == 17 {
        Mnemonic::Ori
    } else if i == 18 {
        Mnemonic::Andi
    } else if i == 19 {
        Mnemonic::Auipc
    } else if i == 20 {
        Mnemonic::Addiw
    } else if i == 21 {
        Mnemonic::Slliw
    } else if i == 22 {
        Mnemonic::Srliw
    } else if i == 23 {
        Mnemonic::Sraiw
    } else if i == 24 {
        Mnemonic::Sb
    } else if i == 25 {
        Mnemonic::Sh
    } else if i == 26 {
        Mnemonic::Sw
    } else if i == 27 {
        Mnemonic::Sd
    } else if i == 28 {
        Mnemonic::Add
    } else if i == 29 {
        Mnemonic::Sub
    } else if i == 30 {
        Mnemonic::Sll
    } else if i == 31 {
        Mnemonic::Slt
    } else if i == 32 {
        Mnemonic::Sltu
    } else if i == 33 {
        Mnemonic::Xor
    } else if i == 34 {
        Mnemonic::Srl
    } else if i == 35 {
        Mnemonic::Sra
    } else if i == 36 {
        Mnemonic::Or
    } else if i == 37 {
        Mnemonic::And
    } else if i == 38 {
        Mnemonic::Lui
    } else if i == 39 {
        Mnemonic::Addw
    } else if i == 40 {
        Mnemonic::Subw
    } else if i == 41 {
        Mnemonic::Sllw
    } else if i == 42 {
        Mnemonic::Srlw
    } else if i == 43 {
        Mnemonic::Sraw
    } else if i == 44 {
        Mnemonic::Beq
    } else if i == 45 {
        Mnemonic::Bne
    } else if i == 46 {
        Mnemonic::Blt
    } else if i == 47 {
        Mnemonic::Bge
    } else if i == 48 {
        Mnemonic::Bltu
    } else if i == 49 {
        Mnemonic::Bgeu
    } else if i == 50 {
        Mnemonic::Jalr
    } else if i == 51 {
        Mnemonic::Jal
    } else if i == 52 {
        Mnemonic::Ecall
    } else if i == 53 {
        Mnemonic::Ebreak
    } else if i == 54 {
        Mnemonic::Csrrw
    } else if i == 55 {
        Mnemonic::Csrrs
    } else if i == 56 {
        Mnemonic::Csrrc
    } else if i == 57 {
        Mnemonic::Csrrwi
    } else if i == 58 {
        Mnemonic::Csrrsi
    } else {
        Mnemonic::Csrrci
    }
}

/// The mnemonic in row `i` of the descriptor table, in declaration order.
pub fn mnemonic_at(i: usize) -> (m: Mnemonic)
    requires
        i < INSTRUCTION_COUNT,
    ensures
        m == table_at(i as int),
{
    match i {
        0 => Mnemonic::Lb,
        1 => Mnemonic::Lh,
        2 => Mnemonic::Lw,
        3 => Mnemonic::Ld,
        4 => Mnemonic::Lbu,
        5 => Mnemonic::Lhu,
        6 => Mnemonic::Lwu,
        7 => Mnemonic::Ldu,
        8 => Mnemonic::Fence,
        9 => Mnemonic::Fencei,
        10 => Mnemonic::Addi,
        11 => Mnemonic::Slli,
        12 => Mnemonic::Slti,
        13 => Mnemonic::Sltiu,
        14 => Mnemonic::Xori,
        15 => Mnemonic::Srli,
        16 => Mnemonic::Srai,
        17 => Mnemonic::Ori,
        18 => Mnemonic::Andi,
        19 => Mnemonic::Auipc,
        20 => Mnemonic::Addiw,
        21 => Mnemonic::Slliw,
        22 => Mnemonic::Srliw,
        23 => Mnemonic::Sraiw,
        24 => Mnemonic::Sb,
        25 => Mnemonic::Sh,
        26 => Mnemonic::Sw,
        27 => Mnemonic::Sd,
        28 => Mnemonic::Add,
        29 => Mnemonic::Sub,
        30 => Mnemonic::Sll,
        31 => Mnemonic::Slt,
        32 => Mnemonic::Sltu,
        33 => Mnemonic::Xor,
        34 => Mnemonic::Srl,
        35 => Mnemonic::Sra,
        36 => Mnemonic::Or,
        37 => Mnemonic::And,
        38 => Mnemonic::Lui,
        39 => Mnemonic::Addw,
        40 => Mnemonic::Subw,
        41 => Mnemonic::Sllw,
        42 => Mnemonic::Srlw,
        43 => Mnemonic::Sraw,
        44 => Mnemonic::Beq,
        45 => Mnemonic::Bne,
        46 => Mnemonic::Blt,
        47 => Mnemonic::Bge,
        48 => Mnemonic::Bltu,
        49 => Mnemonic::Bgeu,
        50 => Mnemonic::Jalr,
        51 => Mnemonic::Jal,
        52 => Mnemonic::Ecall,
        53 => Mnemonic::Ebreak,
        54 => Mnemonic::Csrrw,
        55 => Mnemonic::Csrrs,
        56 => Mnemonic::Csrrc,
        57 => Mnemonic::Csrrwi,
        58 => Mnemonic::Csrrsi,
        _ => Mnemonic::Csrrci,
    }
}

/// A word whose opcode, funct3 and funct7 fields hold the given values and whose other bits are 0.
pub open spec fn mask_of(opcode: u32, fun3: u32, fun7: u32) -> u32 {
    opcode | (fun3 << 12u32) | (fun7 << 25u32)
}

/// The fields of a mask are the values it was built from.
pub proof fn lemma_mask_fields(opcode: u32, fun3: u32, fun7: u32)
    requires
        opcode < 128,
        fun3 < 8,
        fun7 < 128,
    ensures
        opcode_of(mask_of(opcode, fun3, fun7)) == opcode,
        funct3_of(mask_of(opcode, fun3, fun7)) == fun3,
        funct7_of(mask_of(opcode, fun3, fun7)) == fun7,
{
    assert(opcode < 128 && fun3 < 8 && fun7 < 128 ==> (opcode | (fun3 << 12u32) | (fun7 << 25u32))
        & 0x7f == opcode && ((opcode | (fun3 << 12u32) | (fun7 << 25u32)) >> 12u32) & 0x7 == fun3
        && (opcode | (fun3 << 12u32) | (fun7 << 25u32)) >> 25u32 == fun7) by (bit_vector);
}

/// Every row of the table has a 7-bit opcode, a 3-bit funct3 and a 7-bit funct7.
pub proof fn lemma_encoding_bounds(m: Mnemonic)
    ensures
        m.opcode() < 128,
        m.funct3() < 8,
        m.funct7() < 128,
{
}

/// Builds the mask of an instruction from its fixed fields.
pub fn _mask(opcode: u32, fun3: u32, fun7: u32) -> (r: Instruction32Mask)
    requires
        opcode < 128,
        fun3 < 8,
        fun7 < 128,
    ensures
        r.0 == mask_of(opcode, fun3, fun7),
{
    Instruction32Mask(opcode | fun3 << 12u32 | fun7 << 25u32)
}

/// One row of the descriptor table: mnemonic (which also selects the action), format and mask.
#[derive(Clone, Copy, Debug, PartialEq, Eq, Structural)]
pub struct InstructionDescription32 {
    pub name: Mnemonic,
    pub format: Instruction32Format,
    pub mask: Instruction32Mask,
}

/// One row of a compressed-instruction table.
#[derive(Clone, Copy, Debug, PartialEq, Eq, Structural)]
pub struct InstructionDescription16 {
    pub format: Instruction16Format,
    pub mask: Instruction16Mask,
}

/// A descriptor of either width.
pub enum InstructionDescription {
    Base(InstructionDescription32),
    Compressed(InstructionDescription16),
}

/// Assembles a descriptor.
pub fn desc(name: Mnemonic, format: Instruction32Format, mask: Instruction32Mask) -> (r:
    InstructionDescription32)
    ensures
        r == (InstructionDescription32 { name, format, mask }),
{
    InstructionDescription32 { name, format, mask }
}

/// Row `i` of the descriptor table.
pub fn instruction_at(i: usize) -> (d: InstructionDescription32)
    requires
        i < INSTRUCTION_COUNT,
    ensures
        d == table_at(i as int).descriptor(),
{
    let m = mnemonic_at(i);
    let (format, opcode, fun3, fun7) = m.encoding_exec();
    proof {
        lemma_encoding_bounds(m);
    }
    desc(m, format, _mask(opcode, fun3, fun7))
}

/// The table rows among the first `n` whose opcode is `op`, in table order.
pub open spec fn bucket_upto(op: u32, n: nat) -> Seq<Mnemonic>
    decreases n,
{
    if n == 0 {
        Seq::empty()
    } else {
        let prev = bucket_upto(op, (n - 1) as nat);
        if table_at(n - 1).opcode() == op {
            prev.push(table_at(n - 1))
        } else {
            prev
        }
    }
}

/// The bucket of `op`: every table row with that opcode, in table order.
pub open spec fn bucket(op: u32) -> Seq<Mnemonic> {
    bucket_upto(op, INSTRUCTION_COUNT as nat)
}

/// The shift-by-immediate rows. They share opcode and funct3 pairwise (logical and
/// arithmetic right shift), and are told apart by the word's bits 31:26: funct7 without its
/// lowest bit, which holds bit 5 of the shift amount on RV64.
pub open spec fn is_shift_imm(m: Mnemonic) -> bool {
    m == Mnemonic::Slli || m == Mnemonic::Srli || m == Mnemonic::Srai || m == Mnemonic::Slliw
        || m == Mnemonic::Srliw || m == Mnemonic::Sraiw
}

/// Whether `m` is a shift-by-immediate row.
pub fn is_shift_imm_exec(m: Mnemonic) -> (r: bool)
    ensures
        r == is_shift_imm(m),
{
    matches!(m, Mnemonic::Slli | Mnemonic::Srli | Mnemonic::Srai | Mnemonic::Slliw
        | Mnemonic::Srliw | Mnemonic::Sraiw)
}

/// Whether row `m` matches the fields `f3`/`f7` of a word under the format rule `fmt`:
/// R compares funct3 and funct7; I, S and B compare funct3 (and, for the shift-by-immediate
/// rows, funct7 without its shift-amount bit); U and J always match.
pub open spec fn matches(fmt: Instruction32Format, m: Mnemonic, f3: u32, f7: u32) -> bool {
    match fmt {
        Instruction32Format::R => m.funct3() == f3 && m.funct7() == f7,
        Instruction32Format::I | Instruction32Format::S | Instruction32Format::B => m.funct3()
            == f3 && (is_shift_imm(m) ==> m.funct7() / 2 == f7 / 2),
        Instruction32Format::U | Instruction32Format::J => true,
    }
}

/// The first row of `b` at or after `i` that matches.
pub open spec fn first_match(b: Seq<Mnemonic>, fmt: Instruction32Format, f3: u32, f7: u32, i: int)
    -> Option<Mnemonic>
    decreases b.len() - i,
{
    if i < 0 || i >= b.len() {
        None
    } else if matches(fmt, b[i], f3, f7) {
        Some(b[i])
    } else {
        first_match(b, fmt, f3, f7, i + 1)
    }
}

/// What a word decodes to: the first row of its opcode's bucket that matches under the
/// format of the bucket's first row.
pub open spec fn decode(w: u32) -> Result<Mnemonic, EmulatorError> {
    let b = bucket(opcode_of(w));
    if b.len() == 0 {
        Err(EmulatorError::InvalidOpcode)
    } else {
        match first_match(b, b[0].format(), funct3_of(w), funct7_of(w), 0) {
            Some(m) => Ok(m),
            None => Err(EmulatorError::UnknownInstruction),
        }
    }
}

/// The descriptor a word decodes to.
pub open spec fn decode_desc(w: u32) -> Result<InstructionDescription32, EmulatorError> {
    match decode(w) {
        Ok(m) => Ok(m.descriptor()),
        Err(e) => Err(e),
    }
}

/// The descriptors of a bucket.
pub open spec fn descriptors(b: Seq<Mnemonic>) -> Seq<InstructionDescription32> {
    b.map_values(|m: Mnemonic| m.descriptor())
}

/// The opcode-indexed lookup structure derived once from the descriptor table.
pub struct InstructionRegistry {
    buckets: Vec<Vec<InstructionDescription32>>,
}

impl InstructionRegistry {
    /// Bucket `o` holds the descriptors of `bucket(o)`, in table order.
    pub closed spec fn wf(&self) -> bool {
        &&& self.buckets@.len() == OPCODE_COUNT
        &&& forall|o: int|
            0 <= o < OPCODE_COUNT ==> #[trigger] self.buckets@[o]@ == descriptors(
                bucket(o as u32),
            )
    }
}

fn bucket_mut(buckets: &mut Vec<Vec<InstructionDescription32>>, i: usize) -> (b: &mut Vec<
    InstructionDescription32,
>)
    requires
        i < old(buckets)@.len(),
    ensures
        *b == old(buckets)@[i as int],
        final(buckets)@ == old(buckets)@.update(i as int, *final(b)),
{
    &mut buckets[i]
}

/// Builds the opcode-indexed lookup structure: each table row is appended, in table order,
/// to the bucket of its opcode.
pub fn set_instructions_funcs() -> (r: InstructionRegistry)
    ensures
        r.wf(),
{
    let mut buckets: Vec<Vec<InstructionDescription32>> = Vec::new();
    let mut o: usize = 0;
    while o < OPCODE_COUNT
        invariant
            o <= OPCODE_COUNT,
            buckets@.len() == o,
            forall|k: int| 0 <= k < o ==> (#[trigger] buckets@[k])@ == Seq::<InstructionDescription32>::empty(),
        decreases OPCODE_COUNT - o,
    {
        buckets.push(Vec::new());
        o += 1;
    }
    assert forall|k: int| 0 <= k < OPCODE_COUNT implies #[trigger] buckets@[k]@ == descriptors(
        bucket_upto(k as u32, 0),
    ) by {
        assert(descriptors(bucket_upto(k as u32, 0)) =~= Seq::<InstructionDescription32>::empty());
    }
    let mut i: usize = 0;
    while i < INSTRUCTION_COUNT
        invariant
            i <= INSTRUCTION_COUNT,
            buckets@.len() == OPCODE_COUNT,
            forall|k: int|
                0 <= k < OPCODE_COUNT ==> #[trigger] buckets@[k]@ == descriptors(
                    bucket_upto(k as u32, i as nat),
                ),
        decreases INSTRUCTION_COUNT - i,
    {
        let d = instruction_at(i);
        let ghost m = table_at(i as int);
        proof {
            lemma_encoding_bounds(m);
            lemma_mask_fields(m.opcode(), m.funct3(), m.funct7());
        }
        let op = Instruction32(d.mask.0).opcode();
        let ghost before = buckets@;
        let b = bucket_mut(&mut buckets, op as usize);
        b.push(d);
        proof {
            assert forall|k: int| 0 <= k < OPCODE_COUNT implies #[trigger] buckets@[k]@
                == descriptors(bucket_upto(k as u32, (i + 1) as nat)) by {
                if k == op as int {
                    assert(descriptors(bucket_upto(k as u32, i as nat).push(m)) =~= descriptors(
                        bucket_upto(k as u32, i as nat),
                    ).push(m.descriptor()));
                } else {
                    assert(buckets@[k] == before[k]);
                }
            }
        }
        i += 1;
    }
    InstructionRegistry { buckets }
}

/// The bucket of `opcode`.
pub fn get_from_opcode(registry: &InstructionRegistry, opcode: u8) -> (r: &Vec<
    InstructionDescription32,
>)
    requires
        registry.wf(),
        opcode < 128,
    ensures
        r@ == descriptors(bucket(opcode as u32)),
{
    &registry.buckets[opcode as usize]
}

/// Finds the descriptor of an instruction word: in the bucket of its opcode, the first row
/// that matches under the format of the bucket's first row.
pub fn try_find_instruction32_desc(registry: &InstructionRegistry, inst: Instruction32) -> (r:
    Result<InstructionDescription32, EmulatorError>)
    requires
        registry.wf(),
    ensures
        r == decode_desc(inst.0),
{
    proof {
        lemma_field_bounds(inst.0);
    }
    let opcode = inst.opcode();
    let neighbors = get_from_opcode(registry, opcode);
    let ghost b = bucket(opcode_of(inst.0));
    if neighbors.len() == 0 {
        return Err(EmulatorError::InvalidOpcode);
    }
    let fmt = neighbors[0].format;
    let f3 = inst.fun3();
    let f7 = inst.fun7();
    let mut j: usize = 0;
    while j < neighbors.len()
        invariant
            neighbors@ == descriptors(b),
            b == bucket(opcode_of(inst.0)),
            b.len() > 0,
            fmt == b[0].format(),
            f3 == funct3_of(inst.0),
            f7 == funct7_of(inst.0),
            j <= neighbors@.len(),
            first_match(b, fmt, f3, f7, 0) == first_match(b, fmt, f3, f7, j as int),
        decreases neighbors@.len() - j,
    {
        let d = neighbors[j];
        let ghost m = b[j as int];
        proof {
            lemma_encoding_bounds(m);
            lemma_mask_fields(m.opcode(), m.funct3(), m.funct7());
        }
        let mi = Instruction32(d.mask.0);
        let hit = match fmt {
            Instruction32Format::R => mi.fun3() == f3 && mi.fun7() == f7,
            Instruction32Format::I | Instruction32Format::S | Instruction32Format::B => mi.fun3()
                == f3 && (!is_shift_imm_exec(d.name) || mi.fun7() / 2 == f7 / 2),
            Instruction32Format::U | Instruction32Format::J => true,
        };
        if hit {
            assert(descriptors(b)[j as int] == m.descriptor());
            assert(matches(fmt, m, f3, f7));
            return Ok(d);
        }
        j += 1;
    }
    Err(EmulatorError::UnknownInstruction)
}

/// The descriptor of a word that decodes.
pub fn find_instruction32_desc(registry: &InstructionRegistry, inst: Instruction32) -> (r:
    InstructionDescription32)
    requires
        registry.wf(),
        decode(inst.0) is Ok,
    ensures
        r == decode(inst.0)->Ok_0.descriptor(),
{
    match try_find_instruction32_desc(registry, inst) {
        Ok(d) => d,
        Err(_) => {
            proof {
                assert(false);
            }
            instruction_at(0)
        },
    }
}

/// Rows whose encoding an earlier row of the same opcode and funct3 already claims, since the
/// I-format rule does not look at their funct7: `ebreak`, which `ecall` claims (the SYSTEM
/// action tells the two apart by the immediate).
pub open spec fn shadowed(m: Mnemonic) -> bool {
    m == Mnemonic::Ebreak
}

/// The buckets the table yields, written out.
pub proof fn lemma_buckets()
    ensures
        bucket(0x03) == seq![Mnemonic::Lb, Mnemonic::Lh, Mnemonic::Lw, Mnemonic::Ld, Mnemonic::Lbu, Mnemonic::Lhu, Mnemonic::Lwu, Mnemonic::Ldu],
        bucket(0x0f) == seq![Mnemonic::Fence, Mnemonic::Fencei],
        bucket(0x13) == seq![Mnemonic::Addi, Mnemonic::Slli, Mnemonic::Slti, Mnemonic::Sltiu, Mnemonic::Xori, Mnemonic::Srli, Mnemonic::Srai, Mnemonic::Ori, Mnemonic::Andi],
        bucket(0x17) == seq![Mnemonic::Auipc],
        bucket(0x1b) == seq![Mnemonic::Addiw, Mnemonic::Slliw, Mnemonic::Srliw, Mnemonic::Sraiw],
        bucket(0x23) == seq![Mnemonic::Sb, Mnemonic::Sh, Mnemonic::Sw, Mnemonic::Sd],
        bucket(0x33) == seq![Mnemonic::Add, Mnemonic::Sub, Mnemonic::Sll, Mnemonic::Slt, Mnemonic::Sltu, Mnemonic::Xor, Mnemonic::Srl, Mnemonic::Sra, Mnemonic::Or, Mnemonic::And],
        bucket(0x37) == seq![Mnemonic::Lui],
        bucket(0x3b) == seq![Mnemonic::Addw, Mnemonic::Subw, Mnemonic::Sllw, Mnemonic::Srlw, Mnemonic::Sraw],
        bucket(0x63) == seq![Mnemonic::Beq, Mnemonic::Bne, Mnemonic::Blt, Mnemonic::Bge, Mnemonic::Bltu, Mnemonic::Bgeu],
        bucket(0x67) == seq![Mnemonic::Jalr],
        bucket(0x6f) == seq![Mnemonic::Jal],
        bucket(0x73) == seq![Mnemonic::Ecall, Mnemonic::Ebreak, Mnemonic::Csrrw, Mnemonic::Csrrs, Mnemonic::Csrrc, Mnemonic::Csrrwi, Mnemonic::Csrrsi, Mnemonic::Csrrci],
{
    reveal_with_fuel(bucket_upto, 61);
    assert(bucket(0x03) =~= seq![Mnemonic::Lb, Mnemonic::Lh, Mnemonic::Lw, Mnemonic::Ld, Mnemonic::Lbu, Mnemonic::Lhu, Mnemonic::Lwu, Mnemonic::Ldu]);
    assert(bucket(0x0f) =~= seq![Mnemonic::Fence, Mnemonic::Fencei]);
    assert(bucket(0x13) =~= seq![Mnemonic::Addi, Mnemonic::Slli, Mnemonic::Slti, Mnemonic::Sltiu, Mnemonic::Xori, Mnemonic::Srli, Mnemonic::Srai, Mnemonic::Ori, Mnemonic::Andi]);
    assert(bucket(0x17) =~= seq![Mnemonic::Auipc]);
    assert(bucket(0x1b) =~= seq![Mnemonic::Addiw, Mnemonic::Slliw, Mnemonic::Srliw, Mnemonic::Sraiw]);
    assert(bucket(0x23) =~= seq![Mnemonic::Sb, Mnemonic::Sh, Mnemonic::Sw, Mnemonic::Sd]);
    assert(bucket(0x33) =~= seq![Mnemonic::Add, Mnemonic::Sub, Mnemonic::Sll, Mnemonic::Slt, Mnemonic::Sltu, Mnemonic::Xor, Mnemonic::Srl, Mnemonic::Sra, Mnemonic::Or, Mnemonic::And]);
    assert(bucket(0x37) =~= seq![Mnemonic::Lui]);
    assert(bucket(0x3b) =~= seq![Mnemonic::Addw, Mnemonic::Subw, Mnemonic::Sllw, Mnemonic::Srlw, Mnemonic::Sraw]);
    assert(bucket(0x63) =~= seq![Mnemonic::Beq, Mnemonic::Bne, Mnemonic::Blt, Mnemonic::Bge, Mnemonic::Bltu, Mnemonic::Bgeu]);
    assert(bucket(0x67) =~= seq![Mnemonic::Jalr]);
    assert(bucket(0x6f) =~= seq![Mnemonic::Jal]);
    assert(bucket(0x73) =~= seq![Mnemonic::Ecall, Mnemonic::Ebreak, Mnemonic::Csrrw, Mnemonic::Csrrs, Mnemonic::Csrrc, Mnemonic::Csrrwi, Mnemonic::Csrrsi, Mnemonic::Csrrci]);
}

/// Decoding the mask of a table row gives back that row (mnemonic and format), unless the
/// row is shadowed.
pub proof fn lemma_mask_round_trip(i: int)
    requires
        0 <= i < INSTRUCTION_COUNT,
        !shadowed(table_at(i)),
    ensures
        decode(table_at(i).descriptor().mask.0) == Ok::<Mnemonic, EmulatorError>(table_at(i)),
        decode_desc(table_at(i).descriptor().mask.0) == Ok::<InstructionDescription32, EmulatorError>(
            table_at(i).descriptor(),
        ),
{
    let m = table_at(i);
    lemma_encoding_bounds(m);
    lemma_mask_fields(m.opcode(), m.funct3(), m.funct7());
    lemma_buckets();
    reveal_with_fuel(first_match, 12);
}

/// Opcodes that no table row uses have an empty bucket.
pub proof fn lemma_unused_opcode(op: u32)
    requires
        op != 0x03,
        op != 0x0f,
        op != 0x13,
        op != 0x17,
        op != 0x1b,
        op != 0x23,
        op != 0x33,
        op != 0x37,
        op != 0x3b,
        op != 0x63,
        op != 0x67,
        op != 0x6f,
        op != 0x73,
    ensures
        bucket(op).len() == 0,
{
    reveal_with_fuel(bucket_upto, 61);
}

/// A word carrying the opcode, funct3 and funct7 of a table row decodes: to a row with the
/// same opcode and format that matches the word under that format's rule, and to that very
/// row unless the row is shadowed.
#[verifier::rlimit(50)]
pub proof fn lemma_dispatch_present(w: u32, i: int)
    requires
        0 <= i < INSTRUCTION_COUNT,
        opcode_of(w) == table_at(i).opcode(),
        funct3_of(w) == table_at(i).funct3(),
        funct7_of(w) == table_at(i).funct7(),
    ensures
        decode(w) is Ok,
        decode(w)->Ok_0.opcode() == opcode_of(w),
        decode(w)->Ok_0.format() == table_at(i).format(),
        matches(table_at(i).format(), decode(w)->Ok_0, funct3_of(w), funct7_of(w)),
        !shadowed(table_at(i)) ==> decode(w) == Ok::<Mnemonic, EmulatorError>(table_at(i)),
{
    lemma_encoding_bounds(table_at(i));
    lemma_buckets();
    reveal_with_fuel(first_match, 12);
}

/// A word that no table row matches (same opcode, and the fields that the row's format
/// compares) is rejected: with InvalidOpcode when no row has its opcode, else with
/// UnknownInstruction.
pub proof fn lemma_dispatch_absent(w: u32)
    requires
        forall|i: int|
            0 <= i < INSTRUCTION_COUNT ==> !(#[trigger] table_at(i).opcode() == opcode_of(w)
                && matches(table_at(i).format(), table_at(i), funct3_of(w), funct7_of(w))),
    ensures
        (forall|i: int| 0 <= i < INSTRUCTION_COUNT ==> #[trigger] table_at(i).opcode() != opcode_of(w))
            ==> decode(w) == Err::<Mnemonic, EmulatorError>(EmulatorError::InvalidOpcode),
        (exists|i: int| 0 <= i < INSTRUCTION_COUNT && #[trigger] table_at(i).opcode() == opcode_of(w))
            ==> decode(w) == Err::<Mnemonic, EmulatorError>(EmulatorError::UnknownInstruction),
{
    assert(table_at(0) == Mnemonic::Lb && table_at(0).opcode() == 0x03);
    assert(table_at(1) == Mnemonic::Lh && table_at(1).opcode() == 0x03);
    assert(table_at(2) == Mnemonic::Lw && table_at(2).opcode() == 0x03);
    assert(table_at(3) == Mnemonic::Ld && table_at(3).opcode() == 0x03);
    assert(table_at(4) == Mnemonic::Lbu && table_at(4).opcode() == 0x03);
    assert(table_at(5) == Mnemonic::Lhu && table_at(5).opcode() == 0x03);
    assert(table_at(6) == Mnemonic::Lwu && table_at(6).opcode() == 0x03);
    assert(table_at(7) == Mnemonic::Ldu && table_at(7).opcode() == 0x03);
    assert(table_at(8) == Mnemonic::Fence && table_at(8).opcode() == 0x0f);
    assert(table_at(9) == Mnemonic::Fencei && table_at(9).opcode() == 0x0f);
    assert(table_at(10) == Mnemonic::Addi && table_at(10).opcode() == 0x13);
    assert(table_at(11) == Mnemonic::Slli && table_at(11).opcode() == 0x13);
    assert(table_at(12) == Mnemonic::Slti && table_at(12).opcode() == 0x13);
    assert(table_at(13) == Mnemonic::Sltiu && table_at(13).opcode() == 0x13);
    assert(table_at(14) == Mnemonic::Xori && table_at(14).opcode() == 0x13);
    assert(table_at(15) == Mnemonic::Srli && table_at(15).opcode() == 0x13);
    assert(table_at(16) == Mnemonic::Srai && table_at(16).opcode() == 0x13);
    assert(table_at(17) == Mnemonic::Ori && table_at(17).opcode() == 0x13);
    assert(table_at(18) == Mnemonic::Andi && table_at(18).opcode() == 0x13);
    assert(table_at(19) == Mnemonic::Auipc && table_at(19).opcode() == 0x17);
    assert(table_at(20) == Mnemonic::Addiw && table_at(20).opcode() == 0x1b);
    assert(table_at(21) == Mnemonic::Slliw && table_at(21).opcode() == 0x1b);
    assert(table_at(22) == Mnemonic::Srliw && table_at(22).opcode() == 0x1b);
    assert(table_at(23) == Mnemonic::Sraiw && table_at(23).opcode() == 0x1b);
    assert(table_at(24) == Mnemonic::Sb && table_at(24).opcode() == 0x23);
    assert(table_at(25) == Mnemonic::Sh && table_at(25).opcode() == 0x23);
    assert(table_at(26) == Mnemonic::Sw && table_at(26).opcode() == 0x23);
    assert(table_at(27) == Mnemonic::Sd && table_at(27).opcode() == 0x23);
    assert(table_at(28) == Mnemonic::Add && table_at(28).opcode() == 0x33);
    assert(table_at(29) == Mnemonic::Sub && table_at(29).opcode() == 0x33);
    assert(table_at(30) == Mnemonic::Sll && table_at(30).opcode() == 0x33);
    assert(table_at(31) == Mnemonic::Slt && table_at(31).opcode() == 0x33);
    assert(table_at(32) == Mnemonic::Sltu && table_at(32).opcode() == 0x33);
    assert(table_at(33) == Mnemonic::Xor && table_at(33).opcode() == 0x33);
    assert(table_at(34) == Mnemonic::Srl && table_at(34).opcode() == 0x33);
    assert(table_at(35) == Mnemonic::Sra && table_at(35).opcode() == 0x33);
    assert(table_at(36) == Mnemonic::Or && table_at(36).opcode() == 0x33);
    assert(table_at(37) == Mnemonic::And && table_at(37).opcode() == 0x33);
    assert(table_at(38) == Mnemonic::Lui && table_at(38).opcode() == 0x37);
    assert(table_at(39) == Mnemonic::Addw && table_at(39).opcode() == 0x3b);
    assert(table_at(40) == Mnemonic::Subw && table_at(40).opcode() == 0x3b);
    assert(table_at(41) == Mnemonic::Sllw && table_at(41).opcode() == 0x3b);
    assert(table_at(42) == Mnemonic::Srlw && table_at(42).opcode() == 0x3b);
    assert(table_at(43) == Mnemonic::Sraw && table_at(43).opcode() == 0x3b);
    assert(table_at(44) == Mnemonic::Beq && table_at(44).opcode() == 0x63);
    assert(table_at(45) == Mnemonic::Bne && table_at(45).opcode() == 0x63);
    assert(table_at(46) == Mnemonic::Blt && table_at(46).opcode() == 0x63);
    assert(table_at(47) == Mnemonic::Bge && table_at(47).opcode() == 0x63);
    assert(table_at(48) == Mnemonic::Bltu && table_at(48).opcode() == 0x63);
    assert(table_at(49) == Mnemonic::Bgeu && table_at(49).opcode() == 0x63);
    assert(table_at(50) == Mnemonic::Jalr && table_at(50).opcode() == 0x67);
    assert(table_at(51) == Mnemonic::Jal && table_at(51).opcode() == 0x6f);
    assert(table_at(52) == Mnemonic::Ecall && table_at(52).opcode() == 0x73);
    assert(table_at(53) == Mnemonic::Ebreak && table_at(53).opcode() == 0x73);
    assert(table_at(54) == Mnemonic::Csrrw && table_at(54).opcode() == 0x73);
    assert(table_at(55) == Mnemonic::Csrrs && table_at(55).opcode() == 0x73);
    assert(table_at(56) == Mnemonic::Csrrc && table_at(56).opcode() == 0x73);
    assert(table_at(57) == Mnemonic::Csrrwi && table_at(57).opcode() == 0x73);
    assert(table_at(58) == Mnemonic::Csrrsi && table_at(58).opcode() == 0x73);
    assert(table_at(59) == Mnemonic::Csrrci && table_at(59).opcode() == 0x73);
    lemma_buckets();
    let op = opcode_of(w);
    if op != 0x03 && op != 0x0f && op != 0x13 && op != 0x17 && op != 0x1b && op != 0x23 && op != 0x33 && op != 0x37 && op != 0x3b && op != 0x63 && op != 0x67 && op != 0x6f && op != 0x73 {
        lemma_unused_opcode(op);
    }
    reveal_with_fuel(first_match, 12);
}

/// Whether table row `i` matches word `w`: same opcode, and the rule of the row's format holds
/// for the word's funct3/funct7.
pub open spec fn row_matches(i: int, w: u32) -> bool {
    table_at(i).opcode() == opcode_of(w) && matches(
        table_at(i).format(),
        table_at(i),
        funct3_of(w),
        funct7_of(w),
    )
}

/// The first row at or after `i`, in table declaration order, that matches `w`.
pub open spec fn first_row_from(w: u32, i: int) -> Option<int>
    decreases INSTRUCTION_COUNT - i,
{
    if i < 0 || i >= INSTRUCTION_COUNT {
        None
    } else if row_matches(i, w) {
        Some(i)
    } else {
        first_row_from(w, i + 1)
    }
}

proof fn lemma_first_row_from(w: u32, i: int)
    requires
        0 <= i <= INSTRUCTION_COUNT,
    ensures
        first_row_from(w, i) matches Some(k) ==> i <= k < INSTRUCTION_COUNT && row_matches(k, w)
            && forall|j: int| i <= j < k ==> !row_matches(j, w),
        first_row_from(w, i) is None ==> forall|j: int| i <= j < INSTRUCTION_COUNT ==> !row_matches(j, w),
    decreases INSTRUCTION_COUNT - i,
{
    if i < INSTRUCTION_COUNT {
        lemma_first_row_from(w, i + 1);
    }
}

/// Dispatch in terms of the flat table: a word decodes to the first row, in declaration
/// order, with its opcode whose format rule matches it; it fails with InvalidOpcode exactly
/// when no row has its opcode, and with UnknownInstruction exactly when some row has its
/// opcode but none matches.
#[verifier::rlimit(100)]
pub proof fn lemma_dispatch_table_order(w: u32)
    ensures
        decode(w) == (match first_row_from(w, 0) {
            Some(i) => Ok::<Mnemonic, EmulatorError>(table_at(i)),
            None => if exists|i: int| 0 <= i < INSTRUCTION_COUNT && #[trigger] table_at(i).opcode() == opcode_of(w) {
                Err::<Mnemonic, EmulatorError>(EmulatorError::UnknownInstruction)
            } else {
                Err::<Mnemonic, EmulatorError>(EmulatorError::InvalidOpcode)
            },
        }),
        decode(w) matches Ok(m) ==> exists|k: int| 0 <= k < INSTRUCTION_COUNT && m == table_at(k)
            && row_matches(k, w) && forall|j: int| 0 <= j < k ==> !row_matches(j, w),
        decode(w) == Err::<Mnemonic, EmulatorError>(EmulatorError::InvalidOpcode) <==> forall|i: int|
            0 <= i < INSTRUCTION_COUNT ==> #[trigger] table_at(i).opcode() != opcode_of(w),
        decode(w) == Err::<Mnemonic, EmulatorError>(EmulatorError::UnknownInstruction) <==> (exists|i: int|
            0 <= i < INSTRUCTION_COUNT && #[trigger] table_at(i).opcode() == opcode_of(w)) && forall|
            i: int|
            0 <= i < INSTRUCTION_COUNT ==> !#[trigger] row_matches(i, w),
{
    assert(table_at(0) == Mnemonic::Lb && table_at(0).opcode() == 0x03);
    assert(table_at(1) == Mnemonic::Lh && table_at(1).opcode() == 0x03);
    assert(table_at(2) == Mnemonic::Lw && table_at(2).opcode() == 0x03);
    assert(table_at(3) == Mnemonic::Ld && table_at(3).opcode() == 0x03);
    assert(table_at(4) == Mnemonic::Lbu && table_at(4).opcode() == 0x03);
    assert(table_at(5) == Mnemonic::Lhu && table_at(5).opcode() == 0x03);
    assert(table_at(6) == Mnemonic::Lwu && table_at(6).opcode() == 0x03);
    assert(table_at(7) == Mnemonic::Ldu && table_at(7).opcode() == 0x03);
    assert(table_at(8) == Mnemonic::Fence && table_at(8).opcode() == 0x0f);
    assert(table_at(9) == Mnemonic::Fencei && table_at(9).opcode() == 0x0f);
    assert(table_at(10) == Mnemonic::Addi && table_at(10).opcode() == 0x13);
    assert(table_at(11) == Mnemonic::Slli && table_at(11).opcode() == 0x13);
    assert(table_at(12) == Mnemonic::Slti && table_at(12).opcode() == 0x13);
    assert(table_at(13) == Mnemonic::Sltiu && table_at(13).opcode() == 0x13);
    assert(table_at(14) == Mnemonic::Xori && table_at(14).opcode() == 0x13);
    assert(table_at(15) == Mnemonic::Srli && table_at(15).opcode() == 0x13);
    assert(table_at(16) == Mnemonic::Srai && table_at(16).opcode() == 0x13);
    assert(table_at(17) == Mnemonic::Ori && table_at(17).opcode() == 0x13);
    assert(table_at(18) == Mnemonic::Andi && table_at(18).opcode() == 0x13);
    assert(table_at(19) == Mnemonic::Auipc && table_at(19).opcode() == 0x17);
    assert(table_at(20) == Mnemonic::Addiw && table_at(20).opcode() == 0x1b);
    assert(table_at(21) == Mnemonic::Slliw && table_at(21).opcode() == 0x1b);
    assert(table_at(22) == Mnemonic::Srliw && table_at(22).opcode() == 0x1b);
    assert(table_at(23) == Mnemonic::Sraiw && table_at(23).opcode() == 0x1b);
    assert(table_at(24) == Mnemonic::Sb && table_at(24).opcode() == 0x23);
    assert(table_at(25) == Mnemonic::Sh && table_at(25).opcode() == 0x23);
    assert(table_at(26) == Mnemonic::Sw && table_at(26).opcode() == 0x23);
    assert(table_at(27) == Mnemonic::Sd && table_at(27).opcode() == 0x23);
    assert(table_at(28) == Mnemonic::Add && table_at(28).opcode() == 0x33);
    assert(table_at(29) == Mnemonic::Sub && table_at(29).opcode() == 0x33);
    assert(table_at(30) == Mnemonic::Sll && table_at(30).opcode() == 0x33);
    assert(table_at(31) == Mnemonic::Slt && table_at(31).opcode() == 0x33);
    assert(table_at(32) == Mnemonic::Sltu && table_at(32).opcode() == 0x33);
    assert(table_at(33) == Mnemonic::Xor && table_at(33).opcode() == 0x33);
    assert(table_at(34) == Mnemonic::Srl && table_at(34).opcode() == 0x33);
    assert(table_at(35) == Mnemonic::Sra && table_at(35).opcode() == 0x33);
    assert(table_at(36) == Mnemonic::Or && table_at(36).opcode() == 0x33);
    assert(table_at(37) == Mnemonic::And && table_at(37).opcode() == 0x33);
    assert(table_at(38) == Mnemonic::Lui && table_at(38).opcode() == 0x37);
    assert(table_at(39) == Mnemonic::Addw && table_at(39).opcode() == 0x3b);
    assert(table_at(40) == Mnemonic::Subw && table_at(40).opcode() == 0x3b);
    assert(table_at(41) == Mnemonic::Sllw && table_at(41).opcode() == 0x3b);
    assert(table_at(42) == Mnemonic::Srlw && table_at(42).opcode() == 0x3b);
    assert(table_at(43) == Mnemonic::Sraw && table_at(43).opcode() == 0x3b);
    assert(table_at(44) == Mnemonic::Beq && table_at(44).opcode() == 0x63);
    assert(table_at(45) == Mnemonic::Bne && table_at(45).opcode() == 0x63);
    assert(table_at(46) == Mnemonic::Blt && table_at(46).opcode() == 0x63);
    assert(table_at(47) == Mnemonic::Bge && table_at(47).opcode() == 0x63);
    assert(table_at(48) == Mnemonic::Bltu && table_at(48).opcode() == 0x63);
    assert(table_at(49) == Mnemonic::Bgeu && table_at(49).opcode() == 0x63);
    assert(table_at(50) == Mnemonic::Jalr && table_at(50).opcode() == 0x67);
    assert(table_at(51) == Mnemonic::Jal && table_at(51).opcode() == 0x6f);
    assert(table_at(52) == Mnemonic::Ecall && table_at(52).opcode() == 0x73);
    assert(table_at(53) == Mnemonic::Ebreak && table_at(53).opcode() == 0x73);
    assert(table_at(54) == Mnemonic::Csrrw && table_at(54).opcode() == 0x73);
    assert(table_at(55) == Mnemonic::Csrrs && table_at(55).opcode() == 0x73);
    assert(table_at(56) == Mnemonic::Csrrc && table_at(56).opcode() == 0x73);
    assert(table_at(57) == Mnemonic::Csrrwi && table_at(57).opcode() == 0x73);
    assert(table_at(58) == Mnemonic::Csrrsi && table_at(58).opcode() == 0x73);
    assert(table_at(59) == Mnemonic::Csrrci && table_at(59).opcode() == 0x73);
    lemma_buckets();
    lemma_first_row_from(w, 0);
    let op = opcode_of(w);
    if op != 0x03 && op != 0x0f && op != 0x13 && op != 0x17 && op != 0x1b && op != 0x23 && op != 0x33 && op != 0x37 && op != 0x3b && op != 0x63 && op != 0x67 && op != 0x6f && op != 0x73 {
        lemma_unused_opcode(op);
    }
    reveal_with_fuel(first_match, 12);
    reveal_with_fuel(first_row_from, 61);
}

} // verus!
