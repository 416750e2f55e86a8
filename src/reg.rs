use vstd::prelude::*;

verus! {

/// Calling convention role of a register.
pub enum SavedBy {
    Caller,
    Callee,
    Neither,
}

/// The 32 integer registers, by ABI name, in index order.
#[derive(Debug, PartialEq, Eq, Structural, Clone, Copy)]
pub enum Reg {
    zero, ra, sp, gp, tp, t0, t1, t2, s0, s1, a0, a1, a2, a3, a4, a5,
    a6, a7, s2, s3, s4, s5, s6, s7, s8, s9, s10, s11, t3, t4, t5, t6,
}

impl Reg {
    /// Index of the register in the register file.
    pub open spec fn index(self) -> nat {
        match self {
            Reg::zero => 0, Reg::ra => 1, Reg::sp => 2, Reg::gp => 3,
            Reg::tp => 4, Reg::t0 => 5, Reg::t1 => 6, Reg::t2 => 7,
            Reg::s0 => 8, Reg::s1 => 9, Reg::a0 => 10, Reg::a1 => 11,
            Reg::a2 => 12, Reg::a3 => 13, Reg::a4 => 14, Reg::a5 => 15,
            Reg::a6 => 16, Reg::a7 => 17, Reg::s2 => 18, Reg::s3 => 19,
            Reg::s4 => 20, Reg::s5 => 21, Reg::s6 => 22, Reg::s7 => 23,
            Reg::s8 => 24, Reg::s9 => 25, Reg::s10 => 26, Reg::s11 => 27,
            Reg::t3 => 28, Reg::t4 => 29, Reg::t5 => 30, Reg::t6 => 31,
        }
    }

    /// The register with index `i`.
    pub open spec fn spec_new(i: u32) -> Reg {
        if i == 0 {
            Reg::zero
        } else if i == 1 {
            Reg::ra
        } else if i == 2 {
            Reg::sp
        } else if i == 3 {
            Reg::gp
        } else if i == 4 {
            Reg::tp
        } else if i == 5 {
            Reg::t0
        } else if i == 6 {
            Reg::t1
        } else if i == 7 {
            Reg::t2
        } else if i == 8 {
            Reg::s0
        } else if i == 9 {
            Reg::s1
        } else if i == 10 {
            Reg::a0
        } else if i == 11 {
            Reg::a1
        } else if i == 12 {
            Reg::a2
        } else if i == 13 {
            Reg::a3
        } else if i == 14 {
            Reg::a4
        } else if i == 15 {
            Reg::a5
        } else if i == 16 {
            Reg::a6
        } else if i == 17 {
            Reg::a7
        } else if i == 18 {
            Reg::s2
        } else if i == 19 {
            Reg::s3
        } else if i == 20 {
            Reg::s4
        } else if i == 21 {
            Reg::s5
        } else if i == 22 {
            Reg::s6
        } else if i == 23 {
            Reg::s7
        } else if i == 24 {
            Reg::s8
        } else if i == 25 {
            Reg::s9
        } else if i == 26 {
            Reg::s10
        } else if i == 27 {
            Reg::s11
        } else if i == 28 {
            Reg::t3
        } else if i == 29 {
            Reg::t4
        } else if i == 30 {
            Reg::t5
        } else {
            Reg::t6
        }
    }

    /// The register with index `reg`.
    pub fn new(reg: u8) -> (r: Reg)
        requires
            reg <= 31,
        ensures
            r.index() == reg,
            r == Reg::spec_new(reg as u32),
    {
        match reg {
            0 => Reg::zero, 1 => Reg::ra, 2 => Reg::sp, 3 => Reg::gp,
            4 => Reg::tp, 5 => Reg::t0, 6 => Reg::t1, 7 => Reg::t2,
            8 => Reg::s0, 9 => Reg::s1, 10 => Reg::a0, 11 => Reg::a1,
            12 => Reg::a2, 13 => Reg::a3, 14 => Reg::a4, 15 => Reg::a5,
            16 => Reg::a6, 17 => Reg::a7, 18 => Reg::s2, 19 => Reg::s3,
            20 => Reg::s4, 21 => Reg::s5, 22 => Reg::s6, 23 => Reg::s7,
            24 => Reg::s8, 25 => Reg::s9, 26 => Reg::s10, 27 => Reg::s11,
            28 => Reg::t3, 29 => Reg::t4, 30 => Reg::t5, _ => Reg::t6,
        }
    }

    /// Index of the register in the register file.
    pub fn idx(self) -> (r: usize)
        ensures
            r == self.index(),
            r < 32,
    {
        match self {
            Reg::zero => 0, Reg::ra => 1, Reg::sp => 2, Reg::gp => 3,
            Reg::tp => 4, Reg::t0 => 5, Reg::t1 => 6, Reg::t2 => 7,
            Reg::s0 => 8, Reg::s1 => 9, Reg::a0 => 10, Reg::a1 => 11,
            Reg::a2 => 12, Reg::a3 => 13, Reg::a4 => 14, Reg::a5 => 15,
            Reg::a6 => 16, Reg::a7 => 17, Reg::s2 => 18, Reg::s3 => 19,
            Reg::s4 => 20, Reg::s5 => 21, Reg::s6 => 22, Reg::s7 => 23,
            Reg::s8 => 24, Reg::s9 => 25, Reg::s10 => 26, Reg::s11 => 27,
            Reg::t3 => 28, Reg::t4 => 29, Reg::t5 => 30, Reg::t6 => 31,
        }
    }
}

} // verus!
