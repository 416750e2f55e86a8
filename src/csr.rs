use vstd::prelude::*;

verus! {

/// Number of addressable CSRs (12-bit address space).
pub const CSR_COUNT: usize = 4096;

/// Named control and status registers, by the address the privileged specification gives them.
#[derive(Debug, Clone, Copy, PartialEq, Eq, Structural)]
pub enum SupportedCsrID {
    mvendorid,
    marchid,
    mimpid,
    mhartid,
    mconfigptr,
    mstatus,
    misa,
    medeleg,
    mideleg,
    mie,
    mtvec,
    mcounteren,
    mstatush,
    medelegh,
    mscratch,
    mepc,
    mcause,
    mtval,
    mip,
    mtinst,
    mtval2,
    menvcfg,
    menvcfgh,
    mseccfg,
    mseccfgh,
    pmpcfg0,
    pmpcfg1,
    pmpcfg2,
    pmpcfg3,
    pmpcfg14,
    pmpcfg15,
    pmpaddr0,
    pmpaddr1,
    pmpaddr63,
    mstateen0,
    mstateen1,
    mstateen2,
    mstateen3,
    mstateen0h,
    mstateen1h,
    mstateen2h,
    mstateen3h,
    fflags,
    frm,
    fcsr,
    cycle,
    time,
    instret,
    hpmcounter3,
    hpmcounter4,
    sstatus,
    sie,
    stvec,
    scounteren,
    senvcfg,
    scountinhibit,
    sscratch,
    sepc,
    scause,
    stval,
    sip,
    scountovf,
    satp,
    scontext,
    sstateen0,
    sstateen1,
    sstateen2,
    sstateen3,
    hstatus,
    hedeleg,
    hideleg,
    hie,
    hcounteren,
    hgeie,
    hedelegh,
    htval,
    hip,
    hvip,
    htinst,
    hgeip,
    henvcfg,
    henvcfgh,
    hgatp,
    hcontext,
    htimedelta,
    htimedeltah,
    hstateen0,
    hstateen1,
    hstateen2,
    hstateen3,
    hstateen0h,
    hstateen1h,
    hstateen2h,
    hstateen3h,
    vsstatus,
    vsie,
    vstvec,
    vsscratch,
    vsepc,
    vscause,
    vstval,
    vsip,
    vsatp,
}

impl SupportedCsrID {
    /// The 12-bit address of this register.
    pub open spec fn addr(self) -> u16 {
        match self {
            SupportedCsrID::mvendorid => 0xF11,
            SupportedCsrID::marchid => 0xF12,
            SupportedCsrID::mimpid => 0xF13,
            SupportedCsrID::mhartid => 0xF14,
            SupportedCsrID::mconfigptr => 0xF15,
            SupportedCsrID::mstatus => 0x300,
            SupportedCsrID::misa => 0x301,
            SupportedCsrID::medeleg => 0x302,
            SupportedCsrID::mideleg => 0x303,
            SupportedCsrID::mie => 0x304,
            SupportedCsrID::mtvec => 0x305,
            SupportedCsrID::mcounteren => 0x306,
            SupportedCsrID::mstatush => 0x310,
            SupportedCsrID::medelegh => 0x312,
            SupportedCsrID::mscratch => 0x340,
            SupportedCsrID::mepc => 0x341,
            SupportedCsrID::mcause => 0x342,
            SupportedCsrID::mtval => 0x343,
            SupportedCsrID::mip => 0x344,
            SupportedCsrID::mtinst => 0x34A,
            SupportedCsrID::mtval2 => 0x34B,
            SupportedCsrID::menvcfg => 0x30A,
            SupportedCsrID::menvcfgh => 0x31A,
            SupportedCsrID::mseccfg => 0x747,
            SupportedCsrID::mseccfgh => 0x757,
            SupportedCsrID::pmpcfg0 => 0x3A0,
            SupportedCsrID::pmpcfg1 => 0x3A1,
            SupportedCsrID::pmpcfg2 => 0x3A2,
            SupportedCsrID::pmpcfg3 => 0x3A3,
            SupportedCsrID::pmpcfg14 => 0x3AE,
            SupportedCsrID::pmpcfg15 => 0x3AF,
            SupportedCsrID::pmpaddr0 => 0x3B0,
            SupportedCsrID::pmpaddr1 => 0x3B1,
            SupportedCsrID::pmpaddr63 => 0x3EF,
            SupportedCsrID::mstateen0 => 0x30C,
            SupportedCsrID::mstateen1 => 0x30D,
            SupportedCsrID::mstateen2 => 0x30E,
            SupportedCsrID::mstateen3 => 0x30F,
            SupportedCsrID::mstateen0h => 0x31C,
            SupportedCsrID::mstateen1h => 0x31D,
            SupportedCsrID::mstateen2h => 0x31E,
            SupportedCsrID::mstateen3h => 0x31F,
            SupportedCsrID::fflags => 0x001,
            SupportedCsrID::frm => 0x002,
            SupportedCsrID::fcsr => 0x003,
            SupportedCsrID::cycle => 0xC00,
            SupportedCsrID::time => 0xC01,
            SupportedCsrID::instret => 0xC02,
            SupportedCsrID::hpmcounter3 => 0xC03,
            SupportedCsrID::hpmcounter4 => 0xC04,
            SupportedCsrID::sstatus => 0x100,
            SupportedCsrID::sie => 0x104,
            SupportedCsrID::stvec => 0x105,
            SupportedCsrID::scounteren => 0x106,
            SupportedCsrID::senvcfg => 0x10A,
            SupportedCsrID::scountinhibit => 0x120,
            SupportedCsrID::sscratch => 0x140,
            SupportedCsrID::sepc => 0x141,
            SupportedCsrID::scause => 0x142,
            SupportedCsrID::stval => 0x143,
            SupportedCsrID::sip => 0x144,
            SupportedCsrID::scountovf => 0xDA0,
            SupportedCsrID::satp => 0x180,
            SupportedCsrID::scontext => 0x5A8,
            SupportedCsrID::sstateen0 => 0x10C,
            SupportedCsrID::sstateen1 => 0x10D,
            SupportedCsrID::sstateen2 => 0x10E,
            SupportedCsrID::sstateen3 => 0x10F,
            SupportedCsrID::hstatus => 0x600,
            SupportedCsrID::hedeleg => 0x602,
            SupportedCsrID::hideleg => 0x603,
            SupportedCsrID::hie => 0x604,
            SupportedCsrID::hcounteren => 0x606,
            SupportedCsrID::hgeie => 0x607,
            SupportedCsrID::hedelegh => 0x612,
            SupportedCsrID::htval => 0x643,
            SupportedCsrID::hip => 0x644,
            SupportedCsrID::hvip => 0x645,
            SupportedCsrID::htinst => 0x64A,
            SupportedCsrID::hgeip => 0xE12,
            SupportedCsrID::henvcfg => 0x60A,
            SupportedCsrID::henvcfgh => 0x61A,
            SupportedCsrID::hgatp => 0x680,
            SupportedCsrID::hcontext => 0x6A8,
            SupportedCsrID::htimedelta => 0x605,
            SupportedCsrID::htimedeltah => 0x615,
            SupportedCsrID::hstateen0 => 0x60C,
            SupportedCsrID::hstateen1 => 0x60D,
            SupportedCsrID::hstateen2 => 0x60E,
            SupportedCsrID::hstateen3 => 0x60F,
            SupportedCsrID::hstateen0h => 0x61C,
            SupportedCsrID::hstateen1h => 0x61D,
            SupportedCsrID::hstateen2h => 0x61E,
            SupportedCsrID::hstateen3h => 0x61F,
            SupportedCsrID::vsstatus => 0x200,
            SupportedCsrID::vsie => 0x204,
            SupportedCsrID::vstvec => 0x205,
            SupportedCsrID::vsscratch => 0x240,
            SupportedCsrID::vsepc => 0x241,
            SupportedCsrID::vscause => 0x242,
            SupportedCsrID::vstval => 0x243,
            SupportedCsrID::vsip => 0x244,
            SupportedCsrID::vsatp => 0x280,
        }
    }

    /// The 12-bit address of this register.
    pub fn address(self) -> (r: u16)
        ensures
            r == self.addr(),
            r < 4096,
    {
        match self {
            SupportedCsrID::mvendorid => 0xF11,
            SupportedCsrID::marchid => 0xF12,
            SupportedCsrID::mimpid => 0xF13,
            SupportedCsrID::mhartid => 0xF14,
            SupportedCsrID::mconfigptr => 0xF15,
            SupportedCsrID::mstatus => 0x300,
            SupportedCsrID::misa => 0x301,
            SupportedCsrID::medeleg => 0x302,
            SupportedCsrID::mideleg => 0x303,
            SupportedCsrID::mie => 0x304,
            SupportedCsrID::mtvec => 0x305,
            SupportedCsrID::mcounteren => 0x306,
            SupportedCsrID::mstatush => 0x310,
            SupportedCsrID::medelegh => 0x312,
            SupportedCsrID::mscratch => 0x340,
            SupportedCsrID::mepc => 0x341,
            SupportedCsrID::mcause => 0x342,
            SupportedCsrID::mtval => 0x343,
            SupportedCsrID::mip => 0x344,
            SupportedCsrID::mtinst => 0x34A,
            SupportedCsrID::mtval2 => 0x34B,
            SupportedCsrID::menvcfg => 0x30A,
            SupportedCsrID::menvcfgh => 0x31A,
            SupportedCsrID::mseccfg => 0x747,
            SupportedCsrID::mseccfgh => 0x757,
            SupportedCsrID::pmpcfg0 => 0x3A0,
            SupportedCsrID::pmpcfg1 => 0x3A1,
            SupportedCsrID::pmpcfg2 => 0x3A2,
            SupportedCsrID::pmpcfg3 => 0x3A3,
            SupportedCsrID::pmpcfg14 => 0x3AE,
            SupportedCsrID::pmpcfg15 => 0x3AF,
            SupportedCsrID::pmpaddr0 => 0x3B0,
            SupportedCsrID::pmpaddr1 => 0x3B1,
            SupportedCsrID::pmpaddr63 => 0x3EF,
            SupportedCsrID::mstateen0 => 0x30C,
            SupportedCsrID::mstateen1 => 0x30D,
            SupportedCsrID::mstateen2 => 0x30E,
            SupportedCsrID::mstateen3 => 0x30F,
            SupportedCsrID::mstateen0h => 0x31C,
            SupportedCsrID::mstateen1h => 0x31D,
            SupportedCsrID::mstateen2h => 0x31E,
            SupportedCsrID::mstateen3h => 0x31F,
            SupportedCsrID::fflags => 0x001,
            SupportedCsrID::frm => 0x002,
            SupportedCsrID::fcsr => 0x003,
            SupportedCsrID::cycle => 0xC00,
            SupportedCsrID::time => 0xC01,
            SupportedCsrID::instret => 0xC02,
            SupportedCsrID::hpmcounter3 => 0xC03,
            SupportedCsrID::hpmcounter4 => 0xC04,
            SupportedCsrID::sstatus => 0x100,
            SupportedCsrID::sie => 0x104,
            SupportedCsrID::stvec => 0x105,
            SupportedCsrID::scounteren => 0x106,
            SupportedCsrID::senvcfg => 0x10A,
            SupportedCsrID::scountinhibit => 0x120,
            SupportedCsrID::sscratch => 0x140,
            SupportedCsrID::sepc => 0x141,
            SupportedCsrID::scause => 0x142,
            SupportedCsrID::stval => 0x143,
            SupportedCsrID::sip => 0x144,
            SupportedCsrID::scountovf => 0xDA0,
            SupportedCsrID::satp => 0x180,
            SupportedCsrID::scontext => 0x5A8,
            SupportedCsrID::sstateen0 => 0x10C,
            SupportedCsrID::sstateen1 => 0x10D,
            SupportedCsrID::sstateen2 => 0x10E,
            SupportedCsrID::sstateen3 => 0x10F,
            SupportedCsrID::hstatus => 0x600,
            SupportedCsrID::hedeleg => 0x602,
            SupportedCsrID::hideleg => 0x603,
            SupportedCsrID::hie => 0x604,
            SupportedCsrID::hcounteren => 0x606,
            SupportedCsrID::hgeie => 0x607,
            SupportedCsrID::hedelegh => 0x612,
            SupportedCsrID::htval => 0x643,
            SupportedCsrID::hip => 0x644,
            SupportedCsrID::hvip => 0x645,
            SupportedCsrID::htinst => 0x64A,
            SupportedCsrID::hgeip => 0xE12,
            SupportedCsrID::henvcfg => 0x60A,
            SupportedCsrID::henvcfgh => 0x61A,
            SupportedCsrID::hgatp => 0x680,
            SupportedCsrID::hcontext => 0x6A8,
            SupportedCsrID::htimedelta => 0x605,
            SupportedCsrID::htimedeltah => 0x615,
            SupportedCsrID::hstateen0 => 0x60C,
            SupportedCsrID::hstateen1 => 0x60D,
            SupportedCsrID::hstateen2 => 0x60E,
            SupportedCsrID::hstateen3 => 0x60F,
            SupportedCsrID::hstateen0h => 0x61C,
            SupportedCsrID::hstateen1h => 0x61D,
            SupportedCsrID::hstateen2h => 0x61E,
            SupportedCsrID::hstateen3h => 0x61F,
            SupportedCsrID::vsstatus => 0x200,
            SupportedCsrID::vsie => 0x204,
            SupportedCsrID::vstvec => 0x205,
            SupportedCsrID::vsscratch => 0x240,
            SupportedCsrID::vsepc => 0x241,
            SupportedCsrID::vscause => 0x242,
            SupportedCsrID::vstval => 0x243,
            SupportedCsrID::vsip => 0x244,
            SupportedCsrID::vsatp => 0x280,
        }
    }
}

/// The registers implemented by name; every other address goes to the pass-through handler.
pub open spec fn supported_csr(id: u16) -> Option<SupportedCsrID> {
    if id == 0xF11 {
        Some(SupportedCsrID::mvendorid)
    } else if id == 0xF12 {
        Some(SupportedCsrID::marchid)
    } else if id == 0xF13 {
        Some(SupportedCsrID::mimpid)
    } else if id == 0xF14 {
        Some(SupportedCsrID::mhartid)
    } else if id == 0xF15 {
        Some(SupportedCsrID::mconfigptr)
    } else if id == 0x300 {
        Some(SupportedCsrID::mstatus)
    } else if id == 0x301 {
        Some(SupportedCsrID::misa)
    } else if id == 0x302 {
        Some(SupportedCsrID::medeleg)
    } else if id == 0x303 {
        Some(SupportedCsrID::mideleg)
    } else if id == 0x304 {
        Some(SupportedCsrID::mie)
    } else if id == 0x305 {
        Some(SupportedCsrID::mtvec)
    } else if id == 0x306 {
        Some(SupportedCsrID::mcounteren)
    } else if id == 0x310 {
        Some(SupportedCsrID::mstatush)
    } else if id == 0x312 {
        Some(SupportedCsrID::medelegh)
    } else if id == 0x340 {
        Some(SupportedCsrID::mscratch)
    } else if id == 0x341 {
        Some(SupportedCsrID::mepc)
    } else if id == 0x342 {
        Some(SupportedCsrID::mcause)
    } else if id == 0x343 {
        Some(SupportedCsrID::mtval)
    } else if id == 0x344 {
        Some(SupportedCsrID::mip)
    } else if id == 0x34A {
        Some(SupportedCsrID::mtinst)
    } else if id == 0x34B {
        Some(SupportedCsrID::mtval2)
    } else if id == 0x30A {
        Some(SupportedCsrID::menvcfg)
    } else if id == 0x31A {
        Some(SupportedCsrID::menvcfgh)
    } else if id == 0x747 {
        Some(SupportedCsrID::mseccfg)
    } else if id == 0x757 {
        Some(SupportedCsrID::mseccfgh)
    } else if id == 0x3A0 {
        Some(SupportedCsrID::pmpcfg0)
    } else if id == 0x3A1 {
        Some(SupportedCsrID::pmpcfg1)
    } else if id == 0x3A2 {
        Some(SupportedCsrID::pmpcfg2)
    } else if id == 0x3A3 {
        Some(SupportedCsrID::pmpcfg3)
    } else if id == 0x3AE {
        Some(SupportedCsrID::pmpcfg14)
    } else if id == 0x3AF {
        Some(SupportedCsrID::pmpcfg15)
    } else if id == 0x3B0 {
        Some(SupportedCsrID::pmpaddr0)
    } else if id == 0x3B1 {
        Some(SupportedCsrID::pmpaddr1)
    } else if id == 0x3EF {
        Some(SupportedCsrID::pmpaddr63)
    } else if id == 0x30C {
        Some(SupportedCsrID::mstateen0)
    } else if id == 0x30D {
        Some(SupportedCsrID::mstateen1)
    } else if id == 0x30E {
        Some(SupportedCsrID::mstateen2)
    } else if id == 0x30F {
        Some(SupportedCsrID::mstateen3)
    } else if id == 0x31C {
        Some(SupportedCsrID::mstateen0h)
    } else if id == 0x31D {
        Some(SupportedCsrID::mstateen1h)
    } else if id == 0x31E {
        Some(SupportedCsrID::mstateen2h)
    } else if id == 0x31F {
        Some(SupportedCsrID::mstateen3h)
    } else {
        None
    }
}

fn lookup_supported(id: u16) -> (r: Option<SupportedCsrID>)
    ensures
        r == supported_csr(id),
{
    match id {
        0xF11 => Some(SupportedCsrID::mvendorid),
        0xF12 => Some(SupportedCsrID::marchid),
        0xF13 => Some(SupportedCsrID::mimpid),
        0xF14 => Some(SupportedCsrID::mhartid),
        0xF15 => Some(SupportedCsrID::mconfigptr),
        0x300 => Some(SupportedCsrID::mstatus),
        0x301 => Some(SupportedCsrID::misa),
        0x302 => Some(SupportedCsrID::medeleg),
        0x303 => Some(SupportedCsrID::mideleg),
        0x304 => Some(SupportedCsrID::mie),
        0x305 => Some(SupportedCsrID::mtvec),
        0x306 => Some(SupportedCsrID::mcounteren),
        0x310 => Some(SupportedCsrID::mstatush),
        0x312 => Some(SupportedCsrID::medelegh),
        0x340 => Some(SupportedCsrID::mscratch),
        0x341 => Some(SupportedCsrID::mepc),
        0x342 => Some(SupportedCsrID::mcause),
        0x343 => Some(SupportedCsrID::mtval),
        0x344 => Some(SupportedCsrID::mip),
        0x34A => Some(SupportedCsrID::mtinst),
        0x34B => Some(SupportedCsrID::mtval2),
        0x30A => Some(SupportedCsrID::menvcfg),
        0x31A => Some(SupportedCsrID::menvcfgh),
        0x747 => Some(SupportedCsrID::mseccfg),
        0x757 => Some(SupportedCsrID::mseccfgh),
        0x3A0 => Some(SupportedCsrID::pmpcfg0),
        0x3A1 => Some(SupportedCsrID::pmpcfg1),
        0x3A2 => Some(SupportedCsrID::pmpcfg2),
        0x3A3 => Some(SupportedCsrID::pmpcfg3),
        0x3AE => Some(SupportedCsrID::pmpcfg14),
        0x3AF => Some(SupportedCsrID::pmpcfg15),
        0x3B0 => Some(SupportedCsrID::pmpaddr0),
        0x3B1 => Some(SupportedCsrID::pmpaddr1),
        0x3EF => Some(SupportedCsrID::pmpaddr63),
        0x30C => Some(SupportedCsrID::mstateen0),
        0x30D => Some(SupportedCsrID::mstateen1),
        0x30E => Some(SupportedCsrID::mstateen2),
        0x30F => Some(SupportedCsrID::mstateen3),
        0x31C => Some(SupportedCsrID::mstateen0h),
        0x31D => Some(SupportedCsrID::mstateen1h),
        0x31E => Some(SupportedCsrID::mstateen2h),
        0x31F => Some(SupportedCsrID::mstateen3h),
        _ => None,
    }
}

/// A CSR address, classified as implemented by name or not.
#[derive(Debug, Clone, Copy, PartialEq, Eq, Structural)]
pub enum CsrID {
    Supported(SupportedCsrID),
    Unsupported(u16),
}

/// The classification of address `id`.
pub open spec fn csr_id_of(id: u16) -> CsrID {
    match supported_csr(id) {
        Some(s) => CsrID::Supported(s),
        None => CsrID::Unsupported(id),
    }
}

impl CsrID {
    /// The 12-bit address.
    pub open spec fn addr(self) -> u16 {
        match self {
            CsrID::Supported(s) => s.addr(),
            CsrID::Unsupported(n) => n,
        }
    }

    /// Classifies a 12-bit CSR address.
    pub fn new(id: u16) -> (r: Self)
        requires
            id < 4096,
        ensures
            r == csr_id_of(id),
            r.addr() == id,
    {
        match lookup_supported(id) {
            Some(s) => CsrID::Supported(s),
            None => CsrID::Unsupported(id),
        }
    }

    /// The 12-bit address.
    pub fn get(self) -> (r: u16)
        ensures
            r == self.addr(),
    {
        match self {
            CsrID::Unsupported(n) => n,
            CsrID::Supported(s) => s.address(),
        }
    }
}

/// The content of one CSR.
#[derive(Debug, Clone, Copy, PartialEq, Eq, Structural)]
pub struct CsrValue(pub u64);

/// Write handler of the registers without a dedicated one: the value is stored unchanged.
pub fn pass_through_write(id: CsrID, csr: u64) -> (r: u64)
    ensures
        r == csr,
{
    csr
}


/// Name, access class and description of the register at address `addr`.
pub open spec fn csr_info(addr: u16) -> (&'static str, &'static str, &'static str) {
    if addr == 0xF11 {
        ("mvendorid", "MRO", "Vendor ID.")
    } else if addr == 0xF12 {
        ("marchid", "MRO", "Architecture ID.")
    } else if addr == 0xF13 {
        ("mimpid", "MRO", "Implementation ID.")
    } else if addr == 0xF14 {
        ("mhartid", "MRO", "Hardware thread ID.")
    } else if addr == 0xF15 {
        ("mconfigptr", "MRO", "Pointer to configuration data structure.")
    } else if addr == 0x300 {
        ("mstatus", "MRW", "Machine status register.")
    } else if addr == 0x301 {
        ("misa", "MRW", "ISA and extensions")
    } else if addr == 0x302 {
        ("medeleg", "MRW", "Machine exception delegation register.")
    } else if addr == 0x303 {
        ("mideleg", "MRW", "Machine interrupt delegation register.")
    } else if addr == 0x304 {
        ("mie", "MRW", "Machine interrupt-enable register.")
    } else if addr == 0x305 {
        ("mtvec", "MRW", "Machine trap-handler base address.")
    } else if addr == 0x306 {
        ("mcounteren", "MRW", "Machine counter enable.")
    } else if addr == 0x310 {
        ("mstatush", "MRW", "Additional machine status register, RV32 only.")
    } else if addr == 0x312 {
        ("medelegh", "MRW", "Upper 32 bits of medeleg, RV32 only.")
    } else if addr == 0x340 {
        ("mscratch", "MRW", "Scratch register for machine trap handlers.")
    } else if addr == 0x341 {
        ("mepc", "MRW", "Machine exception program counter.")
    } else if addr == 0x342 {
        ("mcause", "MRW", "Machine trap cause.")
    } else if addr == 0x343 {
        ("mtval", "MRW", "Machine bad address or instruction.")
    } else if addr == 0x344 {
        ("mip", "MRW", "Machine interrupt pending.")
    } else if addr == 0x34A {
        ("mtinst", "MRW", "Machine trap instruction (transformed).")
    } else if addr == 0x34B {
        ("mtval2", "MRW", "Machine bad guest physical address.")
    } else if addr == 0x30A {
        ("menvcfg", "MRW", "Machine environment configuration register.")
    } else if addr == 0x31A {
        ("menvcfgh", "MRW", "Upper 32 bits of menvcfg, RV32 only.")
    } else if addr == 0x747 {
        ("mseccfg", "MRW", "Machine security configuration register.")
    } else if addr == 0x757 {
        ("mseccfgh", "MRW", "Upper 32 bits of mseccfg, RV32 only.")
    } else if addr == 0x3A0 {
        ("pmpcfg0", "MRW", "Physical memory protection configuration.")
    } else if addr == 0x3A1 {
        ("pmpcfg1", "MRW", "Physical memory protection configuration, RV32 only.")
    } else if addr == 0x3A2 {
        ("pmpcfg2", "MRW", "Physical memory protection configuration.")
    } else if addr == 0x3A3 {
        ("pmpcfg3", "MRW", "Physical memory protection configuration, RV32 only.")
    } else if addr == 0x3AE {
        ("pmpcfg14", "MRW", "Physical memory protection configuration.")
    } else if addr == 0x3AF {
        ("pmpcfg15", "MRW", "Physical memory protection configuration, RV32 only.")
    } else if addr == 0x3B0 {
        ("pmpaddr0", "MRW", "Physical memory protection address register.")
    } else if addr == 0x3B1 {
        ("pmpaddr1", "MRW", "Physical memory protection address register.")
    } else if addr == 0x3EF {
        ("pmpaddr63", "MRW", "Physical memory protection address register.")
    } else if addr == 0x30C {
        ("mstateen0", "MRW", "Machine State Enable 0 Register.")
    } else if addr == 0x30D {
        ("mstateen1", "MRW", "Machine State Enable 1 Register.")
    } else if addr == 0x30E {
        ("mstateen2", "MRW", "Machine State Enable 2 Register.")
    } else if addr == 0x30F {
        ("mstateen3", "MRW", "Machine State Enable 3 Register.")
    } else if addr == 0x31C {
        ("mstateen0h", "MRW", "Upper 32 bits of Machine State Enable 0 Register, RV32 only.")
    } else if addr == 0x31D {
        ("mstateen1h", "MRW", "Upper 32 bits of Machine State Enable 1 Register, RV32 only.")
    } else if addr == 0x31E {
        ("mstateen2h", "MRW", "Upper 32 bits of Machine State Enable 2 Register, RV32 only.")
    } else if addr == 0x31F {
        ("mstateen3h", "MRW", "Upper 32 bits of Machine State Enable 3 Register, RV32 only.")
    } else if addr == 0x001 {
        ("fflags", "URW", "Floating-Point Accrued Exceptions.")
    } else if addr == 0x002 {
        ("frm", "URW", "Floating-Point Dynamic Rounding Mode.")
    } else if addr == 0x003 {
        ("fcsr", "URW", "Floating-Point Control and Status Register (frm +fflags).")
    } else if addr == 0xC00 {
        ("cycle", "URO", "Cycle counter for RDCYCLE instruction.")
    } else if addr == 0xC01 {
        ("time", "URO", "Timer for RDTIME instruction.")
    } else if addr == 0xC02 {
        ("instret", "URO", "Instructions-retired counter for RDINSTRET instruction.")
    } else if addr == 0xC03 {
        ("hpmcounter3", "URO", "Performance-monitoring counter.")
    } else if addr == 0xC04 {
        ("hpmcounter4", "URO", "Performance-monitoring counter.")
    } else if addr == 0x100 {
        ("sstatus", "SRW", "Supervisor status register.")
    } else if addr == 0x104 {
        ("sie", "SRW", "Supervisor interrupt-enable register.")
    } else if addr == 0x105 {
        ("stvec", "SRW", "Supervisor trap handler base address.")
    } else if addr == 0x106 {
        ("scounteren", "SRW", "Supervisor counter enable.")
    } else if addr == 0x10A {
        ("senvcfg", "SRW", "Supervisor environment configuration register.")
    } else if addr == 0x120 {
        ("scountinhibit", "SRW", "Supervisor counter-inhibit register.")
    } else if addr == 0x140 {
        ("sscratch", "SRW", "Scratch register for supervisor trap handlers.")
    } else if addr == 0x141 {
        ("sepc", "SRW", "Supervisor exception program counter.")
    } else if addr == 0x142 {
        ("scause", "SRW", "Supervisor trap cause.")
    } else if addr == 0x143 {
        ("stval", "SRW", "Supervisor bad address or instruction.")
    } else if addr == 0x144 {
        ("sip", "SRW", "Supervisor interrupt pending.")
    } else if addr == 0xDA0 {
        ("scountovf", "SRO", "Supervisor count overflow.")
    } else if addr == 0x180 {
        ("satp", "SRW", "Supervisor address translation and protection.")
    } else if addr == 0x5A8 {
        ("scontext", "SRW", "Supervisor-mode context register.")
    } else if addr == 0x10C {
        ("sstateen0", "SRW", "Supervisor State Enable 0 Register.")
    } else if addr == 0x10D {
        ("sstateen1", "SRW", "Supervisor State Enable 1 Register.")
    } else if addr == 0x10E {
        ("sstateen2", "SRW", "Supervisor State Enable 2 Register.")
    } else if addr == 0x10F {
        ("sstateen3", "SRW", "Supervisor State Enable 3 Register.")
    } else if addr == 0x600 {
        ("hstatus", "HRW", "Hypervisor status register.")
    } else if addr == 0x602 {
        ("hedeleg", "HRW", "Hypervisor exception delegation register.")
    } else if addr == 0x603 {
        ("hideleg", "HRW", "Hypervisor interrupt delegation register.")
    } else if addr == 0x604 {
        ("hie", "HRW", "Hypervisor interrupt-enable register.")
    } else if addr == 0x606 {
        ("hcounteren", "HRW", "Hypervisor counter enable.")
    } else if addr == 0x607 {
        ("hgeie", "HRW", "Hypervisor guest external interrupt-enable register.")
    } else if addr == 0x612 {
        ("hedelegh", "HRW", "Upper 32 bits of hedeleg, RV32 only.")
    } else if addr == 0x643 {
        ("htval", "HRW", "Hypervisor bad guest physical address.")
    } else if addr == 0x644 {
        ("hip", "HRW", "Hypervisor interrupt pending.")
    } else if addr == 0x645 {
        ("hvip", "HRW", "Hypervisor virtual interrupt pending.")
    } else if addr == 0x64A {
        ("htinst", "HRW", "Hypervisor trap instruction (transformed).")
    } else if addr == 0xE12 {
        ("hgeip", "HRO", "Hypervisor guest external interrupt pending.")
    } else if addr == 0x60A {
        ("henvcfg", "HRW", "Hypervisor environment configuration register.")
    } else if addr == 0x61A {
        ("henvcfgh", "HRM", "Upper 32 bits of henvcfg, RV32 only.")
    } else if addr == 0x680 {
        ("hgatp", "HRW", "Hypervisor guest address translation and protection.")
    } else if addr == 0x6A8 {
        ("hcontext", "HRW", "Hypervisor-mode context register.")
    } else if addr == 0x605 {
        ("htimedelta", "HRW", "Delta for VS/VU-mode timer.")
    } else if addr == 0x615 {
        ("htimedeltah", "HRW", "Upper 32 bits of htimedelta, RV32 only.")
    } else if addr == 0x60C {
        ("hstateen0", "HRW", "Hypervisor State Enable 0 Register.")
    } else if addr == 0x60D {
        ("hstateen1", "HRW", "Hypervisor State Enable 1 Register.")
    } else if addr == 0x60E {
        ("hstateen2", "HRW", "Hypervisor State Enable 2 Register.")
    } else if addr == 0x60F {
        ("hstateen3", "HRW", "Hypervisor State Enable 3 Register.")
    } else if addr == 0x61C {
        ("hstateen0h", "HRW", "Upper 32 bits of Hypervisor State Enable 0 Register, RV32 only.")
    } else if addr == 0x61D {
        ("hstateen1h", "HRW", "Upper 32 bits of Hypervisor State Enable 1 Register, RV32 only.")
    } else if addr == 0x61E {
        ("hstateen2h", "HRW", "Upper 32 bits of Hypervisor State Enable 2 Register, RV32 only.")
    } else if addr == 0x61F {
        ("hstateen3h", "HRW", "Upper 32 bits of Hypervisor State Enable 3 Register, RV32 only.")
    } else if addr == 0x200 {
        ("vsstatus", "HRW", "Virtual supervisor status register.")
    } else if addr == 0x204 {
        ("vsie", "HRW", "Virtual supervisor interrupt-enable register.")
    } else if addr == 0x205 {
        ("vstvec", "HRW", "Virtual supervisor trap handler base address.")
    } else if addr == 0x240 {
        ("vsscratch", "HRW", "Virtual supervisor scratch register.")
    } else if addr == 0x241 {
        ("vsepc", "HRW", "Virtual supervisor exception program counter.")
    } else if addr == 0x242 {
        ("vscause", "HRW", "Virtual supervisor trap cause.")
    } else if addr == 0x243 {
        ("vstval", "HRW", "Virtual supervisor bad address or instruction.")
    } else if addr == 0x244 {
        ("vsip", "HRW", "Virtual supervisor interrupt pending.")
    } else if addr == 0x280 {
        ("vsatp", "HRW", "Virtual supervisor address translation and protection.")
    } else {
        ("unknown", "unknown", "Unknown CSR ID.")
    }
}

fn lookup_info(addr: u16) -> (r: (&'static str, &'static str, &'static str))
    ensures
        r == csr_info(addr),
{
    match addr {
        0xF11 => ("mvendorid", "MRO", "Vendor ID."),
        0xF12 => ("marchid", "MRO", "Architecture ID."),
        0xF13 => ("mimpid", "MRO", "Implementation ID."),
        0xF14 => ("mhartid", "MRO", "Hardware thread ID."),
        0xF15 => ("mconfigptr", "MRO", "Pointer to configuration data structure."),
        0x300 => ("mstatus", "MRW", "Machine status register."),
        0x301 => ("misa", "MRW", "ISA and extensions"),
        0x302 => ("medeleg", "MRW", "Machine exception delegation register."),
        0x303 => ("mideleg", "MRW", "Machine interrupt delegation register."),
        0x304 => ("mie", "MRW", "Machine interrupt-enable register."),
        0x305 => ("mtvec", "MRW", "Machine trap-handler base address."),
        0x306 => ("mcounteren", "MRW", "Machine counter enable."),
        0x310 => ("mstatush", "MRW", "Additional machine status register, RV32 only."),
        0x312 => ("medelegh", "MRW", "Upper 32 bits of medeleg, RV32 only."),
        0x340 => ("mscratch", "MRW", "Scratch register for machine trap handlers."),
        0x341 => ("mepc", "MRW", "Machine exception program counter."),
        0x342 => ("mcause", "MRW", "Machine trap cause."),
        0x343 => ("mtval", "MRW", "Machine bad address or instruction."),
        0x344 => ("mip", "MRW", "Machine interrupt pending."),
        0x34A => ("mtinst", "MRW", "Machine trap instruction (transformed)."),
        0x34B => ("mtval2", "MRW", "Machine bad guest physical address."),
        0x30A => ("menvcfg", "MRW", "Machine environment configuration register."),
        0x31A => ("menvcfgh", "MRW", "Upper 32 bits of menvcfg, RV32 only."),
        0x747 => ("mseccfg", "MRW", "Machine security configuration register."),
        0x757 => ("mseccfgh", "MRW", "Upper 32 bits of mseccfg, RV32 only."),
        0x3A0 => ("pmpcfg0", "MRW", "Physical memory protection configuration."),
        0x3A1 => ("pmpcfg1", "MRW", "Physical memory protection configuration, RV32 only."),
        0x3A2 => ("pmpcfg2", "MRW", "Physical memory protection configuration."),
        0x3A3 => ("pmpcfg3", "MRW", "Physical memory protection configuration, RV32 only."),
        0x3AE => ("pmpcfg14", "MRW", "Physical memory protection configuration."),
        0x3AF => ("pmpcfg15", "MRW", "Physical memory protection configuration, RV32 only."),
        0x3B0 => ("pmpaddr0", "MRW", "Physical memory protection address register."),
        0x3B1 => ("pmpaddr1", "MRW", "Physical memory protection address register."),
        0x3EF => ("pmpaddr63", "MRW", "Physical memory protection address register."),
        0x30C => ("mstateen0", "MRW", "Machine State Enable 0 Register."),
        0x30D => ("mstateen1", "MRW", "Machine State Enable 1 Register."),
        0x30E => ("mstateen2", "MRW", "Machine State Enable 2 Register."),
        0x30F => ("mstateen3", "MRW", "Machine State Enable 3 Register."),
        0x31C => ("mstateen0h", "MRW", "Upper 32 bits of Machine State Enable 0 Register, RV32 only."),
        0x31D => ("mstateen1h", "MRW", "Upper 32 bits of Machine State Enable 1 Register, RV32 only."),
        0x31E => ("mstateen2h", "MRW", "Upper 32 bits of Machine State Enable 2 Register, RV32 only."),
        0x31F => ("mstateen3h", "MRW", "Upper 32 bits of Machine State Enable 3 Register, RV32 only."),
        0x001 => ("fflags", "URW", "Floating-Point Accrued Exceptions."),
        0x002 => ("frm", "URW", "Floating-Point Dynamic Rounding Mode."),
        0x003 => ("fcsr", "URW", "Floating-Point Control and Status Register (frm +fflags)."),
        0xC00 => ("cycle", "URO", "Cycle counter for RDCYCLE instruction."),
        0xC01 => ("time", "URO", "Timer for RDTIME instruction."),
        0xC02 => ("instret", "URO", "Instructions-retired counter for RDINSTRET instruction."),
        0xC03 => ("hpmcounter3", "URO", "Performance-monitoring counter."),
        0xC04 => ("hpmcounter4", "URO", "Performance-monitoring counter."),
        0x100 => ("sstatus", "SRW", "Supervisor status register."),
        0x104 => ("sie", "SRW", "Supervisor interrupt-enable register."),
        0x105 => ("stvec", "SRW", "Supervisor trap handler base address."),
        0x106 => ("scounteren", "SRW", "Supervisor counter enable."),
        0x10A => ("senvcfg", "SRW", "Supervisor environment configuration register."),
        0x120 => ("scountinhibit", "SRW", "Supervisor counter-inhibit register."),
        0x140 => ("sscratch", "SRW", "Scratch register for supervisor trap handlers."),
        0x141 => ("sepc", "SRW", "Supervisor exception program counter."),
        0x142 => ("scause", "SRW", "Supervisor trap cause."),
        0x143 => ("stval", "SRW", "Supervisor bad address or instruction."),
        0x144 => ("sip", "SRW", "Supervisor interrupt pending."),
        0xDA0 => ("scountovf", "SRO", "Supervisor count overflow."),
        0x180 => ("satp", "SRW", "Supervisor address translation and protection."),
        0x5A8 => ("scontext", "SRW", "Supervisor-mode context register."),
        0x10C => ("sstateen0", "SRW", "Supervisor State Enable 0 Register."),
        0x10D => ("sstateen1", "SRW", "Supervisor State Enable 1 Register."),
        0x10E => ("sstateen2", "SRW", "Supervisor State Enable 2 Register."),
        0x10F => ("sstateen3", "SRW", "Supervisor State Enable 3 Register."),
        0x600 => ("hstatus", "HRW", "Hypervisor status register."),
        0x602 => ("hedeleg", "HRW", "Hypervisor exception delegation register."),
        0x603 => ("hideleg", "HRW", "Hypervisor interrupt delegation register."),
        0x604 => ("hie", "HRW", "Hypervisor interrupt-enable register."),
        0x606 => ("hcounteren", "HRW", "Hypervisor counter enable."),
        0x607 => ("hgeie", "HRW", "Hypervisor guest external interrupt-enable register."),
        0x612 => ("hedelegh", "HRW", "Upper 32 bits of hedeleg, RV32 only."),
        0x643 => ("htval", "HRW", "Hypervisor bad guest physical address."),
        0x644 => ("hip", "HRW", "Hypervisor interrupt pending."),
        0x645 => ("hvip", "HRW", "Hypervisor virtual interrupt pending."),
        0x64A => ("htinst", "HRW", "Hypervisor trap instruction (transformed)."),
        0xE12 => ("hgeip", "HRO", "Hypervisor guest external interrupt pending."),
        0x60A => ("henvcfg", "HRW", "Hypervisor environment configuration register."),
        0x61A => ("henvcfgh", "HRM", "Upper 32 bits of henvcfg, RV32 only."),
        0x680 => ("hgatp", "HRW", "Hypervisor guest address translation and protection."),
        0x6A8 => ("hcontext", "HRW", "Hypervisor-mode context register."),
        0x605 => ("htimedelta", "HRW", "Delta for VS/VU-mode timer."),
        0x615 => ("htimedeltah", "HRW", "Upper 32 bits of htimedelta, RV32 only."),
        0x60C => ("hstateen0", "HRW", "Hypervisor State Enable 0 Register."),
        0x60D => ("hstateen1", "HRW", "Hypervisor State Enable 1 Register."),
        0x60E => ("hstateen2", "HRW", "Hypervisor State Enable 2 Register."),
        0x60F => ("hstateen3", "HRW", "Hypervisor State Enable 3 Register."),
        0x61C => ("hstateen0h", "HRW", "Upper 32 bits of Hypervisor State Enable 0 Register, RV32 only."),
        0x61D => ("hstateen1h", "HRW", "Upper 32 bits of Hypervisor State Enable 1 Register, RV32 only."),
        0x61E => ("hstateen2h", "HRW", "Upper 32 bits of Hypervisor State Enable 2 Register, RV32 only."),
        0x61F => ("hstateen3h", "HRW", "Upper 32 bits of Hypervisor State Enable 3 Register, RV32 only."),
        0x200 => ("vsstatus", "HRW", "Virtual supervisor status register."),
        0x204 => ("vsie", "HRW", "Virtual supervisor interrupt-enable register."),
        0x205 => ("vstvec", "HRW", "Virtual supervisor trap handler base address."),
        0x240 => ("vsscratch", "HRW", "Virtual supervisor scratch register."),
        0x241 => ("vsepc", "HRW", "Virtual supervisor exception program counter."),
        0x242 => ("vscause", "HRW", "Virtual supervisor trap cause."),
        0x243 => ("vstval", "HRW", "Virtual supervisor bad address or instruction."),
        0x244 => ("vsip", "HRW", "Virtual supervisor interrupt pending."),
        0x280 => ("vsatp", "HRW", "Virtual supervisor address translation and protection."),
        _ => ("unknown", "unknown", "Unknown CSR ID."),
    }
}

impl CsrID {
    /// Name, access class (for example `MRW`: machine read/write) and description of the
    /// register, for display; `unknown` for addresses without a documented register.
    pub fn info(self) -> (r: (&'static str, &'static str, &'static str))
        ensures
            r == csr_info(self.addr()),
    {
        lookup_info(self.get())
    }
}

} // verus!
