use vstd::prelude::*;

verus! {

/// Timer ticks per millisecond (10 MHz reference clock).
pub const CYCLES_PER_MS: u64 = 10_000;

/// Registers of the core-local interruptor.
#[derive(Debug, Clone, Copy, PartialEq, Eq, Structural)]
pub enum CLINTRegs {
    /// Machine software interrupt pending.
    MSIP,
    /// Timer compare: a timer interrupt is pending while `mtime >= mtimecmp`.
    MTimeCMP,
    /// Cycles counted since reset at the fixed reference frequency.
    MTime,
}

impl CLINTRegs {
    pub open spec fn spec_addr(self) -> usize {
        match self {
            CLINTRegs::MSIP => 0x0200_0000,
            CLINTRegs::MTimeCMP => 0x0200_4000,
            CLINTRegs::MTime => 0x0200_BFF8,
        }
    }

    /// Physical address of the register.
    pub fn addr(self) -> (r: usize)
        ensures
            r == self.spec_addr(),
    {
        match self {
            CLINTRegs::MSIP => 0x0200_0000,
            CLINTRegs::MTimeCMP => 0x0200_4000,
            CLINTRegs::MTime => 0x0200_BFF8,
        }
    }
}

/// The register window of the core-local interruptor, as the driver sees it.
pub struct CLINT {
    pub msip: u32,
    pub mtimecmp: u64,
    pub mtime: u64,
}

impl CLINT {
    /// Cycles since the last reset.
    pub fn current_cycles(&self) -> (r: u64)
        ensures
            r == self.mtime,
    {
        self.mtime
    }

    /// Milliseconds since the last reset.
    pub fn current_time(&self) -> (r: u64)
        ensures
            r == self.mtime / CYCLES_PER_MS,
    {
        self.current_cycles() / CYCLES_PER_MS
    }

    /// Enables or disables the software interrupt.
    pub fn set_interrupt_enabled(&mut self, enabled: bool)
        ensures
            final(self).msip == (if enabled { 1u32 } else { 0u32 }),
            final(self).mtimecmp == old(self).mtimecmp,
            final(self).mtime == old(self).mtime,
    {
        self.msip = if enabled { 1 } else { 0 };
    }

    pub fn set_mtimecmp(&mut self, value: u64)
        ensures
            final(self).mtimecmp == value,
            final(self).msip == old(self).msip,
            final(self).mtime == old(self).mtime,
    {
        self.mtimecmp = value;
    }

    /// Schedules the timer interrupt `millis` milliseconds from now.
    pub fn try_trigger_in(&mut self, millis: u64)
        requires
            old(self).mtime + millis * CYCLES_PER_MS <= u64::MAX,
        ensures
            final(self).mtimecmp == old(self).mtime + millis * CYCLES_PER_MS,
            final(self).msip == old(self).msip,
            final(self).mtime == old(self).mtime,
    {
        let cycles = millis * CYCLES_PER_MS;
        let now = self.current_cycles();
        self.set_mtimecmp(now + cycles);
    }
}

/// Starts the machine timer: the first interrupt comes one second from now.
pub fn init(clint: &mut CLINT)
    requires
        old(clint).mtime + 1000 * CYCLES_PER_MS <= u64::MAX,
    ensures
        final(clint).mtimecmp == old(clint).mtime + 1000 * CYCLES_PER_MS,
        final(clint).mtime == old(clint).mtime,
{
    handle_int(clint)
}

/// Timer interrupt: schedules the next one a second later.
pub fn handle_int(clint: &mut CLINT)
    requires
        old(clint).mtime + 1000 * CYCLES_PER_MS <= u64::MAX,
    ensures
        final(clint).mtimecmp == old(clint).mtime + 1000 * CYCLES_PER_MS,
        final(clint).mtime == old(clint).mtime,
{
    clint.try_trigger_in(1000);
}

} // verus!
