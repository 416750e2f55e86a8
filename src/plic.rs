use vstd::prelude::*;

verus! {

/// Registers of the platform-level interrupt controller.
#[derive(Debug, Clone, Copy, PartialEq, Eq, Structural)]
pub enum PLICRegs {
    /// Priority of interrupt source `i` (1..=127).
    Priority(usize),
    /// Pending bits, word `i` (0..=3). Read-only.
    Pending(usize),
    /// Enable bits, word `i` (0..=3).
    Enable(usize),
    /// Priority an interrupt must exceed to be signalled.
    Threshold,
    /// Reading yields the next interrupt by priority.
    Claim,
    /// Writing ends the handling of an interrupt.
    Complete,
}

impl PLICRegs {
    /// Whether the register exists (source or word index in range).
    pub open spec fn in_window(self) -> bool {
        match self {
            PLICRegs::Priority(i) => 0 < i <= 127,
            PLICRegs::Pending(i) => i <= 3,
            PLICRegs::Enable(i) => i <= 3,
            _ => true,
        }
    }

    pub open spec fn spec_addr(self) -> int {
        match self {
            PLICRegs::Priority(i) => 0x0c00_0000 + 4 * i,
            PLICRegs::Pending(i) => 0x0c00_1000 + 4 * i,
            PLICRegs::Enable(i) => 0x0c00_2000 + 4 * i,
            PLICRegs::Threshold => 0x0c20_0000,
            PLICRegs::Claim => 0x0c20_0004,
            PLICRegs::Complete => 0x0c20_0004,
        }
    }

    /// Physical address of the register.
    pub fn addr(self) -> (r: usize)
        requires
            self.in_window(),
        ensures
            r == self.spec_addr(),
    {
        match self {
            PLICRegs::Priority(i) => 0x0c00_0000 + 4 * i,
            PLICRegs::Pending(i) => 0x0c00_1000 + 4 * i,
            PLICRegs::Enable(i) => 0x0c00_2000 + 4 * i,
            PLICRegs::Threshold => 0x0c20_0000,
            PLICRegs::Claim => 0x0c20_0004,
            PLICRegs::Complete => 0x0c20_0004,
        }
    }
}

/// The register window of the interrupt controller, as the driver sees it.
pub struct PLIC {
    pub priority: Vec<u32>,
    pub pending: Vec<u32>,
    pub enable: Vec<u32>,
    pub threshold: u32,
    /// The claim/complete register (one address).
    pub claim: u32,
}

impl PLIC {
    /// 128 priority slots and 4 pending and enable words.
    pub open spec fn wf(&self) -> bool {
        self.priority@.len() == 128 && self.pending@.len() == 4 && self.enable@.len() == 4
    }

    /// Value a read of `reg` returns.
    pub open spec fn spec_read(&self, reg: PLICRegs) -> u32 {
        match reg {
            PLICRegs::Priority(i) => self.priority@[i as int],
            PLICRegs::Pending(i) => self.pending@[i as int],
            PLICRegs::Enable(i) => self.enable@[i as int],
            PLICRegs::Threshold => self.threshold,
            _ => self.claim,
        }
    }

    /// A controller with every register zero.
    pub fn new() -> (r: Self)
        ensures
            r.wf(),
            forall|i: int| 0 <= i < 128 ==> r.priority@[i] == 0,
            forall|i: int| 0 <= i < 4 ==> r.pending@[i] == 0 && r.enable@[i] == 0,
            r.threshold == 0,
            r.claim == 0,
    {
        let mut priority: Vec<u32> = Vec::new();
        let mut i: usize = 0;
        while i < 128
            invariant
                i <= 128,
                priority@.len() == i,
                forall|k: int| 0 <= k < i ==> priority@[k] == 0,
            decreases 128 - i,
        {
            priority.push(0);
            i += 1;
        }
        PLIC { priority, pending: vec![0, 0, 0, 0], enable: vec![0, 0, 0, 0], threshold: 0, claim: 0 }
    }

    /// Reads a register.
    pub fn read(&self, base: PLICRegs) -> (r: u32)
        requires
            self.wf(),
            base.in_window(),
        ensures
            r == self.spec_read(base),
    {
        match base {
            PLICRegs::Priority(i) => self.priority[i],
            PLICRegs::Pending(i) => self.pending[i],
            PLICRegs::Enable(i) => self.enable[i],
            PLICRegs::Threshold => self.threshold,
            _ => self.claim,
        }
    }

    /// Writes a register (pending bits are read-only and ignore writes).
    pub fn write(&mut self, base: PLICRegs, value: u32)
        requires
            old(self).wf(),
            base.in_window(),
        ensures
            final(self).wf(),
            final(self).priority@ == (match base {
                PLICRegs::Priority(i) => old(self).priority@.update(i as int, value),
                _ => old(self).priority@,
            }),
            final(self).enable@ == (match base {
                PLICRegs::Enable(i) => old(self).enable@.update(i as int, value),
                _ => old(self).enable@,
            }),
            final(self).pending@ == old(self).pending@,
            final(self).threshold == (if base == PLICRegs::Threshold { value } else { old(self).threshold }),
            final(self).claim == (if base == PLICRegs::Claim || base == PLICRegs::Complete {
                value
            } else {
                old(self).claim
            }),
    {
        match base {
            PLICRegs::Priority(i) => self.priority.set(i, value),
            PLICRegs::Pending(_) => {},
            PLICRegs::Enable(i) => self.enable.set(i, value),
            PLICRegs::Threshold => self.threshold = value,
            _ => self.claim = value,
        }
    }

    /// Sets the enable bit of interrupt source `source` (word 0).
    pub fn enable_interrupt(&mut self, source: usize)
        requires
            old(self).wf(),
            source < 32,
        ensures
            final(self).wf(),
            final(self).enable@ == old(self).enable@.update(0, old(self).enable@[0] | (1u32 << source)),
            final(self).priority@ == old(self).priority@,
            final(self).threshold == old(self).threshold,
            final(self).claim == old(self).claim,
    {
        let interrupts: u32 = self.read(PLICRegs::Enable(0));
        self.write(PLICRegs::Enable(0), interrupts | (1u32 << source));
    }

    /// Sets the priority (0..=7) of interrupt source `source`.
    pub fn set_priority(&mut self, source: usize, priority: u8)
        requires
            old(self).wf(),
            0 < source <= 127,
            priority <= 7,
        ensures
            final(self).wf(),
            final(self).priority@ == old(self).priority@.update(source as int, priority as u32),
            final(self).enable@ == old(self).enable@,
            final(self).threshold == old(self).threshold,
            final(self).claim == old(self).claim,
    {
        self.write(PLICRegs::Priority(source), priority as u32);
    }

    /// Sets the threshold (0..=7): interrupts of lower priority are ignored.
    pub fn set_threshold(&mut self, threshold: u8)
        requires
            old(self).wf(),
            threshold <= 7,
        ensures
            final(self).wf(),
            final(self).threshold == threshold,
            final(self).priority@ == old(self).priority@,
            final(self).enable@ == old(self).enable@,
            final(self).claim == old(self).claim,
    {
        self.write(PLICRegs::Threshold, threshold as u32);
    }

    /// The interrupt to handle next, if any (a claim of 0 means none).
    pub fn claim_int(&mut self) -> (r: Option<u32>)
        requires
            old(self).wf(),
        ensures
            *final(self) == *old(self),
            r == (if old(self).claim == 0 { None } else { Some(old(self).claim) }),
    {
        let claimed = self.read(PLICRegs::Claim);
        if claimed == 0 {
            return None;
        }
        Some(claimed)
    }
}

/// Enables the serial port (source 10, priority 2) and the eight virtio sources (priority 1),
/// with threshold 0.
pub fn init(plic: &mut PLIC)
    requires
        old(plic).wf(),
    ensures
        final(plic).wf(),
        final(plic).threshold == 0,
        final(plic).priority@[10] == 2,
        forall|i: int| 1 <= i <= 8 ==> final(plic).priority@[i] == 1,
{
    plic.enable_interrupt(10);
    let mut i: usize = 1;
    while i <= 8
        invariant
            1 <= i <= 9,
            plic.wf(),
            forall|k: int| 1 <= k < i ==> plic.priority@[k] == 1,
        decreases 9 - i,
    {
        plic.enable_interrupt(i);
        plic.set_priority(i, 1);
        i += 1;
    }
    plic.set_priority(10, 2);
    plic.set_threshold(0);
}

} // verus!
