use vstd::prelude::*;

verus! {

/// Size of one page.
pub const PAGE_SIZE: usize = 4096;

/// Size of one page, as an address offset.
pub const PAGE_SIZE64: u64 = 0x1000;

/// Entries in one page table.
pub const PAGE_TABLE_ENTRIES: usize = 512;

/// Per-table bookkeeping of the memory-protection unit.
#[derive(Clone, Copy)]
pub struct Table {}

impl Table {
    pub fn new() -> (r: Self) {
        Self {  }
    }
}

/// The memory-protection unit: one `Table` per root-table entry.
pub struct PMP {
    pub page_tables: Vec<Table>,
}

impl PMP {
    pub fn new() -> (r: Self)
        ensures
            r.page_tables@.len() == PAGE_TABLE_ENTRIES,
    {
        let mut page_tables: Vec<Table> = Vec::new();
        let mut i: usize = 0;
        while i < PAGE_TABLE_ENTRIES
            invariant
                i <= PAGE_TABLE_ENTRIES,
                page_tables@.len() == i,
            decreases PAGE_TABLE_ENTRIES - i,
        {
            page_tables.push(Table::new());
            i += 1;
        }
        Self { page_tables }
    }
}

/// Address-translation schemes selectable in `satp.MODE`.
#[derive(Debug, Clone, Copy, PartialEq, Eq, Structural)]
pub enum PagingModes {
    Sv32,
    Sv39,
    Sv48,
    Sv56,
    Sv64,
    Bare,
}

impl PagingModes {
    /// The MODE value of an RV64 `satp` (bits 63:60).
    pub open spec fn mode_bits(self) -> u64 {
        match self {
            PagingModes::Sv39 => 8,
            PagingModes::Sv48 => 9,
            PagingModes::Sv56 => 10,
            PagingModes::Sv64 => 11,
            _ => 0,
        }
    }

    /// `satp` with only the MODE field set; Sv32 exists only on RV32.
    pub fn satp(self) -> (r: u64)
        requires
            self != PagingModes::Sv32,
        ensures
            r == self.mode_bits() * 0x1000_0000_0000_0000,
    {
        match self {
            PagingModes::Sv39 => 0x8000_0000_0000_0000,
            PagingModes::Sv48 => 0x9000_0000_0000_0000,
            PagingModes::Sv56 => 0xA000_0000_0000_0000,
            PagingModes::Sv64 => 0xB000_0000_0000_0000,
            _ => 0,
        }
    }
}

/// A 56-bit physical address: page offset in bits 11:0, page number above.
#[derive(Debug, Clone, Copy, PartialEq, Eq, Structural)]
pub struct Sv39PhysicalAddress(pub u64);

/// A 39-bit virtual address: page offset in bits 11:0, then three 9-bit page numbers.
#[derive(Debug, Clone, Copy, PartialEq, Eq, Structural)]
pub struct Sv39VirtualAddress(pub u64);

impl Sv39VirtualAddress {
    pub fn new(addr: u64) -> (r: Self)
        ensures
            r.0 == addr,
    {
        Self(addr)
    }

    /// Virtual page number `vpni` (9 bits starting at bit `12 + 9 * vpni`).
    pub fn vpn(self, vpni: u64) -> (r: u64)
        requires
            vpni <= 3,
        ensures
            r == (self.0 >> (9 * vpni + 12)) & 0x1FF,
            r < PAGE_TABLE_ENTRIES,
    {
        let x = self.0;
        let sh = 9 * vpni + 12;
        assert((x >> sh) & 0x1FF < 512) by (bit_vector);
        (x >> sh) & 0x1FF
    }
}

/// Permission and status bits of a page-table entry.
#[derive(Debug, Clone, Copy, PartialEq, Eq, Structural)]
pub struct PageTableEntryFlags(pub u64);

impl PageTableEntryFlags {
    /// A valid entry with read, write and execute permission.
    pub fn rwx() -> (r: Self)
        ensures
            r.0 == 0b1111,
    {
        Self(0b1111)
    }

    /// Read, write and execute permission, but not valid.
    pub fn rwx_invalid() -> (r: Self)
        ensures
            r.0 == 0b1110,
    {
        Self(0b1110)
    }
}

/// One Sv39 page-table entry: flags in bits 9:0, physical page number from bit 10.
#[derive(Debug, Clone, Copy, PartialEq, Eq, Structural)]
pub struct PageTableEntry(pub u64);

/// Physical address bits kept by a page-table entry: the page number of a 56-bit address.
pub open spec fn page_number_bits(a: u64) -> u64 {
    a & 0x00FF_FFFF_FFFF_F000
}

impl PageTableEntry {
    /// Bit 0.
    pub fn valid(self) -> (r: bool)
        ensures
            r == (self.0 & 1 != 0),
    {
        self.0 & 1 != 0
    }

    /// Bit 1.
    pub fn readable(self) -> (r: bool)
        ensures
            r == (self.0 & 0b10 != 0),
    {
        self.0 & 0b10 != 0
    }

    /// Bit 2.
    pub fn writable(self) -> (r: bool)
        ensures
            r == (self.0 & 0b100 != 0),
    {
        self.0 & 0b100 != 0
    }

    /// Bit 3.
    pub fn executable(self) -> (r: bool)
        ensures
            r == (self.0 & 0b1000 != 0),
    {
        self.0 & 0b1000 != 0
    }

    /// An entry (no flags) pointing at the page of `ppn`.
    pub fn with_phys_pn(ppn: Sv39PhysicalAddress) -> (r: Self)
        ensures
            r.0 == (ppn.0 & !0xFFFu64) >> 2u64,
    {
        Self((ppn.0 & !0xFFFu64) >> 2u64)
    }

    /// The physical address of the page this entry points at.
    pub fn parse_ppn(self) -> (r: Sv39PhysicalAddress)
        ensures
            r.0 == (self.0 << 2u64) & !0xFFFu64,
    {
        Sv39PhysicalAddress((self.0 << 2u64) & !0xFFFu64)
    }

    /// A valid entry with any of R, W, X set maps a page; otherwise it points at a table.
    pub fn is_leaf(self) -> (r: bool)
        ensures
            r == (self.0 & 0b1110 != 0 && self.0 & 1 != 0),
    {
        self.0 & 0b1110 != 0 && self.valid()
    }

    /// The entry with `flags` set as well.
    pub fn apply_flags(self, flags: PageTableEntryFlags) -> (r: Self)
        ensures
            r.0 == self.0 | flags.0,
    {
        Self(self.0 | flags.0)
    }
}

/// An entry built from a physical address points back at that address's page, for any
/// address of the 56-bit physical space; its flag bits are clear.
pub proof fn lemma_page_number_round_trip(a: u64)
    requires
        a < 0x0100_0000_0000_0000,
    ensures
        (((a & !0xFFFu64) >> 2u64) << 2u64) & !0xFFFu64 == page_number_bits(a),
        (a & !0xFFFu64) >> 2u64 & 0x3FF == 0,
{
    assert(a < 0x0100_0000_0000_0000 ==> (((a & !0xFFFu64) >> 2u64) << 2u64) & !0xFFFu64 == a
        & 0x00FF_FFFF_FFFF_F000 && (a & !0xFFFu64) >> 2u64 & 0x3FF == 0) by (bit_vector);
}

/// One page table: 512 entries.
pub struct PageTable {
    pub entries: Vec<PageTableEntry>,
}

impl PageTable {
    /// A table of 512 invalid (zero) entries.
    pub fn new() -> (r: Self)
        ensures
            r.entries@.len() == PAGE_TABLE_ENTRIES,
            forall|i: int| 0 <= i < PAGE_TABLE_ENTRIES ==> (#[trigger] r.entries@[i]).0 == 0,
    {
        let mut entries: Vec<PageTableEntry> = Vec::new();
        let mut i: usize = 0;
        while i < PAGE_TABLE_ENTRIES
            invariant
                i <= PAGE_TABLE_ENTRIES,
                entries@.len() == i,
                forall|k: int| 0 <= k < i ==> (#[trigger] entries@[k]).0 == 0,
            decreases PAGE_TABLE_ENTRIES - i,
        {
            entries.push(PageTableEntry(0));
            i += 1;
        }
        Self { entries }
    }
}

/// Why a page-table walk failed.
#[derive(Debug, Clone, Copy, PartialEq, Eq, Structural)]
pub enum PagingError {
    InvalidPageTable,
    InvalidEntry(PageTableEntry),
}

} // verus!
