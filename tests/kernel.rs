use emulator::clint::{CLINTRegs, CLINT};
use emulator::cpu::PrivilegeLevel;
use emulator::heap::LittleAllocator;
use emulator::mem::{MemMap, MemoryMap, DRAM, UART};
use emulator::mutex::Mutex;
use emulator::paging::{
    PageTable, PageTableEntry, PageTableEntryFlags, PagingModes, Sv39PhysicalAddress,
    Sv39VirtualAddress, PMP,
};
use emulator::plic::{PLICRegs, PLIC};
use emulator::riscv::get_mode;
use emulator::uart::UARTInts;
use emulator::virtio::{MmioOffset, StandardVirtIO, StatusField};

#[test]
fn plic_register_addresses() {
    assert_eq!(PLICRegs::Priority(1).addr(), 0x0c00_0004);
    assert_eq!(PLICRegs::Pending(3).addr(), 0x0c00_100c);
    assert_eq!(PLICRegs::Enable(0).addr(), 0x0c00_2000);
    assert_eq!(PLICRegs::Threshold.addr(), 0x0c20_0000);
    assert_eq!(PLICRegs::Claim.addr(), PLICRegs::Complete.addr());
}

#[test]
fn plic_init_enables_sources() {
    let mut plic = PLIC::new();
    emulator::plic::init(&mut plic);
    assert_eq!(plic.enable[0], (1 << 10) | 0b1_1111_1110);
    assert_eq!(plic.priority[10], 2);
    assert_eq!(plic.priority[3], 1);
    assert_eq!(plic.threshold, 0);
    assert_eq!(plic.claim_int(), None);
    plic.claim = 10;
    assert_eq!(plic.claim_int(), Some(10));
}

#[test]
fn clint_timer() {
    assert_eq!(CLINTRegs::MTime.addr(), 0x0200_BFF8);
    let mut clint = CLINT { msip: 0, mtimecmp: 0, mtime: 25_000 };
    assert_eq!(clint.current_time(), 2);
    emulator::clint::init(&mut clint);
    assert_eq!(clint.mtimecmp, 25_000 + 10_000_000);
    clint.set_interrupt_enabled(true);
    assert_eq!(clint.msip, 1);
}

#[test]
fn uart_interrupt_ids() {
    assert_eq!(UARTInts::all(), 0b1111);
    assert_eq!(UARTInts::parse(0x04), Some(UARTInts::ReceivedDataAvalaible));
    assert_eq!(UARTInts::parse(0x0C), Some(UARTInts::CharacterTimeoutIndication));
    assert_eq!(UARTInts::parse(0x01), None);
}

#[test]
fn privilege_bits() {
    assert_eq!(PrivilegeLevel::user(), 0);
    assert_eq!(PrivilegeLevel::supervisor(), 0x800);
    assert_eq!(PrivilegeLevel::machine(), 0x1800);
    assert_eq!(get_mode(0x1800), PrivilegeLevel::Machine);
    assert_eq!(get_mode(0x0800 | 0xFF), PrivilegeLevel::Supervisor);
}

#[test]
fn sv39_fields() {
    assert_eq!(PagingModes::Sv39.satp(), 8 << 60);
    assert_eq!(PagingModes::Bare.satp(), 0);
    let va = Sv39VirtualAddress::new(0x0000_0040_2030_1234);
    assert_eq!(va.vpn(0), 0x101);
    assert_eq!(va.vpn(1), 0x101);
    assert_eq!(va.vpn(2), 0x100);
    let pa = Sv39PhysicalAddress(0x8020_1234);
    let pte = PageTableEntry::with_phys_pn(pa).apply_flags(PageTableEntryFlags::rwx());
    assert_eq!(pte.parse_ppn().0, 0x8020_1000);
    assert!(pte.is_leaf());
    assert!(!PageTableEntry(PageTableEntryFlags::rwx_invalid().0).is_leaf());
    assert!(!PageTableEntry(0b1).is_leaf());
    assert_eq!(PageTable::new().entries.len(), 512);
    assert_eq!(PMP::new().page_tables.len(), 512);
}

#[test]
fn memory_map_windows() {
    assert_eq!(MemMap::UART0.base(), 0x1000_0000);
    assert_eq!(MemMap::PLIC.end(), 0x0c20_0000);
    assert!(MemMap::UART0.in_bounds(0x1000_00F8, 8));
    assert!(!MemMap::UART0.in_bounds(0x1000_00FC, 8));
    let dram = DRAM { inner: Vec::new() };
    assert_eq!(dram.base(), 0x8000_0000);
    let uart = UART { out: Vec::new() };
    assert_eq!(uart.len(), 0x100);
}

#[test]
fn little_allocator_bounds() {
    let mut a = LittleAllocator { start: 0x1000, size: 0x800, current_offset: 0x10 };
    assert_eq!(a.end(), 0x1800);
    assert_eq!(a.alloc_bytes(0x20), 0x1010);
}

#[test]
fn mutex_guard_writes_through() {
    let mut m = Mutex::new(5u32);
    {
        let g = m.lock();
        *g.inner += 1;
    }
    let g = m.lock();
    assert_eq!(*g.inner, 6);
}

#[test]
fn virtio_layout() {
    let dev = StandardVirtIO { idx: 2, read_only: false };
    assert_eq!(dev.base(), 0x1000_3000);
    assert_eq!(MmioOffset::Status.ptr(), 0x70);
    assert_eq!(MmioOffset::Config.ptr(), 0x100);
    assert_eq!(StatusField::Failed.bit(), 128);
}
