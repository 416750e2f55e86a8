use vstd::prelude::*;

use crate::error::EmulatorError;
use crate::uguest;

verus! {

/// Start of main memory.
pub const DRAM_BASE: u64 = 0x8000_0000;

/// Size of main memory: every address from `DRAM_BASE` to the end of the address space.
/// The backing store grows on demand as bytes are written.
pub const DRAM_SIZE: u64 = 0xFFFF_FFFF_8000_0000;

/// Start of the serial port.
pub const UART_BASE: u64 = 0x1000_0000;

/// Size of the serial port's register window.
pub const UART_SIZE: u64 = 0x100;

/// The physical memory map of the emulated board.
#[derive(Debug, Clone, Copy, PartialEq, Eq, Structural)]
pub enum MemMap {
    DEBUG,
    MROM,
    TEST,
    RTC,
    CLINT,
    AclintSswi,
    PciePio,
    PlatformBus,
    PLIC,
    AplicM,
    AplicS,
    UART0,
    VIRTIO,
    FwCfg,
    FLASH,
    ImsicM,
    ImsicS,
    PcieEcam,
    PcieMmio,
    DRAM,
}

impl MemMap {
    /// Whether this board has a fixed window (base and length) for the region.
    pub open spec fn has_window(self) -> bool {
        match self {
            MemMap::DEBUG | MemMap::MROM | MemMap::TEST | MemMap::RTC | MemMap::CLINT
            | MemMap::PLIC | MemMap::UART0 | MemMap::VIRTIO | MemMap::DRAM => true,
            _ => false,
        }
    }

    pub open spec fn window_base(self) -> u64 {
        match self {
            MemMap::DEBUG => 0x0,
            MemMap::MROM => 0x1000,
            MemMap::TEST => 0x10_0000,
            MemMap::RTC => 0x10_1000,
            MemMap::CLINT => 0x200_0000,
            MemMap::PLIC => 0xc00_0000,
            MemMap::UART0 => UART_BASE,
            MemMap::VIRTIO => 0x1000_1000,
            MemMap::DRAM => DRAM_BASE,
            _ => 0,
        }
    }

    pub open spec fn window_len(self) -> u64 {
        match self {
            MemMap::DEBUG => 0x100,
            MemMap::MROM => 0xf000,
            MemMap::TEST => 0x1000,
            MemMap::RTC => 0x1000,
            MemMap::CLINT => 0x1_0000,
            MemMap::PLIC => 0x20_0000,
            MemMap::UART0 => UART_SIZE,
            MemMap::VIRTIO => 0x1000,
            MemMap::DRAM => DRAM_SIZE,
            _ => 0,
        }
    }
}

/// A region of the physical address space: `[base, base + len)`.
pub trait MemoryMap {
    spec fn has_layout(&self) -> bool;

    spec fn spec_base(&self) -> u64;

    spec fn spec_len(&self) -> u64;

    /// First address of the region.
    fn base(&self) -> (r: uguest)
        requires
            self.has_layout(),
        ensures
            r == self.spec_base(),
    ;

    /// Length of the region in bytes.
    fn len(&self) -> (r: uguest)
        requires
            self.has_layout(),
        ensures
            r == self.spec_len(),
    ;

    /// One past the last address of the region.
    fn end(&self) -> (r: uguest)
        requires
            self.has_layout(),
            self.spec_base() + self.spec_len() <= u64::MAX,
        ensures
            r == self.spec_base() + self.spec_len(),
    {
        self.base() + self.len()
    }

    /// Whether the `len` bytes from `offset` all lie in the region.
    fn in_bounds(&self, offset: uguest, len: uguest) -> (r: bool)
        requires
            self.has_layout(),
            self.spec_base() + self.spec_len() <= u64::MAX,
        ensures
            r == (offset >= self.spec_base() && offset + len <= self.spec_base()
                + self.spec_len()),
    {
        offset >= self.base() && offset <= self.end() && len <= self.end() - offset
    }
}

impl MemoryMap for MemMap {
    open spec fn has_layout(&self) -> bool {
        self.has_window()
    }

    open spec fn spec_base(&self) -> u64 {
        self.window_base()
    }

    open spec fn spec_len(&self) -> u64 {
        self.window_len()
    }

    fn base(&self) -> (r: uguest) {
        match self {
            MemMap::DEBUG => 0x0,
            MemMap::MROM => 0x1000,
            MemMap::TEST => 0x10_0000,
            MemMap::RTC => 0x10_1000,
            MemMap::CLINT => 0x200_0000,
            MemMap::PLIC => 0xc00_0000,
            MemMap::UART0 => UART_BASE,
            MemMap::VIRTIO => 0x1000_1000,
            MemMap::DRAM => DRAM_BASE,
            _ => 0,
        }
    }

    fn len(&self) -> (r: uguest) {
        match self {
            MemMap::DEBUG => 0x100,
            MemMap::MROM => 0xf000,
            MemMap::TEST => 0x1000,
            MemMap::RTC => 0x1000,
            MemMap::CLINT => 0x1_0000,
            MemMap::PLIC => 0x20_0000,
            MemMap::UART0 => UART_SIZE,
            MemMap::VIRTIO => 0x1000,
            MemMap::DRAM => DRAM_SIZE,
            _ => 0,
        }
    }
}

/// What a read of DRAM offset `off` returns: loaded or written bytes, zero elsewhere.
pub open spec fn dram_byte(d: Seq<u8>, off: int) -> u8 {
    if 0 <= off < d.len() {
        d[off]
    } else {
        0
    }
}

/// DRAM contents after writing `bytes` at offset `off`; the backing store grows to cover them.
pub open spec fn dram_write(d: Seq<u8>, off: int, bytes: Seq<u8>) -> Seq<u8> {
    let n = if off + bytes.len() > d.len() {
        off + bytes.len()
    } else {
        d.len() as int
    };
    Seq::new(
        n as nat,
        |j: int|
            if off <= j < off + bytes.len() {
                bytes[j - off]
            } else {
                dram_byte(d, j)
            },
    )
}

/// The `len` bytes a read at guest address `addr` returns from DRAM contents `d`.
pub open spec fn dram_bytes(d: Seq<u8>, addr: u64, len: nat) -> Seq<u8> {
    Seq::new(len, |i: int| dram_byte(d, addr - DRAM_BASE + i))
}

/// Whether `[addr, addr + len)` lies in DRAM, that is at or above `DRAM_BASE` and below the
/// end of the 64-bit address space.
pub open spec fn in_dram(addr: u64, len: int) -> bool {
    addr >= DRAM_BASE && addr - DRAM_BASE + len <= DRAM_SIZE
}

/// Whether a DRAM write of `[addr, addr + len)` can be held by the backing store: its end
/// offset fits the host's `usize`, which is so for every DRAM address on a 64-bit host.
pub open spec fn dram_writable(addr: u64, len: int) -> bool {
    in_dram(addr, len) && addr - DRAM_BASE + len <= usize::MAX
}

/// Whether `[addr, addr + len)` lies in the serial port window.
pub open spec fn in_uart(addr: u64, len: int) -> bool {
    addr >= UART_BASE && addr + len <= UART_BASE + UART_SIZE
}

/// Main memory. Offset 0 is `DRAM_BASE`; bytes past the end of the backing store read as 0.
pub struct DRAM {
    pub inner: Vec<u8>,
}

impl MemoryMap for DRAM {
    open spec fn has_layout(&self) -> bool {
        true
    }

    open spec fn spec_base(&self) -> u64 {
        DRAM_BASE
    }

    open spec fn spec_len(&self) -> u64 {
        DRAM_SIZE
    }

    fn base(&self) -> (r: uguest) {
        DRAM_BASE
    }

    fn len(&self) -> (r: uguest) {
        DRAM_SIZE
    }
}

/// The serial port. Bytes written to its transmit register (offset 0) are kept in `out`.
pub struct UART {
    pub out: Vec<u8>,
}

impl MemoryMap for UART {
    open spec fn has_layout(&self) -> bool {
        true
    }

    open spec fn spec_base(&self) -> u64 {
        UART_BASE
    }

    open spec fn spec_len(&self) -> u64 {
        UART_SIZE
    }

    fn base(&self) -> (r: uguest) {
        UART_BASE
    }

    fn len(&self) -> (r: uguest) {
        UART_SIZE
    }
}

/// Value of little-endian bytes.
pub open spec fn le_value(s: Seq<u8>) -> nat
    decreases s.len(),
{
    if s.len() == 0 {
        0
    } else {
        s[0] as nat + 256 * le_value(s.subrange(1, s.len() as int))
    }
}

/// The `n` low bytes of `v`, least significant first.
pub open spec fn le_bytes(v: nat, n: nat) -> Seq<u8>
    decreases n,
{
    if n == 0 {
        Seq::empty()
    } else {
        seq![(v % 256) as u8] + le_bytes(v / 256, (n - 1) as nat)
    }
}

/// Access widths of loads and stores.
pub open spec fn valid_width(width: u64) -> bool {
    width == 1 || width == 2 || width == 4 || width == 8
}

/// The whole guest-physical memory: DRAM and the serial port.
pub struct Memory {
    pub dram: DRAM,
    pub uart: UART,
}

impl Memory {
    /// DRAM holding `program` from its start; nothing sent on the serial port yet.
    pub fn with_program(program: Vec<u8>) -> (r: Self)
        ensures
            r.dram.inner@ == program@,
            r.uart.out@ == Seq::<u8>::empty(),
    {
        Self { dram: DRAM { inner: program }, uart: UART { out: Vec::new() } }
    }

    /// The region that holds all of `[offset, offset + len)`.
    pub fn get_region(&self, offset: uguest, len: uguest) -> (r: Result<MemMap, EmulatorError>)
        ensures
            in_dram(offset, len as int) ==> r == Ok::<MemMap, EmulatorError>(MemMap::DRAM),
            !in_dram(offset, len as int) && in_uart(offset, len as int) ==> r == Ok::<
                MemMap,
                EmulatorError,
            >(MemMap::UART0),
            !in_dram(offset, len as int) && !in_uart(offset, len as int) ==> r == Err::<
                MemMap,
                EmulatorError,
            >(EmulatorError::OutOfBoundsAccess),
    {
        if offset >= DRAM_BASE && len <= DRAM_SIZE && offset - DRAM_BASE <= DRAM_SIZE - len {
            Ok(MemMap::DRAM)
        } else if self.uart.in_bounds(offset, len) {
            Ok(MemMap::UART0)
        } else {
            Err(EmulatorError::OutOfBoundsAccess)
        }
    }

    /// Reads `len` bytes at `offset`. Only DRAM can be read.
    pub fn read(&self, offset: uguest, len: uguest) -> (r: Result<Vec<u8>, EmulatorError>)
        ensures
            in_dram(offset, len as int) ==> r is Ok && r->Ok_0@ == dram_bytes(
                self.dram.inner@,
                offset,
                len as nat,
            ),
            !in_dram(offset, len as int) ==> r == Err::<Vec<u8>, EmulatorError>(
                EmulatorError::OutOfBoundsAccess,
            ),
    {
        match self.get_region(offset, len) {
            Ok(MemMap::DRAM) => {},
            _ => return Err(EmulatorError::OutOfBoundsAccess),
        }
        let start: u64 = offset - DRAM_BASE;
        let n: u64 = len;
        let stored: usize = self.dram.inner.len();
        let mut out: Vec<u8> = Vec::new();
        let mut i: u64 = 0;
        while i < n
            invariant
                i <= n,
                n == len,
                start == offset - DRAM_BASE,
                start + n <= DRAM_SIZE,
                stored == self.dram.inner@.len(),
                out@ == Seq::new(i as nat, |k: int| dram_byte(self.dram.inner@, start + k)),
            decreases n - i,
        {
            let b = if start + i < stored as u64 {
                self.dram.inner[(start + i) as usize]
            } else {
                0
            };
            out.push(b);
            i += 1;
            assert(out@ =~= Seq::new(i as nat, |k: int| dram_byte(self.dram.inner@, start + k)));
        }
        assert(out@ =~= dram_bytes(self.dram.inner@, offset, len as nat));
        Ok(out)
    }

    /// Writes `buffer` at `offset`. DRAM stores it, growing its backing store; the serial port
    /// transmits a byte written to its offset 0 and ignores the others.
    pub fn write(&mut self, offset: uguest, buffer: &[u8]) -> (r: Result<(), EmulatorError>)
        ensures
            dram_writable(offset, buffer@.len() as int) ==> {
                &&& r is Ok
                &&& final(self).dram.inner@ == dram_write(
                    old(self).dram.inner@,
                    offset - DRAM_BASE,
                    buffer@,
                )
                &&& final(self).uart.out@ == old(self).uart.out@
            },
            in_dram(offset, buffer@.len() as int) && !dram_writable(offset, buffer@.len() as int)
                ==> {
                &&& r == Err::<(), EmulatorError>(EmulatorError::OutOfBoundsAccess)
                &&& final(self).dram.inner@ == old(self).dram.inner@
                &&& final(self).uart.out@ == old(self).uart.out@
            },
            !in_dram(offset, buffer@.len() as int) && in_uart(offset, buffer@.len() as int) ==> {
                &&& r is Ok
                &&& final(self).dram.inner@ == old(self).dram.inner@
                &&& final(self).uart.out@ == (if offset == UART_BASE && buffer@.len() > 0 {
                    old(self).uart.out@.push(buffer@[0])
                } else {
                    old(self).uart.out@
                })
            },
            !in_dram(offset, buffer@.len() as int) && !in_uart(offset, buffer@.len() as int) ==> {
                &&& r == Err::<(), EmulatorError>(EmulatorError::OutOfBoundsAccess)
                &&& final(self).dram.inner@ == old(self).dram.inner@
                &&& final(self).uart.out@ == old(self).uart.out@
            },
    {
        let region = self.get_region(offset, buffer.len() as u64)?;
        if region == MemMap::DRAM {
            let end_offset = offset - DRAM_BASE;
            if end_offset > usize::MAX as u64 - buffer.len() as u64 {
                return Err(EmulatorError::OutOfBoundsAccess);
            }
            let start = (offset - DRAM_BASE) as usize;
            let n = buffer.len();
            let ghost old_d = self.dram.inner@;
            assert(start + n <= usize::MAX);
            if self.dram.inner.len() < start + n {
                self.dram.inner.resize(start + n, 0);
                assert forall|j: int| 0 <= j < self.dram.inner@.len() implies #[trigger] self.dram.inner@[j]
                    == dram_byte(old_d, j) by {
                    if j < old_d.len() {
                        assert(self.dram.inner@.subrange(0, old_d.len() as int)[j] == old_d[j]);
                    }
                }
            }
            let mut i: usize = 0;
            while i < n
                invariant
                    i <= n,
                    n == buffer@.len(),
                    start == offset - DRAM_BASE,
                    start + n <= DRAM_SIZE,
                    start + n <= usize::MAX,
                    old_d == old(self).dram.inner@,
                    self.uart.out@ == old(self).uart.out@,
                    self.dram.inner@.len() == (if start + n > old_d.len() { (start + n) as int } else { old_d.len() as int }),
                    forall|j: int| 0 <= j < self.dram.inner@.len() ==> #[trigger] self.dram.inner@[j] == (if start <= j < start + i { buffer@[j - start] } else { dram_byte(old_d, j) }),
                decreases n - i,
            {
                self.dram.inner.set(start + i, buffer[i]);
                i += 1;
            }
            assert(self.dram.inner@ =~= dram_write(old_d, start as int, buffer@));
            Ok(())
        } else {
            if offset == UART_BASE && buffer.len() > 0 {
                self.uart.out.push(buffer[0]);
            }
            Ok(())
        }
    }
}

/// `256` to the power `n`.
pub open spec fn pow256(n: nat) -> nat
    decreases n,
{
    if n == 0 {
        1
    } else {
        256 * pow256((n - 1) as nat)
    }
}

proof fn lemma_pow256_monotonic(a: nat, b: nat)
    requires
        a <= b,
    ensures
        pow256(a) <= pow256(b),
    decreases b - a,
{
    if a < b {
        lemma_pow256_monotonic(a, (b - 1) as nat);
    }
}

proof fn lemma_le_value_step(s: Seq<u8>, k: int)
    requires
        0 <= k < s.len(),
    ensures
        le_value(s.subrange(k, s.len() as int)) == s[k] as nat + 256 * le_value(
            s.subrange(k + 1, s.len() as int),
        ),
{
    assert(s.subrange(k, s.len() as int).subrange(1, s.len() - k) =~= s.subrange(
        k + 1,
        s.len() as int,
    ));
}

/// Little-endian bytes never exceed their width.
pub proof fn lemma_le_value_bound(s: Seq<u8>)
    ensures
        le_value(s) < pow256(s.len()),
    decreases s.len(),
{
    if s.len() > 0 {
        let rest = s.subrange(1, s.len() as int);
        lemma_le_value_bound(rest);
        let x = le_value(rest);
        let p = pow256(rest.len());
        let b = s[0] as nat;
        assert(b + 256 * x < 256 * p) by (nonlinear_arith)
            requires
                b < 256,
                x < p,
        ;
    }
}

/// `le_bytes` yields exactly `n` bytes.
pub proof fn lemma_le_bytes_len(v: nat, n: nat)
    ensures
        le_bytes(v, n).len() == n,
    decreases n,
{
    if n > 0 {
        lemma_le_bytes_len(v / 256, (n - 1) as nat);
    }
}

/// Value of up to eight little-endian bytes.
pub fn from_le(bytes: &Vec<u8>) -> (r: u64)
    requires
        bytes@.len() <= 8,
    ensures
        r == le_value(bytes@),
{
    let n = bytes.len();
    let mut v: u64 = 0;
    let mut k: usize = n;
    proof {
        assert(bytes@.subrange(n as int, n as int) =~= Seq::<u8>::empty());
        reveal_with_fuel(pow256, 8);
    }
    while k > 0
        invariant
            k <= n,
            n == bytes@.len(),
            n <= 8,
            v == le_value(bytes@.subrange(k as int, n as int)),
            pow256(7) == 0x100_0000_0000_0000,
        decreases k,
    {
        proof {
            lemma_le_value_bound(bytes@.subrange(k as int, n as int));
            lemma_pow256_monotonic((n - k) as nat, 7);
            lemma_le_value_step(bytes@, k - 1);
        }
        k -= 1;
        v = v * 256 + bytes[k] as u64;
    }
    assert(bytes@.subrange(0, n as int) =~= bytes@);
    v
}

/// The `width` low bytes of `v`, least significant first.
pub fn to_le(v: u64, width: u64) -> (r: Vec<u8>)
    requires
        width <= 8,
    ensures
        r@ == le_bytes(v as nat, width as nat),
{
    let mut out: Vec<u8> = Vec::new();
    let mut x: u64 = v;
    let mut i: u64 = 0;
    assert(out@ + le_bytes(x as nat, width as nat) =~= le_bytes(v as nat, width as nat));
    while i < width
        invariant
            i <= width,
            out@ + le_bytes(x as nat, (width - i) as nat) == le_bytes(v as nat, width as nat),
        decreases width - i,
    {
        let b = (x % 256) as u8;
        let ghost rest = le_bytes((x / 256) as nat, (width - i - 1) as nat);
        assert(out@.push(b) + rest =~= out@ + (seq![b] + rest));
        out.push(b);
        x = x / 256;
        i += 1;
    }
    assert(out@ + le_bytes(x as nat, 0) =~= out@);
    out
}

impl Memory {
    /// Reads a little-endian value of `width` bytes at `offset`.
    pub fn get(&self, offset: uguest, width: u64) -> (r: Result<u64, EmulatorError>)
        requires
            valid_width(width),
        ensures
            in_dram(offset, width as int) ==> r == Ok::<u64, EmulatorError>(
                le_value(dram_bytes(self.dram.inner@, offset, width as nat)) as u64,
            ),
            !in_dram(offset, width as int) ==> r == Err::<u64, EmulatorError>(
                EmulatorError::OutOfBoundsAccess,
            ),
            r is Ok ==> (r->Ok_0 as nat) < pow256(width as nat),
    {
        let bytes = self.read(offset, width)?;
        proof {
            lemma_le_value_bound(bytes@);
        }
        Ok(from_le(&bytes))
    }

    /// Writes the `width` low bytes of `val`, little-endian, at `offset`.
    pub fn set(&mut self, offset: uguest, width: u64, val: u64) -> (r: Result<(), EmulatorError>)
        requires
            valid_width(width),
        ensures
            dram_writable(offset, width as int) ==> {
                &&& r is Ok
                &&& final(self).dram.inner@ == dram_write(
                    old(self).dram.inner@,
                    offset - DRAM_BASE,
                    le_bytes(val as nat, width as nat),
                )
                &&& final(self).uart.out@ == old(self).uart.out@
            },
            in_dram(offset, width as int) && !dram_writable(offset, width as int) ==> {
                &&& r == Err::<(), EmulatorError>(EmulatorError::OutOfBoundsAccess)
                &&& final(self).dram.inner@ == old(self).dram.inner@
                &&& final(self).uart.out@ == old(self).uart.out@
            },
            !in_dram(offset, width as int) && in_uart(offset, width as int) ==> {
                &&& r is Ok
                &&& final(self).dram.inner@ == old(self).dram.inner@
                &&& final(self).uart.out@ == (if offset == UART_BASE {
                    old(self).uart.out@.push(le_bytes(val as nat, width as nat)[0])
                } else {
                    old(self).uart.out@
                })
            },
            !in_dram(offset, width as int) && !in_uart(offset, width as int) ==> {
                &&& r == Err::<(), EmulatorError>(EmulatorError::OutOfBoundsAccess)
                &&& final(self).dram.inner@ == old(self).dram.inner@
                &&& final(self).uart.out@ == old(self).uart.out@
            },
    {
        let bytes = to_le(val, width);
        proof {
            lemma_le_bytes_len(val as nat, width as nat);
        }
        self.write(offset, bytes.as_slice())
    }
}

} // verus!
