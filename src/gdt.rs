//! The segment descriptor table: descriptor encoding, the flat boot layout,
//! and the image and register value that load it.
use vstd::prelude::*;

verus! {

/// Number of slots in the segment descriptor table.
pub const GDT_ENTRIES: usize = 16;

/// Bytes taken by one encoded descriptor.
pub const GDT_ENTRY_BYTES: usize = 8;

/// One segment descriptor, in the field layout the CPU reads.
#[derive(Clone, Copy, PartialEq, Eq, Structural, Debug)]
pub struct GdtEntry {
    pub limit_low: u16,
    pub base_low: u16,
    pub base_mid: u8,
    pub access: u8,
    pub gran: u8,
    pub base_high: u8,
}

/// The value loaded into the segment table register: the table's byte limit
/// and its linear address.
#[derive(Clone, Copy, PartialEq, Eq, Structural, Debug)]
pub struct GdtRegister {
    pub limit: u16,
    pub addr: u32,
}

/// A loaded table together with the selectors that the load reloads.
#[derive(Clone, Copy, PartialEq, Eq, Structural, Debug)]
pub struct GdtLoad {
    pub reg: GdtRegister,
    pub code_selector: u16,
    pub data_selector: u16,
    pub tls_selector: u16,
}

/// The segment descriptor table.
pub struct Gdt {
    pub table: Vec<GdtEntry>,
}

impl GdtEntry {
    /// The segment base that the descriptor encodes.
    pub open spec fn base(self) -> int {
        self.base_low as int + self.base_mid as int * 0x10000 + self.base_high as int * 0x1000000
    }

    /// The segment limit that the descriptor encodes (the high four bits of
    /// the limit sit in the low nibble of the granularity byte).
    pub open spec fn limit(self) -> int {
        self.limit_low as int + (self.gran as int % 16) * 0x10000
    }

    /// The null descriptor.
    pub open spec fn is_null(self) -> bool {
        self == GdtEntry { limit_low: 0, base_low: 0, base_mid: 0, access: 0, gran: 0, base_high: 0 }
    }

    /// The eight bytes of the descriptor, in memory order.
    pub open spec fn bytes(self) -> Seq<u8> {
        seq![
            (self.limit_low % 0x100) as u8,
            (self.limit_low / 0x100) as u8,
            (self.base_low % 0x100) as u8,
            (self.base_low / 0x100) as u8,
            self.base_mid,
            self.access,
            self.gran,
            self.base_high,
        ]
    }

    /// The null descriptor.
    pub fn new() -> (r: GdtEntry)
        ensures
            r.is_null(),
            r.base() == 0,
            r.limit() == 0,
            r.access == 0,
    {
        GdtEntry { limit_low: 0, base_low: 0, base_mid: 0, access: 0, gran: 0, base_high: 0 }
    }

    /// Encodes a descriptor: the whole base, the low sixteen bits of the
    /// limit, and the access and granularity bytes as given.
    pub fn create(base: u32, limit: u32, access: u8, gran: u8) -> (r: GdtEntry)
        ensures
            r == GdtEntry::create_spec(base, limit, access, gran),
            r.base() == base as int,
            r.limit_low as int == limit as int % 0x10000,
            r.access == access,
            r.gran == gran,
    {
        GdtEntry {
            limit_low: (limit % 0x10000) as u16,
            base_low: (base % 0x10000) as u16,
            base_mid: ((base / 0x10000) % 0x100) as u8,
            access,
            gran,
            base_high: (base / 0x1000000) as u8,
        }
    }

    /// The descriptor as the CPU reads it from memory.
    pub fn to_bytes(&self) -> (r: Vec<u8>)
        ensures
            r@ == self.bytes(),
    {
        let mut r: Vec<u8> = Vec::new();
        r.push((self.limit_low % 0x100) as u8);
        r.push((self.limit_low / 0x100) as u8);
        r.push((self.base_low % 0x100) as u8);
        r.push((self.base_low / 0x100) as u8);
        r.push(self.base_mid);
        r.push(self.access);
        r.push(self.gran);
        r.push(self.base_high);
        proof {
            assert(r@ =~= self.bytes());
        }
        r
    }
}

impl GdtRegister {
    /// The register image for a table of sixteen descriptors at `addr`.
    pub fn new(addr: u32) -> (r: GdtRegister)
        ensures
            r.addr == addr,
            r.limit as int == (GDT_ENTRIES * GDT_ENTRY_BYTES) as int + 1,
    {
        GdtRegister { limit: (GDT_ENTRIES * GDT_ENTRY_BYTES + 1) as u16, addr }
    }
}

impl Gdt {
    /// Sixteen slots, the first holding the null descriptor, so that a
    /// selector left at zero traps.
    pub open spec fn wf(&self) -> bool {
        &&& self.table@.len() == GDT_ENTRIES
        &&& self.table@[0].is_null()
    }

    /// The descriptors, slot by slot.
    pub open spec fn entries(&self) -> Seq<GdtEntry> {
        self.table@
    }

    /// A table whose sixteen slots all hold the null descriptor.
    pub fn new() -> (r: Gdt)
        ensures
            r.wf(),
            forall|i: int| 0 <= i < GDT_ENTRIES ==> (#[trigger] r.entries()[i]).is_null(),
            r.entries()[0].base() == 0,
            r.entries()[0].limit() == 0,
            r.entries()[0].access == 0,
    {
        let mut table: Vec<GdtEntry> = Vec::new();
        let mut i: usize = 0;
        while i < GDT_ENTRIES
            invariant
                i <= GDT_ENTRIES,
                table@.len() == i,
                forall|j: int| 0 <= j < i ==> (#[trigger] table@[j]).is_null(),
            decreases GDT_ENTRIES - i,
        {
            table.push(GdtEntry::new());
            i = i + 1;
        }
        Gdt { table }
    }

    /// Writes slot `index`; every other slot keeps its descriptor. Slot 0
    /// only ever holds the null descriptor.
    pub fn entry(&mut self, index: usize, base: u32, limit: u32, access: u8, gran: u8)
        requires
            old(self).wf(),
            index < GDT_ENTRIES,
            index == 0 ==> base == 0 && limit == 0 && access == 0 && gran == 0,
        ensures
            final(self).wf(),
            final(self).entries() == old(self).entries().update(index as int, GdtEntry::create_spec(base, limit, access, gran)),
    {
        let e = GdtEntry::create(base, limit, access, gran);
        self.table.set(index, e);
    }

    /// The sixteen descriptors laid end to end, as the CPU reads the table.
    pub fn image(&self) -> (r: Vec<u8>)
        requires
            self.wf(),
        ensures
            r@.len() == GDT_ENTRIES * GDT_ENTRY_BYTES,
            forall|i: int, k: int| 0 <= i < GDT_ENTRIES && 0 <= k < GDT_ENTRY_BYTES ==>
                r@[i * 8 + k] == #[trigger] self.entries()[i].bytes()[k],
    {
        let mut r: Vec<u8> = Vec::new();
        let mut i: usize = 0;
        while i < GDT_ENTRIES
            invariant
                self.wf(),
                i <= GDT_ENTRIES,
                r@.len() == i * 8,
                forall|j: int, k: int| 0 <= j < i && 0 <= k < GDT_ENTRY_BYTES ==>
                    r@[j * 8 + k] == #[trigger] self.entries()[j].bytes()[k],
            decreases GDT_ENTRIES - i,
        {
            let b = self.table[i].to_bytes();
            let ghost before = r@;
            let mut k: usize = 0;
            while k < GDT_ENTRY_BYTES
                invariant
                    i < GDT_ENTRIES,
                    k <= GDT_ENTRY_BYTES,
                    b@ == self.entries()[i as int].bytes(),
                    r@.len() == i * 8 + k,
                    forall|x: int| 0 <= x < i * 8 ==> r@[x] == before[x],
                    forall|x: int| 0 <= x < k ==> r@[i * 8 + x] == b@[x],
                decreases GDT_ENTRY_BYTES - k,
            {
                r.push(b[k]);
                k = k + 1;
            }
            proof {
                assert forall|j: int, k2: int| 0 <= j < i + 1 && 0 <= k2 < GDT_ENTRY_BYTES implies
                    r@[j * 8 + k2] == #[trigger] self.entries()[j].bytes()[k2] by {
                    if j < i {
                        assert(j * 8 + k2 < i * 8) by (nonlinear_arith)
                            requires j < i, 0 <= k2 < 8;
                        assert(r@[j * 8 + k2] == before[j * 8 + k2]);
                    }
                }
            }
            i = i + 1;
        }
        r
    }

    /// Commits the table at `addr`: the register image to load and the code,
    /// data and thread-local selectors to reload with it.
    pub fn load(&self, addr: u32, codeseg: u16, dataseg: u16, tlsemulseg: u16) -> (r: GdtLoad)
        ensures
            r.reg.addr == addr,
            r.reg.limit as int == (GDT_ENTRIES * GDT_ENTRY_BYTES) as int + 1,
            r.code_selector == codeseg,
            r.data_selector == dataseg,
            r.tls_selector == tlsemulseg,
    {
        GdtLoad {
            reg: GdtRegister::new(addr),
            code_selector: codeseg,
            data_selector: dataseg,
            tls_selector: tlsemulseg,
        }
    }
}

/// Whatever was written to a table before, its entry 0 decodes to base 0,
/// limit 0 and access 0.
pub proof fn lemma_entry_zero_is_null(g: Gdt)
    requires
        g.wf(),
    ensures
        g.entries()[0].base() == 0,
        g.entries()[0].limit() == 0,
        g.entries()[0].access == 0,
{
}

/// Selector of the kernel code segment.
pub const KERNEL_CODE_SELECTOR: u16 = 0x08;

/// Selector of the kernel data segment.
pub const KERNEL_DATA_SELECTOR: u16 = 0x10;

/// Selector of the segment that emulates thread-local storage.
pub const TLS_SELECTOR: u16 = 0x28;

/// The flat boot layout: null, kernel code, kernel data, user code, user
/// data, and a data segment based at `tls_base` for thread-local storage.
pub open spec fn boot_layout(tls_base: u32) -> Seq<GdtEntry> {
    seq![
        GdtEntry::create_spec(0, 0, 0, 0),
        GdtEntry::create_spec(0, 0xFFFF_FFFF, 0x98, 0xCF),
        GdtEntry::create_spec(0, 0xFFFF_FFFF, 0x92, 0xCF),
        GdtEntry::create_spec(0, 0xFFFF_FFFF, 0xF8, 0xCF),
        GdtEntry::create_spec(0, 0xFFFF_FFFF, 0xF2, 0xCF),
        GdtEntry::create_spec(tls_base, 0xFFFF_FFFF, 0x92, 0xCF),
    ]
}

/// Builds the boot table: the six descriptors of `boot_layout` in slots 0
/// to 5, the null descriptor in the rest.
pub fn setup_gdt(tls_base: u32) -> (r: Gdt)
    ensures
        r.wf(),
        forall|i: int| 0 <= i < 6 ==> #[trigger] r.entries()[i] == boot_layout(tls_base)[i],
        forall|i: int| 6 <= i < GDT_ENTRIES ==> (#[trigger] r.entries()[i]).is_null(),
        r.entries()[0].is_null(),
{
    let mut gdt = Gdt::new();
    gdt.entry(0, 0, 0, 0, 0);
    gdt.entry(1, 0, 0xFFFF_FFFF, 0x98, 0xCF);
    gdt.entry(2, 0, 0xFFFF_FFFF, 0x92, 0xCF);
    gdt.entry(3, 0, 0xFFFF_FFFF, 0xF8, 0xCF);
    gdt.entry(4, 0, 0xFFFF_FFFF, 0xF2, 0xCF);
    gdt.entry(5, tls_base, 0xFFFF_FFFF, 0x92, 0xCF);
    gdt
}

impl Gdt {
    /// Commits the boot table at `addr` with the selectors of the boot
    /// layout: kernel code 0x08, kernel data 0x10 (also for the stack and
    /// the other data segments), thread-local storage 0x28.
    pub fn load_boot(&self, addr: u32) -> (r: GdtLoad)
        ensures
            r.reg.addr == addr,
            r.reg.limit as int == (GDT_ENTRIES * GDT_ENTRY_BYTES) as int + 1,
            r.code_selector == KERNEL_CODE_SELECTOR && KERNEL_CODE_SELECTOR == 0x08,
            r.data_selector == KERNEL_DATA_SELECTOR && KERNEL_DATA_SELECTOR == 0x10,
            r.tls_selector == TLS_SELECTOR && TLS_SELECTOR == 0x28,
    {
        self.load(addr, KERNEL_CODE_SELECTOR, KERNEL_DATA_SELECTOR, TLS_SELECTOR)
    }
}

impl GdtEntry {
    /// The descriptor that `create` builds.
    pub open spec fn create_spec(base: u32, limit: u32, access: u8, gran: u8) -> GdtEntry {
        GdtEntry {
            limit_low: (limit % 0x10000) as u16,
            base_low: (base % 0x10000) as u16,
            base_mid: ((base / 0x10000) % 0x100) as u8,
            access,
            gran,
            base_high: (base / 0x1000000) as u8,
        }
    }
}

} // verus!
