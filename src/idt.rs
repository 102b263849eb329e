//! The interrupt descriptor table and the trap dispatcher: 256 descriptors
//! pointing at the entry stubs, and the table of language-level handlers.
use vstd::prelude::*;

verus! {

/// Number of interrupt vectors.
pub const IDT_ENTRIES: usize = 256;

/// Distance in bytes between the low-level entry stubs of two consecutive
/// vectors, so that a stub's address tells which vector fired.
pub const ISR_STUB_LENGTH: u32 = 10;

/// Type byte of a present 32-bit interrupt descriptor.
pub const INTERRUPT_FLAGS: u8 = 0x8E;

/// One interrupt descriptor, in the field layout the CPU reads.
#[derive(Clone, Copy, PartialEq, Eq, Structural, Debug)]
pub struct IdtEntry {
    pub handler_low: u16,
    pub selector: u16,
    pub always0: u8,
    pub flags: u8,
    pub handler_high: u16,
}

/// The value loaded into the interrupt table register.
#[derive(Clone, Copy, PartialEq, Eq, Structural, Debug)]
pub struct IdtRegister {
    pub limit: u16,
    pub addr: u32,
}

/// The 256 descriptors as the CPU sees them.
pub struct IdtTable {
    pub table: Vec<IdtEntry>,
}

/// A handler to invoke, and the vector to pass it.
#[derive(Clone, Copy, PartialEq, Eq, Debug)]
pub struct TrapCall<H> {
    pub handler: H,
    pub arg: usize,
}

/// The language-level handler table: one slot per vector, `None` standing
/// for the no-op default.
pub struct Idt<H> {
    pub handlers: Vec<Option<H>>,
}

/// What a trap on `which` does with the table `handlers`: the registered
/// handler is invoked once with the vector number; an empty slot does nothing.
pub open spec fn dispatch<H>(handlers: Seq<Option<H>>, which: int) -> Option<TrapCall<H>> {
    match handlers[which] {
        Some(h) => Some(TrapCall { handler: h, arg: which as usize }),
        None => None,
    }
}

/// Before any registration every one of the 256 vectors dispatches to the
/// no-op default: a trap on it makes no call.
pub proof fn lemma_unregistered_trap_is_noop<H>(handlers: Seq<Option<H>>, v: int)
    requires
        handlers.len() == IDT_ENTRIES,
        forall|i: int| 0 <= i < IDT_ENTRIES ==> #[trigger] handlers[i] == None::<H>,
        0 <= v < IDT_ENTRIES,
    ensures
        dispatch(handlers, v) == None::<TrapCall<H>>,
{
}

/// After `register(v, h)` a trap on `v` makes exactly one call, of `h` with
/// argument `v`, and a trap on any other vector does what it did before.
pub proof fn lemma_register_then_trap<H>(handlers: Seq<Option<H>>, v: int, h: H, w: int)
    requires
        handlers.len() == IDT_ENTRIES,
        0 <= v < IDT_ENTRIES,
        0 <= w < IDT_ENTRIES,
    ensures
        dispatch(handlers.update(v, Some(h)), v) == Some(TrapCall { handler: h, arg: v as usize }),
        w != v ==> dispatch(handlers.update(v, Some(h)), w) == dispatch(handlers, w),
{
}

impl IdtEntry {
    /// The handler address that the descriptor encodes.
    pub open spec fn handler(self) -> int {
        self.handler_low as int + self.handler_high as int * 0x10000
    }

    /// The descriptor that `create` builds.
    pub open spec fn create_spec(handler: u32, sel: u16, flags: u8) -> IdtEntry {
        IdtEntry {
            handler_low: (handler % 0x10000) as u16,
            selector: sel,
            always0: 0,
            flags: flags | 0x60,
            handler_high: (handler / 0x10000) as u16,
        }
    }

    /// The eight bytes of the descriptor, in memory order.
    pub open spec fn bytes(self) -> Seq<u8> {
        seq![
            (self.handler_low % 0x100) as u8,
            (self.handler_low / 0x100) as u8,
            (self.selector % 0x100) as u8,
            (self.selector / 0x100) as u8,
            self.always0,
            self.flags,
            (self.handler_high % 0x100) as u8,
            (self.handler_high / 0x100) as u8,
        ]
    }

    /// An empty descriptor.
    pub fn new() -> (r: IdtEntry)
        ensures
            r == (IdtEntry { handler_low: 0, selector: 0, always0: 0, flags: 0, handler_high: 0 }),
    {
        IdtEntry { handler_low: 0, selector: 0, always0: 0, flags: 0, handler_high: 0 }
    }

    /// A descriptor for `handler` through code selector `sel`; the privilege bits
    /// of `flags` are raised so that ring 3 may raise the vector.
    pub fn create(handler: u32, sel: u16, flags: u8) -> (r: IdtEntry)
        ensures
            r == IdtEntry::create_spec(handler, sel, flags),
            r.handler() == handler as int,
    {
        IdtEntry {
            handler_low: (handler % 0x10000) as u16,
            selector: sel,
            always0: 0,
            flags: flags | 0x60,
            handler_high: (handler / 0x10000) as u16,
        }
    }

    /// The descriptor as the CPU reads it from memory.
    pub fn to_bytes(&self) -> (r: Vec<u8>)
        ensures
            r@ == self.bytes(),
    {
        let mut r: Vec<u8> = Vec::new();
        r.push((self.handler_low % 0x100) as u8);
        r.push((self.handler_low / 0x100) as u8);
        r.push((self.selector % 0x100) as u8);
        r.push((self.selector / 0x100) as u8);
        r.push(self.always0);
        r.push(self.flags);
        r.push((self.handler_high % 0x100) as u8);
        r.push((self.handler_high / 0x100) as u8);
        proof {
            assert(r@ =~= self.bytes());
        }
        r
    }
}

impl IdtRegister {
    /// The register image for a table of 256 descriptors at `addr`.
    pub fn new(addr: u32) -> (r: IdtRegister)
        ensures
            r.addr == addr,
            r.limit as int == IDT_ENTRIES * 8 + 1,
    {
        IdtRegister { limit: (IDT_ENTRIES * 8 + 1) as u16, addr }
    }
}

/// The descriptor of vector `i` when the stubs start at `stub_base`.
pub open spec fn stub_entry(stub_base: u32, i: int) -> IdtEntry {
    IdtEntry::create_spec((stub_base + i * ISR_STUB_LENGTH) as u32, 0x08, INTERRUPT_FLAGS)
}

impl IdtTable {
    pub open spec fn wf(&self) -> bool {
        self.table@.len() == IDT_ENTRIES
    }

    /// 256 empty descriptors.
    pub fn new() -> (r: IdtTable)
        ensures
            r.wf(),
            forall|i: int| 0 <= i < IDT_ENTRIES ==> #[trigger] r.table@[i] == IdtEntry::new_spec(),
    {
        let mut table: Vec<IdtEntry> = Vec::new();
        let mut i: usize = 0;
        while i < IDT_ENTRIES
            invariant
                i <= IDT_ENTRIES,
                table@.len() == i,
                forall|j: int| 0 <= j < i ==> #[trigger] table@[j] == IdtEntry::new_spec(),
            decreases IDT_ENTRIES - i,
        {
            table.push(IdtEntry::new());
            i = i + 1;
        }
        IdtTable { table }
    }

    /// Points every descriptor at its entry stub: vector `i` at
    /// `stub_base + i * ISR_STUB_LENGTH`, through the kernel code selector.
    pub fn init(&mut self, stub_base: u32)
        requires
            old(self).wf(),
            stub_base as int + (IDT_ENTRIES - 1) * ISR_STUB_LENGTH <= u32::MAX,
        ensures
            final(self).wf(),
            forall|i: int| 0 <= i < IDT_ENTRIES ==> #[trigger] final(self).table@[i] == stub_entry(stub_base, i),
    {
        let mut i: usize = 0;
        while i < IDT_ENTRIES
            invariant
                self.wf(),
                i <= IDT_ENTRIES,
                stub_base as int + (IDT_ENTRIES - 1) * ISR_STUB_LENGTH <= u32::MAX,
                forall|j: int| 0 <= j < i ==> #[trigger] self.table@[j] == stub_entry(stub_base, j),
            decreases IDT_ENTRIES - i,
        {
            assert(i * ISR_STUB_LENGTH <= (IDT_ENTRIES - 1) * ISR_STUB_LENGTH) by (nonlinear_arith)
                requires i < IDT_ENTRIES;
            let base: u32 = stub_base + (i as u32) * ISR_STUB_LENGTH;
            self.entry(i, base, 0x08, INTERRUPT_FLAGS);
            i = i + 1;
        }
    }

    /// Writes the descriptor of vector `index`.
    pub fn entry(&mut self, index: usize, handler: u32, sel: u16, flags: u8)
        requires
            old(self).wf(),
            index < IDT_ENTRIES,
        ensures
            final(self).wf(),
            final(self).table@ == old(self).table@.update(index as int, IdtEntry::create_spec(handler, sel, flags)),
    {
        let e = IdtEntry::create(handler, sel, flags);
        self.table.set(index, e);
    }

    /// The 256 descriptors laid end to end.
    pub fn image(&self) -> (r: Vec<u8>)
        requires
            self.wf(),
        ensures
            r@.len() == IDT_ENTRIES * 8,
            forall|i: int, k: int| 0 <= i < IDT_ENTRIES && 0 <= k < 8 ==>
                r@[i * 8 + k] == #[trigger] self.table@[i].bytes()[k],
    {
        let mut r: Vec<u8> = Vec::new();
        let mut i: usize = 0;
        while i < IDT_ENTRIES
            invariant
                self.wf(),
                i <= IDT_ENTRIES,
                r@.len() == i * 8,
                forall|j: int, k: int| 0 <= j < i && 0 <= k < 8 ==>
                    r@[j * 8 + k] == #[trigger] self.table@[j].bytes()[k],
            decreases IDT_ENTRIES - i,
        {
            let b = self.table[i].to_bytes();
            let ghost before = r@;
            let mut k: usize = 0;
            while k < 8
                invariant
                    i < IDT_ENTRIES,
                    k <= 8,
                    b@ == self.table@[i as int].bytes(),
                    r@.len() == i * 8 + k,
                    forall|x: int| 0 <= x < i * 8 ==> r@[x] == before[x],
                    forall|x: int| 0 <= x < k ==> r@[i * 8 + x] == b@[x],
                decreases 8 - k,
            {
                r.push(b[k]);
                k = k + 1;
            }
            proof {
                assert forall|j: int, k2: int| 0 <= j < i + 1 && 0 <= k2 < 8 implies
                    r@[j * 8 + k2] == #[trigger] self.table@[j].bytes()[k2] by {
                    if j < i {
                        assert(j * 8 + k2 < i * 8) by (nonlinear_arith)
                            requires j < i, 0 <= k2 < 8;
                        assert(r@[j * 8 + k2] == before[j * 8 + k2]);
                    }
                }
            }
            i = i + 1;
        }
        r
    }

    /// The register image for this table placed at `addr`.
    pub fn load(&self, addr: u32) -> (r: IdtRegister)
        ensures
            r == IdtRegister::new_spec(addr),
    {
        IdtRegister::new(addr)
    }
}

impl IdtEntry {
    pub open spec fn new_spec() -> IdtEntry {
        IdtEntry { handler_low: 0, selector: 0, always0: 0, flags: 0, handler_high: 0 }
    }
}

impl IdtRegister {
    pub open spec fn new_spec(addr: u32) -> IdtRegister {
        IdtRegister { limit: (IDT_ENTRIES * 8 + 1) as u16, addr }
    }
}

impl<H: Copy> Idt<H> {
    pub open spec fn wf(&self) -> bool {
        self.handlers@.len() == IDT_ENTRIES
    }

    /// The handler registered on each vector.
    pub open spec fn view(&self) -> Seq<Option<H>> {
        self.handlers@
    }

    /// A table with the no-op default on every vector.
    pub fn new() -> (r: Idt<H>)
        ensures
            r.wf(),
            forall|v: int| 0 <= v < IDT_ENTRIES ==> #[trigger] r.view()[v] == None::<H>,
    {
        let mut handlers: Vec<Option<H>> = Vec::new();
        let mut i: usize = 0;
        while i < IDT_ENTRIES
            invariant
                i <= IDT_ENTRIES,
                handlers@.len() == i,
                forall|j: int| 0 <= j < i ==> #[trigger] handlers@[j] == None::<H>,
            decreases IDT_ENTRIES - i,
        {
            handlers.push(None);
            i = i + 1;
        }
        Idt { handlers }
    }

    /// Installs `handler` on vector `index`, replacing any earlier one.
    pub fn register(&mut self, index: usize, handler: H)
        requires
            old(self).wf(),
            index < IDT_ENTRIES,
        ensures
            final(self).wf(),
            final(self).view() == old(self).view().update(index as int, Some(handler)),
    {
        self.handlers.set(index, Some(handler));
    }

    /// The call that a trap on `which` makes: the registered handler with
    /// the vector number as its argument, or none for the no-op default.
    pub fn trap(&self, which: usize) -> (r: Option<TrapCall<H>>)
        requires
            self.wf(),
            which < IDT_ENTRIES,
        ensures
            r == dispatch(self.view(), which as int),
    {
        match self.handlers[which] {
            Some(h) => Some(TrapCall { handler: h, arg: which }),
            None => None,
        }
    }
}

} // verus!
