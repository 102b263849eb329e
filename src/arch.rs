//! The architecture layer: descriptor tables, trap handlers, scheduler.
use vstd::prelude::*;
use crate::gdt::Gdt;
use crate::idt::{IdtTable, Idt, IDT_ENTRIES};
use crate::sched::Scheduler;

verus! {

/// Vector of the page fault, routed to the terminal bus-error handler.
pub const PAGE_FAULT_VECTOR: usize = 14;

/// What a vector is routed to.
#[derive(Clone, Copy, PartialEq, Eq, Debug)]
pub enum TrapTarget<H> {
    /// A handler registered by a driver or the application.
    Handler(H),
    /// The interrupt controller's demultiplexer.
    IrqStub,
    /// The terminal fault handler: report and halt.
    BusError,
}

/// The CPU side of the kernel: segment table, interrupt table, the
/// trap handler table and the scheduler.
pub struct State<H> {
    pub gdt: Gdt,
    pub idt_table: IdtTable,
    pub idt: Idt<TrapTarget<H>>,
    pub threads: Scheduler,
}

/// The architecture layer and whether it has been brought up.
pub struct ArchitectureState<H> {
    pub initialised: bool,
    pub state: State<H>,
}

impl<H: Copy> State<H> {
    pub open spec fn wf(&self) -> bool {
        self.gdt.wf() && self.idt_table.wf() && self.idt.wf()
    }

    /// Empty tables, no handlers, no threads.
    pub fn new() -> (r: State<H>)
        ensures
            r.wf(),
            forall|v: int| 0 <= v < IDT_ENTRIES ==> #[trigger] r.idt.view()[v] == None::<TrapTarget<H>>,
            r.threads.model() == (Seq::<crate::sched::Thread>::empty(), None::<crate::sched::Thread>, false),
    {
        State { gdt: Gdt::new(), idt_table: IdtTable::new(), idt: Idt::new(), threads: Scheduler::new() }
    }
}

impl<H: Copy> ArchitectureState<H> {
    pub open spec fn wf(&self) -> bool {
        self.state.wf()
    }

    /// An architecture layer that is not yet brought up.
    pub fn new() -> (r: ArchitectureState<H>)
        ensures
            r.wf(),
            !r.initialised,
            forall|v: int| 0 <= v < IDT_ENTRIES ==> #[trigger] r.state.idt.view()[v] == None::<TrapTarget<H>>,
            r.state.threads.model() == (Seq::<crate::sched::Thread>::empty(), None::<crate::sched::Thread>, false),
    {
        ArchitectureState { initialised: false, state: State::new() }
    }
}

/// A fresh architecture layer.
pub fn create<H: Copy>() -> (r: ArchitectureState<H>)
    ensures
        r.wf(),
        !r.initialised,
        forall|v: int| 0 <= v < IDT_ENTRIES ==> #[trigger] r.state.idt.view()[v] == None::<TrapTarget<H>>,
        r.state.threads.model() == (Seq::<crate::sched::Thread>::empty(), None::<crate::sched::Thread>, false),
{
    ArchitectureState::new()
}

} // verus!
