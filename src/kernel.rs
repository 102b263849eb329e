//! The kernel: both layers together, the routing of traps and interrupts,
//! bring-up, and threads.
use vstd::prelude::*;
use crate::port::{PortWrite, out};
use crate::arch::{self, ArchitectureState, TrapTarget, PAGE_FAULT_VECTOR};
use crate::mach::{self, MachineState, IrqTarget};
use crate::gdt::{setup_gdt, boot_layout, GDT_ENTRIES};
use crate::idt::{TrapCall, IDT_ENTRIES, ISR_STUB_LENGTH, dispatch, stub_entry};
use crate::pic::{self, IrqStep, Diagnostic, REMAP_BASE, IRQ_COUNT};
use crate::pit::{self, Pit};
use crate::kb::{self, PS2Keyboard, KeyEvent};
use crate::vga::{self, Vga, CellWrite, Colour, COLS, ROWS};
use crate::serial::{self, Parity};
use crate::mem::{Heap, align_up};
use crate::sched::{self, ThreadState, STACK_SIZE, STACK_ALIGN};

verus! {

/// Rate at which the interval timer is programmed at boot, in hertz.
pub const TIMER_HZ: usize = 100;

/// Baud rate of the serial line at boot.
pub const SERIAL_BAUD: i32 = 115200;

/// What the kernel does for a trap on a vector.
#[derive(Clone, Copy, PartialEq, Eq, Debug)]
pub enum TrapAction<H> {
    /// Nothing is registered: the no-op default.
    Nothing,
    /// Invoke a registered handler.
    Call(TrapCall<H>),
    /// A hardware interrupt: read the in-service registers (see
    /// `Pic::isr_query`) and hand them to `irq_trap`.
    Irq,
    /// A fatal fault: report it, disable interrupts and halt.
    BusError,
}

/// One effect of servicing an interrupt, in the order it must be done.
#[derive(Clone, Copy, PartialEq, Eq, Debug)]
pub enum KernelStep<H> {
    /// Write a byte to a port.
    Out(PortWrite),
    /// Store a cell of the text buffer.
    Cell(CellWrite),
    /// Invoke a handler.
    Call(TrapCall<H>),
    /// Emit a diagnostic on the serial port.
    Report(Diagnostic),
    /// Run the timer's interrupt work, `timer_tick`.
    Tick,
    /// Read the keyboard's status and data bytes and hand them to
    /// `keyboard_irq`.
    ReadKeyboard,
}

/// A controller step as a kernel step: the timer and the keyboard are
/// served by the kernel itself, other handlers are invoked with their line.
pub open spec fn expand_step<H>(s: IrqStep<IrqTarget<H>>) -> KernelStep<H> {
    match s {
        IrqStep::Out(w) => KernelStep::Out(w),
        IrqStep::Report(d) => KernelStep::Report(d),
        IrqStep::Invoke { handler, line } => match handler {
            IrqTarget::Handler(h) => KernelStep::Call(TrapCall { handler: h, arg: line }),
            IrqTarget::Timer => KernelStep::Tick,
            IrqTarget::Keyboard => KernelStep::ReadKeyboard,
        },
    }
}

pub open spec fn expand<H>(s: Seq<IrqStep<IrqTarget<H>>>) -> Seq<KernelStep<H>> {
    s.map_values(|x: IrqStep<IrqTarget<H>>| expand_step(x))
}

/// What the kernel does for a trap on `which` with the handler table
/// `handlers`.
pub open spec fn trap_action<H>(handlers: Seq<Option<TrapTarget<H>>>, which: int) -> TrapAction<H> {
    match dispatch(handlers, which) {
        None => TrapAction::Nothing,
        Some(call) => match call.handler {
            TrapTarget::Handler(h) => TrapAction::Call(TrapCall { handler: h, arg: which as usize }),
            TrapTarget::IrqStub => TrapAction::Irq,
            TrapTarget::BusError => TrapAction::BusError,
        },
    }
}

/// Through the kernel's routing too, a vector with nothing registered does
/// nothing, and after `register_trap(v, h)` a trap on `v` is one call of `h`
/// with `v` while every other vector keeps its action.
pub proof fn lemma_kernel_trap_routing<H>(handlers: Seq<Option<TrapTarget<H>>>, v: int, h: H, w: int)
    requires
        handlers.len() == IDT_ENTRIES,
        0 <= v < IDT_ENTRIES,
        0 <= w < IDT_ENTRIES,
    ensures
        handlers[v] is None ==> trap_action(handlers, v) == TrapAction::<H>::Nothing,
        trap_action(handlers.update(v, Some(TrapTarget::Handler(h))), v)
            == TrapAction::Call(TrapCall { handler: h, arg: v as usize }),
        w != v ==> trap_action(handlers.update(v, Some(TrapTarget::Handler(h))), w) == trap_action(handlers, w),
{
}

/// Through the kernel, a deferred trap on line 7 or 15 whose in-service bit
/// is clear calls no handler, leaves nothing pending and no mask changed
/// (the line is not deferred), and acknowledges the primary controller only
/// for line 15.
pub proof fn lemma_kernel_spurious_suppressed<H>(
    handlers: Seq<Option<pic::PicIrqHandler<IrqTarget<H>>>>,
    line: int,
    isr: u16,
    w: PortWrite,
)
    requires
        handlers.len() == IRQ_COUNT,
        line == 7 || line == 15,
        !pic::isr_set(isr, line as u16),
    ensures
        !pic::defers(handlers, line, isr),
        line == 7 ==> expand(pic::deferred_trap_steps(handlers, line, isr, w))
            == seq![KernelStep::<H>::Report(Diagnostic::SpuriousIrq7)],
        line == 15 ==> expand(pic::deferred_trap_steps(handlers, line, isr, w)) == seq![
            KernelStep::<H>::Report(Diagnostic::SpuriousIrq15),
            KernelStep::<H>::Out(out(pic::PRIMARY_COMMAND, pic::EOI_COMMAND)),
        ],
{
    pic::lemma_spurious_suppressed(handlers, line, isr, w);
    let steps = pic::deferred_trap_steps(handlers, line, isr, w);
    if line == 7 {
        assert(expand(steps) =~= seq![KernelStep::<H>::Report(Diagnostic::SpuriousIrq7)]);
    } else {
        assert(expand(steps) =~= seq![
            KernelStep::<H>::Report(Diagnostic::SpuriousIrq15),
            KernelStep::<H>::Out(out(pic::PRIMARY_COMMAND, pic::EOI_COMMAND)),
        ]);
    }
}

/// Port writes as kernel steps.
pub open spec fn outs<H>(w: Seq<PortWrite>) -> Seq<KernelStep<H>> {
    w.map_values(|x: PortWrite| KernelStep::<H>::Out(x))
}

/// The cell of the bottom-right corner, where the spinner is drawn.
pub open spec fn corner() -> int {
    (ROWS - 1) * COLS + (COLS - 1)
}

/// The steps that draw the spinner glyph `g`, if any, in the bottom-right
/// corner in white on black, the screen cursor being at cell `position`:
/// the hardware cursor goes to the corner and back.
pub open spec fn spinner_steps<H>(g: Option<char>, position: int) -> Seq<KernelStep<H>> {
    let drawn = match g {
        Some(c) => seq![KernelStep::<H>::Cell(CellWrite {
            offset: corner() as usize,
            value: vga::cell(c, vga::attr_spec(Colour::White, Colour::Black)),
        })],
        None => Seq::<KernelStep<H>>::empty(),
    };
    outs(vga::cursor_writes(corner())) + drawn + outs(vga::cursor_writes(position))
}

/// The calls of the timer handlers `handlers`, each with `ms`.
pub open spec fn timer_calls<H>(handlers: Seq<H>, ms: usize) -> Seq<KernelStep<H>> {
    handlers.map_values(|h: H| KernelStep::Call(TrapCall { handler: h, arg: ms }))
}

/// The writes of the machine bring-up: serial line, interrupt controllers,
/// timer, keyboard, and the unmasking of the timer and keyboard lines.
pub open spec fn mach_init_writes() -> Seq<PortWrite> {
    serial::config_writes(1, serial::line_control_spec(8, Parity::NoParity, 1))
        + pic::init_writes()
        + pit::init_writes(pit::BASE_FREQUENCY as int / TIMER_HZ as int)
        + seq![out(kb::KEYBOARD_CMD, kb::SET_SCANCODE_SET), out(kb::KEYBOARD_CMD, 1)]
        + seq![out(pic::PRIMARY_DATA, 0xFE), out(pic::PRIMARY_DATA, 0xFC)]
}

/// The kernel: machine layer, architecture layer, and the heap that thread
/// stacks come from.
pub struct Kernel<H> {
    pub mach: MachineState<H>,
    pub arch: ArchitectureState<H>,
    pub heap: Heap,
}

/// Turns controller steps into kernel steps.
fn expand_steps<H: Copy>(v: Vec<IrqStep<IrqTarget<H>>>) -> (r: Vec<KernelStep<H>>)
    ensures
        r@ == expand(v@),
{
    let mut r: Vec<KernelStep<H>> = Vec::new();
    let mut i: usize = 0;
    while i < v.len()
        invariant
            i <= v@.len(),
            r@ == expand(v@.take(i as int)),
        decreases v@.len() - i,
    {
        let k = match v[i] {
            IrqStep::Out(w) => KernelStep::Out(w),
            IrqStep::Report(d) => KernelStep::Report(d),
            IrqStep::Invoke { handler, line } => match handler {
                IrqTarget::Handler(h) => KernelStep::Call(TrapCall { handler: h, arg: line }),
                IrqTarget::Timer => KernelStep::Tick,
                IrqTarget::Keyboard => KernelStep::ReadKeyboard,
            },
        };
        r.push(k);
        proof {
            assert(v@.take(i + 1) =~= v@.take(i as int).push(v@[i as int]));
            assert(expand(v@.take(i + 1)) =~= expand(v@.take(i as int)).push(expand_step(v@[i as int])));
        }
        i = i + 1;
    }
    proof {
        assert(v@.take(v@.len() as int) =~= v@);
    }
    r
}

/// Appends port writes to `steps`.
fn push_outs<H>(steps: &mut Vec<KernelStep<H>>, w: Vec<PortWrite>)
    ensures
        final(steps)@ == old(steps)@ + outs::<H>(w@),
{
    let ghost before = steps@;
    let mut i: usize = 0;
    while i < w.len()
        invariant
            i <= w@.len(),
            steps@ == before + outs::<H>(w@.take(i as int)),
        decreases w@.len() - i,
    {
        steps.push(KernelStep::Out(w[i]));
        proof {
            assert(w@.take(i + 1) =~= w@.take(i as int).push(w@[i as int]));
            assert(outs::<H>(w@.take(i + 1)) =~= outs::<H>(w@.take(i as int)).push(KernelStep::Out(w@[i as int])));
        }
        i = i + 1;
    }
    proof {
        assert(w@.take(w@.len() as int) =~= w@);
    }
}

/// Appends the steps `b` to `a`.
fn append_steps<H>(a: &mut Vec<KernelStep<H>>, b: Vec<KernelStep<H>>)
    ensures
        final(a)@ == old(a)@ + b@,
{
    let mut b = b;
    a.append(&mut b);
}

/// Appends `b` to `a`.
fn append_writes(a: &mut Vec<PortWrite>, b: Vec<PortWrite>)
    ensures
        final(a)@ == old(a)@ + b@,
{
    let ghost before = a@;
    let mut i: usize = 0;
    while i < b.len()
        invariant
            i <= b@.len(),
            a@ == before + b@.take(i as int),
        decreases b@.len() - i,
    {
        a.push(b[i]);
        proof {
            assert(b@.take(i + 1) =~= b@.take(i as int).push(b@[i as int]));
        }
        i = i + 1;
    }
    proof {
        assert(b@.take(b@.len() as int) =~= b@);
    }
}

impl<H: Copy> Kernel<H> {
    pub open spec fn wf(&self) -> bool {
        self.mach.wf() && self.arch.wf()
    }

    /// The handler table of the trap dispatcher.
    pub open spec fn traps(&self) -> Seq<Option<TrapTarget<H>>> {
        self.arch.state.idt.view()
    }

    /// The interrupt controller.
    pub open spec fn pic(&self) -> pic::Pic<IrqTarget<H>> {
        self.mach.state.irq_ctlr
    }

    /// A kernel whose layers are not yet brought up.
    pub fn new() -> (r: Kernel<H>)
        ensures
            r.wf(),
            !r.arch.initialised && !r.mach.initialised,
            forall|v: int| 0 <= v < IDT_ENTRIES ==> #[trigger] r.traps()[v] == None::<TrapTarget<H>>,
            forall|n: int| 0 <= n < IRQ_COUNT ==> #[trigger] r.pic().irqhandlers@[n] is None,
            r.pic().active_irqs == 0,
            r.arch.state.threads.model() == (Seq::<sched::Thread>::empty(), None::<sched::Thread>, false),
            r.mach.state.timer_handlers@.len() == 0,
            r.heap.heap_base == crate::mem::HEAP_START,
    {
        Kernel { mach: mach::create(), arch: arch::create(), heap: Heap::new() }
    }

    /// The architecture layer.
    pub fn architecture(&self) -> (r: &ArchitectureState<H>)
        ensures
            *r == self.arch,
    {
        &self.arch
    }

    /// The architecture layer, for changes.
    pub fn architecture_mut(&mut self) -> (r: &mut ArchitectureState<H>)
        ensures
            *r == old(self).arch,
            final(self).arch == *final(r),
            final(self).mach == old(self).mach,
            final(self).heap == old(self).heap,
    {
        &mut self.arch
    }

    /// The machine layer.
    pub fn machine(&self) -> (r: &MachineState<H>)
        ensures
            *r == self.mach,
    {
        &self.mach
    }

    /// The machine layer, for changes.
    pub fn machine_mut(&mut self) -> (r: &mut MachineState<H>)
        ensures
            *r == old(self).mach,
            final(self).mach == *final(r),
            final(self).arch == old(self).arch,
            final(self).heap == old(self).heap,
    {
        &mut self.mach
    }

    /// Brings up the CPU side: the flat segment table (thread-local segment
    /// at `tls_base`), every interrupt descriptor pointing at its entry stub from
    /// `stub_base`, and the page fault routed to the bus-error handler.
    /// The caller loads the tables (`Gdt::image`, `IdtTable::image`).
    pub fn arch_initialise(&mut self, tls_base: u32, stub_base: u32) -> (r: bool)
        requires
            old(self).wf(),
            stub_base as int + (IDT_ENTRIES - 1) * ISR_STUB_LENGTH <= u32::MAX,
        ensures
            r,
            final(self).wf(),
            final(self).arch.initialised,
            forall|i: int| 0 <= i < 6 ==> #[trigger] final(self).arch.state.gdt.entries()[i] == boot_layout(tls_base)[i],
            forall|i: int| 6 <= i < GDT_ENTRIES ==> (#[trigger] final(self).arch.state.gdt.entries()[i]).is_null(),
            forall|i: int| 0 <= i < IDT_ENTRIES ==> #[trigger] final(self).arch.state.idt_table.table@[i] == stub_entry(stub_base, i),
            final(self).traps() == old(self).traps().update(PAGE_FAULT_VECTOR as int, Some(TrapTarget::BusError)),
            final(self).arch.state.threads == old(self).arch.state.threads,
            final(self).mach == old(self).mach,
            final(self).heap == old(self).heap,
    {
        self.arch.state.gdt = setup_gdt(tls_base);
        self.arch.state.idt_table.init(stub_base);
        self.arch.state.idt.register(PAGE_FAULT_VECTOR, TrapTarget::BusError);
        self.arch.initialised = true;
        self.arch.initialised
    }

    /// Registers `handler` on vector `num`, replacing what was there.
    pub fn register_trap(&mut self, num: usize, handler: H)
        requires
            old(self).wf(),
            num < IDT_ENTRIES,
        ensures
            final(self).wf(),
            final(self).traps() == old(self).traps().update(num as int, Some(TrapTarget::Handler(handler))),
            final(self).mach == old(self).mach,
            final(self).heap == old(self).heap,
            final(self).arch.initialised == old(self).arch.initialised,
    {
        self.arch.state.idt.register(num, TrapTarget::Handler(handler));
    }

    /// What a trap on vector `which` does (see `trap_action`).
    pub fn trap(&self, which: usize) -> (r: TrapAction<H>)
        requires
            self.wf(),
            which < IDT_ENTRIES,
        ensures
            r == trap_action(self.traps(), which as int),
    {
        match self.arch.state.idt.trap(which) {
            None => TrapAction::Nothing,
            Some(call) => match call.handler {
                TrapTarget::Handler(h) => TrapAction::Call(TrapCall { handler: h, arg: which }),
                TrapTarget::IrqStub => TrapAction::Irq,
                TrapTarget::BusError => TrapAction::BusError,
            },
        }
    }

    /// Reprograms the interrupt controllers (see `Pic::init`) and spawns the
    /// interrupt-servicing thread, which starts in `trampoline` with
    /// `entry` and `data` (see `spawn`): the trap path only marks a line
    /// pending and masks it, and that thread runs `service_irqs` each time
    /// it is scheduled.
    pub fn init_irqs(&mut self, trampoline: u32, entry: u32, data: u32) -> (r: Vec<PortWrite>)
        requires
            old(self).wf(),
            align_up(old(self).heap.heap_base, STACK_ALIGN as usize) + 2 * STACK_SIZE <= u32::MAX,
        ensures
            final(self).wf(),
            r@ == pic::init_writes(),
            final(self).pic().irqhandlers@ == old(self).pic().irqhandlers@,
            final(self).pic().active_irqs == old(self).pic().active_irqs,
            final(self).pic().primary_mask == 0xFF && final(self).pic().secondary_mask == 0xFF,
            final(self).mach.state.timer == old(self).mach.state.timer,
            final(self).mach.initialised == old(self).mach.initialised,
            final(self).mach.state.keyboard == old(self).mach.state.keyboard,
            final(self).mach.state.screen == old(self).mach.state.screen,
            final(self).mach.state.timer_handlers == old(self).mach.state.timer_handlers,
            final(self).heap.heap_base == align_up(old(self).heap.heap_base, STACK_ALIGN as usize) + STACK_SIZE,
            final(self).arch.state.threads.model() == sched::spawn_model(old(self).arch.state.threads.model(),
                sched::new_thread(trampoline, entry, data,
                    align_up(old(self).heap.heap_base, STACK_ALIGN as usize) as u32)),
            final(self).arch.initialised == old(self).arch.initialised,
            final(self).arch.state.idt == old(self).arch.state.idt,
            final(self).arch.state.gdt == old(self).arch.state.gdt,
            final(self).arch.state.idt_table == old(self).arch.state.idt_table,
    {
        let w = self.mach.state.irq_ctlr.init();
        self.spawn(trampoline, entry, data);
        w
    }

    /// Unmasks `irq` (see `Pic::enable`).
    pub fn enable_irq(&mut self, irq: usize) -> (r: PortWrite)
        requires
            old(self).wf(),
            irq < IRQ_COUNT,
        ensures
            final(self).wf(),
            final(self).pic().irqhandlers@ == old(self).pic().irqhandlers@,
            (final(self).pic().primary_mask, final(self).pic().secondary_mask)
                == pic::unmask((old(self).pic().primary_mask, old(self).pic().secondary_mask), irq as int),
            r == pic::mask_write((final(self).pic().primary_mask, final(self).pic().secondary_mask), irq as int),
            final(self).arch == old(self).arch,
    {
        self.mach.state.irq_ctlr.enable(irq)
    }

    /// Masks `irq` (see `Pic::disable`).
    pub fn disable_irq(&mut self, irq: usize) -> (r: PortWrite)
        requires
            old(self).wf(),
            irq < IRQ_COUNT,
        ensures
            final(self).wf(),
            final(self).pic().irqhandlers@ == old(self).pic().irqhandlers@,
            (final(self).pic().primary_mask, final(self).pic().secondary_mask)
                == pic::mask_after_disable((old(self).pic().primary_mask, old(self).pic().secondary_mask), irq as int),
            r == pic::mask_write((final(self).pic().primary_mask, final(self).pic().secondary_mask), irq as int),
            final(self).arch == old(self).arch,
    {
        self.mach.state.irq_ctlr.disable(irq)
    }

    /// The writes that acknowledge `irq`.
    pub fn eoi(&self, irq: usize) -> (r: Vec<PortWrite>)
        ensures
            r@ == pic::eoi_writes(irq as int),
    {
        pic::Pic::<IrqTarget<H>>::eoi(irq)
    }

    /// Routes line `irq` to `target`: stores it in the controller, sends
    /// the line's vector to the demultiplexer, and unmasks the line.
    fn route(&mut self, irq: usize, target: IrqTarget<H>, level: bool) -> (r: PortWrite)
        requires
            old(self).wf(),
            irq < IRQ_COUNT,
        ensures
            final(self).wf(),
            final(self).pic().irqhandlers@ == old(self).pic().irqhandlers@.update(irq as int,
                Some(pic::PicIrqHandler { f: target, level })),
            final(self).pic().active_irqs == old(self).pic().active_irqs,
            (final(self).pic().primary_mask, final(self).pic().secondary_mask)
                == pic::unmask((old(self).pic().primary_mask, old(self).pic().secondary_mask), irq as int),
            r == pic::mask_write((final(self).pic().primary_mask, final(self).pic().secondary_mask), irq as int),
            final(self).traps() == old(self).traps().update(REMAP_BASE + irq, Some(TrapTarget::IrqStub)),
            final(self).arch.initialised == old(self).arch.initialised,
            final(self).arch.state.threads == old(self).arch.state.threads,
            final(self).arch.state.gdt == old(self).arch.state.gdt,
            final(self).arch.state.idt_table == old(self).arch.state.idt_table,
            final(self).mach.initialised == old(self).mach.initialised,
            final(self).mach.state.timer == old(self).mach.state.timer,
            final(self).mach.state.keyboard == old(self).mach.state.keyboard,
            final(self).mach.state.screen == old(self).mach.state.screen,
            final(self).mach.state.timer_handlers == old(self).mach.state.timer_handlers,
            final(self).heap == old(self).heap,
    {
        self.mach.state.irq_ctlr.register(irq, target, level);
        self.arch.state.idt.register(REMAP_BASE + irq, TrapTarget::IrqStub);
        self.mach.state.irq_ctlr.enable(irq)
    }

    /// Registers `handler` on line `irq` (level- or edge-triggered) and
    /// unmasks the line; returns the write that unmasks it.
    pub fn register_irq(&mut self, irq: usize, handler: H, level_trigger: bool) -> (r: PortWrite)
        requires
            old(self).wf(),
            irq < IRQ_COUNT,
        ensures
            final(self).wf(),
            final(self).pic().irqhandlers@ == old(self).pic().irqhandlers@.update(irq as int,
                Some(pic::PicIrqHandler { f: IrqTarget::Handler(handler), level: level_trigger })),
            final(self).pic().active_irqs == old(self).pic().active_irqs,
            (final(self).pic().primary_mask, final(self).pic().secondary_mask)
                == pic::unmask((old(self).pic().primary_mask, old(self).pic().secondary_mask), irq as int),
            r == pic::mask_write((final(self).pic().primary_mask, final(self).pic().secondary_mask), irq as int),
            final(self).traps() == old(self).traps().update(REMAP_BASE + irq, Some(TrapTarget::IrqStub)),
            final(self).heap == old(self).heap,
    {
        self.route(irq, IrqTarget::Handler(handler), level_trigger)
    }

    /// Services a hardware interrupt on vector `which` in the interrupt
    /// context, given the combined in-service value (see `Pic::trap`).
    pub fn irq_trap(&self, which: usize, isr: u16) -> (r: Vec<KernelStep<H>>)
        requires
            self.wf(),
            REMAP_BASE <= which < REMAP_BASE + IRQ_COUNT,
        ensures
            r@ == expand(pic::trap_steps(self.pic().irqhandlers@, which - REMAP_BASE, isr)),
    {
        let steps = self.mach.state.irq_ctlr.trap(which, isr);
        expand_steps(steps)
    }

    /// Services a hardware interrupt on vector `which` in the deferred
    /// design (see `Pic::trap_deferred`).
    pub fn irq_trap_deferred(&mut self, which: usize, isr: u16) -> (r: Vec<KernelStep<H>>)
        requires
            old(self).wf(),
            REMAP_BASE <= which < REMAP_BASE + IRQ_COUNT,
        ensures
            final(self).wf(),
            final(self).pic().irqhandlers@ == old(self).pic().irqhandlers@,
            r@ == expand(pic::deferred_trap_steps(old(self).pic().irqhandlers@, which - REMAP_BASE, isr,
                pic::mask_write((final(self).pic().primary_mask, final(self).pic().secondary_mask), which - REMAP_BASE))),
            pic::defers(old(self).pic().irqhandlers@, which - REMAP_BASE, isr) ==>
                final(self).pic().active_irqs == old(self).pic().active_irqs | (1u16 << (which - REMAP_BASE) as u16)
                && (final(self).pic().primary_mask, final(self).pic().secondary_mask) == pic::mask_after_disable(
                    (old(self).pic().primary_mask, old(self).pic().secondary_mask), which - REMAP_BASE),
            !pic::defers(old(self).pic().irqhandlers@, which - REMAP_BASE, isr) ==>
                final(self).pic().active_irqs == old(self).pic().active_irqs
                && final(self).pic().primary_mask == old(self).pic().primary_mask
                && final(self).pic().secondary_mask == old(self).pic().secondary_mask,
            final(self).arch == old(self).arch,
    {
        let steps = self.mach.state.irq_ctlr.trap_deferred(which, isr);
        expand_steps(steps)
    }

    /// One pass of the interrupt-servicing thread (see `Pic::service_pending`).
    pub fn service_irqs(&mut self) -> (r: Vec<KernelStep<H>>)
        requires
            old(self).wf(),
        ensures
            final(self).wf(),
            final(self).pic().irqhandlers@ == old(self).pic().irqhandlers@,
            final(self).pic().active_irqs == 0,
            r@ == expand(pic::drain_steps(old(self).pic().irqhandlers@, old(self).pic().active_irqs,
                (old(self).pic().primary_mask, old(self).pic().secondary_mask), IRQ_COUNT as nat)),
            final(self).arch == old(self).arch,
    {
        let steps = self.mach.state.irq_ctlr.service_pending();
        expand_steps(steps)
    }

    /// Programs the timer to `freq` hertz (see `Pit::init`).
    pub fn init_timers(&mut self, freq: usize) -> (r: Vec<PortWrite>)
        requires
            old(self).wf(),
            freq > 0,
        ensures
            final(self).wf(),
            final(self).mach.state.timer.timer_hz == freq,
            final(self).mach.state.timer.ticks == 0,
            r@ == pit::init_writes(pit::BASE_FREQUENCY as int / freq as int),
            final(self).pic() == old(self).pic(),
            final(self).mach.initialised == old(self).mach.initialised,
            final(self).mach.state.keyboard == old(self).mach.state.keyboard,
            final(self).mach.state.screen == old(self).mach.state.screen,
            final(self).mach.state.timer_handlers == old(self).mach.state.timer_handlers,
            final(self).arch == old(self).arch,
            final(self).heap == old(self).heap,
    {
        self.mach.state.timer.init(freq)
    }

    /// Adds a handler that every timer interrupt calls with the elapsed
    /// milliseconds.
    pub fn register_timer(&mut self, f: H)
        requires
            old(self).wf(),
        ensures
            final(self).wf(),
            final(self).mach.state.timer_handlers@ == old(self).mach.state.timer_handlers@.push(f),
            final(self).pic() == old(self).pic(),
            final(self).arch == old(self).arch,
    {
        self.mach.state.timer_handlers.push(f);
    }

    /// The calls of every timer handler, in registration order, with `ms`.
    pub fn timer_fired(&self, ms: usize) -> (r: Vec<KernelStep<H>>)
        ensures
            r@ == timer_calls(self.mach.state.timer_handlers@, ms),
    {
        let hs = &self.mach.state.timer_handlers;
        let mut r: Vec<KernelStep<H>> = Vec::new();
        let mut i: usize = 0;
        while i < hs.len()
            invariant
                i <= hs@.len(),
                r@ == timer_calls(hs@.take(i as int), ms),
            decreases hs@.len() - i,
        {
            r.push(KernelStep::Call(TrapCall { handler: hs[i], arg: ms }));
            proof {
                assert(hs@.take(i + 1) =~= hs@.take(i as int).push(hs@[i as int]));
                assert(timer_calls(hs@.take(i + 1), ms) =~= timer_calls(hs@.take(i as int), ms).push(
                    KernelStep::Call(TrapCall { handler: hs@[i as int], arg: ms })));
            }
            i = i + 1;
        }
        proof {
            assert(hs@.take(hs@.len() as int) =~= hs@);
        }
        r
    }
    /// One timer interrupt: the timer advances (see `Pit::irq`), the glyph
    /// it yields, if any, is drawn in the bottom-right corner in white on
    /// black with the screen's cursor and colours saved and restored around
    /// it, and then every timer handler is called with the milliseconds of
    /// one tick.
    pub fn timer_tick(&mut self) -> (r: Vec<KernelStep<H>>)
        requires
            old(self).wf(),
            old(self).mach.state.timer.wf(),
        ensures
            final(self).wf(),
            final(self).mach.state.timer.wf(),
            final(self).mach.state.timer.timer_hz == old(self).mach.state.timer.timer_hz,
            final(self).mach.state.timer.ticks == pit::tick_ticks(old(self).mach.state.timer),
            final(self).mach.state.screen == (Vga {
                saved_x: old(self).mach.state.screen.x,
                saved_y: old(self).mach.state.screen.y,
                saved_fg: old(self).mach.state.screen.fg,
                saved_bg: old(self).mach.state.screen.bg,
                ..old(self).mach.state.screen
            }),
            r@ == spinner_steps::<H>(pit::tick_glyph(old(self).mach.state.timer),
                old(self).mach.state.screen.y * COLS + old(self).mach.state.screen.x)
                + timer_calls(old(self).mach.state.timer_handlers@, old(self).mach.state.timer.ms_spec() as usize),
            final(self).pic() == old(self).pic(),
            final(self).mach.state.keyboard == old(self).mach.state.keyboard,
            final(self).mach.state.timer_handlers == old(self).mach.state.timer_handlers,
            final(self).arch == old(self).arch,
            final(self).heap == old(self).heap,
    {
        let ms = self.mach.state.timer.ms_per_tick();
        let g = self.mach.state.timer.irq();
        let ghost position = self.mach.state.screen.y * COLS + self.mach.state.screen.x;
        let mut steps: Vec<KernelStep<H>> = Vec::new();
        self.mach.state.screen.save_cursor();
        self.mach.state.screen.save_attrib();
        let w = self.mach.state.screen.cursor(COLS - 1, ROWS - 1);
        push_outs(&mut steps, w);
        let ghost after_cursor = steps@;
        self.mach.state.screen.attrib(Colour::White, Colour::Black);
        match g {
            Some(c) => {
                proof {
                    assert(c == '|' || c == '/' || c == '-' || c == '\\');
                    assert('|' as u32 == 124 && '/' as u32 == 47 && '-' as u32 == 45 && '\\' as u32 == 92);
                }
                match self.mach.state.screen.write_char(c) {
                    Some(cell) => {
                        steps.push(KernelStep::Cell(cell));
                    },
                    None => {},
                }
            },
            None => {},
        }
        let ghost drawn = steps@.subrange(after_cursor.len() as int, steps@.len() as int);
        self.mach.state.screen.restore_attrib();
        let w2 = self.mach.state.screen.restore_cursor();
        let ghost before_restore = steps@;
        push_outs(&mut steps, w2);
        let calls = self.timer_fired(ms);
        let ghost before_calls = steps@;
        append_steps(&mut steps, calls);
        proof {
            let expect_drawn = match g {
                Some(c) => seq![KernelStep::<H>::Cell(CellWrite {
                    offset: corner() as usize,
                    value: vga::cell(c, vga::attr_spec(Colour::White, Colour::Black)),
                })],
                None => Seq::<KernelStep<H>>::empty(),
            };
            assert(before_restore =~= after_cursor + expect_drawn);
            assert(steps@ =~= spinner_steps::<H>(g, position) + timer_calls(self.mach.state.timer_handlers@, ms));
        }
        steps
    }

    /// A keyboard interrupt, given the status byte and the byte read after
    /// it (see `PS2Keyboard::irq`). A key's character goes to the screen
    /// with `screen_write_char`; LED bytes go to the keyboard.
    pub fn keyboard_irq(&mut self, status: u8, scancode: u8) -> (r: KeyEvent)
        requires
            old(self).wf(),
        ensures
            final(self).wf(),
            kb::irq_post(old(self).mach.state.keyboard, final(self).mach.state.keyboard, status, scancode, r),
            final(self).mach.state.screen == old(self).mach.state.screen,
            final(self).mach.state.timer == old(self).mach.state.timer,
            final(self).pic() == old(self).pic(),
            final(self).arch == old(self).arch,
    {
        self.mach.state.keyboard.irq(status, scancode)
    }

    /// Writes `c` at the screen cursor (see `Vga::write_char`).
    pub fn screen_write_char(&mut self, c: char) -> (r: Option<CellWrite>)
        requires
            old(self).wf(),
        ensures
            final(self).wf(),
            ({
                let s0 = old(self).mach.state.screen;
                let s1 = final(self).mach.state.screen;
                &&& (s1.x as int, s1.y as int) == vga::put_pos(s0.x as int, s0.y as int, c)
                &&& s1 == (Vga { x: s1.x, y: s1.y, ..s0 })
                &&& vga::draws(c) ==> r == Some(CellWrite {
                    offset: (s0.y * COLS + s0.x) as usize,
                    value: vga::cell(vga::safe_char_spec(c), vga::attr_spec(s0.fg, s0.bg)),
                })
                &&& !vga::draws(c) ==> r is None
            }),
            final(self).mach.state.keyboard == old(self).mach.state.keyboard,
            final(self).mach.state.timer == old(self).mach.state.timer,
            final(self).pic() == old(self).pic(),
            final(self).arch == old(self).arch,
    {
        self.mach.state.screen.write_char(c)
    }

    /// Brings up the machine: serial line at 115200 baud 8N1, interrupt
    /// controllers remapped and masked with the interrupt-servicing thread
    /// spawned (see `init_irqs`), timer at `TIMER_HZ`, keyboard in scan code
    /// set 1, then the timer and keyboard lines registered (level-triggered)
    /// and unmasked. Returns every port write, in order.
    pub fn mach_initialise(&mut self, trampoline: u32, entry: u32, data: u32) -> (r: Vec<PortWrite>)
        requires
            old(self).wf(),
            align_up(old(self).heap.heap_base, STACK_ALIGN as usize) + 2 * STACK_SIZE <= u32::MAX,
        ensures
            final(self).wf(),
            final(self).mach.initialised,
            r@ == mach_init_writes(),
            final(self).mach.state.timer.timer_hz == TIMER_HZ,
            final(self).mach.state.timer.ticks == 0,
            final(self).pic().irqhandlers@ == old(self).pic().irqhandlers@
                .update(pit::TIMER_IRQ as int, Some(pic::PicIrqHandler { f: IrqTarget::Timer, level: true }))
                .update(kb::KEYBOARD_IRQ as int, Some(pic::PicIrqHandler { f: IrqTarget::Keyboard, level: true })),
            final(self).pic().primary_mask == 0xFC,
            final(self).pic().secondary_mask == 0xFF,
            final(self).pic().active_irqs == old(self).pic().active_irqs,
            final(self).traps() == old(self).traps()
                .update(REMAP_BASE + pit::TIMER_IRQ, Some(TrapTarget::IrqStub))
                .update(REMAP_BASE + kb::KEYBOARD_IRQ, Some(TrapTarget::IrqStub)),
            final(self).arch.initialised == old(self).arch.initialised,
            final(self).arch.state.threads.model() == sched::spawn_model(old(self).arch.state.threads.model(),
                sched::new_thread(trampoline, entry, data,
                    align_up(old(self).heap.heap_base, STACK_ALIGN as usize) as u32)),
            final(self).arch.state.gdt == old(self).arch.state.gdt,
            final(self).arch.state.idt_table == old(self).arch.state.idt_table,
            final(self).mach.state.screen == old(self).mach.state.screen,
            final(self).mach.state.timer_handlers == old(self).mach.state.timer_handlers,
            final(self).heap.heap_base == align_up(old(self).heap.heap_base, STACK_ALIGN as usize) + STACK_SIZE,
    {
        let mut w = serial::serial_config(SERIAL_BAUD, 8, Parity::NoParity, 1);
        let pic_writes = self.init_irqs(trampoline, entry, data);
        append_writes(&mut w, pic_writes);
        let pit_writes = self.init_timers(TIMER_HZ);
        append_writes(&mut w, pit_writes);
        let kb_writes = PS2Keyboard::init();
        append_writes(&mut w, kb_writes);
        let t = self.route(Pit::irq_num(), IrqTarget::Timer, true);
        w.push(t);
        let k = self.route(PS2Keyboard::irq_num(), IrqTarget::Keyboard, true);
        w.push(k);
        self.mach.state.screen.init();
        self.mach.initialised = true;
        proof {
            assert(0xFFu8 & !(1u8 << 0u8) == 0xFEu8) by (bit_vector);
            assert(0xFEu8 & !(1u8 << 1u8) == 0xFCu8) by (bit_vector);
            assert(w@ =~= mach_init_writes());
        }
        w
    }

    /// Creates the kernel and brings up both layers (see `arch_initialise`
    /// and `mach_initialise`, the interrupt-servicing thread starting in
    /// `trampoline` with `irq_entry` and `irq_data`); returns it with the
    /// machine's port writes. Interrupts stay disabled: the caller enables
    /// them once the writes are done.
    pub fn boot(tls_base: u32, stub_base: u32, trampoline: u32, irq_entry: u32, irq_data: u32) -> (r: (Kernel<H>, Vec<PortWrite>))
        requires
            stub_base as int + (IDT_ENTRIES - 1) * ISR_STUB_LENGTH <= u32::MAX,
        ensures
            r.0.wf(),
            r.0.arch.initialised && r.0.mach.initialised,
            r.1@ == mach_init_writes(),
            forall|i: int| 0 <= i < 6 ==> #[trigger] r.0.arch.state.gdt.entries()[i] == boot_layout(tls_base)[i],
            forall|i: int| 0 <= i < IDT_ENTRIES ==> #[trigger] r.0.arch.state.idt_table.table@[i] == stub_entry(stub_base, i),
            forall|v: int| 0 <= v < IDT_ENTRIES ==> #[trigger] r.0.traps()[v] == (if v == PAGE_FAULT_VECTOR {
                Some(TrapTarget::<H>::BusError)
            } else if v == REMAP_BASE + pit::TIMER_IRQ || v == REMAP_BASE + kb::KEYBOARD_IRQ {
                Some(TrapTarget::<H>::IrqStub)
            } else {
                None
            }),
            forall|n: int| 0 <= n < IRQ_COUNT ==> #[trigger] r.0.pic().irqhandlers@[n] == (if n == pit::TIMER_IRQ {
                Some(pic::PicIrqHandler { f: IrqTarget::<H>::Timer, level: true })
            } else if n == kb::KEYBOARD_IRQ {
                Some(pic::PicIrqHandler { f: IrqTarget::<H>::Keyboard, level: true })
            } else {
                None
            }),
            r.0.pic().primary_mask == 0xFC && r.0.pic().secondary_mask == 0xFF,
            r.0.pic().active_irqs == 0,
            r.0.mach.state.timer.timer_hz == TIMER_HZ && r.0.mach.state.timer.ticks == 0,
            r.0.mach.state.timer_handlers@.len() == 0,
            r.0.arch.state.threads.model() == (
                seq![sched::new_thread(trampoline, irq_entry, irq_data, crate::mem::HEAP_START as u32)],
                None::<sched::Thread>,
                false,
            ),
            r.0.heap.heap_base == crate::mem::HEAP_START + STACK_SIZE,
    {
        let mut k = Kernel::new();
        k.arch_initialise(tls_base, stub_base);
        proof {
            assert(crate::mem::HEAP_START & ((STACK_ALIGN as usize - 1) as usize) == 0) by (bit_vector)
                requires crate::mem::HEAP_START == 0x20_0000usize, STACK_ALIGN == 16u32;
            assert(seq![sched::new_thread(trampoline, irq_entry, irq_data, crate::mem::HEAP_START as u32)]
                + Seq::<sched::Thread>::empty() =~= seq![sched::new_thread(trampoline, irq_entry, irq_data,
                crate::mem::HEAP_START as u32)]);
        }
        let w = k.mach_initialise(trampoline, irq_entry, irq_data);
        (k, w)
    }

    /// Spawns a thread that starts in `trampoline` with `entry` and `data`
    /// (see `Scheduler::spawn_thread`), on a fresh stack from the heap;
    /// returns the stack's address. The caller reschedules to let it run.
    pub fn spawn(&mut self, trampoline: u32, entry: u32, data: u32) -> (r: u32)
        requires
            align_up(old(self).heap.heap_base, STACK_ALIGN as usize) + 2 * STACK_SIZE <= u32::MAX,
        ensures
            r as int == align_up(old(self).heap.heap_base, STACK_ALIGN as usize),
            final(self).heap.heap_base == r + STACK_SIZE,
            final(self).arch.state.threads.model() == sched::spawn_model(old(self).arch.state.threads.model(),
                sched::new_thread(trampoline, entry, data, r)),
            final(self).arch.initialised == old(self).arch.initialised,
            final(self).arch.state.idt == old(self).arch.state.idt,
            final(self).arch.state.gdt == old(self).arch.state.gdt,
            final(self).arch.state.idt_table == old(self).arch.state.idt_table,
            final(self).mach == old(self).mach,
    {
        let stack = self.heap.direct_alloc(STACK_SIZE as usize, STACK_ALIGN as usize);
        self.arch.state.threads.spawn_thread(trampoline, entry, data, stack as u32);
        stack as u32
    }

    /// Whether the heap still has room for a thread stack below 4 GiB, that
    /// is, whether `spawn` may be called.
    pub fn can_spawn(&self) -> (r: bool)
        ensures
            r == (align_up(self.heap.heap_base, STACK_ALIGN as usize) + 2 * STACK_SIZE <= u32::MAX),
    {
        let base = self.heap.heap_base;
        if base > (u32::MAX - 2 * STACK_SIZE) as usize {
            return false;
        }
        let mut actual = base;
        if actual & (STACK_ALIGN as usize - 1) != 0 {
            actual = actual + (STACK_ALIGN as usize - actual % STACK_ALIGN as usize);
        }
        actual <= (u32::MAX - 2 * STACK_SIZE) as usize
    }

    /// Whether the next reschedule suspends the running thread.
    pub fn needs_save(&self) -> (r: bool)
        ensures
            r == sched::suspends(self.arch.state.threads.model()),
    {
        self.arch.state.threads.needs_save()
    }

    /// Switches threads (see `Scheduler::reschedule`).
    pub fn reschedule(&mut self, saved: Option<ThreadState>) -> (r: Option<ThreadState>)
        ensures
            final(self).arch.state.threads.model() == sched::resched_model(old(self).arch.state.threads.model(), saved),
            old(self).arch.state.threads.model().0.len() == 0 <==> r is None,
            r is Some ==> final(self).arch.state.threads.running_thread is Some
                && r->Some_0 == final(self).arch.state.threads.running_thread->Some_0.exec_state,
            final(self).arch.initialised == old(self).arch.initialised,
            final(self).arch.state.idt == old(self).arch.state.idt,
            final(self).mach == old(self).mach,
            final(self).heap == old(self).heap,
    {
        self.arch.state.threads.reschedule(saved)
    }

    /// Marks the running thread as terminated (see
    /// `Scheduler::thread_terminate`); the caller then parks it.
    pub fn thread_terminate(&mut self)
        ensures
            final(self).arch.state.threads.ready_threads@ == old(self).arch.state.threads.ready_threads@,
            final(self).arch.state.threads.alive == old(self).arch.state.threads.alive,
            old(self).arch.state.threads.running_thread is None ==> final(self).arch.state.threads.running_thread is None,
            old(self).arch.state.threads.running_thread is Some ==> final(self).arch.state.threads.running_thread == Some(sched::Thread {
                exec_state: old(self).arch.state.threads.running_thread->Some_0.exec_state,
                is_alive: false,
            }),
            final(self).mach == old(self).mach,
            final(self).heap == old(self).heap,
    {
        self.arch.state.threads.thread_terminate()
    }
}

} // verus!
