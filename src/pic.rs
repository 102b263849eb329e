//! The two cascaded interrupt controllers: remapping, masking,
//! acknowledgement, and the servicing of a trap, in the interrupt context or
//! deferred to a servicing thread.
use vstd::prelude::*;
use crate::port::{PortWrite, out};

verus! {

/// First vector that the sixteen hardware lines are remapped to, just past
/// the CPU's reserved exception vectors.
pub const REMAP_BASE: usize = 0x20;

/// Number of hardware interrupt lines of the two cascaded controllers.
pub const IRQ_COUNT: usize = 16;

pub const PRIMARY_COMMAND: u16 = 0x20;
pub const PRIMARY_DATA: u16 = 0x21;
pub const SECONDARY_COMMAND: u16 = 0xA0;
pub const SECONDARY_DATA: u16 = 0xA1;

/// Command byte that acknowledges the interrupt in service.
pub const EOI_COMMAND: u8 = 0x20;

/// Command byte that selects the in-service register for the next read.
pub const READ_ISR_COMMAND: u8 = 0x0B;

/// What the controller logic reports on its diagnostic sink.
#[derive(Clone, Copy, PartialEq, Eq, Structural, Debug)]
pub enum Diagnostic {
    SpuriousIrq7,
    SpuriousIrq15,
    NoInterruptStatus,
    UnhandledIrq,
}

impl Diagnostic {
    /// The line written to the serial port for this report.
    pub fn message(&self) -> (r: &'static str)
        ensures
            *self == Diagnostic::SpuriousIrq7 ==> r@ == "spurious IRQ 7\n"@,
            *self == Diagnostic::SpuriousIrq15 ==> r@ == "spurious IRQ 15\n"@,
            *self == Diagnostic::NoInterruptStatus ==> r@ == "IRQ stub called with no interrupt status\n"@,
            *self == Diagnostic::UnhandledIrq ==> r@ == "Unhandled IRQ\n"@,
    {
        match self {
            Diagnostic::SpuriousIrq7 => "spurious IRQ 7\n",
            Diagnostic::SpuriousIrq15 => "spurious IRQ 15\n",
            Diagnostic::NoInterruptStatus => "IRQ stub called with no interrupt status\n",
            Diagnostic::UnhandledIrq => "Unhandled IRQ\n",
        }
    }
}

/// A handler registered on a line, and whether the line is level-triggered.
#[derive(Clone, Copy, PartialEq, Eq, Debug)]
pub struct PicIrqHandler<H> {
    pub f: H,
    pub level: bool,
}

/// One step of servicing an interrupt, in the order it must be performed.
#[derive(Clone, Copy, PartialEq, Eq, Debug)]
pub enum IrqStep<H> {
    /// Write a byte to a controller port.
    Out(PortWrite),
    /// Invoke a line's handler with the line number.
    Invoke { handler: H, line: usize },
    /// Emit a diagnostic on the serial port.
    Report(Diagnostic),
}

/// The two cascaded controllers: the handler of each line, a copy of both
/// mask registers (bit `n` set: line `n` masked; the primary holds lines 0
/// to 7, the secondary 8 to 15), and the lines whose interrupt fired and
/// waits for its handler.
pub struct Pic<H> {
    pub irqhandlers: Vec<Option<PicIrqHandler<H>>>,
    pub primary_mask: u8,
    pub secondary_mask: u8,
    pub active_irqs: u16,
}

/// Bit `k` of `b`.
pub open spec fn bit8(b: u8, k: u8) -> bool {
    (b >> k) & 1u8 == 1u8
}

/// Whether line `line` has its bit set in the combined in-service value.
pub open spec fn isr_set(isr: u16, line: u16) -> bool {
    isr & (1u16 << line) != 0u16
}

/// The writes that acknowledge `line`: the secondary controller first when
/// the line is one of its own, then always the primary.
pub open spec fn eoi_writes(line: int) -> Seq<PortWrite> {
    if line > 7 {
        seq![out(SECONDARY_COMMAND, EOI_COMMAND), out(PRIMARY_COMMAND, EOI_COMMAND)]
    } else {
        seq![out(PRIMARY_COMMAND, EOI_COMMAND)]
    }
}

/// The acknowledgement of `line` as steps.
pub open spec fn eoi_steps<H>(line: int) -> Seq<IrqStep<H>> {
    eoi_writes(line).map_values(|w: PortWrite| IrqStep::<H>::Out(w))
}

/// The steps that run a line's handler: an edge-triggered line is
/// acknowledged before its handler runs, a level-triggered one after.
pub open spec fn handler_steps<H>(h: PicIrqHandler<H>, line: int) -> Seq<IrqStep<H>> {
    let call = seq![IrqStep::Invoke { handler: h.f, line: line as usize }];
    if h.level {
        call + eoi_steps(line)
    } else {
        eoi_steps(line) + call
    }
}

/// What a trap on line `line` does before any handler is looked up, given
/// the in-service value `isr`: `Some(steps)` when it stops there.
pub open spec fn screen_steps<H>(line: int, isr: u16) -> Option<Seq<IrqStep<H>>> {
    if line == 7 && !isr_set(isr, 7) {
        Some(seq![IrqStep::Report(Diagnostic::SpuriousIrq7)])
    } else if line == 15 && !isr_set(isr, 15) {
        Some(seq![IrqStep::Report(Diagnostic::SpuriousIrq15)] + eoi_steps(7))
    } else if !isr_set(isr, line as u16) {
        Some(seq![IrqStep::Report(Diagnostic::NoInterruptStatus)])
    } else {
        None
    }
}

/// The steps of a trap on `line` handled in the interrupt context.
pub open spec fn trap_steps<H>(handlers: Seq<Option<PicIrqHandler<H>>>, line: int, isr: u16) -> Seq<IrqStep<H>> {
    match screen_steps::<H>(line, isr) {
        Some(s) => s,
        None => match handlers[line] {
            Some(h) => handler_steps(h, line),
            None => seq![IrqStep::Report(Diagnostic::UnhandledIrq)] + eoi_steps(line),
        },
    }
}

/// The eight writes that remap the lines to `REMAP_BASE` and cascade the
/// secondary controller, then the two writes that mask every line.
pub open spec fn init_writes() -> Seq<PortWrite> {
    seq![
        out(PRIMARY_COMMAND, 0x11),
        out(SECONDARY_COMMAND, 0x11),
        out(PRIMARY_DATA, REMAP_BASE as u8),
        out(SECONDARY_DATA, (REMAP_BASE + 8) as u8),
        out(PRIMARY_DATA, 0x04),
        out(SECONDARY_DATA, 0x02),
        out(PRIMARY_DATA, 0x01),
        out(SECONDARY_DATA, 0x01),
        out(PRIMARY_DATA, 0xFF),
        out(SECONDARY_DATA, 0xFF),
    ]
}

/// Whether the deferred trap of `line` leaves work for the servicing thread:
/// the line passed the in-service screening and has a handler.
pub open spec fn defers<H>(handlers: Seq<Option<PicIrqHandler<H>>>, line: int, isr: u16) -> bool {
    screen_steps::<H>(line, isr) is None && handlers[line] is Some
}

/// The steps of a trap on `line` in the deferred design, where `mask_write`
/// is the write that masks the line: a line with a handler is only masked
/// (its handler runs later, from the servicing thread); the other outcomes
/// are those of `trap_steps`.
pub open spec fn deferred_trap_steps<H>(
    handlers: Seq<Option<PicIrqHandler<H>>>,
    line: int,
    isr: u16,
    mask_write: PortWrite,
) -> Seq<IrqStep<H>> {
    if defers(handlers, line, isr) {
        seq![IrqStep::Out(mask_write)]
    } else {
        trap_steps(handlers, line, isr)
    }
}

/// The two mask bytes with `line` masked.
pub open spec fn mask_after_disable(masks: (u8, u8), line: int) -> (u8, u8) {
    if line > 7 {
        (masks.0, masks.1 | (1u8 << (line - 8) as u8))
    } else {
        (masks.0 | (1u8 << line as u8), masks.1)
    }
}

/// The two mask bytes with `line` unmasked.
pub open spec fn unmask(masks: (u8, u8), line: int) -> (u8, u8) {
    if line > 7 {
        (masks.0, masks.1 & !(1u8 << (line - 8) as u8))
    } else {
        (masks.0 & !(1u8 << line as u8), masks.1)
    }
}

/// The write that hands the mask byte of `line`'s controller to it.
pub open spec fn mask_write(masks: (u8, u8), line: int) -> PortWrite {
    if line > 7 {
        out(SECONDARY_DATA, masks.1)
    } else {
        out(PRIMARY_DATA, masks.0)
    }
}

/// Whether the servicing pass runs line `line` for the pending set `pending`.
pub open spec fn serviced<H>(handlers: Seq<Option<PicIrqHandler<H>>>, pending: u16, line: int) -> bool {
    isr_set(pending, line as u16) && handlers[line] is Some
}

/// The mask bytes after the servicing pass has handled lines `0..n`.
pub open spec fn drain_masks<H>(
    handlers: Seq<Option<PicIrqHandler<H>>>,
    pending: u16,
    masks: (u8, u8),
    n: nat,
) -> (u8, u8)
    decreases n,
{
    if n == 0 {
        masks
    } else {
        let before = drain_masks(handlers, pending, masks, (n - 1) as nat);
        if serviced(handlers, pending, n - 1) {
            unmask(before, n - 1)
        } else {
            before
        }
    }
}

/// The steps of the servicing pass over lines `0..n`, in ascending line
/// order: for each pending line with a handler, the handler with its
/// acknowledgement, then the write that unmasks the line.
pub open spec fn drain_steps<H>(
    handlers: Seq<Option<PicIrqHandler<H>>>,
    pending: u16,
    masks: (u8, u8),
    n: nat,
) -> Seq<IrqStep<H>>
    decreases n,
{
    if n == 0 {
        seq![]
    } else {
        let before = drain_steps(handlers, pending, masks, (n - 1) as nat);
        if serviced(handlers, pending, n - 1) {
            before + handler_steps(handlers[n - 1]->Some_0, n - 1) + seq![
                IrqStep::Out(mask_write(drain_masks(handlers, pending, masks, n), n - 1)),
            ]
        } else {
            before
        }
    }
}

/// Whether `line` is masked in the two mask bytes.
pub open spec fn line_masked(masks: (u8, u8), line: int) -> bool {
    if line < 8 {
        bit8(masks.0, line as u8)
    } else {
        bit8(masks.1, (line - 8) as u8)
    }
}

proof fn lemma_bit_set_clear(m: u8, k: u8, j: u8)
    by (bit_vector)
    requires
        k < 8,
        j < 8,
    ensures
        (m | (1u8 << k)) & !(1u8 << k) == m & !(1u8 << k),
        (m >> k) & 1u8 != 1u8 ==> m & !(1u8 << k) == m,
        j != k ==> ((m & !(1u8 << k)) >> j) & 1u8 == (m >> j) & 1u8,
        j != k ==> ((m | (1u8 << k)) >> j) & 1u8 == (m >> j) & 1u8,
        ((m & !(1u8 << k)) >> k) & 1u8 == 0u8,
        ((m | (1u8 << k)) >> k) & 1u8 == 1u8,
{
}

/// Masking a line and unmasking it again leaves every other line's mask bit
/// as it was, and leaves the line unmasked; so on a line that was unmasked
/// the two mask registers come back exactly as they were.
pub proof fn lemma_disable_enable_round_trip(masks: (u8, u8), line: int, other: int)
    requires
        0 <= line < IRQ_COUNT,
        0 <= other < IRQ_COUNT,
    ensures
        other != line ==> line_masked(unmask(mask_after_disable(masks, line), line), other) == line_masked(masks, other),
        !line_masked(unmask(mask_after_disable(masks, line), line), line),
        !line_masked(masks, line) ==> unmask(mask_after_disable(masks, line), line) == masks,
{
    if line > 7 {
        lemma_bit_set_clear(masks.1, (line - 8) as u8, ((other - 8) % 8) as u8);
        lemma_bit_set_clear(masks.1 | (1u8 << (line - 8) as u8), (line - 8) as u8, ((other - 8) % 8) as u8);
    } else {
        lemma_bit_set_clear(masks.0, line as u8, (other % 8) as u8);
        lemma_bit_set_clear(masks.0 | (1u8 << line as u8), line as u8, (other % 8) as u8);
    }
}

/// On a line of the secondary controller every trap that reaches the
/// acknowledgement sends it to the secondary controller and then to the
/// primary, in that order, with nothing in between; the same holds of each
/// handler run by the servicing thread, whose steps are `handler_steps`.
pub proof fn lemma_secondary_eoi_first<H>(handlers: Seq<Option<PicIrqHandler<H>>>, line: int, isr: u16)
    requires
        handlers.len() == IRQ_COUNT,
        8 <= line < IRQ_COUNT,
        isr_set(isr, line as u16),
    ensures
        eoi_writes(line) == seq![out(SECONDARY_COMMAND, EOI_COMMAND), out(PRIMARY_COMMAND, EOI_COMMAND)],
        forall|h: PicIrqHandler<H>| #[trigger] handler_steps(h, line) == if h.level {
            seq![IrqStep::Invoke { handler: h.f, line: line as usize }] + seq![
                IrqStep::<H>::Out(out(SECONDARY_COMMAND, EOI_COMMAND)),
                IrqStep::<H>::Out(out(PRIMARY_COMMAND, EOI_COMMAND)),
            ]
        } else {
            seq![
                IrqStep::<H>::Out(out(SECONDARY_COMMAND, EOI_COMMAND)),
                IrqStep::<H>::Out(out(PRIMARY_COMMAND, EOI_COMMAND)),
            ] + seq![IrqStep::Invoke { handler: h.f, line: line as usize }]
        },
        ({
            let eoi = seq![
                IrqStep::<H>::Out(out(SECONDARY_COMMAND, EOI_COMMAND)),
                IrqStep::<H>::Out(out(PRIMARY_COMMAND, EOI_COMMAND)),
            ];
            let steps = trap_steps(handlers, line, isr);
            match handlers[line] {
                Some(h) => {
                    let call = seq![IrqStep::Invoke { handler: h.f, line: line as usize }];
                    if h.level {
                        steps == call + eoi
                    } else {
                        steps == eoi + call
                    }
                },
                None => steps == seq![IrqStep::<H>::Report(Diagnostic::UnhandledIrq)] + eoi,
            }
        }),
{
    let eoi = seq![
        IrqStep::<H>::Out(out(SECONDARY_COMMAND, EOI_COMMAND)),
        IrqStep::<H>::Out(out(PRIMARY_COMMAND, EOI_COMMAND)),
    ];
    assert(eoi_steps::<H>(line) =~= eoi);
}

/// A trap on line 7 or 15 whose in-service bit is clear invokes no handler
/// and leaves nothing pending; on line 15 the primary controller is still
/// acknowledged (the acknowledgement of line 7), on line 7 nothing is.
pub proof fn lemma_spurious_suppressed<H>(
    handlers: Seq<Option<PicIrqHandler<H>>>,
    line: int,
    isr: u16,
    w: PortWrite,
)
    requires
        handlers.len() == IRQ_COUNT,
        line == 7 || line == 15,
        !isr_set(isr, line as u16),
    ensures
        !defers(handlers, line, isr),
        deferred_trap_steps(handlers, line, isr, w) == trap_steps(handlers, line, isr),
        line == 7 ==> trap_steps(handlers, line, isr) == seq![IrqStep::<H>::Report(Diagnostic::SpuriousIrq7)],
        line == 15 ==> trap_steps(handlers, line, isr) == seq![
            IrqStep::<H>::Report(Diagnostic::SpuriousIrq15),
            IrqStep::<H>::Out(out(PRIMARY_COMMAND, EOI_COMMAND)),
        ],
{
    assert(eoi_steps::<H>(7) =~= seq![IrqStep::<H>::Out(out(PRIMARY_COMMAND, EOI_COMMAND))]);
    if line == 15 {
        assert(seq![IrqStep::<H>::Report(Diagnostic::SpuriousIrq15)] + eoi_steps::<H>(7) =~= seq![
            IrqStep::<H>::Report(Diagnostic::SpuriousIrq15),
            IrqStep::<H>::Out(out(PRIMARY_COMMAND, EOI_COMMAND)),
        ]);
    }
}

impl<H: Copy> Pic<H> {
    pub open spec fn wf(&self) -> bool {
        self.irqhandlers@.len() == IRQ_COUNT
    }

    /// Whether line `line` is masked.
    pub open spec fn masked(&self, line: int) -> bool {
        line_masked((self.primary_mask, self.secondary_mask), line)
    }

    /// Whether line `line` waits for its handler.
    pub open spec fn pending(&self, line: int) -> bool {
        isr_set(self.active_irqs, line as u16)
    }

    /// No handlers, nothing pending, every line masked (as the controllers
    /// are left after `init`).
    pub fn new() -> (r: Pic<H>)
        ensures
            r.wf(),
            forall|n: int| 0 <= n < IRQ_COUNT ==> #[trigger] r.irqhandlers@[n] == None::<PicIrqHandler<H>>,
            r.primary_mask == 0xFF,
            r.secondary_mask == 0xFF,
            r.active_irqs == 0,
    {
        let mut irqhandlers: Vec<Option<PicIrqHandler<H>>> = Vec::new();
        let mut i: usize = 0;
        while i < IRQ_COUNT
            invariant
                i <= IRQ_COUNT,
                irqhandlers@.len() == i,
                forall|j: int| 0 <= j < i ==> #[trigger] irqhandlers@[j] == None::<PicIrqHandler<H>>,
            decreases IRQ_COUNT - i,
        {
            irqhandlers.push(None);
            i = i + 1;
        }
        Pic { irqhandlers, primary_mask: 0xFF, secondary_mask: 0xFF, active_irqs: 0 }
    }

    /// Reprograms both controllers: the returned writes remap the lines to
    /// start at `REMAP_BASE` and mask them all, and the copy of the masks
    /// follows.
    pub fn init(&mut self) -> (r: Vec<PortWrite>)
        requires
            old(self).wf(),
        ensures
            r@ == init_writes(),
            final(self).wf(),
            final(self).irqhandlers@ == old(self).irqhandlers@,
            final(self).active_irqs == old(self).active_irqs,
            final(self).primary_mask == 0xFF,
            final(self).secondary_mask == 0xFF,
    {
        let mut r: Vec<PortWrite> = Vec::new();
        r.push(PortWrite::new(PRIMARY_COMMAND, 0x11));
        r.push(PortWrite::new(SECONDARY_COMMAND, 0x11));
        r.push(PortWrite::new(PRIMARY_DATA, REMAP_BASE as u8));
        r.push(PortWrite::new(SECONDARY_DATA, (REMAP_BASE + 8) as u8));
        r.push(PortWrite::new(PRIMARY_DATA, 0x04));
        r.push(PortWrite::new(SECONDARY_DATA, 0x02));
        r.push(PortWrite::new(PRIMARY_DATA, 0x01));
        r.push(PortWrite::new(SECONDARY_DATA, 0x01));
        r.push(PortWrite::new(PRIMARY_DATA, 0xFF));
        r.push(PortWrite::new(SECONDARY_DATA, 0xFF));
        self.primary_mask = 0xFF;
        self.secondary_mask = 0xFF;
        proof {
            assert(r@ =~= init_writes());
        }
        r
    }

    /// First vector of the remapped lines.
    pub fn remap_base() -> (r: usize)
        ensures
            r == REMAP_BASE,
    {
        REMAP_BASE
    }

    /// Number of lines.
    pub fn irq_count() -> (r: usize)
        ensures
            r == IRQ_COUNT,
    {
        IRQ_COUNT
    }

    /// Stores the handler of `line`, replacing any earlier one. The line
    /// stays as it was masked: the caller unmasks it with `enable`.
    pub fn register(&mut self, line: usize, f: H, level: bool)
        requires
            old(self).wf(),
            line < IRQ_COUNT,
        ensures
            final(self).wf(),
            final(self).irqhandlers@ == old(self).irqhandlers@.update(line as int, Some(PicIrqHandler { f, level })),
            final(self).primary_mask == old(self).primary_mask,
            final(self).secondary_mask == old(self).secondary_mask,
            final(self).active_irqs == old(self).active_irqs,
    {
        self.irqhandlers.set(line, Some(PicIrqHandler { f, level }));
    }

    /// Unmasks `line`: clears its bit in the mask of its controller and
    /// returns the write of that controller's new mask.
    pub fn enable(&mut self, line: usize) -> (r: PortWrite)
        requires
            old(self).wf(),
            line < IRQ_COUNT,
        ensures
            final(self).wf(),
            final(self).irqhandlers@ == old(self).irqhandlers@,
            final(self).active_irqs == old(self).active_irqs,
            line > 7 ==> final(self).primary_mask == old(self).primary_mask
                && final(self).secondary_mask == old(self).secondary_mask & !(1u8 << (line - 8) as u8)
                && r == out(SECONDARY_DATA, final(self).secondary_mask),
            line <= 7 ==> final(self).secondary_mask == old(self).secondary_mask
                && final(self).primary_mask == old(self).primary_mask & !(1u8 << line as u8)
                && r == out(PRIMARY_DATA, final(self).primary_mask),
    {
        if line > 7 {
            let actual = (line - 8) as u8;
            let flag: u8 = 1u8 << actual;
            self.secondary_mask = self.secondary_mask & !flag;
            PortWrite::new(SECONDARY_DATA, self.secondary_mask)
        } else {
            let flag: u8 = 1u8 << line as u8;
            self.primary_mask = self.primary_mask & !flag;
            PortWrite::new(PRIMARY_DATA, self.primary_mask)
        }
    }

    /// Masks `line`: sets its bit in the mask of its controller and returns
    /// the write of that controller's new mask.
    pub fn disable(&mut self, line: usize) -> (r: PortWrite)
        requires
            old(self).wf(),
            line < IRQ_COUNT,
        ensures
            final(self).wf(),
            final(self).irqhandlers@ == old(self).irqhandlers@,
            final(self).active_irqs == old(self).active_irqs,
            line > 7 ==> final(self).primary_mask == old(self).primary_mask
                && final(self).secondary_mask == old(self).secondary_mask | (1u8 << (line - 8) as u8)
                && r == out(SECONDARY_DATA, final(self).secondary_mask),
            line <= 7 ==> final(self).secondary_mask == old(self).secondary_mask
                && final(self).primary_mask == old(self).primary_mask | (1u8 << line as u8)
                && r == out(PRIMARY_DATA, final(self).primary_mask),
    {
        if line > 7 {
            let actual = (line - 8) as u8;
            let flag: u8 = 1u8 << actual;
            self.secondary_mask = self.secondary_mask | flag;
            PortWrite::new(SECONDARY_DATA, self.secondary_mask)
        } else {
            let flag: u8 = 1u8 << line as u8;
            self.primary_mask = self.primary_mask | flag;
            PortWrite::new(PRIMARY_DATA, self.primary_mask)
        }
    }

    /// Handles a trap on vector `num` in the interrupt context, given the
    /// combined in-service value `isr`, and returns its steps.
    pub fn trap(&self, num: usize, isr: u16) -> (r: Vec<IrqStep<H>>)
        requires
            self.wf(),
            REMAP_BASE <= num < REMAP_BASE + IRQ_COUNT,
        ensures
            r@ == trap_steps(self.irqhandlers@, num - REMAP_BASE, isr),
    {
        let irqnum = num - REMAP_BASE;
        let mut steps: Vec<IrqStep<H>> = Vec::new();
        if self.screen(&mut steps, irqnum, isr) {
            return steps;
        }
        match self.irqhandlers[irqnum] {
            Some(handler) => {
                self.run_handler(&mut steps, handler, irqnum);
                proof {
                    assert(steps@ =~= handler_steps(handler, irqnum as int));
                }
            },
            None => {
                steps.push(IrqStep::Report(Diagnostic::UnhandledIrq));
                push_eoi(&mut steps, irqnum);
                proof {
                    assert(steps@ =~= seq![IrqStep::Report(Diagnostic::UnhandledIrq)] + eoi_steps::<H>(irqnum as int));
                }
            },
        }
        steps
    }

    /// Handles a trap on vector `num` in the deferred design: a line with a
    /// handler is marked pending and masked, and nothing else is done in the
    /// interrupt context.
    pub fn trap_deferred(&mut self, num: usize, isr: u16) -> (r: Vec<IrqStep<H>>)
        requires
            old(self).wf(),
            REMAP_BASE <= num < REMAP_BASE + IRQ_COUNT,
        ensures
            final(self).wf(),
            final(self).irqhandlers@ == old(self).irqhandlers@,
            r@ == deferred_trap_steps(old(self).irqhandlers@, num - REMAP_BASE, isr,
                mask_write((final(self).primary_mask, final(self).secondary_mask), num - REMAP_BASE)),
            defers(old(self).irqhandlers@, num - REMAP_BASE, isr) ==> {
                &&& final(self).active_irqs == old(self).active_irqs | (1u16 << (num - REMAP_BASE) as u16)
                &&& (final(self).primary_mask, final(self).secondary_mask) == mask_after_disable(
                    (old(self).primary_mask, old(self).secondary_mask), num - REMAP_BASE)
                &&& r@ == seq![IrqStep::<H>::Out(mask_write(
                    (final(self).primary_mask, final(self).secondary_mask), num - REMAP_BASE))]
            },
            !defers(old(self).irqhandlers@, num - REMAP_BASE, isr) ==> {
                &&& final(self).active_irqs == old(self).active_irqs
                &&& final(self).primary_mask == old(self).primary_mask
                &&& final(self).secondary_mask == old(self).secondary_mask
                &&& r@ == trap_steps(old(self).irqhandlers@, num - REMAP_BASE, isr)
            },
    {
        let irqnum = num - REMAP_BASE;
        let mut steps: Vec<IrqStep<H>> = Vec::new();
        if self.screen(&mut steps, irqnum, isr) {
            return steps;
        }
        match self.irqhandlers[irqnum] {
            Some(_) => {
                self.active_irqs = self.active_irqs | (1u16 << irqnum as u16);
                let w = self.disable(irqnum);
                steps.push(IrqStep::Out(w));
                proof {
                    assert(steps@ =~= seq![IrqStep::Out(w)]);
                }
            },
            None => {
                steps.push(IrqStep::Report(Diagnostic::UnhandledIrq));
                push_eoi(&mut steps, irqnum);
                proof {
                    assert(steps@ =~= seq![IrqStep::Report(Diagnostic::UnhandledIrq)] + eoi_steps::<H>(irqnum as int));
                }
            },
        }
        steps
    }

    /// Takes the set of pending lines, leaving it empty.
    pub fn take_pending(&mut self) -> (r: u16)
        ensures
            r == old(self).active_irqs,
            final(self).active_irqs == 0,
            final(self).irqhandlers@ == old(self).irqhandlers@,
            final(self).primary_mask == old(self).primary_mask,
            final(self).secondary_mask == old(self).secondary_mask,
    {
        let r = self.active_irqs;
        self.active_irqs = 0;
        r
    }

    /// One pass of the servicing thread: takes the pending set and, for each
    /// pending line with a handler in ascending order, runs the handler with
    /// its acknowledgement and then unmasks the line.
    pub fn service_pending(&mut self) -> (r: Vec<IrqStep<H>>)
        requires
            old(self).wf(),
        ensures
            final(self).wf(),
            final(self).irqhandlers@ == old(self).irqhandlers@,
            final(self).active_irqs == 0,
            r@ == drain_steps(old(self).irqhandlers@, old(self).active_irqs,
                (old(self).primary_mask, old(self).secondary_mask), IRQ_COUNT as nat),
            (final(self).primary_mask, final(self).secondary_mask) == drain_masks(old(self).irqhandlers@,
                old(self).active_irqs, (old(self).primary_mask, old(self).secondary_mask), IRQ_COUNT as nat),
    {
        let ghost masks0 = (self.primary_mask, self.secondary_mask);
        let ghost handlers = self.irqhandlers@;
        let pending = self.take_pending();
        let mut steps: Vec<IrqStep<H>> = Vec::new();
        let mut irqnum: usize = 0;
        while irqnum < IRQ_COUNT
            invariant
                self.wf(),
                self.irqhandlers@ == handlers,
                self.active_irqs == 0,
                irqnum <= IRQ_COUNT,
                steps@ == drain_steps(handlers, pending, masks0, irqnum as nat),
                (self.primary_mask, self.secondary_mask) == drain_masks(handlers, pending, masks0, irqnum as nat),
            decreases IRQ_COUNT - irqnum,
        {
            if pending & (1u16 << irqnum as u16) != 0 {
                match self.irqhandlers[irqnum] {
                    Some(handler) => {
                        self.run_handler(&mut steps, handler, irqnum);
                        let w = self.enable(irqnum);
                        steps.push(IrqStep::Out(w));
                        proof {
                            assert(steps@ =~= drain_steps(handlers, pending, masks0, (irqnum + 1) as nat));
                        }
                    },
                    None => {},
                }
            }
            irqnum = irqnum + 1;
        }
        steps
    }

    /// Appends the screening outcome of a trap on `line` to `steps`; true
    /// when the trap stops there.
    fn screen(&self, steps: &mut Vec<IrqStep<H>>, line: usize, isr: u16) -> (stop: bool)
        requires
            old(steps)@.len() == 0,
            line < IRQ_COUNT,
        ensures
            stop == screen_steps::<H>(line as int, isr) is Some,
            stop ==> final(steps)@ == screen_steps::<H>(line as int, isr)->Some_0,
            !stop ==> final(steps)@ == old(steps)@,
    {
        if line == 7 && isr & (1u16 << 7u16) == 0 {
            steps.push(IrqStep::Report(Diagnostic::SpuriousIrq7));
            proof {
                assert(steps@ =~= seq![IrqStep::Report(Diagnostic::SpuriousIrq7)]);
            }
            return true;
        }
        if line == 15 && isr & (1u16 << 15u16) == 0 {
            steps.push(IrqStep::Report(Diagnostic::SpuriousIrq15));
            push_eoi(steps, 7);
            proof {
                assert(steps@ =~= seq![IrqStep::Report(Diagnostic::SpuriousIrq15)] + eoi_steps::<H>(7));
            }
            return true;
        }
        if isr & (1u16 << line as u16) == 0 {
            steps.push(IrqStep::Report(Diagnostic::NoInterruptStatus));
            proof {
                assert(steps@ =~= seq![IrqStep::Report(Diagnostic::NoInterruptStatus)]);
            }
            return true;
        }
        false
    }

    /// Appends the handler steps of `line` to `steps`.
    fn run_handler(&self, steps: &mut Vec<IrqStep<H>>, handler: PicIrqHandler<H>, line: usize)
        ensures
            final(steps)@ == old(steps)@ + handler_steps(handler, line as int),
    {
        let ghost before = steps@;
        if !handler.level {
            push_eoi(steps, line);
        }
        steps.push(IrqStep::Invoke { handler: handler.f, line });
        if handler.level {
            push_eoi(steps, line);
        }
        proof {
            let call = seq![IrqStep::Invoke { handler: handler.f, line: line }];
            if handler.level {
                assert(steps@ =~= before + (call + eoi_steps::<H>(line as int)));
            } else {
                assert(steps@ =~= before + (eoi_steps::<H>(line as int) + call));
            }
        }
    }

    /// The writes that acknowledge `line`.
    pub fn eoi(line: usize) -> (r: Vec<PortWrite>)
        ensures
            r@ == eoi_writes(line as int),
    {
        let mut r: Vec<PortWrite> = Vec::new();
        if line > 7 {
            r.push(PortWrite::new(SECONDARY_COMMAND, EOI_COMMAND));
        }
        r.push(PortWrite::new(PRIMARY_COMMAND, EOI_COMMAND));
        proof {
            assert(r@ =~= eoi_writes(line as int));
        }
        r
    }

    /// The writes that select both in-service registers; the secondary's
    /// byte is then read from `SECONDARY_COMMAND`, the primary's from
    /// `PRIMARY_COMMAND`, and the two are joined by `combine_isr`.
    pub fn isr_query() -> (r: Vec<PortWrite>)
        ensures
            r@ == seq![out(PRIMARY_COMMAND, READ_ISR_COMMAND), out(SECONDARY_COMMAND, READ_ISR_COMMAND)],
    {
        let mut r: Vec<PortWrite> = Vec::new();
        r.push(PortWrite::new(PRIMARY_COMMAND, READ_ISR_COMMAND));
        r.push(PortWrite::new(SECONDARY_COMMAND, READ_ISR_COMMAND));
        proof {
            assert(r@ =~= seq![out(PRIMARY_COMMAND, READ_ISR_COMMAND), out(SECONDARY_COMMAND, READ_ISR_COMMAND)]);
        }
        r
    }

    /// The combined in-service value: the secondary's byte above the
    /// primary's.
    pub fn combine_isr(secondary: u8, primary: u8) -> (r: u16)
        ensures
            r as int == secondary as int * 0x100 + primary as int,
    {
        let r: u16 = ((secondary as u16) << 8u16) | (primary as u16);
        assert(((secondary as u16) << 8u16) | (primary as u16) == (secondary as u16) * 0x100 + (primary as u16)) by (bit_vector);
        r
    }
}

/// Appends the acknowledgement of `line` to `steps`.
fn push_eoi<H>(steps: &mut Vec<IrqStep<H>>, line: usize)
    ensures
        final(steps)@ == old(steps)@ + eoi_steps::<H>(line as int),
{
    let ghost before = steps@;
    if line > 7 {
        steps.push(IrqStep::Out(PortWrite::new(SECONDARY_COMMAND, EOI_COMMAND)));
    }
    steps.push(IrqStep::Out(PortWrite::new(PRIMARY_COMMAND, EOI_COMMAND)));
    proof {
        assert(steps@ =~= before + eoi_steps::<H>(line as int));
    }
}

} // verus!
