use rustic::pic::{Diagnostic, IrqStep, Pic, PicIrqHandler, IRQ_COUNT, REMAP_BASE};
use rustic::port::PortWrite;

fn w(port: u16, value: u8) -> PortWrite {
    PortWrite { port, value }
}

fn eoi_primary() -> IrqStep<u32> {
    IrqStep::Out(w(0x20, 0x20))
}

fn eoi_secondary() -> IrqStep<u32> {
    IrqStep::Out(w(0xA0, 0x20))
}

#[test]
fn init_remaps_and_masks_everything() {
    let mut pic: Pic<u32> = Pic::new();
    let writes = pic.init();
    assert_eq!(
        writes,
        vec![
            w(0x20, 0x11),
            w(0xA0, 0x11),
            w(0x21, 0x20),
            w(0xA1, 0x28),
            w(0x21, 0x04),
            w(0xA1, 0x02),
            w(0x21, 0x01),
            w(0xA1, 0x01),
            w(0x21, 0xFF),
            w(0xA1, 0xFF),
        ]
    );
    assert_eq!((pic.primary_mask, pic.secondary_mask), (0xFF, 0xFF));
    assert_eq!(Pic::<u32>::remap_base(), 0x20);
    assert_eq!(Pic::<u32>::irq_count(), 16);
}

#[test]
fn enable_and_disable_use_the_right_controller() {
    let mut pic: Pic<u32> = Pic::new();
    assert_eq!(pic.enable(3), w(0x21, 0xF7));
    assert_eq!(pic.enable(10), w(0xA1, 0xFB));
    assert_eq!(pic.disable(3), w(0x21, 0xFF));
    assert_eq!(pic.disable(10), w(0xA1, 0xFF));
}

#[test]
fn disable_then_enable_restores_the_mask() {
    for line in 0..IRQ_COUNT {
        let mut pic: Pic<u32> = Pic::new();
        pic.primary_mask = 0x00;
        pic.secondary_mask = 0x00;
        // leave every other line masked so that a stray bit would show
        for other in 0..IRQ_COUNT {
            if other != line {
                pic.disable(other);
            }
        }
        let before = (pic.primary_mask, pic.secondary_mask);
        pic.disable(line);
        assert_ne!((pic.primary_mask, pic.secondary_mask), before);
        pic.enable(line);
        assert_eq!((pic.primary_mask, pic.secondary_mask), before);
    }
}

#[test]
fn eoi_order() {
    assert_eq!(Pic::<u32>::eoi(3), vec![w(0x20, 0x20)]);
    assert_eq!(Pic::<u32>::eoi(12), vec![w(0xA0, 0x20), w(0x20, 0x20)]);
    assert_eq!(Pic::<u32>::isr_query(), vec![w(0x20, 0x0B), w(0xA0, 0x0B)]);
    assert_eq!(Pic::<u32>::combine_isr(0x80, 0x01), 0x8001);
}

#[test]
fn edge_triggered_acknowledges_first() {
    let mut pic: Pic<u32> = Pic::new();
    pic.register(3, 7, false);
    assert_eq!(pic.irqhandlers[3], Some(PicIrqHandler { f: 7, level: false }));
    let steps = pic.trap(REMAP_BASE + 3, 1 << 3);
    assert_eq!(steps, vec![eoi_primary(), IrqStep::Invoke { handler: 7, line: 3 }]);
}

#[test]
fn level_triggered_acknowledges_after() {
    let mut pic: Pic<u32> = Pic::new();
    pic.register(9, 4, true);
    let steps = pic.trap(REMAP_BASE + 9, 1 << 9);
    assert_eq!(steps, vec![IrqStep::Invoke { handler: 4, line: 9 }, eoi_secondary(), eoi_primary()]);
}

#[test]
fn secondary_gets_eoi_before_primary_on_every_trap() {
    for line in 8..IRQ_COUNT {
        for level in [false, true] {
            let mut pic: Pic<u32> = Pic::new();
            pic.register(line, 1, level);
            let steps = pic.trap(REMAP_BASE + line, 1 << line);
            let outs: Vec<PortWrite> = steps
                .iter()
                .filter_map(|s| match s {
                    IrqStep::Out(x) => Some(*x),
                    _ => None,
                })
                .collect();
            assert_eq!(outs, vec![w(0xA0, 0x20), w(0x20, 0x20)]);
        }
    }
}

#[test]
fn spurious_seven_is_dropped() {
    let mut pic: Pic<u32> = Pic::new();
    pic.register(7, 1, false);
    assert_eq!(pic.trap(REMAP_BASE + 7, 0), vec![IrqStep::Report(Diagnostic::SpuriousIrq7)]);
    let steps = pic.trap_deferred(REMAP_BASE + 7, 0);
    assert_eq!(steps, vec![IrqStep::Report(Diagnostic::SpuriousIrq7)]);
    assert_eq!(pic.active_irqs, 0);
}

#[test]
fn spurious_fifteen_still_acknowledges_the_primary() {
    let mut pic: Pic<u32> = Pic::new();
    pic.register(15, 1, true);
    assert_eq!(
        pic.trap(REMAP_BASE + 15, 0x00FF),
        vec![IrqStep::Report(Diagnostic::SpuriousIrq15), eoi_primary()]
    );
    let steps = pic.trap_deferred(REMAP_BASE + 15, 0);
    assert_eq!(steps, vec![IrqStep::Report(Diagnostic::SpuriousIrq15), eoi_primary()]);
    assert_eq!(pic.active_irqs, 0);
}

#[test]
fn no_status_and_unhandled() {
    let pic: Pic<u32> = Pic::new();
    assert_eq!(pic.trap(REMAP_BASE + 4, 0), vec![IrqStep::Report(Diagnostic::NoInterruptStatus)]);
    assert_eq!(
        pic.trap(REMAP_BASE + 4, 1 << 4),
        vec![IrqStep::Report(Diagnostic::UnhandledIrq), eoi_primary()]
    );
    assert_eq!(
        pic.trap(REMAP_BASE + 12, 1 << 12),
        vec![IrqStep::Report(Diagnostic::UnhandledIrq), eoi_secondary(), eoi_primary()]
    );
    assert_eq!(Diagnostic::SpuriousIrq7.message(), "spurious IRQ 7\n");
    assert_eq!(Diagnostic::UnhandledIrq.message(), "Unhandled IRQ\n");
}

#[test]
fn deferred_trap_masks_then_service_runs() {
    let mut pic: Pic<u32> = Pic::new();
    pic.register(2, 11, false);
    pic.register(10, 12, true);
    pic.enable(2);
    pic.enable(10);
    assert_eq!((pic.primary_mask, pic.secondary_mask), (0xFB, 0xFB));

    assert_eq!(pic.trap_deferred(REMAP_BASE + 10, 1 << 10), vec![IrqStep::Out(w(0xA1, 0xFF))]);
    assert_eq!(pic.trap_deferred(REMAP_BASE + 2, 1 << 2), vec![IrqStep::Out(w(0x21, 0xFF))]);
    assert_eq!(pic.active_irqs, (1 << 2) | (1 << 10));

    let steps = pic.service_pending();
    assert_eq!(
        steps,
        vec![
            eoi_primary(),
            IrqStep::Invoke { handler: 11, line: 2 },
            IrqStep::Out(w(0x21, 0xFB)),
            IrqStep::Invoke { handler: 12, line: 10 },
            eoi_secondary(),
            eoi_primary(),
            IrqStep::Out(w(0xA1, 0xFB)),
        ]
    );
    assert_eq!(pic.active_irqs, 0);
    assert_eq!(pic.service_pending(), vec![]);
}

#[test]
fn take_pending_empties_the_set() {
    let mut pic: Pic<u32> = Pic::new();
    pic.active_irqs = 0x0005;
    assert_eq!(pic.take_pending(), 0x0005);
    assert_eq!(pic.take_pending(), 0);
}
