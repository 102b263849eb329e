use rustic::arch::TrapTarget;
use rustic::idt::TrapCall;
use rustic::kb::KeyEvent;
use rustic::kernel::{Kernel, KernelStep, TrapAction};
use rustic::pic::Diagnostic;
use rustic::port::PortWrite;
use rustic::vga::CellWrite;

fn w(port: u16, value: u8) -> PortWrite {
    PortWrite { port, value }
}

fn booted() -> Kernel<u32> {
    let (k, writes) = Kernel::<u32>::boot(0x0010_2000, 0x0010_0000, 0x3000, 0x4000, 0x5000);
    assert_eq!(writes.len(), 24);
    k
}

#[test]
fn boot_sequence_writes() {
    let (k, writes) = Kernel::<u32>::boot(0x0010_2000, 0x0010_0000, 0x3000, 0x4000, 0x5000);
    assert!(k.architecture().initialised);
    assert!(k.machine().initialised);
    assert_eq!(writes[0], w(0x3F9, 0));
    assert_eq!(writes[7], w(0x20, 0x11));
    assert_eq!(writes[17], w(0x43, 0x36));
    assert_eq!(writes[20], w(0x60, 0xF0));
    assert_eq!(&writes[22..], &[w(0x21, 0xFE), w(0x21, 0xFC)][..]);
    assert_eq!(k.architecture().state.idt.handlers[14], Some(TrapTarget::BusError));
    assert_eq!(k.machine().state.timer.timer_hz, 100);
}

#[test]
fn boot_spawns_the_irq_thread() {
    let (k, _) = Kernel::<u32>::boot(0x0010_2000, 0x0010_0000, 0x3000, 0x4000, 0x5000);
    let threads = &k.architecture().state.threads;
    assert_eq!(threads.ready_count(), 1);
    let t = threads.ready_threads[0];
    assert!(t.is_alive);
    assert_eq!((t.exec_state.eip, t.exec_state.ebx, t.exec_state.esi), (0x3000, 0x4000, 0x5000));
    assert_eq!(t.exec_state.esp, 0x20_1000);
    assert!(threads.running_thread.is_none());
    assert_eq!(k.heap.heap_base, 0x20_1000);
}

#[test]
fn traps_route_to_their_targets() {
    let mut k = booted();
    assert_eq!(k.trap(3), TrapAction::Nothing);
    assert_eq!(k.trap(14), TrapAction::BusError);
    assert_eq!(k.trap(0x20), TrapAction::Irq);
    assert_eq!(k.trap(0x21), TrapAction::Irq);
    assert_eq!(k.trap(0x80), TrapAction::Nothing);
    k.register_trap(0x80, 42);
    assert_eq!(k.trap(0x80), TrapAction::Call(TrapCall { handler: 42, arg: 0x80 }));
}

#[test]
fn timer_trap_ticks_and_draws_the_spinner() {
    let mut k = booted();
    k.register_timer(5);
    assert_eq!(k.trap(0x20), TrapAction::Irq);
    let steps = k.irq_trap(0x20, 0x0001);
    assert_eq!(steps, vec![KernelStep::Tick, KernelStep::Out(w(0x20, 0x20))]);
    let tick = k.timer_tick();
    assert_eq!(k.machine().state.timer.ticks, 10);
    assert_eq!(tick.last(), Some(&KernelStep::Call(TrapCall { handler: 5, arg: 10 })));
    assert!(!tick.iter().any(|s| matches!(s, KernelStep::Cell(_))));
    let mut glyphs = Vec::new();
    for _ in 1..400 {
        for s in k.timer_tick() {
            if let KernelStep::Cell(c) = s {
                assert_eq!(c.offset, 1999);
                glyphs.push((c.value & 0xFF) as u8 as char);
                assert_eq!(c.value >> 8, 0x0F);
            }
        }
    }
    assert_eq!(glyphs, vec!['|', '/', '-', '\\']);
    assert_eq!(k.machine().state.timer.ticks, 0);
    assert_eq!((k.machine().state.screen.x, k.machine().state.screen.y), (0, 0));
}

#[test]
fn keyboard_trap_reads_and_draws() {
    let mut k = booted();
    assert_eq!(k.irq_trap(0x21, 0x0002), vec![KernelStep::ReadKeyboard, KernelStep::Out(w(0x20, 0x20))]);
    assert_eq!(k.keyboard_irq(1, 0x9E), KeyEvent::Key('a'));
    assert_eq!(k.screen_write_char('a'), Some(CellWrite { offset: 0, value: 0x0761 }));
}

#[test]
fn spurious_and_unhandled_irqs() {
    let k = booted();
    assert_eq!(k.irq_trap(0x27, 0), vec![KernelStep::Report(Diagnostic::SpuriousIrq7)]);
    assert_eq!(
        k.irq_trap(0x2F, 0),
        vec![KernelStep::Report(Diagnostic::SpuriousIrq15), KernelStep::Out(w(0x20, 0x20))]
    );
    assert_eq!(
        k.irq_trap(0x23, 1 << 3),
        vec![KernelStep::Report(Diagnostic::UnhandledIrq), KernelStep::Out(w(0x20, 0x20))]
    );
}

#[test]
fn registered_irq_deferred_then_serviced() {
    let mut k = booted();
    assert_eq!(k.register_irq(5, 9, false), w(0x21, 0xDC));
    assert_eq!(k.trap(0x25), TrapAction::Irq);
    assert_eq!(k.irq_trap_deferred(0x25, 1 << 5), vec![KernelStep::Out(w(0x21, 0xFC))]);
    assert_eq!(
        k.service_irqs(),
        vec![
            KernelStep::Out(w(0x20, 0x20)),
            KernelStep::Call(TrapCall { handler: 9, arg: 5 }),
            KernelStep::Out(w(0x21, 0xDC)),
        ]
    );
    assert_eq!(k.disable_irq(5), w(0x21, 0xFC));
    assert_eq!(k.enable_irq(5), w(0x21, 0xDC));
    assert_eq!(k.eoi(9), vec![w(0xA0, 0x20), w(0x20, 0x20)]);
}

#[test]
fn kernel_threads() {
    let mut k = booted();
    assert!(k.can_spawn());
    let s1 = k.spawn(0x1000, 1, 0);
    let s2 = k.spawn(0x1000, 2, 0);
    assert_eq!(s1, 0x20_1000);
    assert_eq!(s2, 0x20_2000);
    assert!(!k.needs_save());
    let first = k.reschedule(None).unwrap();
    assert_eq!((first.ebx, first.esp), (2, 0x20_3000));
    assert!(k.needs_save());
    k.thread_terminate();
    assert!(!k.needs_save());
    assert_eq!(k.reschedule(None).unwrap().ebx, 1);
    assert_eq!(k.reschedule(Some(first)).unwrap().ebx, 0x4000);
}

#[test]
fn reschedule_before_any_thread_is_a_no_op() {
    let mut k = Kernel::<u32>::new();
    assert_eq!(k.reschedule(None), None);
    assert!(k.architecture().state.threads.running_thread.is_none());
}

#[test]
fn spawn_needs_room_below_four_gib() {
    let mut k = Kernel::<u32>::new();
    k.heap = rustic::mem::Heap::at(0xFFFF_F000);
    assert!(!k.can_spawn());
    k.heap = rustic::mem::Heap::at(0xFFFF_DFF0);
    assert!(k.can_spawn());
    k.heap = rustic::mem::Heap::at(0xFFFF_DFF1);
    assert!(!k.can_spawn());
}

#[test]
fn timer_handlers_are_called_in_order() {
    let mut k = booted();
    k.register_timer(1);
    k.register_timer(2);
    assert_eq!(
        k.timer_fired(10),
        vec![
            KernelStep::Call(TrapCall { handler: 1, arg: 10 }),
            KernelStep::Call(TrapCall { handler: 2, arg: 10 }),
        ]
    );
}

#[test]
fn accessors() {
    let mut k = Kernel::<u32>::new();
    assert!(!k.architecture().initialised);
    k.architecture_mut().initialised = true;
    assert!(k.architecture().initialised);
    k.machine_mut().initialised = true;
    assert!(k.machine().initialised);
    assert_eq!(k.init_irqs(0x3000, 0x4000, 0x5000).len(), 10);
    assert_eq!(k.architecture().state.threads.ready_count(), 1);
    assert_eq!(k.init_timers(50), vec![w(0x43, 0x36), w(0x40, 0x37), w(0x40, 0x5D)]);
    assert!(k.arch_initialise(0, 0x1000));
    assert_eq!(k.mach_initialise(0x3000, 0x4000, 0x5000).len(), 24);
    assert_eq!(k.architecture().state.threads.ready_count(), 2);
}
