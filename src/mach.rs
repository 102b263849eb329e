//! The machine layer: interrupt controller, timer, keyboard and screen.
use vstd::prelude::*;
use crate::pic::{Pic, IRQ_COUNT};
use crate::pit::Pit;
use crate::kb::PS2Keyboard;
use crate::vga::Vga;

verus! {

/// What an interrupt line is routed to.
#[derive(Clone, Copy, PartialEq, Eq, Debug)]
pub enum IrqTarget<H> {
    /// A handler registered by a driver or the application.
    Handler(H),
    /// The interval timer.
    Timer,
    /// The PS/2 keyboard.
    Keyboard,
}

/// The PC platform: interrupt controller, timer, keyboard, screen, and the
/// handlers that the timer calls on each tick.
pub struct State<H> {
    pub irq_ctlr: Pic<IrqTarget<H>>,
    pub timer: Pit,
    pub keyboard: PS2Keyboard,
    pub screen: Vga,
    pub timer_handlers: Vec<H>,
}

/// The machine layer and whether it has been brought up.
pub struct MachineState<H> {
    pub initialised: bool,
    pub state: State<H>,
}

impl<H: Copy> State<H> {
    pub open spec fn wf(&self) -> bool {
        self.irq_ctlr.wf() && self.screen.wf()
    }

    /// Devices in their reset state, no timer handlers.
    pub fn new() -> (r: State<H>)
        ensures
            r.wf(),
            forall|n: int| 0 <= n < IRQ_COUNT ==> #[trigger] r.irq_ctlr.irqhandlers@[n] is None,
            r.irq_ctlr.active_irqs == 0,
            r.timer.timer_hz == 0 && r.timer.ticks == 0,
            r.timer_handlers@.len() == 0,
    {
        State {
            irq_ctlr: Pic::new(),
            timer: Pit::new(),
            keyboard: PS2Keyboard::new(),
            screen: Vga::new(),
            timer_handlers: Vec::new(),
        }
    }
}

impl<H: Copy> MachineState<H> {
    pub open spec fn wf(&self) -> bool {
        self.state.wf()
    }

    /// A machine layer that is not yet brought up.
    pub fn new() -> (r: MachineState<H>)
        ensures
            r.wf(),
            !r.initialised,
            forall|n: int| 0 <= n < IRQ_COUNT ==> #[trigger] r.state.irq_ctlr.irqhandlers@[n] is None,
            r.state.irq_ctlr.active_irqs == 0,
            r.state.timer.timer_hz == 0 && r.state.timer.ticks == 0,
            r.state.timer_handlers@.len() == 0,
    {
        MachineState { initialised: false, state: State::new() }
    }
}

/// A fresh machine layer.
pub fn create<H: Copy>() -> (r: MachineState<H>)
    ensures
        r.wf(),
        !r.initialised,
        forall|n: int| 0 <= n < IRQ_COUNT ==> #[trigger] r.state.irq_ctlr.irqhandlers@[n] is None,
        r.state.irq_ctlr.active_irqs == 0,
        r.state.timer.timer_hz == 0 && r.state.timer.ticks == 0,
        r.state.timer_handlers@.len() == 0,
{
    MachineState::new()
}

} // verus!
