//! The programmable interval timer and the spinner it drives.
use vstd::prelude::*;
use crate::port::{PortWrite, out};

verus! {

/// Input clock of the interval timer, in hertz.
pub const BASE_FREQUENCY: usize = 1193180;

/// Interrupt line of the interval timer.
pub const TIMER_IRQ: usize = 0;

pub const PIT_COMMAND: u16 = 0x43;
pub const PIT_CHANNEL0: u16 = 0x40;

/// Command byte: channel 0, low then high byte, square-wave mode.
pub const PERIODIC_MODE: u8 = 0x36;

/// Milliseconds after which the spinner wraps around.
pub const SPINNER_PERIOD_MS: usize = 4000;

/// The programmable interval timer: its rate, and the milliseconds counted
/// since the spinner last wrapped around.
#[derive(Clone, Copy, PartialEq, Eq, Structural, Debug)]
pub struct Pit {
    pub timer_hz: usize,
    pub ticks: usize,
}

/// The spinner glyph shown when the count crosses its `k`-th second
/// (`k` from 1 to 4).
pub open spec fn spinner_glyph(k: int) -> char {
    if k == 1 {
        '|'
    } else if k == 2 {
        '/'
    } else if k == 3 {
        '-'
    } else {
        '\\'
    }
}

/// The glyph that a timer interrupt shows from the state `p`: the glyph of
/// the whole second that the count crosses, if it crosses one.
pub open spec fn tick_glyph(p: Pit) -> Option<char> {
    let next = p.ticks + p.ms_spec();
    let k = next / 1000;
    if k > p.ticks / 1000 {
        Some(spinner_glyph(k))
    } else {
        None
    }
}

/// The count after a timer interrupt from the state `p`: advanced by
/// `1000 / timer_hz` milliseconds, less a full period once it reaches the
/// fourth second.
pub open spec fn tick_ticks(p: Pit) -> int {
    let next = p.ticks + p.ms_spec();
    if next / 1000 == 4 {
        next - SPINNER_PERIOD_MS
    } else {
        next
    }
}

/// The writes that program periodic mode with divisor `div`.
pub open spec fn init_writes(div: int) -> Seq<PortWrite> {
    seq![
        out(PIT_COMMAND, PERIODIC_MODE),
        out(PIT_CHANNEL0, (div % 0x100) as u8),
        out(PIT_CHANNEL0, ((div / 0x100) % 0x100) as u8),
    ]
}

impl Pit {
    /// Whether the timer has been programmed and the count is within one
    /// spinner period.
    pub open spec fn wf(&self) -> bool {
        self.timer_hz > 0 && self.ticks < SPINNER_PERIOD_MS
    }

    /// Milliseconds per timer interrupt.
    pub open spec fn ms_spec(&self) -> int {
        1000int / self.timer_hz as int
    }

    /// A timer that has not been programmed.
    pub fn new() -> (r: Pit)
        ensures
            r.timer_hz == 0,
            r.ticks == 0,
    {
        Pit { timer_hz: 0, ticks: 0 }
    }

    /// The timer's interrupt line.
    pub fn irq_num() -> (r: usize)
        ensures
            r == TIMER_IRQ,
    {
        TIMER_IRQ
    }

    /// Programs the timer to interrupt `freq` times a second: returns the
    /// writes of periodic mode and of the divisor `BASE_FREQUENCY / freq`,
    /// low byte first.
    pub fn init(&mut self, freq: usize) -> (r: Vec<PortWrite>)
        requires
            freq > 0,
        ensures
            final(self).timer_hz == freq,
            final(self).ticks == 0,
            r@ == init_writes(BASE_FREQUENCY as int / freq as int),
    {
        self.timer_hz = freq;
        self.ticks = 0;
        let div = BASE_FREQUENCY / freq;
        let mut r: Vec<PortWrite> = Vec::new();
        r.push(PortWrite::new(PIT_COMMAND, PERIODIC_MODE));
        r.push(PortWrite::new(PIT_CHANNEL0, (div % 0x100) as u8));
        r.push(PortWrite::new(PIT_CHANNEL0, ((div / 0x100) % 0x100) as u8));
        proof {
            assert(r@ =~= init_writes(div as int));
        }
        r
    }

    /// Milliseconds that pass between two timer interrupts.
    pub fn ms_per_tick(&self) -> (r: usize)
        requires
            self.timer_hz > 0,
        ensures
            r as int == self.ms_spec(),
    {
        1000 / self.timer_hz
    }

    /// One timer interrupt: the count advances by `1000 / timer_hz`
    /// milliseconds. When it crosses a whole second the glyph of that second
    /// comes back (`|`, `/`, `-`, `\` in turn), and after the fourth the
    /// count starts again from what is left over.
    pub fn irq(&mut self) -> (r: Option<char>)
        requires
            old(self).wf(),
        ensures
            final(self).wf(),
            final(self).timer_hz == old(self).timer_hz,
            r == tick_glyph(*old(self)),
            final(self).ticks == tick_ticks(*old(self)),
    {
        let ms = 1000 / self.timer_hz;
        assert(ms <= 1000) by (nonlinear_arith)
            requires ms == 1000int / self.timer_hz as int, self.timer_hz > 0;
        let next = self.ticks + ms;
        let k = next / 1000;
        if k == 4 {
            self.ticks = next - 4000;
        } else {
            self.ticks = next;
        }
        if k > (next - ms) / 1000 {
            if k == 1 {
                Some('|')
            } else if k == 2 {
                Some('/')
            } else if k == 3 {
                Some('-')
            } else {
                Some('\\')
            }
        } else {
            None
        }
    }
}

} // verus!
