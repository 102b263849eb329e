//! Port writes: the unit in which the kernel talks to its devices.
use vstd::prelude::*;

verus! {

/// One byte written to a CPU I/O port.
#[derive(Clone, Copy, PartialEq, Eq, Structural, Debug)]
pub struct PortWrite {
    pub port: u16,
    pub value: u8,
}

impl PortWrite {
    pub fn new(port: u16, value: u8) -> (r: PortWrite)
        ensures
            r == (PortWrite { port, value }),
    {
        PortWrite { port, value }
    }
}

/// The port write `(port, value)` as a value.
pub open spec fn out(port: u16, value: u8) -> PortWrite {
    PortWrite { port, value }
}

} // verus!
