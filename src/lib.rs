//! A small i386 kernel core: descriptor tables, trap dispatch, the cascaded
//! interrupt controller, the interval timer, the console devices, a bump
//! allocator, a spinlock and a cooperative scheduler.
//!
//! Every hardware effect is computed here as a plain value (a port write, a
//! text-buffer cell, a handler to invoke, a context to resume) and performed
//! by the platform glue that owns the real machine.
pub mod port;
pub mod gdt;
pub mod idt;
pub mod pic;
pub mod mem;
pub mod sched;
pub mod sync;
pub mod pit;
pub mod kb;
pub mod serial;
pub mod vga;
pub mod arch;
pub mod mach;
pub mod kernel;
