//! Core logic of a minimal KVM-based microVM monitor.
//!
//! The crate verifies the parts of the monitor that decide what the guest
//! sees: the port-I/O address bus, the GDT entry encoding, the identity
//! page tables, the E820 map and the rest of the Linux zero page, the
//! kernel command line, the CPUID masking, and the small state machines
//! that drive the vCPU worker and the host event loop.  Host-facility
//! calls (KVM ioctls, eventfds, terminal handling, file loading) live in
//! the unverified front end that drives this crate.

pub mod bus;
pub mod config;
pub mod cpuid;
pub mod gdt;
pub mod layout;
pub mod mem;
pub mod port_io;
pub mod regs;
pub mod runner;
pub mod serial;
pub mod system;
