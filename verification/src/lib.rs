//! The x86_64 interrupt and trap core of a small partitioning hypervisor.
//!
//! The hypervisor splits a machine into zones, each with its own CPUs, memory and devices. This
//! crate holds the decisions of that core: which guest gets an interrupt and when, what a guest
//! sees of its virtual I/O APIC, how each exit of a guest is answered, and what the memory of a
//! zone is made of. The code around it reads the hardware, hands the values in and carries out
//! what comes back.
pub mod bits;
pub mod cpu;
pub mod cpuid;
pub mod error;
pub mod exception;
pub mod io;
pub mod ioapic;
pub mod irqchip;
pub mod memory;
pub mod msr;
pub mod page_walk;
pub mod pending;
pub mod trap;
pub mod zone;
