//! Guest-physical memory regions and memory-mapped accesses.
use vstd::prelude::*;

verus! {

/// What a guest may do with a region, and whether the region is device memory.
#[derive(Clone, Copy, Debug, PartialEq, Eq, Structural)]
pub struct MemFlags {
    pub read: bool,
    pub write: bool,
    pub execute: bool,
    pub io: bool,
}

/// A region of guest-physical memory that maps to host-physical memory at a constant offset.
#[derive(Clone, Copy, Debug, PartialEq, Eq, Structural)]
pub struct MemoryRegion {
    pub guest_start: u64,
    pub host_start: u64,
    pub size: u64,
    pub flags: MemFlags,
}

impl MemoryRegion {
    /// Whether a guest-physical address lies in the region.
    pub open spec fn covers(self, guest_addr: int) -> bool {
        self.guest_start <= guest_addr < self.guest_start + self.size
    }

    /// The host-physical address that an address of the region maps to.
    pub open spec fn translate(self, guest_addr: int) -> int {
        self.host_start + (guest_addr - self.guest_start)
    }
}

/// The code that emulates the accesses to a memory-mapped region.
#[derive(Clone, Copy, Debug, PartialEq, Eq, Structural)]
pub enum MmioHandler {
    /// The trampoline to the virtio devices of the root zone.
    Virtio,
    /// The virtual I/O APIC.
    IoApic,
    /// The filter in front of the ECAM page of the virtio block device.
    EcamVirtioBlkHide,
}

/// A region of guest-physical memory whose accesses are emulated.
#[derive(Clone, Copy, Debug, PartialEq, Eq, Structural)]
pub struct MmioRegion {
    pub start: u64,
    pub size: u64,
    pub handler: MmioHandler,
    /// The argument that the handler gets with every access.
    pub arg: u64,
}

impl MmioRegion {
    /// Whether a guest-physical address lies in the region.
    pub open spec fn covers(self, guest_addr: int) -> bool {
        self.start <= guest_addr < self.start + self.size
    }
}

/// One access to a memory-mapped region. A handler sees the address as an offset into its region.
#[derive(Clone, Copy, Debug, PartialEq, Eq, Structural)]
pub struct MMIOAccess {
    pub address: u64,
    pub size: u64,
    pub is_write: bool,
    pub value: u64,
}

} // verus!
