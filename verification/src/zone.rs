//! Zones: the memory of a guest, how it boots, and what is emulated for it.
use crate::cpu::CpuSet;
use crate::error::HvErrorNum;
use crate::memory::{MMIOAccess, MemFlags, MemoryRegion, MmioHandler, MmioRegion};
use vstd::prelude::*;

verus! {

/// The part of a zone's configuration that is particular to x86_64.
#[derive(Debug, Clone, Copy)]
pub struct HvArchZoneConfig {
    /// base address of ioapic mmio registers, usually 0xfec00000
    pub ioapic_base: usize,
    /// size of ioapic mmio registers, usually 0x1000
    pub ioapic_size: usize,
    /// start gpa of vmlinux.bin, usually 0x100000
    pub kernel_entry_gpa: usize,
    /// gpa of linux boot command line
    pub cmdline_load_gpa: usize,
    /// start gpa of setup.bin, address length no bigger than 16 bits
    pub setup_load_gpa: usize,
    /// start gpa of the initrd; zero without one. The memory region that holds it is of the
    /// reserved type.
    pub initrd_load_gpa: usize,
    /// size of the initrd; zero without one
    pub initrd_size: usize,
    /// The RSDP table is copied to the memory region with this id: RAM that starts at 0xe_0000
    /// and is 0x2_0000 bytes long.
    pub rsdp_memory_region_id: usize,
    /// The other ACPI tables are copied to the memory region with this id: RAM that is large
    /// enough for the DSDT.
    pub acpi_memory_region_id: usize,
    pub uefi_memory_region_id: usize,
    /// start gpa of the framebuffer, at most 32 bits long; zero without a graphical console
    pub screen_base: usize,
}

/// The configuration of a zone, as far as it decides how the zone is set up.
#[derive(Debug, Clone, Copy)]
pub struct HvZoneConfig {
    pub zone_id: u32,
    /// Not zero for a kernel that boots through Multiboot2.
    pub multiboot_enabled: u32,
    /// Address of the Multiboot2 information.
    pub multiboot_info_paddr: u64,
    pub arch_config: HvArchZoneConfig,
}

/// The kind of a configured memory region.
#[derive(Clone, Copy, Debug, PartialEq, Eq, Structural)]
pub enum MemType {
    Ram,
    Io,
    Virtio,
    Reserved,
    /// A kind that is not supported.
    Other(u32),
}

/// A configured memory region.
#[derive(Clone, Copy, Debug, PartialEq, Eq, Structural)]
pub struct HvConfigMemoryRegion {
    pub mem_type: MemType,
    pub physical_start: u64,
    pub virtual_start: u64,
    pub size: u64,
}

/// Something that the memory of a zone needs.
#[derive(Clone, Copy, Debug, PartialEq, Eq, Structural)]
pub enum ZoneRequest {
    /// Map a region of guest-physical memory.
    Memory(MemoryRegion),
    /// Emulate the accesses to a region of guest-physical memory.
    Mmio(MmioRegion),
}

/// A zone: its CPUs, and what its memory needs, in the order in which it was asked for.
pub struct Zone {
    pub id: usize,
    pub cpu_set: CpuSet,
    pub requests: Vec<ZoneRequest>,
}

/// Start of the PCI configuration space.
pub const ECAM_BASE: u64 = 0xb000_0000;

/// Size of the PCI configuration space: two buses.
pub const ECAM_SIZE: u64 = 0x20_0000;

/// The configuration page of the virtio block device: bus 1, device 0, function 0.
pub const VIRTIO_BLK_ECAM: u64 = 0xb010_0000;

/// Size of the configuration page of one function.
pub const ECAM_PAGE: u64 = 0x1000;

/// Start of the 32-bit window for PCI device memory.
pub const PCI_MMIO_BASE: u64 = 0xc000_0000;

/// Size of the window, which ends where the virtio devices begin.
pub const PCI_MMIO_SIZE: u64 = 0x3eb0_0000;

/// Start of the rest of the 32-bit window, behind the virtio devices.
pub const PCI_MMIO2_BASE: u64 = 0xfeb0_1000;

/// Size of the rest of the window, which ends where the I/O APIC begins.
pub const PCI_MMIO2_SIZE: u64 = 0xf_f000;

/// Start of the 64-bit window for PCI device memory.
pub const PCI_BAR64_BASE: u64 = 0x8_0000_0000;

/// Size of the 64-bit window.
pub const PCI_BAR64_SIZE: u64 = 0x1000_0000;

/// Where a guest outside the root zone finds its DMA memory.
pub const DMA_GUEST_BASE: u64 = 0x2000_0000;

/// Where that memory is: it is kept free by the root zone.
pub const DMA_HOST_BASE: u64 = 0x1_0000_0000;

/// Size of the DMA memory, which ends where the PCI configuration space begins.
pub const DMA_SIZE: u64 = 0x9000_0000;

/// Where the task state segment of a Multiboot2 kernel is put.
pub const TSS_GPA: u64 = 0x804_8000;

/// Size of a 32-bit task state segment.
pub const TSS_LEN: usize = 104;

/// Limit of that task state segment: the offset of its last byte.
pub const TSS_LIMIT: u64 = 0x67;

/// Access byte of that task state segment: a 32-bit one, present and available.
pub const TSS_ACCESS: u64 = 0x89;

/// The descriptor of that task state segment.
pub const TSS_DESCRIPTOR: u64 = 0x0800_8904_8000_0067;

/// Entry 4 of the kernel's descriptor table, selector 0x20.
pub const TSS_GDT_ENTRY_GPA: u64 = 0x800_1510;

/// What a read of the vendor and device number gives where no device is.
pub const NO_DEVICE: u64 = 0xffff_ffff;

/// The descriptor of a segment with this base, limit and access byte: the limit in bits 15 to 0,
/// the base in bits 39 to 16 and 63 to 56, the access byte in bits 47 to 40. The limit counts
/// bytes.
pub open spec fn segment_descriptor(base: u64, limit: u64, access: u64) -> u64 {
    (limit + (base % 0x100_0000) * 0x1_0000 + access * 0x100_0000_0000 + (base / 0x100_0000)
        * 0x100_0000_0000_0000) as u64
}

/// The base that a segment descriptor gives.
pub open spec fn descriptor_base(descriptor: u64) -> u64 {
    ((descriptor / 0x100_0000_0000_0000) * 0x100_0000 + (descriptor / 0x1_0000) % 0x100_0000) as u64
}

/// The limit that a segment descriptor gives.
pub open spec fn descriptor_limit(descriptor: u64) -> u64 {
    (descriptor % 0x1_0000 + ((descriptor / 0x1_0000_0000_0000) % 0x10) * 0x1_0000) as u64
}

/// The access byte of a segment descriptor.
pub open spec fn descriptor_access(descriptor: u64) -> u64 {
    (descriptor / 0x100_0000_0000) % 0x100
}

/// The flags of a segment descriptor; the highest one makes the limit count pages.
pub open spec fn descriptor_flags(descriptor: u64) -> u64 {
    (descriptor / 0x10_0000_0000_0000) % 0x10
}

/// Read, write and execute.
pub open spec fn flags_rwx(io: bool) -> MemFlags {
    MemFlags { read: true, write: true, execute: true, io }
}

/// Read and write.
pub open spec fn flags_rw() -> MemFlags {
    MemFlags { read: true, write: true, execute: false, io: false }
}

/// Whether a configured memory region is of a supported kind.
pub open spec fn supported(region: HvConfigMemoryRegion) -> bool {
    !(region.mem_type is Other)
}

/// What a configured memory region needs: memory and devices are mapped, virtio regions are
/// emulated.
pub open spec fn region_request(region: HvConfigMemoryRegion) -> ZoneRequest {
    if region.mem_type == MemType::Virtio {
        ZoneRequest::Mmio(
            MmioRegion {
                start: region.physical_start,
                size: region.size,
                handler: MmioHandler::Virtio,
                arg: region.physical_start,
            },
        )
    } else {
        ZoneRequest::Memory(
            MemoryRegion {
                guest_start: region.virtual_start,
                host_start: region.physical_start,
                size: region.size,
                flags: flags_rwx(region.mem_type == MemType::Io),
            },
        )
    }
}

/// A request to map memory for reading and writing.
pub open spec fn map_rw_request(guest_start: u64, host_start: u64, size: u64) -> ZoneRequest {
    ZoneRequest::Memory(MemoryRegion { guest_start, host_start, size, flags: flags_rw() })
}

/// The filter in front of the configuration page of the virtio block device.
pub open spec fn ecam_filter_request() -> ZoneRequest {
    ZoneRequest::Mmio(
        MmioRegion {
            start: VIRTIO_BLK_ECAM,
            size: ECAM_PAGE,
            handler: MmioHandler::EcamVirtioBlkHide,
            arg: VIRTIO_BLK_ECAM,
        },
    )
}

/// The PCI configuration space of a zone: the root zone sees all of it, in another zone the page
/// of the virtio block device is filtered.
pub open spec fn ecam_requests(zone_id: int) -> Seq<ZoneRequest> {
    if zone_id == 0 {
        seq![map_rw_request(ECAM_BASE, ECAM_BASE, ECAM_SIZE)]
    } else {
        seq![
            map_rw_request(ECAM_BASE, ECAM_BASE, (VIRTIO_BLK_ECAM - ECAM_BASE) as u64),
            ecam_filter_request(),
            map_rw_request(
                (VIRTIO_BLK_ECAM + ECAM_PAGE) as u64,
                (VIRTIO_BLK_ECAM + ECAM_PAGE) as u64,
                (ECAM_BASE + ECAM_SIZE - VIRTIO_BLK_ECAM - ECAM_PAGE) as u64,
            ),
        ]
    }
}

/// The windows for PCI device memory.
pub open spec fn pci_window_requests() -> Seq<ZoneRequest> {
    seq![
        map_rw_request(PCI_MMIO_BASE, PCI_MMIO_BASE, PCI_MMIO_SIZE),
        map_rw_request(PCI_MMIO2_BASE, PCI_MMIO2_BASE, PCI_MMIO2_SIZE),
        map_rw_request(PCI_BAR64_BASE, PCI_BAR64_BASE, PCI_BAR64_SIZE),
    ]
}

/// The DMA memory of a zone outside the root zone.
pub open spec fn dma_requests(zone_id: int) -> Seq<ZoneRequest> {
    if zone_id == 0 {
        Seq::empty()
    } else {
        seq![map_rw_request(DMA_GUEST_BASE, DMA_HOST_BASE, DMA_SIZE)]
    }
}

/// What a zone needs besides its configured memory regions.
pub open spec fn device_requests(zone_id: int) -> Seq<ZoneRequest> {
    ecam_requests(zone_id) + pci_window_requests() + dma_requests(zone_id)
}

/// How the first CPU of a zone starts.
#[derive(Clone, Copy, Debug, PartialEq, Eq, Structural)]
pub enum BootMode {
    /// Through Multiboot2, with this address of the boot information.
    Multiboot { info_paddr: u64 },
    /// As a Linux kernel, with its entry and the address of its setup code.
    Linux { kernel_entry_gpa: usize, setup_load_gpa: usize },
}

/// A task state segment to put into the memory of the guest.
#[derive(Clone, Copy, Debug, PartialEq, Eq, Structural)]
pub struct TssSetup {
    /// Where the segment is cleared ...
    pub tss_gpa: u64,
    /// ... and how many bytes of it.
    pub tss_len: usize,
    /// Where the descriptor is put.
    pub gdt_entry_gpa: u64,
    pub descriptor: u64,
}

/// What has to be done before the memory of a zone is set up.
#[derive(Clone, Copy, Debug, PartialEq, Eq)]
pub struct PreConfiguration {
    pub tss: Option<TssSetup>,
    /// The CPU that boots the zone, and how.
    pub boot_cpu: Option<(usize, BootMode)>,
    /// The zone whose MSR and port bitmaps are set.
    pub bitmap_zone: u32,
    /// Move the critical interrupts of the root zone away from the CPUs of this zone.
    pub reroute_irqs: bool,
}

/// Whether a zone boots through Multiboot2: the root zone never does.
pub open spec fn boots_multiboot(config: HvZoneConfig) -> bool {
    config.zone_id != 0 && config.multiboot_enabled != 0
}

/// How a zone boots.
pub open spec fn boot_mode(config: HvZoneConfig) -> BootMode {
    if boots_multiboot(config) {
        BootMode::Multiboot { info_paddr: config.multiboot_info_paddr }
    } else {
        BootMode::Linux {
            kernel_entry_gpa: config.arch_config.kernel_entry_gpa,
            setup_load_gpa: config.arch_config.setup_load_gpa,
        }
    }
}

impl Zone {
    /// A zone whose memory needs nothing yet.
    pub fn new(id: usize, cpu_set: CpuSet) -> (zone: Self)
        ensures
            zone.id == id,
            zone.cpu_set == cpu_set,
            zone.requests@ == Seq::<ZoneRequest>::empty(),
    {
        Zone { id, cpu_set, requests: Vec::new() }
    }

    /// Asks for the configured memory regions, in their order.
    pub fn pt_init(&mut self, mem_regions: &[HvConfigMemoryRegion]) -> (res: Result<(), HvErrorNum>)
        requires
            forall|i: int| 0 <= i < mem_regions@.len() ==> supported(#[trigger] mem_regions@[i]),
        ensures
            res == Ok::<(), HvErrorNum>(()),
            final(self).id == old(self).id,
            final(self).cpu_set == old(self).cpu_set,
            final(self).requests@ == old(self).requests@ + mem_regions@.map_values(
                |region: HvConfigMemoryRegion| region_request(region),
            ),
    {
        let ghost asked = mem_regions@.map_values(
            |region: HvConfigMemoryRegion| region_request(region),
        );
        let mut i: usize = 0;
        assert(asked.take(0) =~= Seq::<ZoneRequest>::empty());
        while i < mem_regions.len()
            invariant
                i <= mem_regions@.len(),
                asked == mem_regions@.map_values(
                    |region: HvConfigMemoryRegion| region_request(region),
                ),
                self.id == old(self).id,
                self.cpu_set == old(self).cpu_set,
                self.requests@ == old(self).requests@ + asked.take(i as int),
                forall|j: int|
                    0 <= j < mem_regions@.len() ==> supported(#[trigger] mem_regions@[j]),
            decreases mem_regions@.len() - i,
        {
            let region: HvConfigMemoryRegion = mem_regions[i];
            assert(supported(mem_regions@[i as int]));
            let io = region.mem_type == MemType::Io;
            let flags = MemFlags { read: true, write: true, execute: true, io };
            match region.mem_type {
                MemType::Virtio => {
                    self.mmio_region_register(
                        region.physical_start,
                        region.size,
                        MmioHandler::Virtio,
                        region.physical_start,
                    );
                },
                _ => {
                    self.requests.push(
                        ZoneRequest::Memory(
                            MemoryRegion {
                                guest_start: region.virtual_start,
                                host_start: region.physical_start,
                                size: region.size,
                                flags,
                            },
                        ),
                    );
                },
            }
            assert(asked.take(i as int + 1) =~= asked.take(i as int).push(asked[i as int]));
            i = i + 1;
        }
        assert(asked.take(i as int) =~= asked);
        Ok(())
    }

    /// Asks for the emulation of a region.
    fn mmio_region_register(&mut self, start: u64, size: u64, handler: MmioHandler, arg: u64)
        ensures
            final(self).id == old(self).id,
            final(self).cpu_set == old(self).cpu_set,
            final(self).requests@ == old(self).requests@.push(
                ZoneRequest::Mmio(MmioRegion { start, size, handler, arg }),
            ),
    {
        self.requests.push(ZoneRequest::Mmio(MmioRegion { start, size, handler, arg }));
    }

    /// Asks for a region to be mapped for reading and writing.
    fn map_rw(&mut self, guest_start: u64, host_start: u64, size: u64)
        ensures
            final(self).id == old(self).id,
            final(self).cpu_set == old(self).cpu_set,
            final(self).requests@ == old(self).requests@.push(
                map_rw_request(guest_start, host_start, size),
            ),
    {
        let flags = MemFlags { read: true, write: true, execute: false, io: false };
        self.requests.push(
            ZoneRequest::Memory(MemoryRegion { guest_start, host_start, size, flags }),
        );
    }

    /// The interrupts of a zone need no preparation.
    pub fn irq_bitmap_init(&mut self, irqs_bitmap: &[u32])
        ensures
            *final(self) == *old(self),
    {
    }

    /// Says what has to be done before the memory of a zone is set up, once its CPUs are known.
    ///
    /// A Multiboot2 kernel gets a task state segment. The first CPU boots the zone. A zone outside
    /// the root zone must not take the root zone's critical interrupts with its CPUs.
    pub fn arch_zone_pre_configuration(&self, config: &HvZoneConfig) -> (plan: PreConfiguration)
        ensures
            plan.tss == (if boots_multiboot(*config) {
                Some(
                    TssSetup {
                        tss_gpa: TSS_GPA,
                        tss_len: TSS_LEN,
                        gdt_entry_gpa: TSS_GDT_ENTRY_GPA,
                        descriptor: segment_descriptor(TSS_GPA, TSS_LIMIT, TSS_ACCESS),
                    },
                )
            } else {
                None
            }),
            plan.boot_cpu == (if self.cpu_set.bitmap != 0 {
                Some((self.cpu_set.first_member() as usize, boot_mode(*config)))
            } else {
                None
            }),
            plan.boot_cpu matches Some((cpu, mode)) ==> self.cpu_set.is_first(cpu as int),
            plan.bitmap_zone == config.zone_id,
            plan.reroute_irqs == (config.zone_id != 0),
    {
        let multiboot = config.zone_id != 0 && config.multiboot_enabled != 0;
        let tss = if multiboot {
            Some(
                TssSetup {
                    tss_gpa: TSS_GPA,
                    tss_len: TSS_LEN,
                    gdt_entry_gpa: TSS_GDT_ENTRY_GPA,
                    descriptor: TSS_DESCRIPTOR,
                },
            )
        } else {
            None
        };
        let mode = if multiboot {
            BootMode::Multiboot { info_paddr: config.multiboot_info_paddr }
        } else {
            BootMode::Linux {
                kernel_entry_gpa: config.arch_config.kernel_entry_gpa,
                setup_load_gpa: config.arch_config.setup_load_gpa,
            }
        };
        let boot_cpu = match self.cpu_set.first_cpu() {
            Some(cpu) => Some((cpu, mode)),
            None => None,
        };
        PreConfiguration {
            tss,
            boot_cpu,
            bitmap_zone: config.zone_id,
            reroute_irqs: config.zone_id != 0,
        }
    }

    /// Asks for the PCI configuration space, the windows for PCI device memory and, outside the
    /// root zone, the DMA memory.
    pub fn arch_zone_post_configuration(&mut self) -> (res: Result<(), HvErrorNum>)
        ensures
            res == Ok::<(), HvErrorNum>(()),
            final(self).id == old(self).id,
            final(self).cpu_set == old(self).cpu_set,
            final(self).requests@ == old(self).requests@ + device_requests(old(self).id as int),
    {
        if self.id == 0 {
            self.map_rw(ECAM_BASE, ECAM_BASE, ECAM_SIZE);
        } else {
            self.map_rw(ECAM_BASE, ECAM_BASE, VIRTIO_BLK_ECAM - ECAM_BASE);
            self.mmio_region_register(
                VIRTIO_BLK_ECAM,
                ECAM_PAGE,
                MmioHandler::EcamVirtioBlkHide,
                VIRTIO_BLK_ECAM,
            );
            let after_gpa: u64 = VIRTIO_BLK_ECAM + ECAM_PAGE;
            let ecam_end: u64 = ECAM_BASE + ECAM_SIZE;
            self.map_rw(after_gpa, after_gpa, ecam_end - after_gpa);
        }
        self.map_rw(PCI_MMIO_BASE, PCI_MMIO_BASE, PCI_MMIO_SIZE);
        self.map_rw(PCI_MMIO2_BASE, PCI_MMIO2_BASE, PCI_MMIO2_SIZE);
        self.map_rw(PCI_BAR64_BASE, PCI_BAR64_BASE, PCI_BAR64_SIZE);
        if self.id != 0 {
            self.map_rw(DMA_GUEST_BASE, DMA_HOST_BASE, DMA_SIZE);
        }
        assert(self.requests@ =~= old(self).requests@ + device_requests(old(self).id as int));
        Ok(())
    }

    /// Asks for the emulation of the I/O APIC, where the zone has one.
    pub fn ioapic_mmio_init(&mut self, arch: &HvArchZoneConfig)
        ensures
            final(self).id == old(self).id,
            final(self).cpu_set == old(self).cpu_set,
            final(self).requests@ == (if arch.ioapic_base == 0 || arch.ioapic_size == 0 {
                old(self).requests@
            } else {
                old(self).requests@.push(
                    ZoneRequest::Mmio(
                        MmioRegion {
                            start: arch.ioapic_base as u64,
                            size: arch.ioapic_size as u64,
                            handler: MmioHandler::IoApic,
                            arg: arch.ioapic_base as u64,
                        },
                    ),
                )
            }),
    {
        if arch.ioapic_base == 0 || arch.ioapic_size == 0 {
            return;
        }
        self.mmio_region_register(
            arch.ioapic_base as u64,
            arch.ioapic_size as u64,
            MmioHandler::IoApic,
            arch.ioapic_base as u64,
        );
    }

    /// The zone whose DMA translation tables are cleared when its interrupts are reset.
    pub fn arch_irqchip_reset(&self) -> (zone_id: usize)
        ensures
            zone_id == self.id,
    {
        self.id
    }
}

/// What is left to do with a filtered access to the configuration space.
#[derive(Clone, Copy, Debug, PartialEq, Eq, Structural)]
pub enum EcamAction {
    /// Nothing: the access has been answered.
    Done,
    /// Carry out the access on the hardware, at this address.
    PassThrough { hpa: u64 },
}

/// Hides the virtio block device from the zones outside the root zone: a read of the vendor number
/// at offset 0 gives the value for no device, a write to it is dropped. The other accesses are
/// passed through to the hardware.
///
/// Without this filter another zone discovers the root zone's device, sets up DMA through it and
/// corrupts the DMA remapping state.
pub fn ecam_virtio_blk_hide_handler(mmio: &mut MMIOAccess, ecam_hpa: u64) -> (action: EcamAction)
    ensures
        *final(mmio) == (if old(mmio).address == 0 && !old(mmio).is_write {
            MMIOAccess { value: NO_DEVICE, ..*old(mmio) }
        } else {
            *old(mmio)
        }),
        action == (if old(mmio).address == 0 {
            EcamAction::Done
        } else {
            EcamAction::PassThrough { hpa: ecam_hpa }
        }),
{
    if !mmio.is_write && mmio.address == 0 {
        mmio.value = NO_DEVICE;
        EcamAction::Done
    } else if mmio.is_write && mmio.address == 0 {
        EcamAction::Done
    } else {
        EcamAction::PassThrough { hpa: ecam_hpa }
    }
}

/// Whether a request concerns a guest-physical address.
pub open spec fn concerns(request: ZoneRequest, guest_addr: int) -> bool {
    match request {
        ZoneRequest::Memory(region) => region.covers(guest_addr),
        ZoneRequest::Mmio(region) => region.covers(guest_addr),
    }
}

/// No two of a zone's device regions overlap.
pub proof fn law_device_regions_disjoint(zone_id: int, i: int, j: int, guest_addr: int)
    requires
        0 <= i < j < device_requests(zone_id).len(),
    ensures
        !(concerns(device_requests(zone_id)[i], guest_addr) && concerns(
            device_requests(zone_id)[j],
            guest_addr,
        )),
{
}

/// Outside the root zone the configuration page of the virtio block device is never mapped: only
/// the filter answers there.
pub proof fn law_virtio_blk_is_hidden(zone_id: int, i: int, guest_addr: int)
    requires
        zone_id != 0,
        0 <= i < device_requests(zone_id).len(),
        VIRTIO_BLK_ECAM <= guest_addr < VIRTIO_BLK_ECAM + ECAM_PAGE,
    ensures
        concerns(device_requests(zone_id)[i], guest_addr) <==> device_requests(zone_id)[i]
            == ecam_filter_request(),
        device_requests(zone_id).contains(ecam_filter_request()),
{
    assert(device_requests(zone_id)[1] == ecam_filter_request());
}

/// Every other address of the PCI configuration space is mapped to itself in every zone, and in
/// the root zone all of them are.
pub proof fn law_ecam_is_identity_mapped(zone_id: int, guest_addr: int)
    requires
        ECAM_BASE <= guest_addr < ECAM_BASE + ECAM_SIZE,
        zone_id == 0 || !(VIRTIO_BLK_ECAM <= guest_addr < VIRTIO_BLK_ECAM + ECAM_PAGE),
    ensures
        exists|i: int|
            0 <= i < device_requests(zone_id).len() && (
            #[trigger] device_requests(zone_id)[i] matches ZoneRequest::Memory(region)
                && region.covers(guest_addr) && region.translate(guest_addr) == guest_addr),
{
    let requests = device_requests(zone_id);
    if guest_addr < VIRTIO_BLK_ECAM || zone_id == 0 {
        assert(requests[0] matches ZoneRequest::Memory(region) && region.covers(guest_addr));
    } else {
        assert(requests[2] matches ZoneRequest::Memory(region) && region.covers(guest_addr));
    }
}

/// No device region of a zone can be executed, and all but the DMA memory are mapped to
/// themselves.
pub proof fn law_device_regions_are_data(zone_id: int, i: int)
    requires
        0 <= i < device_requests(zone_id).len(),
    ensures
        device_requests(zone_id)[i] matches ZoneRequest::Memory(region) ==> {
            &&& region.flags == flags_rw()
            &&& region.guest_start == region.host_start || (zone_id != 0
                && device_requests(zone_id)[i] == map_rw_request(
                DMA_GUEST_BASE,
                DMA_HOST_BASE,
                DMA_SIZE,
            ))
        },
{
}

/// The device regions leave room for the virtio devices and for the I/O APIC.
pub proof fn law_device_regions_leave_holes(zone_id: int, i: int, guest_addr: int)
    requires
        0 <= i < device_requests(zone_id).len(),
        PCI_MMIO_BASE + PCI_MMIO_SIZE <= guest_addr < PCI_MMIO2_BASE || PCI_MMIO2_BASE
            + PCI_MMIO2_SIZE <= guest_addr < PCI_BAR64_BASE,
    ensures
        !concerns(device_requests(zone_id)[i], guest_addr),
        PCI_MMIO_BASE + PCI_MMIO_SIZE == 0xfeb0_0000,
        PCI_MMIO2_BASE + PCI_MMIO2_SIZE == 0xfec0_0000,
{
}

/// A segment descriptor gives back what it was made of, and has no flag set.
pub proof fn law_descriptor_fields(base: u64, limit: u64, access: u64)
    requires
        base < 0x1_0000_0000,
        limit < 0x1_0000,
        access < 0x100,
    ensures
        ({
            let descriptor = segment_descriptor(base, limit, access);
            &&& descriptor_base(descriptor) == base
            &&& descriptor_limit(descriptor) == limit
            &&& descriptor_access(descriptor) == access
            &&& descriptor_flags(descriptor) == 0
        }),
{
    let descriptor = segment_descriptor(base, limit, access);
    assert(descriptor_base(descriptor) == base && descriptor_limit(descriptor) == limit
        && descriptor_access(descriptor) == access && descriptor_flags(descriptor) == 0)
        by (bit_vector)
        requires
            base < 0x1_0000_0000,
            limit < 0x1_0000,
            access < 0x100,
            descriptor == segment_descriptor(base, limit, access),
    ;
}

/// The task state segment that the descriptor gives is the memory that is cleared for it.
pub proof fn law_tss_descriptor_fits(descriptor: u64)
    requires
        descriptor == segment_descriptor(TSS_GPA, TSS_LIMIT, TSS_ACCESS),
    ensures
        descriptor_base(descriptor) == TSS_GPA,
        descriptor_limit(descriptor) + 1 == TSS_LEN,
        descriptor_access(descriptor) == TSS_ACCESS,
        descriptor == TSS_DESCRIPTOR,
{
    law_descriptor_fields(TSS_GPA, TSS_LIMIT, TSS_ACCESS);
}

/// The root zone always boots as Linux; another zone boots through Multiboot2 exactly when its
/// configuration asks for it.
pub proof fn law_root_boots_linux(config: HvZoneConfig)
    ensures
        config.zone_id == 0 ==> boot_mode(config) is Linux,
        config.zone_id != 0 ==> (boot_mode(config) is Multiboot <==> config.multiboot_enabled != 0),
{
}

/// Each configured region adds one request, behind those that were there and in the order of the
/// configuration. A virtio region is emulated at its physical address; any other region is mapped
/// from its virtual to its physical start, for all kinds of access, and as device memory exactly
/// when it is an I/O region.
pub proof fn law_pt_init(
    zone: &mut Zone,
    mem_regions: &[HvConfigMemoryRegion],
    res: Result<(), HvErrorNum>,
    i: int,
)
    requires
        call_ensures(Zone::pt_init, (zone, mem_regions), res),
        0 <= i < mem_regions@.len(),
    ensures
        res is Ok,
        final(zone).id == old(zone).id,
        final(zone).cpu_set == old(zone).cpu_set,
        final(zone).requests@.len() == old(zone).requests@.len() + mem_regions@.len(),
        old(zone).requests@.is_prefix_of(final(zone).requests@),
        ({
            let region = mem_regions@[i];
            let request = final(zone).requests@[old(zone).requests@.len() + i];
            &&& request is Mmio <==> region.mem_type is Virtio
            &&& request matches ZoneRequest::Mmio(mmio) ==> {
                &&& mmio.start == region.physical_start
                &&& mmio.size == region.size
                &&& mmio.handler is Virtio
                &&& mmio.arg == region.physical_start
            }
            &&& request matches ZoneRequest::Memory(memory) ==> {
                &&& memory.guest_start == region.virtual_start
                &&& memory.host_start == region.physical_start
                &&& memory.size == region.size
                &&& memory.flags.read && memory.flags.write && memory.flags.execute
                &&& memory.flags.io <==> region.mem_type is Io
            }
        }),
{
}

/// Whether one of the requests from number `first` on maps a guest-physical address to this
/// host-physical one.
pub open spec fn maps(requests: Seq<ZoneRequest>, first: int, guest: int, host: int) -> bool {
    exists|i: int|
        first <= i < requests.len() && (#[trigger] requests[i] matches ZoneRequest::Memory(region)
            && region.guest_start <= guest < region.guest_start + region.size && host - guest
            == region.host_start - region.guest_start)
}

/// The map of a zone's devices: two buses of PCI configuration space from 0xb000_0000 on, the PCI
/// windows up to the virtio devices, from there up to the I/O APIC, and from 32 GB on, are each
/// mapped to themselves, and nothing else is in the root zone. Another zone does not have the
/// configuration page of the virtio block device, at 0xb010_0000, and has DMA memory from
/// 0x2000_0000 up to the configuration space, which lies from 4 GB on.
pub proof fn law_device_map(
    zone: &mut Zone,
    res: Result<(), HvErrorNum>,
    guest: int,
    host: int,
)
    requires
        call_ensures(Zone::arch_zone_post_configuration, (zone,), res),
    ensures
        res is Ok,
        old(zone).requests@.is_prefix_of(final(zone).requests@),
        maps(final(zone).requests@, old(zone).requests@.len() as int, guest, host) <==> {
            ||| guest == host && (0xb000_0000 <= guest < 0xb020_0000 && !(old(zone).id != 0
                && 0xb010_0000 <= guest < 0xb010_1000))
            ||| guest == host && (0xc000_0000 <= guest < 0xfeb0_0000 || 0xfeb0_1000 <= guest
                < 0xfec0_0000 || 0x8_0000_0000 <= guest < 0x8_1000_0000)
            ||| old(zone).id != 0 && 0x2000_0000 <= guest < 0xb000_0000 && host == guest
                - 0x2000_0000 + 0x1_0000_0000
        },
{
    let first = old(zone).requests@.len() as int;
    let requests = final(zone).requests@;
    let added = device_requests(old(zone).id as int);
    assert(forall|i: int| 0 <= i < added.len() ==> requests[first + i] == #[trigger] added[i]);
    assert(forall|i: int|
        first <= i < requests.len() ==> #[trigger] requests[i] == added[i - first]);
    if old(zone).id == 0 {
        assert(added.len() == 4);
        assert(requests[first] == added[0] && requests[first + 1] == added[1] && requests[first + 2]
            == added[2] && requests[first + 3] == added[3]);
    } else {
        assert(added.len() == 7);
        assert(requests[first] == added[0] && requests[first + 1] == added[1] && requests[first + 2]
            == added[2] && requests[first + 3] == added[3] && requests[first + 4] == added[4]
            && requests[first + 5] == added[5] && requests[first + 6] == added[6]);
    }
}

/// Every device region that is mapped can be read and written, not executed, and is not marked as
/// device memory. Nothing is emulated but, outside the root zone, the configuration page of the
/// virtio block device, and that by its filter.
pub proof fn law_device_access(zone: &mut Zone, res: Result<(), HvErrorNum>, i: int)
    requires
        call_ensures(Zone::arch_zone_post_configuration, (zone,), res),
        old(zone).requests@.len() <= i < final(zone).requests@.len(),
    ensures
        final(zone).id == old(zone).id,
        final(zone).cpu_set == old(zone).cpu_set,
        final(zone).requests@[i] matches ZoneRequest::Memory(region) ==> {
            &&& region.flags.read && region.flags.write
            &&& !region.flags.execute && !region.flags.io
        },
        final(zone).requests@[i] matches ZoneRequest::Mmio(region) ==> {
            &&& old(zone).id != 0
            &&& region.start == 0xb010_0000
            &&& region.size == 0x1000
            &&& region.handler is EcamVirtioBlkHide
            &&& region.arg == 0xb010_0000
        },
        old(zone).id != 0 ==> exists|j: int|
            old(zone).requests@.len() <= j < final(zone).requests@.len()
                && #[trigger] final(zone).requests@[j] is Mmio,
{
    let first = old(zone).requests@.len() as int;
    assert(final(zone).requests@[i] == device_requests(old(zone).id as int)[i - first]);
    if old(zone).id != 0 {
        assert(final(zone).requests@[first + 1] == device_requests(old(zone).id as int)[1]);
    }
}

/// A zone gets a task state segment exactly when it is not the root zone and asks for Multiboot2:
/// 104 cleared bytes at 0x804_8000 and, in entry 4 of the descriptor table at 0x800_14f0, a
/// descriptor of the present and available 32-bit segment there. The MSR and port bitmaps are those
/// of the configured zone, and the critical interrupts move away for every zone but the root zone.
pub proof fn law_pre_configuration(zone: &Zone, config: &HvZoneConfig, plan: PreConfiguration)
    requires
        call_ensures(Zone::arch_zone_pre_configuration, (zone, config), plan),
    ensures
        plan.tss is Some <==> config.zone_id != 0 && config.multiboot_enabled != 0,
        plan.tss matches Some(tss) ==> {
            let d = tss.descriptor as int;
            &&& tss.tss_gpa == 0x804_8000
            &&& tss.tss_len == 104
            &&& tss.gdt_entry_gpa == 0x800_14f0 + 4 * 8
            &&& (d / 0x100_0000_0000_0000) * 0x100_0000 + (d / 0x1_0000) % 0x100_0000 == tss.tss_gpa
            &&& d % 0x1_0000 + ((d / 0x1_0000_0000_0000) % 0x10) * 0x1_0000 + 1 == tss.tss_len
            &&& (d / 0x100_0000_0000) % 0x100 == 0x89
            &&& (d / 0x10_0000_0000_0000) % 0x10 == 0
        },
        plan.bitmap_zone == config.zone_id,
        plan.reroute_irqs <==> config.zone_id != 0,
{
    law_tss_descriptor_fits(TSS_DESCRIPTOR);
}

/// The first CPU of a zone boots it, if it has a CPU: through Multiboot2 with the address of the
/// boot information, where the zone is not the root zone and asks for it, else as Linux with the
/// entry of the kernel and the address of its setup code.
pub proof fn law_boot_cpu(
    zone: &Zone,
    config: &HvZoneConfig,
    plan: PreConfiguration,
    member: int,
)
    requires
        call_ensures(Zone::arch_zone_pre_configuration, (zone, config), plan),
    ensures
        plan.boot_cpu is Some <==> zone.cpu_set.bitmap != 0,
        plan.boot_cpu matches Some((cpu, mode)) ==> {
            &&& zone.cpu_set.has(cpu as int)
            &&& zone.cpu_set.has(member) ==> cpu <= member
            &&& mode is Multiboot <==> config.zone_id != 0 && config.multiboot_enabled != 0
            &&& mode matches BootMode::Multiboot { info_paddr } ==> info_paddr
                == config.multiboot_info_paddr
            &&& mode matches BootMode::Linux { kernel_entry_gpa, setup_load_gpa } ==> {
                &&& kernel_entry_gpa == config.arch_config.kernel_entry_gpa
                &&& setup_load_gpa == config.arch_config.setup_load_gpa
            }
        },
{
}

/// The I/O APIC of a zone is emulated at its configured place, unless its base or its size is zero;
/// then nothing is asked for.
pub proof fn law_ioapic_mmio_init(zone: &mut Zone, arch: &HvArchZoneConfig)
    requires
        call_ensures(Zone::ioapic_mmio_init, (zone, arch), ()),
    ensures
        ({
            let asked = arch.ioapic_base != 0 && arch.ioapic_size != 0;
            let before = old(zone).requests@;
            let after = final(zone).requests@;
            &&& final(zone).id == old(zone).id
            &&& final(zone).cpu_set == old(zone).cpu_set
            &&& before.is_prefix_of(after)
            &&& after.len() == before.len() + if asked {
                1int
            } else {
                0int
            }
            &&& asked ==> {
                &&& after.last() is Mmio
                &&& after.last()->Mmio_0.start == arch.ioapic_base
                &&& after.last()->Mmio_0.size == arch.ioapic_size
                &&& after.last()->Mmio_0.handler is IoApic
                &&& after.last()->Mmio_0.arg == arch.ioapic_base
            }
        }),
{
}

/// An access to the filtered configuration page is answered here exactly when it is at offset 0: a
/// read then gives all ones in 32 bits, and a write does nothing. Any other access goes to the
/// hardware as it came.
pub proof fn law_ecam_filter(mmio: &mut MMIOAccess, ecam_hpa: u64, action: EcamAction)
    requires
        call_ensures(ecam_virtio_blk_hide_handler, (mmio, ecam_hpa), action),
    ensures
        action is Done <==> old(mmio).address == 0,
        action matches EcamAction::PassThrough { hpa } ==> hpa == ecam_hpa,
        old(mmio).address == 0 && !old(mmio).is_write ==> final(mmio).value == 0xffff_ffff,
        old(mmio).address != 0 || old(mmio).is_write ==> final(mmio).value == old(mmio).value,
        final(mmio).address == old(mmio).address,
        final(mmio).size == old(mmio).size,
        final(mmio).is_write == old(mmio).is_write,
{
}

/// A new zone has its number and its CPUs and needs nothing yet. Its interrupts need no
/// preparation, and resetting them is about its own number.
pub proof fn law_zone_new(
    zone: Zone,
    id: usize,
    cpu_set: CpuSet,
    other: &mut Zone,
    irqs_bitmap: &[u32],
    reset: usize,
)
    requires
        call_ensures(Zone::new, (id, cpu_set), zone),
        call_ensures(Zone::irq_bitmap_init, (other, irqs_bitmap), ()),
        call_ensures(Zone::arch_irqchip_reset, (&zone,), reset),
    ensures
        zone.id == id,
        zone.cpu_set == cpu_set,
        zone.requests@.len() == 0,
        *final(other) == *old(other),
        reset == id,
{
}

} // verus!
