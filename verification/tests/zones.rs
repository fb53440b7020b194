use hvisor_x86::cpu::CpuSet;
use hvisor_x86::memory::{MMIOAccess, MemFlags, MemoryRegion, MmioHandler, MmioRegion};
use hvisor_x86::zone::{
    ecam_virtio_blk_hide_handler, BootMode, EcamAction, HvArchZoneConfig, HvConfigMemoryRegion,
    HvZoneConfig, MemType, TssSetup, Zone, ZoneRequest,
};

fn arch() -> HvArchZoneConfig {
    HvArchZoneConfig {
        ioapic_base: 0xfec0_0000,
        ioapic_size: 0x1000,
        kernel_entry_gpa: 0x10_0000,
        cmdline_load_gpa: 0x9000,
        setup_load_gpa: 0xa000,
        initrd_load_gpa: 0,
        initrd_size: 0,
        rsdp_memory_region_id: 1,
        acpi_memory_region_id: 3,
        uefi_memory_region_id: 0,
        screen_base: 0,
    }
}

fn config(zone_id: u32, multiboot_enabled: u32) -> HvZoneConfig {
    HvZoneConfig {
        zone_id,
        multiboot_enabled,
        multiboot_info_paddr: 0x7000,
        arch_config: arch(),
    }
}

fn rw(guest_start: u64, host_start: u64, size: u64) -> ZoneRequest {
    let flags = MemFlags { read: true, write: true, execute: false, io: false };
    ZoneRequest::Memory(MemoryRegion { guest_start, host_start, size, flags })
}

#[test]
fn configured_regions() {
    let mut zone = Zone::new(0, CpuSet { bitmap: 1 });
    let region = |mem_type| HvConfigMemoryRegion {
        mem_type,
        physical_start: 0x1000,
        virtual_start: 0x2000,
        size: 0x3000,
    };
    let kinds = [MemType::Ram, MemType::Io, MemType::Virtio, MemType::Reserved];
    let regions: Vec<HvConfigMemoryRegion> = kinds.iter().map(|kind| region(*kind)).collect();
    assert_eq!(zone.pt_init(&regions), Ok(()));
    let mapped = |io| {
        ZoneRequest::Memory(MemoryRegion {
            guest_start: 0x2000,
            host_start: 0x1000,
            size: 0x3000,
            flags: MemFlags { read: true, write: true, execute: true, io },
        })
    };
    let virtio = ZoneRequest::Mmio(MmioRegion {
        start: 0x1000,
        size: 0x3000,
        handler: MmioHandler::Virtio,
        arg: 0x1000,
    });
    assert_eq!(zone.requests, vec![mapped(false), mapped(true), virtio, mapped(false)]);
    zone.irq_bitmap_init(&[1, 2]);
    assert_eq!(zone.requests.len(), 4);
}

#[test]
fn root_zone_devices() {
    let mut zone = Zone::new(0, CpuSet { bitmap: 1 });
    assert_eq!(zone.arch_zone_post_configuration(), Ok(()));
    assert_eq!(
        zone.requests,
        vec![
            rw(0xb000_0000, 0xb000_0000, 0x20_0000),
            rw(0xc000_0000, 0xc000_0000, 0x3eb0_0000),
            rw(0xfeb0_1000, 0xfeb0_1000, 0xf_f000),
            rw(0x8_0000_0000, 0x8_0000_0000, 0x1000_0000),
        ]
    );
}

#[test]
fn other_zone_devices() {
    let mut zone = Zone::new(2, CpuSet { bitmap: 2 });
    assert_eq!(zone.arch_zone_post_configuration(), Ok(()));
    assert_eq!(
        zone.requests,
        vec![
            rw(0xb000_0000, 0xb000_0000, 0x10_0000),
            ZoneRequest::Mmio(MmioRegion {
                start: 0xb010_0000,
                size: 0x1000,
                handler: MmioHandler::EcamVirtioBlkHide,
                arg: 0xb010_0000,
            }),
            rw(0xb010_1000, 0xb010_1000, 0xf_f000),
            rw(0xc000_0000, 0xc000_0000, 0x3eb0_0000),
            rw(0xfeb0_1000, 0xfeb0_1000, 0xf_f000),
            rw(0x8_0000_0000, 0x8_0000_0000, 0x1000_0000),
            rw(0x2000_0000, 0x1_0000_0000, 0x9000_0000),
        ]
    );
    assert_eq!(zone.arch_irqchip_reset(), 2);
}

#[test]
fn device_regions_do_not_overlap() {
    for id in [0, 1] {
        let mut zone = Zone::new(id, CpuSet { bitmap: 1 });
        zone.arch_zone_post_configuration().unwrap();
        let mut ranges: Vec<(u64, u64)> = zone
            .requests
            .iter()
            .map(|request| match request {
                ZoneRequest::Memory(region) => (region.guest_start, region.size),
                ZoneRequest::Mmio(region) => (region.start, region.size),
            })
            .collect();
        ranges.sort();
        for pair in ranges.windows(2) {
            assert!(pair[0].0 + pair[0].1 <= pair[1].0);
        }
    }
}

#[test]
fn io_apic_region() {
    let mut zone = Zone::new(1, CpuSet { bitmap: 2 });
    zone.ioapic_mmio_init(&HvArchZoneConfig { ioapic_base: 0, ..arch() });
    zone.ioapic_mmio_init(&HvArchZoneConfig { ioapic_size: 0, ..arch() });
    assert!(zone.requests.is_empty());
    zone.ioapic_mmio_init(&arch());
    assert_eq!(
        zone.requests,
        vec![ZoneRequest::Mmio(MmioRegion {
            start: 0xfec0_0000,
            size: 0x1000,
            handler: MmioHandler::IoApic,
            arg: 0xfec0_0000,
        })]
    );
}

#[test]
fn multiboot_zone() {
    let zone = Zone::new(1, CpuSet { bitmap: 0b1100 });
    let plan = zone.arch_zone_pre_configuration(&config(1, 1));
    assert_eq!(
        plan.tss,
        Some(TssSetup {
            tss_gpa: 0x804_8000,
            tss_len: 104,
            gdt_entry_gpa: 0x800_14f0 + 4 * 8,
            descriptor: 0x0800_8904_8000_0067,
        })
    );
    assert_eq!(plan.boot_cpu, Some((2, BootMode::Multiboot { info_paddr: 0x7000 })));
    assert_eq!(plan.bitmap_zone, 1);
    assert!(plan.reroute_irqs);
}

#[test]
fn linux_zones() {
    let zone = Zone::new(0, CpuSet { bitmap: 0b0011 });
    let linux = BootMode::Linux { kernel_entry_gpa: 0x10_0000, setup_load_gpa: 0xa000 };
    let root = zone.arch_zone_pre_configuration(&config(0, 1));
    assert_eq!((root.tss, root.boot_cpu), (None, Some((0, linux))));
    assert!(!root.reroute_irqs);
    let other = zone.arch_zone_pre_configuration(&config(3, 0));
    assert_eq!((other.tss, other.boot_cpu), (None, Some((0, linux))));
    assert!(other.reroute_irqs);
    let empty = Zone::new(1, CpuSet { bitmap: 0 });
    assert_eq!(empty.arch_zone_pre_configuration(&config(1, 1)).boot_cpu, None);
}

#[test]
fn virtio_block_device_is_hidden() {
    let access = |address, is_write| MMIOAccess { address, size: 4, is_write, value: 0x1af4 };
    let mut read = access(0, false);
    assert_eq!(ecam_virtio_blk_hide_handler(&mut read, 0xb010_0000), EcamAction::Done);
    assert_eq!(read, MMIOAccess { value: 0xffff_ffff, ..access(0, false) });
    let mut write = access(0, true);
    assert_eq!(ecam_virtio_blk_hide_handler(&mut write, 0xb010_0000), EcamAction::Done);
    assert_eq!(write, access(0, true));
    for is_write in [false, true] {
        let mut other = access(4, is_write);
        assert_eq!(
            ecam_virtio_blk_hide_handler(&mut other, 0xb010_0000),
            EcamAction::PassThrough { hpa: 0xb010_0000 }
        );
        assert_eq!(other, access(4, is_write));
    }
}
