use hvisor_x86::cpu::CpuSet;
use hvisor_x86::ioapic::{
    critical_irqs, ioapic_reroute_from_cpus, mmio_ioapic_handler, rte_dest_apic_id, GsiUpdate,
    VirtIoApic,
};
use hvisor_x86::irqchip::{
    check_pending_vectors, clear_vectors, get_irq_cpu, has_pending_vectors, init_virt_ioapic,
    inject_irq, inject_vector, ioapic_inject_irq, irq_dest_apic_id, percpu_init, pop_vector,
    primary_init_early, primary_init_late, IrqChip, IrqSite,
};
use hvisor_x86::memory::MMIOAccess;
use hvisor_x86::pending::{EoiReport, PendingAction, PendingVectors};

const SELECT: u64 = 0;
const WINDOW: u64 = 0x10;

fn chip() -> IrqChip {
    let mut chip = IrqChip::new();
    primary_init_early(&mut chip, 4, 3);
    chip
}

/// APIC ids 0 to 7 in reverse order: id 7 is CPU 0.
const CPU_IDS: [usize; 8] = [7, 6, 5, 4, 3, 2, 1, 0];

fn set_entry(ioapic: &mut VirtIoApic, zone: usize, irq: u64, entry: u64) {
    ioapic.write(zone, SELECT, 0x10 + 2 * irq);
    ioapic.write(zone, WINDOW, entry & 0xffff_ffff);
    ioapic.write(zone, SELECT, 0x11 + 2 * irq);
    ioapic.write(zone, WINDOW, entry >> 32);
}

#[test]
fn cpu_set_first_and_membership() {
    assert_eq!(CpuSet { bitmap: 0 }.first_cpu(), None);
    assert_eq!(CpuSet { bitmap: 0b1100 }.first_cpu(), Some(2));
    assert_eq!(CpuSet { bitmap: 1 << 63 }.first_cpu(), Some(63));
    assert_eq!(CpuSet { bitmap: u64::MAX }.first_cpu(), Some(0));
    assert!(CpuSet { bitmap: 0b1100 }.contains_cpu(3));
    assert!(!CpuSet { bitmap: 0b1100 }.contains_cpu(1));
}

#[test]
fn table_register_reads_back() {
    let mut ioapic = VirtIoApic::new(2);
    ioapic.write(1, SELECT, 0x15);
    ioapic.write(1, WINDOW, 0xdead_beef_0300_0000);
    assert_eq!(ioapic.read(1, WINDOW), 0x0300_0000);
    assert_eq!(ioapic.read(1, SELECT), 0x15);
    ioapic.write(1, SELECT, 0x14);
    assert_eq!(ioapic.read(1, WINDOW), 0);
    ioapic.write(1, WINDOW, 0x1_0000_0041);
    assert_eq!(ioapic.read(1, WINDOW), 0x41);
    assert_eq!(ioapic.inner[1].rte[2], 0x0300_0000_0000_0041);
}

#[test]
fn writes_are_local_to_zone_and_register() {
    let mut ioapic = VirtIoApic::new(2);
    set_entry(&mut ioapic, 0, 0, 0x1111_2222_3333_4444);
    set_entry(&mut ioapic, 0, 23, 0x5555_6666_7777_8888);
    assert_eq!(ioapic.inner[0].rte[0], 0x1111_2222_3333_4444);
    assert_eq!(ioapic.inner[0].rte[23], 0x5555_6666_7777_8888);
    assert_eq!(ioapic.inner[0].rte[1], 0);
    assert_eq!(ioapic.inner[1].rte[0], 0);
}

#[test]
fn table_register_reads_back_later() {
    let mut ioapic = VirtIoApic::new(1);
    ioapic.write(0, SELECT, 0x18);
    ioapic.write(0, WINDOW, 0x1_0000_0034);
    for reg in 0..0x50u64 {
        if reg != 0x18 {
            ioapic.write(0, SELECT, reg);
            ioapic.write(0, WINDOW, 0xffff_ffff);
            ioapic.read(0, WINDOW);
        }
    }
    ioapic.write(0, SELECT, 0x18);
    assert_eq!(ioapic.read(0, WINDOW), 0x34);
}

#[test]
fn select_register_takes_low_word() {
    let mut ioapic = VirtIoApic::new(1);
    ioapic.write(0, SELECT, 0xffff_0000_1234_5678);
    assert_eq!(ioapic.read(0, SELECT), 0x1234_5678);
}

#[test]
fn fixed_registers() {
    let mut ioapic = VirtIoApic::new(1);
    for (reg, value) in [(0u64, 0u64), (1, 0x17_0011), (2, 0), (3, 0), (0xf, 0), (0x40, 0)] {
        ioapic.write(0, SELECT, reg);
        assert_eq!(ioapic.write(0, WINDOW, 0xffff_ffff), None);
        assert_eq!(ioapic.read(0, WINDOW), value, "register {:#x}", reg);
    }
    ioapic.write(0, SELECT, 0x3f);
    ioapic.write(0, WINDOW, 0x77);
    assert_eq!(ioapic.read(0, WINDOW), 0x77);
}

#[test]
fn only_the_root_zone_programs_the_hardware() {
    let mut ioapic = VirtIoApic::new(2);
    ioapic.write(0, SELECT, 0x19);
    let update = ioapic.write(0, WINDOW, 0x0200_0000);
    assert_eq!(update, Some(GsiUpdate { irq: 4, raw: 0x0200_0000_0000_0000 }));
    ioapic.write(1, SELECT, 0x19);
    assert_eq!(ioapic.write(1, WINDOW, 0x0200_0000), None);
    assert_eq!(ioapic.read(1, WINDOW), 0x0200_0000);
}

#[test]
fn mmio_handler_reads_and_writes() {
    let mut ioapic = VirtIoApic::new(1);
    let mut write = MMIOAccess { address: SELECT, size: 4, is_write: true, value: 1 };
    assert_eq!(mmio_ioapic_handler(&mut ioapic, 0, &mut write), None);
    assert_eq!(write.value, 1);
    let mut read = MMIOAccess { address: WINDOW, size: 4, is_write: false, value: 99 };
    assert_eq!(mmio_ioapic_handler(&mut ioapic, 0, &mut read), None);
    assert_eq!(read, MMIOAccess { address: WINDOW, size: 4, is_write: false, value: 0x17_0011 });
    let mut select = MMIOAccess { address: SELECT, size: 4, is_write: true, value: 0x10 };
    mmio_ioapic_handler(&mut ioapic, 0, &mut select);
    let mut entry = MMIOAccess { address: WINDOW, size: 4, is_write: true, value: 0x31 };
    assert_eq!(
        mmio_ioapic_handler(&mut ioapic, 0, &mut entry),
        Some(GsiUpdate { irq: 0, raw: 0x31 })
    );
}

#[test]
fn routing_of_a_line() {
    let mut ioapic = VirtIoApic::new(1);
    set_entry(&mut ioapic, 0, 9, 0xab00_0000_0000_0030);
    assert_eq!(ioapic.irq_dest(9, 0), Some(0xab));
    assert_eq!(ioapic.irq_dest(24, 0), None);
    let mut cpu_ids = [0; 256];
    cpu_ids[0xab] = 3;
    assert_eq!(ioapic.get_irq_cpu(9, 0, &cpu_ids), Some(3));
    assert_eq!(ioapic.get_irq_cpu(24, 0, &cpu_ids), None);
    assert_eq!(ioapic.get_irq_cpu(8, 0, &CPU_IDS), Some(7));
    assert_eq!(ioapic.get_irq_cpu(24, 0, &[]), None);
    assert_eq!(rte_dest_apic_id(0xfe12_3456_789a_bcde), 0xfe);
}

#[test]
fn trigger_delivers_inside_the_zone() {
    let mut ioapic = VirtIoApic::new(1);
    let zone = CpuSet { bitmap: 0b0110 };
    // APIC id 5 is CPU 2.
    set_entry(&mut ioapic, 0, 4, 0x0500_0000_0000_0034);
    assert!(ioapic.line_delivers(4, 0));
    assert!(!ioapic.line_delivers(24, 0));
    assert_eq!(ioapic.trigger(4, 0, &CPU_IDS, &zone), Some((2, 0x34)));
    // A destination outside the zone falls back to the zone's first CPU.
    set_entry(&mut ioapic, 0, 4, 0x0400_0000_0000_0034);
    assert_eq!(ioapic.trigger(4, 0, &CPU_IDS, &zone), Some((1, 0x34)));
    // Masked.
    set_entry(&mut ioapic, 0, 4, 0x0500_0000_0001_0034);
    assert!(!ioapic.line_delivers(4, 0));
    assert_eq!(ioapic.trigger(4, 0, &CPU_IDS, &zone), None);
    // A vector below 0x20 is no interrupt.
    set_entry(&mut ioapic, 0, 4, 0x0500_0000_0000_001f);
    assert_eq!(ioapic.trigger(4, 0, &CPU_IDS, &zone), None);
    set_entry(&mut ioapic, 0, 4, 0x0500_0000_0000_0020);
    assert_eq!(ioapic.trigger(4, 0, &CPU_IDS, &zone), Some((2, 0x20)));
    // Out of range.
    assert_eq!(ioapic.trigger(24, 0, &CPU_IDS, &zone), None);
}

#[test]
fn reroute_moves_critical_lines_to_cpu_0() {
    assert_eq!(critical_irqs(), [4]);
    let zone = CpuSet { bitmap: 0b0100 };
    // APIC ids 5 and 6 are CPUs 2 and 1.
    assert_eq!(
        ioapic_reroute_from_cpus(&zone, 0x0512_3456_789a_bcde, &CPU_IDS, 0x80),
        Some(0x8012_3456_789a_bcde)
    );
    assert_eq!(ioapic_reroute_from_cpus(&zone, 0x0612_3456_789a_bcde, &CPU_IDS, 0x80), None);
    // Once rerouted to CPU 0, the line stays there.
    let rerouted = ioapic_reroute_from_cpus(&zone, 0x0500_0000_0000_0034, &CPU_IDS, 7).unwrap();
    assert_eq!(rerouted, 0x0700_0000_0000_0034);
    assert_eq!(ioapic_reroute_from_cpus(&zone, rerouted, &CPU_IDS, 7), None);
}

#[test]
fn vectors_are_queued_once() {
    let mut pending = PendingVectors::new(2);
    assert!(pending.add_vector(0, 0x40, None, false));
    assert!(!pending.add_vector(0, 0x40, None, false));
    assert!(pending.add_vector(0, 0x40, Some(1), false));
    assert!(pending.add_vector(0, 0x40, None, true));
    assert_eq!(pending.cpu_count(), 2);
    assert_eq!(pending.queue_len(0), 3);
    assert_eq!(pending.queue_len(1), 0);
}

#[test]
fn wakeup_only_for_added_vectors_on_other_cpus() {
    let mut chip = chip();
    assert_eq!(inject_vector(&mut chip, 0, 2, 0x40, None, false), Some(2));
    assert_eq!(inject_vector(&mut chip, 0, 2, 0x40, None, false), None);
    assert_eq!(inject_vector(&mut chip, 0, 2, 0x40, None, true), Some(2));
    assert_eq!(inject_vector(&mut chip, 0, 0, 0x40, None, false), None);
    assert!(has_pending_vectors(&chip, 0));
}

#[test]
fn vectors_are_delivered_in_order() {
    let mut chip = chip();
    for vector in [0x50u8, 0x30, 0x70] {
        inject_vector(&mut chip, 0, 1, vector, None, false);
    }
    for vector in [0x50u8, 0x30, 0x70] {
        assert_eq!(
            check_pending_vectors(&mut chip, 1, true),
            PendingAction::Inject { vector, err_code: None }
        );
        assert!(matches!(pop_vector(&mut chip, 1), EoiReport::First | EoiReport::Quiet));
    }
    assert_eq!(check_pending_vectors(&mut chip, 1, true), PendingAction::Idle);
}

#[test]
fn interrupts_wait_for_the_window_and_the_eoi() {
    let mut chip = chip();
    inject_vector(&mut chip, 0, 1, 0x50, None, false);
    inject_vector(&mut chip, 0, 1, 0x51, None, false);
    // A closed window is no reason to discard anything: no EOI is owed.
    for _ in 0..6000 {
        assert_eq!(check_pending_vectors(&mut chip, 1, false), PendingAction::OpenWindow);
    }
    assert_eq!(
        check_pending_vectors(&mut chip, 1, true),
        PendingAction::Inject { vector: 0x50, err_code: None }
    );
    assert_eq!(check_pending_vectors(&mut chip, 1, true), PendingAction::OpenWindow);
    pop_vector(&mut chip, 1);
    assert_eq!(
        check_pending_vectors(&mut chip, 1, true),
        PendingAction::Inject { vector: 0x51, err_code: None }
    );
}

#[test]
fn exceptions_need_no_eoi() {
    let mut chip = chip();
    inject_vector(&mut chip, 1, 1, 14, Some(2), false);
    assert_eq!(
        check_pending_vectors(&mut chip, 1, false),
        PendingAction::Inject { vector: 14, err_code: Some(2) }
    );
    inject_vector(&mut chip, 1, 1, 0x50, None, false);
    assert!(matches!(check_pending_vectors(&mut chip, 1, true), PendingAction::Inject { .. }));
    // An exception goes in although an EOI is owed, and the EOI stays owed.
    inject_vector(&mut chip, 1, 1, 31, None, false);
    inject_vector(&mut chip, 1, 1, 32, None, false);
    assert_eq!(
        check_pending_vectors(&mut chip, 1, false),
        PendingAction::Inject { vector: 31, err_code: None }
    );
    assert_eq!(check_pending_vectors(&mut chip, 1, true), PendingAction::OpenWindow);
}

#[test]
fn stuck_vector_is_discarded() {
    let mut chip = chip();
    inject_vector(&mut chip, 1, 1, 0x50, None, false);
    check_pending_vectors(&mut chip, 1, true);
    inject_vector(&mut chip, 1, 1, 0x51, None, false);
    inject_vector(&mut chip, 1, 1, 0x52, None, false);
    for _ in 0..4999 {
        assert_eq!(check_pending_vectors(&mut chip, 1, true), PendingAction::OpenWindow);
    }
    assert_eq!(
        check_pending_vectors(&mut chip, 1, true),
        PendingAction::Discard { vector: 0x51, checks: 5000, remaining: 1 }
    );
    assert_eq!(
        check_pending_vectors(&mut chip, 1, true),
        PendingAction::Inject { vector: 0x52, err_code: None }
    );
}

#[test]
fn eoi_reports() {
    let mut chip = chip();
    assert_eq!(pop_vector(&mut chip, 2), EoiReport::First);
    assert_eq!(pop_vector(&mut chip, 2), EoiReport::Quiet);
    inject_vector(&mut chip, 2, 2, 0x50, None, false);
    check_pending_vectors(&mut chip, 2, true);
    inject_vector(&mut chip, 2, 2, 0x51, None, false);
    for _ in 0..100 {
        check_pending_vectors(&mut chip, 2, true);
    }
    assert_eq!(pop_vector(&mut chip, 2), EoiReport::Quiet);
    check_pending_vectors(&mut chip, 2, true);
    inject_vector(&mut chip, 2, 2, 0x52, None, false);
    for _ in 0..101 {
        check_pending_vectors(&mut chip, 2, true);
    }
    assert_eq!(pop_vector(&mut chip, 2), EoiReport::Recovered { total: 4 });
}

#[test]
fn clearing_keeps_the_owed_eoi() {
    let mut chip = chip();
    inject_vector(&mut chip, 1, 1, 0x50, None, false);
    check_pending_vectors(&mut chip, 1, true);
    inject_vector(&mut chip, 1, 1, 0x51, None, false);
    clear_vectors(&mut chip, 1);
    assert!(!has_pending_vectors(&chip, 1));
    assert_eq!(check_pending_vectors(&mut chip, 1, true), PendingAction::Idle);
    inject_vector(&mut chip, 1, 1, 0x52, None, false);
    assert_eq!(check_pending_vectors(&mut chip, 1, true), PendingAction::OpenWindow);
}

#[test]
fn set_up_happens_once() {
    let mut chip = chip();
    inject_vector(&mut chip, 1, 1, 0x50, None, false);
    primary_init_early(&mut chip, 9, 9);
    init_virt_ioapic(&mut chip, 9);
    percpu_init(&mut chip);
    primary_init_late(&mut chip);
    assert_eq!(chip.pending.as_ref().unwrap().cpu_count(), 4);
    assert_eq!(chip.virt_ioapic.as_ref().unwrap().inner.len(), 3);
    assert!(has_pending_vectors(&chip, 1));
    let mut other = IrqChip::new();
    init_virt_ioapic(&mut other, 2);
    assert_eq!(other.virt_ioapic.as_ref().unwrap().inner.len(), 2);
    assert!(other.pending.is_none());
}

#[test]
fn raising_a_line() {
    let mut chip = chip();
    let site = IrqSite { this_cpu_id: 0, zone_id: 1, cpu_set: CpuSet { bitmap: 0b1100 } };
    set_entry(chip.virt_ioapic.as_mut().unwrap(), 1, 4, 0x0900_0000_0000_0044);
    assert_eq!(irq_dest_apic_id(&chip, 4, 1), Some(9));
    assert_eq!(irq_dest_apic_id(&chip, 24, 1), None);
    let mut cpu_ids = [0, 1, 2, 3, 0, 0, 0, 0, 0, 3];
    assert_eq!(get_irq_cpu(&chip, 4, 1, &cpu_ids), 3);
    assert_eq!(get_irq_cpu(&chip, 24, 1, &cpu_ids), 0);
    assert_eq!(ioapic_inject_irq(&mut chip, &site, 4, &cpu_ids, false), Some(3));
    assert_eq!(ioapic_inject_irq(&mut chip, &site, 4, &cpu_ids, false), None);
    assert_eq!(ioapic_inject_irq(&mut chip, &site, 24, &cpu_ids, false), None);
    // Interrupt numbers are taken modulo 256.
    assert_eq!(inject_irq(&mut chip, &site, 0x104, &cpu_ids, true), Some(3));
    // CPU 1 is not in the zone.
    cpu_ids[9] = 1;
    assert_eq!(ioapic_inject_irq(&mut chip, &site, 4, &cpu_ids, false), Some(2));
    assert!(!has_pending_vectors(&chip, 1));
    assert_eq!(
        check_pending_vectors(&mut chip, 3, true),
        PendingAction::Inject { vector: 0x44, err_code: None }
    );
}

#[test]
fn lines_that_do_not_deliver_need_no_queues() {
    let mut chip = IrqChip::new();
    init_virt_ioapic(&mut chip, 1);
    let site = IrqSite { this_cpu_id: 0, zone_id: 0, cpu_set: CpuSet { bitmap: 1 } };
    assert_eq!(ioapic_inject_irq(&mut chip, &site, 24, &CPU_IDS, false), None);
    assert_eq!(ioapic_inject_irq(&mut chip, &site, 4, &[], false), None);
    assert_eq!(inject_irq(&mut chip, &site, 0x1ff, &[], true), None);
    assert!(chip.pending.is_none());
    // Now line 4 delivers, and the queues are there.
    primary_init_early(&mut chip, 1, 1);
    set_entry(chip.virt_ioapic.as_mut().unwrap(), 0, 4, 0x0700_0000_0000_0044);
    assert_eq!(ioapic_inject_irq(&mut chip, &site, 4, &CPU_IDS, false), None);
    assert!(has_pending_vectors(&chip, 0));
}

#[test]
fn one_interrupt_is_in_flight() {
    let mut chip = chip();
    inject_vector(&mut chip, 1, 1, 0x50, None, false);
    check_pending_vectors(&mut chip, 1, true);
    for vector in [0x51u8, 0x52, 13] {
        inject_vector(&mut chip, 1, 1, vector, None, false);
        assert_eq!(check_pending_vectors(&mut chip, 1, true), PendingAction::OpenWindow);
    }
    clear_vectors(&mut chip, 1);
    inject_vector(&mut chip, 1, 1, 13, Some(0), false);
    assert_eq!(
        check_pending_vectors(&mut chip, 1, true),
        PendingAction::Inject { vector: 13, err_code: Some(0) }
    );
    inject_vector(&mut chip, 1, 1, 0x53, None, false);
    assert_eq!(check_pending_vectors(&mut chip, 1, true), PendingAction::OpenWindow);
    pop_vector(&mut chip, 1);
    assert_eq!(
        check_pending_vectors(&mut chip, 1, true),
        PendingAction::Inject { vector: 0x53, err_code: None }
    );
}
