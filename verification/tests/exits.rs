use hvisor_x86::cpu::{CpuSet, GeneralRegisters};
use hvisor_x86::cpuid::{
    answer_cpuid, cpuid_request, emulate_cpuid, handle_cpuid, CpuidRegs, FeatureMasks,
};
use hvisor_x86::error::HvErrorNum;
use hvisor_x86::exception::{
    decode_idt_vectoring, decode_page_fault, dump_instruction_bytes, dump_len, exception_name,
    handle_exception, ExceptionInfo, ExceptionPlan, PageFaultError,
};
use hvisor_x86::io::{
    complete_port_read, find_device, handle_io_instruction, instruction_length, port_read_value,
    GuestLoad, GuestStore, IoAction, PortDevice, PortMap, PortRange, StringIo, VmxIoExitInfo,
};
use hvisor_x86::irqchip::{has_pending_vectors, primary_init_early, IrqChip, IrqSite};
use hvisor_x86::memory::MMIOAccess;
use hvisor_x86::msr::{
    complete_msr_write, handle_msr_read, handle_msr_write, msr_of, select_msr_read,
    select_msr_write, MsrRange, MsrReadSource, MsrWriteTarget,
};
use hvisor_x86::page_walk::{table_indices, PageWalk, WalkStep};
use hvisor_x86::trap::{
    arch_handle_trap, classify_irq, handle_external_interrupt, handle_hypercall, handle_irq,
    handle_s2pt_violation, handle_vmexit, hypercall_request, vmexit_end, HyperCallRequest,
    IrqEffect, IrqRoute, ReservedVectors, Stage2PageFaultInfo, TrapAction, TrapFrame,
    VmexitAction, VmexitEnd, VmxExitInfo, VmxExitReason, VmxInterruptInfo,
};

const REGS: GeneralRegisters = GeneralRegisters {
    rax: 0x1111_2222_3333_4444,
    rbx: 2,
    rcx: 3,
    rdx: 0xaaaa_bbbb_cccc_dddd,
    rsi: 0x5000,
    rdi: 0x6000,
    rbp: 7,
};

const RESERVED: ReservedVectors =
    ReservedVectors { virt_ipi: 0xe0, apic_spurious: 0xf2, apic_error: 0xf1, apic_timer: 0xf0 };

const PORTS: PortMap = PortMap {
    pci_config_addr: PortRange { start: 0xcf8, end: 0xcfc },
    pci_config_data: PortRange { start: 0xcfc, end: 0xd00 },
    uart_com1: PortRange { start: 0x3f8, end: 0x400 },
};

const LAPIC: MsrRange = MsrRange { first: 0x800, last: 0x83f };

fn io(port: u16, access_size: u8, is_in: bool, is_string: bool, is_repeat: bool) -> VmxIoExitInfo {
    VmxIoExitInfo { access_size, is_in, is_string, is_repeat, port }
}

#[test]
fn traps_are_sorted_by_vector() {
    let mut frame = TrapFrame::default();
    frame.vector = 0x20;
    assert_eq!(arch_handle_trap(&frame), TrapAction::Irq(0x20));
    frame.vector = 0x1ff;
    assert_eq!(arch_handle_trap(&frame), TrapAction::Irq(0xff));
    frame.vector = 0x11f;
    frame.error_code = 5;
    frame.rip = 0x99;
    assert_eq!(
        arch_handle_trap(&frame),
        TrapAction::Unhandled { vector: 0x11f, error_code: 5, rip: 0x99 }
    );
}

#[test]
fn interrupt_routes() {
    assert_eq!(classify_irq(&RESERVED, 0xe0, true, 1), IrqRoute::VirtIpi);
    assert_eq!(classify_irq(&RESERVED, 0xf0, true, 0), IrqRoute::Ignore);
    assert_eq!(classify_irq(&RESERVED, 0xf1, true, 0), IrqRoute::Ignore);
    assert_eq!(classify_irq(&RESERVED, 0xf2, true, 0), IrqRoute::Ignore);
    assert_eq!(classify_irq(&RESERVED, 0x1f, true, 0), IrqRoute::Ignore);
    assert_eq!(classify_irq(&RESERVED, 0x30, false, 0), IrqRoute::Ignore);
    assert_eq!(classify_irq(&RESERVED, 0x30, true, 0), IrqRoute::ThisCpu);
    assert_eq!(classify_irq(&RESERVED, 0xdf, true, 1), IrqRoute::RootZone);
    assert_eq!(classify_irq(&RESERVED, 0xec, true, 1), IrqRoute::ThisCpu);
}

#[test]
fn device_interrupts_go_to_the_root_zone() {
    let mut chip = IrqChip::new();
    primary_init_early(&mut chip, 4, 2);
    let site = IrqSite { this_cpu_id: 3, zone_id: 1, cpu_set: CpuSet { bitmap: 0b1000 } };
    let effects = handle_irq(&mut chip, &site, &RESERVED, 0x30, true, Some(1));
    assert_eq!(effects, [IrqEffect::Wakeup(1), IrqEffect::PhysicalEoi]);
    assert!(has_pending_vectors(&chip, 1));
    // The vector is pending already: nobody has to be woken again.
    let effects = handle_irq(&mut chip, &site, &RESERVED, 0x30, true, Some(1));
    assert_eq!(effects, [IrqEffect::Nothing, IrqEffect::PhysicalEoi]);
    let effects = handle_irq(&mut chip, &site, &RESERVED, 0x30, true, None);
    assert_eq!(effects, [IrqEffect::Wakeup(0), IrqEffect::PhysicalEoi]);
    assert!(!has_pending_vectors(&chip, 3));
    let effects = handle_irq(&mut chip, &site, &RESERVED, 0xec, true, Some(1));
    assert_eq!(effects, [IrqEffect::Nothing, IrqEffect::PhysicalEoi]);
    assert!(has_pending_vectors(&chip, 3));
}

#[test]
fn every_interrupt_ends_with_one_eoi() {
    let mut chip = IrqChip::new();
    let site = IrqSite { this_cpu_id: 3, zone_id: 1, cpu_set: CpuSet { bitmap: 0b1000 } };
    let info = VmxInterruptInfo { vector: 0xe0, valid: true };
    let effects = handle_external_interrupt(&mut chip, &site, &RESERVED, &info, true, Some(1));
    assert_eq!(effects, [IrqEffect::HandleVirtIpi, IrqEffect::PhysicalEoi]);
    for vector in [0x31u8, 0xf0, 0xf1, 0xf2, 0x1f] {
        let info = VmxInterruptInfo { vector, valid: true };
        let effects = handle_external_interrupt(&mut chip, &site, &RESERVED, &info, false, None);
        assert_eq!(effects, [IrqEffect::Nothing, IrqEffect::PhysicalEoi]);
    }
    assert!(chip.pending.is_none());
}

#[test]
fn exits_are_dispatched() {
    let exit = |exit_reason| VmxExitInfo {
        entry_failure: false,
        exit_reason,
        exit_instruction_length: 0x102,
        guest_rip: 0,
    };
    for (reason, action) in [
        (VmxExitReason::ExceptionNmi, VmexitAction::Exception),
        (VmxExitReason::ExternalInterrupt, VmexitAction::ExternalInterrupt),
        (VmxExitReason::TripleFault, VmexitAction::TripleFault),
        (VmxExitReason::InterruptWindow, VmexitAction::CloseInterruptWindow),
        (VmxExitReason::Cpuid, VmexitAction::Cpuid),
        (VmxExitReason::Hlt, VmexitAction::AdvanceRip(1)),
        (VmxExitReason::Vmcall, VmexitAction::Hypercall),
        (VmxExitReason::CrAccess, VmexitAction::CrAccess),
        (VmxExitReason::IoInstruction, VmexitAction::IoInstruction),
        (VmxExitReason::MsrRead, VmexitAction::MsrRead),
        (VmxExitReason::MsrWrite, VmexitAction::MsrWrite),
        (VmxExitReason::EptViolation, VmexitAction::EptViolation),
        (VmxExitReason::Other(55), VmexitAction::Unhandled(55)),
    ] {
        assert_eq!(handle_vmexit(Ok(exit(reason))), Ok(action));
        let failed = VmxExitInfo { entry_failure: true, ..exit(reason) };
        assert_eq!(handle_vmexit(Ok(failed)), Ok(VmexitAction::EntryFailed));
    }
    for e in [HvErrorNum::EIO, HvErrorNum::ENOSYS, HvErrorNum::Other(22)] {
        assert_eq!(handle_vmexit(Err(e)), Err(e));
    }
    assert_eq!(instruction_length(&exit(VmxExitReason::Hlt)), 2);
}

#[test]
fn failed_exits_are_fatal() {
    let e = HvErrorNum::ENOSYS;
    for action in [
        VmexitAction::Exception,
        VmexitAction::ExternalInterrupt,
        VmexitAction::CloseInterruptWindow,
        VmexitAction::Cpuid,
        VmexitAction::Hypercall,
        VmexitAction::IoInstruction,
        VmexitAction::MsrRead,
        VmexitAction::MsrWrite,
        VmexitAction::EptViolation,
    ] {
        assert_eq!(vmexit_end(action, Ok(())), VmexitEnd::Return(Ok(())));
        assert_eq!(vmexit_end(action, Err(e)), VmexitEnd::GiveUp(Some(e)));
    }
    // A halt needs nothing but the step over it, and the error of that step is passed on.
    assert_eq!(vmexit_end(VmexitAction::AdvanceRip(1), Ok(())), VmexitEnd::Return(Ok(())));
    assert_eq!(vmexit_end(VmexitAction::AdvanceRip(1), Err(e)), VmexitEnd::Return(Err(e)));
    let other = HvErrorNum::Other(12);
    assert_eq!(vmexit_end(VmexitAction::MsrRead, Err(other)), VmexitEnd::GiveUp(Some(other)));
    for action in [
        VmexitAction::EntryFailed,
        VmexitAction::TripleFault,
        VmexitAction::CrAccess,
        VmexitAction::Unhandled(55),
    ] {
        assert_eq!(vmexit_end(action, Ok(())), VmexitEnd::GiveUp(None));
        assert_eq!(vmexit_end(action, Err(e)), VmexitEnd::GiveUp(Some(e)));
    }
}

#[test]
fn second_stage_faults_become_accesses() {
    let fault = Stage2PageFaultInfo { fault_guest_paddr: 0xfec0_0010, is_write: true };
    assert_eq!(
        handle_s2pt_violation(&fault),
        MMIOAccess { address: 0xfec0_0010, size: 0, is_write: true, value: 0 }
    );
}

#[test]
fn hypercall_arguments_and_results() {
    let mut regs = REGS;
    assert_eq!(
        hypercall_request(&regs),
        HyperCallRequest { code: 0x1111_2222_3333_4444, arg0: 0x6000, arg1: 0x5000 }
    );
    assert_eq!(handle_hypercall(&mut regs, Ok(42)), 3);
    assert_eq!(regs, GeneralRegisters { rax: 42, ..REGS });
    handle_hypercall(&mut regs, Ok(0x8000_0001));
    assert_eq!(regs.rax, 0xffff_ffff_8000_0001);
    handle_hypercall(&mut regs, Err(-22));
    assert_eq!(regs.rax, 0xffff_ffff_ffff_ffea);
    handle_hypercall(&mut regs, Err(38));
    assert_eq!(regs.rax, 38);
}

#[test]
fn cpuid_feature_leaves() {
    let host = CpuidRegs { eax: 1, ebx: 2, ecx: 0x7fff_ffff & !0x0020_0000, edx: 0xffff_ffff };
    let masks =
        FeatureMasks { feature_ecx: 0xffff_fffe, feature_edx: 0xbfff_ffff, extended_ecx: 0xff };
    let seen = emulate_cpuid(1, host, &masks, None);
    assert_eq!(seen.eax, 1);
    assert_eq!(seen.ebx, 2);
    assert_eq!(seen.ecx, 0xffff_ffff & !0x20 & !0x0400_0000 & !1);
    assert_eq!(seen.edx, 0xbfff_ffff);
    let seen = emulate_cpuid(7, host, &masks, None);
    assert_eq!(seen, CpuidRegs { ecx: 0xdf, ..host });
}

#[test]
fn cpuid_frequency_leaves() {
    let host = CpuidRegs { eax: 9, ebx: 8, ecx: 7, edx: 6 };
    let masks = FeatureMasks { feature_ecx: 0, feature_edx: 0, extended_ecx: 0 };
    assert_eq!(
        emulate_cpuid(0x15, host, &masks, Some(2500)),
        CpuidRegs { eax: 1, ebx: 1, ecx: 2_500_000_000, edx: 0 }
    );
    assert_eq!(emulate_cpuid(0x15, host, &masks, Some(5000)).ecx, 705_032_704);
    assert_eq!(emulate_cpuid(0x15, host, &masks, None), host);
    assert_eq!(
        emulate_cpuid(0x16, host, &masks, Some(2500)),
        CpuidRegs { eax: 2500, ebx: 2500, ecx: 2500, edx: 0 }
    );
    assert_eq!(emulate_cpuid(0x16, host, &masks, None), host);
}

#[test]
fn cpuid_hypervisor_leaves() {
    let masks = FeatureMasks { feature_ecx: 0, feature_edx: 0, extended_ecx: 0 };
    let mut regs = GeneralRegisters { rax: 0xffff_ffff_4000_0000, ..REGS };
    assert_eq!(handle_cpuid(&mut regs, &masks, None), 2);
    let word = u32::from_le_bytes(*b"ACRN") as u64;
    assert_eq!(
        regs,
        GeneralRegisters { rax: 0x4000_0001, rbx: word, rcx: word, rdx: word, ..REGS }
    );
    regs.rax = 0x4000_0001;
    handle_cpuid(&mut regs, &masks, None);
    assert_eq!(regs, GeneralRegisters { rax: 0, rbx: 0, rcx: 0, rdx: 0, ..REGS });
}

#[test]
fn cpuid_other_leaves_come_from_the_cpu() {
    let masks = FeatureMasks { feature_ecx: 0, feature_edx: 0, extended_ecx: 0 };
    let mut regs = GeneralRegisters { rax: 0, rcx: 0, ..REGS };
    assert_eq!(cpuid_request(&GeneralRegisters { rcx: 0x5_0000_0001, ..regs }), (0, 1));
    handle_cpuid(&mut regs, &masks, None);
    let host = raw_cpuid::native_cpuid::cpuid_count(0, 0);
    assert_eq!(regs.rax, host.eax as u64);
    assert_eq!(regs.rbx, host.ebx as u64);
    assert_eq!(regs.rcx, host.ecx as u64);
    assert_eq!(regs.rdx, host.edx as u64);
    assert_ne!(regs.rbx, 0);
    let given = CpuidRegs { eax: 1, ebx: 2, ecx: 3, edx: 4 };
    let mut regs = GeneralRegisters { rax: 2, ..REGS };
    assert_eq!(answer_cpuid(&mut regs, given, &masks, None), 2);
    assert_eq!(regs, GeneralRegisters { rax: 1, rbx: 2, rcx: 3, rdx: 4, ..REGS });
}

#[test]
fn msr_reads() {
    assert_eq!(select_msr_read(0x1b, &LAPIC, true), MsrReadSource::HostApicBase);
    assert_eq!(select_msr_read(0x83f, &LAPIC, true), MsrReadSource::VirtLapic(0x83f));
    assert_eq!(select_msr_read(0x83f, &LAPIC, false), MsrReadSource::Zero);
    assert_eq!(select_msr_read(0xc000_0101, &LAPIC, true), MsrReadSource::GuestGsBase);
    assert_eq!(select_msr_read(0xc000_0100, &LAPIC, true), MsrReadSource::GuestFsBase);
    assert_eq!(select_msr_read(0x6e0, &LAPIC, true), MsrReadSource::Unsupported);
    assert_eq!(select_msr_read(0x840, &LAPIC, true), MsrReadSource::Unsupported);

    let mut regs = GeneralRegisters { rcx: 0x9_0000_0802, ..REGS };
    let value = 0xfee0_0000_1234_5678u64;
    assert_eq!(handle_msr_read(&mut regs, &LAPIC, true, Ok(value)), (Ok(value), 2));
    assert_eq!(
        regs,
        GeneralRegisters { rax: 0x1234_5678, rcx: 0x9_0000_0802, rdx: 0xfee0_0000, ..REGS }
    );
    assert_eq!(
        handle_msr_read(&mut regs, &LAPIC, true, Err(HvErrorNum::EIO)).0,
        Err(HvErrorNum::EIO)
    );
    assert_eq!(regs.rax, 0x1234_5678);
    regs.rcx = 0x1b;
    assert_eq!(handle_msr_read(&mut regs, &LAPIC, true, Ok(0xfee0_0100)).0, Ok(0xfee0_0d00));
    regs.rcx = 0x83f;
    assert_eq!(handle_msr_read(&mut regs, &LAPIC, false, Err(HvErrorNum::EIO)).0, Ok(0));
    assert_eq!((regs.rax, regs.rdx), (0, 0));
    regs.rcx = 0xc000_0101;
    assert_eq!(handle_msr_read(&mut regs, &LAPIC, true, Ok(value)).0, Ok(value));
}

#[test]
fn msr_read_errors_leave_the_registers() {
    for (rcx, raw, error) in [
        (0x840u64, Ok(5), HvErrorNum::ENOSYS),
        (0x6e0, Ok(5), HvErrorNum::ENOSYS),
        (0xc000_0101, Err(HvErrorNum::ENOSYS), HvErrorNum::EIO),
        (0xc000_0100, Err(HvErrorNum::ENOSYS), HvErrorNum::EIO),
    ] {
        let before = GeneralRegisters { rcx, ..REGS };
        let mut regs = before;
        assert_eq!(handle_msr_read(&mut regs, &LAPIC, true, raw), (Err(error), 2));
        assert_eq!(regs, before);
    }
}

#[test]
fn msr_writes() {
    let write = |msr: u64, known| handle_msr_write(&GeneralRegisters { rcx: msr, ..REGS }, &LAPIC, known);
    let value = 0xcccc_dddd_3333_4444;
    assert_eq!(write(0x1b, true), (MsrWriteTarget::Ignore, value, 2));
    assert_eq!(write(0x80b, true), (MsrWriteTarget::VirtLapic(0x80b), value, 2));
    assert_eq!(write(0x83f, false), (MsrWriteTarget::Ignore, value, 2));
    assert_eq!(write(0x6e0, true), (MsrWriteTarget::VirtLapic(0x6e0), value, 2));
    assert_eq!(write(0xc000_0101, true), (MsrWriteTarget::GuestGsBase, value, 2));
    assert_eq!(write(0x7_c000_0100, true), (MsrWriteTarget::GuestFsBase, value, 2));
    assert_eq!(write(0x10, true), (MsrWriteTarget::Unsupported, value, 2));
    assert_eq!(msr_of(&GeneralRegisters { rcx: 0x7_c000_0100, ..REGS }), 0xc000_0100);

    assert_eq!(select_msr_write(0x80b, &LAPIC, true), MsrWriteTarget::VirtLapic(0x80b));

    let complete = |msr: u64, known, raw| {
        complete_msr_write(&GeneralRegisters { rcx: msr, ..REGS }, &LAPIC, known, raw)
    };
    assert_eq!(complete(0x1b, true, Err(HvErrorNum::EIO)), Ok(()));
    assert_eq!(complete(0x83f, false, Err(HvErrorNum::EIO)), Ok(()));
    assert_eq!(complete(0x80b, true, Ok(())), Ok(()));
    assert_eq!(complete(0x6e0, true, Err(HvErrorNum::ENOSYS)), Err(HvErrorNum::ENOSYS));
    assert_eq!(complete(0xc000_0100, true, Err(HvErrorNum::ENOSYS)), Err(HvErrorNum::EIO));
    assert_eq!(complete(0xc000_0101, true, Ok(())), Ok(()));
    assert_eq!(complete(0x10, true, Ok(())), Err(HvErrorNum::ENOSYS));
}

#[test]
fn segment_bases_read_back() {
    for rcx in [0xc000_0100u64, 0xc000_0101] {
        let mut regs = GeneralRegisters { rcx, ..REGS };
        let (target, value, _) = handle_msr_write(&regs, &LAPIC, true);
        let source = select_msr_read(msr_of(&regs), &LAPIC, true);
        assert!(matches!(
            (target, source),
            (MsrWriteTarget::GuestFsBase, MsrReadSource::GuestFsBase)
                | (MsrWriteTarget::GuestGsBase, MsrReadSource::GuestGsBase)
        ));
        assert_eq!(handle_msr_read(&mut regs, &LAPIC, true, Ok(value)).0, Ok(value));
        assert_eq!((regs.rax, regs.rdx), (0x3333_4444, 0xcccc_dddd));
    }
}

#[test]
fn errors_of_the_virtual_local_apic_are_passed_on() {
    let other = HvErrorNum::Other(-22);
    let mut regs = GeneralRegisters { rcx: 0x802, ..REGS };
    assert_eq!(handle_msr_read(&mut regs, &LAPIC, true, Err(other)).0, Err(other));
    assert_eq!(complete_msr_write(&regs, &LAPIC, true, Err(other)), Err(other));
    regs.rcx = 0xc000_0101;
    assert_eq!(handle_msr_read(&mut regs, &LAPIC, true, Err(other)).0, Err(HvErrorNum::EIO));
}

#[test]
fn msr_write_back_is_the_identity() {
    let mut regs = GeneralRegisters { rcx: 0x802, ..REGS };
    let value = 0x0123_4567_89ab_cdef;
    handle_msr_read(&mut regs, &LAPIC, true, Ok(value)).0.unwrap();
    assert_eq!(handle_msr_write(&regs, &LAPIC, true).1, value);
}

#[test]
fn port_devices() {
    assert_eq!(find_device(&PORTS, 0xcf8), PortDevice::PciConfig);
    assert_eq!(find_device(&PORTS, 0xcff), PortDevice::PciConfig);
    assert_eq!(find_device(&PORTS, 0xd00), PortDevice::Nothing);
    assert_eq!(find_device(&PORTS, 0x3f8), PortDevice::Console);
    assert_eq!(find_device(&PORTS, 0x400), PortDevice::Nothing);
}

#[test]
fn port_accesses() {
    let act = |info| handle_io_instruction(&info, &REGS, &PORTS);
    for (size, value) in [(1u8, 0x44u32), (2, 0x4444), (4, 0x3333_4444)] {
        assert_eq!(
            act(io(0x3f8, size, false, false, false)),
            Ok(IoAction::Write { device: PortDevice::Console, value })
        );
    }
    assert_eq!(
        act(io(0xcfc, 4, true, false, false)),
        Ok(IoAction::Read { device: PortDevice::PciConfig })
    );
    assert_eq!(act(io(0x3f8, 1, true, true, true)), Ok(IoAction::StringIo));
    assert_eq!(act(io(0x3f8, 1, true, false, true)), Err(HvErrorNum::ENOSYS));
}

#[test]
fn port_reads_merge_into_rax() {
    for (size, rax) in [
        (1u8, 0x1111_2222_3333_44aau64),
        (2, 0x1111_2222_3333_99aa),
        (4, 0x0000_0000_8877_99aa),
    ] {
        for port in [0x3f8u16, 0xcfc] {
            let mut regs = REGS;
            complete_port_read(&mut regs, &io(port, size, true, false, false), &PORTS, 0x8877_99aa);
            assert_eq!(regs, GeneralRegisters { rax, ..REGS });
        }
    }
}

#[test]
fn ports_without_a_device_read_zero() {
    assert_eq!(port_read_value(PortDevice::Nothing, 0x8877_99aa), 0);
    assert_eq!(port_read_value(PortDevice::Console, 0x8877_99aa), 0x8877_99aa);
    assert_eq!(port_read_value(PortDevice::PciConfig, 0x8877_99aa), 0x8877_99aa);
    for (size, rax) in [
        (1u8, 0x1111_2222_3333_4400u64),
        (2, 0x1111_2222_3333_0000),
        (4, 0),
    ] {
        let mut regs = REGS;
        complete_port_read(&mut regs, &io(0x80, size, true, false, false), &PORTS, 0x8877_99aa);
        assert_eq!(regs, GeneralRegisters { rax, ..REGS });
    }
    // A string instruction reads nothing but the console.
    for (port, value) in [(0x3f8u16, 0x12u8), (0x80, 0), (0xcfc, 0)] {
        let mut ins = StringIo::begin(&io(port, 1, true, true, false), &REGS, 0, &PORTS);
        assert_eq!(ins.ins_value(0x12), value as u32);
        assert_eq!(ins.ins_store(0x12), (0x6000, GuestStore::Byte(value)));
    }
}

#[test]
fn string_input() {
    let regs = GeneralRegisters { rcx: 3, rdi: 0x6000, ..REGS };
    let mut ins = StringIo::begin(&io(0x3f8, 2, true, true, true), &regs, 0, &PORTS);
    assert_eq!(ins.ins_port(), Some(0x3f8));
    let mut stores = vec![];
    while ins.remaining > 0 {
        stores.push(ins.ins_store(0x12345));
    }
    assert_eq!(
        stores,
        vec![
            (0x6000, GuestStore::Word(0x2345)),
            (0x6002, GuestStore::Word(0x2345)),
            (0x6004, GuestStore::Word(0x2345)),
        ]
    );
    let mut after = regs;
    ins.finish(&mut after);
    assert_eq!(after, GeneralRegisters { rcx: 0, rdi: 0x6006, ..regs });

    let mut odd = StringIo::begin(&io(0x80, 3, true, true, false), &regs, 0, &PORTS);
    assert_eq!(odd.ins_port(), None);
    assert_eq!(odd.ins_store(0), (0x6000, GuestStore::Nothing));
    assert_eq!((odd.remaining, odd.addr), (0, 0x6003));
    let mut byte = StringIo::begin(&io(0x3f8, 1, true, true, false), &regs, 0, &PORTS);
    assert_eq!(byte.ins_store(0x1ff), (0x6000, GuestStore::Byte(0xff)));
    let mut dword = StringIo::begin(&io(0x3f8, 4, true, true, false), &regs, 0, &PORTS);
    assert_eq!(dword.ins_store(0x1ff), (0x6000, GuestStore::Dword(0x1ff)));
}

#[test]
fn string_output_backward() {
    let regs = GeneralRegisters { rcx: 2, rsi: 2, ..REGS };
    let mut outs = StringIo::begin(&io(0x3f8, 4, false, true, true), &regs, 1 << 10, &PORTS);
    assert_eq!(outs.outs_load(), (2, GuestLoad::Dword));
    assert_eq!(outs.outs_emit(Some(0x41)), Some((0x3f8, 0x41)));
    assert_eq!(outs.outs_load(), (0xffff_ffff_ffff_fffe, GuestLoad::Dword));
    assert_eq!(outs.outs_emit(None), Some((0x3f8, 0)));
    assert_eq!(outs.remaining, 0);
    let mut after = regs;
    outs.finish(&mut after);
    assert_eq!(after, GeneralRegisters { rcx: 0, rsi: 0xffff_ffff_ffff_fffa, ..regs });

    let mut other = StringIo::begin(&io(0x80, 1, false, true, false), &regs, 0, &PORTS);
    assert_eq!(other.outs_load(), (2, GuestLoad::Byte));
    assert_eq!(other.outs_emit(Some(1)), None);
    let mut after = regs;
    other.finish(&mut after);
    assert_eq!(after, GeneralRegisters { rsi: 3, ..regs });
    let mut odd = StringIo::begin(&io(0x3f8, 8, false, true, false), &regs, 0, &PORTS);
    assert_eq!(odd.outs_load().1, GuestLoad::Nothing);
    assert_eq!(odd.outs_emit(Some(9)), Some((0x3f8, 0)));
    let word = StringIo::begin(&io(0x3f8, 2, false, true, false), &regs, 0, &PORTS);
    assert_eq!(word.outs_load().1, GuestLoad::Word);
}

#[test]
fn string_without_accesses() {
    let regs = GeneralRegisters { rcx: 0, ..REGS };
    let ins = StringIo::begin(&io(0x3f8, 1, true, true, true), &regs, 0, &PORTS);
    assert_eq!(ins.remaining, 0);
    let mut after = regs;
    ins.finish(&mut after);
    assert_eq!(after, regs);
}

fn exception(vector: u8) -> ExceptionInfo {
    ExceptionInfo {
        vector,
        rip: 0x1000,
        idtr_base: 0,
        exception_bitmap: 0xffff_ffff,
        fault_vaddr: 0x2000,
        error_code: 6,
    }
}

#[test]
fn exception_plans() {
    let fault = ExceptionPlan {
        clear_exception_bitmap: false,
        walk_fault_vaddr: true,
        walk_rip: true,
        dump_bytes: 16,
        set_cr2: Some(0x2000),
        inject_vector: 14,
        inject_err_code: Some(6),
    };
    assert_eq!(handle_exception(&exception(14)), fault);
    let at_rip = ExceptionInfo { fault_vaddr: 0x1000, ..exception(14) };
    assert!(!handle_exception(&at_rip).walk_rip);
    let null = ExceptionInfo { fault_vaddr: 0, ..exception(14) };
    assert_eq!(handle_exception(&null).set_cr2, None);
    let double = handle_exception(&exception(8));
    assert_eq!((double.inject_vector, double.inject_err_code), (8, Some(0)));
    assert_eq!((double.walk_rip, double.dump_bytes), (true, 0));
    let opcode = handle_exception(&exception(6));
    assert_eq!((opcode.inject_vector, opcode.inject_err_code, opcode.dump_bytes), (6, None, 16));
    let other = handle_exception(&exception(13));
    assert_eq!((other.inject_vector, other.inject_err_code, other.dump_bytes), (13, None, 8));
}

#[test]
fn exception_bitmap_is_cleared_once_the_guest_has_an_idt() {
    let early = exception(3);
    assert!(!handle_exception(&early).clear_exception_bitmap);
    let late = ExceptionInfo { idtr_base: 0x8000, ..early };
    assert!(handle_exception(&late).clear_exception_bitmap);
    let done = ExceptionInfo { exception_bitmap: 0, ..late };
    assert!(!handle_exception(&done).clear_exception_bitmap);
}

#[test]
fn exception_names() {
    let names = [
        "#DE", "#DB", "NMI", "#BP", "#OF", "#BR", "#UD", "#NM", "#DF", "CSO", "#TS", "#NP", "#SS",
        "#GP", "#PF", "RES", "#MF", "#AC", "#MC", "#XM", "#VE",
    ];
    for (vector, name) in names.iter().enumerate() {
        assert_eq!(exception_name(vector as u8), *name);
    }
    assert_eq!(exception_name(21), "RES");
    assert_eq!(exception_name(31), "RES");
    assert_eq!(exception_name(32), "???");
    assert_eq!(exception_name(255), "???");
}

#[test]
fn error_codes_are_taken_apart() {
    assert_eq!(
        decode_page_fault(0b1_0101),
        PageFaultError {
            protection: true,
            write: false,
            user: true,
            reserved: false,
            instruction_fetch: true,
        }
    );
    assert_eq!(
        decode_page_fault(0b0_1010),
        PageFaultError {
            protection: false,
            write: true,
            user: false,
            reserved: true,
            instruction_fetch: false,
        }
    );
    assert_eq!(decode_idt_vectoring(0x8000_0b0e), (0x0e, 3));
}

#[test]
fn instruction_bytes_in_hexadecimal() {
    assert_eq!(dump_instruction_bytes(&[]), b"");
    assert_eq!(dump_instruction_bytes(&[0x0f, 0x0b, 0xa9, 0xf0]), b"0f 0b a9 f0 ");
    let long: Vec<u8> = (0..20).collect();
    assert_eq!(
        dump_instruction_bytes(&long),
        b"00 01 02 03 04 05 06 07 08 09 0a 0b 0c 0d 0e 0f "
    );
    assert_eq!(dump_len(8), 8);
    assert_eq!(dump_len(17), 16);
}

#[test]
fn page_walk_to_a_small_page() {
    let vaddr = (1u64 << 39) | (2 << 30) | (3 << 21) | (4 << 12) | 0x567;
    let mut walk = PageWalk::begin(vaddr, 0x1000);
    for (index, table) in [(1usize, 0x1000u64), (2, 0x2000), (3, 0x3000)] {
        assert_eq!((walk.entry_index(), walk.table), (index, table));
        assert_eq!(walk.step((table + 0x1000) | 0x8000_0000_0000_0003), WalkStep::Descend);
    }
    assert_eq!((walk.entry_index(), walk.level), (4, 1));
    assert_eq!(
        walk.step(0x8000_0000_abcd_e083),
        WalkStep::Page { base: 0xabcd_e000, offset: 0x567, addr: 0xabcd_e567 }
    );
}

#[test]
fn page_walk_to_large_pages() {
    let vaddr = 0x1234_5678;
    let mut walk = PageWalk::begin(vaddr, 0x1000);
    walk.step(0x2003);
    let mut other = walk;
    let mut high = walk;
    assert_eq!(
        walk.step(0x4000_0083),
        WalkStep::Page { base: 0x4000_0000, offset: 0x1234_5678, addr: 0x5234_5678 }
    );
    // Bits 63 to 52 and 29 to 0 of the entry are no part of the address.
    assert_eq!(
        high.step(0xffff_ffff_ffff_ffff),
        WalkStep::Page {
            base: 0x000f_ffff_c000_0000,
            offset: 0x1234_5678,
            addr: 0x000f_ffff_d234_5678,
        }
    );
    assert_eq!(other.step(0x3003), WalkStep::Descend);
    assert_eq!(
        other.step(0x8000_0000_4020_0083),
        WalkStep::Page { base: 0x4020_0000, offset: 0x14_5678, addr: 0x4034_5678 }
    );
}

#[test]
fn page_walk_to_a_large_page_at_a_small_offset() {
    let mut walk = PageWalk::begin(0x1234, 0x1000);
    walk.step(0x2003);
    assert_eq!(
        walk.step(0x4000_0083),
        WalkStep::Page { base: 0x4000_0000, offset: 0x1234, addr: 0x4000_1234 }
    );
}

#[test]
fn indices_of_the_four_tables() {
    let vaddr = (1u64 << 39) | (2 << 30) | (3 << 21) | (4 << 12) | 0x567;
    assert_eq!(table_indices(vaddr), [1, 2, 3, 4]);
    assert_eq!(table_indices(u64::MAX), [511; 4]);
    assert_eq!(table_indices(0xffff_8000_0000_0fff), [256, 0, 0, 0]);
}

#[test]
fn page_walk_stops_at_missing_entries() {
    let mut walk = PageWalk::begin(0x1000, 0x1000);
    assert_eq!(walk.step(0x2002), WalkStep::NotPresent);
    assert_eq!(walk, PageWalk::begin(0x1000, 0x1000));
    // The page size bit means nothing in the top table.
    assert_eq!(walk.step(0x2083), WalkStep::Descend);
    assert_eq!(walk.step(0x80), WalkStep::NotPresent);
}
