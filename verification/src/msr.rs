//! Reads and writes of model-specific registers by a guest.
use crate::cpu::GeneralRegisters;
use crate::error::HvErrorNum;
use crate::trap::{VM_EXIT_INSTR_LEN_RDMSR, VM_EXIT_INSTR_LEN_WRMSR};
use vstd::prelude::*;

verus! {

/// Base address and mode of the local APIC.
pub const IA32_APIC_BASE: u32 = 0x1b;

/// Deadline of the local APIC timer.
pub const IA32_TSC_DEADLINE: u32 = 0x6e0;

/// Base of the FS segment.
pub const IA32_FS_BASE: u32 = 0xc000_0100;

/// Base of the GS segment.
pub const IA32_GS_BASE: u32 = 0xc000_0101;

/// The bits of the APIC base register that report xAPIC and x2APIC as enabled.
pub const APIC_BASE_ENABLED: u64 = 0xc00;

/// A range of register numbers, both ends included.
#[derive(Clone, Copy, Debug, PartialEq, Eq, Structural)]
pub struct MsrRange {
    pub first: u32,
    pub last: u32,
}

impl MsrRange {
    /// Whether a number lies in the range.
    pub open spec fn has(self, msr: u32) -> bool {
        self.first <= msr <= self.last
    }

    /// Whether a number lies in the range.
    pub fn contains(&self, msr: u32) -> (found: bool)
        ensures
            found == self.has(msr),
    {
        self.first <= msr && msr <= self.last
    }
}

/// Where the value of a register comes from.
#[derive(Clone, Copy, Debug, PartialEq, Eq, Structural)]
pub enum MsrReadSource {
    /// The APIC base register of the CPU.
    HostApicBase,
    /// This register of the virtual local APIC.
    VirtLapic(u32),
    /// Nowhere: the register reads zero.
    Zero,
    /// The base of the guest's GS segment.
    GuestGsBase,
    /// The base of the guest's FS segment.
    GuestFsBase,
    /// The register is not emulated.
    Unsupported,
}

/// Where a written value goes.
#[derive(Clone, Copy, Debug, PartialEq, Eq, Structural)]
pub enum MsrWriteTarget {
    /// Nowhere: the guest thinks that it succeeded.
    Ignore,
    /// This register of the virtual local APIC.
    VirtLapic(u32),
    /// The base of the guest's GS segment.
    GuestGsBase,
    /// The base of the guest's FS segment.
    GuestFsBase,
    /// The register is not emulated.
    Unsupported,
}

/// The low 32 bits of a register.
pub open spec fn low_half(reg: u64) -> u64 {
    (reg % 0x1_0000_0000) as u64
}

/// The number of the register that a guest accesses.
pub open spec fn msr_number(regs: GeneralRegisters) -> u32 {
    low_half(regs.rcx) as u32
}

/// The value that EDX and EAX hold.
pub open spec fn edx_eax(regs: GeneralRegisters) -> u64 {
    (low_half(regs.rdx) * 0x1_0000_0000 + low_half(regs.rax)) as u64
}

/// The registers of a guest with a value in EDX and EAX.
pub open spec fn with_edx_eax(regs: GeneralRegisters, value: u64) -> GeneralRegisters {
    GeneralRegisters { rax: low_half(value), rdx: (value / 0x1_0000_0000) as u64, ..regs }
}

/// Where the value of register `msr` comes from. The registers in `lapic` belong to the virtual
/// local APIC; `known` tells whether the hypervisor has a name for the register.
pub open spec fn read_source(msr: u32, lapic: MsrRange, known: bool) -> MsrReadSource {
    if msr == IA32_APIC_BASE {
        MsrReadSource::HostApicBase
    } else if lapic.has(msr) {
        if known {
            MsrReadSource::VirtLapic(msr)
        } else {
            MsrReadSource::Zero
        }
    } else if msr == IA32_GS_BASE {
        MsrReadSource::GuestGsBase
    } else if msr == IA32_FS_BASE {
        MsrReadSource::GuestFsBase
    } else {
        MsrReadSource::Unsupported
    }
}

/// Where a value written to register `msr` goes. The registers in `lapic` belong to the virtual
/// local APIC; `known` tells whether the hypervisor has a name for the register.
pub open spec fn write_target(msr: u32, lapic: MsrRange, known: bool) -> MsrWriteTarget {
    if msr == IA32_APIC_BASE {
        MsrWriteTarget::Ignore
    } else if lapic.has(msr) {
        if known {
            MsrWriteTarget::VirtLapic(msr)
        } else {
            MsrWriteTarget::Ignore
        }
    } else if msr == IA32_TSC_DEADLINE {
        MsrWriteTarget::VirtLapic(msr)
    } else if msr == IA32_GS_BASE {
        MsrWriteTarget::GuestGsBase
    } else if msr == IA32_FS_BASE {
        MsrWriteTarget::GuestFsBase
    } else {
        MsrWriteTarget::Unsupported
    }
}

/// The number of the register that a guest accesses.
pub fn msr_of(regs: &GeneralRegisters) -> (msr: u32)
    ensures
        msr == msr_number(*regs),
{
    let rcx: u64 = regs.rcx;
    assert(rcx as u32 == rcx % 0x1_0000_0000) by (bit_vector);
    rcx as u32
}

/// Says where the value of a register comes from.
pub fn select_msr_read(msr: u32, lapic: &MsrRange, known: bool) -> (source: MsrReadSource)
    ensures
        source == read_source(msr, *lapic, known),
{
    if msr == IA32_APIC_BASE {
        MsrReadSource::HostApicBase
    } else if lapic.contains(msr) {
        if known {
            MsrReadSource::VirtLapic(msr)
        } else {
            MsrReadSource::Zero
        }
    } else if msr == IA32_GS_BASE {
        MsrReadSource::GuestGsBase
    } else if msr == IA32_FS_BASE {
        MsrReadSource::GuestFsBase
    } else {
        MsrReadSource::Unsupported
    }
}

/// The value that a guest reads, where `raw` is what the source gave.
pub open spec fn read_result(source: MsrReadSource, raw: Result<u64, HvErrorNum>) -> Result<
    u64,
    HvErrorNum,
> {
    match source {
        MsrReadSource::HostApicBase => match raw {
            Ok(base) => Ok(base | APIC_BASE_ENABLED),
            Err(e) => Err(e),
        },
        MsrReadSource::VirtLapic(_) => raw,
        MsrReadSource::Zero => Ok(0),
        MsrReadSource::GuestGsBase | MsrReadSource::GuestFsBase => match raw {
            Ok(base) => Ok(base),
            Err(_) => Err(HvErrorNum::EIO),
        },
        MsrReadSource::Unsupported => Err(HvErrorNum::ENOSYS),
    }
}

/// Hands the value of the register that RCX names to the guest, where `raw` is what its source
/// gave. After an error the registers of the guest stay as they are. Gives back the value or the
/// error, and the length of the instruction to step over in either case.
pub fn handle_msr_read(
    regs: &mut GeneralRegisters,
    lapic: &MsrRange,
    known: bool,
    raw: Result<u64, HvErrorNum>,
) -> (outcome: (Result<u64, HvErrorNum>, u8))
    ensures
        outcome == (
            read_result(read_source(msr_number(*old(regs)), *lapic, known), raw),
            VM_EXIT_INSTR_LEN_RDMSR,
        ),
        *final(regs) == (match outcome.0 {
            Ok(value) => with_edx_eax(*old(regs), value),
            Err(_) => *old(regs),
        }),
{
    let source = select_msr_read(msr_of(regs), lapic, known);
    let res: Result<u64, HvErrorNum> = match source {
        MsrReadSource::HostApicBase => match raw {
            Ok(base) => Ok(base | APIC_BASE_ENABLED),
            Err(e) => Err(e),
        },
        MsrReadSource::VirtLapic(_) => raw,
        MsrReadSource::Zero => Ok(0),
        MsrReadSource::GuestGsBase => match raw {
            Ok(base) => Ok(base),
            Err(_) => Err(HvErrorNum::EIO),
        },
        MsrReadSource::GuestFsBase => match raw {
            Ok(base) => Ok(base),
            Err(_) => Err(HvErrorNum::EIO),
        },
        MsrReadSource::Unsupported => Err(HvErrorNum::ENOSYS),
    };
    if let Ok(value) = res {
        assert(value & 0xffff_ffff == value % 0x1_0000_0000) by (bit_vector);
        assert(value >> 32u64 == value / 0x1_0000_0000) by (bit_vector);
        regs.rax = value & 0xffff_ffff;
        regs.rdx = value >> 32u64;
    }
    (res, VM_EXIT_INSTR_LEN_RDMSR)
}

/// Says where a value written to a register goes.
pub fn select_msr_write(msr: u32, lapic: &MsrRange, known: bool) -> (target: MsrWriteTarget)
    ensures
        target == write_target(msr, *lapic, known),
{
    if msr == IA32_APIC_BASE {
        MsrWriteTarget::Ignore
    } else if lapic.contains(msr) {
        if known {
            MsrWriteTarget::VirtLapic(msr)
        } else {
            MsrWriteTarget::Ignore
        }
    } else if msr == IA32_TSC_DEADLINE {
        MsrWriteTarget::VirtLapic(msr)
    } else if msr == IA32_GS_BASE {
        MsrWriteTarget::GuestGsBase
    } else if msr == IA32_FS_BASE {
        MsrWriteTarget::GuestFsBase
    } else {
        MsrWriteTarget::Unsupported
    }
}

/// Handles a write of the guest to a register: gives back where the value goes, the value, and the
/// length of the instruction to step over in any case.
pub fn handle_msr_write(
    regs: &GeneralRegisters,
    lapic: &MsrRange,
    known: bool,
) -> (outcome: (MsrWriteTarget, u64, u8))
    ensures
        outcome == (
            write_target(msr_number(*regs), *lapic, known),
            edx_eax(*regs),
            VM_EXIT_INSTR_LEN_WRMSR,
        ),
{
    let msr: u32 = msr_of(regs);
    let rax: u64 = regs.rax;
    let rdx: u64 = regs.rdx;
    assert((rax & 0xffff_ffff) | (rdx << 32u64) == (rdx % 0x1_0000_0000) * 0x1_0000_0000 + rax
        % 0x1_0000_0000) by (bit_vector);
    let value: u64 = (rax & 0xffff_ffff) | (rdx << 32u64);
    let target = select_msr_write(msr, lapic, known);
    (target, value, VM_EXIT_INSTR_LEN_WRMSR)
}

/// How a write ends, where `raw` is what the target answered.
pub open spec fn write_result(target: MsrWriteTarget, raw: Result<(), HvErrorNum>) -> Result<
    (),
    HvErrorNum,
> {
    match target {
        MsrWriteTarget::Ignore => Ok(()),
        MsrWriteTarget::VirtLapic(_) => raw,
        MsrWriteTarget::GuestGsBase | MsrWriteTarget::GuestFsBase => match raw {
            Ok(()) => Ok(()),
            Err(_) => Err(HvErrorNum::EIO),
        },
        MsrWriteTarget::Unsupported => Err(HvErrorNum::ENOSYS),
    }
}

/// Says how a write to the register that RCX names ends, where `raw` is what its target answered.
/// The guest is not told.
pub fn complete_msr_write(
    regs: &GeneralRegisters,
    lapic: &MsrRange,
    known: bool,
    raw: Result<(), HvErrorNum>,
) -> (res: Result<(), HvErrorNum>)
    ensures
        res == write_result(write_target(msr_number(*regs), *lapic, known), raw),
{
    match select_msr_write(msr_of(regs), lapic, known) {
        MsrWriteTarget::Ignore => Ok(()),
        MsrWriteTarget::VirtLapic(_) => raw,
        MsrWriteTarget::GuestGsBase | MsrWriteTarget::GuestFsBase => match raw {
            Ok(()) => Ok(()),
            Err(_) => Err(HvErrorNum::EIO),
        },
        MsrWriteTarget::Unsupported => Err(HvErrorNum::ENOSYS),
    }
}

/// A guest that writes back what it has read writes the same value.
pub proof fn law_write_back(regs: GeneralRegisters, value: u64)
    ensures
        edx_eax(with_edx_eax(regs, value)) == value,
{
}

/// A segment base that a guest has written reads back: the same register of the guest is read as
/// was written, and the guest finds there the value that it wrote.
pub proof fn law_segment_base_reads_back(
    writer: GeneralRegisters,
    reader: GeneralRegisters,
    lapic: MsrRange,
    known: bool,
)
    requires
        msr_number(reader) == msr_number(writer),
    ensures
        ({
            let target = write_target(msr_number(writer), lapic, known);
            let source = read_source(msr_number(reader), lapic, known);
            let value = edx_eax(writer);
            &&& target == MsrWriteTarget::GuestGsBase <==> source == MsrReadSource::GuestGsBase
            &&& target == MsrWriteTarget::GuestFsBase <==> source == MsrReadSource::GuestFsBase
            &&& target == MsrWriteTarget::GuestGsBase || target == MsrWriteTarget::GuestFsBase
                ==> read_result(source, Ok(value)) == Ok::<u64, HvErrorNum>(value) && edx_eax(
                with_edx_eax(reader, value),
            ) == value
        }),
{
    law_write_back(reader, edx_eax(writer));
}

/// A read by a guest clears the upper halves of RAX and RDX and touches no other register.
pub proof fn law_read_is_local(regs: GeneralRegisters, value: u64)
    ensures
        with_edx_eax(regs, value).rax < 0x1_0000_0000,
        with_edx_eax(regs, value).rdx < 0x1_0000_0000,
        with_edx_eax(regs, value) == (GeneralRegisters {
            rax: with_edx_eax(regs, value).rax,
            rdx: with_edx_eax(regs, value).rdx,
            ..regs
        }),
{
}

/// Whatever the CPU says, a guest reads its local APIC as enabled, in xAPIC and in x2APIC mode.
pub proof fn law_apic_reads_enabled(base: u64)
    ensures
        ({
            let seen = read_result(MsrReadSource::HostApicBase, Ok(base))->Ok_0;
            seen & APIC_BASE_ENABLED == APIC_BASE_ENABLED && seen & !APIC_BASE_ENABLED == base
                & !APIC_BASE_ENABLED
        }),
{
    assert((base | 0xc00) & 0xc00 == 0xc00 && (base | 0xc00) & !0xc00u64 == base & !0xc00u64)
        by (bit_vector);
}

/// A register that reads from somewhere accepts writes too: only a register outside the emulated
/// ones is refused, and the timer deadline is the one that can be written but not read.
pub proof fn law_read_and_write_agree(msr: u32, lapic: MsrRange, known: bool)
    ensures
        write_target(msr, lapic, known) == MsrWriteTarget::Unsupported ==> read_source(
            msr,
            lapic,
            known,
        ) == MsrReadSource::Unsupported,
        read_source(msr, lapic, known) == MsrReadSource::Unsupported && msr != IA32_TSC_DEADLINE
            ==> write_target(msr, lapic, known) == MsrWriteTarget::Unsupported,
{
}

/// The register that a guest accesses has the number in the low half of RCX.
pub proof fn law_msr_of(regs: &GeneralRegisters, msr: u32)
    requires
        call_ensures(msr_of, (regs,), msr),
    ensures
        msr == regs.rcx % 0x1_0000_0000,
{
}

/// Where a register reads from, by its number: the APIC base comes from the CPU, a register of the
/// virtual local APIC from there, if it has a name, and the segment bases from the guest. A
/// register of the local APIC without a name reads zero, and no other register can be read.
pub proof fn law_select_msr_read(msr: u32, lapic: &MsrRange, known: bool, source: MsrReadSource)
    requires
        call_ensures(select_msr_read, (msr, lapic, known), source),
    ensures
        ({
            let of_lapic = lapic.first <= msr <= lapic.last && msr != 0x1b;
            &&& source is HostApicBase <==> msr == 0x1b
            &&& source is VirtLapic <==> of_lapic && known
            &&& source matches MsrReadSource::VirtLapic(number) ==> number == msr
            &&& source is Zero <==> of_lapic && !known
            &&& source is GuestGsBase <==> msr == 0xc000_0101 && !of_lapic
            &&& source is GuestFsBase <==> msr == 0xc000_0100 && !of_lapic
        }),
{
}

/// Where a written value goes, by the number of the register: as for a read, but the APIC base and
/// the registers of the local APIC without a name ignore it, and the timer deadline goes to the
/// virtual local APIC.
pub proof fn law_select_msr_write(msr: u32, lapic: &MsrRange, known: bool, target: MsrWriteTarget)
    requires
        call_ensures(select_msr_write, (msr, lapic, known), target),
    ensures
        ({
            let of_lapic = lapic.first <= msr <= lapic.last && msr != 0x1b;
            &&& target is Ignore <==> msr == 0x1b || (of_lapic && !known)
            &&& target is VirtLapic <==> (of_lapic && known) || (msr == 0x6e0 && !of_lapic)
            &&& target matches MsrWriteTarget::VirtLapic(number) ==> number == msr
            &&& target is GuestGsBase <==> msr == 0xc000_0101 && !of_lapic
            &&& target is GuestFsBase <==> msr == 0xc000_0100 && !of_lapic
        }),
{
}

/// What a read does with what its source gave. The value reaches the guest unchanged, its low half
/// in RAX and its high half in RDX, but that bits 10 and 11 of the APIC base read as set and that a
/// register of the local APIC without a name reads zero. A register that cannot be read is refused,
/// a segment base that the CPU does not give is an I/O error, and after an error no register of the
/// guest has changed. The two bytes of the instruction are stepped over in any case.
pub proof fn law_handle_msr_read(
    regs: &mut GeneralRegisters,
    lapic: &MsrRange,
    known: bool,
    raw: Result<u64, HvErrorNum>,
    outcome: (Result<u64, HvErrorNum>, u8),
    source: MsrReadSource,
)
    requires
        call_ensures(handle_msr_read, (regs, lapic, known, raw), outcome),
        call_ensures(
            select_msr_read,
            ((old(regs).rcx % 0x1_0000_0000) as u32, lapic, known),
            source,
        ),
    ensures
        outcome.1 == 2,
        source is HostApicBase && raw is Ok ==> {
            let seen = outcome.0->Ok_0;
            &&& outcome.0 is Ok
            &&& seen & 0xc00 == 0xc00
            &&& seen & !0xc00u64 == raw->Ok_0 & !0xc00u64
        },
        source is HostApicBase && raw is Err ==> outcome.0 == raw,
        source is VirtLapic ==> outcome.0 == raw,
        source is Zero ==> outcome.0 == Ok::<u64, HvErrorNum>(0),
        source is GuestGsBase || source is GuestFsBase ==> {
            &&& raw is Ok ==> outcome.0 == raw
            &&& raw is Err ==> outcome.0 == Err::<u64, HvErrorNum>(HvErrorNum::EIO)
        },
        source is Unsupported ==> outcome.0 == Err::<u64, HvErrorNum>(HvErrorNum::ENOSYS),
        outcome.0 matches Ok(value) ==> {
            &&& final(regs).rax < 0x1_0000_0000
            &&& final(regs).rdx < 0x1_0000_0000
            &&& final(regs).rdx * 0x1_0000_0000 + final(regs).rax == value
        },
        outcome.0 is Err ==> final(regs).rax == old(regs).rax && final(regs).rdx == old(regs).rdx,
        final(regs).rbx == old(regs).rbx,
        final(regs).rcx == old(regs).rcx,
        final(regs).rsi == old(regs).rsi,
        final(regs).rdi == old(regs).rdi,
        final(regs).rbp == old(regs).rbp,
{
    if raw is Ok {
        law_apic_reads_enabled(raw->Ok_0);
    }
}

/// A write is for the register in the low half of RCX, carries RDX's low half above RAX's low half,
/// and steps over two bytes.
pub proof fn law_handle_msr_write(
    regs: &GeneralRegisters,
    lapic: &MsrRange,
    known: bool,
    outcome: (MsrWriteTarget, u64, u8),
    target: MsrWriteTarget,
)
    requires
        call_ensures(handle_msr_write, (regs, lapic, known), outcome),
        call_ensures(
            select_msr_write,
            ((regs.rcx % 0x1_0000_0000) as u32, lapic, known),
            target,
        ),
    ensures
        outcome.0 == target,
        outcome.1 % 0x1_0000_0000 == regs.rax % 0x1_0000_0000,
        outcome.1 / 0x1_0000_0000 == regs.rdx % 0x1_0000_0000,
        outcome.2 == 2,
{
}

/// How a write ends: an ignored one well, one to the virtual local APIC as that answers, one to a
/// segment base with an I/O error where the CPU refuses it, and any other is refused.
pub proof fn law_complete_msr_write(
    regs: &GeneralRegisters,
    lapic: &MsrRange,
    known: bool,
    raw: Result<(), HvErrorNum>,
    res: Result<(), HvErrorNum>,
    target: MsrWriteTarget,
)
    requires
        call_ensures(complete_msr_write, (regs, lapic, known, raw), res),
        call_ensures(
            select_msr_write,
            ((regs.rcx % 0x1_0000_0000) as u32, lapic, known),
            target,
        ),
    ensures
        target is Ignore ==> res is Ok,
        target is VirtLapic ==> res == raw,
        target is GuestGsBase || target is GuestFsBase ==> {
            &&& res is Ok <==> raw is Ok
            &&& res is Err ==> res->Err_0 == HvErrorNum::EIO
        },
        target is Unsupported ==> res is Err && res->Err_0 == HvErrorNum::ENOSYS,
{
}

} // verus!
