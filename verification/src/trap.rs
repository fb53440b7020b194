//! Traps of the host and exits of the guest: what each of them calls for.
use crate::cpu::GeneralRegisters;
use crate::error::HvErrorNum;
use crate::irqchip::{inject_vector, others_kept, wakeup_target, IrqChip, IrqSite};
use crate::memory::MMIOAccess;
use crate::pending::law_request_is_pending;
use vstd::prelude::*;

verus! {

/// The first vector that is an interrupt and no exception.
pub const IRQ_VECTOR_START: u8 = 0x20;

/// The first vector of the interrupts that a CPU's own local APIC raises.
pub const LAPIC_LOCAL_VECTOR_START: u8 = 0xe0;

/// Length of the CPUID instruction.
pub const VM_EXIT_INSTR_LEN_CPUID: u8 = 2;

/// Length of the HLT instruction.
pub const VM_EXIT_INSTR_LEN_HLT: u8 = 1;

/// Length of the RDMSR instruction.
pub const VM_EXIT_INSTR_LEN_RDMSR: u8 = 2;

/// Length of the WRMSR instruction.
pub const VM_EXIT_INSTR_LEN_WRMSR: u8 = 2;

/// Length of the VMCALL instruction.
pub const VM_EXIT_INSTR_LEN_VMCALL: u8 = 3;

/// The registers that the trap entry has saved.
#[derive(Debug, Default, Clone, Copy)]
pub struct TrapFrame {
    pub usr: [u64; 15],
    /// Pushed by the trap entry.
    pub vector: u64,
    pub error_code: u64,
    /// Pushed by the CPU.
    pub rip: u64,
    pub cs: u64,
    pub rflags: u64,
    pub rsp: u64,
    pub ss: u64,
}

/// What a trap of the host calls for.
#[derive(Clone, Copy, Debug, PartialEq, Eq, Structural)]
pub enum TrapAction {
    /// Handle this interrupt vector.
    Irq(u8),
    /// An exception that the hypervisor does not handle: report it.
    Unhandled { vector: u64, error_code: u64, rip: u64 },
}

/// Sorts a trap of the host: interrupt vectors go to the interrupt handler, exceptions are
/// reported. The vector is the low eight bits of what the trap entry pushed.
pub fn arch_handle_trap(tf: &TrapFrame) -> (action: TrapAction)
    ensures
        action == (if tf.vector % 0x100 >= IRQ_VECTOR_START {
            TrapAction::Irq((tf.vector % 0x100) as u8)
        } else {
            TrapAction::Unhandled { vector: tf.vector, error_code: tf.error_code, rip: tf.rip }
        }),
{
    let raw: u64 = tf.vector;
    assert(raw as u8 == raw % 0x100) by (bit_vector);
    let vector: u8 = raw as u8;
    if vector >= IRQ_VECTOR_START {
        TrapAction::Irq(vector)
    } else {
        TrapAction::Unhandled { vector: tf.vector, error_code: tf.error_code, rip: tf.rip }
    }
}

/// The vectors that the hypervisor keeps for itself.
#[derive(Clone, Copy, Debug, PartialEq, Eq, Structural)]
pub struct ReservedVectors {
    pub virt_ipi: u8,
    pub apic_spurious: u8,
    pub apic_error: u8,
    pub apic_timer: u8,
}

/// Where an interrupt vector belongs.
#[derive(Clone, Copy, Debug, PartialEq, Eq, Structural)]
pub enum IrqRoute {
    /// To the handler of virtual IPIs.
    VirtIpi,
    /// Nowhere.
    Ignore,
    /// To the guest of the CPU that took it.
    ThisCpu,
    /// To the first CPU of the root zone.
    RootZone,
}

/// Where an interrupt vector belongs that arrives on a CPU of zone `zone_id`; `power_on` tells
/// whether that CPU runs a guest.
///
/// Interrupts of the local APIC fire on the CPU that programmed it and belong to the zone that
/// runs there. Device interrupts always belong to the root zone.
pub open spec fn irq_route(
    reserved: ReservedVectors,
    vector: u8,
    power_on: bool,
    zone_id: usize,
) -> IrqRoute {
    if vector == reserved.virt_ipi {
        IrqRoute::VirtIpi
    } else if vector == reserved.apic_spurious || vector == reserved.apic_error || vector
        == reserved.apic_timer || vector < IRQ_VECTOR_START || !power_on {
        IrqRoute::Ignore
    } else if zone_id == 0 || vector >= LAPIC_LOCAL_VECTOR_START {
        IrqRoute::ThisCpu
    } else {
        IrqRoute::RootZone
    }
}

/// Says where an interrupt vector belongs.
pub fn classify_irq(
    reserved: &ReservedVectors,
    vector: u8,
    power_on: bool,
    zone_id: usize,
) -> (route: IrqRoute)
    ensures
        route == irq_route(*reserved, vector, power_on, zone_id),
{
    if vector == reserved.virt_ipi {
        return IrqRoute::VirtIpi;
    }
    if vector == reserved.apic_spurious || vector == reserved.apic_error || vector
        == reserved.apic_timer {
        return IrqRoute::Ignore;
    }
    if vector >= IRQ_VECTOR_START && power_on {
        let is_lapic_local = vector >= LAPIC_LOCAL_VECTOR_START;
        if zone_id == 0 || is_lapic_local {
            IrqRoute::ThisCpu
        } else {
            IrqRoute::RootZone
        }
    } else {
        IrqRoute::Ignore
    }
}

/// A step that is left to do after an interrupt was routed.
#[derive(Clone, Copy, Debug, PartialEq, Eq, Structural)]
pub enum IrqEffect {
    /// Nothing.
    Nothing,
    /// Run the handler of virtual IPIs.
    HandleVirtIpi,
    /// Send a wakeup IPI to this CPU.
    Wakeup(usize),
    /// Send an EOI to the physical local APIC.
    PhysicalEoi,
}

/// The CPU whose guest gets a vector on this route; `root_first_cpu` is the first CPU of the root
/// zone, if it has one.
pub open spec fn route_cpu(route: IrqRoute, site: IrqSite, root_first_cpu: Option<usize>) -> usize {
    if route == IrqRoute::RootZone {
        match root_first_cpu {
            Some(cpu) => cpu,
            None => 0,
        }
    } else {
        site.this_cpu_id
    }
}

/// Whether a route ends in the queue of a CPU.
pub open spec fn route_injects(route: IrqRoute) -> bool {
    route == IrqRoute::ThisCpu || route == IrqRoute::RootZone
}

/// The step that a wakeup stands for.
pub open spec fn wakeup_effect(wakeup: Option<usize>) -> IrqEffect {
    match wakeup {
        Some(cpu) => IrqEffect::Wakeup(cpu),
        None => IrqEffect::Nothing,
    }
}

/// What is left to do after a vector was routed, in this order: what the route calls for, then the
/// EOI to the physical local APIC.
pub open spec fn irq_effects(
    before: IrqChip,
    site: IrqSite,
    route: IrqRoute,
    vector: u8,
    root_first_cpu: Option<usize>,
) -> Seq<IrqEffect> {
    let cpu = route_cpu(route, site, root_first_cpu);
    let first = match route {
        IrqRoute::VirtIpi => IrqEffect::HandleVirtIpi,
        IrqRoute::Ignore => IrqEffect::Nothing,
        _ => wakeup_effect(
            wakeup_target(
                before.queues()[cpu as int].accepts(vector, None, false),
                cpu,
                site.this_cpu_id,
            ),
        ),
    };
    seq![first, IrqEffect::PhysicalEoi]
}

/// `after` is what routing a vector makes of `before`.
pub open spec fn irq_routed(
    before: IrqChip,
    after: IrqChip,
    site: IrqSite,
    route: IrqRoute,
    vector: u8,
    root_first_cpu: Option<usize>,
) -> bool {
    if route_injects(route) {
        let cpu = route_cpu(route, site, root_first_cpu) as int;
        &&& after.pending_ready()
        &&& after.virt_ioapic == before.virt_ioapic
        &&& after.queues() == before.queues().update(
            cpu,
            before.queues()[cpu].added(vector, None, false),
        )
    } else {
        after == before
    }
}

/// Handles an interrupt that arrived at `site`. Gives back what is left to do, in this order.
pub fn handle_irq(
    chip: &mut IrqChip,
    site: &IrqSite,
    reserved: &ReservedVectors,
    vector: u8,
    power_on: bool,
    root_first_cpu: Option<usize>,
) -> (effects: [IrqEffect; 2])
    requires
        ({
            let route = irq_route(*reserved, vector, power_on, site.zone_id);
            route_injects(route) ==> {
                &&& old(chip).pending_ready()
                &&& route_cpu(route, *site, root_first_cpu) < old(chip).queues().len()
            }
        }),
    ensures
        irq_routed(
            *old(chip),
            *final(chip),
            *site,
            irq_route(*reserved, vector, power_on, site.zone_id),
            vector,
            root_first_cpu,
        ),
        effects@ == irq_effects(
            *old(chip),
            *site,
            irq_route(*reserved, vector, power_on, site.zone_id),
            vector,
            root_first_cpu,
        ),
{
    let first = match classify_irq(reserved, vector, power_on, site.zone_id) {
        IrqRoute::VirtIpi => IrqEffect::HandleVirtIpi,
        IrqRoute::Ignore => IrqEffect::Nothing,
        IrqRoute::ThisCpu => wake(
            inject_vector(chip, site.this_cpu_id, site.this_cpu_id, vector, None, false),
        ),
        IrqRoute::RootZone => {
            let cpu: usize = match root_first_cpu {
                Some(cpu) => cpu,
                None => 0,
            };
            wake(inject_vector(chip, site.this_cpu_id, cpu, vector, None, false))
        },
    };
    [first, IrqEffect::PhysicalEoi]
}

/// The step that a wakeup stands for.
fn wake(wakeup: Option<usize>) -> (effect: IrqEffect)
    ensures
        effect == wakeup_effect(wakeup),
{
    match wakeup {
        Some(cpu) => IrqEffect::Wakeup(cpu),
        None => IrqEffect::Nothing,
    }
}

/// The interrupt that made the guest exit.
#[derive(Clone, Copy, Debug, PartialEq, Eq, Structural)]
pub struct VmxInterruptInfo {
    pub vector: u8,
    pub valid: bool,
}

/// Handles an exit for an external interrupt. Gives back what is left to do, in this order.
pub fn handle_external_interrupt(
    chip: &mut IrqChip,
    site: &IrqSite,
    reserved: &ReservedVectors,
    int_info: &VmxInterruptInfo,
    power_on: bool,
    root_first_cpu: Option<usize>,
) -> (effects: [IrqEffect; 2])
    requires
        int_info.valid,
        ({
            let route = irq_route(*reserved, int_info.vector, power_on, site.zone_id);
            route_injects(route) ==> {
                &&& old(chip).pending_ready()
                &&& route_cpu(route, *site, root_first_cpu) < old(chip).queues().len()
            }
        }),
    ensures
        irq_routed(
            *old(chip),
            *final(chip),
            *site,
            irq_route(*reserved, int_info.vector, power_on, site.zone_id),
            int_info.vector,
            root_first_cpu,
        ),
        effects@ == irq_effects(
            *old(chip),
            *site,
            irq_route(*reserved, int_info.vector, power_on, site.zone_id),
            int_info.vector,
            root_first_cpu,
        ),
{
    handle_irq(chip, site, reserved, int_info.vector, power_on, root_first_cpu)
}

/// An access that the second-stage page table did not allow.
#[derive(Clone, Copy, Debug, PartialEq, Eq, Structural)]
pub struct Stage2PageFaultInfo {
    pub fault_guest_paddr: u64,
    pub is_write: bool,
}

/// The memory-mapped access that a second-stage page fault stands for.
pub fn handle_s2pt_violation(fault_info: &Stage2PageFaultInfo) -> (mmio: MMIOAccess)
    ensures
        mmio == (MMIOAccess {
            address: fault_info.fault_guest_paddr,
            size: 0,
            is_write: fault_info.is_write,
            value: 0,
        }),
{
    MMIOAccess {
        address: fault_info.fault_guest_paddr,
        size: 0,
        is_write: fault_info.is_write,
        value: 0,
    }
}

/// A hypercall with its arguments.
#[derive(Clone, Copy, Debug, PartialEq, Eq, Structural)]
pub struct HyperCallRequest {
    pub code: u64,
    pub arg0: u64,
    pub arg1: u64,
}

/// The hypercall that the guest asks for.
pub fn hypercall_request(regs: &GeneralRegisters) -> (request: HyperCallRequest)
    ensures
        request == (HyperCallRequest { code: regs.rax, arg0: regs.rdi, arg1: regs.rsi }),
{
    HyperCallRequest { code: regs.rax, arg0: regs.rdi, arg1: regs.rsi }
}

/// A 32-bit two's complement number, extended to 64 bits.
pub open spec fn sign_extended(low: int) -> u64 {
    if low < 0x8000_0000 {
        low as u64
    } else {
        (low + 0xffff_ffff_0000_0000) as u64
    }
}

/// What a guest finds in RAX after a hypercall: the low 32 bits of the value, or the error code.
/// Both are signed 32-bit numbers.
pub open spec fn hypercall_result(result: Result<usize, i32>) -> u64 {
    match result {
        Ok(value) => sign_extended(value as int % 0x1_0000_0000),
        Err(code) => if code >= 0 {
            code as u64
        } else {
            (code + 0x1_0000_0000_0000_0000) as u64
        },
    }
}

/// Hands the result of a hypercall to the guest. Gives back the length of the instruction to step
/// over.
pub fn handle_hypercall(regs: &mut GeneralRegisters, result: Result<usize, i32>) -> (len: u8)
    ensures
        *final(regs) == (GeneralRegisters { rax: hypercall_result(result), ..*old(regs) }),
        len == VM_EXIT_INSTR_LEN_VMCALL,
{
    let code: i32 = match result {
        Ok(value) => {
            let wide: u64 = value as u64;
            assert(wide as i32 as u64 == if wide % 0x1_0000_0000 < 0x8000_0000 {
                (wide % 0x1_0000_0000) as u64
            } else {
                (wide % 0x1_0000_0000 + 0xffff_ffff_0000_0000) as u64
            }) by (bit_vector);
            wide as i32
        },
        Err(code) => {
            assert(code as u64 == if code >= 0 {
                code as u64
            } else {
                (code + 0x1_0000_0000_0000_0000) as u64
            }) by (bit_vector);
            code
        },
    };
    regs.rax = code as u64;
    VM_EXIT_INSTR_LEN_VMCALL
}

/// Why the guest exited.
#[derive(Clone, Copy, Debug, PartialEq, Eq, Structural)]
pub enum VmxExitReason {
    ExceptionNmi,
    ExternalInterrupt,
    TripleFault,
    InterruptWindow,
    Cpuid,
    Hlt,
    Vmcall,
    CrAccess,
    IoInstruction,
    MsrRead,
    MsrWrite,
    EptViolation,
    /// Any other reason, with its number.
    Other(u32),
}

/// An exit of the guest.
#[derive(Clone, Copy, Debug, PartialEq, Eq, Structural)]
pub struct VmxExitInfo {
    pub entry_failure: bool,
    pub exit_reason: VmxExitReason,
    pub exit_instruction_length: u32,
    pub guest_rip: u64,
}

/// What an exit of the guest calls for.
#[derive(Clone, Copy, Debug, PartialEq, Eq, Structural)]
pub enum VmexitAction {
    /// The guest could not be entered: give up.
    EntryFailed,
    Exception,
    ExternalInterrupt,
    /// The guest is beyond help: give up.
    TripleFault,
    /// Disable interrupt-window exiting.
    CloseInterruptWindow,
    Cpuid,
    /// Step over an instruction of this length.
    AdvanceRip(u8),
    Hypercall,
    /// Accesses to control registers are not emulated: give up.
    CrAccess,
    IoInstruction,
    MsrRead,
    MsrWrite,
    EptViolation,
    /// No handler: give up.
    Unhandled(u32),
}

/// What an exit of the guest calls for.
pub open spec fn vmexit_action(exit_info: VmxExitInfo) -> VmexitAction {
    if exit_info.entry_failure {
        VmexitAction::EntryFailed
    } else {
        match exit_info.exit_reason {
            VmxExitReason::ExceptionNmi => VmexitAction::Exception,
            VmxExitReason::ExternalInterrupt => VmexitAction::ExternalInterrupt,
            VmxExitReason::TripleFault => VmexitAction::TripleFault,
            VmxExitReason::InterruptWindow => VmexitAction::CloseInterruptWindow,
            VmxExitReason::Cpuid => VmexitAction::Cpuid,
            VmxExitReason::Hlt => VmexitAction::AdvanceRip(VM_EXIT_INSTR_LEN_HLT),
            VmxExitReason::Vmcall => VmexitAction::Hypercall,
            VmxExitReason::CrAccess => VmexitAction::CrAccess,
            VmxExitReason::IoInstruction => VmexitAction::IoInstruction,
            VmxExitReason::MsrRead => VmexitAction::MsrRead,
            VmxExitReason::MsrWrite => VmexitAction::MsrWrite,
            VmxExitReason::EptViolation => VmexitAction::EptViolation,
            VmxExitReason::Other(number) => VmexitAction::Unhandled(number),
        }
    }
}

/// Says what an exit of the guest calls for, where `exit_info` is what the CPU told of it. While
/// the CPU tells nothing, its error is passed on.
pub fn handle_vmexit(exit_info: Result<VmxExitInfo, HvErrorNum>) -> (action: Result<
    VmexitAction,
    HvErrorNum,
>)
    ensures
        action == (match exit_info {
            Ok(info) => Ok(vmexit_action(info)),
            Err(e) => Err(e),
        }),
{
    let info: VmxExitInfo = match exit_info {
        Ok(info) => info,
        Err(e) => return Err(e),
    };
    if info.entry_failure {
        return Ok(VmexitAction::EntryFailed);
    }
    let action = match info.exit_reason {
        VmxExitReason::ExceptionNmi => VmexitAction::Exception,
        VmxExitReason::ExternalInterrupt => VmexitAction::ExternalInterrupt,
        VmxExitReason::TripleFault => VmexitAction::TripleFault,
        VmxExitReason::InterruptWindow => VmexitAction::CloseInterruptWindow,
        VmxExitReason::Cpuid => VmexitAction::Cpuid,
        VmxExitReason::Hlt => VmexitAction::AdvanceRip(VM_EXIT_INSTR_LEN_HLT),
        VmxExitReason::Vmcall => VmexitAction::Hypercall,
        VmxExitReason::CrAccess => VmexitAction::CrAccess,
        VmxExitReason::IoInstruction => VmexitAction::IoInstruction,
        VmxExitReason::MsrRead => VmexitAction::MsrRead,
        VmxExitReason::MsrWrite => VmexitAction::MsrWrite,
        VmxExitReason::EptViolation => VmexitAction::EptViolation,
        VmxExitReason::Other(number) => VmexitAction::Unhandled(number),
    };
    Ok(action)
}

/// How the handling of an exit ends.
#[derive(Clone, Copy, Debug, PartialEq, Eq)]
pub enum VmexitEnd {
    /// The handler returns this.
    Return(Result<(), HvErrorNum>),
    /// The hypervisor cannot go on; this error is the cause, if one came up.
    GiveUp(Option<HvErrorNum>),
}

/// Whether an action leaves no way on, however it is carried out.
pub open spec fn is_fatal(action: VmexitAction) -> bool {
    action is EntryFailed || action is TripleFault || action is CrAccess || action is Unhandled
}

/// How the handling of an exit ends, where `res` is how its action went. An error is passed on
/// only from stepping over an instruction that needs nothing else; any other error is fatal.
pub open spec fn vmexit_ending(action: VmexitAction, res: Result<(), HvErrorNum>) -> VmexitEnd {
    if is_fatal(action) || (res is Err && !(action is AdvanceRip)) {
        VmexitEnd::GiveUp(
            match res {
                Ok(()) => None,
                Err(e) => Some(e),
            },
        )
    } else {
        VmexitEnd::Return(res)
    }
}

/// Says how the handling of an exit ends, where `res` is how its action went.
pub fn vmexit_end(action: VmexitAction, res: Result<(), HvErrorNum>) -> (end: VmexitEnd)
    ensures
        end == vmexit_ending(action, res),
{
    match action {
        VmexitAction::EntryFailed
        | VmexitAction::TripleFault
        | VmexitAction::CrAccess
        | VmexitAction::Unhandled(_) => match res {
            Ok(()) => VmexitEnd::GiveUp(None),
            Err(e) => VmexitEnd::GiveUp(Some(e)),
        },
        VmexitAction::AdvanceRip(_) => VmexitEnd::Return(res),
        _ => match res {
            Ok(()) => VmexitEnd::Return(res),
            Err(e) => VmexitEnd::GiveUp(Some(e)),
        },
    }
}

/// An exit that is handled without an error lets the guest go on, unless nothing can be done about
/// it; and whoever handles an exit sees an error only where it came from reading the exit or from
/// stepping over a halt.
pub proof fn law_errors_do_not_escape(info: VmxExitInfo, res: Result<(), HvErrorNum>)
    ensures
        ({
            let action = vmexit_action(info);
            let end = vmexit_ending(action, res);
            &&& res is Ok && !is_fatal(action) ==> end == VmexitEnd::Return(res)
            &&& is_fatal(action) ==> end is GiveUp
            &&& end matches VmexitEnd::Return(Err(e)) ==> res == Err::<(), HvErrorNum>(e)
                && !info.entry_failure && info.exit_reason is Hlt
        }),
{
}

/// Every interrupt is acknowledged to the physical local APIC exactly once, as the last step, and
/// the handler of virtual IPIs runs only for their vector.
pub proof fn law_one_eoi_last(
    before: IrqChip,
    site: IrqSite,
    reserved: ReservedVectors,
    vector: u8,
    power_on: bool,
    root_first_cpu: Option<usize>,
)
    ensures
        ({
            let route = irq_route(reserved, vector, power_on, site.zone_id);
            let effects = irq_effects(before, site, route, vector, root_first_cpu);
            &&& effects.len() > 0
            &&& forall|i: int|
                0 <= i < effects.len() ==> (#[trigger] effects[i] == IrqEffect::PhysicalEoi <==> i
                    == effects.len() - 1)
            &&& effects.contains(IrqEffect::HandleVirtIpi) <==> vector == reserved.virt_ipi
        }),
{
    let route = irq_route(reserved, vector, power_on, site.zone_id);
    let effects = irq_effects(before, site, route, vector, root_first_cpu);
    assert(effects[0] == IrqEffect::HandleVirtIpi <==> vector == reserved.virt_ipi);
}

/// A device interrupt never enters a queue outside the root zone: on a CPU of another zone it goes
/// to the root zone's first CPU, or to CPU 0 while that zone has none.
pub proof fn law_device_irq_goes_to_root(
    reserved: ReservedVectors,
    vector: u8,
    power_on: bool,
    site: IrqSite,
    root_first_cpu: Option<usize>,
)
    requires
        site.zone_id != 0,
        vector < LAPIC_LOCAL_VECTOR_START,
    ensures
        ({
            let route = irq_route(reserved, vector, power_on, site.zone_id);
            route_injects(route) ==> route_cpu(route, site, root_first_cpu) == (
            match root_first_cpu {
                Some(cpu) => cpu,
                None => 0,
            })
        }),
{
}

/// An interrupt of the local APIC stays with the CPU that took it, and so does every interrupt in
/// the root zone; then no CPU has to be woken.
pub proof fn law_local_irq_stays(
    before: IrqChip,
    after: IrqChip,
    site: IrqSite,
    reserved: ReservedVectors,
    vector: u8,
    power_on: bool,
    root_first_cpu: Option<usize>,
)
    requires
        site.zone_id == 0 || vector >= LAPIC_LOCAL_VECTOR_START,
        site.this_cpu_id < before.queues().len(),
        irq_routed(
            before,
            after,
            site,
            irq_route(reserved, vector, power_on, site.zone_id),
            vector,
            root_first_cpu,
        ),
    ensures
        ({
            let route = irq_route(reserved, vector, power_on, site.zone_id);
            let effects = irq_effects(before, site, route, vector, root_first_cpu);
            &&& forall|i: int| 0 <= i < effects.len() ==> !(#[trigger] effects[i] is Wakeup)
            &&& forall|cpu: int|
                0 <= cpu < before.queues().len() && cpu != site.this_cpu_id
                    ==> #[trigger] after.queues()[cpu] == before.queues()[cpu]
        }),
{
}

/// A trap is an interrupt exactly when the low eight bits of its vector are at least 0x20; they are
/// then the vector to handle. Any other trap is reported as it came.
pub proof fn law_arch_handle_trap(tf: &TrapFrame, action: TrapAction)
    requires
        call_ensures(arch_handle_trap, (tf,), action),
    ensures
        action is Irq <==> tf.vector % 0x100 >= 0x20,
        action matches TrapAction::Irq(vector) ==> vector == tf.vector % 0x100,
        action matches TrapAction::Unhandled { vector, error_code, rip } ==> {
            &&& vector == tf.vector
            &&& error_code == tf.error_code
            &&& rip == tf.rip
        },
{
}

/// Whether a vector is one that the hypervisor keeps for itself.
pub open spec fn is_reserved(reserved: ReservedVectors, vector: u8) -> bool {
    seq![
        reserved.virt_ipi,
        reserved.apic_spurious,
        reserved.apic_error,
        reserved.apic_timer,
    ].contains(vector)
}

/// Whether an interrupt is one for a guest: its vector is at least 0x20 and not reserved, and the
/// CPU that took it runs a guest.
pub open spec fn is_for_guest(reserved: ReservedVectors, vector: u8, power_on: bool) -> bool {
    vector >= 0x20 && power_on && !is_reserved(reserved, vector)
}

proof fn lemma_reserved(reserved: ReservedVectors, vector: u8)
    ensures
        is_reserved(reserved, vector) <==> vector == reserved.virt_ipi || vector
            == reserved.apic_spurious || vector == reserved.apic_error || vector
            == reserved.apic_timer,
{
    let all = seq![
        reserved.virt_ipi,
        reserved.apic_spurious,
        reserved.apic_error,
        reserved.apic_timer,
    ];
    assert(all[0] == reserved.virt_ipi && all[1] == reserved.apic_spurious && all[2]
        == reserved.apic_error && all[3] == reserved.apic_timer);
}

/// Every interrupt for a guest has a route to one: it stays with the CPU that took it in the root
/// zone and for vectors from 0xe0 up, and goes to the root zone otherwise. An interrupt that is for
/// no guest has no such route, and only the vector of virtual IPIs leads to their handler.
pub proof fn law_classify_irq(
    reserved: &ReservedVectors,
    vector: u8,
    power_on: bool,
    zone_id: usize,
    route: IrqRoute,
)
    requires
        call_ensures(classify_irq, (reserved, vector, power_on, zone_id), route),
    ensures
        route is VirtIpi <==> vector == reserved.virt_ipi,
        is_for_guest(*reserved, vector, power_on) <==> route is ThisCpu || route is RootZone,
        is_for_guest(*reserved, vector, power_on) ==> (route is ThisCpu <==> zone_id == 0 || vector
            >= 0xe0),
{
    lemma_reserved(*reserved, vector);
}

/// The CPU whose guest an interrupt is for: the one that took it, in the root zone and for vectors
/// from 0xe0 up, else the root zone's first CPU, or CPU 0 while that zone has none.
pub open spec fn guest_cpu(site: IrqSite, vector: u8, root_first_cpu: Option<usize>) -> usize {
    if site.zone_id == 0 || vector >= 0xe0 {
        site.this_cpu_id
    } else if root_first_cpu is Some {
        root_first_cpu->0
    } else {
        0
    }
}

/// Every interrupt for a guest is pending for that guest's CPU when it has been handled, behind
/// what was pending there before; no other queue changes. The CPU is woken exactly when the vector
/// was not pending yet and the CPU is another one. Any other interrupt changes nothing, and of
/// those only a virtual IPI runs its handler. All of them end with the EOI.
pub proof fn law_handle_irq(
    chip: &mut IrqChip,
    site: &IrqSite,
    reserved: &ReservedVectors,
    vector: u8,
    power_on: bool,
    root_first_cpu: Option<usize>,
    effects: [IrqEffect; 2],
)
    requires
        call_ensures(
            handle_irq,
            (chip, site, reserved, vector, power_on, root_first_cpu),
            effects,
        ),
        is_for_guest(*reserved, vector, power_on) ==> guest_cpu(*site, vector, root_first_cpu)
            < old(chip).queues().len(),
    ensures
        effects@.len() == 2,
        effects@[1] == IrqEffect::PhysicalEoi,
        !is_for_guest(*reserved, vector, power_on) ==> {
            &&& *final(chip) == *old(chip)
            &&& effects@[0] == IrqEffect::HandleVirtIpi <==> vector == reserved.virt_ipi
            &&& effects@[0] == IrqEffect::Nothing <==> vector != reserved.virt_ipi
        },
        is_for_guest(*reserved, vector, power_on) ==> {
            let cpu = guest_cpu(*site, vector, root_first_cpu);
            let s = old(chip).queues()[cpu as int];
            let t = final(chip).queues()[cpu as int];
            let pending = exists|i: int|
                0 <= i < s.queue.len() && #[trigger] s.queue[i] == (vector, None::<u32>);
            &&& t.queue.contains((vector, None))
            &&& s.queue.is_prefix_of(t.queue)
            &&& t.queue.len() == s.queue.len() + if pending {
                0int
            } else {
                1int
            }
            &&& t.has_eoi == s.has_eoi
            &&& t.eoi_stuck_count == s.eoi_stuck_count
            &&& t.eoi_count == s.eoi_count
            &&& others_kept(old(chip).queues(), final(chip).queues(), cpu as int)
            &&& final(chip).virt_ioapic == old(chip).virt_ioapic
            &&& !pending && cpu != site.this_cpu_id ==> effects@[0] == IrqEffect::Wakeup(cpu)
            &&& pending || cpu == site.this_cpu_id ==> effects@[0] == IrqEffect::Nothing
        },
{
    lemma_reserved(*reserved, vector);
    if is_for_guest(*reserved, vector, power_on) {
        let cpu = guest_cpu(*site, vector, root_first_cpu);
        law_request_is_pending(old(chip).queues()[cpu as int], vector, None, false);
    }
}

/// An exit for an external interrupt does what the interrupt itself does.
pub proof fn law_handle_external_interrupt(
    exited: &mut IrqChip,
    trapped: &mut IrqChip,
    site: &IrqSite,
    reserved: &ReservedVectors,
    int_info: &VmxInterruptInfo,
    power_on: bool,
    root_first_cpu: Option<usize>,
    effects: [IrqEffect; 2],
    trap_effects: [IrqEffect; 2],
)
    requires
        *old(exited) == *old(trapped),
        call_ensures(
            handle_external_interrupt,
            (exited, site, reserved, int_info, power_on, root_first_cpu),
            effects,
        ),
        call_ensures(
            handle_irq,
            (trapped, site, reserved, int_info.vector, power_on, root_first_cpu),
            trap_effects,
        ),
    ensures
        final(exited).queues() == final(trapped).queues(),
        final(exited).virt_ioapic == final(trapped).virt_ioapic,
        effects@ == trap_effects@,
{
}

/// A fault in the second stage becomes an access to the address that faulted, in the same
/// direction.
pub proof fn law_handle_s2pt_violation(fault_info: &Stage2PageFaultInfo, mmio: MMIOAccess)
    requires
        call_ensures(handle_s2pt_violation, (fault_info,), mmio),
    ensures
        mmio.address == fault_info.fault_guest_paddr,
        mmio.is_write == fault_info.is_write,
        mmio.size == 0,
        mmio.value == 0,
{
}

/// A hypercall has its code in RAX and its arguments in RDI and RSI.
pub proof fn law_hypercall_request(regs: &GeneralRegisters, request: HyperCallRequest)
    requires
        call_ensures(hypercall_request, (regs,), request),
    ensures
        request.code == regs.rax,
        request.arg0 == regs.rdi,
        request.arg1 == regs.rsi,
{
}

/// After a hypercall RAX holds a signed number: the error code, or the number whose low 32 bits are
/// those of the value. No other register changes, and the three bytes of the instruction are
/// stepped over.
pub proof fn law_handle_hypercall(
    regs: &mut GeneralRegisters,
    result: Result<usize, i32>,
    len: u8,
)
    requires
        call_ensures(handle_hypercall, (regs, result), len),
    ensures
        len == 3,
        ({
            let rax = final(regs).rax as int;
            let signed = if rax < 0x8000_0000_0000_0000 {
                rax
            } else {
                rax - 0x1_0000_0000_0000_0000
            };
            &&& -0x8000_0000 <= signed < 0x8000_0000
            &&& result matches Err(code) ==> signed == code
            &&& result matches Ok(value) ==> rax % 0x1_0000_0000 == value as int % 0x1_0000_0000
        }),
        final(regs).rbx == old(regs).rbx,
        final(regs).rcx == old(regs).rcx,
        final(regs).rdx == old(regs).rdx,
        final(regs).rsi == old(regs).rsi,
        final(regs).rdi == old(regs).rdi,
        final(regs).rbp == old(regs).rbp,
{
}

/// An exit that cannot be read is passed on with its error. A failed entry comes before any reason.
/// Each reason that has a handler leads to its own handler and to no other, a halt to stepping over
/// its one byte, and every other reason is reported with its number.
pub proof fn law_handle_vmexit(
    exit_info: Result<VmxExitInfo, HvErrorNum>,
    action: Result<VmexitAction, HvErrorNum>,
)
    requires
        call_ensures(handle_vmexit, (exit_info,), action),
    ensures
        action is Err <==> exit_info is Err,
        action is Err ==> action->Err_0 == exit_info->Err_0,
        action matches Ok(action) ==> {
            let info = exit_info->Ok_0;
            let reason = info.exit_reason;
            &&& action is EntryFailed <==> info.entry_failure
            &&& !info.entry_failure ==> {
                &&& action is Exception <==> reason is ExceptionNmi
                &&& action is ExternalInterrupt <==> reason is ExternalInterrupt
                &&& action is TripleFault <==> reason is TripleFault
                &&& action is CloseInterruptWindow <==> reason is InterruptWindow
                &&& action is Cpuid <==> reason is Cpuid
                &&& action is AdvanceRip <==> reason is Hlt
                &&& action matches VmexitAction::AdvanceRip(len) ==> len == 1
                &&& action is Hypercall <==> reason is Vmcall
                &&& action is CrAccess <==> reason is CrAccess
                &&& action is IoInstruction <==> reason is IoInstruction
                &&& action is MsrRead <==> reason is MsrRead
                &&& action is MsrWrite <==> reason is MsrWrite
                &&& action is EptViolation <==> reason is EptViolation
                &&& action matches VmexitAction::Unhandled(number) ==> reason
                    == VmxExitReason::Other(number)
            }
        },
{
}

/// The handling of an exit returns exactly when its action is none that leaves no way on and
/// either went well or was the stepping over a halt; it then returns how the action went. Where it
/// gives up, the cause is the error of the action.
pub proof fn law_vmexit_end(action: VmexitAction, res: Result<(), HvErrorNum>, end: VmexitEnd)
    requires
        call_ensures(vmexit_end, (action, res), end),
    ensures
        end is Return <==> !(action is EntryFailed || action is TripleFault || action is CrAccess
            || action is Unhandled) && (res is Ok || action is AdvanceRip),
        end matches VmexitEnd::Return(returned) ==> returned == res,
        end matches VmexitEnd::GiveUp(cause) ==> {
            &&& cause is Some <==> res is Err
            &&& cause matches Some(e) ==> res == Err::<(), HvErrorNum>(e)
        },
{
}

} // verus!
