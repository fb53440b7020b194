//! The interrupt controller of the hypervisor: the virtual I/O APICs of all zones and the pending
//! vectors of all CPUs.
use crate::cpu::CpuSet;
use crate::ioapic::{
    can_route, delivery_cpu, law_delivery_stays_in_zone, routed_cpu, rte_dest, rte_vector,
    IoApicState, VirtIoApic, IOAPIC_TABLE_LEN,
};
use crate::pending::{EoiReport, PendingAction, PendingState, PendingVectors};
use vstd::prelude::*;

verus! {

/// The state of the interrupt controller. Each half is set up once and then kept.
pub struct IrqChip {
    pub pending: Option<PendingVectors>,
    pub virt_ioapic: Option<VirtIoApic>,
}

/// Where the code that handles an interrupt runs.
#[derive(Clone, Copy, Debug, PartialEq, Eq, Structural)]
pub struct IrqSite {
    /// The CPU that executes.
    pub this_cpu_id: usize,
    /// The zone that this CPU belongs to.
    pub zone_id: usize,
    /// The CPUs of that zone.
    pub cpu_set: CpuSet,
}

impl IrqChip {
    /// The pending vectors have been set up and are valid.
    pub open spec fn pending_ready(&self) -> bool {
        self.pending matches Some(pending) && pending.wf()
    }

    /// The pending vectors of every CPU.
    pub open spec fn queues(&self) -> Seq<PendingState> {
        self.pending->0@
    }

    /// The virtual I/O APICs of every zone.
    pub open spec fn ioapics(&self) -> Seq<IoApicState> {
        self.virt_ioapic->0@
    }

    /// Every part that has been set up is valid.
    pub open spec fn wf(&self) -> bool {
        self.pending matches Some(pending) ==> pending.wf()
    }

    /// A controller of which nothing is set up.
    pub fn new() -> (chip: Self)
        ensures
            chip.wf(),
            chip.pending is None,
            chip.virt_ioapic is None,
    {
        IrqChip { pending: None, virt_ioapic: None }
    }
}

/// The CPU to wake after a request: the destination, if the vector joined its queue and it is not
/// the CPU that executes.
pub open spec fn wakeup_target(added: bool, cpu_id: usize, this_cpu_id: usize) -> Option<usize> {
    if added && cpu_id != this_cpu_id {
        Some(cpu_id)
    } else {
        None
    }
}

/// Queues a vector for a CPU. Gives back the CPU that needs a wakeup IPI, if one does.
///
/// No IPI is sent when the vector was dropped as a duplicate: repeating it would flood the
/// destination with spurious exits.
pub fn inject_vector(
    chip: &mut IrqChip,
    this_cpu_id: usize,
    cpu_id: usize,
    vector: u8,
    err_code: Option<u32>,
    allow_repeat: bool,
) -> (wakeup: Option<usize>)
    requires
        old(chip).pending_ready(),
        cpu_id < old(chip).queues().len(),
    ensures
        final(chip).pending_ready(),
        final(chip).virt_ioapic == old(chip).virt_ioapic,
        final(chip).queues() == old(chip).queues().update(
            cpu_id as int,
            old(chip).queues()[cpu_id as int].added(vector, err_code, allow_repeat),
        ),
        wakeup == wakeup_target(
            old(chip).queues()[cpu_id as int].accepts(vector, err_code, allow_repeat),
            cpu_id,
            this_cpu_id,
        ),
{
    match &mut chip.pending {
        Some(pending) => {
            let added = pending.add_vector(cpu_id, vector, err_code, allow_repeat);
            if added && cpu_id != this_cpu_id {
                Some(cpu_id)
            } else {
                None
            }
        },
        None => None,
    }
}

/// Looks at the vector in front of a CPU's queue and says what to do with it.
pub fn check_pending_vectors(
    chip: &mut IrqChip,
    cpu_id: usize,
    allow_interrupt: bool,
) -> (action: PendingAction)
    requires
        old(chip).pending_ready(),
        cpu_id < old(chip).queues().len(),
    ensures
        final(chip).pending_ready(),
        final(chip).virt_ioapic == old(chip).virt_ioapic,
        final(chip).queues() == old(chip).queues().update(
            cpu_id as int,
            old(chip).queues()[cpu_id as int].checked(allow_interrupt),
        ),
        action == old(chip).queues()[cpu_id as int].check_action(allow_interrupt),
{
    match &mut chip.pending {
        Some(pending) => pending.check_pending_vectors(cpu_id, allow_interrupt),
        None => PendingAction::Idle,
    }
}

/// Whether a vector is pending for a CPU.
pub fn has_pending_vectors(chip: &IrqChip, cpu_id: usize) -> (found: bool)
    requires
        chip.pending_ready(),
        cpu_id < chip.queues().len(),
    ensures
        found == (chip.queues()[cpu_id as int].queue.len() > 0),
{
    match &chip.pending {
        Some(pending) => pending.queue_len(cpu_id) > 0,
        None => false,
    }
}

/// Records an EOI of a CPU: the next interrupt may go in.
pub fn pop_vector(chip: &mut IrqChip, cpu_id: usize) -> (report: EoiReport)
    requires
        old(chip).pending_ready(),
        cpu_id < old(chip).queues().len(),
    ensures
        final(chip).pending_ready(),
        final(chip).virt_ioapic == old(chip).virt_ioapic,
        final(chip).queues() == old(chip).queues().update(
            cpu_id as int,
            old(chip).queues()[cpu_id as int].acknowledged(),
        ),
        report == old(chip).queues()[cpu_id as int].eoi_report(),
{
    match &mut chip.pending {
        Some(pending) => pending.pop_vector(cpu_id),
        None => EoiReport::Quiet,
    }
}

/// Drops every pending vector of a CPU.
pub fn clear_vectors(chip: &mut IrqChip, cpu_id: usize)
    requires
        old(chip).pending_ready(),
        cpu_id < old(chip).queues().len(),
    ensures
        final(chip).pending_ready(),
        final(chip).virt_ioapic == old(chip).virt_ioapic,
        final(chip).queues() == old(chip).queues().update(
            cpu_id as int,
            old(chip).queues()[cpu_id as int].cleared(),
        ),
{
    match &mut chip.pending {
        Some(pending) => pending.clear_vectors(cpu_id),
        None => {},
    }
}

/// Sets up the virtual I/O APICs of `max_zones` zones. Only the first call has an effect.
pub fn init_virt_ioapic(chip: &mut IrqChip, max_zones: usize)
    ensures
        final(chip).pending == old(chip).pending,
        final(chip).virt_ioapic is Some,
        old(chip).virt_ioapic is Some ==> final(chip).virt_ioapic == old(chip).virt_ioapic,
        old(chip).virt_ioapic is None ==> final(chip).ioapics() == Seq::new(
            max_zones as nat,
            |i: int| IoApicState::initial(),
        ),
{
    if chip.virt_ioapic.is_none() {
        chip.virt_ioapic = Some(VirtIoApic::new(max_zones));
    }
}

/// Sets up the pending vectors of `max_cpus` CPUs and the virtual I/O APICs of `max_zones` zones.
/// What has been set up before is kept.
pub fn primary_init_early(chip: &mut IrqChip, max_cpus: usize, max_zones: usize)
    requires
        old(chip).wf(),
    ensures
        final(chip).wf(),
        final(chip).pending_ready(),
        final(chip).virt_ioapic is Some,
        old(chip).pending is Some ==> final(chip).pending == old(chip).pending,
        old(chip).pending is None ==> final(chip).queues() == Seq::new(
            max_cpus as nat,
            |i: int| PendingState::initial(),
        ),
        old(chip).virt_ioapic is Some ==> final(chip).virt_ioapic == old(chip).virt_ioapic,
        old(chip).virt_ioapic is None ==> final(chip).ioapics() == Seq::new(
            max_zones as nat,
            |i: int| IoApicState::initial(),
        ),
{
    if chip.pending.is_none() {
        chip.pending = Some(PendingVectors::new(max_cpus));
    }
    init_virt_ioapic(chip, max_zones);
}

/// The late set-up on the primary CPU: nothing is left to do.
pub fn primary_init_late(chip: &mut IrqChip)
    ensures
        *final(chip) == *old(chip),
{
}

/// The set-up on every CPU: nothing is left to do.
pub fn percpu_init(chip: &mut IrqChip)
    ensures
        *final(chip) == *old(chip),
{
}

/// Whether an interrupt line of the zone at `site` delivers.
pub open spec fn line_delivers(chip: IrqChip, site: IrqSite, irq: u8) -> bool {
    chip.virt_ioapic->0.delivers(site.zone_id as int, irq as int)
}

/// The redirection entry of an interrupt line of the zone at `site`.
pub open spec fn line_entry(chip: IrqChip, site: IrqSite, irq: u8) -> u64 {
    chip.ioapics()[site.zone_id as int].rte[irq as int]
}

/// The CPU that gets the interrupts of a line of the zone at `site`.
pub open spec fn line_target(chip: IrqChip, site: IrqSite, irq: u8, cpu_ids: Seq<usize>) -> int {
    delivery_cpu(site.cpu_set, routed_cpu(line_entry(chip, site, irq), cpu_ids) as int)
}

/// A line can be raised: the zone at `site` has an I/O APIC and, where the line delivers, the
/// interrupt finds a CPU with a queue.
pub open spec fn can_raise(chip: IrqChip, site: IrqSite, irq: u8, cpu_ids: Seq<usize>) -> bool {
    &&& chip.virt_ioapic is Some
    &&& site.zone_id < chip.ioapics().len()
    &&& line_delivers(chip, site, irq) ==> {
        &&& chip.pending_ready()
        &&& can_route(line_entry(chip, site, irq), cpu_ids, site.cpu_set)
        &&& line_target(chip, site, irq, cpu_ids) < chip.queues().len()
    }
}

/// `after` and `wakeup` are what raising a line makes of `before`.
pub open spec fn line_raised(
    before: IrqChip,
    after: IrqChip,
    site: IrqSite,
    irq: u8,
    cpu_ids: Seq<usize>,
    allow_repeat: bool,
    wakeup: Option<usize>,
) -> bool {
    if line_delivers(before, site, irq) {
        let vector = rte_vector(line_entry(before, site, irq));
        let target = line_target(before, site, irq, cpu_ids);
        &&& after.pending_ready()
        &&& after.virt_ioapic == before.virt_ioapic
        &&& after.queues() == before.queues().update(
            target,
            before.queues()[target].added(vector, None, allow_repeat),
        )
        &&& wakeup == wakeup_target(
            before.queues()[target].accepts(vector, None, allow_repeat),
            target as usize,
            site.this_cpu_id,
        )
    } else {
        after == before && wakeup is None
    }
}

/// Raises an interrupt line of the zone that executes. Gives back the CPU that needs a wakeup IPI,
/// if one does.
///
/// `cpu_ids` gives the CPU of each APIC id. A line that is out of range or does not deliver is
/// ignored.
pub fn ioapic_inject_irq(
    chip: &mut IrqChip,
    site: &IrqSite,
    irq: u8,
    cpu_ids: &[usize],
    allow_repeat: bool,
) -> (wakeup: Option<usize>)
    requires
        can_raise(*old(chip), *site, irq, cpu_ids@),
    ensures
        line_raised(*old(chip), *final(chip), *site, irq, cpu_ids@, allow_repeat, wakeup),
        old(chip).wf() ==> final(chip).wf(),
        old(chip).pending_ready() ==> final(chip).pending_ready(),
{
    let delivery = match &chip.virt_ioapic {
        Some(ioapic) => ioapic.trigger(irq as usize, site.zone_id, cpu_ids, &site.cpu_set),
        None => None,
    };
    match delivery {
        Some((cpu, vector)) => inject_vector(
            chip,
            site.this_cpu_id,
            cpu,
            vector,
            None,
            allow_repeat,
        ),
        None => None,
    }
}

/// The line that an interrupt number stands for: its low eight bits.
pub open spec fn irq_line(irq: usize) -> u8 {
    (irq % 0x100) as u8
}

/// Raises the interrupt line that an interrupt number stands for.
pub fn inject_irq(
    chip: &mut IrqChip,
    site: &IrqSite,
    irq: usize,
    cpu_ids: &[usize],
    allow_repeat: bool,
) -> (wakeup: Option<usize>)
    requires
        can_raise(*old(chip), *site, irq_line(irq), cpu_ids@),
    ensures
        line_raised(*old(chip), *final(chip), *site, irq_line(irq), cpu_ids@, allow_repeat, wakeup),
        old(chip).wf() ==> final(chip).wf(),
        old(chip).pending_ready() ==> final(chip).pending_ready(),
{
    assert(irq as u8 == irq % 0x100) by (bit_vector);
    ioapic_inject_irq(chip, site, irq as u8, cpu_ids, allow_repeat)
}

/// The APIC id that an interrupt line of a zone is routed to, unless the line is out of range.
pub fn irq_dest_apic_id(chip: &IrqChip, irq: usize, zone_id: usize) -> (apic_id: Option<usize>)
    requires
        chip.virt_ioapic is Some,
        zone_id < chip.ioapics().len(),
    ensures
        apic_id == (if irq < IOAPIC_TABLE_LEN {
            Some(rte_dest(chip.ioapics()[zone_id as int].rte[irq as int]))
        } else {
            None
        }),
{
    match &chip.virt_ioapic {
        Some(ioapic) => ioapic.irq_dest(irq, zone_id),
        None => None,
    }
}

/// The CPU that an interrupt line of a zone is routed to, where `cpu_ids` gives the CPU of each
/// APIC id. A line that is out of range falls back to CPU 0.
pub fn get_irq_cpu(chip: &IrqChip, irq: usize, zone_id: usize, cpu_ids: &[usize]) -> (cpu: usize)
    requires
        chip.virt_ioapic is Some,
        zone_id < chip.ioapics().len(),
        irq < IOAPIC_TABLE_LEN ==> rte_dest(chip.ioapics()[zone_id as int].rte[irq as int])
            < cpu_ids@.len(),
    ensures
        cpu == (if irq < IOAPIC_TABLE_LEN {
            routed_cpu(chip.ioapics()[zone_id as int].rte[irq as int], cpu_ids@)
        } else {
            0
        }),
{
    match &chip.virt_ioapic {
        Some(ioapic) => {
            match ioapic.get_irq_cpu(irq, zone_id, cpu_ids) {
                Some(cpu) => cpu,
                None => 0,
            }
        },
        None => 0,
    }
}

/// Raising a line touches no queue but that of one CPU of the zone.
pub proof fn law_raise_stays_in_zone(
    before: IrqChip,
    after: IrqChip,
    site: IrqSite,
    irq: u8,
    cpu_ids: Seq<usize>,
    allow_repeat: bool,
    wakeup: Option<usize>,
    cpu: int,
)
    requires
        can_raise(before, site, irq, cpu_ids),
        line_raised(before, after, site, irq, cpu_ids, allow_repeat, wakeup),
        0 <= cpu < before.queues().len(),
        !site.cpu_set.has(cpu),
    ensures
        after.queues()[cpu] == before.queues()[cpu],
        wakeup matches Some(woken) ==> woken != cpu,
{
    if line_delivers(before, site, irq) {
        law_delivery_stays_in_zone(
            site.cpu_set,
            routed_cpu(line_entry(before, site, irq), cpu_ids) as int,
        );
    }
}

/// What a request for a vector does: the vector joins the end of the queue of its CPU, unless it is
/// there already and repeats are not wanted. No other queue and nothing else of that CPU changes. A
/// CPU is woken exactly when the vector joined and the CPU is not the one that executes.
pub proof fn law_inject_vector(
    chip: &mut IrqChip,
    this_cpu_id: usize,
    cpu_id: usize,
    vector: u8,
    err_code: Option<u32>,
    allow_repeat: bool,
    wakeup: Option<usize>,
)
    requires
        call_ensures(
            inject_vector,
            (chip, this_cpu_id, cpu_id, vector, err_code, allow_repeat),
            wakeup,
        ),
        cpu_id < old(chip).queues().len(),
    ensures
        ({
            let s = old(chip).queues()[cpu_id as int];
            let t = final(chip).queues()[cpu_id as int];
            let duplicate = exists|i: int|
                0 <= i < s.queue.len() && #[trigger] s.queue[i] == (vector, err_code);
            let joins = allow_repeat || !duplicate;
            &&& joins ==> t.queue == s.queue.push((vector, err_code))
            &&& !joins ==> t.queue == s.queue
            &&& t.has_eoi == s.has_eoi
            &&& t.eoi_stuck_count == s.eoi_stuck_count
            &&& t.eoi_count == s.eoi_count
            &&& wakeup is Some <==> joins && cpu_id != this_cpu_id
            &&& wakeup matches Some(woken) ==> woken == cpu_id
        }),
        others_kept(old(chip).queues(), final(chip).queues(), cpu_id as int),
        final(chip).virt_ioapic == old(chip).virt_ioapic,
{
}

/// Whether the CPUs other than `cpu` are the same before and after.
pub open spec fn others_kept(
    before: Seq<PendingState>,
    after: Seq<PendingState>,
    cpu: int,
) -> bool {
    &&& after.len() == before.len()
    &&& forall|i: int| 0 <= i < before.len() && i != cpu ==> #[trigger] after[i] == before[i]
}

/// What a look at the pending vectors of a CPU does, by its outcome: see the law on a single check.
/// The other CPUs and the I/O APICs are left alone.
pub proof fn law_check_pending_vectors(
    chip: &mut IrqChip,
    cpu_id: usize,
    allow_interrupt: bool,
    action: PendingAction,
)
    requires
        call_ensures(check_pending_vectors, (chip, cpu_id, allow_interrupt), action),
        cpu_id < old(chip).queues().len(),
        old(chip).queues()[cpu_id as int].eoi_stuck_count < 5000,
    ensures
        ({
            let s = old(chip).queues()[cpu_id as int];
            let t = final(chip).queues()[cpu_id as int];
            &&& action is Idle <==> s.queue.len() == 0
            &&& action is Idle ==> t == s
            &&& s.queue.len() > 0 ==> {
                let (front, err) = s.queue[0];
                &&& action is Inject <==> front < 32 || (allow_interrupt && s.has_eoi)
                &&& action is Discard <==> front >= 32 && !s.has_eoi && s.eoi_stuck_count == 4999
                &&& action matches PendingAction::Inject { vector, err_code } ==> {
                    &&& vector == front && err_code == err
                    &&& t.queue == s.queue.skip(1)
                    &&& t.has_eoi <==> front < 32 && s.has_eoi
                    &&& t.eoi_stuck_count == 0
                }
                &&& action is OpenWindow ==> {
                    &&& t.queue == s.queue
                    &&& t.has_eoi == s.has_eoi
                    &&& s.has_eoi ==> t == s
                    &&& !s.has_eoi ==> t.eoi_stuck_count == s.eoi_stuck_count + 1
                }
                &&& action matches PendingAction::Discard { vector, checks, remaining } ==> {
                    &&& vector == front
                    &&& checks == 5000
                    &&& s.queue.len() <= usize::MAX ==> remaining == s.queue.len() - 1
                    &&& t.queue == s.queue.skip(1)
                    &&& t.has_eoi
                    &&& t.eoi_stuck_count == 0
                }
            }
            &&& t.eoi_count == s.eoi_count
            &&& t.eoi_stuck_count < 5000
        }),
        others_kept(old(chip).queues(), final(chip).queues(), cpu_id as int),
        final(chip).virt_ioapic == old(chip).virt_ioapic,
{
    let s = old(chip).queues()[cpu_id as int];
    if s.queue.len() > 0 {
        assert(s.queue.drop_first() =~= s.queue.skip(1));
    }
}

/// An EOI lets the next interrupt of its CPU go in, and changes neither a queue nor another CPU.
pub proof fn law_pop_vector(chip: &mut IrqChip, cpu_id: usize, report: EoiReport)
    requires
        call_ensures(pop_vector, (chip, cpu_id), report),
        cpu_id < old(chip).queues().len(),
    ensures
        ({
            let s = old(chip).queues()[cpu_id as int];
            let t = final(chip).queues()[cpu_id as int];
            &&& t.queue == s.queue
            &&& t.has_eoi
            &&& t.eoi_stuck_count == 0
            &&& s.eoi_count < u64::MAX ==> t.eoi_count == s.eoi_count + 1
            &&& report is First <==> s.eoi_count == 0
            &&& report is Recovered <==> s.eoi_count > 0 && s.eoi_stuck_count > 100
            &&& report matches EoiReport::Recovered { total } ==> total == t.eoi_count
        }),
        others_kept(old(chip).queues(), final(chip).queues(), cpu_id as int),
        final(chip).virt_ioapic == old(chip).virt_ioapic,
{
}

/// Clearing empties the queue of one CPU and changes nothing else: an EOI that is owed stays owed.
pub proof fn law_clear_vectors(chip: &mut IrqChip, cpu_id: usize)
    requires
        call_ensures(clear_vectors, (chip, cpu_id), ()),
        cpu_id < old(chip).queues().len(),
    ensures
        ({
            let s = old(chip).queues()[cpu_id as int];
            let t = final(chip).queues()[cpu_id as int];
            &&& t.queue.len() == 0
            &&& t.has_eoi == s.has_eoi
            &&& t.eoi_stuck_count == s.eoi_stuck_count
            &&& t.eoi_count == s.eoi_count
        }),
        others_kept(old(chip).queues(), final(chip).queues(), cpu_id as int),
        final(chip).virt_ioapic == old(chip).virt_ioapic,
{
}

/// A CPU has something pending exactly when a check of it would not be idle.
pub proof fn law_has_pending_vectors(
    chip: &mut IrqChip,
    cpu_id: usize,
    found: bool,
    allow_interrupt: bool,
    action: PendingAction,
)
    requires
        cpu_id < old(chip).queues().len(),
        call_ensures(has_pending_vectors, (&*old(chip), cpu_id), found),
        call_ensures(check_pending_vectors, (chip, cpu_id, allow_interrupt), action),
    ensures
        found <==> !(action is Idle),
        found <==> old(chip).queues()[cpu_id as int].queue.len() > 0,
{
}

/// The first set-up gives every CPU an empty queue that owes no EOI, and every zone an I/O APIC
/// whose registers read zero. What is set up already is kept as it is.
pub proof fn law_primary_init_early(chip: &mut IrqChip, max_cpus: usize, max_zones: usize)
    requires
        call_ensures(primary_init_early, (chip, max_cpus, max_zones), ()),
    ensures
        final(chip).pending is Some && final(chip).virt_ioapic is Some,
        old(chip).pending is Some ==> final(chip).pending == old(chip).pending,
        old(chip).virt_ioapic is Some ==> final(chip).virt_ioapic == old(chip).virt_ioapic,
        old(chip).pending is None ==> final(chip).queues().len() == max_cpus && forall|i: int|
            0 <= i < max_cpus ==> {
                let t = #[trigger] final(chip).queues()[i];
                t.queue.len() == 0 && t.has_eoi && t.eoi_stuck_count == 0 && t.eoi_count == 0
            },
        old(chip).virt_ioapic is None ==> final(chip).ioapics().len() == max_zones && forall|
            zone: int,
            irq: int,
        |
            0 <= zone < max_zones && 0 <= irq < 24 ==> final(chip).ioapics()[zone].cur_reg == 0
                && final(chip).ioapics()[zone].rte.len() == 24
                && #[trigger] final(chip).ioapics()[zone].rte[irq] == 0,
{
}

/// Whether `cpu` is the CPU of a zone that an interrupt with this entry is for: the CPU that has
/// the APIC id in the top byte of the entry, if it belongs to the zone, else the zone's first CPU.
pub open spec fn is_destination(
    entry: u64,
    cpu_ids: Seq<usize>,
    cpu_set: CpuSet,
    cpu: int,
) -> bool {
    let named = cpu_ids[entry as int / 0x0100_0000_0000_0000] as int;
    &&& cpu_set.has(cpu)
    &&& cpu == named || (!cpu_set.has(named) && forall|other: int|
        cpu_set.has(other) ==> cpu <= other)
}

/// What raising a line does. A line of the table whose entry is not masked and has a vector from
/// 0x20 up makes that vector pending for the destination of the entry, and no other CPU's queue
/// changes; that CPU is woken exactly when the vector joined its queue and it is not the one that
/// executes. Any other line changes nothing and wakes nobody.
pub proof fn law_ioapic_inject_irq(
    chip: &mut IrqChip,
    site: &IrqSite,
    irq: u8,
    cpu_ids: &[usize],
    allow_repeat: bool,
    wakeup: Option<usize>,
    cpu: int,
)
    requires
        can_raise(*old(chip), *site, irq, cpu_ids@),
        call_ensures(ioapic_inject_irq, (chip, site, irq, cpu_ids, allow_repeat), wakeup),
        ({
            let entry = old(chip).ioapics()[site.zone_id as int].rte[irq as int];
            irq < 24 && (entry / 0x1_0000) % 2 == 0 && entry % 0x100 >= 0x20 ==> is_destination(
                entry,
                cpu_ids@,
                site.cpu_set,
                cpu,
            )
        }),
    ensures
        ({
            let entry = old(chip).ioapics()[site.zone_id as int].rte[irq as int];
            let vector = (entry % 0x100) as u8;
            let masked = (entry / 0x1_0000) % 2 == 1;
            let s = old(chip).queues()[cpu];
            let t = final(chip).queues()[cpu];
            if irq < 24 && !masked && vector >= 0x20 {
                let duplicate = exists|i: int|
                    0 <= i < s.queue.len() && #[trigger] s.queue[i] == (vector, None::<u32>);
                let joins = allow_repeat || !duplicate;
                &&& joins ==> t.queue == s.queue.push((vector, None))
                &&& !joins ==> t.queue == s.queue
                &&& t.has_eoi == s.has_eoi
                &&& t.eoi_stuck_count == s.eoi_stuck_count
                &&& t.eoi_count == s.eoi_count
                &&& others_kept(old(chip).queues(), final(chip).queues(), cpu)
                &&& final(chip).virt_ioapic == old(chip).virt_ioapic
                &&& wakeup is Some <==> joins && cpu != site.this_cpu_id
                &&& wakeup matches Some(woken) ==> woken == cpu
            } else {
                *final(chip) == *old(chip) && wakeup is None
            }
        }),
{
    let entry = old(chip).ioapics()[site.zone_id as int].rte[irq as int];
    if site.cpu_set.inhabited() {
        law_delivery_stays_in_zone(site.cpu_set, routed_cpu(entry, cpu_ids@) as int);
    }
}

/// An interrupt number does what raising the line that its low eight bits name does.
pub proof fn law_inject_irq(
    by_number: &mut IrqChip,
    by_line: &mut IrqChip,
    site: &IrqSite,
    irq: usize,
    line: u8,
    cpu_ids: &[usize],
    allow_repeat: bool,
    wakeup: Option<usize>,
    line_wakeup: Option<usize>,
)
    requires
        *old(by_number) == *old(by_line),
        line == irq % 0x100,
        call_ensures(inject_irq, (by_number, site, irq, cpu_ids, allow_repeat), wakeup),
        call_ensures(ioapic_inject_irq, (by_line, site, line, cpu_ids, allow_repeat), line_wakeup),
    ensures
        final(by_number).queues() == final(by_line).queues(),
        final(by_number).virt_ioapic == final(by_line).virt_ioapic,
        wakeup == line_wakeup,
{
}

/// The CPU of a line is the one that the table gives for the APIC id in the top byte of its entry;
/// a line that does not exist has no APIC id and counts as CPU 0's.
pub proof fn law_get_irq_cpu(
    chip: &IrqChip,
    irq: usize,
    zone_id: usize,
    cpu_ids: &[usize],
    apic_id: Option<usize>,
    cpu: usize,
)
    requires
        call_ensures(irq_dest_apic_id, (chip, irq, zone_id), apic_id),
        call_ensures(get_irq_cpu, (chip, irq, zone_id, cpu_ids), cpu),
    ensures
        apic_id is Some <==> irq < 24,
        apic_id matches Some(id) ==> {
            &&& id == chip.ioapics()[zone_id as int].rte[irq as int] / 0x0100_0000_0000_0000
            &&& cpu == cpu_ids@[id as int]
        },
        apic_id is None ==> cpu == 0,
{
}

/// Setting up the I/O APICs gives each zone one whose registers read zero, unless they are set up
/// already, and leaves the pending vectors alone.
pub proof fn law_init_virt_ioapic(chip: &mut IrqChip, max_zones: usize, zone: int, irq: int)
    requires
        call_ensures(init_virt_ioapic, (chip, max_zones), ()),
    ensures
        final(chip).pending == old(chip).pending,
        final(chip).virt_ioapic is Some,
        old(chip).virt_ioapic is Some ==> final(chip).virt_ioapic == old(chip).virt_ioapic,
        old(chip).virt_ioapic is None ==> {
            &&& final(chip).ioapics().len() == max_zones
            &&& 0 <= zone < max_zones && 0 <= irq < 24 ==> {
                &&& final(chip).ioapics()[zone].cur_reg == 0
                &&& final(chip).ioapics()[zone].rte[irq] == 0
            }
        },
{
}

/// Nothing is set up at first, and the later steps of the set-up change nothing.
pub proof fn law_empty_steps(fresh: IrqChip, late: &mut IrqChip, percpu: &mut IrqChip)
    requires
        call_ensures(IrqChip::new, (), fresh),
        call_ensures(primary_init_late, (late,), ()),
        call_ensures(percpu_init, (percpu,), ()),
    ensures
        fresh.pending is None,
        fresh.virt_ioapic is None,
        *final(late) == *old(late),
        *final(percpu) == *old(percpu),
{
}

} // verus!
