//! The virtual I/O APIC: one register file for each zone.
use crate::bits::{get_bit, get_bits, lemma_bit_at, lemma_bit_ranges, set_bits};
use crate::cpu::CpuSet;
use crate::memory::MMIOAccess;
use vstd::arithmetic::power2::{lemma2_to64, lemma2_to64_rest};
use vstd::prelude::*;

verus! {

/// The interrupt line of the first serial port.
pub const UART_COM1_IRQ: u8 = 0x4;

/// Offset of the register-select window.
pub const IOREGSEL: u64 = 0;

/// Offset of the data window.
pub const IOWIN: u64 = 0x10;

/// Number of the identification register.
pub const REG_ID: u32 = 0x00;

/// Number of the version register.
pub const REG_VERSION: u32 = 0x01;

/// Number of the arbitration register.
pub const REG_ARBITRATION: u32 = 0x02;

/// Number of the first register of the redirection table.
pub const REG_TABLE_BASE: u32 = 0x10;

/// Index of the last entry of the redirection table.
pub const IOAPIC_MAX_REDIRECT_ENTRIES: u64 = 0x17;

/// Number of entries of the redirection table.
pub const IOAPIC_TABLE_LEN: usize = 0x18;

/// Content of the version register: the index of the last entry from bit 16 up, version 0x11.
pub const IOAPIC_VERSION_VALUE: u64 = 0x17_0011;

/// The lowest vector that an entry can deliver.
pub const FIRST_DELIVERABLE_VECTOR: u8 = 0x20;

/// The lower register of a redirection entry.
pub open spec fn rte_low(entry: u64) -> u64 {
    (entry % 0x1_0000_0000) as u64
}

/// The upper register of a redirection entry.
pub open spec fn rte_high(entry: u64) -> u64 {
    (entry / 0x1_0000_0000) as u64
}

/// The entry that is made of these two registers.
pub open spec fn rte_of(high: u64, low: u64) -> u64 {
    (high * 0x1_0000_0000 + low) as u64
}

/// The vector of a redirection entry.
pub open spec fn rte_vector(entry: u64) -> u8 {
    (entry % 0x100) as u8
}

/// Whether a redirection entry is masked.
pub open spec fn rte_masked(entry: u64) -> bool {
    (entry / 0x1_0000) % 2 == 1
}

/// The APIC id that a redirection entry is routed to.
pub open spec fn rte_dest(entry: u64) -> usize {
    (entry / 0x0100_0000_0000_0000) as usize
}

/// A redirection entry with another destination.
pub open spec fn rte_with_dest(entry: u64, apic_id: u64) -> u64 {
    (apic_id * 0x0100_0000_0000_0000 + entry % 0x0100_0000_0000_0000) as u64
}

/// Whether a redirection entry delivers its interrupt: it is not masked and has a vector that is
/// no exception.
pub open spec fn rte_delivers(entry: u64) -> bool {
    !rte_masked(entry) && rte_vector(entry) >= FIRST_DELIVERABLE_VECTOR
}

/// The CPU of a zone that gets an interrupt routed to `dest`: `dest` itself where it belongs to
/// the zone, else the zone's first CPU.
pub open spec fn delivery_cpu(cpu_set: CpuSet, dest: int) -> int {
    if cpu_set.has(dest) {
        dest
    } else {
        cpu_set.first_member()
    }
}

/// The CPU that a redirection entry is routed to, where `cpu_ids` gives the CPU of each APIC id.
pub open spec fn routed_cpu(entry: u64, cpu_ids: Seq<usize>) -> usize {
    cpu_ids[rte_dest(entry) as int]
}

/// Whether an interrupt with this entry finds a CPU of the zone: a CPU has the entry's APIC id, and
/// the zone has a CPU to fall back to.
pub open spec fn can_route(entry: u64, cpu_ids: Seq<usize>, cpu_set: CpuSet) -> bool {
    &&& rte_dest(entry) < cpu_ids.len()
    &&& routed_cpu(entry, cpu_ids) < 64
    &&& cpu_set.inhabited()
}

/// The low 32 bits of a word.
fn low_word(value: u64) -> (low: u64)
    ensures
        low == rte_low(value),
{
    proof {
        lemma_bit_ranges(value);
    }
    get_bits(value, 0, 31)
}

/// The APIC id that a redirection entry is routed to.
pub fn rte_dest_apic_id(entry: u64) -> (apic_id: usize)
    ensures
        apic_id == rte_dest(entry),
        apic_id < 0x100,
{
    proof {
        lemma_bit_ranges(entry);
    }
    get_bits(entry, 56, 63) as usize
}

/// The register file of one virtual I/O APIC.
pub struct VirtIoApicUnlocked {
    /// The register that the data window shows.
    pub cur_reg: u32,
    /// The redirection table.
    pub rte: [u64; 24],
}

/// The register file of one virtual I/O APIC as a mathematical value.
#[verifier::ext_equal]
pub struct IoApicState {
    pub cur_reg: u32,
    pub rte: Seq<u64>,
}

impl View for VirtIoApicUnlocked {
    type V = IoApicState;

    open spec fn view(&self) -> IoApicState {
        IoApicState { cur_reg: self.cur_reg, rte: self.rte@ }
    }
}

/// Where a register number stands in the redirection table: the entry, and whether it is the
/// upper register of the entry. A number outside the table has no place.
pub open spec fn table_slot(reg: u32) -> Option<(int, bool)> {
    if REG_TABLE_BASE <= reg < REG_TABLE_BASE + 2 * IOAPIC_TABLE_LEN {
        Some(((reg - REG_TABLE_BASE) / 2, (reg - REG_TABLE_BASE) % 2 == 1))
    } else {
        None
    }
}

impl IoApicState {
    /// Every register reads zero.
    pub open spec fn initial() -> IoApicState {
        IoApicState { cur_reg: 0, rte: Seq::new(IOAPIC_TABLE_LEN as nat, |i: int| 0u64) }
    }

    /// What a read of the data window gives.
    pub open spec fn selected_value(self) -> u64 {
        if self.cur_reg == REG_VERSION {
            IOAPIC_VERSION_VALUE
        } else {
            match table_slot(self.cur_reg) {
                Some((index, false)) => rte_low(self.rte[index]),
                Some((index, true)) => rte_high(self.rte[index]),
                None => 0,
            }
        }
    }

    /// What a read at this offset gives.
    pub open spec fn read_value(self, gpa: u64) -> u64 {
        if gpa == IOREGSEL {
            self.cur_reg as u64
        } else {
            self.selected_value()
        }
    }

    /// The entry that the selected register belongs to, after a write of `value` to the register.
    pub open spec fn written_entry(self, value: u64) -> u64 {
        match table_slot(self.cur_reg) {
            Some((index, false)) => rte_of(rte_high(self.rte[index]), rte_low(value)),
            Some((index, true)) => rte_of(rte_low(value), rte_low(self.rte[index])),
            None => 0,
        }
    }

    /// The register file after a write at this offset.
    pub open spec fn written(self, gpa: u64, value: u64) -> IoApicState {
        if gpa == IOREGSEL {
            IoApicState { cur_reg: rte_low(value) as u32, ..self }
        } else {
            match table_slot(self.cur_reg) {
                Some((index, high)) => IoApicState {
                    rte: self.rte.update(index, self.written_entry(value)),
                    ..self
                },
                None => self,
            }
        }
    }
}

impl IoApicState {
    /// The register file after these writes, each an offset and a value, one after the other.
    pub open spec fn written_all(self, writes: Seq<(u64, u64)>) -> IoApicState
        decreases writes.len(),
    {
        if writes.len() == 0 {
            self
        } else {
            self.written_all(writes.drop_last()).written(writes.last().0, writes.last().1)
        }
    }

    /// Whether a write at this offset goes to register `reg`.
    pub open spec fn reaches(self, reg: u32, gpa: u64) -> bool {
        gpa != IOREGSEL && self.cur_reg == reg
    }
}

/// An entry of the physical I/O APIC that has to follow a write to the virtual one.
#[derive(Clone, Copy, Debug, PartialEq, Eq, Structural)]
pub struct GsiUpdate {
    pub irq: u8,
    pub raw: u64,
}

/// The entry of the physical I/O APIC that a write makes necessary: the root zone's table entries
/// are mirrored, those of the other zones are not.
pub open spec fn mirrored_entry(s: IoApicState, zone_id: int, gpa: u64, value: u64) -> Option<
    GsiUpdate,
> {
    match table_slot(s.cur_reg) {
        Some((index, high)) => if zone_id == 0 && gpa != IOREGSEL {
            Some(GsiUpdate { irq: index as u8, raw: s.written_entry(value) })
        } else {
            None
        },
        None => None,
    }
}

/// Where a register number stands in the redirection table.
fn locate(reg: u32) -> (slot: Option<(usize, bool)>)
    ensures
        slot matches Some((index, high)) ==> index < IOAPIC_TABLE_LEN && table_slot(reg) == Some(
            (index as int, high),
        ),
        slot is None <==> table_slot(reg) is None,
{
    let offset: u32 = reg.wrapping_sub(REG_TABLE_BASE);
    assert(offset >> 1u32 == offset / 2) by (bit_vector);
    let index: usize = (offset >> 1u32) as usize;
    if index < IOAPIC_TABLE_LEN {
        Some((index, offset % 2 != 0))
    } else {
        None
    }
}

impl VirtIoApicUnlocked {
    /// The register file after reset.
    pub fn new() -> (ioapic: Self)
        ensures
            ioapic@ == IoApicState::initial(),
    {
        let ioapic = VirtIoApicUnlocked { cur_reg: 0, rte: [0u64;24] };
        assert(ioapic@ =~= IoApicState::initial());
        ioapic
    }

    fn read(&self, gpa: u64) -> (value: u64)
        requires
            gpa == IOREGSEL || gpa == IOWIN,
        ensures
            value == self@.read_value(gpa),
    {
        if gpa == IOREGSEL {
            return self.cur_reg as u64;
        }
        if self.cur_reg == REG_VERSION {
            return IOAPIC_VERSION_VALUE;
        }
        match locate(self.cur_reg) {
            Some((index, high)) => {
                let entry: u64 = self.rte[index];
                if high {
                    proof {
                        lemma_bit_ranges(entry);
                    }
                    get_bits(entry, 32, 63)
                } else {
                    low_word(entry)
                }
            },
            None => 0,
        }
    }

    /// Carries out a write and gives back the entry that changed, with its index.
    fn write(&mut self, gpa: u64, value: u64) -> (changed: Option<(usize, u64)>)
        requires
            gpa == IOREGSEL || gpa == IOWIN,
        ensures
            final(self)@ == old(self)@.written(gpa, value),
            match table_slot(old(self)@.cur_reg) {
                Some((index, high)) => if gpa == IOREGSEL {
                    changed is None
                } else {
                    changed == Some((index as usize, old(self)@.written_entry(value)))
                },
                None => changed is None,
            },
    {
        if gpa == IOREGSEL {
            assert(value as u32 == value % 0x1_0000_0000) by (bit_vector);
            self.cur_reg = value as u32;
            return None;
        }
        let low: u64 = low_word(value);
        match locate(self.cur_reg) {
            Some((index, high)) => {
                let entry: u64 = self.rte[index];
                proof {
                    lemma2_to64();
                    lemma2_to64_rest();
                    lemma_bit_ranges(entry);
                }
                let updated: u64 = if high {
                    set_bits(entry, 32, 63, low)
                } else {
                    set_bits(entry, 0, 31, low)
                };
                self.rte[index] = updated;
                assert(self@ =~= old(self)@.written(gpa, value));
                Some((index, updated))
            },
            None => None,
        }
    }
}

/// The virtual I/O APICs of all zones, indexed by zone number.
pub struct VirtIoApic {
    pub inner: Vec<VirtIoApicUnlocked>,
}

impl View for VirtIoApic {
    type V = Seq<IoApicState>;

    open spec fn view(&self) -> Seq<IoApicState> {
        Seq::new(self.inner@.len(), |i: int| self.inner@[i]@)
    }
}

impl VirtIoApic {
    /// Whether the redirection entry of an interrupt line delivers the interrupt.
    pub open spec fn delivers(&self, zone_id: int, irq: int) -> bool {
        irq < IOAPIC_TABLE_LEN && rte_delivers(self@[zone_id].rte[irq])
    }

    /// Register files after reset, one for each of `max_zones` zones.
    pub fn new(max_zones: usize) -> (ioapic: Self)
        ensures
            ioapic@ == Seq::new(max_zones as nat, |i: int| IoApicState::initial()),
    {
        let mut inner: Vec<VirtIoApicUnlocked> = Vec::new();
        let mut i: usize = 0;
        while i < max_zones
            invariant
                i <= max_zones,
                inner@.len() == i,
                forall|j: int| 0 <= j < i ==> (#[trigger] inner@[j])@ == IoApicState::initial(),
            decreases max_zones - i,
        {
            inner.push(VirtIoApicUnlocked::new());
            i = i + 1;
        }
        let ioapic = VirtIoApic { inner };
        assert(ioapic@ =~= Seq::new(max_zones as nat, |i: int| IoApicState::initial()));
        ioapic
    }

    /// A read by a zone at an offset of the register window.
    pub fn read(&self, zone_id: usize, gpa: u64) -> (value: u64)
        requires
            zone_id < self@.len(),
            gpa == IOREGSEL || gpa == IOWIN,
        ensures
            value == self@[zone_id as int].read_value(gpa),
    {
        self.inner[zone_id].read(gpa)
    }

    /// A write by a zone at an offset of the register window. Only the root zone modifies the
    /// physical I/O APIC: the entry to program there is given back.
    pub fn write(&mut self, zone_id: usize, gpa: u64, value: u64) -> (update: Option<GsiUpdate>)
        requires
            zone_id < old(self)@.len(),
            gpa == IOREGSEL || gpa == IOWIN,
        ensures
            final(self)@ == old(self)@.update(
                zone_id as int,
                old(self)@[zone_id as int].written(gpa, value),
            ),
            update == mirrored_entry(old(self)@[zone_id as int], zone_id as int, gpa, value),
    {
        let changed = self.inner[zone_id].write(gpa, value);
        assert(self@ =~= old(self)@.update(
            zone_id as int,
            old(self)@[zone_id as int].written(gpa, value),
        ));
        match changed {
            Some((index, raw)) => {
                if zone_id == 0 {
                    Some(GsiUpdate { irq: index as u8, raw })
                } else {
                    None
                }
            },
            None => None,
        }
    }

    /// The APIC id that an interrupt line of a zone is routed to, unless the line is out of range.
    pub fn irq_dest(&self, irq: usize, zone_id: usize) -> (apic_id: Option<usize>)
        requires
            zone_id < self@.len(),
        ensures
            apic_id == (if irq < IOAPIC_TABLE_LEN {
                Some(rte_dest(self@[zone_id as int].rte[irq as int]))
            } else {
                None
            }),
    {
        if irq < IOAPIC_TABLE_LEN {
            Some(rte_dest_apic_id(self.inner[zone_id].rte[irq]))
        } else {
            None
        }
    }

    /// The CPU that an interrupt line of a zone is routed to, where `cpu_ids` gives the CPU of each
    /// APIC id. A line that is out of range is routed nowhere.
    pub fn get_irq_cpu(&self, irq: usize, zone_id: usize, cpu_ids: &[usize]) -> (cpu: Option<usize>)
        requires
            zone_id < self@.len(),
            irq < IOAPIC_TABLE_LEN ==> rte_dest(self@[zone_id as int].rte[irq as int])
                < cpu_ids@.len(),
        ensures
            cpu == (if irq < IOAPIC_TABLE_LEN {
                Some(routed_cpu(self@[zone_id as int].rte[irq as int], cpu_ids@))
            } else {
                None
            }),
    {
        match self.irq_dest(irq, zone_id) {
            Some(apic_id) => Some(cpu_ids[apic_id]),
            None => None,
        }
    }

    /// Whether an interrupt on a line of a zone is delivered at all.
    pub fn line_delivers(&self, irq: usize, zone_id: usize) -> (delivered: bool)
        requires
            zone_id < self@.len(),
        ensures
            delivered == self.delivers(zone_id as int, irq as int),
    {
        if irq >= IOAPIC_TABLE_LEN {
            return false;
        }
        let entry: u64 = self.inner[zone_id].rte[irq];
        proof {
            lemma2_to64();
            lemma_bit_ranges(entry);
            lemma_bit_at(entry, 16, 0x1_0000);
        }
        let masked = get_bit(entry, 16);
        let vector: u8 = get_bits(entry, 0, 7) as u8;
        !masked && vector >= FIRST_DELIVERABLE_VECTOR
    }

    /// What an interrupt on a line of a zone comes to: the CPU that gets it and the vector, or
    /// nothing when the line is out of range or its entry does not deliver. `cpu_ids` gives the
    /// CPU of each APIC id, and `cpu_set` holds the CPUs of the zone.
    ///
    /// An entry may route to a CPU outside the zone. Then the interrupt is redirected to the
    /// zone's first CPU, so that it reaches the right guest.
    pub fn trigger(
        &self,
        irq: usize,
        zone_id: usize,
        cpu_ids: &[usize],
        cpu_set: &CpuSet,
    ) -> (delivery: Option<(usize, u8)>)
        requires
            zone_id < self@.len(),
            self.delivers(zone_id as int, irq as int) ==> can_route(
                self@[zone_id as int].rte[irq as int],
                cpu_ids@,
                *cpu_set,
            ),
        ensures
            delivery is Some <==> self.delivers(zone_id as int, irq as int),
            delivery matches Some((cpu, vector)) ==> {
                let entry = self@[zone_id as int].rte[irq as int];
                &&& cpu == delivery_cpu(*cpu_set, routed_cpu(entry, cpu_ids@) as int)
                &&& vector == rte_vector(entry)
                &&& cpu_set.has(cpu as int)
            },
    {
        if !self.line_delivers(irq, zone_id) {
            return None;
        }
        let entry: u64 = self.inner[zone_id].rte[irq];
        proof {
            lemma_bit_ranges(entry);
        }
        let vector: u8 = get_bits(entry, 0, 7) as u8;
        let dest_cpu: usize = cpu_ids[rte_dest_apic_id(entry)];
        if cpu_set.contains_cpu(dest_cpu) {
            return Some((dest_cpu, vector));
        }
        match cpu_set.first_cpu() {
            Some(cpu) => Some((cpu, vector)),
            None => None,
        }
    }
}

/// Emulates an access of a zone to its I/O APIC. A read stores the value in the access; a write
/// gives back the entry to program into the physical I/O APIC, if there is one.
pub fn mmio_ioapic_handler(
    ioapic: &mut VirtIoApic,
    zone_id: usize,
    mmio: &mut MMIOAccess,
) -> (update: Option<GsiUpdate>)
    requires
        zone_id < old(ioapic)@.len(),
        old(mmio).address == IOREGSEL || old(mmio).address == IOWIN,
    ensures
        old(mmio).is_write ==> {
            &&& *final(mmio) == *old(mmio)
            &&& final(ioapic)@ == old(ioapic)@.update(
                zone_id as int,
                old(ioapic)@[zone_id as int].written(old(mmio).address, old(mmio).value),
            )
            &&& update == mirrored_entry(
                old(ioapic)@[zone_id as int],
                zone_id as int,
                old(mmio).address,
                old(mmio).value,
            )
        },
        !old(mmio).is_write ==> {
            &&& final(ioapic)@ == old(ioapic)@
            &&& *final(mmio) == (MMIOAccess {
                value: old(ioapic)@[zone_id as int].read_value(old(mmio).address),
                ..*old(mmio)
            })
            &&& update is None
        },
{
    if mmio.is_write {
        ioapic.write(zone_id, mmio.address, mmio.value)
    } else {
        mmio.value = ioapic.read(zone_id, mmio.address);
        None
    }
}

/// The interrupt lines that the root zone needs for its interactive console.
pub fn critical_irqs() -> (irqs: [u8; 1])
    ensures
        irqs@ == seq![UART_COM1_IRQ],
{
    let irqs: [u8; 1] = [UART_COM1_IRQ];
    assert(irqs@ =~= seq![UART_COM1_IRQ]);
    irqs
}

/// What becomes of a critical physical redirection entry when a zone takes the CPUs in `cpu_set`:
/// where it is routed to one of them, it gets CPU 0 as its destination.
pub open spec fn rerouted_entry(
    cpu_set: CpuSet,
    raw: u64,
    cpu_ids: Seq<usize>,
    cpu0_apic_id: u64,
) -> Option<u64> {
    if cpu_set.has(routed_cpu(raw, cpu_ids) as int) {
        Some(rte_with_dest(raw, cpu0_apic_id))
    } else {
        None
    }
}

/// When a non-root zone starts on a set of CPUs, critical physical interrupts must not be routed
/// to those CPUs: the guest there has no handler for them and the root zone would lose them.
///
/// `raw` is the physical redirection entry of a critical line and `cpu_ids` gives the CPU of each
/// APIC id. Where the entry is routed to a CPU of the set, it is given back with CPU 0, which
/// stays in the root zone, as its destination.
pub fn ioapic_reroute_from_cpus(
    cpu_set: &CpuSet,
    raw: u64,
    cpu_ids: &[usize],
    cpu0_apic_id: u64,
) -> (rerouted: Option<u64>)
    requires
        rte_dest(raw) < cpu_ids@.len(),
        routed_cpu(raw, cpu_ids@) < 64,
        cpu_set.has(routed_cpu(raw, cpu_ids@) as int) ==> cpu0_apic_id < 0x100,
    ensures
        rerouted == rerouted_entry(*cpu_set, raw, cpu_ids@, cpu0_apic_id),
{
    if cpu_set.contains_cpu(cpu_ids[rte_dest_apic_id(raw)]) {
        proof {
            lemma2_to64();
            lemma2_to64_rest();
            lemma_bit_ranges(raw);
        }
        Some(set_bits(raw, 56, 63, cpu0_apic_id))
    } else {
        None
    }
}

/// A register of the redirection table reads back what was written to it: the low 32 bits of the
/// value.
pub proof fn law_read_back(s: IoApicState, reg: u32, value: u64)
    requires
        s.rte.len() == IOAPIC_TABLE_LEN,
        table_slot(reg) is Some,
    ensures
        s.written(IOREGSEL, reg as u64).written(IOWIN, value).read_value(IOWIN) == rte_low(value),
{
    assert(rte_low(reg as u64) == reg);
}

/// A write to one register of the redirection table changes no other register.
pub proof fn law_write_is_local(s: IoApicState, reg: u32, value: u64, other: u32)
    requires
        s.rte.len() == IOAPIC_TABLE_LEN,
        reg != other,
    ensures
        s.written(IOREGSEL, reg as u64).written(IOWIN, value).written(
            IOREGSEL,
            other as u64,
        ).read_value(IOWIN) == s.written(IOREGSEL, other as u64).read_value(IOWIN),
{
    assert(rte_low(reg as u64) == reg);
    assert(rte_low(other as u64) == other);
}

/// A register keeps its value over any writes of which none goes to it.
pub proof fn law_register_keeps_value(s: IoApicState, reg: u32, writes: Seq<(u64, u64)>)
    requires
        s.rte.len() == IOAPIC_TABLE_LEN,
        forall|i: int|
            0 <= i < writes.len() ==> !s.written_all(#[trigger] writes.take(i)).reaches(
                reg,
                writes[i].0,
            ),
    ensures
        s.written_all(writes).rte.len() == IOAPIC_TABLE_LEN,
        s.written_all(writes).written(IOREGSEL, reg as u64).read_value(IOWIN) == s.written(
            IOREGSEL,
            reg as u64,
        ).read_value(IOWIN),
    decreases writes.len(),
{
    if writes.len() > 0 {
        let before = writes.drop_last();
        let (gpa, value) = writes.last();
        assert forall|i: int| 0 <= i < before.len() implies !s.written_all(
            #[trigger] before.take(i),
        ).reaches(reg, before[i].0) by {
            assert(before.take(i) =~= writes.take(i));
        }
        law_register_keeps_value(s, reg, before);
        assert(writes.take(writes.len() - 1) =~= before);
        let t = s.written_all(before);
        if gpa != IOREGSEL {
            assert(rte_low(t.cur_reg as u64) == t.cur_reg);
            assert(t.written(IOREGSEL, t.cur_reg as u64) == t);
            law_write_is_local(t, t.cur_reg, value, reg);
        }
    }
}

/// A register of the redirection table reads back what was written to it, whatever the other
/// registers were written in between.
pub proof fn law_read_back_later(
    s: IoApicState,
    reg: u32,
    value: u64,
    writes: Seq<(u64, u64)>,
)
    requires
        s.rte.len() == IOAPIC_TABLE_LEN,
        table_slot(reg) is Some,
        ({
            let t = s.written(IOREGSEL, reg as u64).written(IOWIN, value);
            forall|i: int|
                0 <= i < writes.len() ==> !t.written_all(#[trigger] writes.take(i)).reaches(
                    reg,
                    writes[i].0,
                )
        }),
    ensures
        s.written(IOREGSEL, reg as u64).written(IOWIN, value).written_all(writes).written(
            IOREGSEL,
            reg as u64,
        ).read_value(IOWIN) == rte_low(value),
{
    let t = s.written(IOREGSEL, reg as u64).written(IOWIN, value);
    law_read_back(s, reg, value);
    law_register_keeps_value(t, reg, writes);
    assert(rte_low(reg as u64) == reg);
    assert(t.written(IOREGSEL, reg as u64) == t);
}

/// The select register reads back the low 32 bits of what was written to it.
pub proof fn law_select_read_back(s: IoApicState, value: u64)
    ensures
        s.written(IOREGSEL, value).read_value(IOREGSEL) == rte_low(value),
{
}

/// The identification, version and arbitration registers, and every number outside the table, are
/// read-only. They read zero, but for the version register, which tells the index of the last
/// table entry and the version.
pub proof fn law_fixed_registers(s: IoApicState, value: u64)
    requires
        table_slot(s.cur_reg) is None,
    ensures
        s.written(IOWIN, value) == s,
        s.read_value(IOWIN) == (if s.cur_reg == REG_VERSION {
            IOAPIC_VERSION_VALUE
        } else {
            0
        }),
        s.cur_reg == REG_VERSION ==> {
            &&& s.read_value(IOWIN) / 0x1_0000 == IOAPIC_MAX_REDIRECT_ENTRIES
            &&& s.read_value(IOWIN) % 0x100 == 0x11
        },
        table_slot(REG_ID) is None,
        table_slot(REG_VERSION) is None,
        table_slot(REG_ARBITRATION) is None,
{
}

/// No access resizes the redirection table.
pub proof fn law_table_keeps_length(s: IoApicState, gpa: u64, value: u64)
    requires
        s.rte.len() == IOAPIC_TABLE_LEN,
    ensures
        s.written(gpa, value).rte.len() == IOAPIC_TABLE_LEN,
        IoApicState::initial().rte.len() == IOAPIC_TABLE_LEN,
{
}

/// Only the root zone reaches the physical I/O APIC, and there it programs what its own virtual
/// table holds after the write.
pub proof fn law_only_root_is_mirrored(s: IoApicState, zone_id: int, gpa: u64, value: u64)
    requires
        s.rte.len() == IOAPIC_TABLE_LEN,
    ensures
        zone_id != 0 ==> mirrored_entry(s, zone_id, gpa, value) is None,
        mirrored_entry(s, zone_id, gpa, value) matches Some(update) ==> s.written(
            gpa,
            value,
        ).rte[update.irq as int] == update.raw,
{
}

/// Rerouting an entry changes its destination and nothing else.
pub proof fn law_reroute_changes_destination_only(raw: u64, apic_id: u64)
    requires
        apic_id < 0x100,
    ensures
        rte_dest(rte_with_dest(raw, apic_id)) == apic_id,
        rte_vector(rte_with_dest(raw, apic_id)) == rte_vector(raw),
        rte_masked(rte_with_dest(raw, apic_id)) == rte_masked(raw),
        rte_low(rte_with_dest(raw, apic_id)) == rte_low(raw),
        rte_with_dest(raw, apic_id) % 0x0100_0000_0000_0000 == raw % 0x0100_0000_0000_0000,
{
    let rest: int = (raw % 0x0100_0000_0000_0000) as int;
    lemma_rte_rest(raw, (raw / 0x0100_0000_0000_0000) as int, rest);
    lemma_rte_rest(rte_with_dest(raw, apic_id), apic_id as int, rest);
}

proof fn lemma_rte_rest(entry: u64, dest: int, rest: int)
    requires
        entry == dest * 0x0100_0000_0000_0000 + rest,
        0 <= rest < 0x0100_0000_0000_0000,
    ensures
        entry / 0x0100_0000_0000_0000 == dest,
        entry % 0x0100_0000_0000_0000 == rest,
        entry as int % 0x100 == rest % 0x100,
        entry as int % 0x1_0000_0000 == rest % 0x1_0000_0000,
        (entry as int / 0x1_0000) % 2 == (rest / 0x1_0000) % 2,
{
    assert(entry as int % 0x100 == rest % 0x100);
    assert(entry as int % 0x1_0000_0000 == rest % 0x1_0000_0000);
    assert(entry as int / 0x1_0000 == dest * 0x100_0000_0000 + rest / 0x1_0000);
}

/// After rerouting, a critical interrupt is routed to none of the CPUs that the new zone takes,
/// provided that CPU 0 stays with the root zone.
pub proof fn law_reroute_frees_cpus(
    cpu_set: CpuSet,
    raw: u64,
    cpu_ids: Seq<usize>,
    cpu0_apic_id: u64,
)
    requires
        cpu0_apic_id < 0x100,
        cpu0_apic_id < cpu_ids.len(),
        cpu_ids[cpu0_apic_id as int] == 0,
        !cpu_set.has(0),
    ensures
        ({
            let entry = match rerouted_entry(cpu_set, raw, cpu_ids, cpu0_apic_id) {
                Some(entry) => entry,
                None => raw,
            };
            !cpu_set.has(routed_cpu(entry, cpu_ids) as int)
        }),
{
    law_reroute_changes_destination_only(raw, cpu0_apic_id);
}

/// An interrupt of a zone that has a CPU is delivered to a CPU of that zone, wherever the entry
/// points.
pub proof fn law_delivery_stays_in_zone(cpu_set: CpuSet, dest: int)
    requires
        cpu_set.inhabited(),
    ensures
        cpu_set.has(delivery_cpu(cpu_set, dest)),
        cpu_set.has(dest) ==> delivery_cpu(cpu_set, dest) == dest,
        !cpu_set.has(dest) ==> forall|cpu: int|
            cpu_set.has(cpu) ==> delivery_cpu(cpu_set, dest) <= cpu,
{
    let some_cpu = choose|cpu: int| cpu_set.has(cpu);
    crate::cpu::lemma_first_exists(cpu_set, some_cpu);
}

/// What a write of a zone to its I/O APIC does. A write at offset 0 selects the register that the
/// low 32 bits of the value name. A write at offset 0x10 puts the low 32 bits of the value into
/// the half of the table entry that the selected register stands for, the lower half for an even
/// number and the upper half for an odd one, and keeps the other half, the other entries and the
/// selection; where the register is outside the table, nothing changes. No other zone is touched.
pub proof fn law_write(
    ioapic: &mut VirtIoApic,
    zone_id: usize,
    gpa: u64,
    value: u64,
    update: Option<GsiUpdate>,
)
    requires
        call_ensures(VirtIoApic::write, (ioapic, zone_id, gpa, value), update),
        zone_id < old(ioapic)@.len(),
        gpa == 0 || gpa == 0x10,
    ensures
        final(ioapic)@.len() == old(ioapic)@.len(),
        forall|zone: int|
            0 <= zone < old(ioapic)@.len() && zone != zone_id ==> #[trigger] final(ioapic)@[zone]
                == old(ioapic)@[zone],
        ({
            let s = old(ioapic)@[zone_id as int];
            let t = final(ioapic)@[zone_id as int];
            let index = (s.cur_reg - 0x10) / 2;
            &&& gpa == 0 ==> t.cur_reg == value % 0x1_0000_0000 && t.rte == s.rte
            &&& gpa == 0x10 ==> t.cur_reg == s.cur_reg && t.rte.len() == 24 && forall|i: int|
                0 <= i < 24 && (i != index || s.cur_reg < 0x10) ==> #[trigger] t.rte[i] == s.rte[i]
            &&& gpa == 0x10 && 0x10 <= s.cur_reg < 0x40 && s.cur_reg % 2 == 0 ==> {
                &&& t.rte[index] % 0x1_0000_0000 == value % 0x1_0000_0000
                &&& t.rte[index] / 0x1_0000_0000 == s.rte[index] / 0x1_0000_0000
            }
            &&& gpa == 0x10 && 0x10 <= s.cur_reg < 0x40 && s.cur_reg % 2 == 1 ==> {
                &&& t.rte[index] % 0x1_0000_0000 == s.rte[index] % 0x1_0000_0000
                &&& t.rte[index] / 0x1_0000_0000 == value % 0x1_0000_0000
            }
        }),
{
    assert(old(ioapic).inner@[zone_id as int].rte@.len() == 24);
}

/// The physical I/O APIC follows the root zone's table: every write of the root zone to a register
/// of the table, whatever it writes, gives back the entry of that register with what the table then
/// holds. No other write does, neither one that selects a register, nor one outside the table, nor
/// one of another zone.
pub proof fn law_root_table_is_mirrored(
    ioapic: &mut VirtIoApic,
    zone_id: usize,
    gpa: u64,
    value: u64,
    update: Option<GsiUpdate>,
)
    requires
        call_ensures(VirtIoApic::write, (ioapic, zone_id, gpa, value), update),
        zone_id < old(ioapic)@.len(),
        gpa == 0 || gpa == 0x10,
    ensures
        update is Some <==> zone_id == 0 && gpa == 0x10 && 0x10
            <= old(ioapic)@[zone_id as int].cur_reg < 0x40,
        update matches Some(update) ==> {
            &&& update.irq == (old(ioapic)@[0].cur_reg - 0x10) / 2
            &&& update.raw == final(ioapic)@[0].rte[update.irq as int]
        },
{
    assert(old(ioapic).inner@[zone_id as int].rte@.len() == 24);
}

/// What a read of a zone from its I/O APIC gives: the selected number at offset 0; at offset 0x10
/// the version for register 1, the lower half of a table entry for an even register of the table
/// and the upper half for an odd one, and zero for every other register.
pub proof fn law_read(ioapic: &VirtIoApic, zone_id: usize, gpa: u64, value: u64)
    requires
        call_ensures(VirtIoApic::read, (ioapic, zone_id, gpa), value),
        gpa == 0 || gpa == 0x10,
    ensures
        ({
            let s = ioapic@[zone_id as int];
            let entry = s.rte[(s.cur_reg - 0x10) / 2];
            let in_table = 0x10 <= s.cur_reg < 0x40;
            &&& gpa == 0 ==> value == s.cur_reg
            &&& gpa == 0x10 && s.cur_reg == 1 ==> value == 0x17 * 0x1_0000 + 0x11
            &&& gpa == 0x10 && in_table && s.cur_reg % 2 == 0 ==> value == entry % 0x1_0000_0000
            &&& gpa == 0x10 && in_table && s.cur_reg % 2 == 1 ==> value == entry / 0x1_0000_0000
            &&& gpa == 0x10 && !in_table && s.cur_reg != 1 ==> value == 0
        }),
{
}

/// An emulated write does what a write does and leaves the access alone.
pub proof fn law_mmio_write(
    emulated: &mut VirtIoApic,
    direct: &mut VirtIoApic,
    zone_id: usize,
    mmio: &mut MMIOAccess,
    update: Option<GsiUpdate>,
    direct_update: Option<GsiUpdate>,
)
    requires
        old(mmio).is_write,
        old(emulated)@ == old(direct)@,
        call_ensures(mmio_ioapic_handler, (emulated, zone_id, mmio), update),
        call_ensures(
            VirtIoApic::write,
            (direct, zone_id, old(mmio).address, old(mmio).value),
            direct_update,
        ),
    ensures
        final(emulated)@ == final(direct)@,
        update == direct_update,
        *final(mmio) == *old(mmio),
{
}

/// An emulated read puts into the access what a read gives, and changes nothing else.
pub proof fn law_mmio_read(
    ioapic: &mut VirtIoApic,
    zone_id: usize,
    mmio: &mut MMIOAccess,
    update: Option<GsiUpdate>,
    value: u64,
)
    requires
        !old(mmio).is_write,
        call_ensures(mmio_ioapic_handler, (ioapic, zone_id, mmio), update),
        call_ensures(VirtIoApic::read, (&*old(ioapic), zone_id, old(mmio).address), value),
    ensures
        final(ioapic)@ == old(ioapic)@,
        update is None,
        final(mmio).value == value,
        final(mmio).address == old(mmio).address,
        final(mmio).size == old(mmio).size,
        !final(mmio).is_write,
{
}

/// After reset nothing is selected and every entry is zero, in every zone.
pub proof fn law_reset(ioapic: VirtIoApic, max_zones: usize, zone: int, irq: int)
    requires
        call_ensures(VirtIoApic::new, (max_zones,), ioapic),
        0 <= zone < max_zones,
        0 <= irq < 24,
    ensures
        ioapic@.len() == max_zones,
        ioapic@[zone].cur_reg == 0,
        ioapic@[zone].rte.len() == 24,
        ioapic@[zone].rte[irq] == 0,
{
}

/// A line delivers exactly when it is in the table, bit 16 of its entry is clear and the low byte
/// of the entry is at least 0x20.
pub proof fn law_line_delivers(ioapic: &VirtIoApic, irq: usize, zone_id: usize, delivered: bool)
    requires
        call_ensures(VirtIoApic::line_delivers, (ioapic, irq, zone_id), delivered),
    ensures
        ({
            let entry = ioapic@[zone_id as int].rte[irq as int];
            delivered <==> irq < 24 && (entry / 0x1_0000) % 2 == 0 && entry % 0x100 >= 0x20
        }),
{
}

/// An interrupt that is delivered carries the low byte of its entry and goes to a CPU of the zone:
/// to the one that has the APIC id in the top byte of the entry, if it belongs to the zone, and
/// else to the zone's first CPU. Every line that delivers does so.
pub proof fn law_trigger(
    ioapic: &VirtIoApic,
    irq: usize,
    zone_id: usize,
    cpu_ids: &[usize],
    cpu_set: &CpuSet,
    delivery: Option<(usize, u8)>,
    delivered: bool,
)
    requires
        call_ensures(VirtIoApic::trigger, (ioapic, irq, zone_id, cpu_ids, cpu_set), delivery),
        call_ensures(VirtIoApic::line_delivers, (ioapic, irq, zone_id), delivered),
        delivered ==> cpu_set.inhabited(),
    ensures
        delivery is Some <==> delivered,
        delivery matches Some((cpu, vector)) ==> {
            let entry = ioapic@[zone_id as int].rte[irq as int];
            let named = cpu_ids@[entry as int / 0x0100_0000_0000_0000];
            &&& vector == entry % 0x100
            &&& cpu_set.has(cpu as int)
            &&& cpu_set.has(named as int) ==> cpu == named
            &&& !cpu_set.has(named as int) ==> forall|other: int|
                cpu_set.has(other) ==> cpu <= other
        },
{
    let entry = ioapic@[zone_id as int].rte[irq as int];
    if delivered {
        law_delivery_stays_in_zone(*cpu_set, routed_cpu(entry, cpu_ids@) as int);
    }
}

/// The destination of a line is the top byte of its entry, and its CPU the one that has this APIC
/// id. A line outside the table has neither.
pub proof fn law_line_destination(
    ioapic: &VirtIoApic,
    irq: usize,
    zone_id: usize,
    cpu_ids: &[usize],
    apic_id: Option<usize>,
    cpu: Option<usize>,
)
    requires
        call_ensures(VirtIoApic::irq_dest, (ioapic, irq, zone_id), apic_id),
        call_ensures(VirtIoApic::get_irq_cpu, (ioapic, irq, zone_id, cpu_ids), cpu),
    ensures
        apic_id is Some <==> irq < 24,
        cpu is Some <==> irq < 24,
        apic_id matches Some(id) ==> id == ioapic@[zone_id as int].rte[irq as int]
            / 0x0100_0000_0000_0000 && cpu == Some(cpu_ids@[id as int]),
{
}

/// The destination of an entry is its top byte.
pub proof fn law_rte_dest_apic_id(entry: u64, apic_id: usize)
    requires
        call_ensures(rte_dest_apic_id, (entry,), apic_id),
    ensures
        apic_id == entry / 0x0100_0000_0000_0000,
{
}

/// The critical lines are the one of the serial port, line 4, and no other.
pub proof fn law_critical_irqs(irqs: [u8; 1])
    requires
        call_ensures(critical_irqs, (), irqs),
    ensures
        irqs@ == seq![4u8],
{
}

/// An entry is rerouted exactly when the CPU that has the APIC id in its top byte is taken. Then
/// the top byte becomes the APIC id of CPU 0 and the other seven bytes stay.
pub proof fn law_reroute(
    cpu_set: &CpuSet,
    raw: u64,
    cpu_ids: &[usize],
    cpu0_apic_id: u64,
    rerouted: Option<u64>,
)
    requires
        call_ensures(ioapic_reroute_from_cpus, (cpu_set, raw, cpu_ids, cpu0_apic_id), rerouted),
        cpu0_apic_id < 0x100,
    ensures
        rerouted is Some <==> cpu_set.has(cpu_ids@[raw as int / 0x0100_0000_0000_0000] as int),
        rerouted matches Some(entry) ==> {
            &&& entry / 0x0100_0000_0000_0000 == cpu0_apic_id
            &&& entry % 0x0100_0000_0000_0000 == raw % 0x0100_0000_0000_0000
        },
{
    law_reroute_changes_destination_only(raw, cpu0_apic_id);
}

} // verus!
