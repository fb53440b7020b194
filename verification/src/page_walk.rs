//! A walk through the page tables of a guest, one entry at a time.
use vstd::prelude::*;

verus! {

/// Levels of the page table: the walk starts at this one and ends at level 1.
pub const TOP_LEVEL: u8 = 4;

/// A walk in progress: the next entry to look at stands in `table`, at the place for `vaddr`.
#[derive(Clone, Copy, Debug, PartialEq, Eq, Structural)]
pub struct PageWalk {
    pub vaddr: u64,
    /// 4 for the PML4, 3 for the PDPT, 2 for the PD, 1 for the PT.
    pub level: u8,
    /// Guest-physical address of the table.
    pub table: u64,
}

/// What an entry comes to.
#[derive(Clone, Copy, Debug, PartialEq, Eq, Structural)]
pub enum WalkStep {
    /// The entry is not present: the walk ends.
    NotPresent,
    /// The entry refers to a table of the next level: the walk goes on there.
    Descend,
    /// The entry maps a page: the walk ends.
    Page { base: u64, offset: u64, addr: u64 },
}

/// Size of the memory that an entry of this level stands for.
pub open spec fn level_span(level: int) -> int {
    if level == 4 {
        0x80_0000_0000
    } else if level == 3 {
        0x4000_0000
    } else if level == 2 {
        0x20_0000
    } else {
        0x1000
    }
}

/// Whether an entry is present.
pub open spec fn entry_present(entry: u64) -> bool {
    entry % 2 == 1
}

/// Whether an entry has the page size bit set.
pub open spec fn entry_huge(entry: u64) -> bool {
    (entry / 0x80) % 2 == 1
}

/// The table or page that an entry refers to: bits 51 to 12.
pub open spec fn entry_addr(entry: u64) -> u64 {
    (entry % 0x10_0000_0000_0000 - entry % 0x1000) as u64
}

/// The page that an entry of this level maps: bits 51 to 30 at level 3, bits 51 to 21 at level 2,
/// bits 51 to 12 at level 1.
pub open spec fn page_base(level: int, entry: u64) -> u64 {
    if level == 3 {
        (entry % 0x10_0000_0000_0000 - entry % 0x4000_0000) as u64
    } else if level == 2 {
        (entry % 0x10_0000_0000_0000 - entry % 0x20_0000) as u64
    } else {
        entry_addr(entry)
    }
}

/// Whether an entry that is present ends the walk.
pub open spec fn entry_maps_page(level: int, entry: u64) -> bool {
    level == 1 || ((level == 2 || level == 3) && entry_huge(entry))
}

impl PageWalk {
    /// The walk is at one of the four levels.
    pub open spec fn wf(self) -> bool {
        1 <= self.level <= TOP_LEVEL
    }

    /// The place of the entry in its table.
    pub open spec fn index(self) -> int {
        (self.vaddr as int / level_span(self.level as int)) % 512
    }

    /// What an entry comes to.
    pub open spec fn outcome(self, entry: u64) -> WalkStep {
        if !entry_present(entry) {
            WalkStep::NotPresent
        } else if entry_maps_page(self.level as int, entry) {
            let base = page_base(self.level as int, entry);
            let offset = (self.vaddr as int % level_span(self.level as int)) as u64;
            WalkStep::Page { base, offset, addr: (base + offset) as u64 }
        } else {
            WalkStep::Descend
        }
    }

    /// The walk after an entry.
    pub open spec fn after(self, entry: u64) -> PageWalk {
        if self.outcome(entry) == WalkStep::Descend {
            PageWalk { level: (self.level - 1) as u8, table: entry_addr(entry), ..self }
        } else {
            self
        }
    }

    /// Starts a walk for `vaddr` at the table in CR3.
    pub fn begin(vaddr: u64, cr3: u64) -> (walk: Self)
        ensures
            walk == (PageWalk { vaddr, level: TOP_LEVEL, table: cr3 }),
            walk.wf(),
    {
        PageWalk { vaddr, level: TOP_LEVEL, table: cr3 }
    }

    /// The place of the next entry in its table.
    pub fn entry_index(&self) -> (index: usize)
        requires
            self.wf(),
        ensures
            index == self.index(),
            index < 512,
    {
        let vaddr: u64 = self.vaddr;
        assert((vaddr >> 39u64) & 0x1ff == (vaddr / 0x80_0000_0000) % 512) by (bit_vector);
        assert((vaddr >> 30u64) & 0x1ff == (vaddr / 0x4000_0000) % 512) by (bit_vector);
        assert((vaddr >> 21u64) & 0x1ff == (vaddr / 0x20_0000) % 512) by (bit_vector);
        assert((vaddr >> 12u64) & 0x1ff == (vaddr / 0x1000) % 512) by (bit_vector);
        let index: u64 = if self.level == 4 {
            (vaddr >> 39u64) & 0x1ff
        } else if self.level == 3 {
            (vaddr >> 30u64) & 0x1ff
        } else if self.level == 2 {
            (vaddr >> 21u64) & 0x1ff
        } else {
            (vaddr >> 12u64) & 0x1ff
        };
        index as usize
    }

    /// Looks at the next entry and moves on to the table that it refers to, if it does.
    pub fn step(&mut self, entry: u64) -> (step: WalkStep)
        requires
            old(self).wf(),
        ensures
            step == old(self).outcome(entry),
            *final(self) == old(self).after(entry),
            final(self).wf(),
    {
        let vaddr: u64 = self.vaddr;
        assert((entry & 1 != 0) == (entry % 2 == 1)) by (bit_vector);
        assert(((entry >> 7u64) & 1 != 0) == ((entry / 0x80) % 2 == 1)) by (bit_vector);
        assert(entry & 0x000f_ffff_ffff_f000 == entry % 0x10_0000_0000_0000 - entry % 0x1000)
            by (bit_vector);
        if entry & 1 == 0 {
            return WalkStep::NotPresent;
        }
        let huge = (entry >> 7u64) & 1 != 0;
        if self.level == 3 && huge {
            let base: u64 = entry & 0x000f_ffff_c000_0000;
            let offset: u64 = vaddr & 0x3fff_ffff;
            assert({
                let b = entry & 0x000f_ffff_c000_0000;
                let o = vaddr & 0x3fff_ffff;
                &&& b == entry % 0x10_0000_0000_0000 - entry % 0x4000_0000
                &&& o == vaddr % 0x4000_0000
                &&& b | o == b + o
            }) by (bit_vector);
            return WalkStep::Page { base, offset, addr: base | offset };
        }
        if self.level == 2 && huge {
            let base: u64 = entry & 0x000f_ffff_ffe0_0000;
            let offset: u64 = vaddr & 0x1f_ffff;
            assert({
                let b = entry & 0x000f_ffff_ffe0_0000;
                let o = vaddr & 0x1f_ffff;
                &&& b == entry % 0x10_0000_0000_0000 - entry % 0x20_0000
                &&& o == vaddr % 0x20_0000
                &&& b | o == b + o
            }) by (bit_vector);
            return WalkStep::Page { base, offset, addr: base | offset };
        }
        let next: u64 = entry & 0x000f_ffff_ffff_f000;
        if self.level == 1 {
            let offset: u64 = vaddr & 0xfff;
            assert({
                let b = entry & 0x000f_ffff_ffff_f000;
                let o = vaddr & 0xfff;
                &&& o == vaddr % 0x1000
                &&& b | o == b + o
            }) by (bit_vector);
            return WalkStep::Page { base: next, offset, addr: next | offset };
        }
        self.level = self.level - 1;
        self.table = next;
        WalkStep::Descend
    }
}

/// The places of the entries for an address, from the top table down.
pub fn table_indices(vaddr: u64) -> (indices: [usize; 4])
    ensures
        forall|i: int|
            0 <= i < 4 ==> (#[trigger] indices@[i]) == (vaddr as int / level_span(TOP_LEVEL - i))
                % 512,
{
    let mut walk = PageWalk::begin(vaddr, 0);
    let pml4: usize = walk.entry_index();
    walk.level = 3;
    let pdpt: usize = walk.entry_index();
    walk.level = 2;
    let pd: usize = walk.entry_index();
    walk.level = 1;
    let pt: usize = walk.entry_index();
    [pml4, pdpt, pd, pt]
}

/// The walk after these entries, one after the other.
pub open spec fn walked(walk: PageWalk, entries: Seq<u64>) -> PageWalk
    decreases entries.len(),
{
    if entries.len() == 0 {
        walk
    } else {
        walked(walk, entries.drop_last()).after(entries.last())
    }
}

/// A walk ends with the fourth entry at the latest: an entry of level 1 never descends, and every
/// entry that descends leads one level down.
pub proof fn law_walk_ends(vaddr: u64, cr3: u64, entries: Seq<u64>)
    requires
        forall|i: int|
            0 <= i < entries.len() ==> walked(
                PageWalk { vaddr, level: TOP_LEVEL, table: cr3 },
                #[trigger] entries.take(i),
            ).outcome(entries[i]) == WalkStep::Descend,
    ensures
        entries.len() < TOP_LEVEL,
        walked(PageWalk { vaddr, level: TOP_LEVEL, table: cr3 }, entries).level == TOP_LEVEL
            - entries.len(),
    decreases entries.len(),
{
    let start = PageWalk { vaddr, level: TOP_LEVEL, table: cr3 };
    if entries.len() > 0 {
        let before = entries.drop_last();
        assert forall|i: int| 0 <= i < before.len() implies walked(
            start,
            #[trigger] before.take(i),
        ).outcome(before[i]) == WalkStep::Descend by {
            assert(before.take(i) =~= entries.take(i));
        }
        law_walk_ends(vaddr, cr3, before);
        assert(entries.take(entries.len() - 1) =~= before);
    }
}

/// A walk that descends looks for the next entry in the table that the last entry refers to, at a
/// place that depends on the level and the address alone.
pub proof fn law_walk_follows_entries(walk: PageWalk, entry: u64)
    requires
        walk.wf(),
        walk.outcome(entry) == WalkStep::Descend,
    ensures
        walk.after(entry).table == entry_addr(entry),
        walk.after(entry).table % 0x1000 == 0,
        walk.after(entry).vaddr == walk.vaddr,
        walk.after(entry).level == walk.level - 1,
        walk.after(entry).wf(),
{
}

/// The address that a walk ends at keeps the offset into the page.
pub proof fn law_page_keeps_offset(walk: PageWalk, entry: u64)
    requires
        walk.wf(),
    ensures
        walk.outcome(entry) matches WalkStep::Page { base, offset, addr } ==> {
            &&& addr == base + offset
            &&& addr as int % level_span(walk.level as int) == walk.vaddr as int % level_span(
                walk.level as int,
            )
        },
{
    if let WalkStep::Page { base, offset, addr } = walk.outcome(entry) {
        lemma_page_base(walk.level as int, entry);
        let span = level_span(walk.level as int);
        let frame = base as int / span;
        vstd::arithmetic::div_mod::lemma_fundamental_div_mod(base as int, span);
        assert(frame * span == base) by (nonlinear_arith)
            requires
                base as int == span * frame,
        ;
        assert(0 <= walk.vaddr as int % span < span);
        assert((frame * span + offset) % span == offset) by {
            vstd::arithmetic::div_mod::lemma_fundamental_div_mod_converse(
                frame * span + offset,
                span,
                frame,
                offset as int,
            );
        }
    }
}

/// The base of a page is a multiple of its size and leaves room for the offset.
proof fn lemma_page_base(level: int, entry: u64)
    requires
        1 <= level <= 3,
    ensures
        page_base(level, entry) as int % level_span(level) == 0,
        page_base(level, entry) + level_span(level) <= u64::MAX,
{
    assert({
        let base = entry % 0x10_0000_0000_0000 - entry % 0x4000_0000;
        base % 0x4000_0000 == 0 && 0 <= base && base + 0x4000_0000 <= 0xffff_ffff_ffff_ffff
    }) by (bit_vector);
    assert({
        let base = entry % 0x10_0000_0000_0000 - entry % 0x20_0000;
        base % 0x20_0000 == 0 && 0 <= base && base + 0x20_0000 <= 0xffff_ffff_ffff_ffff
    }) by (bit_vector);
    assert({
        let base = entry % 0x10_0000_0000_0000 - entry % 0x1000;
        base % 0x1000 == 0 && 0 <= base && base + 0x1000 <= 0xffff_ffff_ffff_ffff
    }) by (bit_vector);
}

/// The page size of an entry of this level: 1 GB, 2 MB or 4 KB.
pub open spec fn page_size(level: int) -> int {
    if level == 3 {
        0x4000_0000
    } else if level == 2 {
        0x20_0000
    } else {
        0x1000
    }
}

/// What one entry does to a walk. Without bit 0 the walk ends where it is. Otherwise an entry of
/// the last level, and one of the two levels above it with bit 7, maps a page: the address is that
/// of `vaddr` in the page, whose number the entry holds in its bits 51 and down. Any other entry
/// leads to the table whose address is in bits 51 to 12, one level down and for the same `vaddr`.
pub proof fn law_step(walk: &mut PageWalk, entry: u64, step: WalkStep)
    requires
        call_ensures(PageWalk::step, (walk, entry), step),
        1 <= old(walk).level <= 4,
    ensures
        ({
            let level = old(walk).level as int;
            let size = page_size(level);
            let number = entry as int % 0x10_0000_0000_0000;
            let maps = level == 1 || (level < 4 && (entry / 0x80) % 2 == 1);
            &&& step is NotPresent <==> entry % 2 == 0
            &&& entry % 2 == 1 ==> (step is Page <==> maps)
            &&& !(step is Descend) ==> *final(walk) == *old(walk)
            &&& step is Descend ==> {
                &&& final(walk).vaddr == old(walk).vaddr
                &&& final(walk).level == level - 1
                &&& final(walk).table % 0x1000 == 0
                &&& final(walk).table / 0x1000 == number / 0x1000
            }
            &&& step matches WalkStep::Page { base, offset, addr } ==> {
                &&& base as int % size == 0
                &&& base as int / size == number / size
                &&& offset == old(walk).vaddr as int % size
                &&& addr == base + offset
            }
        }),
{
    let level = old(walk).level as int;
    if 1 <= level <= 3 {
        lemma_page_base(level, entry);
    }
    lemma_page_base(1, entry);
}

/// The four indices and the offset into a page make up the low 48 bits of an address, nine bits for
/// each index and the top table first.
pub proof fn law_table_indices(vaddr: u64, indices: [usize; 4])
    requires
        call_ensures(table_indices, (vaddr,), indices),
    ensures
        forall|i: int| 0 <= i < 4 ==> (#[trigger] indices@[i]) < 512,
        (((indices@[0] * 512 + indices@[1]) * 512 + indices@[2]) * 512 + indices@[3]) * 4096
            + vaddr % 4096 == vaddr % 0x1_0000_0000_0000,
{
    assert((((((vaddr / 0x80_0000_0000) % 512) * 512 + (vaddr / 0x4000_0000) % 512) * 512 + (vaddr
        / 0x20_0000) % 512) * 512 + (vaddr / 0x1000) % 512) * 4096 + vaddr % 4096 == vaddr
        % 0x1_0000_0000_0000) by (bit_vector);
    assert(indices@[0] == (vaddr / 0x80_0000_0000) % 512);
    assert(indices@[1] == (vaddr / 0x4000_0000) % 512);
    assert(indices@[2] == (vaddr / 0x20_0000) % 512);
    assert(indices@[3] == (vaddr / 0x1000) % 512);
}

/// A walk looks at the entries that the four indices name, one table after the other, and starts at
/// the table in CR3.
pub proof fn law_walk_uses_indices(
    vaddr: u64,
    cr3: u64,
    start: PageWalk,
    walk: &PageWalk,
    index: usize,
    indices: [usize; 4],
)
    requires
        call_ensures(PageWalk::begin, (vaddr, cr3), start),
        call_ensures(PageWalk::entry_index, (walk,), index),
        call_ensures(table_indices, (walk.vaddr,), indices),
        1 <= walk.level <= 4,
    ensures
        start.vaddr == vaddr,
        start.table == cr3,
        start.level == 4,
        index == indices@[4 - walk.level],
{
}

} // verus!
