//! Sets of CPUs and the general-purpose registers of a guest.
use vstd::prelude::*;

verus! {

/// A set of CPUs: bit `n` of the bitmap stands for CPU `n`.
#[derive(Clone, Copy, Debug, PartialEq, Eq, Structural)]
pub struct CpuSet {
    pub bitmap: u64,
}

impl CpuSet {
    /// Whether a CPU belongs to the set.
    pub open spec fn has(self, cpu: int) -> bool {
        0 <= cpu < 64 && self.bitmap & (1u64 << (cpu as u64)) != 0
    }

    /// Whether some CPU belongs to the set.
    pub open spec fn inhabited(self) -> bool {
        exists|cpu: int| self.has(cpu)
    }

    /// Whether `cpu` is the member with the smallest number.
    pub open spec fn is_first(self, cpu: int) -> bool {
        self.has(cpu) && forall|other: int| self.has(other) ==> cpu <= other
    }

    /// The member with the smallest number, where there is a member.
    pub open spec fn first_member(self) -> int {
        choose|cpu: int| self.is_first(cpu)
    }

    /// Whether a CPU belongs to the set.
    pub fn contains_cpu(&self, cpu: usize) -> (found: bool)
        requires
            cpu < 64,
        ensures
            found == self.has(cpu as int),
    {
        self.bitmap & (1u64 << (cpu as u64)) != 0
    }

    /// The member with the smallest number, if there is a member.
    pub fn first_cpu(&self) -> (first: Option<usize>)
        ensures
            first matches Some(cpu) ==> self.is_first(cpu as int) && cpu == self.first_member(),
            first is None <==> self.bitmap == 0,
            first is None ==> forall|cpu: int| !self.has(cpu),
    {
        let bitmap: u64 = self.bitmap;
        let mut cpu: usize = 0;
        assert(bitmap & !(0xffff_ffff_ffff_ffffu64 << 0u64) == 0) by (bit_vector);
        while cpu < 63
            invariant
                bitmap == self.bitmap,
                cpu <= 63,
                bitmap & !(0xffff_ffff_ffff_ffffu64 << (cpu as u64)) == 0,
                forall|other: int| 0 <= other < cpu ==> !self.has(other),
            decreases 63 - cpu,
        {
            let bit: u64 = cpu as u64;
            if bitmap & (1u64 << bit) != 0 {
                assert(bitmap != 0) by (bit_vector)
                    requires
                        bitmap & (1u64 << bit) != 0,
                ;
                assert(self.is_first(cpu as int));
                return Some(cpu);
            }
            assert(bitmap & !(0xffff_ffff_ffff_ffffu64 << ((bit + 1) as u64)) == 0) by (bit_vector)
                requires
                    bit < 63,
                    bitmap & (1u64 << bit) == 0,
                    bitmap & !(0xffff_ffff_ffff_ffffu64 << bit) == 0,
            ;
            cpu = cpu + 1;
        }
        assert(bitmap & (1u64 << 63u64) == 0 <==> bitmap == 0) by (bit_vector)
            requires
                bitmap & !(0xffff_ffff_ffff_ffffu64 << 63u64) == 0,
        ;
        if bitmap & (1u64 << 63u64) != 0 {
            assert(self.is_first(63));
            Some(63)
        } else {
            None
        }
    }
}

/// A set with a member has a first member.
pub proof fn lemma_first_exists(cpu_set: CpuSet, member: int)
    requires
        cpu_set.has(member),
    ensures
        cpu_set.is_first(cpu_set.first_member()),
    decreases member,
{
    if forall|other: int| cpu_set.has(other) ==> member <= other {
        assert(cpu_set.is_first(member));
    } else {
        let smaller = choose|other: int| cpu_set.has(other) && other < member;
        lemma_first_exists(cpu_set, smaller);
    }
}

/// The general-purpose registers of a guest that the exit handlers read or write.
#[derive(Clone, Copy, Debug, PartialEq, Eq, Structural)]
pub struct GeneralRegisters {
    pub rax: u64,
    pub rbx: u64,
    pub rcx: u64,
    pub rdx: u64,
    pub rsi: u64,
    pub rdi: u64,
    pub rbp: u64,
}

/// A CPU belongs to a set exactly when its bit is set, and a set with a single bit has that one
/// member.
pub proof fn law_membership(cpu_set: CpuSet, cpu: u64, other: u64)
    requires
        cpu < 64,
        other < 64,
    ensures
        cpu_set.has(cpu as int) <==> (cpu_set.bitmap >> cpu) % 2 == 1,
        (CpuSet { bitmap: 1u64 << cpu }).has(other as int) <==> other == cpu,
        !(CpuSet { bitmap: 0 }).has(cpu as int),
{
    let bitmap = cpu_set.bitmap;
    assert({
        &&& bitmap & (1u64 << cpu) != 0 <==> (bitmap >> cpu) % 2 == 1
        &&& (1u64 << cpu) & (1u64 << other) != 0 <==> other == cpu
        &&& 0u64 & (1u64 << cpu) == 0
    }) by (bit_vector)
        requires
            cpu < 64,
            other < 64,
    ;
}

/// The first CPU of a set is its member with the smallest number, and every set that has a member
/// has one.
pub proof fn law_first_cpu(cpu_set: &CpuSet, first: Option<usize>, cpu: usize, found: bool)
    requires
        call_ensures(CpuSet::first_cpu, (cpu_set,), first),
        call_ensures(CpuSet::contains_cpu, (cpu_set, cpu), found),
        cpu < 64,
    ensures
        found <==> cpu_set.has(cpu as int),
        found ==> first is Some && first->0 <= cpu,
        first matches Some(smallest) ==> cpu_set.has(smallest as int),
{
}

} // verus!
