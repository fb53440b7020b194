//! What a guest sees of the CPU through the CPUID instruction.
use crate::cpu::GeneralRegisters;
use crate::trap::VM_EXIT_INSTR_LEN_CPUID;
use vstd::prelude::*;

verus! {

/// Leaf with the basic feature flags.
pub const LEAF_FEATURE_INFO: u32 = 0x1;

/// Leaf with the extended feature flags.
pub const LEAF_STRUCTURED_EXTENDED_FEATURE_INFO: u32 = 0x7;

/// Leaf with the frequency of the time stamp counter.
pub const LEAF_TIME_STAMP_COUNTER_INFO: u32 = 0x15;

/// Leaf with the frequency of the processor.
pub const LEAF_PROCESSOR_FREQUENCY_INFO: u32 = 0x16;

/// Leaf with the signature of the hypervisor.
pub const LEAF_HYPERVISOR_INFO: u32 = 0x4000_0000;

/// Leaf with the features of the hypervisor; the last one of the hypervisor.
pub const LEAF_HYPERVISOR_FEATURES: u32 = 0x4000_0001;

/// The four characters "ACRN" as a little-endian word: the signature repeats them three times.
pub const SIGNATURE_WORD: u32 = 0x4e52_4341;

/// Feature flag in ECX of the feature leaf: virtual machine extensions.
pub const FEATURE_VMX: u32 = 0x0000_0020;

/// Feature flag in ECX of the feature leaf: x2APIC.
pub const FEATURE_X2APIC: u32 = 0x0020_0000;

/// Feature flag in ECX of the feature leaf: XSAVE.
pub const FEATURE_XSAVE: u32 = 0x0400_0000;

/// Feature flag in ECX of the feature leaf: a hypervisor is present.
pub const FEATURE_HYPERVISOR: u32 = 0x8000_0000;

/// Feature flag in ECX of the extended feature leaf: UMONITOR, UMWAIT and TPAUSE.
pub const EXTENDED_FEATURE_WAITPKG: u32 = 0x0000_0020;

/// Hertz in a megahertz.
pub const HZ_PER_MHZ: u32 = 1_000_000;

/// The answer to a CPUID request.
#[derive(Clone, Copy, Debug, PartialEq, Eq, Structural)]
pub struct CpuidRegs {
    pub eax: u32,
    pub ebx: u32,
    pub ecx: u32,
    pub edx: u32,
}

/// The feature flags that the hypervisor knows. A guest does not see the others.
#[derive(Clone, Copy, Debug, PartialEq, Eq, Structural)]
pub struct FeatureMasks {
    pub feature_ecx: u32,
    pub feature_edx: u32,
    pub extended_ecx: u32,
}

/// The feature flags in ECX of the feature leaf that a guest sees.
pub open spec fn guest_feature_ecx(host_ecx: u32, known: u32) -> u32 {
    (host_ecx & known & !FEATURE_VMX & !FEATURE_XSAVE) | FEATURE_X2APIC | FEATURE_HYPERVISOR
}

/// The answer that a guest gets for a leaf, where `host` is the answer of the CPU and
/// `tsc_freq_mhz` the frequency of the time stamp counter, if it is known.
pub open spec fn cpuid_response(
    leaf: u32,
    host: CpuidRegs,
    masks: FeatureMasks,
    tsc_freq_mhz: Option<u32>,
) -> CpuidRegs {
    if leaf == LEAF_FEATURE_INFO {
        CpuidRegs {
            ecx: guest_feature_ecx(host.ecx, masks.feature_ecx),
            edx: host.edx & masks.feature_edx,
            ..host
        }
    } else if leaf == LEAF_STRUCTURED_EXTENDED_FEATURE_INFO {
        CpuidRegs { ecx: host.ecx & masks.extended_ecx & !EXTENDED_FEATURE_WAITPKG, ..host }
    } else if leaf == LEAF_TIME_STAMP_COUNTER_INFO {
        match tsc_freq_mhz {
            Some(mhz) => CpuidRegs {
                eax: 1,
                ebx: 1,
                ecx: ((mhz * HZ_PER_MHZ) % 0x1_0000_0000) as u32,
                edx: 0,
            },
            None => host,
        }
    } else if leaf == LEAF_PROCESSOR_FREQUENCY_INFO {
        match tsc_freq_mhz {
            Some(mhz) => CpuidRegs { eax: mhz, ebx: mhz, ecx: mhz, edx: 0 },
            None => host,
        }
    } else if leaf == LEAF_HYPERVISOR_INFO {
        CpuidRegs {
            eax: LEAF_HYPERVISOR_FEATURES,
            ebx: SIGNATURE_WORD,
            ecx: SIGNATURE_WORD,
            edx: SIGNATURE_WORD,
        }
    } else if leaf == LEAF_HYPERVISOR_FEATURES {
        CpuidRegs { eax: 0, ebx: 0, ecx: 0, edx: 0 }
    } else {
        host
    }
}

/// The answer that a guest gets for a leaf. The frequency in hertz is taken modulo 2^32.
pub fn emulate_cpuid(
    leaf: u32,
    host: CpuidRegs,
    masks: &FeatureMasks,
    tsc_freq_mhz: Option<u32>,
) -> (response: CpuidRegs)
    ensures
        response == cpuid_response(leaf, host, *masks, tsc_freq_mhz),
{
    if leaf == LEAF_FEATURE_INFO {
        let mut ecx: u32 = host.ecx & masks.feature_ecx;
        ecx = ecx & !FEATURE_VMX;
        ecx = ecx & !FEATURE_XSAVE;
        ecx = ecx | FEATURE_X2APIC;
        ecx = ecx | FEATURE_HYPERVISOR;
        CpuidRegs { eax: host.eax, ebx: host.ebx, ecx, edx: host.edx & masks.feature_edx }
    } else if leaf == LEAF_STRUCTURED_EXTENDED_FEATURE_INFO {
        let ecx: u32 = host.ecx & masks.extended_ecx & !EXTENDED_FEATURE_WAITPKG;
        CpuidRegs { eax: host.eax, ebx: host.ebx, ecx, edx: host.edx }
    } else if leaf == LEAF_TIME_STAMP_COUNTER_INFO {
        match tsc_freq_mhz {
            Some(mhz) => CpuidRegs { eax: 1, ebx: 1, ecx: mhz.wrapping_mul(HZ_PER_MHZ), edx: 0 },
            None => host,
        }
    } else if leaf == LEAF_PROCESSOR_FREQUENCY_INFO {
        match tsc_freq_mhz {
            Some(mhz) => CpuidRegs { eax: mhz, ebx: mhz, ecx: mhz, edx: 0 },
            None => host,
        }
    } else if leaf == LEAF_HYPERVISOR_INFO {
        CpuidRegs {
            eax: LEAF_HYPERVISOR_FEATURES,
            ebx: SIGNATURE_WORD,
            ecx: SIGNATURE_WORD,
            edx: SIGNATURE_WORD,
        }
    } else if leaf == LEAF_HYPERVISOR_FEATURES {
        CpuidRegs { eax: 0, ebx: 0, ecx: 0, edx: 0 }
    } else {
        host
    }
}

/// `raw_cpuid::native_cpuid::cpuid_count`: the answer of the CPU to CPUID with this leaf and
/// subleaf.
///
/// Nothing is claimed of the result. It depends on the machine.
#[verifier::external_body]
fn host_cpuid(leaf: u32, subleaf: u32) -> (host: CpuidRegs) {
    let res = raw_cpuid::native_cpuid::cpuid_count(leaf, subleaf);
    CpuidRegs { eax: res.eax, ebx: res.ebx, ecx: res.ecx, edx: res.edx }
}

/// Whether `host` is an answer that the CPU may give to CPUID with this leaf and subleaf: one that
/// asking it for this leaf and this subleaf can return. Which answers these are depends on the
/// machine.
pub closed spec fn host_answers(leaf: u32, subleaf: u32, host: CpuidRegs) -> bool {
    call_ensures(host_cpuid, (leaf, subleaf), host)
}

/// The low 32 bits of a register.
pub open spec fn low_half(reg: u64) -> u32 {
    (reg % 0x1_0000_0000) as u32
}

/// The registers of a guest after CPUID with this answer.
pub open spec fn with_response(regs: GeneralRegisters, response: CpuidRegs) -> GeneralRegisters {
    GeneralRegisters {
        rax: response.eax as u64,
        rbx: response.ebx as u64,
        rcx: response.ecx as u64,
        rdx: response.edx as u64,
        ..regs
    }
}

/// Puts the answer to a CPUID request into the registers of the guest. Gives back the length of
/// the instruction to step over.
pub fn answer_cpuid(
    regs: &mut GeneralRegisters,
    host: CpuidRegs,
    masks: &FeatureMasks,
    tsc_freq_mhz: Option<u32>,
) -> (len: u8)
    ensures
        *final(regs) == with_response(
            *old(regs),
            cpuid_response(low_half(old(regs).rax), host, *masks, tsc_freq_mhz),
        ),
        len == VM_EXIT_INSTR_LEN_CPUID,
{
    let (leaf, subleaf) = cpuid_request(regs);
    let response = emulate_cpuid(leaf, host, masks, tsc_freq_mhz);
    regs.rax = response.eax as u64;
    regs.rbx = response.ebx as u64;
    regs.rcx = response.ecx as u64;
    regs.rdx = response.edx as u64;
    VM_EXIT_INSTR_LEN_CPUID
}

/// The leaf and the subleaf that a guest asks for.
pub fn cpuid_request(regs: &GeneralRegisters) -> (request: (u32, u32))
    ensures
        request == (low_half(regs.rax), low_half(regs.rcx)),
{
    let rax: u64 = regs.rax;
    let rcx: u64 = regs.rcx;
    assert(rax as u32 == rax % 0x1_0000_0000) by (bit_vector);
    assert(rcx as u32 == rcx % 0x1_0000_0000) by (bit_vector);
    (rax as u32, rcx as u32)
}

/// Handles a CPUID request of the guest: the CPU is asked for the leaf in EAX and the subleaf in
/// ECX, and the guest gets what is left of the answer. Gives back the length of the instruction to
/// step over.
pub fn handle_cpuid(
    regs: &mut GeneralRegisters,
    masks: &FeatureMasks,
    tsc_freq_mhz: Option<u32>,
) -> (len: u8)
    ensures
        exists|host: CpuidRegs|
            host_answers(low_half(old(regs).rax), low_half(old(regs).rcx), host)
                && *final(regs) == with_response(
                *old(regs),
                #[trigger] cpuid_response(low_half(old(regs).rax), host, *masks, tsc_freq_mhz),
            ),
        len == VM_EXIT_INSTR_LEN_CPUID,
{
    let (leaf, subleaf) = cpuid_request(regs);
    let host = host_cpuid(leaf, subleaf);
    answer_cpuid(regs, host, masks, tsc_freq_mhz)
}

/// Whatever the CPU supports, a guest sees neither VMX nor XSAVE, and always x2APIC and the
/// hypervisor flag. Of the other flags it sees those that the CPU has and the hypervisor knows.
pub proof fn law_guest_features(host: CpuidRegs, masks: FeatureMasks, tsc_freq_mhz: Option<u32>)
    ensures
        ({
            let seen = cpuid_response(LEAF_FEATURE_INFO, host, masks, tsc_freq_mhz);
            let fixed: u32 = FEATURE_VMX | FEATURE_XSAVE | FEATURE_X2APIC | FEATURE_HYPERVISOR;
            &&& seen.ecx & FEATURE_VMX == 0
            &&& seen.ecx & FEATURE_XSAVE == 0
            &&& seen.ecx & FEATURE_X2APIC == FEATURE_X2APIC
            &&& seen.ecx & FEATURE_HYPERVISOR == FEATURE_HYPERVISOR
            &&& seen.ecx & !fixed == host.ecx & masks.feature_ecx & !fixed
        }),
{
    let ecx = host.ecx;
    let known = masks.feature_ecx;
    assert({
        let seen: u32 = (ecx & known & !0x20u32 & !0x0400_0000u32) | 0x0020_0000u32 | 0x8000_0000u32;
        let fixed: u32 = 0x20u32 | 0x0400_0000u32 | 0x0020_0000u32 | 0x8000_0000u32;
        &&& seen & 0x20 == 0
        &&& seen & 0x0400_0000 == 0
        &&& seen & 0x0020_0000 == 0x0020_0000
        &&& seen & 0x8000_0000 == 0x8000_0000
        &&& seen & !fixed == ecx & known & !fixed
    }) by (bit_vector);
}

/// A guest never sees WAITPKG; the other extended flags it sees where the CPU has them and the
/// hypervisor knows them.
pub proof fn law_guest_extended_features(
    host: CpuidRegs,
    masks: FeatureMasks,
    tsc_freq_mhz: Option<u32>,
)
    ensures
        ({
            let seen = cpuid_response(
                LEAF_STRUCTURED_EXTENDED_FEATURE_INFO,
                host,
                masks,
                tsc_freq_mhz,
            );
            &&& seen.ecx & EXTENDED_FEATURE_WAITPKG == 0
            &&& seen.ecx & !EXTENDED_FEATURE_WAITPKG == host.ecx & masks.extended_ecx
                & !EXTENDED_FEATURE_WAITPKG
        }),
{
    let ecx = host.ecx;
    let known = masks.extended_ecx;
    assert({
        let seen: u32 = ecx & known & !0x20u32;
        &&& seen & 0x20 == 0
        &&& seen & !0x20u32 == ecx & known & !0x20u32
    }) by (bit_vector);
}

/// The leaves of the hypervisor read the same on every machine.
pub proof fn law_hypervisor_leaves_are_fixed(
    leaf: u32,
    host: CpuidRegs,
    other: CpuidRegs,
    masks: FeatureMasks,
    tsc_freq_mhz: Option<u32>,
)
    requires
        leaf == LEAF_HYPERVISOR_INFO || leaf == LEAF_HYPERVISOR_FEATURES,
    ensures
        cpuid_response(leaf, host, masks, tsc_freq_mhz) == cpuid_response(
            leaf,
            other,
            masks,
            tsc_freq_mhz,
        ),
{
}

/// What a guest sees of the leaves that are not passed through.
///
/// The feature leaf shows the family and the other features as they are, but hides VMX, XSAVE and
/// what the hypervisor does not know, and always shows x2APIC and the hypervisor. The extended
/// feature leaf hides WAITPKG and what the hypervisor does not know. Where the frequency is known,
/// the frequency leaves give it, in hertz as one times one times the crystal, and in megahertz. The
/// leaves of the hypervisor spell "ACRN" three times and end at the second one, which is empty.
/// Every other leaf, and the frequency leaves while the frequency is not known, read as the CPU
/// answers.
pub proof fn law_emulate_cpuid(
    leaf: u32,
    host: CpuidRegs,
    masks: &FeatureMasks,
    tsc_freq_mhz: Option<u32>,
    seen: CpuidRegs,
)
    requires
        call_ensures(emulate_cpuid, (leaf, host, masks, tsc_freq_mhz), seen),
    ensures
        leaf == 1 ==> {
            let fixed: u32 = 0x20u32 | 0x0400_0000u32 | 0x0020_0000u32 | 0x8000_0000u32;
            &&& seen.eax == host.eax
            &&& seen.ebx == host.ebx
            &&& seen.ecx & 0x20 == 0
            &&& seen.ecx & 0x0400_0000 == 0
            &&& seen.ecx & 0x0020_0000 == 0x0020_0000
            &&& seen.ecx & 0x8000_0000 == 0x8000_0000
            &&& seen.ecx & !fixed == host.ecx & masks.feature_ecx & !fixed
            &&& seen.edx == host.edx & masks.feature_edx
        },
        leaf == 7 ==> {
            &&& seen.eax == host.eax
            &&& seen.ebx == host.ebx
            &&& seen.ecx & 0x20 == 0
            &&& seen.ecx & !0x20u32 == host.ecx & masks.extended_ecx & !0x20u32
            &&& seen.edx == host.edx
        },
        leaf == 0x15 && tsc_freq_mhz is Some ==> {
            &&& seen.eax == 1
            &&& seen.ebx == 1
            &&& (tsc_freq_mhz->0 * 1_000_000 - seen.ecx) % 0x1_0000_0000 == 0
            &&& seen.edx == 0
        },
        leaf == 0x16 && tsc_freq_mhz is Some ==> {
            &&& seen.eax == tsc_freq_mhz->0
            &&& seen.ebx == tsc_freq_mhz->0
            &&& seen.ecx == tsc_freq_mhz->0
            &&& seen.edx == 0
        },
        leaf == 0x4000_0000 ==> {
            let word = 'A' as int + 'C' as int * 0x100 + 'R' as int * 0x1_0000 + 'N' as int
                * 0x100_0000;
            &&& seen.eax == 0x4000_0001
            &&& seen.ebx == word
            &&& seen.ecx == word
            &&& seen.edx == word
        },
        leaf == 0x4000_0001 ==> seen == (CpuidRegs { eax: 0, ebx: 0, ecx: 0, edx: 0 }),
        is_passed_through(leaf, tsc_freq_mhz) ==> seen == host,
{
    if leaf == 1 {
        law_guest_features(host, *masks, tsc_freq_mhz);
    }
    if leaf == 7 {
        law_guest_extended_features(host, *masks, tsc_freq_mhz);
    }
}

/// Whether a guest sees the CPU's own answer to a leaf.
pub open spec fn is_passed_through(leaf: u32, tsc_freq_mhz: Option<u32>) -> bool {
    &&& leaf != 1 && leaf != 7 && leaf != 0x4000_0000 && leaf != 0x4000_0001
    &&& leaf == 0x15 || leaf == 0x16 ==> tsc_freq_mhz is None
}

/// A guest asks for the leaf in the low half of RAX and the subleaf in the low half of RCX.
pub proof fn law_cpuid_request(regs: &GeneralRegisters, request: (u32, u32))
    requires
        call_ensures(cpuid_request, (regs,), request),
    ensures
        request.0 == regs.rax % 0x1_0000_0000,
        request.1 == regs.rcx % 0x1_0000_0000,
{
}

/// A guest finds what it sees of the leaf in the low half of RAX in RAX, RBX, RCX and RDX, with
/// clear upper halves, and its other registers as they were. The two bytes of the instruction are
/// stepped over.
pub proof fn law_answer_cpuid(
    regs: &mut GeneralRegisters,
    host: CpuidRegs,
    masks: &FeatureMasks,
    tsc_freq_mhz: Option<u32>,
    len: u8,
    seen: CpuidRegs,
)
    requires
        call_ensures(answer_cpuid, (regs, host, masks, tsc_freq_mhz), len),
        call_ensures(
            emulate_cpuid,
            ((old(regs).rax % 0x1_0000_0000) as u32, host, masks, tsc_freq_mhz),
            seen,
        ),
    ensures
        final(regs).rax == seen.eax,
        final(regs).rbx == seen.ebx,
        final(regs).rcx == seen.ecx,
        final(regs).rdx == seen.edx,
        final(regs).rsi == old(regs).rsi,
        final(regs).rdi == old(regs).rdi,
        final(regs).rbp == old(regs).rbp,
        len == 2,
{
}

/// What a guest finds after CPUID comes from an answer of the CPU to exactly the leaf in the low
/// half of RAX and the subleaf in the low half of RCX: all of that answer, where the leaf is
/// passed through, and for the feature leaves the family and the flags that it has.
pub proof fn law_handle_cpuid(
    regs: &mut GeneralRegisters,
    masks: &FeatureMasks,
    tsc_freq_mhz: Option<u32>,
    len: u8,
)
    requires
        call_ensures(handle_cpuid, (regs, masks, tsc_freq_mhz), len),
    ensures
        len == 2,
        final(regs).rsi == old(regs).rsi,
        final(regs).rdi == old(regs).rdi,
        final(regs).rbp == old(regs).rbp,
        ({
            let leaf = (old(regs).rax % 0x1_0000_0000) as u32;
            let subleaf = (old(regs).rcx % 0x1_0000_0000) as u32;
            exists|host: CpuidRegs|
                {
                    &&& #[trigger] host_answers(leaf, subleaf, host)
                    &&& is_passed_through(leaf, tsc_freq_mhz) ==> {
                        &&& final(regs).rax == host.eax
                        &&& final(regs).rbx == host.ebx
                        &&& final(regs).rcx == host.ecx
                        &&& final(regs).rdx == host.edx
                    }
                    &&& leaf == 1 ==> {
                        let fixed: u32 = 0x20u32 | 0x0400_0000u32 | 0x0020_0000u32 | 0x8000_0000u32;
                        &&& final(regs).rax == host.eax
                        &&& final(regs).rbx == host.ebx
                        &&& final(regs).rcx as u32 & !fixed == host.ecx & masks.feature_ecx & !fixed
                        &&& final(regs).rdx == host.edx & masks.feature_edx
                    }
                    &&& leaf == 7 ==> {
                        &&& final(regs).rax == host.eax
                        &&& final(regs).rbx == host.ebx
                        &&& final(regs).rcx as u32 & !0x20u32 == host.ecx & masks.extended_ecx
                            & !0x20u32
                        &&& final(regs).rdx == host.edx
                    }
                }
        }),
{
    let leaf = low_half(old(regs).rax);
    let subleaf = low_half(old(regs).rcx);
    let host = choose|host: CpuidRegs|
        host_answers(leaf, subleaf, host) && *final(regs) == with_response(
            *old(regs),
            #[trigger] cpuid_response(leaf, host, *masks, tsc_freq_mhz),
        );
    assert(host_answers(leaf, subleaf, host));
    law_guest_features(host, *masks, tsc_freq_mhz);
    law_guest_extended_features(host, *masks, tsc_freq_mhz);
}

/// The answers that the CPU may give to a leaf and a subleaf are those that the call of the CPU
/// returns for them.
proof fn law_host_answers(leaf: u32, subleaf: u32, host: CpuidRegs)
    ensures
        call_ensures(host_cpuid, (leaf, subleaf), host) <==> host_answers(leaf, subleaf, host),
{
}

} // verus!
