//! Exceptions of a guest: what is reported of them and how they go back to the guest.
use vstd::prelude::*;

verus! {

/// Vector of the invalid-opcode exception.
pub const VECTOR_UD: u8 = 6;

/// Vector of the double fault.
pub const VECTOR_DF: u8 = 8;

/// Vector of the page fault.
pub const VECTOR_PF: u8 = 14;

/// Most instruction bytes that a report shows.
pub const MAX_DUMP_BYTES: usize = 16;

/// An exception of the guest, with the state of the virtual CPU that its handling depends on.
#[derive(Clone, Copy, Debug, PartialEq, Eq, Structural)]
pub struct ExceptionInfo {
    pub vector: u8,
    /// Where the exception was raised.
    pub rip: u64,
    /// Base of the guest's IDT; zero while the guest has not set one up.
    pub idtr_base: u64,
    /// The exceptions that make the guest exit.
    pub exception_bitmap: u32,
    /// The faulting linear address of a page fault.
    pub fault_vaddr: u64,
    /// The error code of a page fault.
    pub error_code: u32,
}

/// How an exception of the guest is handled.
#[derive(Clone, Copy, Debug, PartialEq, Eq, Structural)]
pub struct ExceptionPlan {
    /// Clear the exception bitmap: from now on exceptions go to the guest directly.
    pub clear_exception_bitmap: bool,
    /// Report the page table walk for the faulting address.
    pub walk_fault_vaddr: bool,
    /// Report the page table walk for the instruction.
    pub walk_rip: bool,
    /// Report this many instruction bytes.
    pub dump_bytes: usize,
    /// Put this address into CR2.
    pub set_cr2: Option<u64>,
    /// Inject this vector ...
    pub inject_vector: u8,
    /// ... with this error code.
    pub inject_err_code: Option<u32>,
}

/// How an exception of the guest is handled.
///
/// Every exception goes back to the guest. Once the guest has an IDT the exceptions need no longer
/// make it exit. A page fault takes its address from CR2, which may have been overwritten since.
pub open spec fn exception_plan(info: ExceptionInfo) -> ExceptionPlan {
    let clear_exception_bitmap = info.idtr_base != 0 && info.exception_bitmap != 0;
    if info.vector == VECTOR_PF {
        ExceptionPlan {
            clear_exception_bitmap,
            walk_fault_vaddr: true,
            walk_rip: info.fault_vaddr != info.rip,
            dump_bytes: 16,
            set_cr2: if info.fault_vaddr != 0 {
                Some(info.fault_vaddr)
            } else {
                None
            },
            inject_vector: VECTOR_PF,
            inject_err_code: Some(info.error_code),
        }
    } else if info.vector == VECTOR_DF {
        ExceptionPlan {
            clear_exception_bitmap,
            walk_fault_vaddr: false,
            walk_rip: true,
            dump_bytes: 0,
            set_cr2: None,
            inject_vector: VECTOR_DF,
            inject_err_code: Some(0),
        }
    } else {
        ExceptionPlan {
            clear_exception_bitmap,
            walk_fault_vaddr: false,
            walk_rip: false,
            dump_bytes: if info.vector == VECTOR_UD {
                16
            } else {
                8
            },
            set_cr2: None,
            inject_vector: info.vector,
            inject_err_code: None,
        }
    }
}

/// Says how an exception of the guest is handled.
pub fn handle_exception(info: &ExceptionInfo) -> (plan: ExceptionPlan)
    ensures
        plan == exception_plan(*info),
{
    let clear_exception_bitmap = info.idtr_base != 0 && info.exception_bitmap != 0;
    if info.vector == VECTOR_PF {
        let set_cr2 = if info.fault_vaddr != 0 {
            Some(info.fault_vaddr)
        } else {
            None
        };
        ExceptionPlan {
            clear_exception_bitmap,
            walk_fault_vaddr: true,
            walk_rip: info.fault_vaddr != info.rip,
            dump_bytes: 16,
            set_cr2,
            inject_vector: VECTOR_PF,
            inject_err_code: Some(info.error_code),
        }
    } else if info.vector == VECTOR_DF {
        ExceptionPlan {
            clear_exception_bitmap,
            walk_fault_vaddr: false,
            walk_rip: true,
            dump_bytes: 0,
            set_cr2: None,
            inject_vector: VECTOR_DF,
            inject_err_code: Some(0),
        }
    } else if info.vector == VECTOR_UD {
        ExceptionPlan {
            clear_exception_bitmap,
            walk_fault_vaddr: false,
            walk_rip: false,
            dump_bytes: 16,
            set_cr2: None,
            inject_vector: VECTOR_UD,
            inject_err_code: None,
        }
    } else {
        ExceptionPlan {
            clear_exception_bitmap,
            walk_fault_vaddr: false,
            walk_rip: false,
            dump_bytes: 8,
            set_cr2: None,
            inject_vector: info.vector,
            inject_err_code: None,
        }
    }
}

/// The name of an exception.
pub open spec fn name_of(vector: u8) -> Seq<char> {
    if vector == 0 {
        "#DE"@
    } else if vector == 1 {
        "#DB"@
    } else if vector == 2 {
        "NMI"@
    } else if vector == 3 {
        "#BP"@
    } else if vector == 4 {
        "#OF"@
    } else if vector == 5 {
        "#BR"@
    } else if vector == 6 {
        "#UD"@
    } else if vector == 7 {
        "#NM"@
    } else if vector == 8 {
        "#DF"@
    } else if vector == 9 {
        "CSO"@
    } else if vector == 10 {
        "#TS"@
    } else if vector == 11 {
        "#NP"@
    } else if vector == 12 {
        "#SS"@
    } else if vector == 13 {
        "#GP"@
    } else if vector == 14 {
        "#PF"@
    } else if vector == 16 {
        "#MF"@
    } else if vector == 17 {
        "#AC"@
    } else if vector == 18 {
        "#MC"@
    } else if vector == 19 {
        "#XM"@
    } else if vector == 20 {
        "#VE"@
    } else if vector < 32 {
        "RES"@
    } else {
        "???"@
    }
}

/// The name of an exception: reserved vectors are "RES", vectors above them "???".
pub fn exception_name(vector: u8) -> (name: &'static str)
    ensures
        name@ == name_of(vector),
{
    match vector {
        0 => "#DE",
        1 => "#DB",
        2 => "NMI",
        3 => "#BP",
        4 => "#OF",
        5 => "#BR",
        6 => "#UD",
        7 => "#NM",
        8 => "#DF",
        9 => "CSO",
        10 => "#TS",
        11 => "#NP",
        12 => "#SS",
        13 => "#GP",
        14 => "#PF",
        15 => "RES",
        16 => "#MF",
        17 => "#AC",
        18 => "#MC",
        19 => "#XM",
        20 => "#VE",
        _ => {
            if vector < 32 {
                "RES"
            } else {
                "???"
            }
        },
    }
}

/// The error code of a page fault, taken apart.
#[derive(Clone, Copy, Debug, PartialEq, Eq, Structural)]
pub struct PageFaultError {
    /// A protection violation rather than a page that is not present.
    pub protection: bool,
    pub write: bool,
    pub user: bool,
    pub reserved: bool,
    pub instruction_fetch: bool,
}

/// Takes the error code of a page fault apart.
pub fn decode_page_fault(error_code: u32) -> (error: PageFaultError)
    ensures
        error == (PageFaultError {
            protection: error_code % 2 == 1,
            write: (error_code / 2) % 2 == 1,
            user: (error_code / 4) % 2 == 1,
            reserved: (error_code / 8) % 2 == 1,
            instruction_fetch: (error_code / 16) % 2 == 1,
        }),
{
    assert({
        &&& error_code & 1 == error_code % 2
        &&& (error_code >> 1u32) & 1 == (error_code / 2) % 2
        &&& (error_code >> 2u32) & 1 == (error_code / 4) % 2
        &&& (error_code >> 3u32) & 1 == (error_code / 8) % 2
        &&& (error_code >> 4u32) & 1 == (error_code / 16) % 2
    }) by (bit_vector);
    PageFaultError {
        protection: error_code & 1 != 0,
        write: (error_code >> 1u32) & 1 != 0,
        user: (error_code >> 2u32) & 1 != 0,
        reserved: (error_code >> 3u32) & 1 != 0,
        instruction_fetch: (error_code >> 4u32) & 1 != 0,
    }
}

/// The vector and the type of the event that was being delivered when a double fault was raised.
pub fn decode_idt_vectoring(info: u32) -> (event: (u8, u8))
    ensures
        event.0 == info % 0x100,
        event.1 == (info / 0x100) % 8,
{
    assert({
        &&& (info & 0xff) as u8 == info % 0x100
        &&& ((info >> 8u32) & 0x7) as u8 == (info / 0x100) % 8
    }) by (bit_vector);
    ((info & 0xff) as u8, ((info >> 8u32) & 0x7) as u8)
}

/// The lower-case hexadecimal digit for a number below 16, in ASCII.
pub open spec fn hex_digit(n: int) -> u8 {
    if n < 10 {
        (0x30 + n) as u8
    } else {
        (0x61 + n - 10) as u8
    }
}

/// Bytes in hexadecimal: two digits and a space for each.
pub open spec fn hex_dump(bytes: Seq<u8>) -> Seq<u8>
    decreases bytes.len(),
{
    if bytes.len() == 0 {
        Seq::empty()
    } else {
        let b = bytes.last();
        hex_dump(bytes.drop_last()).push(hex_digit(b as int / 16)).push(
            hex_digit(b as int % 16),
        ).push(0x20)
    }
}

fn to_hex_digit(n: u8) -> (digit: u8)
    requires
        n < 16,
    ensures
        digit == hex_digit(n as int),
{
    if n < 10 {
        0x30 + n
    } else {
        0x61 + (n - 10)
    }
}

/// How many of `num_bytes` instruction bytes a report shows.
pub fn dump_len(num_bytes: usize) -> (len: usize)
    ensures
        len == (if num_bytes < MAX_DUMP_BYTES {
            num_bytes
        } else {
            MAX_DUMP_BYTES
        }),
{
    if num_bytes < MAX_DUMP_BYTES {
        num_bytes
    } else {
        MAX_DUMP_BYTES
    }
}

/// Instruction bytes in hexadecimal, as ASCII text. At most the first 16 are shown.
pub fn dump_instruction_bytes(bytes: &[u8]) -> (text: Vec<u8>)
    ensures
        text@ == hex_dump(
            bytes@.take(
                if bytes@.len() < MAX_DUMP_BYTES {
                    bytes@.len() as int
                } else {
                    MAX_DUMP_BYTES as int
                },
            ),
        ),
{
    let len: usize = dump_len(bytes.len());
    let mut text: Vec<u8> = Vec::new();
    let mut i: usize = 0;
    assert(bytes@.take(0) =~= Seq::<u8>::empty());
    while i < len
        invariant
            i <= len <= bytes@.len(),
            text@ == hex_dump(bytes@.take(i as int)),
        decreases len - i,
    {
        let b: u8 = bytes[i];
        assert(b >> 4u8 == b / 16 && b & 0xf == b % 16 && b >> 4u8 < 16) by (bit_vector);
        text.push(to_hex_digit(b >> 4u8));
        text.push(to_hex_digit(b & 0xf));
        text.push(0x20);
        proof {
            let shown = bytes@.take(i as int + 1);
            assert(shown.drop_last() =~= bytes@.take(i as int));
            assert(shown.last() == b);
        }
        i = i + 1;
    }
    text
}

/// Every exception goes back to the guest under its own vector, and only page faults and double
/// faults carry an error code: the page fault its own, the double fault zero.
pub proof fn law_exceptions_return_to_guest(info: ExceptionInfo)
    ensures
        exception_plan(info).inject_vector == info.vector,
        exception_plan(info).inject_err_code == (if info.vector == VECTOR_PF {
            Some(info.error_code)
        } else if info.vector == VECTOR_DF {
            Some(0u32)
        } else {
            None
        }),
{
}

/// A dump has three characters for each byte.
pub proof fn law_dump_length(bytes: Seq<u8>)
    ensures
        hex_dump(bytes).len() == 3 * bytes.len(),
    decreases bytes.len(),
{
    if bytes.len() > 0 {
        law_dump_length(bytes.drop_last());
    }
}

/// A dump is printable ASCII text.
pub proof fn law_dump_is_ascii(bytes: Seq<u8>)
    ensures
        forall|i: int|
            0 <= i < hex_dump(bytes).len() ==> 0x20 <= #[trigger] hex_dump(bytes)[i] < 0x7f,
    decreases bytes.len(),
{
    if bytes.len() > 0 {
        let before = hex_dump(bytes.drop_last());
        law_dump_is_ascii(bytes.drop_last());
        assert forall|i: int| 0 <= i < hex_dump(bytes).len() implies 0x20
            <= #[trigger] hex_dump(bytes)[i] < 0x7f by {
            if i < before.len() {
                assert(hex_dump(bytes)[i] == before[i]);
            }
        }
    }
}

/// CR2 gets the faulting address of a page fault, all of it, unless that is zero; every other
/// exception leaves CR2 alone.
pub proof fn law_cr2_is_the_faulting_address(info: &ExceptionInfo, plan: ExceptionPlan)
    requires
        call_ensures(handle_exception, (info,), plan),
    ensures
        plan.set_cr2 is Some <==> info.vector == 14 && info.fault_vaddr != 0,
        plan.set_cr2 matches Some(addr) ==> addr == info.fault_vaddr,
{
}

/// An exception goes back to the guest under its own vector, with its own error code for a page
/// fault, zero for a double fault and none for any other. The bitmap is cleared exactly when the
/// guest has an IDT and something still makes it exit.
pub proof fn law_exception_is_injected(info: &ExceptionInfo, plan: ExceptionPlan)
    requires
        call_ensures(handle_exception, (info,), plan),
    ensures
        plan.inject_vector == info.vector,
        plan.inject_err_code is Some <==> info.vector == 14 || info.vector == 8,
        info.vector == 14 ==> plan.inject_err_code->0 == info.error_code,
        info.vector == 8 ==> plan.inject_err_code->0 == 0,
        plan.clear_exception_bitmap <==> info.idtr_base != 0 && info.exception_bitmap != 0,
{
}

/// What is reported: the walk for the faulting address of a page fault; the walk for the
/// instruction of a double fault, and of a page fault at another address; and the bytes of the
/// instruction, 16 of a page fault or an invalid opcode, none of a double fault, else 8.
pub proof fn law_exception_is_reported(info: &ExceptionInfo, plan: ExceptionPlan)
    requires
        call_ensures(handle_exception, (info,), plan),
    ensures
        plan.walk_fault_vaddr <==> info.vector == 14,
        plan.walk_rip <==> info.vector == 8 || (info.vector == 14 && info.fault_vaddr != info.rip),
        plan.dump_bytes == 16 <==> info.vector == 14 || info.vector == 6,
        plan.dump_bytes == 0 <==> info.vector == 8,
        plan.dump_bytes == 16 || plan.dump_bytes == 0 || plan.dump_bytes == 8,
{
}

/// The vectors that are reserved are all named alike, and so are those that are no exceptions; no
/// other vector has one of these names.
pub proof fn law_exception_name(vector: u8, name: &'static str)
    requires
        call_ensures(exception_name, (vector,), name),
    ensures
        name@.len() == 3,
        name@ == "RES"@ <==> vector == 15 || 21 <= vector < 32,
        name@ == "???"@ <==> vector >= 32,
{
    reveal_strlit("#DE");
    reveal_strlit("#DB");
    reveal_strlit("NMI");
    reveal_strlit("#BP");
    reveal_strlit("#OF");
    reveal_strlit("#BR");
    reveal_strlit("#UD");
    reveal_strlit("#NM");
    reveal_strlit("#DF");
    reveal_strlit("CSO");
    reveal_strlit("#TS");
    reveal_strlit("#NP");
    reveal_strlit("#SS");
    reveal_strlit("#GP");
    reveal_strlit("#PF");
    reveal_strlit("#MF");
    reveal_strlit("#AC");
    reveal_strlit("#MC");
    reveal_strlit("#XM");
    reveal_strlit("#VE");
    reveal_strlit("RES");
    reveal_strlit("???");
    let name = name_of(vector);
    assert(name[0] == 'R' <==> vector == 15 || 21 <= vector < 32);
    assert(name[0] == '?' <==> vector >= 32);
    assert("RES"@[0] == 'R' && "???"@[0] == '?');
}

/// The five low bits of the error code of a page fault are its five flags, in this order; the
/// others tell nothing.
pub proof fn law_decode_page_fault(error_code: u32, error: PageFaultError)
    requires
        call_ensures(decode_page_fault, (error_code,), error),
    ensures
        error_code % 0x20 == weight(error.protection, 1) + weight(error.write, 2) + weight(
            error.user,
            4,
        ) + weight(error.reserved, 8) + weight(error.instruction_fetch, 16),
{
    assert(error_code % 0x20 == error_code % 2 + ((error_code / 2) % 2) * 2 + ((error_code / 4) % 2)
        * 4 + ((error_code / 8) % 2) * 8 + ((error_code / 16) % 2) * 16) by (bit_vector);
}

/// What a flag adds to a number whose bit it is.
pub open spec fn weight(flag: bool, unit: int) -> int {
    if flag {
        unit
    } else {
        0
    }
}

/// The event that was being delivered is in the low eleven bits: the vector below, the type above.
pub proof fn law_decode_idt_vectoring(info: u32, event: (u8, u8))
    requires
        call_ensures(decode_idt_vectoring, (info,), event),
    ensures
        event.1 < 8,
        event.1 * 0x100 + event.0 == info % 0x800,
{
}

/// A report shows all bytes up to 16 of them.
pub proof fn law_dump_len(num_bytes: usize, len: usize)
    requires
        call_ensures(dump_len, (num_bytes,), len),
    ensures
        len <= num_bytes,
        len <= 16,
        len == num_bytes || len == 16,
{
}

/// The number that a lower-case hexadecimal digit stands for, and none for another character.
pub open spec fn digit_value(digit: u8) -> Option<int> {
    if '0' as u8 <= digit <= '9' as u8 {
        Some(digit - '0' as u8)
    } else if 'a' as u8 <= digit <= 'f' as u8 {
        Some(digit - 'a' as u8 + 10)
    } else {
        None
    }
}

/// The text of a dump reads back as the bytes: each of the first 16 is written as two lower-case
/// hexadecimal digits, the higher one first, and a space, in the order of the bytes.
pub proof fn law_dump_reads_back(bytes: &[u8], text: Vec<u8>, i: int)
    requires
        call_ensures(dump_instruction_bytes, (bytes,), text),
    ensures
        text@.len() == 3 * (if bytes@.len() < 16 {
            bytes@.len() as int
        } else {
            16
        }),
        0 <= i < bytes@.len() && i < 16 ==> {
            &&& digit_value(text@[3 * i]) is Some
            &&& digit_value(text@[3 * i + 1]) is Some
            &&& 16 * digit_value(text@[3 * i])->0 + digit_value(text@[3 * i + 1])->0 == bytes@[i]
            &&& text@[3 * i + 2] == ' ' as u8
        },
{
    let shown = bytes@.take(
        if bytes@.len() < 16 {
            bytes@.len() as int
        } else {
            16
        },
    );
    law_dump_length(shown);
    if 0 <= i < shown.len() {
        lemma_dump_at(shown, i);
    }
}

proof fn lemma_dump_at(bytes: Seq<u8>, i: int)
    requires
        0 <= i < bytes.len(),
    ensures
        hex_dump(bytes).len() == 3 * bytes.len(),
        hex_dump(bytes)[3 * i] == hex_digit(bytes[i] as int / 16),
        hex_dump(bytes)[3 * i + 1] == hex_digit(bytes[i] as int % 16),
        hex_dump(bytes)[3 * i + 2] == 0x20,
    decreases bytes.len(),
{
    let before = bytes.drop_last();
    law_dump_length(before);
    if i < before.len() {
        lemma_dump_at(before, i);
    }
}

} // verus!
