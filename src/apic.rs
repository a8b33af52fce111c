//! Emulation of guest writes to the local APIC page: the decoder for the
//! instructions that write it, and the classification of what was written.
use vstd::prelude::*;
use crate::activity::{legal_transition, ACTIVE, WAIT_FOR_SIPI};
use crate::registers::Registers;

verus! {

/// Offset of the End-Of-Interrupt register in the APIC page.
pub const APIC_EOI: u64 = 0xb0;

/// Offset of the low half of the Interrupt Command Register.
pub const APIC_ICR_LOW: u64 = 0x300;

/// Offset of the high half of the Interrupt Command Register.
pub const APIC_ICR_HIGH: u64 = 0x310;

/// The ICR message type of a Startup IPI.
pub const MESSAGE_TYPE_STARTUP: u32 = 0b110;

/// Whether `s` begins with `p`.
pub open spec fn starts_with(s: Seq<u8>, p: Seq<u8>) -> bool {
    p.len() <= s.len() && s.subrange(0, p.len() as int) =~= p
}

/// MOV DWORD PTR [RAX+000000B0],00000000
pub open spec fn pattern_eoi_rax() -> Seq<u8> {
    seq![0xc7u8, 0x80, 0xb0, 0x00, 0x00, 0x00, 0x00, 0x00, 0x00, 0x00]
}

/// MOV DWORD PTR [R13],R12D
pub open spec fn pattern_r13_r12d() -> Seq<u8> {
    seq![0x45u8, 0x89, 0x65, 0x00]
}

/// MOV DWORD PTR [R8+RAX],EDX
pub open spec fn pattern_r8_rax_edx() -> Seq<u8> {
    seq![0x41u8, 0x89, 0x14, 0x00]
}

/// MOV DWORD PTR [RCX+000000B0],00000000
pub open spec fn pattern_eoi_rcx() -> Seq<u8> {
    seq![0xc7u8, 0x81, 0xb0, 0x00, 0x00, 0x00, 0x00, 0x00, 0x00, 0x00]
}

/// MOV DWORD PTR [00000000FEE00300],EAX
pub open spec fn pattern_icr_low_eax() -> Seq<u8> {
    seq![0xa3u8, 0x00, 0x03, 0xe0, 0xfe, 0x00, 0x00, 0x00, 0x00]
}

/// MOV DWORD PTR [00000000FEE00310],EAX
pub open spec fn pattern_icr_high_eax() -> Seq<u8> {
    seq![0xa3u8, 0x10, 0x03, 0xe0, 0xfe, 0x00, 0x00, 0x00, 0x00]
}

/// MOV DWORD PTR [RAX+00000300],EDX
pub open spec fn pattern_rax_300_edx() -> Seq<u8> {
    seq![0x89u8, 0x90, 0x00, 0x03, 0x00, 0x00]
}

/// MOV DWORD PTR [RAX+00000310],ECX
pub open spec fn pattern_rax_310_ecx() -> Seq<u8> {
    seq![0x89u8, 0x88, 0x10, 0x03, 0x00, 0x00]
}

/// The 32-bit value a recognised instruction writes, and its length.
pub open spec fn apic_write_of(instr: Seq<u8>, regs: Registers) -> Option<(u32, u64)> {
    if starts_with(instr, pattern_eoi_rax()) {
        Some((0u32, 10u64))
    } else if starts_with(instr, pattern_r13_r12d()) {
        Some((regs.r12 as u32, 4u64))
    } else if starts_with(instr, pattern_r8_rax_edx()) {
        Some((regs.rdx as u32, 4u64))
    } else if starts_with(instr, pattern_eoi_rcx()) {
        Some((0u32, 10u64))
    } else if starts_with(instr, pattern_icr_low_eax()) {
        Some((regs.rax as u32, 9u64))
    } else if starts_with(instr, pattern_icr_high_eax()) {
        Some((regs.rax as u32, 9u64))
    } else if starts_with(instr, pattern_rax_300_edx()) {
        Some((regs.rdx as u32, 6u64))
    } else if starts_with(instr, pattern_rax_310_ecx()) {
        Some((regs.rcx as u32, 6u64))
    } else {
        None
    }
}

/// Whether the bytes `s` begin with the bytes `p`.
pub fn has_prefix(s: &[u8], p: &[u8]) -> (r: bool)
    ensures
        r == starts_with(s@, p@),
{
    if p.len() > s.len() {
        return false;
    }
    let mut i: usize = 0;
    while i < p.len()
        invariant
            p.len() <= s.len(),
            i <= p.len(),
            forall|k: int| 0 <= k < i ==> s@[k] == p@[k],
        decreases p.len() - i,
    {
        if s[i] != p[i] {
            assert(s@.subrange(0, p@.len() as int)[i as int] != p@[i as int]);
            return false;
        }
        i = i + 1;
    }
    assert(s@.subrange(0, p@.len() as int) =~= p@);
    true
}

/// Decodes a guest instruction that wrote the APIC page: the value written
/// and the instruction length, or `None` for an unrecognised instruction.
pub fn decode_apic_write(instructions: &[u8], regs: &Registers) -> (r: Option<(u32, u64)>)
    ensures
        r == apic_write_of(instructions@, *regs),
{
    let eoi_rax: [u8; 10] = [0xc7, 0x80, 0xb0, 0x00, 0x00, 0x00, 0x00, 0x00, 0x00, 0x00];
    assert(eoi_rax@ =~= pattern_eoi_rax());
    // By far the most frequent write; checked first.
    if has_prefix(instructions, &eoi_rax) {
        return Some((0, 10));
    }
    let r13_r12d: [u8; 4] = [0x45, 0x89, 0x65, 0x00];
    assert(r13_r12d@ =~= pattern_r13_r12d());
    if has_prefix(instructions, &r13_r12d) {
        return Some((regs.r12 as u32, 4));
    }
    let r8_rax_edx: [u8; 4] = [0x41, 0x89, 0x14, 0x00];
    assert(r8_rax_edx@ =~= pattern_r8_rax_edx());
    if has_prefix(instructions, &r8_rax_edx) {
        return Some((regs.rdx as u32, 4));
    }
    let eoi_rcx: [u8; 10] = [0xc7, 0x81, 0xb0, 0x00, 0x00, 0x00, 0x00, 0x00, 0x00, 0x00];
    assert(eoi_rcx@ =~= pattern_eoi_rcx());
    if has_prefix(instructions, &eoi_rcx) {
        return Some((0, 10));
    }
    let icr_low_eax: [u8; 9] = [0xa3, 0x00, 0x03, 0xe0, 0xfe, 0x00, 0x00, 0x00, 0x00];
    assert(icr_low_eax@ =~= pattern_icr_low_eax());
    if has_prefix(instructions, &icr_low_eax) {
        return Some((regs.rax as u32, 9));
    }
    let icr_high_eax: [u8; 9] = [0xa3, 0x10, 0x03, 0xe0, 0xfe, 0x00, 0x00, 0x00, 0x00];
    assert(icr_high_eax@ =~= pattern_icr_high_eax());
    if has_prefix(instructions, &icr_high_eax) {
        return Some((regs.rax as u32, 9));
    }
    let rax_300_edx: [u8; 6] = [0x89, 0x90, 0x00, 0x03, 0x00, 0x00];
    assert(rax_300_edx@ =~= pattern_rax_300_edx());
    if has_prefix(instructions, &rax_300_edx) {
        return Some((regs.rdx as u32, 6));
    }
    let rax_310_ecx: [u8; 6] = [0x89, 0x88, 0x10, 0x03, 0x00, 0x00];
    assert(rax_310_ecx@ =~= pattern_rax_310_ecx());
    if has_prefix(instructions, &rax_310_ecx) {
        return Some((regs.rcx as u32, 6));
    }
    None
}

/// What an emulated APIC write amounts to.
#[derive(Clone, Copy, Debug, PartialEq, Eq, Structural)]
pub enum ApicWrite {
    /// Perform the write on the physical APIC: store `value` at `gpa`.
    Write { gpa: u64, value: u32 },
    /// A Startup IPI with `vector`; its destination is in the ICR high half
    /// at `icr_high_gpa`. The physical APIC must not see it.
    StartupIpi { vector: u8, icr_high_gpa: u64 },
}

/// Why an APIC access cannot be emulated.
#[derive(Clone, Copy, Debug, PartialEq, Eq, Structural)]
pub enum ApicError {
    /// The faulting instruction is none of the recognised writes.
    UnknownInstruction,
    /// A Startup IPI with logical destination mode.
    LogicalDestination,
    /// A Startup IPI with a destination shorthand.
    DestinationShorthand,
    /// A Startup IPI whose vector cannot be told apart from an activity state.
    InvalidVector,
}

/// The ICR message type field, bits 10:8.
pub open spec fn message_type_of(value: u32) -> u32 {
    (value >> 8u32) & 0b111u32
}

/// The ICR destination mode bit (bit 11): set for logical.
pub open spec fn logical_destination(value: u32) -> bool {
    (value >> 11u32) & 1u32 == 1u32
}

/// The ICR destination shorthand field, bits 19:18.
pub open spec fn shorthand_of(value: u32) -> u32 {
    (value >> 18u32) & 0b11u32
}

/// The outcome of a write of `value` to guest-physical address `gpa` in the
/// APIC page.
pub open spec fn apic_write_outcome(gpa: u64, value: u32) -> Result<ApicWrite, ApicError> {
    if message_type_of(value) != MESSAGE_TYPE_STARTUP || gpa % 0x1000 != APIC_ICR_LOW {
        Ok(ApicWrite::Write { gpa, value })
    } else if logical_destination(value) {
        Err(ApicError::LogicalDestination)
    } else if shorthand_of(value) != 0 {
        Err(ApicError::DestinationShorthand)
    } else if (value % 0x100) as u8 == ACTIVE || (value % 0x100) as u8 == WAIT_FOR_SIPI {
        Err(ApicError::InvalidVector)
    } else {
        Ok(
            ApicWrite::StartupIpi {
                vector: (value % 0x100) as u8,
                icr_high_gpa: (gpa - gpa % 0x1000 + APIC_ICR_HIGH) as u64,
            },
        )
    }
}

/// Classifies a write of `value` to `gpa`: a Startup IPI through ICR low is
/// caught, any other write is passed through.
pub fn classify_apic_write(gpa: u64, value: u32) -> (r: Result<ApicWrite, ApicError>)
    ensures
        r == apic_write_outcome(gpa, value),
        r matches Ok(ApicWrite::StartupIpi { vector, .. }) ==> legal_transition(WAIT_FOR_SIPI, vector),
{
    let message_type = (value >> 8u32) & 0b111;
    let apic_register = gpa & 0xfff;
    assert(apic_register == gpa % 0x1000) by (bit_vector)
        requires
            apic_register == gpa & 0xfff,
    ;
    if message_type != MESSAGE_TYPE_STARTUP || apic_register != APIC_ICR_LOW {
        return Ok(ApicWrite::Write { gpa, value });
    }
    if (value >> 11u32) & 1 == 1 {
        return Err(ApicError::LogicalDestination);
    }
    if (value >> 18u32) & 0b11 != 0 {
        return Err(ApicError::DestinationShorthand);
    }
    let vector = (value & 0xff) as u8;
    assert(vector == (value % 0x100) as u8) by (bit_vector)
        requires
            vector == (value & 0xff) as u8,
    ;
    if vector == ACTIVE || vector == WAIT_FOR_SIPI {
        return Err(ApicError::InvalidVector);
    }
    let icr_high_gpa = (gpa & !0xfffu64) | APIC_ICR_HIGH;
    assert(icr_high_gpa == gpa - gpa % 0x1000 + APIC_ICR_HIGH) by (bit_vector)
        requires
            icr_high_gpa == (gpa & !0xfffu64) | 0x310u64,
    ;
    Ok(ApicWrite::StartupIpi { vector, icr_high_gpa })
}

/// The destination APIC id held in the ICR high half (bits 31:24).
pub fn icr_destination(icr_high: u32) -> (r: u8)
    ensures
        r as u32 == icr_high / 0x100_0000,
{
    let id = icr_high >> 24u32;
    assert(id == icr_high / 0x100_0000 && id < 0x100) by (bit_vector)
        requires
            id == icr_high >> 24u32,
    ;
    id as u8
}

/// The APIC id of each logical processor, indexed by processor index.
#[derive(Debug)]
pub struct ApicIdTable {
    pub ids: Vec<u8>,
}

impl ApicIdTable {
    pub fn new(ids: Vec<u8>) -> (r: ApicIdTable)
        ensures
            r.ids@ == ids@,
    {
        ApicIdTable { ids }
    }

    /// The number of processors in the table.
    pub fn processor_count(&self) -> (r: usize)
        ensures
            r == self.ids@.len(),
    {
        self.ids.len()
    }

    /// The index of the first processor whose APIC id is `apic_id`.
    pub fn processor_id_from(&self, apic_id: u8) -> (r: Option<usize>)
        ensures
            match r {
                Some(i) => i < self.ids@.len() && self.ids@[i as int] == apic_id && forall|k: int|
                    0 <= k < i ==> self.ids@[k] != apic_id,
                None => forall|k: int| 0 <= k < self.ids@.len() ==> self.ids@[k] != apic_id,
            },
    {
        let mut i: usize = 0;
        while i < self.ids.len()
            invariant
                i <= self.ids@.len(),
                forall|k: int| 0 <= k < i ==> self.ids@[k] != apic_id,
            decreases self.ids@.len() - i,
        {
            if self.ids[i] == apic_id {
                return Some(i);
            }
            i = i + 1;
        }
        None
    }
}

} // verus!
