//! The reasons a guest leaves to the host, and the handling of CPUID exits.
use vstd::prelude::*;
use crate::vcpu::VCpu;
use crate::registers::Registers;

verus! {

/// CPUID.1:ECX bit 5 reports VMX support; the guest never sees it.
pub const CPUID_1_ECX_VMX: u32 = 0x20;

/// Information on the instruction that caused an exit.
#[derive(Clone, Copy, Debug, PartialEq, Eq, Structural)]
pub struct InstructionInfo {
    /// The next RIP of the guest in case the current instruction is emulated.
    pub next_rip: u64,
}

/// Why the guest exited, once the exit has been dispatched.
#[derive(Clone, Copy, Debug, PartialEq, Eq, Structural)]
pub enum VmExitReason {
    Cpuid(InstructionInfo),
    Rdmsr(InstructionInfo),
    Wrmsr(InstructionInfo),
    XSetBv(InstructionInfo),
    InitSignal,
    StartupIpi,
    NestedPageFault,
    /// An exit code that the hypervisor does not handle; fatal.
    Unknown,
}

/// The four registers that CPUID returns.
#[derive(Clone, Copy, Debug, PartialEq, Eq, Structural)]
pub struct CpuidResult {
    pub eax: u32,
    pub ebx: u32,
    pub ecx: u32,
    pub edx: u32,
}

/// The register frame after the guest's CPUID returned `result` on the
/// processor: the VMX bit of leaf 1 hidden, RIP past the instruction.
pub open spec fn cpuid_emulated(regs: Registers, next_rip: u64, result: CpuidResult) -> Registers {
    Registers {
        rax: result.eax as u64,
        rbx: result.ebx as u64,
        rcx: (if regs.rax as u32 == 1 {
            result.ecx & !CPUID_1_ECX_VMX
        } else {
            result.ecx
        }) as u64,
        rdx: result.edx as u64,
        rip: next_rip,
        ..regs
    }
}

/// The leaf (EAX) and sub-leaf (ECX) that the guest asked CPUID for.
pub fn cpuid_request(guest: &VCpu) -> (r: (u32, u32))
    ensures
        r == (guest.registers.rax as u32, guest.registers.rcx as u32),
{
    (guest.registers.rax as u32, guest.registers.rcx as u32)
}

/// Relies on x86's `cpuid::native_cpuid::cpuid_count` (raw-cpuid): executes
/// CPUID with EAX = `leaf` and ECX = `sub_leaf` on the current processor.
/// What it returns depends on the processor, so nothing is stated of it.
#[verifier::external_body]
pub(crate) fn cpuid(leaf: u32, sub_leaf: u32) -> (r: CpuidResult) {
    let r = x86::cpuid::native_cpuid::cpuid_count(leaf, sub_leaf);
    CpuidResult { eax: r.eax, ebx: r.ebx, ecx: r.ecx, edx: r.edx }
}

/// Emulates the guest's CPUID on the current processor: runs it for the
/// guest's leaf and sub-leaf, hides VMX in leaf 1, and moves RIP past the
/// instruction.
pub fn handle_cpuid(guest: &mut VCpu, info: &InstructionInfo)
    ensures
        exists|result: CpuidResult| final(guest).registers == cpuid_emulated(old(guest).registers, info.next_rip, result),
        old(guest).registers.rax as u32 == 1 ==> final(guest).registers.rcx & CPUID_1_ECX_VMX as u64 == 0,
        final(guest).registers.rip == info.next_rip,
        final(guest).id == old(guest).id,
        final(guest).guest_vmcb == old(guest).guest_vmcb,
        final(guest).host_vmcb == old(guest).host_vmcb,
        final(guest).guest_vmcb_pa == old(guest).guest_vmcb_pa,
        final(guest).host_vmcb_pa == old(guest).host_vmcb_pa,
        final(guest).host_state == old(guest).host_state,
{
    let (leaf, sub_leaf) = cpuid_request(guest);
    let result = cpuid(leaf, sub_leaf);
    emulate_cpuid(guest, info, &result);
    proof {
        lemma_vmx_hidden(result.ecx);
    }
}

/// Clearing the VMX bit leaves it clear in the 64-bit register.
proof fn lemma_vmx_hidden(ecx: u32)
    ensures
        ((ecx & !CPUID_1_ECX_VMX) as u64) & (CPUID_1_ECX_VMX as u64) == 0,
{
    assert(((ecx & !0x20u32) as u64) & 0x20u64 == 0) by (bit_vector);
}

/// Completes a CPUID exit with `result`, what the processor's CPUID gave for
/// the guest's leaf and sub-leaf.
pub fn emulate_cpuid(guest: &mut VCpu, info: &InstructionInfo, result: &CpuidResult)
    ensures
        final(guest).registers == cpuid_emulated(old(guest).registers, info.next_rip, *result),
        final(guest).id == old(guest).id,
        final(guest).guest_vmcb == old(guest).guest_vmcb,
        final(guest).host_vmcb == old(guest).host_vmcb,
        final(guest).guest_vmcb_pa == old(guest).guest_vmcb_pa,
        final(guest).host_vmcb_pa == old(guest).host_vmcb_pa,
        final(guest).host_state == old(guest).host_state,
{
    let leaf = guest.registers.rax as u32;
    let mut ecx = result.ecx;
    if leaf == 1 {
        ecx = ecx & !CPUID_1_ECX_VMX;
    }
    let regs = guest.regs();
    regs.rax = result.eax as u64;
    regs.rbx = result.ebx as u64;
    regs.rcx = ecx as u64;
    regs.rdx = result.edx as u64;
    regs.rip = info.next_rip;
}

} // verus!
