//! The per-processor virtual CPU: its VMCBs and register frame, and the
//! decisions of the exit loop. The caller performs what the processor alone
//! can do (VMRUN, MSR and control-register accesses, the Wait-for-SIPI
//! spin) and hands the results to these methods.
use vstd::prelude::*;
use crate::activity::{legal_transition, ACTIVE, WAIT_FOR_SIPI};
use crate::apic::{apic_write_of, apic_write_outcome, classify_apic_write, decode_apic_write, ApicError, ApicWrite};
use crate::paging::NestedPageTables;
use crate::registers::Registers;
use crate::vmcb::{
    controls_initialized,
    guest_initialized,
    ControlArea,
    CurrentState,
    HostStateArea,
    MsrWrite,
    StateSaveArea,
    Vmcb,
    EFER_SVME,
    SVM_MSR_VM_HSAVE_PA,
};
use crate::vmexit::{InstructionInfo, VmExitReason};

verus! {

/// Exit code of an intercepted #SX (INIT converted by VM_CR.R_INIT).
pub const VMEXIT_EXCEPTION_SX: u64 = 0x5e;

/// Exit code of an intercepted CPUID.
pub const VMEXIT_CPUID: u64 = 0x72;

/// Exit code of a nested page fault.
pub const VMEXIT_NPF: u64 = 0x400;

/// RFLAGS with only its always-one bit (bit 1) set.
pub const RFLAGS_POWER_ON: u64 = 2;

/// VMCB_CLEAN with every bit set: nothing cached needs reloading.
pub const VMCB_CLEAN_ALL: u32 = 0xffff_ffff;

/// Why an INIT could not be handled.
#[derive(Clone, Copy, Debug, PartialEq, Eq, Structural)]
pub enum InitError {
    /// INIT reached the bootstrap processor.
    BootstrapProcessor,
    /// The processor's activity slot did not hold Active.
    NotActive { state: u8 },
}

/// One virtual CPU per logical processor.
#[derive(Debug)]
pub struct VCpu {
    /// The processor index.
    pub id: usize,
    pub guest_vmcb: Vmcb,
    pub host_vmcb: Vmcb,
    pub guest_vmcb_pa: u64,
    pub host_vmcb_pa: u64,
    pub host_state: HostStateArea,
    pub registers: Registers,
}

/// The same virtual CPU, under the name of the SVM backend.
pub type Vmx = VCpu;

/// The state save area with the frame's RAX, RIP, RSP and RFLAGS copied in.
pub open spec fn mirror_in(ssa: StateSaveArea, regs: Registers) -> StateSaveArea {
    StateSaveArea { rax: regs.rax, rip: regs.rip, rsp: regs.rsp, rflags: regs.rflags, ..ssa }
}

/// The frame with the state save area's RAX, RIP, RSP and RFLAGS copied in.
pub open spec fn mirror_out(regs: Registers, ssa: StateSaveArea) -> Registers {
    Registers { rax: ssa.rax, rip: ssa.rip, rsp: ssa.rsp, rflags: ssa.rflags, ..regs }
}

/// The dispatch of an exit with code `exit_code`.
pub open spec fn exit_reason_of(exit_code: u64, nrip: u64) -> VmExitReason {
    if exit_code == VMEXIT_EXCEPTION_SX {
        VmExitReason::InitSignal
    } else if exit_code == VMEXIT_CPUID {
        VmExitReason::Cpuid(InstructionInfo { next_rip: nrip })
    } else if exit_code == VMEXIT_NPF {
        VmExitReason::NestedPageFault
    } else {
        VmExitReason::Unknown
    }
}

/// The guest state after INIT: the architectural power-on state, with CD
/// and NW kept from `previous_cr0`.
pub open spec fn init_reset_state(old: StateSaveArea, previous_cr0: u64) -> StateSaveArea {
    StateSaveArea {
        cr0: (previous_cr0 & 0x6000_0000) | 0x10,
        cr2: 0,
        cr3: 0,
        cr4: 0,
        rflags: RFLAGS_POWER_ON,
        efer: EFER_SVME,
        rip: 0xfff0,
        rsp: 0,
        rax: 0,
        cs_selector: 0xf000,
        cs_base: 0xffff_0000,
        cs_limit: 0xffff,
        cs_attrib: 0x9b,
        ds_selector: 0,
        ds_base: 0,
        ds_limit: 0xffff,
        ds_attrib: 0x93,
        es_selector: 0,
        es_base: 0,
        es_limit: 0xffff,
        es_attrib: 0x93,
        fs_selector: 0,
        fs_base: 0,
        fs_limit: 0xffff,
        fs_attrib: 0x93,
        gs_selector: 0,
        gs_base: 0,
        gs_limit: 0xffff,
        gs_attrib: 0x93,
        ss_selector: 0,
        ss_base: 0,
        ss_limit: 0xffff,
        ss_attrib: 0x93,
        gdtr_base: 0,
        gdtr_limit: 0xffff,
        idtr_base: 0,
        idtr_limit: 0xffff,
        ldtr_selector: 0,
        ldtr_base: 0,
        ldtr_limit: 0xffff,
        ldtr_attrib: 0x82,
        tr_selector: 0,
        tr_base: 0,
        tr_limit: 0xffff,
        tr_attrib: 0x8b,
        dr6: 0xffff_0ff0,
        dr7: 0x400,
        ..old
    }
}

/// The register frame after INIT: scratch registers cleared, RDX holding
/// the processor signature (CPUID.1:EAX).
pub open spec fn init_reset_registers(old: Registers, cpu_signature: u32) -> Registers {
    Registers {
        rax: 0,
        rbx: 0,
        rcx: 0,
        rdx: cpu_signature as u64,
        rdi: 0,
        rsi: 0,
        rbp: 0,
        r8: 0,
        r9: 0,
        r10: 0,
        r11: 0,
        r12: 0,
        r13: 0,
        r14: 0,
        r15: 0,
        rflags: RFLAGS_POWER_ON,
        rsp: 0,
        rip: 0xfff0,
        ..old
    }
}

/// The guest state once the SIPI with `vector` is applied: real-mode code
/// starts at `vector << 12`.
pub open spec fn sipi_state(old: StateSaveArea, vector: u8) -> StateSaveArea {
    StateSaveArea {
        cs_selector: (vector as u16 * 0x100) as u16,
        cs_base: (vector as u64 * 0x1000) as u64,
        rip: 0,
        ..old
    }
}

/// The instruction bytes the processor fetched for the exit.
pub open spec fn fetched_bytes(ctrl: ControlArea) -> Seq<u8> {
    let n = if ctrl.num_of_bytes_fetched <= 15 {
        ctrl.num_of_bytes_fetched as int
    } else {
        15
    };
    ctrl.guest_instruction_bytes@.subrange(0, n)
}

/// Copying the frame into the state save area before VMRUN and back after
/// an exit in which the guest changed nothing gives the frame back.
pub proof fn lemma_register_round_trip(regs: Registers, ssa: StateSaveArea)
    ensures
        mirror_out(regs, mirror_in(ssa, regs)) == regs,
{
}

/// After an exit the frame holds the guest's RAX, RIP, RSP and RFLAGS, and
/// every other register as it was before the guest was entered.
pub proof fn lemma_exit_mirror(regs: Registers, ssa: StateSaveArea, after: StateSaveArea)
    ensures
        mirror_out(regs, after).rax == after.rax,
        mirror_out(regs, after).rip == after.rip,
        mirror_out(regs, after).rsp == after.rsp,
        mirror_out(regs, after).rflags == after.rflags,
        mirror_out(regs, after) == (Registers {
            rax: after.rax,
            rip: after.rip,
            rsp: after.rsp,
            rflags: after.rflags,
            ..mirror_out(regs, mirror_in(ssa, regs))
        }),
{
}

impl VCpu {
    /// A virtual CPU for processor `id`, whose guest VMCB, host VMCB and
    /// host state-save area lie at the given physical addresses.
    pub fn new(id: usize, guest_vmcb_pa: u64, host_vmcb_pa: u64, host_state_pa: u64) -> (r: VCpu)
        ensures
            r.id == id,
            r.guest_vmcb.phys == guest_vmcb_pa && r.guest_vmcb_pa == guest_vmcb_pa,
            r.host_vmcb.phys == host_vmcb_pa && r.host_vmcb_pa == host_vmcb_pa,
            r.host_state.phys == host_state_pa,
            r.guest_vmcb.data.control_area.is_zeroed(),
            r.guest_vmcb.data.state_save_area.is_zeroed(),
            r.registers.is_zeroed(),
    {
        VCpu {
            id,
            guest_vmcb: Vmcb::new(guest_vmcb_pa),
            host_vmcb: Vmcb::new(host_vmcb_pa),
            guest_vmcb_pa,
            host_vmcb_pa,
            host_state: HostStateArea::new(host_state_pa),
            registers: Registers::zeroed(),
        }
    }

    /// The VM_HSAVE_PA write that must precede the first VMRUN on this
    /// processor.
    pub fn activate(&self) -> (r: MsrWrite)
        ensures
            r == (MsrWrite { msr: SVM_MSR_VM_HSAVE_PA, value: self.host_state.phys }),
    {
        MsrWrite { msr: SVM_MSR_VM_HSAVE_PA, value: self.host_state.pa() }
    }

    fn initialize_control(&mut self, nested_pml4_pa: u64)
        ensures
            final(self).guest_vmcb.data.control_area == controls_initialized(
                old(self).guest_vmcb.data.control_area,
                nested_pml4_pa,
            ),
            final(self).guest_vmcb.data.state_save_area == old(self).guest_vmcb.data.state_save_area,
            final(self).guest_vmcb.phys == old(self).guest_vmcb.phys,
            final(self).registers == old(self).registers,
            final(self).id == old(self).id,
            final(self).host_vmcb == old(self).host_vmcb,
            final(self).guest_vmcb_pa == old(self).guest_vmcb_pa,
            final(self).host_vmcb_pa == old(self).host_vmcb_pa,
            final(self).host_state == old(self).host_state,
    {
        self.guest_vmcb.initialize_control(nested_pml4_pa);
    }

    fn initialize_guest(&mut self, cur: &CurrentState)
        ensures
            final(self).guest_vmcb.data.state_save_area == guest_initialized(
                old(self).guest_vmcb.data.state_save_area,
                *cur,
                old(self).registers,
            ),
            final(self).guest_vmcb.data.control_area == old(self).guest_vmcb.data.control_area,
            final(self).guest_vmcb.phys == old(self).guest_vmcb.phys,
            final(self).registers == old(self).registers,
            final(self).id == old(self).id,
            final(self).host_vmcb == old(self).host_vmcb,
            final(self).guest_vmcb_pa == old(self).guest_vmcb_pa,
            final(self).host_vmcb_pa == old(self).host_vmcb_pa,
            final(self).host_state == old(self).host_state,
    {
        let registers = self.registers;
        self.guest_vmcb.initialize_guest(cur, &registers);
    }

    /// Takes the captured register frame and fills the guest VMCB: the
    /// intercepts and nested paging rooted at `nested_pml4_pa`, and the state
    /// the guest resumes from. The caller then saves the remaining state with
    /// VMSAVE on both VMCBs.
    pub fn initialize(&mut self, registers: &Registers, cur: &CurrentState, nested_pml4_pa: u64)
        ensures
            final(self).registers == *registers,
            final(self).guest_vmcb.data.control_area == controls_initialized(
                old(self).guest_vmcb.data.control_area,
                nested_pml4_pa,
            ),
            final(self).guest_vmcb.data.state_save_area == guest_initialized(
                old(self).guest_vmcb.data.state_save_area,
                *cur,
                *registers,
            ),
            final(self).guest_vmcb.phys == old(self).guest_vmcb.phys,
            final(self).id == old(self).id,
            final(self).host_vmcb == old(self).host_vmcb,
            final(self).guest_vmcb_pa == old(self).guest_vmcb_pa,
            final(self).host_vmcb_pa == old(self).host_vmcb_pa,
            final(self).host_state == old(self).host_state,
    {
        self.registers = *registers;
        self.initialize_control(nested_pml4_pa);
        self.initialize_guest(cur);
    }

    /// Before VMRUN: copies RAX, RIP, RSP and RFLAGS of the frame into the
    /// guest state save area.
    pub fn prepare_run(&mut self)
        ensures
            final(self).guest_vmcb.data.state_save_area == mirror_in(
                old(self).guest_vmcb.data.state_save_area,
                old(self).registers,
            ),
            final(self).guest_vmcb.data.control_area == old(self).guest_vmcb.data.control_area,
            final(self).guest_vmcb.phys == old(self).guest_vmcb.phys,
            final(self).registers == old(self).registers,
            final(self).id == old(self).id,
            final(self).host_vmcb == old(self).host_vmcb,
            final(self).guest_vmcb_pa == old(self).guest_vmcb_pa,
            final(self).host_vmcb_pa == old(self).host_vmcb_pa,
            final(self).host_state == old(self).host_state,
    {
        self.guest_vmcb.data.state_save_area.rax = self.registers.rax;
        self.guest_vmcb.data.state_save_area.rip = self.registers.rip;
        self.guest_vmcb.data.state_save_area.rsp = self.registers.rsp;
        self.guest_vmcb.data.state_save_area.rflags = self.registers.rflags;
    }

    /// After an exit: copies RAX, RIP, RSP and RFLAGS back into the frame,
    /// drops any TLB flush request, marks the VMCB clean, and dispatches on
    /// the exit code.
    pub fn complete_exit(&mut self) -> (r: VmExitReason)
        ensures
            final(self).registers == mirror_out(old(self).registers, old(self).guest_vmcb.data.state_save_area),
            final(self).guest_vmcb.data.control_area == (ControlArea {
                tlb_control: 0,
                vmcb_clean: VMCB_CLEAN_ALL,
                ..old(self).guest_vmcb.data.control_area
            }),
            final(self).guest_vmcb.data.state_save_area == old(self).guest_vmcb.data.state_save_area,
            final(self).guest_vmcb.phys == old(self).guest_vmcb.phys,
            final(self).id == old(self).id,
            final(self).host_vmcb == old(self).host_vmcb,
            final(self).guest_vmcb_pa == old(self).guest_vmcb_pa,
            final(self).host_vmcb_pa == old(self).host_vmcb_pa,
            final(self).host_state == old(self).host_state,
            r == exit_reason_of(
                old(self).guest_vmcb.data.control_area.exit_code,
                old(self).guest_vmcb.data.control_area.nrip,
            ),
    {
        self.registers.rax = self.guest_vmcb.data.state_save_area.rax;
        self.registers.rip = self.guest_vmcb.data.state_save_area.rip;
        self.registers.rsp = self.guest_vmcb.data.state_save_area.rsp;
        self.registers.rflags = self.guest_vmcb.data.state_save_area.rflags;

        self.guest_vmcb.data.control_area.tlb_control = crate::vmcb::TlbControl::DoNotFlush.value();
        self.guest_vmcb.data.control_area.vmcb_clean = VMCB_CLEAN_ALL;

        let exit_code = self.guest_vmcb.data.control_area.exit_code;
        if exit_code == VMEXIT_EXCEPTION_SX {
            VmExitReason::InitSignal
        } else if exit_code == VMEXIT_CPUID {
            VmExitReason::Cpuid(InstructionInfo { next_rip: self.guest_vmcb.data.control_area.nrip })
        } else if exit_code == VMEXIT_NPF {
            VmExitReason::NestedPageFault
        } else {
            VmExitReason::Unknown
        }
    }

    /// Handles INIT on an application processor, whose activity slot held
    /// `previous_state` when it was swapped to Wait-for-SIPI: resets the
    /// guest to the power-on state and asks for a full TLB flush. The
    /// bootstrap processor never takes INIT.
    pub fn handle_init_signal(&mut self, previous_state: u8, previous_cr0: u64, cpu_signature: u32) -> (r: Result<(), InitError>)
        ensures
            r == (if old(self).id == 0 {
                Err(InitError::BootstrapProcessor)
            } else if previous_state != ACTIVE {
                Err(InitError::NotActive { state: previous_state })
            } else {
                Ok(())
            }),
            r is Ok ==> final(self).guest_vmcb.data.state_save_area == init_reset_state(
                old(self).guest_vmcb.data.state_save_area,
                previous_cr0,
            ),
            r is Ok ==> final(self).guest_vmcb.data.control_area == (ControlArea {
                tlb_control: 1,
                vmcb_clean: 0,
                ..old(self).guest_vmcb.data.control_area
            }),
            r is Ok ==> final(self).registers == init_reset_registers(old(self).registers, cpu_signature),
            r is Ok ==> legal_transition(previous_state, WAIT_FOR_SIPI),
            r is Err ==> final(self).guest_vmcb == old(self).guest_vmcb && final(self).registers == old(self).registers,
            final(self).guest_vmcb.phys == old(self).guest_vmcb.phys,
            final(self).id == old(self).id,
            final(self).host_vmcb == old(self).host_vmcb,
            final(self).guest_vmcb_pa == old(self).guest_vmcb_pa,
            final(self).host_vmcb_pa == old(self).host_vmcb_pa,
            final(self).host_state == old(self).host_state,
    {
        if self.id == 0 {
            return Err(InitError::BootstrapProcessor);
        }
        if previous_state != ACTIVE {
            return Err(InitError::NotActive { state: previous_state });
        }
        let ssa = &mut self.guest_vmcb.data.state_save_area;
        // Extension Type set; Not Write-through and Cache Disable kept.
        ssa.cr0 = (previous_cr0 & 0x6000_0000) | 0x10;
        ssa.cr2 = 0;
        ssa.cr3 = 0;
        ssa.cr4 = 0;
        ssa.rflags = RFLAGS_POWER_ON;
        ssa.efer = EFER_SVME;
        ssa.rip = 0xfff0;
        ssa.rsp = 0;
        ssa.rax = 0;
        ssa.cs_selector = 0xf000;
        ssa.cs_base = 0xffff_0000;
        ssa.cs_limit = 0xffff;
        ssa.cs_attrib = 0x9b;
        ssa.ds_selector = 0;
        ssa.ds_base = 0;
        ssa.ds_limit = 0xffff;
        ssa.ds_attrib = 0x93;
        ssa.es_selector = 0;
        ssa.es_base = 0;
        ssa.es_limit = 0xffff;
        ssa.es_attrib = 0x93;
        ssa.fs_selector = 0;
        ssa.fs_base = 0;
        ssa.fs_limit = 0xffff;
        ssa.fs_attrib = 0x93;
        ssa.gs_selector = 0;
        ssa.gs_base = 0;
        ssa.gs_limit = 0xffff;
        ssa.gs_attrib = 0x93;
        ssa.ss_selector = 0;
        ssa.ss_base = 0;
        ssa.ss_limit = 0xffff;
        ssa.ss_attrib = 0x93;
        ssa.gdtr_base = 0;
        ssa.gdtr_limit = 0xffff;
        ssa.idtr_base = 0;
        ssa.idtr_limit = 0xffff;
        ssa.ldtr_selector = 0;
        ssa.ldtr_base = 0;
        ssa.ldtr_limit = 0xffff;
        ssa.ldtr_attrib = 0x82;
        ssa.tr_selector = 0;
        ssa.tr_base = 0;
        ssa.tr_limit = 0xffff;
        ssa.tr_attrib = 0x8b;
        ssa.dr6 = 0xffff_0ff0;
        ssa.dr7 = 0x400;

        let regs = &mut self.registers;
        regs.rax = 0;
        regs.rdx = cpu_signature as u64;
        regs.rbx = 0;
        regs.rcx = 0;
        regs.rbp = 0;
        regs.rsp = 0;
        regs.rdi = 0;
        regs.rsi = 0;
        regs.r8 = 0;
        regs.r9 = 0;
        regs.r10 = 0;
        regs.r11 = 0;
        regs.r12 = 0;
        regs.r13 = 0;
        regs.r14 = 0;
        regs.r15 = 0;
        regs.rflags = RFLAGS_POWER_ON;
        regs.rip = 0xfff0;

        self.guest_vmcb.data.control_area.tlb_control = crate::vmcb::TlbControl::FlushAll.value();
        self.guest_vmcb.data.control_area.vmcb_clean = 0;
        Ok(())
    }

    /// Applies a received SIPI: the guest starts in real mode at
    /// `vector << 12`, CS = `vector << 8`, RIP = 0.
    pub fn handle_sipi(&mut self, vector: u8)
        ensures
            final(self).guest_vmcb.data.state_save_area == sipi_state(old(self).guest_vmcb.data.state_save_area, vector),
            final(self).registers == (Registers { rip: 0, ..old(self).registers }),
            final(self).guest_vmcb.data.control_area == old(self).guest_vmcb.data.control_area,
            final(self).guest_vmcb.phys == old(self).guest_vmcb.phys,
            final(self).id == old(self).id,
            final(self).host_vmcb == old(self).host_vmcb,
            final(self).guest_vmcb_pa == old(self).guest_vmcb_pa,
            final(self).host_vmcb_pa == old(self).host_vmcb_pa,
            final(self).host_state == old(self).host_state,
    {
        assert((vector as u16) << 8u16 == (vector as u16 * 0x100) as u16) by (bit_vector);
        assert((vector as u64) << 12u64 == (vector as u64 * 0x1000) as u64) by (bit_vector);
        self.guest_vmcb.data.state_save_area.cs_selector = (vector as u16) << 8u16;
        self.guest_vmcb.data.state_save_area.cs_base = (vector as u64) << 12u64;
        self.guest_vmcb.data.state_save_area.rip = 0;
        self.registers.rip = 0;
    }

    /// Arms (`enable`) or disarms the interception of guest writes to the
    /// APIC page, and flushes this processor's TLB at the next VMRUN. Other
    /// processors may keep stale translations; their exits are handled too.
    pub fn intercept_apic_write(&mut self, npt: &mut NestedPageTables, enable: bool)
        requires
            old(npt).is_split(),
        ensures
            final(npt).is_split(),
            final(npt).apic_writable() == !enable,
            final(npt).apic_base == old(npt).apic_base,
            final(npt).data.phys == old(npt).data.phys,
            final(self).guest_vmcb.data.control_area == (ControlArea {
                tlb_control: 1,
                ..old(self).guest_vmcb.data.control_area
            }),
            final(self).guest_vmcb.data.state_save_area == old(self).guest_vmcb.data.state_save_area,
            final(self).guest_vmcb.phys == old(self).guest_vmcb.phys,
            final(self).registers == old(self).registers,
            final(self).id == old(self).id,
            final(self).host_vmcb == old(self).host_vmcb,
            final(self).guest_vmcb_pa == old(self).guest_vmcb_pa,
            final(self).host_vmcb_pa == old(self).host_vmcb_pa,
            final(self).host_state == old(self).host_state,
    {
        npt.set_apic_page_writable(!enable);
        self.guest_vmcb.data.control_area.tlb_control = crate::vmcb::TlbControl::FlushAll.value();
    }

    /// Handles a nested page fault on the APIC page, taken on a processor
    /// out of `processor_count`. The last processor disarms the interception
    /// (it serves the cold start only). The faulting instruction is decoded,
    /// RIP is moved past it, and the write is classified: performed as is,
    /// or caught as a Startup IPI to be delivered by the caller.
    pub fn handle_nested_page_fault(&mut self, npt: &mut NestedPageTables, processor_count: usize) -> (r: Result<ApicWrite, ApicError>)
        requires
            old(npt).is_split(),
        ensures
            r == (match apic_write_of(fetched_bytes(old(self).guest_vmcb.data.control_area), old(self).registers) {
                None => Err(ApicError::UnknownInstruction),
                Some((value, _)) => apic_write_outcome(old(self).guest_vmcb.data.control_area.exit_info2, value),
            }),
            final(self).registers == (match apic_write_of(fetched_bytes(old(self).guest_vmcb.data.control_area), old(self).registers) {
                None => old(self).registers,
                Some((_, len)) => Registers { rip: old(self).registers.rip.wrapping_add(len), ..old(self).registers },
            }),
            final(npt).is_split(),
            final(npt).apic_base == old(npt).apic_base,
            final(npt).data.phys == old(npt).data.phys,
            old(self).id + 1 == processor_count ==> final(npt).apic_writable(),
            old(self).id + 1 != processor_count ==> *final(npt) == *old(npt),
            final(self).guest_vmcb.data.state_save_area == old(self).guest_vmcb.data.state_save_area,
            final(self).guest_vmcb.phys == old(self).guest_vmcb.phys,
            final(self).id == old(self).id,
            final(self).host_vmcb == old(self).host_vmcb,
            final(self).guest_vmcb_pa == old(self).guest_vmcb_pa,
            final(self).host_vmcb_pa == old(self).host_vmcb_pa,
            final(self).host_state == old(self).host_state,
    {
        if processor_count > 0 && self.id == processor_count - 1 {
            self.intercept_apic_write(npt, false);
        }
        let ctrl = &self.guest_vmcb.data.control_area;
        let n: usize = if ctrl.num_of_bytes_fetched <= 15 {
            ctrl.num_of_bytes_fetched as usize
        } else {
            15
        };
        let mut instructions: Vec<u8> = Vec::new();
        let mut i: usize = 0;
        while i < n
            invariant
                n <= 15,
                i <= n,
                instructions@ == ctrl.guest_instruction_bytes@.subrange(0, i as int),
            decreases n - i,
        {
            instructions.push(ctrl.guest_instruction_bytes[i]);
            i = i + 1;
            assert(instructions@ =~= ctrl.guest_instruction_bytes@.subrange(0, i as int));
        }
        let faulting_gpa = ctrl.exit_info2;
        match decode_apic_write(instructions.as_slice(), &self.registers) {
            None => Err(ApicError::UnknownInstruction),
            Some((value, instr_len)) => {
                self.registers.rip = self.registers.rip.wrapping_add(instr_len);
                classify_apic_write(faulting_gpa, value)
            },
        }
    }

    /// The register frame, for the handlers of exits to update.
    pub fn regs(&mut self) -> (r: &mut Registers)
        ensures
            *r == old(self).registers,
            final(self).registers == *final(r),
            final(self).guest_vmcb == old(self).guest_vmcb,
            final(self).id == old(self).id,
            final(self).host_vmcb == old(self).host_vmcb,
            final(self).guest_vmcb_pa == old(self).guest_vmcb_pa,
            final(self).host_vmcb_pa == old(self).host_vmcb_pa,
            final(self).host_state == old(self).host_state,
    {
        &mut self.registers
    }
}

} // verus!
