//! The Virtual Machine Control Block: its control area and state save area,
//! and the builders that fill them for the guest.
use vstd::prelude::*;
use crate::registers::Registers;
use crate::segment::{access_rights_of, get_segment_access_right, get_segment_limit, segment_limit_of};

verus! {

/// CPUID intercept, bit 18 of the first miscellaneous intercept vector.
pub const SVM_INTERCEPT_MISC1_CPUID: u32 = 0x4_0000;

/// VMRUN intercept, bit 0 of the second miscellaneous intercept vector.
pub const SVM_INTERCEPT_MISC2_VMRUN: u32 = 1;

/// Nested paging enable, bit 0 of the NP_ENABLE field.
pub const SVM_NP_ENABLE_NP_ENABLE: u64 = 1;

/// #SX (vector 30) in the exception intercept vector.
pub const SECURITY_EXCEPTION: u32 = 0x4000_0000;

/// EFER.SVME, bit 12.
pub const EFER_SVME: u64 = 0x1000;

/// The ASID every guest runs under; any non-zero value does.
pub const GUEST_ASID: u32 = 1;

/// The MSR number of VM_CR.
pub const SVM_MSR_VM_CR: u32 = 0xc001_0114;

/// VM_CR.R_INIT, bit 1: INIT is delivered as #SX.
pub const VM_CR_R_INIT: u64 = 2;

/// The MSR number of VM_HSAVE_PA.
pub const SVM_MSR_VM_HSAVE_PA: u32 = 0xc001_0117;

/// What the TLB_CONTROL field asks of the processor at the next VMRUN.
#[derive(Clone, Copy, Debug, PartialEq, Eq, Structural)]
pub enum TlbControl {
    DoNotFlush,
    FlushAll,
    FlushGuests,
    FlushGuestsNonGlobal,
}

impl TlbControl {
    pub open spec fn spec_value(self) -> u32 {
        match self {
            TlbControl::DoNotFlush => 0,
            TlbControl::FlushAll => 1,
            TlbControl::FlushGuests => 3,
            TlbControl::FlushGuestsNonGlobal => 7,
        }
    }

    /// The encoding of the request in the TLB_CONTROL field.
    pub fn value(self) -> (r: u32)
        ensures
            r == self.spec_value(),
    {
        match self {
            TlbControl::DoNotFlush => 0,
            TlbControl::FlushAll => 1,
            TlbControl::FlushGuests => 3,
            TlbControl::FlushGuestsNonGlobal => 7,
        }
    }
}

/// A write of `value` to model-specific register `msr`, for the caller to
/// perform on the current processor.
#[derive(Clone, Copy, Debug, PartialEq, Eq, Structural)]
pub struct MsrWrite {
    pub msr: u32,
    pub value: u64,
}

/// The new VM_CR value: the current one with R_INIT set.
pub fn vm_cr_with_r_init(current: u64) -> (r: MsrWrite)
    ensures
        r.msr == SVM_MSR_VM_CR,
        r.value == current | VM_CR_R_INIT,
{
    MsrWrite { msr: SVM_MSR_VM_CR, value: current | VM_CR_R_INIT }
}

/// The VMCB control area (the first 0x400 bytes of a VMCB): intercept masks,
/// guest configuration and the exit information the processor fills in.
#[derive(Clone, Copy, Debug)]
pub struct ControlArea {
    pub intercept_cr_read: u16, // +0x000
    pub intercept_cr_write: u16, // +0x002
    pub intercept_dr_read: u16, // +0x004
    pub intercept_dr_write: u16, // +0x006
    pub intercept_exception: u32, // +0x008
    pub intercept_misc1: u32, // +0x00c
    pub intercept_misc2: u32, // +0x010
    pub intercept_misc3: u32, // +0x014
    pub pause_filter_threshold: u16, // +0x03c
    pub pause_filter_count: u16, // +0x03e
    pub iopm_base_pa: u64, // +0x040
    pub msrpm_base_pa: u64, // +0x048
    pub tsc_offset: u64, // +0x050
    pub guest_asid: u32, // +0x058
    pub tlb_control: u32, // +0x05c
    pub vintr: u64, // +0x060
    pub interrupt_shadow: u64, // +0x068
    pub exit_code: u64, // +0x070
    pub exit_info1: u64, // +0x078
    pub exit_info2: u64, // +0x080
    pub exit_int_info: u64, // +0x088
    pub np_enable: u64, // +0x090
    pub avic_apic_bar: u64, // +0x098
    pub guest_pa_pf_ghcb: u64, // +0x0a0
    pub event_inj: u64, // +0x0a8
    pub ncr3: u64, // +0x0b0
    pub lbr_virtualization_enable: u64, // +0x0b8
    pub vmcb_clean: u32, // +0x0c0
    pub nrip: u64, // +0x0c8
    pub num_of_bytes_fetched: u8, // +0x0d0
    pub guest_instruction_bytes: [u8; 15], // +0x0d1
    pub avic_apic_backing_page_pointer: u64, // +0x0e0
    pub avic_logical_table_pointer: u64, // +0x0f0
    pub avic_physical_table_pointer: u64, // +0x0f8
    pub vmcb_save_state_pointer: u64, // +0x108
}

/// The VMCB state save area (0x2E8 bytes, at offset 0x400 of a VMCB): the
/// architectural state of the guest.
#[derive(Clone, Copy, Debug, PartialEq, Eq, Structural)]
pub struct StateSaveArea {
    pub es_selector: u16, // +0x000
    pub es_attrib: u16, // +0x002
    pub es_limit: u32, // +0x004
    pub es_base: u64, // +0x008
    pub cs_selector: u16, // +0x010
    pub cs_attrib: u16, // +0x012
    pub cs_limit: u32, // +0x014
    pub cs_base: u64, // +0x018
    pub ss_selector: u16, // +0x020
    pub ss_attrib: u16, // +0x022
    pub ss_limit: u32, // +0x024
    pub ss_base: u64, // +0x028
    pub ds_selector: u16, // +0x030
    pub ds_attrib: u16, // +0x032
    pub ds_limit: u32, // +0x034
    pub ds_base: u64, // +0x038
    pub fs_selector: u16, // +0x040
    pub fs_attrib: u16, // +0x042
    pub fs_limit: u32, // +0x044
    pub fs_base: u64, // +0x048
    pub gs_selector: u16, // +0x050
    pub gs_attrib: u16, // +0x052
    pub gs_limit: u32, // +0x054
    pub gs_base: u64, // +0x058
    pub gdtr_selector: u16, // +0x060
    pub gdtr_attrib: u16, // +0x062
    pub gdtr_limit: u32, // +0x064
    pub gdtr_base: u64, // +0x068
    pub ldtr_selector: u16, // +0x070
    pub ldtr_attrib: u16, // +0x072
    pub ldtr_limit: u32, // +0x074
    pub ldtr_base: u64, // +0x078
    pub idtr_selector: u16, // +0x080
    pub idtr_attrib: u16, // +0x082
    pub idtr_limit: u32, // +0x084
    pub idtr_base: u64, // +0x088
    pub tr_selector: u16, // +0x090
    pub tr_attrib: u16, // +0x092
    pub tr_limit: u32, // +0x094
    pub tr_base: u64, // +0x098
    pub cpl: u8, // +0x0cb
    pub efer: u64, // +0x0d0
    pub cr4: u64, // +0x148
    pub cr3: u64, // +0x150
    pub cr0: u64, // +0x158
    pub dr7: u64, // +0x160
    pub dr6: u64, // +0x168
    pub rflags: u64, // +0x170
    pub rip: u64, // +0x178
    pub rsp: u64, // +0x1d8
    pub s_cet: u64, // +0x1e0
    pub ssp: u64, // +0x1e8
    pub isst_addr: u64, // +0x1f0
    pub rax: u64, // +0x1f8
    pub star: u64, // +0x200
    pub lstar: u64, // +0x208
    pub cstar: u64, // +0x210
    pub sf_mask: u64, // +0x218
    pub kernel_gs_base: u64, // +0x220
    pub sysenter_cs: u64, // +0x228
    pub sysenter_esp: u64, // +0x230
    pub sysenter_eip: u64, // +0x238
    pub cr2: u64, // +0x240
    pub gpat: u64, // +0x268
    pub dbg_ctl: u64, // +0x270
    pub br_from: u64, // +0x278
    pub br_to: u64, // +0x280
    pub last_excep_from: u64, // +0x288
    pub last_excep_to: u64, // +0x290
    pub spec_ctl: u64, // +0x2e0
}

impl ControlArea {
    /// Every field zero, as in a freshly allocated page.
    pub open spec fn is_zeroed(self) -> bool {
        self.intercept_cr_read == 0
        && self.intercept_cr_write == 0
        && self.intercept_dr_read == 0
        && self.intercept_dr_write == 0
        && self.intercept_exception == 0
        && self.intercept_misc1 == 0
        && self.intercept_misc2 == 0
        && self.intercept_misc3 == 0
        && self.pause_filter_threshold == 0
        && self.pause_filter_count == 0
        && self.iopm_base_pa == 0
        && self.msrpm_base_pa == 0
        && self.tsc_offset == 0
        && self.guest_asid == 0
        && self.tlb_control == 0
        && self.vintr == 0
        && self.interrupt_shadow == 0
        && self.exit_code == 0
        && self.exit_info1 == 0
        && self.exit_info2 == 0
        && self.exit_int_info == 0
        && self.np_enable == 0
        && self.avic_apic_bar == 0
        && self.guest_pa_pf_ghcb == 0
        && self.event_inj == 0
        && self.ncr3 == 0
        && self.lbr_virtualization_enable == 0
        && self.vmcb_clean == 0
        && self.nrip == 0
        && self.num_of_bytes_fetched == 0
        && self.guest_instruction_bytes@ == Seq::new(15, |_i: int| 0u8)
        && self.avic_apic_backing_page_pointer == 0
        && self.avic_logical_table_pointer == 0
        && self.avic_physical_table_pointer == 0
        && self.vmcb_save_state_pointer == 0
    }

    pub fn zeroed() -> (r: ControlArea)
        ensures
            r.is_zeroed(),
    {
        let r = ControlArea {
            intercept_cr_read: 0,
            intercept_cr_write: 0,
            intercept_dr_read: 0,
            intercept_dr_write: 0,
            intercept_exception: 0,
            intercept_misc1: 0,
            intercept_misc2: 0,
            intercept_misc3: 0,
            pause_filter_threshold: 0,
            pause_filter_count: 0,
            iopm_base_pa: 0,
            msrpm_base_pa: 0,
            tsc_offset: 0,
            guest_asid: 0,
            tlb_control: 0,
            vintr: 0,
            interrupt_shadow: 0,
            exit_code: 0,
            exit_info1: 0,
            exit_info2: 0,
            exit_int_info: 0,
            np_enable: 0,
            avic_apic_bar: 0,
            guest_pa_pf_ghcb: 0,
            event_inj: 0,
            ncr3: 0,
            lbr_virtualization_enable: 0,
            vmcb_clean: 0,
            nrip: 0,
            num_of_bytes_fetched: 0,
            guest_instruction_bytes: [0u8; 15],
            avic_apic_backing_page_pointer: 0,
            avic_logical_table_pointer: 0,
            avic_physical_table_pointer: 0,
            vmcb_save_state_pointer: 0,
        };
        assert(r.guest_instruction_bytes@ =~= Seq::new(15, |_i: int| 0u8));
        r
    }
}

impl StateSaveArea {
    /// Every field zero, as in a freshly allocated page.
    pub open spec fn is_zeroed(self) -> bool {
        self.es_selector == 0
        && self.es_attrib == 0
        && self.es_limit == 0
        && self.es_base == 0
        && self.cs_selector == 0
        && self.cs_attrib == 0
        && self.cs_limit == 0
        && self.cs_base == 0
        && self.ss_selector == 0
        && self.ss_attrib == 0
        && self.ss_limit == 0
        && self.ss_base == 0
        && self.ds_selector == 0
        && self.ds_attrib == 0
        && self.ds_limit == 0
        && self.ds_base == 0
        && self.fs_selector == 0
        && self.fs_attrib == 0
        && self.fs_limit == 0
        && self.fs_base == 0
        && self.gs_selector == 0
        && self.gs_attrib == 0
        && self.gs_limit == 0
        && self.gs_base == 0
        && self.gdtr_selector == 0
        && self.gdtr_attrib == 0
        && self.gdtr_limit == 0
        && self.gdtr_base == 0
        && self.ldtr_selector == 0
        && self.ldtr_attrib == 0
        && self.ldtr_limit == 0
        && self.ldtr_base == 0
        && self.idtr_selector == 0
        && self.idtr_attrib == 0
        && self.idtr_limit == 0
        && self.idtr_base == 0
        && self.tr_selector == 0
        && self.tr_attrib == 0
        && self.tr_limit == 0
        && self.tr_base == 0
        && self.cpl == 0
        && self.efer == 0
        && self.cr4 == 0
        && self.cr3 == 0
        && self.cr0 == 0
        && self.dr7 == 0
        && self.dr6 == 0
        && self.rflags == 0
        && self.rip == 0
        && self.rsp == 0
        && self.s_cet == 0
        && self.ssp == 0
        && self.isst_addr == 0
        && self.rax == 0
        && self.star == 0
        && self.lstar == 0
        && self.cstar == 0
        && self.sf_mask == 0
        && self.kernel_gs_base == 0
        && self.sysenter_cs == 0
        && self.sysenter_esp == 0
        && self.sysenter_eip == 0
        && self.cr2 == 0
        && self.gpat == 0
        && self.dbg_ctl == 0
        && self.br_from == 0
        && self.br_to == 0
        && self.last_excep_from == 0
        && self.last_excep_to == 0
        && self.spec_ctl == 0
    }

    pub fn zeroed() -> (r: StateSaveArea)
        ensures
            r.is_zeroed(),
    {
        let r = StateSaveArea {
            es_selector: 0,
            es_attrib: 0,
            es_limit: 0,
            es_base: 0,
            cs_selector: 0,
            cs_attrib: 0,
            cs_limit: 0,
            cs_base: 0,
            ss_selector: 0,
            ss_attrib: 0,
            ss_limit: 0,
            ss_base: 0,
            ds_selector: 0,
            ds_attrib: 0,
            ds_limit: 0,
            ds_base: 0,
            fs_selector: 0,
            fs_attrib: 0,
            fs_limit: 0,
            fs_base: 0,
            gs_selector: 0,
            gs_attrib: 0,
            gs_limit: 0,
            gs_base: 0,
            gdtr_selector: 0,
            gdtr_attrib: 0,
            gdtr_limit: 0,
            gdtr_base: 0,
            ldtr_selector: 0,
            ldtr_attrib: 0,
            ldtr_limit: 0,
            ldtr_base: 0,
            idtr_selector: 0,
            idtr_attrib: 0,
            idtr_limit: 0,
            idtr_base: 0,
            tr_selector: 0,
            tr_attrib: 0,
            tr_limit: 0,
            tr_base: 0,
            cpl: 0,
            efer: 0,
            cr4: 0,
            cr3: 0,
            cr0: 0,
            dr7: 0,
            dr6: 0,
            rflags: 0,
            rip: 0,
            rsp: 0,
            s_cet: 0,
            ssp: 0,
            isst_addr: 0,
            rax: 0,
            star: 0,
            lstar: 0,
            cstar: 0,
            sf_mask: 0,
            kernel_gs_base: 0,
            sysenter_cs: 0,
            sysenter_esp: 0,
            sysenter_eip: 0,
            cr2: 0,
            gpat: 0,
            dbg_ctl: 0,
            br_from: 0,
            br_to: 0,
            last_excep_from: 0,
            last_excep_to: 0,
            spec_ctl: 0,
        };
        r
    }
}


/// A VMCB: the control area followed by the state save area.
#[derive(Clone, Copy, Debug)]
pub struct VmcbRaw {
    pub control_area: ControlArea,
    pub state_save_area: StateSaveArea,
}

/// The processor state that the guest starts from: what the current
/// (host) processor holds when it is virtualized. `*_descriptor` is the GDT
/// entry that the matching selector refers to (entry 0 for a null selector).
#[derive(Clone, Copy, Debug, PartialEq, Eq, Structural)]
pub struct CurrentState {
    pub es_selector: u16,
    pub cs_selector: u16,
    pub ss_selector: u16,
    pub ds_selector: u16,
    pub es_descriptor: u64,
    pub cs_descriptor: u64,
    pub ss_descriptor: u64,
    pub ds_descriptor: u64,
    pub gdtr_base: u64,
    pub gdtr_limit: u16,
    pub idtr_base: u64,
    pub idtr_limit: u16,
    pub efer: u64,
    pub cr0: u64,
    pub cr3: u64,
    pub cr4: u64,
    pub pat: u64,
}

/// A VMCB page together with its physical address, which is computed once
/// when the page is allocated.
#[derive(Clone, Copy, Debug)]
pub struct Vmcb {
    pub data: VmcbRaw,
    pub phys: u64,
}

/// The control area after `Vmcb::initialize_control` with nested page
/// tables rooted at `ncr3`.
pub open spec fn controls_initialized(old: ControlArea, ncr3: u64) -> ControlArea {
    ControlArea {
        intercept_misc1: SVM_INTERCEPT_MISC1_CPUID,
        intercept_misc2: SVM_INTERCEPT_MISC2_VMRUN,
        pause_filter_count: 0xffff,
        guest_asid: GUEST_ASID,
        np_enable: SVM_NP_ENABLE_NP_ENABLE,
        ncr3,
        intercept_exception: old.intercept_exception | SECURITY_EXCEPTION,
        ..old
    }
}

/// The state save area after `Vmcb::initialize_guest` from `cur` and the
/// captured register frame `regs`.
pub open spec fn guest_initialized(old: StateSaveArea, cur: CurrentState, regs: Registers) -> StateSaveArea {
    StateSaveArea {
        es_selector: cur.es_selector,
        cs_selector: cur.cs_selector,
        ss_selector: cur.ss_selector,
        ds_selector: cur.ds_selector,
        es_attrib: access_rights_of(cur.es_descriptor),
        cs_attrib: access_rights_of(cur.cs_descriptor),
        ss_attrib: access_rights_of(cur.ss_descriptor),
        ds_attrib: access_rights_of(cur.ds_descriptor),
        es_limit: segment_limit_of(cur.es_selector, cur.es_descriptor) as u32,
        cs_limit: segment_limit_of(cur.cs_selector, cur.cs_descriptor) as u32,
        ss_limit: segment_limit_of(cur.ss_selector, cur.ss_descriptor) as u32,
        ds_limit: segment_limit_of(cur.ds_selector, cur.ds_descriptor) as u32,
        gdtr_base: cur.gdtr_base,
        gdtr_limit: cur.gdtr_limit as u32,
        idtr_base: cur.idtr_base,
        idtr_limit: cur.idtr_limit as u32,
        efer: cur.efer | EFER_SVME,
        cr0: cur.cr0,
        cr3: cur.cr3,
        cr4: cur.cr4,
        rip: regs.rip,
        rsp: regs.rsp,
        rflags: regs.rflags,
        rax: regs.rax,
        gpat: cur.pat,
        ..old
    }
}

impl Vmcb {
    /// A zeroed VMCB whose page lies at physical address `phys`.
    pub fn new(phys: u64) -> (r: Vmcb)
        ensures
            r.data.control_area.is_zeroed(),
            r.data.state_save_area.is_zeroed(),
            r.phys == phys,
    {
        Vmcb {
            data: VmcbRaw { control_area: ControlArea::zeroed(), state_save_area: StateSaveArea::zeroed() },
            phys,
        }
    }

    /// The physical address of the VMCB page.
    pub fn pa(&self) -> (r: u64)
        ensures
            r == self.phys,
    {
        self.phys
    }

    /// Enables nested paging with the nested PML4 at `nested_pml4_addr`.
    pub fn initialize_npt(&mut self, nested_pml4_addr: u64)
        ensures
            final(self).data.control_area == (ControlArea {
                np_enable: SVM_NP_ENABLE_NP_ENABLE,
                ncr3: nested_pml4_addr,
                ..old(self).data.control_area
            }),
            final(self).data.state_save_area == old(self).data.state_save_area,
            final(self).phys == old(self).phys,
    {
        self.data.control_area.np_enable = SVM_NP_ENABLE_NP_ENABLE;
        self.data.control_area.ncr3 = nested_pml4_addr;
    }

    /// Sets the exception intercept vector.
    pub fn initialize_excepiton(&mut self, code: u32)
        ensures
            final(self).data.control_area == (ControlArea {
                intercept_exception: code,
                ..old(self).data.control_area
            }),
            final(self).data.state_save_area == old(self).data.state_save_area,
            final(self).phys == old(self).phys,
    {
        self.data.control_area.intercept_exception = code;
    }

    /// Sets the intercepts (CPUID, VMRUN, #SX), disables PAUSE filtering,
    /// assigns the guest ASID and enables nested paging rooted at `ncr3`.
    pub fn initialize_control(&mut self, ncr3: u64)
        ensures
            final(self).data.control_area == controls_initialized(old(self).data.control_area, ncr3),
            final(self).data.state_save_area == old(self).data.state_save_area,
            final(self).phys == old(self).phys,
    {
        self.data.control_area.intercept_misc1 = SVM_INTERCEPT_MISC1_CPUID;
        self.data.control_area.intercept_misc2 = SVM_INTERCEPT_MISC2_VMRUN;
        self.data.control_area.pause_filter_count = 0xffff;
        self.data.control_area.guest_asid = GUEST_ASID;
        self.initialize_npt(ncr3);
        let exceptions = self.data.control_area.intercept_exception | SECURITY_EXCEPTION;
        self.initialize_excepiton(exceptions);
    }

    /// Fills the state save area so that the guest resumes the current
    /// processor state `cur` with the captured registers `registers`.
    pub fn initialize_guest(&mut self, cur: &CurrentState, registers: &Registers)
        ensures
            final(self).data.state_save_area == guest_initialized(old(self).data.state_save_area, *cur, *registers),
            final(self).data.control_area == old(self).data.control_area,
            final(self).phys == old(self).phys,
    {
        let ssa = &mut self.data.state_save_area;
        ssa.es_selector = cur.es_selector;
        ssa.cs_selector = cur.cs_selector;
        ssa.ss_selector = cur.ss_selector;
        ssa.ds_selector = cur.ds_selector;

        ssa.es_attrib = get_segment_access_right(cur.es_descriptor);
        ssa.cs_attrib = get_segment_access_right(cur.cs_descriptor);
        ssa.ss_attrib = get_segment_access_right(cur.ss_descriptor);
        ssa.ds_attrib = get_segment_access_right(cur.ds_descriptor);

        ssa.es_limit = get_segment_limit(cur.es_selector, cur.es_descriptor);
        ssa.cs_limit = get_segment_limit(cur.cs_selector, cur.cs_descriptor);
        ssa.ss_limit = get_segment_limit(cur.ss_selector, cur.ss_descriptor);
        ssa.ds_limit = get_segment_limit(cur.ds_selector, cur.ds_descriptor);

        ssa.gdtr_base = cur.gdtr_base;
        ssa.gdtr_limit = cur.gdtr_limit as u32;
        ssa.idtr_base = cur.idtr_base;
        ssa.idtr_limit = cur.idtr_limit as u32;

        ssa.efer = cur.efer | EFER_SVME;
        ssa.cr0 = cur.cr0;
        ssa.cr3 = cur.cr3;
        ssa.cr4 = cur.cr4;
        ssa.rip = registers.rip;
        ssa.rsp = registers.rsp;
        ssa.rflags = registers.rflags;
        ssa.rax = registers.rax;
        ssa.gpat = cur.pat;
    }
}

/// The host state-save area: a page that VMRUN fills, known to the library
/// only by its physical address.
#[derive(Clone, Copy, Debug, PartialEq, Eq, Structural)]
pub struct HostStateArea {
    pub phys: u64,
}

impl HostStateArea {
    pub fn new(phys: u64) -> (r: HostStateArea)
        ensures
            r.phys == phys,
    {
        HostStateArea { phys }
    }

    /// The physical address of the page.
    pub fn pa(&self) -> (r: u64)
        ensures
            r == self.phys,
    {
        self.phys
    }
}

} // verus!
