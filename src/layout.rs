//! The hardware image of a VMCB page: where each field of the control area
//! and of the state save area lies, as the AMD64 architecture fixes it. The
//! processor reads and writes the page itself; these functions move the
//! fields between that image and the library's structures.
use vstd::prelude::*;
use crate::vmcb::{ControlArea, StateSaveArea, VmcbRaw};

verus! {

/// The size of a VMCB page.
pub const VMCB_SIZE: usize = 0x1000;

/// The size of the control area; the state save area follows it.
pub const CONTROL_AREA_SIZE: usize = 0x400;

/// The size of the state save area.
pub const STATE_SAVE_AREA_SIZE: usize = 0x2e8;

/// A little-endian 16-bit value at `off`.
pub open spec fn le2(s: Seq<u8>, off: int) -> int {
    s[off] as int + 0x100 * s[off + 1] as int
}

/// A little-endian 32-bit value at `off`.
pub open spec fn le4(s: Seq<u8>, off: int) -> int {
    le2(s, off) + 0x1_0000 * le2(s, off + 2)
}

/// A little-endian 64-bit value at `off`.
pub open spec fn le8(s: Seq<u8>, off: int) -> int {
    le4(s, off) + 0x1_0000_0000 * le4(s, off + 4)
}

/// Whether `c` is what the image `s` holds for the control_area, which starts at
/// byte `base`.
pub open spec fn control_area_in_image(c: ControlArea, s: Seq<u8>, base: int) -> bool {
    &&& c.intercept_cr_read as int == le2(s, base + 0x000)
    &&& c.intercept_cr_write as int == le2(s, base + 0x002)
    &&& c.intercept_dr_read as int == le2(s, base + 0x004)
    &&& c.intercept_dr_write as int == le2(s, base + 0x006)
    &&& c.intercept_exception as int == le4(s, base + 0x008)
    &&& c.intercept_misc1 as int == le4(s, base + 0x00c)
    &&& c.intercept_misc2 as int == le4(s, base + 0x010)
    &&& c.intercept_misc3 as int == le4(s, base + 0x014)
    &&& c.pause_filter_threshold as int == le2(s, base + 0x03c)
    &&& c.pause_filter_count as int == le2(s, base + 0x03e)
    &&& c.iopm_base_pa as int == le8(s, base + 0x040)
    &&& c.msrpm_base_pa as int == le8(s, base + 0x048)
    &&& c.tsc_offset as int == le8(s, base + 0x050)
    &&& c.guest_asid as int == le4(s, base + 0x058)
    &&& c.tlb_control as int == le4(s, base + 0x05c)
    &&& c.vintr as int == le8(s, base + 0x060)
    &&& c.interrupt_shadow as int == le8(s, base + 0x068)
    &&& c.exit_code as int == le8(s, base + 0x070)
    &&& c.exit_info1 as int == le8(s, base + 0x078)
    &&& c.exit_info2 as int == le8(s, base + 0x080)
    &&& c.exit_int_info as int == le8(s, base + 0x088)
    &&& c.np_enable as int == le8(s, base + 0x090)
    &&& c.avic_apic_bar as int == le8(s, base + 0x098)
    &&& c.guest_pa_pf_ghcb as int == le8(s, base + 0x0a0)
    &&& c.event_inj as int == le8(s, base + 0x0a8)
    &&& c.ncr3 as int == le8(s, base + 0x0b0)
    &&& c.lbr_virtualization_enable as int == le8(s, base + 0x0b8)
    &&& c.vmcb_clean as int == le4(s, base + 0x0c0)
    &&& c.nrip as int == le8(s, base + 0x0c8)
    &&& c.num_of_bytes_fetched as int == s[base + 0x0d0] as int
    &&& c.guest_instruction_bytes@ == s.subrange(base + 0x0d1, base + 0x0e0)
    &&& c.avic_apic_backing_page_pointer as int == le8(s, base + 0x0e0)
    &&& c.avic_logical_table_pointer as int == le8(s, base + 0x0f0)
    &&& c.avic_physical_table_pointer as int == le8(s, base + 0x0f8)
    &&& c.vmcb_save_state_pointer as int == le8(s, base + 0x108)
}

/// Whether `c` is what the image `s` holds for the state_save_area, which starts at
/// byte `base`.
pub open spec fn state_save_area_in_image(c: StateSaveArea, s: Seq<u8>, base: int) -> bool {
    &&& c.es_selector as int == le2(s, base + 0x000)
    &&& c.es_attrib as int == le2(s, base + 0x002)
    &&& c.es_limit as int == le4(s, base + 0x004)
    &&& c.es_base as int == le8(s, base + 0x008)
    &&& c.cs_selector as int == le2(s, base + 0x010)
    &&& c.cs_attrib as int == le2(s, base + 0x012)
    &&& c.cs_limit as int == le4(s, base + 0x014)
    &&& c.cs_base as int == le8(s, base + 0x018)
    &&& c.ss_selector as int == le2(s, base + 0x020)
    &&& c.ss_attrib as int == le2(s, base + 0x022)
    &&& c.ss_limit as int == le4(s, base + 0x024)
    &&& c.ss_base as int == le8(s, base + 0x028)
    &&& c.ds_selector as int == le2(s, base + 0x030)
    &&& c.ds_attrib as int == le2(s, base + 0x032)
    &&& c.ds_limit as int == le4(s, base + 0x034)
    &&& c.ds_base as int == le8(s, base + 0x038)
    &&& c.fs_selector as int == le2(s, base + 0x040)
    &&& c.fs_attrib as int == le2(s, base + 0x042)
    &&& c.fs_limit as int == le4(s, base + 0x044)
    &&& c.fs_base as int == le8(s, base + 0x048)
    &&& c.gs_selector as int == le2(s, base + 0x050)
    &&& c.gs_attrib as int == le2(s, base + 0x052)
    &&& c.gs_limit as int == le4(s, base + 0x054)
    &&& c.gs_base as int == le8(s, base + 0x058)
    &&& c.gdtr_selector as int == le2(s, base + 0x060)
    &&& c.gdtr_attrib as int == le2(s, base + 0x062)
    &&& c.gdtr_limit as int == le4(s, base + 0x064)
    &&& c.gdtr_base as int == le8(s, base + 0x068)
    &&& c.ldtr_selector as int == le2(s, base + 0x070)
    &&& c.ldtr_attrib as int == le2(s, base + 0x072)
    &&& c.ldtr_limit as int == le4(s, base + 0x074)
    &&& c.ldtr_base as int == le8(s, base + 0x078)
    &&& c.idtr_selector as int == le2(s, base + 0x080)
    &&& c.idtr_attrib as int == le2(s, base + 0x082)
    &&& c.idtr_limit as int == le4(s, base + 0x084)
    &&& c.idtr_base as int == le8(s, base + 0x088)
    &&& c.tr_selector as int == le2(s, base + 0x090)
    &&& c.tr_attrib as int == le2(s, base + 0x092)
    &&& c.tr_limit as int == le4(s, base + 0x094)
    &&& c.tr_base as int == le8(s, base + 0x098)
    &&& c.cpl as int == s[base + 0x0cb] as int
    &&& c.efer as int == le8(s, base + 0x0d0)
    &&& c.cr4 as int == le8(s, base + 0x148)
    &&& c.cr3 as int == le8(s, base + 0x150)
    &&& c.cr0 as int == le8(s, base + 0x158)
    &&& c.dr7 as int == le8(s, base + 0x160)
    &&& c.dr6 as int == le8(s, base + 0x168)
    &&& c.rflags as int == le8(s, base + 0x170)
    &&& c.rip as int == le8(s, base + 0x178)
    &&& c.rsp as int == le8(s, base + 0x1d8)
    &&& c.s_cet as int == le8(s, base + 0x1e0)
    &&& c.ssp as int == le8(s, base + 0x1e8)
    &&& c.isst_addr as int == le8(s, base + 0x1f0)
    &&& c.rax as int == le8(s, base + 0x1f8)
    &&& c.star as int == le8(s, base + 0x200)
    &&& c.lstar as int == le8(s, base + 0x208)
    &&& c.cstar as int == le8(s, base + 0x210)
    &&& c.sf_mask as int == le8(s, base + 0x218)
    &&& c.kernel_gs_base as int == le8(s, base + 0x220)
    &&& c.sysenter_cs as int == le8(s, base + 0x228)
    &&& c.sysenter_esp as int == le8(s, base + 0x230)
    &&& c.sysenter_eip as int == le8(s, base + 0x238)
    &&& c.cr2 as int == le8(s, base + 0x240)
    &&& c.gpat as int == le8(s, base + 0x268)
    &&& c.dbg_ctl as int == le8(s, base + 0x270)
    &&& c.br_from as int == le8(s, base + 0x278)
    &&& c.br_to as int == le8(s, base + 0x280)
    &&& c.last_excep_from as int == le8(s, base + 0x288)
    &&& c.last_excep_to as int == le8(s, base + 0x290)
    &&& c.spec_ctl as int == le8(s, base + 0x2e0)
}

/// Whether byte `k` of the image belongs to a field of the control area.
pub open spec fn control_area_byte(k: int) -> bool {
    ||| 0 + 0x000 <= k < 0 + 0x002
    ||| 0 + 0x002 <= k < 0 + 0x004
    ||| 0 + 0x004 <= k < 0 + 0x006
    ||| 0 + 0x006 <= k < 0 + 0x008
    ||| 0 + 0x008 <= k < 0 + 0x00c
    ||| 0 + 0x00c <= k < 0 + 0x010
    ||| 0 + 0x010 <= k < 0 + 0x014
    ||| 0 + 0x014 <= k < 0 + 0x018
    ||| 0 + 0x03c <= k < 0 + 0x03e
    ||| 0 + 0x03e <= k < 0 + 0x040
    ||| 0 + 0x040 <= k < 0 + 0x048
    ||| 0 + 0x048 <= k < 0 + 0x050
    ||| 0 + 0x050 <= k < 0 + 0x058
    ||| 0 + 0x058 <= k < 0 + 0x05c
    ||| 0 + 0x05c <= k < 0 + 0x060
    ||| 0 + 0x060 <= k < 0 + 0x068
    ||| 0 + 0x068 <= k < 0 + 0x070
    ||| 0 + 0x070 <= k < 0 + 0x078
    ||| 0 + 0x078 <= k < 0 + 0x080
    ||| 0 + 0x080 <= k < 0 + 0x088
    ||| 0 + 0x088 <= k < 0 + 0x090
    ||| 0 + 0x090 <= k < 0 + 0x098
    ||| 0 + 0x098 <= k < 0 + 0x0a0
    ||| 0 + 0x0a0 <= k < 0 + 0x0a8
    ||| 0 + 0x0a8 <= k < 0 + 0x0b0
    ||| 0 + 0x0b0 <= k < 0 + 0x0b8
    ||| 0 + 0x0b8 <= k < 0 + 0x0c0
    ||| 0 + 0x0c0 <= k < 0 + 0x0c4
    ||| 0 + 0x0c8 <= k < 0 + 0x0d0
    ||| 0 + 0x0d0 <= k < 0 + 0x0d1
    ||| 0 + 0x0d1 <= k < 0 + 0x0e0
    ||| 0 + 0x0e0 <= k < 0 + 0x0e8
    ||| 0 + 0x0f0 <= k < 0 + 0x0f8
    ||| 0 + 0x0f8 <= k < 0 + 0x100
    ||| 0 + 0x108 <= k < 0 + 0x110
}

/// Whether byte `k` of the image belongs to a field of the state save area.
pub open spec fn state_save_area_byte(k: int) -> bool {
    ||| 0x400 + 0x000 <= k < 0x400 + 0x002
    ||| 0x400 + 0x002 <= k < 0x400 + 0x004
    ||| 0x400 + 0x004 <= k < 0x400 + 0x008
    ||| 0x400 + 0x008 <= k < 0x400 + 0x010
    ||| 0x400 + 0x010 <= k < 0x400 + 0x012
    ||| 0x400 + 0x012 <= k < 0x400 + 0x014
    ||| 0x400 + 0x014 <= k < 0x400 + 0x018
    ||| 0x400 + 0x018 <= k < 0x400 + 0x020
    ||| 0x400 + 0x020 <= k < 0x400 + 0x022
    ||| 0x400 + 0x022 <= k < 0x400 + 0x024
    ||| 0x400 + 0x024 <= k < 0x400 + 0x028
    ||| 0x400 + 0x028 <= k < 0x400 + 0x030
    ||| 0x400 + 0x030 <= k < 0x400 + 0x032
    ||| 0x400 + 0x032 <= k < 0x400 + 0x034
    ||| 0x400 + 0x034 <= k < 0x400 + 0x038
    ||| 0x400 + 0x038 <= k < 0x400 + 0x040
    ||| 0x400 + 0x040 <= k < 0x400 + 0x042
    ||| 0x400 + 0x042 <= k < 0x400 + 0x044
    ||| 0x400 + 0x044 <= k < 0x400 + 0x048
    ||| 0x400 + 0x048 <= k < 0x400 + 0x050
    ||| 0x400 + 0x050 <= k < 0x400 + 0x052
    ||| 0x400 + 0x052 <= k < 0x400 + 0x054
    ||| 0x400 + 0x054 <= k < 0x400 + 0x058
    ||| 0x400 + 0x058 <= k < 0x400 + 0x060
    ||| 0x400 + 0x060 <= k < 0x400 + 0x062
    ||| 0x400 + 0x062 <= k < 0x400 + 0x064
    ||| 0x400 + 0x064 <= k < 0x400 + 0x068
    ||| 0x400 + 0x068 <= k < 0x400 + 0x070
    ||| 0x400 + 0x070 <= k < 0x400 + 0x072
    ||| 0x400 + 0x072 <= k < 0x400 + 0x074
    ||| 0x400 + 0x074 <= k < 0x400 + 0x078
    ||| 0x400 + 0x078 <= k < 0x400 + 0x080
    ||| 0x400 + 0x080 <= k < 0x400 + 0x082
    ||| 0x400 + 0x082 <= k < 0x400 + 0x084
    ||| 0x400 + 0x084 <= k < 0x400 + 0x088
    ||| 0x400 + 0x088 <= k < 0x400 + 0x090
    ||| 0x400 + 0x090 <= k < 0x400 + 0x092
    ||| 0x400 + 0x092 <= k < 0x400 + 0x094
    ||| 0x400 + 0x094 <= k < 0x400 + 0x098
    ||| 0x400 + 0x098 <= k < 0x400 + 0x0a0
    ||| 0x400 + 0x0cb <= k < 0x400 + 0x0cc
    ||| 0x400 + 0x0d0 <= k < 0x400 + 0x0d8
    ||| 0x400 + 0x148 <= k < 0x400 + 0x150
    ||| 0x400 + 0x150 <= k < 0x400 + 0x158
    ||| 0x400 + 0x158 <= k < 0x400 + 0x160
    ||| 0x400 + 0x160 <= k < 0x400 + 0x168
    ||| 0x400 + 0x168 <= k < 0x400 + 0x170
    ||| 0x400 + 0x170 <= k < 0x400 + 0x178
    ||| 0x400 + 0x178 <= k < 0x400 + 0x180
    ||| 0x400 + 0x1d8 <= k < 0x400 + 0x1e0
    ||| 0x400 + 0x1e0 <= k < 0x400 + 0x1e8
    ||| 0x400 + 0x1e8 <= k < 0x400 + 0x1f0
    ||| 0x400 + 0x1f0 <= k < 0x400 + 0x1f8
    ||| 0x400 + 0x1f8 <= k < 0x400 + 0x200
    ||| 0x400 + 0x200 <= k < 0x400 + 0x208
    ||| 0x400 + 0x208 <= k < 0x400 + 0x210
    ||| 0x400 + 0x210 <= k < 0x400 + 0x218
    ||| 0x400 + 0x218 <= k < 0x400 + 0x220
    ||| 0x400 + 0x220 <= k < 0x400 + 0x228
    ||| 0x400 + 0x228 <= k < 0x400 + 0x230
    ||| 0x400 + 0x230 <= k < 0x400 + 0x238
    ||| 0x400 + 0x238 <= k < 0x400 + 0x240
    ||| 0x400 + 0x240 <= k < 0x400 + 0x248
    ||| 0x400 + 0x268 <= k < 0x400 + 0x270
    ||| 0x400 + 0x270 <= k < 0x400 + 0x278
    ||| 0x400 + 0x278 <= k < 0x400 + 0x280
    ||| 0x400 + 0x280 <= k < 0x400 + 0x288
    ||| 0x400 + 0x288 <= k < 0x400 + 0x290
    ||| 0x400 + 0x290 <= k < 0x400 + 0x298
    ||| 0x400 + 0x2e0 <= k < 0x400 + 0x2e8
}

fn read_u8(page: &[u8], off: usize) -> (r: u8)
    requires
        off + 1 <= page@.len(),
        page@.len() == VMCB_SIZE,
    ensures
        r as int == page@[off as int] as int,
{
    page[off]
}

fn read_u16(page: &[u8], off: usize) -> (r: u16)
    requires
        off + 2 <= page@.len(),
        page@.len() == VMCB_SIZE,
    ensures
        r as int == le2(page@, off as int),
{
    let a = page[off];
    let b = page[off + 1];
    let r = (a as u16) | ((b as u16) << 8u16);
    assert(r as u64 == a as u64 + 0x100 * (b as u64)) by (bit_vector)
        requires
            r == (a as u16) | ((b as u16) << 8u16),
    ;
    r
}

fn read_u32(page: &[u8], off: usize) -> (r: u32)
    requires
        off + 4 <= page@.len(),
        page@.len() == VMCB_SIZE,
    ensures
        r as int == le4(page@, off as int),
{
    let lo = read_u16(page, off);
    let hi = read_u16(page, off + 2);
    let r = (lo as u32) | ((hi as u32) << 16u32);
    assert(r as u64 == lo as u64 + 0x1_0000 * (hi as u64)) by (bit_vector)
        requires
            r == (lo as u32) | ((hi as u32) << 16u32),
    ;
    r
}

fn read_u64(page: &[u8], off: usize) -> (r: u64)
    requires
        off + 8 <= page@.len(),
        page@.len() == VMCB_SIZE,
    ensures
        r as int == le8(page@, off as int),
{
    let lo = read_u32(page, off);
    let hi = read_u32(page, off + 4);
    let r = (lo as u64) | ((hi as u64) << 32u64);
    assert(r == lo as u64 + 0x1_0000_0000 * (hi as u64)) by (bit_vector)
        requires
            r == (lo as u64) | ((hi as u64) << 32u64),
    ;
    r
}

fn read_bytes15(page: &[u8], off: usize) -> (r: [u8; 15])
    requires
        off + 15 <= page@.len(),
        page@.len() == VMCB_SIZE,
    ensures
        r@ == page@.subrange(off as int, off + 15),
{
    let r = [
        page[off],
        page[off + 1],
        page[off + 2],
        page[off + 3],
        page[off + 4],
        page[off + 5],
        page[off + 6],
        page[off + 7],
        page[off + 8],
        page[off + 9],
        page[off + 10],
        page[off + 11],
        page[off + 12],
        page[off + 13],
        page[off + 14],
    ];
    assert(r@ =~= page@.subrange(off as int, off + 15));
    r
}

fn write_u8(page: &mut Vec<u8>, off: usize, v: u8)
    requires
        off + 1 <= old(page)@.len(),
        old(page)@.len() == VMCB_SIZE,
    ensures
        final(page)@.len() == old(page)@.len(),
        final(page)@[off as int] as int == v as int,
        forall|k: int| 0 <= k < old(page)@.len() && k != off ==> #[trigger] final(page)@[k] == old(page)@[k],
{
    page.set(off, v);
}

fn write_u16(page: &mut Vec<u8>, off: usize, v: u16)
    requires
        off + 2 <= old(page)@.len(),
        old(page)@.len() == VMCB_SIZE,
    ensures
        final(page)@.len() == old(page)@.len(),
        le2(final(page)@, off as int) == v as int,
        forall|k: int|
            0 <= k < old(page)@.len() && !(off <= k < off + 2) ==> #[trigger] final(page)@[k] == old(page)@[k],
{
    let lo = (v & 0xff) as u8;
    let hi = (v >> 8u16) as u8;
    assert(lo as u64 + 0x100 * (hi as u64) == v as u64) by (bit_vector)
        requires
            lo == (v & 0xff) as u8,
            hi == (v >> 8u16) as u8,
    ;
    page.set(off, lo);
    page.set(off + 1, hi);
}

fn write_u32(page: &mut Vec<u8>, off: usize, v: u32)
    requires
        off + 4 <= old(page)@.len(),
        old(page)@.len() == VMCB_SIZE,
    ensures
        final(page)@.len() == old(page)@.len(),
        le4(final(page)@, off as int) == v as int,
        forall|k: int|
            0 <= k < old(page)@.len() && !(off <= k < off + 4) ==> #[trigger] final(page)@[k] == old(page)@[k],
{
    let lo = (v & 0xffff) as u16;
    let hi = (v >> 16u32) as u16;
    assert(lo as u64 + 0x1_0000 * (hi as u64) == v as u64) by (bit_vector)
        requires
            lo == (v & 0xffff) as u16,
            hi == (v >> 16u32) as u16,
    ;
    write_u16(page, off, lo);
    write_u16(page, off + 2, hi);
}

fn write_u64(page: &mut Vec<u8>, off: usize, v: u64)
    requires
        off + 8 <= old(page)@.len(),
        old(page)@.len() == VMCB_SIZE,
    ensures
        final(page)@.len() == old(page)@.len(),
        le8(final(page)@, off as int) == v as int,
        forall|k: int|
            0 <= k < old(page)@.len() && !(off <= k < off + 8) ==> #[trigger] final(page)@[k] == old(page)@[k],
{
    let lo = (v & 0xffff_ffff) as u32;
    let hi = (v >> 32u64) as u32;
    assert(lo as int + 0x1_0000_0000 * (hi as int) == v as int) by (bit_vector)
        requires
            lo == (v & 0xffff_ffff) as u32,
            hi == (v >> 32u64) as u32,
    ;
    write_u32(page, off, lo);
    write_u32(page, off + 4, hi);
}

fn write_bytes15(page: &mut Vec<u8>, off: usize, bytes: &[u8; 15])
    requires
        off + 15 <= old(page)@.len(),
        old(page)@.len() == VMCB_SIZE,
    ensures
        final(page)@.len() == old(page)@.len(),
        bytes@ == final(page)@.subrange(off as int, off + 15),
        forall|k: int|
            0 <= k < old(page)@.len() && !(off <= k < off + 15) ==> #[trigger] final(page)@[k] == old(page)@[k],
{
    let ghost before = page@;
    let mut i: usize = 0;
    while i < 15
        invariant
            off + 15 <= before.len(),
            before.len() == VMCB_SIZE,
            page@.len() == before.len(),
            i <= 15,
            forall|j: int| 0 <= j < i ==> #[trigger] page@[off + j] == bytes@[j],
            forall|k: int| 0 <= k < before.len() && !(off <= k < off + i) ==> #[trigger] page@[k] == before[k],
        decreases 15 - i,
    {
        page.set(off + i, bytes[i]);
        i = i + 1;
    }
    assert forall|j: int| 0 <= j < 15 implies #[trigger] page@.subrange(off as int, off + 15)[j] == bytes@[j] by {
        assert(page@[off + j] == bytes@[j]);
    }
    assert(bytes@ =~= page@.subrange(off as int, off + 15));
}

fn write_group_1(c: &ControlArea, page: &mut Vec<u8>)
    requires
        old(page)@.len() == VMCB_SIZE,
    ensures
        final(page)@.len() == VMCB_SIZE,
        c.intercept_cr_read as int == le2(final(page)@, 0x000),
        c.intercept_cr_write as int == le2(final(page)@, 0x002),
        c.intercept_dr_read as int == le2(final(page)@, 0x004),
        c.intercept_dr_write as int == le2(final(page)@, 0x006),
        c.intercept_exception as int == le4(final(page)@, 0x008),
        c.intercept_misc1 as int == le4(final(page)@, 0x00c),
        c.intercept_misc2 as int == le4(final(page)@, 0x010),
        c.intercept_misc3 as int == le4(final(page)@, 0x014),
        c.pause_filter_threshold as int == le2(final(page)@, 0x03c),
        forall|k: int|
            0 <= k < VMCB_SIZE && !(0x000 <= k < 0x002 || 0x002 <= k < 0x004 || 0x004 <= k < 0x006 || 0x006 <= k < 0x008 || 0x008 <= k < 0x00c || 0x00c <= k < 0x010 || 0x010 <= k < 0x014 || 0x014 <= k < 0x018 || 0x03c <= k < 0x03e) ==> #[trigger] final(page)@[k] == old(page)@[k],
{
    write_u16(page, 0x000, c.intercept_cr_read);
    write_u16(page, 0x002, c.intercept_cr_write);
    write_u16(page, 0x004, c.intercept_dr_read);
    write_u16(page, 0x006, c.intercept_dr_write);
    write_u32(page, 0x008, c.intercept_exception);
    write_u32(page, 0x00c, c.intercept_misc1);
    write_u32(page, 0x010, c.intercept_misc2);
    write_u32(page, 0x014, c.intercept_misc3);
    write_u16(page, 0x03c, c.pause_filter_threshold);
}

fn write_group_2(c: &ControlArea, page: &mut Vec<u8>)
    requires
        old(page)@.len() == VMCB_SIZE,
    ensures
        final(page)@.len() == VMCB_SIZE,
        c.pause_filter_count as int == le2(final(page)@, 0x03e),
        c.iopm_base_pa as int == le8(final(page)@, 0x040),
        c.msrpm_base_pa as int == le8(final(page)@, 0x048),
        c.tsc_offset as int == le8(final(page)@, 0x050),
        c.guest_asid as int == le4(final(page)@, 0x058),
        c.tlb_control as int == le4(final(page)@, 0x05c),
        c.vintr as int == le8(final(page)@, 0x060),
        c.interrupt_shadow as int == le8(final(page)@, 0x068),
        c.exit_code as int == le8(final(page)@, 0x070),
        forall|k: int|
            0 <= k < VMCB_SIZE && !(0x03e <= k < 0x040 || 0x040 <= k < 0x048 || 0x048 <= k < 0x050 || 0x050 <= k < 0x058 || 0x058 <= k < 0x05c || 0x05c <= k < 0x060 || 0x060 <= k < 0x068 || 0x068 <= k < 0x070 || 0x070 <= k < 0x078) ==> #[trigger] final(page)@[k] == old(page)@[k],
{
    write_u16(page, 0x03e, c.pause_filter_count);
    write_u64(page, 0x040, c.iopm_base_pa);
    write_u64(page, 0x048, c.msrpm_base_pa);
    write_u64(page, 0x050, c.tsc_offset);
    write_u32(page, 0x058, c.guest_asid);
    write_u32(page, 0x05c, c.tlb_control);
    write_u64(page, 0x060, c.vintr);
    write_u64(page, 0x068, c.interrupt_shadow);
    write_u64(page, 0x070, c.exit_code);
}

fn write_group_3(c: &ControlArea, page: &mut Vec<u8>)
    requires
        old(page)@.len() == VMCB_SIZE,
    ensures
        final(page)@.len() == VMCB_SIZE,
        c.exit_info1 as int == le8(final(page)@, 0x078),
        c.exit_info2 as int == le8(final(page)@, 0x080),
        c.exit_int_info as int == le8(final(page)@, 0x088),
        c.np_enable as int == le8(final(page)@, 0x090),
        c.avic_apic_bar as int == le8(final(page)@, 0x098),
        c.guest_pa_pf_ghcb as int == le8(final(page)@, 0x0a0),
        c.event_inj as int == le8(final(page)@, 0x0a8),
        c.ncr3 as int == le8(final(page)@, 0x0b0),
        c.lbr_virtualization_enable as int == le8(final(page)@, 0x0b8),
        forall|k: int|
            0 <= k < VMCB_SIZE && !(0x078 <= k < 0x080 || 0x080 <= k < 0x088 || 0x088 <= k < 0x090 || 0x090 <= k < 0x098 || 0x098 <= k < 0x0a0 || 0x0a0 <= k < 0x0a8 || 0x0a8 <= k < 0x0b0 || 0x0b0 <= k < 0x0b8 || 0x0b8 <= k < 0x0c0) ==> #[trigger] final(page)@[k] == old(page)@[k],
{
    write_u64(page, 0x078, c.exit_info1);
    write_u64(page, 0x080, c.exit_info2);
    write_u64(page, 0x088, c.exit_int_info);
    write_u64(page, 0x090, c.np_enable);
    write_u64(page, 0x098, c.avic_apic_bar);
    write_u64(page, 0x0a0, c.guest_pa_pf_ghcb);
    write_u64(page, 0x0a8, c.event_inj);
    write_u64(page, 0x0b0, c.ncr3);
    write_u64(page, 0x0b8, c.lbr_virtualization_enable);
}

fn write_group_4(c: &ControlArea, page: &mut Vec<u8>)
    requires
        old(page)@.len() == VMCB_SIZE,
    ensures
        final(page)@.len() == VMCB_SIZE,
        c.vmcb_clean as int == le4(final(page)@, 0x0c0),
        c.nrip as int == le8(final(page)@, 0x0c8),
        c.num_of_bytes_fetched as int == final(page)@[0x0d0] as int,
        c.guest_instruction_bytes@ == final(page)@.subrange(0x0d1, 0x0e0),
        c.avic_apic_backing_page_pointer as int == le8(final(page)@, 0x0e0),
        c.avic_logical_table_pointer as int == le8(final(page)@, 0x0f0),
        c.avic_physical_table_pointer as int == le8(final(page)@, 0x0f8),
        c.vmcb_save_state_pointer as int == le8(final(page)@, 0x108),
        forall|k: int|
            0 <= k < VMCB_SIZE && !(0x0c0 <= k < 0x0c4 || 0x0c8 <= k < 0x0d0 || 0x0d0 <= k < 0x0d1 || 0x0d1 <= k < 0x0e0 || 0x0e0 <= k < 0x0e8 || 0x0f0 <= k < 0x0f8 || 0x0f8 <= k < 0x100 || 0x108 <= k < 0x110) ==> #[trigger] final(page)@[k] == old(page)@[k],
{
    write_u32(page, 0x0c0, c.vmcb_clean);
    write_u64(page, 0x0c8, c.nrip);
    write_u8(page, 0x0d0, c.num_of_bytes_fetched);
    write_bytes15(page, 0x0d1, &c.guest_instruction_bytes);
    write_u64(page, 0x0e0, c.avic_apic_backing_page_pointer);
    write_u64(page, 0x0f0, c.avic_logical_table_pointer);
    write_u64(page, 0x0f8, c.avic_physical_table_pointer);
    write_u64(page, 0x108, c.vmcb_save_state_pointer);
}

fn write_group_5(c: &StateSaveArea, page: &mut Vec<u8>)
    requires
        old(page)@.len() == VMCB_SIZE,
    ensures
        final(page)@.len() == VMCB_SIZE,
        c.es_selector as int == le2(final(page)@, 0x400),
        c.es_attrib as int == le2(final(page)@, 0x402),
        c.es_limit as int == le4(final(page)@, 0x404),
        c.es_base as int == le8(final(page)@, 0x408),
        c.cs_selector as int == le2(final(page)@, 0x410),
        c.cs_attrib as int == le2(final(page)@, 0x412),
        c.cs_limit as int == le4(final(page)@, 0x414),
        c.cs_base as int == le8(final(page)@, 0x418),
        c.ss_selector as int == le2(final(page)@, 0x420),
        forall|k: int|
            0 <= k < VMCB_SIZE && !(0x400 <= k < 0x402 || 0x402 <= k < 0x404 || 0x404 <= k < 0x408 || 0x408 <= k < 0x410 || 0x410 <= k < 0x412 || 0x412 <= k < 0x414 || 0x414 <= k < 0x418 || 0x418 <= k < 0x420 || 0x420 <= k < 0x422) ==> #[trigger] final(page)@[k] == old(page)@[k],
{
    write_u16(page, 0x400, c.es_selector);
    write_u16(page, 0x402, c.es_attrib);
    write_u32(page, 0x404, c.es_limit);
    write_u64(page, 0x408, c.es_base);
    write_u16(page, 0x410, c.cs_selector);
    write_u16(page, 0x412, c.cs_attrib);
    write_u32(page, 0x414, c.cs_limit);
    write_u64(page, 0x418, c.cs_base);
    write_u16(page, 0x420, c.ss_selector);
}

fn write_group_6(c: &StateSaveArea, page: &mut Vec<u8>)
    requires
        old(page)@.len() == VMCB_SIZE,
    ensures
        final(page)@.len() == VMCB_SIZE,
        c.ss_attrib as int == le2(final(page)@, 0x422),
        c.ss_limit as int == le4(final(page)@, 0x424),
        c.ss_base as int == le8(final(page)@, 0x428),
        c.ds_selector as int == le2(final(page)@, 0x430),
        c.ds_attrib as int == le2(final(page)@, 0x432),
        c.ds_limit as int == le4(final(page)@, 0x434),
        c.ds_base as int == le8(final(page)@, 0x438),
        c.fs_selector as int == le2(final(page)@, 0x440),
        c.fs_attrib as int == le2(final(page)@, 0x442),
        forall|k: int|
            0 <= k < VMCB_SIZE && !(0x422 <= k < 0x424 || 0x424 <= k < 0x428 || 0x428 <= k < 0x430 || 0x430 <= k < 0x432 || 0x432 <= k < 0x434 || 0x434 <= k < 0x438 || 0x438 <= k < 0x440 || 0x440 <= k < 0x442 || 0x442 <= k < 0x444) ==> #[trigger] final(page)@[k] == old(page)@[k],
{
    write_u16(page, 0x422, c.ss_attrib);
    write_u32(page, 0x424, c.ss_limit);
    write_u64(page, 0x428, c.ss_base);
    write_u16(page, 0x430, c.ds_selector);
    write_u16(page, 0x432, c.ds_attrib);
    write_u32(page, 0x434, c.ds_limit);
    write_u64(page, 0x438, c.ds_base);
    write_u16(page, 0x440, c.fs_selector);
    write_u16(page, 0x442, c.fs_attrib);
}

fn write_group_7(c: &StateSaveArea, page: &mut Vec<u8>)
    requires
        old(page)@.len() == VMCB_SIZE,
    ensures
        final(page)@.len() == VMCB_SIZE,
        c.fs_limit as int == le4(final(page)@, 0x444),
        c.fs_base as int == le8(final(page)@, 0x448),
        c.gs_selector as int == le2(final(page)@, 0x450),
        c.gs_attrib as int == le2(final(page)@, 0x452),
        c.gs_limit as int == le4(final(page)@, 0x454),
        c.gs_base as int == le8(final(page)@, 0x458),
        c.gdtr_selector as int == le2(final(page)@, 0x460),
        c.gdtr_attrib as int == le2(final(page)@, 0x462),
        c.gdtr_limit as int == le4(final(page)@, 0x464),
        forall|k: int|
            0 <= k < VMCB_SIZE && !(0x444 <= k < 0x448 || 0x448 <= k < 0x450 || 0x450 <= k < 0x452 || 0x452 <= k < 0x454 || 0x454 <= k < 0x458 || 0x458 <= k < 0x460 || 0x460 <= k < 0x462 || 0x462 <= k < 0x464 || 0x464 <= k < 0x468) ==> #[trigger] final(page)@[k] == old(page)@[k],
{
    write_u32(page, 0x444, c.fs_limit);
    write_u64(page, 0x448, c.fs_base);
    write_u16(page, 0x450, c.gs_selector);
    write_u16(page, 0x452, c.gs_attrib);
    write_u32(page, 0x454, c.gs_limit);
    write_u64(page, 0x458, c.gs_base);
    write_u16(page, 0x460, c.gdtr_selector);
    write_u16(page, 0x462, c.gdtr_attrib);
    write_u32(page, 0x464, c.gdtr_limit);
}

fn write_group_8(c: &StateSaveArea, page: &mut Vec<u8>)
    requires
        old(page)@.len() == VMCB_SIZE,
    ensures
        final(page)@.len() == VMCB_SIZE,
        c.gdtr_base as int == le8(final(page)@, 0x468),
        c.ldtr_selector as int == le2(final(page)@, 0x470),
        c.ldtr_attrib as int == le2(final(page)@, 0x472),
        c.ldtr_limit as int == le4(final(page)@, 0x474),
        c.ldtr_base as int == le8(final(page)@, 0x478),
        c.idtr_selector as int == le2(final(page)@, 0x480),
        c.idtr_attrib as int == le2(final(page)@, 0x482),
        c.idtr_limit as int == le4(final(page)@, 0x484),
        c.idtr_base as int == le8(final(page)@, 0x488),
        forall|k: int|
            0 <= k < VMCB_SIZE && !(0x468 <= k < 0x470 || 0x470 <= k < 0x472 || 0x472 <= k < 0x474 || 0x474 <= k < 0x478 || 0x478 <= k < 0x480 || 0x480 <= k < 0x482 || 0x482 <= k < 0x484 || 0x484 <= k < 0x488 || 0x488 <= k < 0x490) ==> #[trigger] final(page)@[k] == old(page)@[k],
{
    write_u64(page, 0x468, c.gdtr_base);
    write_u16(page, 0x470, c.ldtr_selector);
    write_u16(page, 0x472, c.ldtr_attrib);
    write_u32(page, 0x474, c.ldtr_limit);
    write_u64(page, 0x478, c.ldtr_base);
    write_u16(page, 0x480, c.idtr_selector);
    write_u16(page, 0x482, c.idtr_attrib);
    write_u32(page, 0x484, c.idtr_limit);
    write_u64(page, 0x488, c.idtr_base);
}

fn write_group_9(c: &StateSaveArea, page: &mut Vec<u8>)
    requires
        old(page)@.len() == VMCB_SIZE,
    ensures
        final(page)@.len() == VMCB_SIZE,
        c.tr_selector as int == le2(final(page)@, 0x490),
        c.tr_attrib as int == le2(final(page)@, 0x492),
        c.tr_limit as int == le4(final(page)@, 0x494),
        c.tr_base as int == le8(final(page)@, 0x498),
        c.cpl as int == final(page)@[0x4cb] as int,
        c.efer as int == le8(final(page)@, 0x4d0),
        c.cr4 as int == le8(final(page)@, 0x548),
        c.cr3 as int == le8(final(page)@, 0x550),
        c.cr0 as int == le8(final(page)@, 0x558),
        forall|k: int|
            0 <= k < VMCB_SIZE && !(0x490 <= k < 0x492 || 0x492 <= k < 0x494 || 0x494 <= k < 0x498 || 0x498 <= k < 0x4a0 || 0x4cb <= k < 0x4cc || 0x4d0 <= k < 0x4d8 || 0x548 <= k < 0x550 || 0x550 <= k < 0x558 || 0x558 <= k < 0x560) ==> #[trigger] final(page)@[k] == old(page)@[k],
{
    write_u16(page, 0x490, c.tr_selector);
    write_u16(page, 0x492, c.tr_attrib);
    write_u32(page, 0x494, c.tr_limit);
    write_u64(page, 0x498, c.tr_base);
    write_u8(page, 0x4cb, c.cpl);
    write_u64(page, 0x4d0, c.efer);
    write_u64(page, 0x548, c.cr4);
    write_u64(page, 0x550, c.cr3);
    write_u64(page, 0x558, c.cr0);
}

fn write_group_10(c: &StateSaveArea, page: &mut Vec<u8>)
    requires
        old(page)@.len() == VMCB_SIZE,
    ensures
        final(page)@.len() == VMCB_SIZE,
        c.dr7 as int == le8(final(page)@, 0x560),
        c.dr6 as int == le8(final(page)@, 0x568),
        c.rflags as int == le8(final(page)@, 0x570),
        c.rip as int == le8(final(page)@, 0x578),
        c.rsp as int == le8(final(page)@, 0x5d8),
        c.s_cet as int == le8(final(page)@, 0x5e0),
        c.ssp as int == le8(final(page)@, 0x5e8),
        c.isst_addr as int == le8(final(page)@, 0x5f0),
        c.rax as int == le8(final(page)@, 0x5f8),
        forall|k: int|
            0 <= k < VMCB_SIZE && !(0x560 <= k < 0x568 || 0x568 <= k < 0x570 || 0x570 <= k < 0x578 || 0x578 <= k < 0x580 || 0x5d8 <= k < 0x5e0 || 0x5e0 <= k < 0x5e8 || 0x5e8 <= k < 0x5f0 || 0x5f0 <= k < 0x5f8 || 0x5f8 <= k < 0x600) ==> #[trigger] final(page)@[k] == old(page)@[k],
{
    write_u64(page, 0x560, c.dr7);
    write_u64(page, 0x568, c.dr6);
    write_u64(page, 0x570, c.rflags);
    write_u64(page, 0x578, c.rip);
    write_u64(page, 0x5d8, c.rsp);
    write_u64(page, 0x5e0, c.s_cet);
    write_u64(page, 0x5e8, c.ssp);
    write_u64(page, 0x5f0, c.isst_addr);
    write_u64(page, 0x5f8, c.rax);
}

fn write_group_11(c: &StateSaveArea, page: &mut Vec<u8>)
    requires
        old(page)@.len() == VMCB_SIZE,
    ensures
        final(page)@.len() == VMCB_SIZE,
        c.star as int == le8(final(page)@, 0x600),
        c.lstar as int == le8(final(page)@, 0x608),
        c.cstar as int == le8(final(page)@, 0x610),
        c.sf_mask as int == le8(final(page)@, 0x618),
        c.kernel_gs_base as int == le8(final(page)@, 0x620),
        c.sysenter_cs as int == le8(final(page)@, 0x628),
        c.sysenter_esp as int == le8(final(page)@, 0x630),
        c.sysenter_eip as int == le8(final(page)@, 0x638),
        c.cr2 as int == le8(final(page)@, 0x640),
        forall|k: int|
            0 <= k < VMCB_SIZE && !(0x600 <= k < 0x608 || 0x608 <= k < 0x610 || 0x610 <= k < 0x618 || 0x618 <= k < 0x620 || 0x620 <= k < 0x628 || 0x628 <= k < 0x630 || 0x630 <= k < 0x638 || 0x638 <= k < 0x640 || 0x640 <= k < 0x648) ==> #[trigger] final(page)@[k] == old(page)@[k],
{
    write_u64(page, 0x600, c.star);
    write_u64(page, 0x608, c.lstar);
    write_u64(page, 0x610, c.cstar);
    write_u64(page, 0x618, c.sf_mask);
    write_u64(page, 0x620, c.kernel_gs_base);
    write_u64(page, 0x628, c.sysenter_cs);
    write_u64(page, 0x630, c.sysenter_esp);
    write_u64(page, 0x638, c.sysenter_eip);
    write_u64(page, 0x640, c.cr2);
}

fn write_group_12(c: &StateSaveArea, page: &mut Vec<u8>)
    requires
        old(page)@.len() == VMCB_SIZE,
    ensures
        final(page)@.len() == VMCB_SIZE,
        c.gpat as int == le8(final(page)@, 0x668),
        c.dbg_ctl as int == le8(final(page)@, 0x670),
        c.br_from as int == le8(final(page)@, 0x678),
        c.br_to as int == le8(final(page)@, 0x680),
        c.last_excep_from as int == le8(final(page)@, 0x688),
        c.last_excep_to as int == le8(final(page)@, 0x690),
        c.spec_ctl as int == le8(final(page)@, 0x6e0),
        forall|k: int|
            0 <= k < VMCB_SIZE && !(0x668 <= k < 0x670 || 0x670 <= k < 0x678 || 0x678 <= k < 0x680 || 0x680 <= k < 0x688 || 0x688 <= k < 0x690 || 0x690 <= k < 0x698 || 0x6e0 <= k < 0x6e8) ==> #[trigger] final(page)@[k] == old(page)@[k],
{
    write_u64(page, 0x668, c.gpat);
    write_u64(page, 0x670, c.dbg_ctl);
    write_u64(page, 0x678, c.br_from);
    write_u64(page, 0x680, c.br_to);
    write_u64(page, 0x688, c.last_excep_from);
    write_u64(page, 0x690, c.last_excep_to);
    write_u64(page, 0x6e0, c.spec_ctl);
}

fn write_control_area(c: &ControlArea, page: &mut Vec<u8>)
    requires
        old(page)@.len() == VMCB_SIZE,
    ensures
        final(page)@.len() == VMCB_SIZE,
        control_area_in_image(*c, final(page)@, 0),
        forall|k: int| 0 <= k < VMCB_SIZE && !control_area_byte(k) ==> #[trigger] final(page)@[k] == old(page)@[k],
{
    write_group_1(c, page);
    write_group_2(c, page);
    write_group_3(c, page);
    write_group_4(c, page);
}

fn write_state_save_area(c: &StateSaveArea, page: &mut Vec<u8>)
    requires
        old(page)@.len() == VMCB_SIZE,
    ensures
        final(page)@.len() == VMCB_SIZE,
        state_save_area_in_image(*c, final(page)@, CONTROL_AREA_SIZE as int),
        forall|k: int| 0 <= k < VMCB_SIZE && !state_save_area_byte(k) ==> #[trigger] final(page)@[k] == old(page)@[k],
        forall|k: int| 0 <= k < CONTROL_AREA_SIZE ==> #[trigger] final(page)@[k] == old(page)@[k],
{
    write_group_5(c, page);
    write_group_6(c, page);
    write_group_7(c, page);
    write_group_8(c, page);
    write_group_9(c, page);
    write_group_10(c, page);
    write_group_11(c, page);
    write_group_12(c, page);
}

fn read_control_area(page: &[u8]) -> (r: ControlArea)
    requires
        page@.len() == VMCB_SIZE,
    ensures
        control_area_in_image(r, page@, 0),
{
    ControlArea {
        intercept_cr_read: read_u16(page, 0x000),
        intercept_cr_write: read_u16(page, 0x002),
        intercept_dr_read: read_u16(page, 0x004),
        intercept_dr_write: read_u16(page, 0x006),
        intercept_exception: read_u32(page, 0x008),
        intercept_misc1: read_u32(page, 0x00c),
        intercept_misc2: read_u32(page, 0x010),
        intercept_misc3: read_u32(page, 0x014),
        pause_filter_threshold: read_u16(page, 0x03c),
        pause_filter_count: read_u16(page, 0x03e),
        iopm_base_pa: read_u64(page, 0x040),
        msrpm_base_pa: read_u64(page, 0x048),
        tsc_offset: read_u64(page, 0x050),
        guest_asid: read_u32(page, 0x058),
        tlb_control: read_u32(page, 0x05c),
        vintr: read_u64(page, 0x060),
        interrupt_shadow: read_u64(page, 0x068),
        exit_code: read_u64(page, 0x070),
        exit_info1: read_u64(page, 0x078),
        exit_info2: read_u64(page, 0x080),
        exit_int_info: read_u64(page, 0x088),
        np_enable: read_u64(page, 0x090),
        avic_apic_bar: read_u64(page, 0x098),
        guest_pa_pf_ghcb: read_u64(page, 0x0a0),
        event_inj: read_u64(page, 0x0a8),
        ncr3: read_u64(page, 0x0b0),
        lbr_virtualization_enable: read_u64(page, 0x0b8),
        vmcb_clean: read_u32(page, 0x0c0),
        nrip: read_u64(page, 0x0c8),
        num_of_bytes_fetched: read_u8(page, 0x0d0),
        guest_instruction_bytes: read_bytes15(page, 0x0d1),
        avic_apic_backing_page_pointer: read_u64(page, 0x0e0),
        avic_logical_table_pointer: read_u64(page, 0x0f0),
        avic_physical_table_pointer: read_u64(page, 0x0f8),
        vmcb_save_state_pointer: read_u64(page, 0x108),
    }
}

fn read_state_save_area(page: &[u8]) -> (r: StateSaveArea)
    requires
        page@.len() == VMCB_SIZE,
    ensures
        state_save_area_in_image(r, page@, CONTROL_AREA_SIZE as int),
{
    StateSaveArea {
        es_selector: read_u16(page, CONTROL_AREA_SIZE + 0x000),
        es_attrib: read_u16(page, CONTROL_AREA_SIZE + 0x002),
        es_limit: read_u32(page, CONTROL_AREA_SIZE + 0x004),
        es_base: read_u64(page, CONTROL_AREA_SIZE + 0x008),
        cs_selector: read_u16(page, CONTROL_AREA_SIZE + 0x010),
        cs_attrib: read_u16(page, CONTROL_AREA_SIZE + 0x012),
        cs_limit: read_u32(page, CONTROL_AREA_SIZE + 0x014),
        cs_base: read_u64(page, CONTROL_AREA_SIZE + 0x018),
        ss_selector: read_u16(page, CONTROL_AREA_SIZE + 0x020),
        ss_attrib: read_u16(page, CONTROL_AREA_SIZE + 0x022),
        ss_limit: read_u32(page, CONTROL_AREA_SIZE + 0x024),
        ss_base: read_u64(page, CONTROL_AREA_SIZE + 0x028),
        ds_selector: read_u16(page, CONTROL_AREA_SIZE + 0x030),
        ds_attrib: read_u16(page, CONTROL_AREA_SIZE + 0x032),
        ds_limit: read_u32(page, CONTROL_AREA_SIZE + 0x034),
        ds_base: read_u64(page, CONTROL_AREA_SIZE + 0x038),
        fs_selector: read_u16(page, CONTROL_AREA_SIZE + 0x040),
        fs_attrib: read_u16(page, CONTROL_AREA_SIZE + 0x042),
        fs_limit: read_u32(page, CONTROL_AREA_SIZE + 0x044),
        fs_base: read_u64(page, CONTROL_AREA_SIZE + 0x048),
        gs_selector: read_u16(page, CONTROL_AREA_SIZE + 0x050),
        gs_attrib: read_u16(page, CONTROL_AREA_SIZE + 0x052),
        gs_limit: read_u32(page, CONTROL_AREA_SIZE + 0x054),
        gs_base: read_u64(page, CONTROL_AREA_SIZE + 0x058),
        gdtr_selector: read_u16(page, CONTROL_AREA_SIZE + 0x060),
        gdtr_attrib: read_u16(page, CONTROL_AREA_SIZE + 0x062),
        gdtr_limit: read_u32(page, CONTROL_AREA_SIZE + 0x064),
        gdtr_base: read_u64(page, CONTROL_AREA_SIZE + 0x068),
        ldtr_selector: read_u16(page, CONTROL_AREA_SIZE + 0x070),
        ldtr_attrib: read_u16(page, CONTROL_AREA_SIZE + 0x072),
        ldtr_limit: read_u32(page, CONTROL_AREA_SIZE + 0x074),
        ldtr_base: read_u64(page, CONTROL_AREA_SIZE + 0x078),
        idtr_selector: read_u16(page, CONTROL_AREA_SIZE + 0x080),
        idtr_attrib: read_u16(page, CONTROL_AREA_SIZE + 0x082),
        idtr_limit: read_u32(page, CONTROL_AREA_SIZE + 0x084),
        idtr_base: read_u64(page, CONTROL_AREA_SIZE + 0x088),
        tr_selector: read_u16(page, CONTROL_AREA_SIZE + 0x090),
        tr_attrib: read_u16(page, CONTROL_AREA_SIZE + 0x092),
        tr_limit: read_u32(page, CONTROL_AREA_SIZE + 0x094),
        tr_base: read_u64(page, CONTROL_AREA_SIZE + 0x098),
        cpl: read_u8(page, CONTROL_AREA_SIZE + 0x0cb),
        efer: read_u64(page, CONTROL_AREA_SIZE + 0x0d0),
        cr4: read_u64(page, CONTROL_AREA_SIZE + 0x148),
        cr3: read_u64(page, CONTROL_AREA_SIZE + 0x150),
        cr0: read_u64(page, CONTROL_AREA_SIZE + 0x158),
        dr7: read_u64(page, CONTROL_AREA_SIZE + 0x160),
        dr6: read_u64(page, CONTROL_AREA_SIZE + 0x168),
        rflags: read_u64(page, CONTROL_AREA_SIZE + 0x170),
        rip: read_u64(page, CONTROL_AREA_SIZE + 0x178),
        rsp: read_u64(page, CONTROL_AREA_SIZE + 0x1d8),
        s_cet: read_u64(page, CONTROL_AREA_SIZE + 0x1e0),
        ssp: read_u64(page, CONTROL_AREA_SIZE + 0x1e8),
        isst_addr: read_u64(page, CONTROL_AREA_SIZE + 0x1f0),
        rax: read_u64(page, CONTROL_AREA_SIZE + 0x1f8),
        star: read_u64(page, CONTROL_AREA_SIZE + 0x200),
        lstar: read_u64(page, CONTROL_AREA_SIZE + 0x208),
        cstar: read_u64(page, CONTROL_AREA_SIZE + 0x210),
        sf_mask: read_u64(page, CONTROL_AREA_SIZE + 0x218),
        kernel_gs_base: read_u64(page, CONTROL_AREA_SIZE + 0x220),
        sysenter_cs: read_u64(page, CONTROL_AREA_SIZE + 0x228),
        sysenter_esp: read_u64(page, CONTROL_AREA_SIZE + 0x230),
        sysenter_eip: read_u64(page, CONTROL_AREA_SIZE + 0x238),
        cr2: read_u64(page, CONTROL_AREA_SIZE + 0x240),
        gpat: read_u64(page, CONTROL_AREA_SIZE + 0x268),
        dbg_ctl: read_u64(page, CONTROL_AREA_SIZE + 0x270),
        br_from: read_u64(page, CONTROL_AREA_SIZE + 0x278),
        br_to: read_u64(page, CONTROL_AREA_SIZE + 0x280),
        last_excep_from: read_u64(page, CONTROL_AREA_SIZE + 0x288),
        last_excep_to: read_u64(page, CONTROL_AREA_SIZE + 0x290),
        spec_ctl: read_u64(page, CONTROL_AREA_SIZE + 0x2e0),
    }
}
/// The fields the processor and this library exchange sit at the offsets
/// that the AMD64 architecture fixes, and the state save area spans
/// 0x2E8 bytes after the 1 KiB control area.
pub proof fn lemma_vmcb_layout(v: VmcbRaw, s: Seq<u8>)
    requires
        control_area_in_image(v.control_area, s, 0),
        state_save_area_in_image(v.state_save_area, s, CONTROL_AREA_SIZE as int),
    ensures
        v.control_area.intercept_misc1 as int == le4(s, 0x00c),
        v.control_area.guest_asid as int == le4(s, 0x058),
        v.control_area.exit_code as int == le8(s, 0x070),
        v.control_area.ncr3 as int == le8(s, 0x0b0),
        v.control_area.nrip as int == le8(s, 0x0c8),
        v.control_area.guest_instruction_bytes@ == s.subrange(0x0d1, 0x0e0),
        v.state_save_area.rip as int == le8(s, 0x578),
        v.state_save_area.rax as int == le8(s, 0x5f8),
        forall|k: int| #[trigger] control_area_byte(k) ==> 0 <= k < CONTROL_AREA_SIZE,
        forall|k: int| #[trigger] state_save_area_byte(k) ==> CONTROL_AREA_SIZE <= k < CONTROL_AREA_SIZE + STATE_SAVE_AREA_SIZE,
        state_save_area_byte(CONTROL_AREA_SIZE + STATE_SAVE_AREA_SIZE - 1),
{
}

/// An image determines the VMCB read from it: reading back a written VMCB
/// gives the same VMCB.
pub proof fn lemma_image_round_trip(a: VmcbRaw, b: VmcbRaw, s: Seq<u8>)
    requires
        control_area_in_image(a.control_area, s, 0),
        state_save_area_in_image(a.state_save_area, s, CONTROL_AREA_SIZE as int),
        control_area_in_image(b.control_area, s, 0),
        state_save_area_in_image(b.state_save_area, s, CONTROL_AREA_SIZE as int),
    ensures
        a == b,
{
    assert(a.control_area.guest_instruction_bytes =~= b.control_area.guest_instruction_bytes);
}

impl VmcbRaw {
    /// Reads a VMCB from its hardware image.
    pub fn from_page(page: &[u8]) -> (r: VmcbRaw)
        requires
            page@.len() == VMCB_SIZE,
        ensures
            control_area_in_image(r.control_area, page@, 0),
            state_save_area_in_image(r.state_save_area, page@, CONTROL_AREA_SIZE as int),
    {
        let control_area = read_control_area(page);
        let state_save_area = read_state_save_area(page);
        VmcbRaw { control_area, state_save_area }
    }

    /// Writes every field into the hardware image `page`, leaving the
    /// reserved bytes between fields as they were.
    #[verifier::rlimit(50)]
    pub fn write_to_page(&self, page: &mut Vec<u8>)
        requires
            old(page)@.len() == VMCB_SIZE,
        ensures
            final(page)@.len() == VMCB_SIZE,
            control_area_in_image(self.control_area, final(page)@, 0),
            state_save_area_in_image(self.state_save_area, final(page)@, CONTROL_AREA_SIZE as int),
            forall|k: int|
                0 <= k < VMCB_SIZE && !control_area_byte(k) && !state_save_area_byte(k) ==> #[trigger] final(page)@[k]
                    == old(page)@[k],
    {
        write_control_area(&self.control_area, page);
        let ghost mid = page@;
        write_state_save_area(&self.state_save_area, page);
        assert(page@.subrange(0x0d1, 0x0e0) =~= mid.subrange(0x0d1, 0x0e0));
    }
}

} // verus!
