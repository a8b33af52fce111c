//! A host GDT that carries a TSS: a copy of the current GDT, extended with
//! a 16-byte TSS descriptor when the current one has none.
use vstd::prelude::*;
use crate::idt::DescriptorTablePointer;
use crate::segment::{
    descriptor_base,
    descriptor_is_16byte,
    resolve_selector,
    SegmentDescriptor,
    SegmentDescriptorRaw,
    SegmentError,
};

verus! {

/// The number of entries a GDT can hold (13-bit selector index).
pub const GDT_MAX_ENTRIES: usize = 8192;

/// Why a host GDT cannot be loaded.
#[derive(Clone, Copy, Debug, PartialEq, Eq, Structural)]
pub enum GdtTssError {
    /// TSS already in use in the current GDT.
    TssAlreadyInUse,
}

/// The low eight bytes of a present, ring-0, available TSS descriptor for
/// `base` and `limit`, each taken modulo 2^32.
pub open spec fn tss_descriptor_bits(base: u64, limit: u64) -> u64 {
    let b = base & 0xffff_ffff;
    let l = limit & 0xffff_ffff;
    ((b & 0xffff) << 16u64) | (l & 0xffff) | (((b >> 16u64) & 0xff) << 32u64) | (9u64 << 40u64) | (1u64
        << 47u64) | (((l >> 16u64) & 0xf) << 48u64) | ((b >> 24u64) << 56u64)
}

/// Relies on x86's `segmentation::DescriptorBuilder` (the 32-bit
/// `GateDescriptorBuilder::tss_descriptor` with `present`, `dpl(Ring0)` and
/// `finish`, then `Descriptor::as_u64`): the descriptor of an available TSS
/// at `base` with `limit`.
#[verifier::external_body]
fn tss_descriptor(base: u64, limit: u64) -> (r: u64)
    ensures
        r == tss_descriptor_bits(base, limit),
{
    let builder = <x86::segmentation::DescriptorBuilder as x86::segmentation::GateDescriptorBuilder<u32>>::tss_descriptor(base, limit, true)
        .present()
        .dpl(x86::Ring::Ring0);
    <x86::segmentation::DescriptorBuilder as x86::segmentation::BuildDescriptor<x86::segmentation::Descriptor>>::finish(&builder).as_u64()
}

/// The TSS descriptor is a 16-byte descriptor whose low half carries the
/// low 32 bits of the base.
pub proof fn lemma_tss_descriptor(base: u64, limit: u64)
    ensures
        descriptor_is_16byte(tss_descriptor_bits(base, limit)),
        descriptor_base(tss_descriptor_bits(base, limit)) == base & 0xffff_ffff,
{
    assert(descriptor_is_16byte(tss_descriptor_bits(base, limit)) && descriptor_base(tss_descriptor_bits(base, limit))
        == base & 0xffff_ffff) by (bit_vector);
}

/// A GDT (its entries), the code selector used with it, and its TSS: the
/// TSS base and the task-register selector, when it has one.
#[derive(Debug)]
pub struct GdtTssRaw {
    pub gdt: Vec<u64>,
    pub cs: u16,
    pub tss_base: Option<u64>,
    pub tr: Option<u16>,
}

/// The GDT with TSS of one processor.
#[derive(Debug)]
pub struct GdtTss {
    pub data: GdtTssRaw,
}

impl GdtTssRaw {
    /// A copy of the current GDT `gdt`, with the current code selector `cs`
    /// and task register `tr` (0 when no TSS is loaded).
    pub fn new_from_current(gdt: Vec<u64>, cs: u16, tr: u16) -> (r: Result<GdtTssRaw, SegmentError>)
        ensures
            tr == 0 ==> r == Ok::<GdtTssRaw, SegmentError>(
                GdtTssRaw { gdt, cs, tss_base: None, tr: None },
            ),
            tr != 0 ==> match resolve_selector(gdt@, tr) {
                Ok(d) => r == Ok::<GdtTssRaw, SegmentError>(
                    GdtTssRaw { gdt, cs, tss_base: Some(d.base_spec()), tr: Some(tr) },
                ),
                Err(e) => r == Err::<GdtTssRaw, SegmentError>(e),
            },
    {
        if tr == 0 {
            return Ok(GdtTssRaw { gdt, cs, tss_base: None, tr: None });
        }
        match SegmentDescriptor::try_from_gdt(gdt.as_slice(), tr) {
            Ok(d) => {
                let base = d.base();
                Ok(GdtTssRaw { gdt, cs, tss_base: Some(base), tr: Some(tr) })
            },
            Err(e) => Err(e),
        }
    }

    /// Appends a 16-byte descriptor for the TSS at `tss_base` with
    /// `tss_limit` and makes it the task register, unless the GDT already has
    /// a TSS. Returns whether it appended.
    pub fn append_tss(&mut self, tss_base: u64, tss_limit: u64) -> (appended: bool)
        requires
            old(self).gdt@.len() + 2 <= GDT_MAX_ENTRIES,
        ensures
            appended == (old(self).tss_base is None && old(self).tr is None),
            !appended ==> final(self).gdt@ == old(self).gdt@ && final(self).tss_base == old(self).tss_base
                && final(self).tr == old(self).tr,
            appended ==> final(self).gdt@ == old(self).gdt@.push(tss_descriptor_bits(tss_base, tss_limit)).push(
                tss_base >> 32u64,
            ),
            appended ==> final(self).tss_base == Some(tss_base),
            appended ==> final(self).tr == Some((old(self).gdt@.len() * 8) as u16),
            final(self).cs == old(self).cs,
    {
        if self.tss_base.is_some() || self.tr.is_some() {
            return false;
        }
        let index = self.gdt.len();
        self.tr = Some((index * 8) as u16);
        self.tss_base = Some(tss_base);
        self.gdt.push(tss_descriptor(tss_base, tss_limit));
        self.gdt.push(tss_base >> 32u64);
        true
    }

    /// Whether the GDT can be loaded on a processor whose task register
    /// holds `current_tr`: only where no TSS is in use yet.
    pub fn check_apply(&self, current_tr: u16) -> (r: Result<(), GdtTssError>)
        ensures
            r == (if current_tr != 0 {
                Err(GdtTssError::TssAlreadyInUse)
            } else {
                Ok(())
            }),
    {
        if current_tr != 0 {
            Err(GdtTssError::TssAlreadyInUse)
        } else {
            Ok(())
        }
    }

    /// The GDTR value that loads this GDT from linear address `base`.
    pub fn gdtr(&self, base: u64) -> (r: DescriptorTablePointer)
        requires
            1 <= self.gdt@.len() <= GDT_MAX_ENTRIES,
        ensures
            r == (DescriptorTablePointer { limit: (self.gdt@.len() * 8 - 1) as u16, base }),
    {
        DescriptorTablePointer { limit: (self.gdt.len() * 8 - 1) as u16, base }
    }
}

/// A TSS appended to a GDT is found again through the new task register,
/// with its full 64-bit base.
pub proof fn lemma_appended_tss_resolves(before: Seq<u64>, tss_base: u64, tss_limit: u64)
    requires
        1 <= before.len(),
        before.len() + 2 <= GDT_MAX_ENTRIES,
    ensures
        ({
            let gdt = before.push(tss_descriptor_bits(tss_base, tss_limit)).push(tss_base >> 32u64);
            let tr = (before.len() * 8) as u16;
            &&& resolve_selector(gdt, tr) is Ok
            &&& resolve_selector(gdt, tr)->Ok_0.base_spec() == tss_base
        }),
{
    let gdt = before.push(tss_descriptor_bits(tss_base, tss_limit)).push(tss_base >> 32u64);
    let n = before.len() as int;
    let tr = (n * 8) as u16;
    assert(tr / 8 == n && (tr / 4) % 2 == 0);
    assert(gdt[n] == tss_descriptor_bits(tss_base, tss_limit));
    assert(gdt[n + 1] == tss_base >> 32u64);
    lemma_tss_descriptor(tss_base, tss_limit);
    let low = tss_descriptor_bits(tss_base, tss_limit);
    assert((tss_base >> 32u64) <= 0xffff_ffff) by (bit_vector);
    assert(((tss_base & 0xffff_ffff) | (((tss_base >> 32u64) as u32) as u64) << 32u64) == tss_base) by (bit_vector);
}

} // verus!
