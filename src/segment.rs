//! Decoding of GDT segment descriptors into the form the SVM state save area
//! expects (base, limit and access rights).
use vstd::prelude::*;

verus! {

/// Descriptor type of an available 64-bit TSS.
pub const TSS_AVAILABLE: u64 = 9;

/// Descriptor type of a busy 64-bit TSS.
pub const TSS_BUSY: u64 = 11;

/// Bit of a selector that marks an LDT reference.
pub const SELECTOR_TI_LDT: u16 = 4;

/// The 32-bit base scattered over a legacy descriptor: base[23:0] sits in
/// bits 39:16 and base[31:24] in bits 63:56.
pub open spec fn descriptor_base(raw: u64) -> u64 {
    ((raw >> 16u64) & 0xff_ffffu64) | ((raw >> 56u64) << 24u64)
}

/// The descriptor type field (bits 43:40).
pub open spec fn descriptor_type(raw: u64) -> u64 {
    (raw >> 40u64) & 0xfu64
}

/// The S flag (bit 44): clear for system descriptors.
pub open spec fn descriptor_s_flag(raw: u64) -> bool {
    (raw >> 44u64) & 1u64 == 1u64
}

/// A 64-bit TSS descriptor (available or busy) occupies two GDT slots.
pub open spec fn descriptor_is_16byte(raw: u64) -> bool {
    !descriptor_s_flag(raw) && (descriptor_type(raw) == TSS_AVAILABLE || descriptor_type(raw)
        == TSS_BUSY)
}

/// The SVM attribute encoding: descriptor bits 47:40 (type, S, DPL, P) in
/// bits 7:0 and bits 55:52 (AVL, L, D/B, G) in bits 11:8.
pub open spec fn access_rights_of(raw: u64) -> u16 {
    (((raw >> 40u64) & 0xffu64) | (((raw >> 52u64) & 0xfu64) << 8u64)) as u16
}

/// The raw 20-bit limit field: bits 15:0 and 51:48.
pub open spec fn raw_limit_of(raw: u64) -> int {
    (raw % 0x1_0000) as int + ((raw / 0x1_0000_0000_0000) % 16) as int * 0x1_0000
}

/// The G flag (bit 55): the limit counts 4 KiB units.
pub open spec fn granularity_of(raw: u64) -> bool {
    (raw / 0x80_0000_0000_0000) % 2 == 1
}

/// The byte-granular limit of a segment: zero for the null selector,
/// otherwise the raw limit, scaled to 4 KiB pages when G is set.
pub open spec fn segment_limit_of(selector: u16, raw: u64) -> int {
    if selector < 4 {
        0
    } else if granularity_of(raw) {
        (raw_limit_of(raw) + 1) * 4096 - 1
    } else {
        raw_limit_of(raw)
    }
}

/// Returns the access rights of a segment, in SVM layout, from the raw
/// descriptor that its selector refers to.
pub fn get_segment_access_right(descriptor_value: u64) -> (r: u16)
    ensures
        r == access_rights_of(descriptor_value),
{
    let ar = (descriptor_value >> 40u64) as u16;
    let upper_ar = (ar >> 4u16) & 0b1111_0000_0000u16;
    let lower_ar = ar & 0b1111_1111u16;
    assert(lower_ar | upper_ar == access_rights_of(descriptor_value)) by (bit_vector)
        requires
            ar == (descriptor_value >> 40u64) as u16,
            upper_ar == (ar >> 4u16) & 0b1111_0000_0000u16,
            lower_ar == ar & 0b1111_1111u16,
    ;
    lower_ar | upper_ar
}

/// Returns the limit of the segment that `selector` refers to, given the raw
/// descriptor it refers to. The null selector yields 0 (unusable).
pub fn get_segment_limit(selector: u16, descriptor_value: u64) -> (r: u32)
    ensures
        r as int == segment_limit_of(selector, descriptor_value),
{
    if (selector >> 2u16) == 0 {
        assert((selector >> 2u16) == 0 ==> selector < 4) by (bit_vector);
        return 0;
    }
    assert((selector >> 2u16) != 0 ==> selector >= 4) by (bit_vector);
    let limit_low = descriptor_value & 0xffff;
    let limit_high = (descriptor_value >> 48u64) & 0xf;
    assert(limit_low == descriptor_value % 0x1_0000) by (bit_vector)
        requires
            limit_low == descriptor_value & 0xffff,
    ;
    assert(limit_high == (descriptor_value / 0x1_0000_0000_0000) % 16) by (bit_vector)
        requires
            limit_high == (descriptor_value >> 48u64) & 0xf,
    ;
    assert((limit_low | (limit_high << 16u64)) == limit_low + limit_high * 0x1_0000) by (bit_vector)
        requires
            limit_low <= 0xffff,
            limit_high <= 0xf,
    ;
    let limit = limit_low | (limit_high << 16u64);
    let granular = (descriptor_value >> 55u64) & 1 != 0;
    assert(granular == granularity_of(descriptor_value)) by (bit_vector)
        requires
            granular == ((descriptor_value >> 55u64) & 1 != 0),
    ;
    if granular {
        (((limit + 1) * 4096) - 1) as u32
    } else {
        limit as u32
    }
}

/// Why a selector could not be resolved to a descriptor.
#[derive(Clone, Copy, Debug, PartialEq, Eq, Structural)]
pub enum SegmentError {
    /// The selector points to the null descriptor.
    NullDescriptor { selector: u16 },
    /// The selector points into the LDT, which is not parsed.
    LdtAccess { selector: u16 },
    /// The index lies outside the GDT.
    OutOfGdtAccess { index: usize },
    /// The upper half of a 16-byte descriptor has its high 32 bits set.
    InvalidGdtEntry { index: usize, entry: u64 },
}

/// The low eight bytes of a segment descriptor.
#[derive(Clone, Copy, Debug, PartialEq, Eq, Structural)]
pub struct SegmentDescriptorRaw {
    pub raw: u64,
}

impl SegmentDescriptorRaw {
    pub fn from(raw: u64) -> (r: SegmentDescriptorRaw)
        ensures
            r.raw == raw,
    {
        SegmentDescriptorRaw { raw }
    }

    /// In 64-bit mode a TSS descriptor is expanded to 16 bytes.
    pub fn is_16byte(&self) -> (r: bool)
        ensures
            r == descriptor_is_16byte(self.raw),
    {
        let raw = self.raw;
        let high32 = raw >> 32u64;
        let system = (high32 >> 12u64) & 1 == 1;
        let type_ = (high32 >> 8u64) & 0xf;
        assert(system == descriptor_s_flag(raw) && type_ == descriptor_type(raw)) by (bit_vector)
            requires
                high32 == raw >> 32u64,
                system == ((high32 >> 12u64) & 1 == 1),
                type_ == (high32 >> 8u64) & 0xf,
        ;
        !system && (type_ == TSS_AVAILABLE || type_ == TSS_BUSY)
    }

    /// The 32-bit base held in the descriptor.
    pub fn base(&self) -> (r: u32)
        ensures
            r as u64 == descriptor_base(self.raw),
    {
        let raw = self.raw;
        let low32 = raw & 0xffff_ffff;
        let high32 = raw >> 32u64;
        let base_high = ((high32 >> 24u64) & 0xff) << 24u64;
        let base_middle = (high32 & 0xff) << 16u64;
        let base_low = (low32 >> 16u64) & 0xffff;
        let b = base_high | base_middle | base_low;
        assert(b == descriptor_base(raw) && b <= 0xffff_ffff) by (bit_vector)
            requires
                low32 == raw & 0xffff_ffff,
                high32 == raw >> 32u64,
                base_high == ((high32 >> 24u64) & 0xff) << 24u64,
                base_middle == (high32 & 0xff) << 16u64,
                base_low == (low32 >> 16u64) & 0xffff,
                b == base_high | base_middle | base_low,
        ;
        b as u32
    }
}

/// A segment descriptor read from the GDT; `upper_base` holds base[63:32]
/// for 16-byte (TSS) descriptors.
#[derive(Clone, Copy, Debug, PartialEq, Eq, Structural)]
pub struct SegmentDescriptor {
    pub low64: SegmentDescriptorRaw,
    pub upper_base: Option<u32>,
}

/// The outcome of resolving `selector` in a GDT whose entries are `gdt`.
pub open spec fn resolve_selector(gdt: Seq<u64>, selector: u16) -> Result<
    SegmentDescriptor,
    SegmentError,
> {
    let index = (selector / 8) as int;
    if (selector / 4) % 2 == 1 {
        Err(SegmentError::LdtAccess { selector })
    } else if index == 0 {
        Err(SegmentError::NullDescriptor { selector })
    } else if index >= gdt.len() {
        Err(SegmentError::OutOfGdtAccess { index: index as usize })
    } else if !descriptor_is_16byte(gdt[index]) {
        Ok(SegmentDescriptor { low64: SegmentDescriptorRaw { raw: gdt[index] }, upper_base: None })
    } else if index + 1 >= gdt.len() {
        Err(SegmentError::OutOfGdtAccess { index: (index + 1) as usize })
    } else if gdt[index + 1] > 0xffff_ffff {
        Err(SegmentError::InvalidGdtEntry { index: (index + 1) as usize, entry: gdt[index + 1] })
    } else {
        Ok(
            SegmentDescriptor {
                low64: SegmentDescriptorRaw { raw: gdt[index] },
                upper_base: Some(gdt[index + 1] as u32),
            },
        )
    }
}

impl SegmentDescriptor {
    /// The full base address: the legacy 32-bit base, extended by the upper
    /// half of a 16-byte descriptor.
    pub open spec fn base_spec(self) -> u64 {
        match self.upper_base {
            Some(upper) => descriptor_base(self.low64.raw) | ((upper as u64) << 32u64),
            None => descriptor_base(self.low64.raw),
        }
    }

    /// Reads the descriptor that `selector` refers to in the GDT whose
    /// entries are `gdt`.
    pub fn try_from_gdt(gdt: &[u64], selector: u16) -> (r: Result<Self, SegmentError>)
        ensures
            r == resolve_selector(gdt@, selector),
    {
        if selector & SELECTOR_TI_LDT != 0 {
            assert(selector & 4u16 != 0 <==> (selector / 4) % 2 == 1) by (bit_vector);
            return Err(SegmentError::LdtAccess { selector });
        }
        assert(selector & 4u16 == 0 <==> (selector / 4) % 2 == 0) by (bit_vector);
        let index = (selector >> 3u16) as usize;
        assert(selector >> 3u16 == selector / 8) by (bit_vector);
        if index == 0 {
            return Err(SegmentError::NullDescriptor { selector });
        }
        if index >= gdt.len() {
            return Err(SegmentError::OutOfGdtAccess { index });
        }
        let low64 = SegmentDescriptorRaw::from(gdt[index]);
        if !low64.is_16byte() {
            return Ok(SegmentDescriptor { low64, upper_base: None });
        }
        let index = index + 1;
        if index >= gdt.len() {
            return Err(SegmentError::OutOfGdtAccess { index });
        }
        let raw = gdt[index];
        if raw > 0xffff_ffff {
            return Err(SegmentError::InvalidGdtEntry { index, entry: raw });
        }
        Ok(SegmentDescriptor { low64, upper_base: Some(raw as u32) })
    }

    /// The base address of the segment.
    pub fn base(&self) -> (r: u64)
        ensures
            r == self.base_spec(),
    {
        match self.upper_base {
            Some(upper_base) => (self.low64.base() as u64) | ((upper_base as u64) << 32u64),
            None => self.low64.base() as u64,
        }
    }
}

} // verus!
