//! Identity-mapping paging structures, for nested paging (guest-physical to
//! host-physical) and for host paging, with the split of the 2 MiB region
//! that holds the local APIC into 4 KiB pages.
//!
//! The structures occupy 516 consecutive 4 KiB tables in physical memory:
//! the PML4, the PDPT, 512 page directories, a page table for the first
//! 2 MiB (host paging only) and a page table for the APIC region. They are
//! modelled as one flat vector of entries, table `t` holding entries
//! `t * 512 .. t * 512 + 512`, and the table at index `t` lies at physical
//! address `phys + t * 4096`.
use vstd::prelude::*;
use vstd::arithmetic::div_mod::{
    lemma_div_denominator,
    lemma_fundamental_div_mod,
    lemma_fundamental_div_mod_converse,
    lemma_mod_breakdown,
    lemma_mod_pos_bound,
    lemma_div_pos_is_pos,
};

verus! {

pub const ENTRIES_PER_TABLE: usize = 512;

pub const TABLE_COUNT: usize = 516;

pub const ENTRY_COUNT: usize = 264192;

pub const PML4_TABLE: usize = 0;

pub const PDPT_TABLE: usize = 1;

pub const FIRST_PD_TABLE: usize = 2;

pub const PT_TABLE: usize = 514;

pub const PT_APIC_TABLE: usize = 515;

pub const BASE_PAGE_SHIFT: u64 = 12;

pub const BASE_PAGE_SIZE: u64 = 0x1000;

pub const LARGE_PAGE_SIZE: u64 = 0x20_0000;

/// The span of one PDPT entry (1 GiB).
pub const PDPT_ENTRY_SPAN: u64 = 0x4000_0000;

/// The span of one PML4 entry, and of the whole identity map (512 GiB).
pub const MAPPED_SIZE: u64 = 0x80_0000_0000;

/// Page frame numbers fit in 40 bits (bits 51:12 of an entry).
pub const PFN_LIMIT: u64 = 0x100_0000_0000;

pub open spec fn present_bit(e: u64) -> bool {
    e & 1 == 1
}

pub open spec fn writable_bit(e: u64) -> bool {
    (e >> 1u64) & 1 == 1
}

pub open spec fn user_bit(e: u64) -> bool {
    (e >> 2u64) & 1 == 1
}

pub open spec fn large_bit(e: u64) -> bool {
    (e >> 7u64) & 1 == 1
}

pub open spec fn pfn_field(e: u64) -> u64 {
    (e >> 12u64) & 0xff_ffff_ffffu64
}

pub open spec fn flag(b: bool, v: u64) -> u64 {
    if b {
        v
    } else {
        0
    }
}

/// The entry with the given present, writable, user and large bits and the
/// given page frame number, every other bit clear.
pub open spec fn entry_bits(p: bool, w: bool, u: bool, l: bool, pfn: u64) -> u64 {
    (pfn << 12u64) | flag(l, 0x80) | flag(u, 4) | flag(w, 2) | flag(p, 1)
}

/// `e` with its writable bit set to `w`.
pub open spec fn with_writable_bits(e: u64, w: bool) -> u64 {
    if w {
        e | 2
    } else {
        e & !2u64
    }
}

pub proof fn lemma_entry_bits(p: bool, w: bool, u: bool, l: bool, pfn: u64)
    requires
        pfn < PFN_LIMIT,
    ensures
        present_bit(entry_bits(p, w, u, l, pfn)) == p,
        writable_bit(entry_bits(p, w, u, l, pfn)) == w,
        user_bit(entry_bits(p, w, u, l, pfn)) == u,
        large_bit(entry_bits(p, w, u, l, pfn)) == l,
        pfn_field(entry_bits(p, w, u, l, pfn)) == pfn,
        forall|w2: bool| with_writable_bits(entry_bits(p, w, u, l, pfn), w2) == entry_bits(p, w2, u, l, pfn),
{
    assert(present_bit(entry_bits(p, w, u, l, pfn)) == p && writable_bit(entry_bits(p, w, u, l, pfn)) == w
        && user_bit(entry_bits(p, w, u, l, pfn)) == u && large_bit(entry_bits(p, w, u, l, pfn)) == l
        && pfn_field(entry_bits(p, w, u, l, pfn)) == pfn) by (bit_vector)
        requires
            pfn < 0x100_0000_0000u64,
    ;
    assert(with_writable_bits(entry_bits(p, w, u, l, pfn), true) == entry_bits(p, true, u, l, pfn)
        && with_writable_bits(entry_bits(p, w, u, l, pfn), false) == entry_bits(p, false, u, l, pfn))
        by (bit_vector)
        requires
            pfn < 0x100_0000_0000u64,
    ;
}

/// A paging-structure entry (PML4E, PDPTE, PDE or PTE).
#[derive(Clone, Copy, Debug, PartialEq, Eq, Structural)]
pub struct Entry(pub u64);

impl Entry {
    pub fn new(present: bool, writable: bool, user: bool, large: bool, pfn: u64) -> (r: Entry)
        requires
            pfn < PFN_LIMIT,
        ensures
            r.0 == entry_bits(present, writable, user, large, pfn),
    {
        let l: u64 = if large { 0x80 } else { 0 };
        let u: u64 = if user { 4 } else { 0 };
        let w: u64 = if writable { 2 } else { 0 };
        let p: u64 = if present { 1 } else { 0 };
        Entry((pfn << 12u64) | l | u | w | p)
    }

    pub fn present(&self) -> (r: bool)
        ensures
            r == present_bit(self.0),
    {
        self.0 & 1 == 1
    }

    pub fn writable(&self) -> (r: bool)
        ensures
            r == writable_bit(self.0),
    {
        (self.0 >> 1u64) & 1 == 1
    }

    pub fn user(&self) -> (r: bool)
        ensures
            r == user_bit(self.0),
    {
        (self.0 >> 2u64) & 1 == 1
    }

    pub fn large(&self) -> (r: bool)
        ensures
            r == large_bit(self.0),
    {
        (self.0 >> 7u64) & 1 == 1
    }

    pub fn pfn(&self) -> (r: u64)
        ensures
            r == pfn_field(self.0),
            r < PFN_LIMIT,
    {
        let v = self.0;
        let r = (v >> 12u64) & 0xff_ffff_ffffu64;
        assert(r < 0x100_0000_0000u64) by (bit_vector)
            requires
                r == (v >> 12u64) & 0xff_ffff_ffffu64,
        ;
        r
    }

    /// The entry with its writable bit set to `writable`.
    pub fn with_writable(&self, writable: bool) -> (r: Entry)
        ensures
            r.0 == with_writable_bits(self.0, writable),
    {
        if writable {
            Entry(self.0 | 2)
        } else {
            Entry(self.0 & !2u64)
        }
    }
}

/// One 4 KiB table of 512 entries.
#[derive(Debug)]
pub struct Table {
    pub entries: Vec<Entry>,
}

/// The top-level table.
#[derive(Debug)]
pub struct Pml4(pub Table);

/// The page-directory-pointer table.
#[derive(Debug)]
pub struct Pdpt(pub Table);

/// A page directory.
#[derive(Debug)]
pub struct Pd(pub Table);

/// A page table of 4 KiB pages.
#[derive(Debug)]
pub struct Pt(pub Table);

/// `t * 512 + e` splits back into the table index `t` and entry index `e`.
pub proof fn lemma_flat_index(t: int, e: int)
    requires
        0 <= e < 512,
    ensures
        (t * 512 + e) / 512 == t,
        (t * 512 + e) % 512 == e,
{
    lemma_fundamental_div_mod_converse(t * 512 + e, 512, t, e);
}

/// The entry at flat index `k` of identity-mapping structures whose first
/// table has frame number `base_pfn`.
pub open spec fn identity_entry(base_pfn: int, npt: bool, k: int) -> u64 {
    let t = k / 512;
    let e = k % 512;
    if t == PML4_TABLE {
        if e == 0 {
            entry_bits(true, true, npt, false, (base_pfn + PDPT_TABLE) as u64)
        } else {
            0
        }
    } else if t == PDPT_TABLE {
        entry_bits(true, true, npt, false, (base_pfn + FIRST_PD_TABLE + e) as u64)
    } else if t < PT_TABLE {
        if !npt && t == FIRST_PD_TABLE && e == 0 {
            entry_bits(true, true, npt, false, (base_pfn + PT_TABLE) as u64)
        } else {
            entry_bits(true, true, npt, true, (((t - FIRST_PD_TABLE) * 512 + e) * 512) as u64)
        }
    } else if t == PT_TABLE {
        if npt {
            0
        } else if e == 0 {
            entry_bits(false, true, false, false, 0)
        } else {
            entry_bits(true, true, false, false, e as u64)
        }
    } else {
        0
    }
}

/// The flat index of the PDE that covers physical address `apic`.
pub open spec fn apic_pde_index(apic: int) -> int {
    (FIRST_PD_TABLE + apic / PDPT_ENTRY_SPAN as int) * 512 + (apic / LARGE_PAGE_SIZE as int) % 512
}

/// The flat index of the PTE in the APIC page table that maps `apic`.
pub open spec fn apic_pte_index(apic: int) -> int {
    PT_APIC_TABLE * 512 + (apic / BASE_PAGE_SIZE as int) % 512
}

/// The entry at flat index `k` of nested identity-mapping structures whose
/// 2 MiB region around `apic` is split into 4 KiB pages, the APIC page
/// itself writable iff `w`.
pub open spec fn split_entry(base_pfn: int, apic: int, w: bool, k: int) -> u64 {
    if k == apic_pde_index(apic) {
        entry_bits(true, true, true, false, (base_pfn + PT_APIC_TABLE) as u64)
    } else if k == apic_pte_index(apic) {
        entry_bits(true, w, true, false, (apic / BASE_PAGE_SIZE as int) as u64)
    } else if k / 512 == PT_APIC_TABLE {
        entry_bits(true, true, true, false, ((apic / LARGE_PAGE_SIZE as int) * 512 + k % 512) as u64)
    } else {
        identity_entry(base_pfn, true, k)
    }
}

/// The result of translating an address through the structures.
pub struct Translation {
    pub phys: int,
    pub writable: bool,
    pub user: bool,
}

/// The paging structures: every table's entries, and the physical address
/// of the first table.
#[derive(Debug)]
pub struct PagingStructuresRaw {
    pub entries: Vec<Entry>,
    pub phys: u64,
}

impl PagingStructuresRaw {
    /// All 516 tables are present, 4 KiB-aligned, and every table's frame
    /// number fits in an entry.
    pub open spec fn wf(self) -> bool {
        &&& self.entries@.len() == ENTRY_COUNT
        &&& self.phys % 4096 == 0
        &&& self.phys / 4096 + TABLE_COUNT < PFN_LIMIT
    }

    pub open spec fn base_pfn(self) -> int {
        self.phys as int / 4096
    }

    /// Entry `e` of table `t`.
    pub open spec fn entry_at(self, t: int, e: int) -> u64 {
        self.entries@[t * 512 + e].0
    }

    /// The table index of the table with frame number `pfn`.
    pub open spec fn table_of(self, pfn: u64) -> int {
        pfn as int - self.base_pfn()
    }

    /// The identity map built for nested (`npt`) or host paging.
    pub open spec fn is_identity(self, npt: bool) -> bool {
        forall|k: int| 0 <= k < ENTRY_COUNT ==> #[trigger] self.entries@[k].0 == identity_entry(self.base_pfn(), npt, k)
    }

    /// The nested identity map with the 2 MiB region around the 4 KiB-aligned
    /// `apic` split into 4 KiB pages, the APIC page writable iff `w`.
    pub open spec fn is_apic_split(self, apic: int, w: bool) -> bool {
        &&& 0 <= apic < MAPPED_SIZE
        &&& apic % 4096 == 0
        &&& forall|k: int| 0 <= k < ENTRY_COUNT ==> #[trigger] self.entries@[k].0 == split_entry(self.base_pfn(), apic, w, k)
    }

    /// The four-level walk of `addr` through these structures. A walk that
    /// leaves them, meets a non-present entry or a 1 GiB leaf (which these
    /// structures never hold) yields `None`.
    pub open spec fn walk(self, addr: int) -> Option<Translation> {
        let l4 = self.entry_at(PML4_TABLE as int, (addr / MAPPED_SIZE as int) % 512);
        let t3 = self.table_of(pfn_field(l4));
        let l3 = self.entry_at(t3, (addr / PDPT_ENTRY_SPAN as int) % 512);
        let t2 = self.table_of(pfn_field(l3));
        let l2 = self.entry_at(t2, (addr / LARGE_PAGE_SIZE as int) % 512);
        let t1 = self.table_of(pfn_field(l2));
        let l1 = self.entry_at(t1, (addr / BASE_PAGE_SIZE as int) % 512);
        if !(0 <= addr < 0x1_0000_0000_0000) || !present_bit(l4) || !(0 <= t3 < TABLE_COUNT)
            || !present_bit(l3) || large_bit(l3) || !(0 <= t2 < TABLE_COUNT) || !present_bit(l2) {
            None
        } else if large_bit(l2) {
            Some(
                Translation {
                    phys: (pfn_field(l2) / 512) as int * LARGE_PAGE_SIZE + addr % LARGE_PAGE_SIZE as int,
                    writable: writable_bit(l4) && writable_bit(l3) && writable_bit(l2),
                    user: user_bit(l4) && user_bit(l3) && user_bit(l2),
                },
            )
        } else if !(0 <= t1 < TABLE_COUNT) || !present_bit(l1) {
            None
        } else {
            Some(
                Translation {
                    phys: pfn_field(l1) as int * BASE_PAGE_SIZE + addr % BASE_PAGE_SIZE as int,
                    writable: writable_bit(l4) && writable_bit(l3) && writable_bit(l2) && writable_bit(l1),
                    user: user_bit(l4) && user_bit(l3) && user_bit(l2) && user_bit(l1),
                },
            )
        }
    }

    /// Zeroed structures whose first table lies at physical address `phys`.
    pub fn new(phys: u64) -> (r: PagingStructuresRaw)
        requires
            phys % 4096 == 0,
            phys / 4096 + TABLE_COUNT < PFN_LIMIT,
        ensures
            r.wf(),
            r.phys == phys,
            forall|k: int| 0 <= k < ENTRY_COUNT ==> #[trigger] r.entries@[k].0 == 0,
    {
        let mut entries: Vec<Entry> = Vec::new();
        let mut k: usize = 0;
        while k < ENTRY_COUNT
            invariant
                k <= ENTRY_COUNT,
                entries@.len() == k,
                forall|i: int| 0 <= i < k ==> #[trigger] entries@[i].0 == 0,
            decreases ENTRY_COUNT - k,
        {
            entries.push(Entry(0));
            k = k + 1;
        }
        PagingStructuresRaw { entries, phys }
    }

    /// The physical address of the PML4, the root of the structures.
    pub fn pa(&self) -> (r: u64)
        ensures
            r == self.phys,
    {
        self.phys
    }

    /// Entry `index` of the flat entry vector.
    pub fn entry(&self, index: usize) -> (r: Entry)
        requires
            index < self.entries@.len(),
        ensures
            r == self.entries@[index as int],
    {
        self.entries[index]
    }

    /// A copy of table `t`.
    pub fn table(&self, t: usize) -> (r: Table)
        requires
            self.wf(),
            t < TABLE_COUNT,
        ensures
            r.entries@ == self.entries@.subrange(t * 512, t * 512 + 512),
    {
        let mut entries: Vec<Entry> = Vec::new();
        let mut e: usize = 0;
        while e < ENTRIES_PER_TABLE
            invariant
                self.wf(),
                t < TABLE_COUNT,
                e <= 512,
                entries@ == self.entries@.subrange(t * 512, t * 512 + e),
            decreases 512 - e,
        {
            entries.push(self.entries[t * ENTRIES_PER_TABLE + e]);
            e = e + 1;
            assert(entries@ =~= self.entries@.subrange(t * 512, t * 512 + e));
        }
        Table { entries }
    }

    /// Fills the structures so that every address below 512 GiB maps to
    /// itself: PML4[0] refers to the PDPT, PDPT[i] to PD[i], and PD[i][j] is
    /// a 2 MiB leaf for frame `(i << 30) | (j << 21)`, all writable, with the
    /// user bit equal to `npt`. For host paging (`!npt`) the first 2 MiB go
    /// through the 4 KiB table instead, whose first page is left non-present
    /// so that null accesses fault.
    pub fn build_identity_internal(&mut self, npt: bool)
        requires
            old(self).wf(),
        ensures
            final(self).wf(),
            final(self).phys == old(self).phys,
            final(self).is_identity(npt),
    {
        let user = npt;
        let base_pfn = self.phys / 4096;
        let ghost bp = base_pfn as int;
        let mut v: Vec<Entry> = Vec::new();

        proof {
            lemma_flat_index(0, 0);
        }
        v.push(Entry::new(true, true, user, false, base_pfn + PDPT_TABLE as u64));
        let mut e: usize = 1;
        while e < ENTRIES_PER_TABLE
            invariant
                1 <= e <= 512,
                v@.len() == e,
                forall|k: int| 0 <= k < v@.len() ==> #[trigger] v@[k].0 == identity_entry(bp, npt, k),
            decreases 512 - e,
        {
            proof {
                lemma_flat_index(0, e as int);
            }
            v.push(Entry(0));
            e = e + 1;
        }

        let mut e: usize = 0;
        while e < ENTRIES_PER_TABLE
            invariant
                e <= 512,
                v@.len() == 512 + e,
                base_pfn == bp,
                bp + TABLE_COUNT < PFN_LIMIT,
                user == npt,
                forall|k: int| 0 <= k < v@.len() ==> #[trigger] v@[k].0 == identity_entry(bp, npt, k),
            decreases 512 - e,
        {
            proof {
                lemma_flat_index(1, e as int);
            }
            v.push(Entry::new(true, true, user, false, base_pfn + FIRST_PD_TABLE as u64 + e as u64));
            e = e + 1;
        }

        // `frame` is the frame number of the next physical address to map.
        let mut frame: u64 = 0;
        let mut i: usize = 0;
        while i < ENTRIES_PER_TABLE
            invariant
                i <= 512,
                v@.len() == 1024 + i * 512,
                frame == i * 512 * 512,
                base_pfn == bp,
                bp + TABLE_COUNT < PFN_LIMIT,
                user == npt,
                forall|k: int| 0 <= k < v@.len() ==> #[trigger] v@[k].0 == identity_entry(bp, npt, k),
            decreases 512 - i,
        {
            let mut j: usize = 0;
            while j < ENTRIES_PER_TABLE
                invariant
                    i < 512,
                    j <= 512,
                    v@.len() == 1024 + i * 512 + j,
                    frame == (i * 512 + j) * 512,
                    base_pfn == bp,
                    bp + TABLE_COUNT < PFN_LIMIT,
                    user == npt,
                    forall|k: int| 0 <= k < v@.len() ==> #[trigger] v@[k].0 == identity_entry(bp, npt, k),
                decreases 512 - j,
            {
                proof {
                    lemma_flat_index(FIRST_PD_TABLE + i, j as int);
                }
                if !npt && i == 0 && j == 0 {
                    v.push(Entry::new(true, true, user, false, base_pfn + PT_TABLE as u64));
                } else {
                    v.push(Entry::new(true, true, user, true, frame));
                }
                frame = frame + 512;
                j = j + 1;
            }
            i = i + 1;
        }

        let mut e: usize = 0;
        while e < ENTRIES_PER_TABLE
            invariant
                e <= 512,
                v@.len() == PT_TABLE * 512 + e,
                user == npt,
                forall|k: int| 0 <= k < v@.len() ==> #[trigger] v@[k].0 == identity_entry(bp, npt, k),
            decreases 512 - e,
        {
            proof {
                lemma_flat_index(PT_TABLE as int, e as int);
            }
            if npt {
                v.push(Entry(0));
            } else if e == 0 {
                // The null page stays non-present so that null accesses fault.
                v.push(Entry::new(false, true, user, false, 0));
            } else {
                v.push(Entry::new(true, true, user, false, e as u64));
            }
            e = e + 1;
        }

        let mut e: usize = 0;
        while e < ENTRIES_PER_TABLE
            invariant
                e <= 512,
                v@.len() == PT_APIC_TABLE * 512 + e,
                forall|k: int| 0 <= k < v@.len() ==> #[trigger] v@[k].0 == identity_entry(bp, npt, k),
            decreases 512 - e,
        {
            proof {
                lemma_flat_index(PT_APIC_TABLE as int, e as int);
            }
            v.push(Entry(0));
            e = e + 1;
        }
        self.entries = v;
    }
}

/// How an address below 512 GiB splits into its table indices and offsets.
pub proof fn lemma_address_parts(addr: int)
    requires
        0 <= addr < MAPPED_SIZE,
    ensures
        (addr / MAPPED_SIZE as int) % 512 == 0,
        0 <= addr / PDPT_ENTRY_SPAN as int <= 511,
        (addr / PDPT_ENTRY_SPAN as int) % 512 == addr / PDPT_ENTRY_SPAN as int,
        0 <= (addr / LARGE_PAGE_SIZE as int) % 512 <= 511,
        0 <= (addr / BASE_PAGE_SIZE as int) % 512 <= 511,
        0 <= addr % BASE_PAGE_SIZE as int <= 4095,
        addr / LARGE_PAGE_SIZE as int == (addr / PDPT_ENTRY_SPAN as int) * 512 + (addr
            / LARGE_PAGE_SIZE as int) % 512,
        addr / BASE_PAGE_SIZE as int == (addr / LARGE_PAGE_SIZE as int) * 512 + (addr
            / BASE_PAGE_SIZE as int) % 512,
        addr == (addr / BASE_PAGE_SIZE as int) * 4096 + addr % BASE_PAGE_SIZE as int,
        addr % LARGE_PAGE_SIZE as int == ((addr / BASE_PAGE_SIZE as int) % 512) * 4096 + addr
            % BASE_PAGE_SIZE as int,
        addr == (addr / LARGE_PAGE_SIZE as int) * LARGE_PAGE_SIZE + addr % LARGE_PAGE_SIZE as int,
{
    let big = MAPPED_SIZE as int;
    let gib = PDPT_ENTRY_SPAN as int;
    let two_mib = LARGE_PAGE_SIZE as int;
    lemma_fundamental_div_mod_converse(addr, big, 0, addr);
    lemma_fundamental_div_mod_converse(0, 512, 0, 0);
    lemma_fundamental_div_mod(addr, gib);
    lemma_mod_pos_bound(addr, gib);
    let q1 = addr / gib;
    lemma_div_pos_is_pos(addr, gib);
    lemma_fundamental_div_mod_converse(q1, 512, 0, q1);
    let q = addr / two_mib;
    lemma_div_pos_is_pos(addr, two_mib);
    lemma_div_denominator(addr, two_mib, 512);
    lemma_fundamental_div_mod(q, 512);
    lemma_mod_pos_bound(q, 512);
    lemma_fundamental_div_mod(addr, two_mib);
    lemma_mod_pos_bound(addr, two_mib);
    let p = addr / 4096;
    lemma_div_pos_is_pos(addr, 4096);
    lemma_div_denominator(addr, 4096, 512);
    lemma_fundamental_div_mod(p, 512);
    lemma_mod_pos_bound(p, 512);
    lemma_fundamental_div_mod(addr, 4096);
    lemma_mod_pos_bound(addr, 4096);
    lemma_mod_breakdown(addr, 4096, 512);
}

/// Built for nested paging, or for host paging away from the null page,
/// the structures map every address below 512 GiB to itself, writable, with
/// the user bit equal to `npt`.
pub proof fn lemma_identity_walk(ps: PagingStructuresRaw, npt: bool, addr: int)
    requires
        ps.wf(),
        ps.is_identity(npt),
        0 <= addr < MAPPED_SIZE,
        npt || addr >= BASE_PAGE_SIZE,
    ensures
        ps.walk(addr) == Some(Translation { phys: addr, writable: true, user: npt }),
{
    lemma_address_parts(addr);
    let bp = ps.base_pfn();
    let i = addr / PDPT_ENTRY_SPAN as int;
    let j = (addr / LARGE_PAGE_SIZE as int) % 512;
    let m = (addr / BASE_PAGE_SIZE as int) % 512;
    lemma_flat_index(0, 0);
    assert(ps.entries@[0].0 == identity_entry(bp, npt, 0));
    lemma_entry_bits(true, true, npt, false, (bp + 1) as u64);
    lemma_flat_index(1, i);
    assert(ps.entries@[512 + i].0 == identity_entry(bp, npt, 512 + i));
    lemma_entry_bits(true, true, npt, false, (bp + 2 + i) as u64);
    lemma_flat_index(2 + i, j);
    assert(ps.entries@[(2 + i) * 512 + j].0 == identity_entry(bp, npt, (2 + i) * 512 + j));
    if npt || i != 0 || j != 0 {
        lemma_entry_bits(true, true, npt, true, ((i * 512 + j) * 512) as u64);
        lemma_fundamental_div_mod_converse((i * 512 + j) * 512, 512, i * 512 + j, 0);
    } else {
        lemma_entry_bits(true, true, false, false, (bp + PT_TABLE) as u64);
        lemma_flat_index(PT_TABLE as int, m);
        assert(ps.entries@[PT_TABLE * 512 + m].0 == identity_entry(bp, npt, PT_TABLE * 512 + m));
        lemma_entry_bits(true, true, false, false, m as u64);
    }
}

/// After the APIC split the structures still map every address below
/// 512 GiB to itself for the guest (user set), writable except the APIC page
/// when its write interception is armed.
pub proof fn lemma_split_walk(ps: PagingStructuresRaw, apic: int, w: bool, addr: int)
    requires
        ps.wf(),
        ps.is_apic_split(apic, w),
        0 <= addr < MAPPED_SIZE,
    ensures
        ps.walk(addr) == Some(
            Translation {
                phys: addr,
                writable: addr / BASE_PAGE_SIZE as int != apic / BASE_PAGE_SIZE as int || w,
                user: true,
            },
        ),
{
    lemma_address_parts(addr);
    lemma_address_parts(apic);
    let bp = ps.base_pfn();
    let i = addr / PDPT_ENTRY_SPAN as int;
    let j = (addr / LARGE_PAGE_SIZE as int) % 512;
    let m = (addr / BASE_PAGE_SIZE as int) % 512;
    let am = (apic / BASE_PAGE_SIZE as int) % 512;
    lemma_flat_index(0, 0);
    assert(ps.entries@[0].0 == split_entry(bp, apic, w, 0));
    lemma_entry_bits(true, true, true, false, (bp + 1) as u64);
    lemma_flat_index(1, i);
    assert(ps.entries@[512 + i].0 == split_entry(bp, apic, w, 512 + i));
    lemma_entry_bits(true, true, true, false, (bp + 2 + i) as u64);
    lemma_flat_index(2 + i, j);
    let k2 = (2 + i) * 512 + j;
    assert(ps.entries@[k2].0 == split_entry(bp, apic, w, k2));
    if k2 == apic_pde_index(apic) {
        lemma_entry_bits(true, true, true, false, (bp + PT_APIC_TABLE) as u64);
        lemma_flat_index(PT_APIC_TABLE as int, m);
        let k1 = PT_APIC_TABLE * 512 + m;
        assert(ps.entries@[k1].0 == split_entry(bp, apic, w, k1));
        if m == am {
            lemma_entry_bits(true, w, true, false, (apic / BASE_PAGE_SIZE as int) as u64);
        } else {
            lemma_entry_bits(
                true,
                true,
                true,
                false,
                ((apic / LARGE_PAGE_SIZE as int) * 512 + m) as u64,
            );
        }
    } else {
        lemma_entry_bits(true, true, true, true, ((i * 512 + j) * 512) as u64);
        lemma_fundamental_div_mod_converse((i * 512 + j) * 512, 512, i * 512 + j, 0);
    }
}

/// Why the APIC region could not be split.
#[derive(Clone, Copy, Debug, PartialEq, Eq, Structural)]
pub enum PagingError {
    /// The APIC page lies above the 512 GiB that the structures map.
    ApicOutsideMap,
}

impl PagingStructuresRaw {
    /// Replaces the 2 MiB leaf at flat index `pde_index`, which covers the
    /// 4 KiB-aligned address `apic`, by a reference to the APIC page table,
    /// filled with 512 4 KiB pages over the same range that inherit the
    /// leaf's writable and user bits.
    fn split_2mb(&mut self, pde_index: usize, Ghost(apic): Ghost<int>)
        requires
            old(self).wf(),
            old(self).is_identity(true),
            0 <= apic < MAPPED_SIZE,
            apic % 4096 == 0,
            pde_index == apic_pde_index(apic),
        ensures
            final(self).wf(),
            final(self).phys == old(self).phys,
            final(self).is_apic_split(apic, true),
    {
        let ghost bp = self.base_pfn();
        let ghost region = apic / LARGE_PAGE_SIZE as int;
        proof {
            lemma_address_parts(apic);
            let i = apic / PDPT_ENTRY_SPAN as int;
            let j = (apic / LARGE_PAGE_SIZE as int) % 512;
            lemma_flat_index(2 + i, j);
            assert(self.entries@[pde_index as int].0 == identity_entry(bp, true, pde_index as int));
            lemma_entry_bits(true, true, true, true, ((i * 512 + j) * 512) as u64);
        }
        let pde = self.entries[pde_index];
        let writable = pde.writable();
        let user = pde.user();
        let pfn = pde.pfn();
        assert(pfn == region * 512);
        let ghost before = self.entries@;
        let mut k: usize = 0;
        while k < ENTRIES_PER_TABLE
            invariant
                self.wf(),
                self.phys as int / 4096 == bp,
                bp + TABLE_COUNT < PFN_LIMIT,
                k <= 512,
                writable && user,
                pfn == region * 512,
                0 <= region < 512 * 512,
                before.len() == ENTRY_COUNT,
                forall|x: int| 0 <= x < ENTRY_COUNT ==> #[trigger] before[x].0 == identity_entry(bp, true, x),
                forall|x: int|
                    0 <= x < ENTRY_COUNT && !(PT_APIC_TABLE * 512 <= x < PT_APIC_TABLE * 512 + k)
                        ==> #[trigger] self.entries@[x] == before[x],
                forall|e: int|
                    0 <= e < k ==> #[trigger] self.entries@[PT_APIC_TABLE * 512 + e].0 == entry_bits(
                        true,
                        true,
                        true,
                        false,
                        (region * 512 + e) as u64,
                    ),
            decreases 512 - k,
        {
            self.entries.set(PT_APIC_TABLE * ENTRIES_PER_TABLE + k, Entry::new(true, writable, user, false, pfn + k as u64));
            k = k + 1;
        }
        let pt_pfn = self.phys / 4096 + PT_APIC_TABLE as u64;
        self.entries.set(pde_index, Entry::new(true, writable, user, false, pt_pfn));
        proof {
            assert forall|x: int| 0 <= x < ENTRY_COUNT implies #[trigger] self.entries@[x].0 == split_entry(
                bp,
                apic,
                true,
                x,
            ) by {
                lemma_fundamental_div_mod(x, 512);
                lemma_mod_pos_bound(x, 512);
                if x != pde_index && x / 512 == PT_APIC_TABLE {
                    let e = x % 512;
                    assert(self.entries@[PT_APIC_TABLE * 512 + e].0 == entry_bits(
                        true,
                        true,
                        true,
                        false,
                        (region * 512 + e) as u64,
                    ));
                    lemma_address_parts(apic);
                } else if x != pde_index {
                    assert(self.entries@[x] == before[x]);
                    assert(x != apic_pte_index(apic));
                }
            }
        }
    }
}

/// The process-wide nested paging structures, and the APIC page whose
/// region they split.
#[derive(Debug)]
pub struct NestedPageTables {
    pub data: PagingStructuresRaw,
    pub apic_base: u64,
}

impl NestedPageTables {
    /// Whether the APIC page is mapped writable.
    pub open spec fn apic_writable(self) -> bool {
        writable_bit(self.data.entries@[apic_pte_index(self.apic_base as int)].0)
    }

    /// The identity map with the APIC region split around `apic_base`.
    pub open spec fn is_split(self) -> bool {
        self.data.wf() && self.data.is_apic_split(self.apic_base as int, self.apic_writable())
    }

    /// Zeroed structures whose first table lies at physical address `phys`.
    pub fn new(phys: u64) -> (r: NestedPageTables)
        requires
            phys % 4096 == 0,
            phys / 4096 + TABLE_COUNT < PFN_LIMIT,
        ensures
            r.data.wf(),
            r.data.phys == phys,
            forall|k: int| 0 <= k < ENTRY_COUNT ==> #[trigger] r.data.entries@[k].0 == 0,
    {
        NestedPageTables { data: PagingStructuresRaw::new(phys), apic_base: 0 }
    }

    /// Builds the nested identity map (user bit set, no null-page hole).
    pub fn build_identity(&mut self)
        requires
            old(self).data.wf(),
        ensures
            final(self).data.wf(),
            final(self).data.phys == old(self).data.phys,
            final(self).data.is_identity(true),
    {
        self.data.build_identity_internal(true);
    }

    /// Splits the 2 MiB region holding the local APIC, whose base is read
    /// from the IA32_APIC_BASE value `apic_base_msr`, into 4 KiB pages so
    /// that the APIC page alone can be write-protected.
    pub fn split_apic_page(&mut self, apic_base_msr: u64) -> (r: Result<(), PagingError>)
        requires
            old(self).data.wf(),
            old(self).data.is_identity(true),
        ensures
            final(self).data.wf(),
            final(self).data.phys == old(self).data.phys,
            r is Ok <==> apic_base_msr - apic_base_msr % 4096 < MAPPED_SIZE,
            r is Ok ==> final(self).apic_base == apic_base_msr - apic_base_msr % 4096
                && final(self).is_split() && final(self).apic_writable(),
            r is Err ==> final(self).data.entries@ == old(self).data.entries@
                && final(self).apic_base == old(self).apic_base,
    {
        let apic = apic_base_msr & !0xfffu64;
        assert(apic == apic_base_msr - apic_base_msr % 4096) by (bit_vector)
            requires
                apic == apic_base_msr & !0xfffu64,
        ;
        if apic >= MAPPED_SIZE {
            return Err(PagingError::ApicOutsideMap);
        }
        assert(apic % 4096 == 0) by (bit_vector)
            requires
                apic == apic_base_msr & !0xfffu64,
        ;
        proof {
            lemma_address_parts(apic as int);
        }
        let pdpt_index = (apic / PDPT_ENTRY_SPAN) as usize;
        let pd_index = ((apic / LARGE_PAGE_SIZE) % 512) as usize;
        let pde_index = (FIRST_PD_TABLE + pdpt_index) * ENTRIES_PER_TABLE + pd_index;
        self.data.split_2mb(pde_index, Ghost(apic as int));
        self.apic_base = apic;
        proof {
            lemma_address_parts(apic as int);
            let q = apic_pte_index(apic as int);
            lemma_flat_index(PT_APIC_TABLE as int, (apic as int / 4096) % 512);
            assert(self.data.entries@[q].0 == split_entry(self.data.base_pfn(), apic as int, true, q));
            lemma_entry_bits(true, true, true, false, (apic / 4096) as u64);
        }
        Ok(())
    }

    /// Sets whether the APIC page is writable; while it is not, every guest
    /// write to the APIC page exits with a nested page fault.
    pub fn set_apic_page_writable(&mut self, writable: bool)
        requires
            old(self).is_split(),
        ensures
            final(self).is_split(),
            final(self).apic_writable() == writable,
            final(self).apic_base == old(self).apic_base,
            final(self).data.phys == old(self).data.phys,
    {
        let ghost apic = self.apic_base as int;
        let ghost w0 = self.apic_writable();
        let ghost bp = self.data.base_pfn();
        proof {
            lemma_address_parts(apic);
            lemma_flat_index(PT_APIC_TABLE as int, (apic / 4096) % 512);
            lemma_entry_bits(true, w0, true, false, (apic / 4096) as u64);
            lemma_entry_bits(true, writable, true, false, (apic / 4096) as u64);
        }
        let index = PT_APIC_TABLE * ENTRIES_PER_TABLE + ((self.apic_base / BASE_PAGE_SIZE) % 512) as usize;
        assert(self.data.entries@[index as int].0 == split_entry(bp, apic, w0, index as int));
        let entry = self.data.entries[index].with_writable(writable);
        self.data.entries.set(index, entry);
        proof {
            assert forall|x: int| 0 <= x < ENTRY_COUNT implies #[trigger] self.data.entries@[x].0
                == split_entry(bp, apic, writable, x) by {
                if x != index {
                    assert(self.data.entries@[x] == old(self).data.entries@[x]);
                    assert(old(self).data.entries@[x].0 == split_entry(bp, apic, w0, x));
                }
            }
        }
    }

    /// The flat index of the entry that maps the APIC page.
    pub fn apic_pte_index(&self) -> (r: usize)
        ensures
            r == apic_pte_index(self.apic_base as int),
    {
        PT_APIC_TABLE * ENTRIES_PER_TABLE + ((self.apic_base / BASE_PAGE_SIZE) % 512) as usize
    }

    /// A copy of the page table of the APIC region.
    pub fn apic_pt(&self) -> (r: Pt)
        requires
            self.data.wf(),
        ensures
            r.0.entries@ == self.data.entries@.subrange(PT_APIC_TABLE * 512, PT_APIC_TABLE * 512 + 512),
    {
        Pt(self.data.table(PT_APIC_TABLE))
    }

    /// The physical address of the nested PML4 (the value for nCR3).
    pub fn pa(&self) -> (r: u64)
        ensures
            r == self.data.phys,
    {
        self.data.pa()
    }
}

/// Paging structures for the host: an identity map of the first 512 GiB
/// with a non-present null page.
#[derive(Debug)]
pub struct PagingStructures {
    pub data: PagingStructuresRaw,
}

impl PagingStructures {
    /// Zeroed structures whose first table lies at physical address `phys`.
    pub fn new(phys: u64) -> (r: PagingStructures)
        requires
            phys % 4096 == 0,
            phys / 4096 + TABLE_COUNT < PFN_LIMIT,
        ensures
            r.data.wf(),
            r.data.phys == phys,
            forall|k: int| 0 <= k < ENTRY_COUNT ==> #[trigger] r.data.entries@[k].0 == 0,
    {
        PagingStructures { data: PagingStructuresRaw::new(phys) }
    }

    /// Builds the host identity map.
    pub fn build_identity(&mut self)
        requires
            old(self).data.wf(),
        ensures
            final(self).data.wf(),
            final(self).data.phys == old(self).data.phys,
            final(self).data.is_identity(false),
    {
        self.data.build_identity_internal(false);
    }

    /// The physical address of the PML4 (the value for CR3).
    pub fn pa(&self) -> (r: u64)
        ensures
            r == self.data.phys,
    {
        self.data.pa()
    }
}

} // verus!
