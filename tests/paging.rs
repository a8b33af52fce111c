use hypervisor::paging::{PagingError, PagingStructuresRaw, ENTRY_COUNT, PT_APIC_TABLE};
use hypervisor::{Entry, NestedPageTables, PagingStructures};

const BASE: u64 = 0x1000_0000;

/// Walks the structures in software: (physical address, writable, user).
fn walk(ps: &PagingStructuresRaw, addr: u64) -> Option<(u64, bool, bool)> {
    let base_pfn = ps.pa() >> 12;
    let table = |pfn: u64| -> Option<usize> {
        if pfn < base_pfn || pfn - base_pfn >= 516 {
            None
        } else {
            Some((pfn - base_pfn) as usize)
        }
    };
    let l4 = ps.entry(((addr >> 39) & 511) as usize);
    if !l4.present() {
        return None;
    }
    let t3 = table(l4.pfn())?;
    let l3 = ps.entry(t3 * 512 + ((addr >> 30) & 511) as usize);
    if !l3.present() || l3.large() {
        return None;
    }
    let t2 = table(l3.pfn())?;
    let l2 = ps.entry(t2 * 512 + ((addr >> 21) & 511) as usize);
    if !l2.present() {
        return None;
    }
    let w = l4.writable() && l3.writable() && l2.writable();
    let u = l4.user() && l3.user() && l2.user();
    if l2.large() {
        return Some(((l2.pfn() >> 9 << 21) | (addr & 0x1f_ffff), w, u));
    }
    let t1 = table(l2.pfn())?;
    let l1 = ps.entry(t1 * 512 + ((addr >> 12) & 511) as usize);
    if !l1.present() {
        return None;
    }
    Some(((l1.pfn() << 12) | (addr & 0xfff), w && l1.writable(), u && l1.user()))
}

const SAMPLES: [u64; 8] = [
    0,
    0x1000,
    0x1234_5678,
    0x3fff_ffff,
    0x4000_0000,
    0xfee0_0000,
    0x12_3456_7abc,
    0x7f_ffff_ffff,
];

#[test]
fn entry_fields_round_trip() {
    let e = Entry::new(true, false, true, true, 0xab_cdef_1234);
    assert!(e.present());
    assert!(!e.writable());
    assert!(e.user());
    assert!(e.large());
    assert_eq!(e.pfn(), 0xab_cdef_1234);
    assert_eq!(e.0, (0xab_cdef_1234u64 << 12) | 0x80 | 0x4 | 0x1);
    let w = e.with_writable(true);
    assert!(w.writable());
    assert_eq!(w.pfn(), 0xab_cdef_1234);
    assert!(!w.with_writable(false).writable());
}

#[test]
fn new_tables_are_zeroed() {
    let npt = NestedPageTables::new(BASE);
    assert_eq!(npt.pa(), BASE);
    assert_eq!(npt.data.entries.len(), ENTRY_COUNT);
    assert!(npt.data.entries.iter().all(|e| e.0 == 0));
}

#[test]
fn nested_identity_map_resolves_every_sample() {
    let mut npt = NestedPageTables::new(BASE);
    npt.build_identity();
    for addr in SAMPLES {
        assert_eq!(walk(&npt.data, addr), Some((addr, true, true)), "addr {addr:#x}");
    }
    // Beyond 512 GiB nothing is mapped.
    assert_eq!(walk(&npt.data, 0x80_0000_0000), None);
}

#[test]
fn nested_identity_map_layout() {
    let mut npt = NestedPageTables::new(BASE);
    npt.build_identity();
    let base_pfn = BASE >> 12;
    let pml4 = npt.data.entry(0);
    assert!(pml4.present() && pml4.writable() && pml4.user() && !pml4.large());
    assert_eq!(pml4.pfn(), base_pfn + 1);
    assert_eq!(npt.data.entry(1).0, 0);
    assert_eq!(npt.data.entry(512 + 7).pfn(), base_pfn + 2 + 7);
    // PD[3][5] maps (3 << 30) | (5 << 21).
    let pde = npt.data.entry((2 + 3) * 512 + 5);
    assert!(pde.large() && pde.present() && pde.writable() && pde.user());
    assert_eq!(pde.pfn() << 12, (3 << 30) | (5 << 21));
    // The 4 KiB table is not used for nested paging.
    assert!(npt.data.table(514).entries.iter().all(|e| e.0 == 0));
}

#[test]
fn host_identity_map_faults_on_null_page() {
    let mut pt = PagingStructures::new(BASE);
    pt.build_identity();
    assert_eq!(pt.pa(), BASE);
    assert_eq!(walk(&pt.data, 0), None);
    assert_eq!(walk(&pt.data, 0xfff), None);
    for addr in SAMPLES.iter().skip(1) {
        assert_eq!(walk(&pt.data, *addr), Some((*addr, true, false)), "addr {addr:#x}");
    }
    let pde = pt.data.entry(2 * 512);
    assert!(!pde.large());
    assert_eq!(pde.pfn(), (BASE >> 12) + 514);
    let null = pt.data.entry(514 * 512);
    assert!(!null.present());
    assert!(null.writable());
}

#[test]
fn apic_split_keeps_identity_map() {
    let mut npt = NestedPageTables::new(BASE);
    npt.build_identity();
    assert_eq!(npt.split_apic_page(0xfee0_0900), Ok(()));
    assert_eq!(npt.apic_base, 0xfee0_0000);
    let pt = npt.apic_pt();
    assert_eq!(pt.0.entries.len(), 512);
    for (k, pte) in pt.0.entries.iter().enumerate() {
        assert!(pte.present() && pte.writable() && pte.user() && !pte.large());
        assert_eq!(pte.pfn(), (0xfee0_0000u64 >> 12) + k as u64);
    }
    let pde = npt.data.entry((2 + 3) * 512 + 0x1f7);
    assert!(pde.present() && !pde.large());
    assert_eq!(pde.pfn(), (BASE >> 12) + PT_APIC_TABLE as u64);
    for addr in [0xfee0_0000u64, 0xfee0_00b0, 0xfee0_0300, 0xfef0_1234, 0xfed0_0000, 0x1234_5678] {
        assert_eq!(walk(&npt.data, addr), Some((addr, true, true)), "addr {addr:#x}");
    }
}

#[test]
fn apic_split_outside_map_is_refused() {
    let mut npt = NestedPageTables::new(BASE);
    npt.build_identity();
    assert_eq!(npt.split_apic_page(0x80_0000_0900), Err(PagingError::ApicOutsideMap));
    assert_eq!(walk(&npt.data, 0xfee0_0000), Some((0xfee0_0000, true, true)));
}

#[test]
fn apic_write_protection_toggles_one_page() {
    let mut npt = NestedPageTables::new(BASE);
    npt.build_identity();
    npt.split_apic_page(0xfee0_0d00).unwrap();
    npt.set_apic_page_writable(false);
    assert_eq!(walk(&npt.data, 0xfee0_0300), Some((0xfee0_0300, false, true)));
    assert_eq!(walk(&npt.data, 0xfee0_1000), Some((0xfee0_1000, true, true)));
    assert_eq!(walk(&npt.data, 0xfedf_f000), Some((0xfedf_f000, true, true)));
    npt.set_apic_page_writable(true);
    assert_eq!(walk(&npt.data, 0xfee0_0300), Some((0xfee0_0300, true, true)));
}

#[test]
fn apic_split_in_unaligned_region() {
    // An APIC page in the middle of its 2 MiB region.
    let mut npt = NestedPageTables::new(BASE);
    npt.build_identity();
    npt.split_apic_page(0x1_2345_6000).unwrap();
    npt.set_apic_page_writable(false);
    let pt = npt.apic_pt();
    assert_eq!(pt.0.entries[0].pfn(), 0x1_2340_0000 >> 12);
    assert!(!pt.0.entries[0x56].writable());
    assert_eq!(walk(&npt.data, 0x1_2345_6008), Some((0x1_2345_6008, false, true)));
    assert_eq!(walk(&npt.data, 0x1_2345_7008), Some((0x1_2345_7008, true, true)));
}
