use hypervisor::gdt_tss::{GdtTssError, GdtTssRaw};
use hypervisor::segment::SegmentError;
use hypervisor::SegmentDescriptor;

const NULL: u64 = 0;
const KERNEL_CODE: u64 = 0x00af_9b00_0000_ffff;
const KERNEL_DATA: u64 = 0x00cf_9300_0000_ffff;

#[test]
fn gdt_without_tss() {
    let g = GdtTssRaw::new_from_current(vec![NULL, KERNEL_CODE, KERNEL_DATA], 0x08, 0).unwrap();
    assert_eq!(g.tr, None);
    assert_eq!(g.tss_base, None);
    assert_eq!(g.cs, 0x08);
    assert_eq!(g.gdt, vec![NULL, KERNEL_CODE, KERNEL_DATA]);
}

#[test]
fn gdt_with_current_tss() {
    let gdt = vec![NULL, KERNEL_CODE, 0x1200_8934_5678_0067, 0xffff_f800];
    let g = GdtTssRaw::new_from_current(gdt, 0x08, 0x10).unwrap();
    assert_eq!(g.tr, Some(0x10));
    assert_eq!(g.tss_base, Some(0xffff_f800_1234_5678));
    assert_eq!(
        GdtTssRaw::new_from_current(vec![NULL, KERNEL_CODE], 0x08, 0x10).unwrap_err(),
        SegmentError::OutOfGdtAccess { index: 2 }
    );
}

#[test]
fn append_tss_descriptor() {
    let mut g = GdtTssRaw::new_from_current(vec![NULL, KERNEL_CODE, KERNEL_DATA], 0x08, 0).unwrap();
    assert!(g.append_tss(0x1234_5678, 0x67));
    assert_eq!(g.tr, Some(0x18));
    assert_eq!(g.gdt.len(), 5);
    assert_eq!(g.gdt[3], 0x1200_8934_5678_0067);
    assert_eq!(g.gdt[4], 0);
    // A second TSS is not added.
    assert!(!g.append_tss(0x9999_0000, 0x67));
    assert_eq!(g.gdt.len(), 5);
    assert_eq!(g.tss_base, Some(0x1234_5678));
}

#[test]
fn appended_tss_resolves_to_its_base() {
    let mut g = GdtTssRaw::new_from_current(vec![NULL, KERNEL_CODE, KERNEL_DATA], 0x08, 0).unwrap();
    let base = 0xffff_f801_2345_6789;
    assert!(g.append_tss(base, 0x67));
    let tr = g.tr.unwrap();
    let d = SegmentDescriptor::try_from_gdt(&g.gdt, tr).unwrap();
    assert!(d.low64.is_16byte());
    assert_eq!(d.base(), base);
    assert_eq!(hypervisor::get_segment_limit(tr, d.low64.raw), 0x67);
}

#[test]
fn applying_requires_free_task_register() {
    let g = GdtTssRaw::new_from_current(vec![NULL, KERNEL_CODE], 0x08, 0).unwrap();
    assert_eq!(g.check_apply(0), Ok(()));
    assert_eq!(g.check_apply(0x40), Err(GdtTssError::TssAlreadyInUse));
    let gdtr = g.gdtr(0xffff_f802_0000_0000);
    assert_eq!((gdtr.limit, gdtr.base), (0xf, 0xffff_f802_0000_0000));
}
