use hypervisor::segment::SegmentError;
use hypervisor::{get_segment_access_right, get_segment_limit, SegmentDescriptor, SegmentDescriptorRaw};

const KERNEL_CODE: u64 = 0x00af_9b00_0000_ffff;
const DATA_WITH_BASE: u64 = 0x1200_9234_5678_ffff;
const TSS_LOW: u64 = 0x1200_8934_5678_0067;

#[test]
fn base_of_legacy_descriptor() {
    assert_eq!(SegmentDescriptorRaw::from(DATA_WITH_BASE).base(), 0x1234_5678);
    assert_eq!(SegmentDescriptorRaw::from(KERNEL_CODE).base(), 0);
    assert_eq!(SegmentDescriptorRaw::from(0xff00_00ff_ffff_0000).base(), 0xffff_ffff);
}

#[test]
fn sixteen_byte_descriptors_are_tss_only() {
    assert!(SegmentDescriptorRaw::from(0x0000_8900_0000_0067).is_16byte());
    assert!(SegmentDescriptorRaw::from(0x0000_8b00_0000_0067).is_16byte());
    assert!(!SegmentDescriptorRaw::from(0x0000_8200_0000_0067).is_16byte());
    assert!(!SegmentDescriptorRaw::from(0x0000_9900_0000_0067).is_16byte());
    assert!(!SegmentDescriptorRaw::from(KERNEL_CODE).is_16byte());
}

#[test]
fn descriptor_from_gdt() {
    let gdt = [0, KERNEL_CODE, DATA_WITH_BASE, TSS_LOW, 0xffff_f800];
    let code = SegmentDescriptor::try_from_gdt(&gdt, 0x08).unwrap();
    assert_eq!(code.upper_base, None);
    assert_eq!(code.base(), 0);
    let data = SegmentDescriptor::try_from_gdt(&gdt, 0x13).unwrap();
    assert_eq!(data.base(), 0x1234_5678);
    let tss = SegmentDescriptor::try_from_gdt(&gdt, 0x18).unwrap();
    assert_eq!(tss.upper_base, Some(0xffff_f800));
    assert_eq!(tss.base(), 0xffff_f800_1234_5678);
}

#[test]
fn descriptor_errors() {
    let gdt = [0, KERNEL_CODE, TSS_LOW];
    assert_eq!(
        SegmentDescriptor::try_from_gdt(&gdt, 0x0c),
        Err(SegmentError::LdtAccess { selector: 0x0c })
    );
    assert_eq!(
        SegmentDescriptor::try_from_gdt(&gdt, 0x03),
        Err(SegmentError::NullDescriptor { selector: 0x03 })
    );
    assert_eq!(
        SegmentDescriptor::try_from_gdt(&gdt, 0x18),
        Err(SegmentError::OutOfGdtAccess { index: 3 })
    );
    // The upper half of the TSS descriptor is missing.
    assert_eq!(
        SegmentDescriptor::try_from_gdt(&gdt, 0x10),
        Err(SegmentError::OutOfGdtAccess { index: 3 })
    );
    let bad = [0, TSS_LOW, 0x1_0000_0000];
    assert_eq!(
        SegmentDescriptor::try_from_gdt(&bad, 0x08),
        Err(SegmentError::InvalidGdtEntry { index: 2, entry: 0x1_0000_0000 })
    );
}

#[test]
fn access_rights_in_svm_layout() {
    assert_eq!(get_segment_access_right(KERNEL_CODE), 0xa9b);
    assert_eq!(get_segment_access_right(0x00cf_9300_0000_ffff), 0xc93);
    assert_eq!(get_segment_access_right(0), 0);
}

#[test]
fn segment_limits() {
    // Page granular: 0xfffff pages.
    assert_eq!(get_segment_limit(0x10, KERNEL_CODE), 0xffff_ffff);
    // Byte granular.
    assert_eq!(get_segment_limit(0x28, 0x0000_8900_0000_0067), 0x67);
    assert_eq!(get_segment_limit(0x28, 0x0040_8900_0000_1234), 0x1234);
    assert_eq!(get_segment_limit(0x28, 0x0083_9300_0000_0001), 0x3000_1fff);
    // The null selector is unusable.
    assert_eq!(get_segment_limit(0, KERNEL_CODE), 0);
    assert_eq!(get_segment_limit(3, KERNEL_CODE), 0);
}
