use hypervisor::layout::{CONTROL_AREA_SIZE, VMCB_SIZE};
use hypervisor::{Vmcb, VmcbRaw};

fn le(page: &[u8], off: usize, n: usize) -> u64 {
    let mut v = 0u64;
    for i in (0..n).rev() {
        v = (v << 8) | page[off + i] as u64;
    }
    v
}

fn sample() -> VmcbRaw {
    let mut v = Vmcb::new(0).data;
    let c = &mut v.control_area;
    c.intercept_misc1 = 0x0004_0000;
    c.intercept_misc2 = 1;
    c.guest_asid = 1;
    c.exit_code = 0x400;
    c.exit_info2 = 0xfee0_0300;
    c.ncr3 = 0x1234_5000;
    c.nrip = 0xffff_f800_0000_1234;
    c.num_of_bytes_fetched = 9;
    c.guest_instruction_bytes = [0xa3, 0x00, 0x03, 0xe0, 0xfe, 0, 0, 0, 0, 1, 2, 3, 4, 5, 6];
    c.tlb_control = 1;
    c.vmcb_clean = 0xffff_ffff;
    let s = &mut v.state_save_area;
    s.cs_selector = 0x10;
    s.cs_attrib = 0xa9b;
    s.cs_limit = 0xffff_ffff;
    s.cpl = 3;
    s.rip = 0x1122_3344_5566_7788;
    s.rsp = 0x8000;
    s.rax = 0xaaaa_bbbb_cccc_dddd;
    s.spec_ctl = 0x55;
    v
}

#[test]
fn vmcb_image_offsets() {
    let v = sample();
    let mut page = vec![0xeeu8; VMCB_SIZE];
    v.write_to_page(&mut page);
    assert_eq!(le(&page, 0x00c, 4), 0x0004_0000);
    assert_eq!(le(&page, 0x010, 4), 1);
    assert_eq!(le(&page, 0x058, 4), 1);
    assert_eq!(le(&page, 0x05c, 4), 1);
    assert_eq!(le(&page, 0x070, 8), 0x400);
    assert_eq!(le(&page, 0x080, 8), 0xfee0_0300);
    assert_eq!(le(&page, 0x0b0, 8), 0x1234_5000);
    assert_eq!(le(&page, 0x0c0, 4), 0xffff_ffff);
    assert_eq!(le(&page, 0x0c8, 8), 0xffff_f800_0000_1234);
    assert_eq!(page[0x0d0], 9);
    assert_eq!(&page[0x0d1..0x0e0], &[0xa3, 0x00, 0x03, 0xe0, 0xfe, 0, 0, 0, 0, 1, 2, 3, 4, 5, 6]);
    let ssa = CONTROL_AREA_SIZE;
    assert_eq!(le(&page, ssa + 0x010, 2), 0x10);
    assert_eq!(le(&page, ssa + 0x012, 2), 0xa9b);
    assert_eq!(le(&page, ssa + 0x014, 4), 0xffff_ffff);
    assert_eq!(page[ssa + 0x0cb], 3);
    assert_eq!(le(&page, ssa + 0x178, 8), 0x1122_3344_5566_7788);
    assert_eq!(le(&page, ssa + 0x1d8, 8), 0x8000);
    assert_eq!(le(&page, ssa + 0x1f8, 8), 0xaaaa_bbbb_cccc_dddd);
    assert_eq!(le(&page, ssa + 0x2e0, 8), 0x55);
    // Reserved bytes keep what the page held.
    assert_eq!(page[0x018], 0xee);
    assert_eq!(page[0x3e0], 0xee);
    assert_eq!(page[ssa + 0x0a0], 0xee);
    assert_eq!(page[ssa + 0x2e8], 0xee);
    assert_eq!(page[VMCB_SIZE - 1], 0xee);
}

#[test]
fn vmcb_image_round_trip() {
    let v = sample();
    let mut page = vec![0u8; VMCB_SIZE];
    v.write_to_page(&mut page);
    let back = VmcbRaw::from_page(&page);
    assert_eq!(back.control_area.exit_code, 0x400);
    assert_eq!(back.control_area.guest_instruction_bytes, v.control_area.guest_instruction_bytes);
    assert_eq!(back.control_area.nrip, v.control_area.nrip);
    assert_eq!(back.state_save_area, v.state_save_area);
    // The processor writes exit information into the page; it reads back.
    page[0x070..0x078].copy_from_slice(&0x72u64.to_le_bytes());
    page[CONTROL_AREA_SIZE + 0x1f8..CONTROL_AREA_SIZE + 0x200].copy_from_slice(&7u64.to_le_bytes());
    let after = VmcbRaw::from_page(&page);
    assert_eq!(after.control_area.exit_code, 0x72);
    assert_eq!(after.state_save_area.rax, 7);
}
