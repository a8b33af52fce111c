use hypervisor::activity::{received_sipi, GuestActivityState, ACTIVE, WAIT_FOR_SIPI};
use hypervisor::apic::{classify_apic_write, decode_apic_write, icr_destination, ApicIdTable, ApicWrite};
use hypervisor::arch::IA32_EFER;
use hypervisor::vmcb::MsrWrite;
use hypervisor::{Architecture, CPUVersion, InterruptDescriptorTable, InterruptDescriptorTableEntry, Registers, TlbControl};

#[test]
fn activity_state_encoding() {
    assert_eq!(GuestActivityState::Active.value(), 0);
    assert_eq!(GuestActivityState::WaitForSipi.value(), 0xff);
    assert_eq!(received_sipi(WAIT_FOR_SIPI), None);
    assert_eq!(received_sipi(0x46), Some(0x46));
    assert_eq!(received_sipi(ACTIVE), Some(ACTIVE));
}

#[test]
fn tlb_control_encoding() {
    assert_eq!(TlbControl::DoNotFlush.value(), 0);
    assert_eq!(TlbControl::FlushAll.value(), 1);
    assert_eq!(TlbControl::FlushGuests.value(), 3);
    assert_eq!(TlbControl::FlushGuestsNonGlobal.value(), 7);
}

#[test]
fn decoder_uses_the_right_register() {
    let mut regs = Registers::zeroed();
    regs.rax = 0xdead_0000_0000_0001;
    regs.rcx = 3;
    regs.rdx = 4;
    regs.r12 = 5;
    assert_eq!(decode_apic_write(&[0xa3, 0x00, 0x03, 0xe0, 0xfe, 0, 0, 0, 0], &regs), Some((1, 9)));
    assert_eq!(decode_apic_write(&[0x89, 0x88, 0x10, 0x03, 0x00, 0x00], &regs), Some((3, 6)));
    assert_eq!(decode_apic_write(&[0x89, 0x90, 0x00, 0x03, 0x00, 0x00], &regs), Some((4, 6)));
    assert_eq!(decode_apic_write(&[0x45, 0x89, 0x65, 0x00], &regs), Some((5, 4)));
    assert_eq!(decode_apic_write(&[], &regs), None);
}

#[test]
fn apic_write_classification() {
    assert_eq!(
        classify_apic_write(0xfee0_0300, 0x0000_4646),
        Ok(ApicWrite::StartupIpi { vector: 0x46, icr_high_gpa: 0xfee0_0310 })
    );
    // Startup message type to another register is an ordinary write.
    assert_eq!(classify_apic_write(0xfee0_0310, 0x0000_0600), Ok(ApicWrite::Write { gpa: 0xfee0_0310, value: 0x600 }));
    assert_eq!(classify_apic_write(0xfee0_00b0, 0), Ok(ApicWrite::Write { gpa: 0xfee0_00b0, value: 0 }));
    assert_eq!(icr_destination(0xff00_0000), 0xff);
    assert_eq!(icr_destination(0x00ff_ffff), 0);
}

#[test]
fn apic_id_lookup() {
    let table = ApicIdTable::new(vec![0, 2, 2, 6]);
    assert_eq!(table.processor_count(), 4);
    assert_eq!(table.processor_id_from(0), Some(0));
    assert_eq!(table.processor_id_from(2), Some(1));
    assert_eq!(table.processor_id_from(6), Some(3));
    assert_eq!(table.processor_id_from(1), None);
    assert_eq!(ApicIdTable::new(vec![]).processor_id_from(0), None);
}

#[test]
fn idt_entries_point_at_handlers() {
    let e = InterruptDescriptorTableEntry::new(0xffff_f801_2345_6789, 0x10);
    assert_eq!(e.offset_low, 0x6789);
    assert_eq!(e.offset_high, 0x2345);
    assert_eq!(e.offset_upper, 0xffff_f801);
    assert_eq!(e.selector, 0x10);
    assert_eq!(e.gate_type, 0x8e);
    assert_eq!((e.reserved_1, e.reserved_2), (0, 0));
    let idt = InterruptDescriptorTable::new(0x10, 0xffff_f801_0000_fff0, 0xffff_f802_0000_0000);
    assert_eq!(idt.data.0.len(), 256);
    let last = idt.data.0[255];
    assert_eq!(last.offset_low, 0x0fe0);
    assert_eq!(last.offset_high, 0x0001);
    let idtr = idt.idtr();
    assert_eq!((idtr.base, idtr.limit), (0xffff_f802_0000_0000, 0xfff));
}

#[test]
fn vendor_detection() {
    assert_eq!(hypervisor::arch::cpu_version_from_vendor(b"GenuineIntel"), CPUVersion::Intel);
    assert_eq!(hypervisor::arch::cpu_version_from_vendor(b"AuthenticAMD"), CPUVersion::AMD);
    assert_eq!(hypervisor::arch::cpu_version_from_vendor(b"HygonGenuine"), CPUVersion::Unknown);
    assert_eq!(hypervisor::arch::cpu_version_from_vendor(b"AuthenticAM"), CPUVersion::Unknown);
}

#[test]
fn enabling_svm() {
    assert_eq!(Architecture::enable(CPUVersion::AMD, 0xd01), Some(MsrWrite { msr: IA32_EFER, value: 0x1d01 }));
    assert_eq!(Architecture::enable(CPUVersion::Unknown, 0x1d01), Some(MsrWrite { msr: IA32_EFER, value: 0x1d01 }));
    assert_eq!(Architecture::enable(CPUVersion::Intel, 0xd01), None);
    assert_eq!(Architecture::enable_amd(0), MsrWrite { msr: IA32_EFER, value: 0x1000 });
}

#[test]
fn vendor_string_from_leaf0() {
    let leaf0 = hypervisor::vmexit::CpuidResult { eax: 0x16, ebx: 0x756e_6547, ecx: 0x6c65_746e, edx: 0x4965_6e69 };
    assert_eq!(hypervisor::arch::vendor_bytes(&leaf0), b"GenuineIntel".to_vec());
    let amd = hypervisor::vmexit::CpuidResult { eax: 0x10, ebx: 0x6874_7541, ecx: 0x444d_4163, edx: 0x6974_6e65 };
    assert_eq!(hypervisor::arch::vendor_bytes(&amd), b"AuthenticAMD".to_vec());
    assert_eq!(hypervisor::arch::cpu_version_from_vendor(&hypervisor::arch::vendor_bytes(&amd)), CPUVersion::AMD);
}
