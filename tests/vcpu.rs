use std::sync::atomic::{AtomicU8, Ordering};

use hypervisor::activity::{received_sipi, ACTIVE, WAIT_FOR_SIPI};
use hypervisor::apic::{icr_destination, ApicError, ApicIdTable, ApicWrite};
use hypervisor::vcpu::InitError;
use hypervisor::vmcb::{CurrentState, MsrWrite};
use hypervisor::vmexit::{cpuid_request, emulate_cpuid, CpuidResult};
use hypervisor::{handle_cpuid, InstructionInfo, NestedPageTables, Registers, VCpu, VmExitReason, Vmx};

const APIC: u64 = 0xfee0_0000;

fn sample_registers() -> Registers {
    let mut r = Registers::zeroed();
    r.rax = 0x11;
    r.rbx = 0x22;
    r.rcx = 0x33;
    r.rdx = 0x44;
    r.rdi = 0x55;
    r.rsi = 0x66;
    r.rbp = 0x77;
    r.r8 = 0x88;
    r.r12 = 0xcc;
    r.r15 = 0xff;
    r.rflags = 0x246;
    r.rsp = 0xffff_8000_0000_1000;
    r.rip = 0xffff_f800_0000_2000;
    r
}

fn current_state() -> CurrentState {
    CurrentState {
        es_selector: 0x2b,
        cs_selector: 0x10,
        ss_selector: 0x18,
        ds_selector: 0x2b,
        es_descriptor: 0x00cf_f300_0000_ffff,
        cs_descriptor: 0x00af_9b00_0000_ffff,
        ss_descriptor: 0x00cf_9300_0000_ffff,
        ds_descriptor: 0x00cf_f300_0000_ffff,
        gdtr_base: 0xffff_f800_1000_0000,
        gdtr_limit: 0x57,
        idtr_base: 0xffff_f800_2000_0000,
        idtr_limit: 0xfff,
        efer: 0xd01,
        cr0: 0x8005_0033,
        cr3: 0x1ad000,
        cr4: 0x3506f8,
        pat: 0x0007_0106_0007_0106,
    }
}

fn split_tables() -> NestedPageTables {
    let mut npt = NestedPageTables::new(0x1000_0000);
    npt.build_identity();
    npt.split_apic_page(APIC | 0x900).unwrap();
    npt
}

fn vcpu(id: usize) -> VCpu {
    let mut v = VCpu::new(id, 0x2000_0000, 0x2000_1000, 0x2000_2000);
    v.initialize(&sample_registers(), &current_state(), 0x1000_0000);
    v
}

fn fault_with(v: &mut VCpu, bytes: &[u8], gpa: u64) {
    let ctrl = &mut v.guest_vmcb.data.control_area;
    ctrl.exit_code = 0x400;
    ctrl.exit_info2 = gpa;
    ctrl.num_of_bytes_fetched = bytes.len() as u8;
    ctrl.guest_instruction_bytes = [0; 15];
    ctrl.guest_instruction_bytes[..bytes.len()].copy_from_slice(bytes);
}

#[test]
fn new_vcpu_and_activation() {
    let v = VCpu::new(3, 0x2000_0000, 0x2000_1000, 0x2000_2000);
    assert_eq!(v.id, 3);
    assert_eq!(v.guest_vmcb.pa(), 0x2000_0000);
    assert_eq!(v.host_vmcb_pa, 0x2000_1000);
    assert_eq!(v.host_state.pa(), 0x2000_2000);
    assert_eq!(v.activate(), MsrWrite { msr: 0xc001_0117, value: 0x2000_2000 });
}

#[test]
fn initialize_fills_control_area() {
    let v = vcpu(1);
    let c = &v.guest_vmcb.data.control_area;
    assert_eq!(c.intercept_misc1, 1 << 18);
    assert_eq!(c.intercept_misc2, 1);
    assert_eq!(c.pause_filter_count, 0xffff);
    assert_eq!(c.guest_asid, 1);
    assert_eq!(c.np_enable, 1);
    assert_eq!(c.ncr3, 0x1000_0000);
    assert_eq!(c.intercept_exception, 1 << 30);
    assert_eq!(hypervisor::vmcb::vm_cr_with_r_init(0x8), MsrWrite { msr: 0xc001_0114, value: 0xa });
}

#[test]
fn initialize_snapshots_current_state() {
    let v = vcpu(1);
    let s = &v.guest_vmcb.data.state_save_area;
    assert_eq!(v.registers, sample_registers());
    assert_eq!((s.es_selector, s.cs_selector, s.ss_selector, s.ds_selector), (0x2b, 0x10, 0x18, 0x2b));
    assert_eq!((s.cs_attrib, s.ss_attrib, s.ds_attrib), (0xa9b, 0xc93, 0xcf3));
    assert_eq!((s.cs_limit, s.ss_limit), (0xffff_ffff, 0xffff_ffff));
    assert_eq!((s.gdtr_base, s.gdtr_limit), (0xffff_f800_1000_0000, 0x57));
    assert_eq!((s.idtr_base, s.idtr_limit), (0xffff_f800_2000_0000, 0xfff));
    assert_eq!(s.efer, 0x1d01);
    assert_eq!((s.cr0, s.cr3, s.cr4), (0x8005_0033, 0x1ad000, 0x3506f8));
    assert_eq!(s.gpat, 0x0007_0106_0007_0106);
    assert_eq!((s.rax, s.rip, s.rsp, s.rflags), (0x11, 0xffff_f800_0000_2000, 0xffff_8000_0000_1000, 0x246));
}

#[test]
fn register_mirror_round_trip() {
    let mut v = vcpu(1);
    v.prepare_run();
    // The guest runs and exits on CPUID.
    let s = &mut v.guest_vmcb.data.state_save_area;
    s.rax = 0xaaaa;
    s.rip = 0x1234;
    s.rsp = 0x8000;
    s.rflags = 0x202;
    v.guest_vmcb.data.control_area.exit_code = 0x72;
    v.guest_vmcb.data.control_area.nrip = 0x1236;
    v.guest_vmcb.data.control_area.tlb_control = 1;
    let reason = v.complete_exit();
    assert_eq!(reason, VmExitReason::Cpuid(InstructionInfo { next_rip: 0x1236 }));
    let mut expected = sample_registers();
    expected.rax = 0xaaaa;
    expected.rip = 0x1234;
    expected.rsp = 0x8000;
    expected.rflags = 0x202;
    assert_eq!(v.registers, expected);
    assert_eq!(v.guest_vmcb.data.control_area.tlb_control, 0);
    assert_eq!(v.guest_vmcb.data.control_area.vmcb_clean, 0xffff_ffff);
}

#[test]
fn register_mirror_unchanged_guest() {
    let mut v = vcpu(2);
    v.prepare_run();
    v.guest_vmcb.data.control_area.exit_code = 0x400;
    assert_eq!(v.complete_exit(), VmExitReason::NestedPageFault);
    assert_eq!(v.registers, sample_registers());
}

#[test]
fn exit_codes_dispatch() {
    let mut v = vcpu(2);
    v.guest_vmcb.data.control_area.exit_code = 0x5e;
    assert_eq!(v.complete_exit(), VmExitReason::InitSignal);
    v.guest_vmcb.data.control_area.exit_code = 0x7c;
    assert_eq!(v.complete_exit(), VmExitReason::Unknown);
}

#[test]
fn cpuid_hides_vmx() {
    let mut v = vcpu(1);
    v.registers.rax = 1;
    v.registers.rcx = 0;
    v.registers.rip = 0x1000;
    assert_eq!(cpuid_request(&v), (1, 0));
    let native = CpuidResult { eax: 0x00a2_0f10, ebx: 0x0010_0800, ecx: 0x7ef8_320b | 0x20, edx: 0x178b_fbff };
    emulate_cpuid(&mut v, &InstructionInfo { next_rip: 0x1002 }, &native);
    assert_eq!(v.registers.rcx, (0x7ef8_320bu64 | 0x20) & !0x20);
    assert_eq!(v.registers.rcx & 0x20, 0);
    assert_eq!(v.registers.rax, 0x00a2_0f10);
    assert_eq!(v.registers.rbx, 0x0010_0800);
    assert_eq!(v.registers.rdx, 0x178b_fbff);
    assert_eq!(v.registers.rip, 0x1002);
}

#[test]
fn cpuid_other_leaves_pass_through() {
    let mut v: Vmx = vcpu(1);
    v.registers.rax = 7;
    v.registers.rcx = 0;
    let native = CpuidResult { eax: 1, ebx: 2, ecx: 0xffff_ffff, edx: 4 };
    emulate_cpuid(&mut v, &InstructionInfo { next_rip: 0x42 }, &native);
    assert_eq!(v.registers.rcx, 0xffff_ffff);
    v.regs().r9 = 9;
    assert_eq!(v.registers.r9, 9);
}

#[test]
fn apic_eoi_write() {
    let mut npt = split_tables();
    let mut v = vcpu(0);
    v.registers.rip = 0x5000;
    fault_with(&mut v, &[0xc7, 0x80, 0xb0, 0, 0, 0, 0, 0, 0, 0, 0x90], APIC + 0xb0);
    let r = v.handle_nested_page_fault(&mut npt, 4);
    assert_eq!(r, Ok(ApicWrite::Write { gpa: APIC + 0xb0, value: 0 }));
    assert_eq!(v.registers.rip, 0x500a);
}

#[test]
fn apic_other_patterns() {
    let mut npt = split_tables();
    let mut v = vcpu(0);
    v.registers.r12 = 0x1_0000_00ee;
    v.registers.rdx = 0x77;
    v.registers.rcx = 0x0200_0000;
    v.registers.rip = 0;
    fault_with(&mut v, &[0x45, 0x89, 0x65, 0x00], APIC + 0x80);
    assert_eq!(v.handle_nested_page_fault(&mut npt, 4), Ok(ApicWrite::Write { gpa: APIC + 0x80, value: 0xee }));
    assert_eq!(v.registers.rip, 4);
    fault_with(&mut v, &[0x41, 0x89, 0x14, 0x00, 0xc3], APIC + 0x380);
    assert_eq!(v.handle_nested_page_fault(&mut npt, 4), Ok(ApicWrite::Write { gpa: APIC + 0x380, value: 0x77 }));
    assert_eq!(v.registers.rip, 8);
    fault_with(&mut v, &[0xc7, 0x81, 0xb0, 0, 0, 0, 0, 0, 0, 0], APIC + 0xb0);
    assert_eq!(v.handle_nested_page_fault(&mut npt, 4), Ok(ApicWrite::Write { gpa: APIC + 0xb0, value: 0 }));
    assert_eq!(v.registers.rip, 18);
    fault_with(&mut v, &[0x89, 0x88, 0x10, 0x03, 0x00, 0x00], APIC + 0x310);
    assert_eq!(v.handle_nested_page_fault(&mut npt, 4), Ok(ApicWrite::Write { gpa: APIC + 0x310, value: 0x0200_0000 }));
    assert_eq!(v.registers.rip, 24);
    v.registers.rax = 0x0300_0000;
    fault_with(&mut v, &[0xa3, 0x10, 0x03, 0xe0, 0xfe, 0, 0, 0, 0], APIC + 0x310);
    assert_eq!(v.handle_nested_page_fault(&mut npt, 4), Ok(ApicWrite::Write { gpa: APIC + 0x310, value: 0x0300_0000 }));
    assert_eq!(v.registers.rip, 33);
    // An INIT through ICR low is not a Startup IPI: it is passed through.
    v.registers.rdx = 0x0000_c500;
    fault_with(&mut v, &[0x89, 0x90, 0x00, 0x03, 0x00, 0x00], APIC + 0x300);
    assert_eq!(v.handle_nested_page_fault(&mut npt, 4), Ok(ApicWrite::Write { gpa: APIC + 0x300, value: 0xc500 }));
    assert_eq!(v.registers.rip, 39);
}

#[test]
fn sipi_broadcast() {
    let mut npt = split_tables();
    let mut bsp = vcpu(0);
    bsp.registers.rax = 0x0000_4646;
    bsp.registers.rip = 0x7000;
    fault_with(&mut bsp, &[0xa3, 0x00, 0x03, 0xe0, 0xfe, 0, 0, 0, 0], APIC + 0x300);
    let r = bsp.handle_nested_page_fault(&mut npt, 4);
    assert_eq!(r, Ok(ApicWrite::StartupIpi { vector: 0x46, icr_high_gpa: APIC + 0x310 }));
    assert_eq!(bsp.registers.rip, 0x7009);

    // ICR high holds APIC id 2; processor 1 has that id.
    let table = ApicIdTable::new(vec![0, 2, 4, 6]);
    let target = table.processor_id_from(icr_destination(0x0200_0000)).unwrap();
    assert_eq!(target, 1);

    // The target is waiting; the sender's exchange succeeds.
    let slot = AtomicU8::new(WAIT_FOR_SIPI);
    assert_eq!(slot.compare_exchange(WAIT_FOR_SIPI, 0x46, Ordering::Relaxed, Ordering::Relaxed), Ok(WAIT_FOR_SIPI));
    let mut ap = vcpu(target);
    assert_eq!(received_sipi(slot.load(Ordering::Relaxed)), Some(0x46));
    let vector = slot.swap(ACTIVE, Ordering::Relaxed);
    ap.handle_sipi(vector);
    let s = &ap.guest_vmcb.data.state_save_area;
    assert_eq!((s.cs_selector, s.cs_base, s.rip), (0x4600, 0x46000, 0));
    assert_eq!(ap.registers.rip, 0);
}

#[test]
fn init_on_application_processor() {
    let mut ap = vcpu(2);
    ap.registers.r10 = 5;
    ap.guest_vmcb.data.state_save_area.star = 0x1234;
    let slot = AtomicU8::new(ACTIVE);
    let previous = slot.swap(WAIT_FOR_SIPI, Ordering::Relaxed);
    let r = ap.handle_init_signal(previous, 0xe005_003b, 0x00a2_0f12);
    assert_eq!(r, Ok(()));
    let s = &ap.guest_vmcb.data.state_save_area;
    assert_eq!(s.cr0, 0x6000_0010);
    assert_eq!((s.cr2, s.cr3, s.cr4), (0, 0, 0));
    assert_eq!(s.efer, 0x1000);
    assert_eq!(s.rip, 0xfff0);
    assert_eq!((s.cs_selector, s.cs_base, s.cs_limit, s.cs_attrib), (0xf000, 0xffff_0000, 0xffff, 0x9b));
    assert_eq!((s.ds_selector, s.ds_base, s.ds_limit, s.ds_attrib), (0, 0, 0xffff, 0x93));
    assert_eq!((s.ss_selector, s.ss_limit, s.ss_attrib), (0, 0xffff, 0x93));
    assert_eq!((s.ldtr_attrib, s.tr_attrib), (0x82, 0x8b));
    assert_eq!((s.gdtr_base, s.gdtr_limit, s.idtr_base, s.idtr_limit), (0, 0xffff, 0, 0xffff));
    assert_eq!((s.dr6, s.dr7), (0xffff_0ff0, 0x400));
    assert_eq!(s.star, 0x1234);
    assert_eq!(ap.registers.rdx, 0x00a2_0f12);
    assert_eq!((ap.registers.rax, ap.registers.r10, ap.registers.rflags, ap.registers.rip), (0, 0, 2, 0xfff0));
    assert_eq!(ap.guest_vmcb.data.control_area.tlb_control, 1);
    assert_eq!(ap.guest_vmcb.data.control_area.vmcb_clean, 0);
    assert_eq!(slot.load(Ordering::Relaxed), WAIT_FOR_SIPI);

    // Keeps waiting until a vector arrives, then applies it.
    assert_eq!(received_sipi(slot.load(Ordering::Relaxed)), None);
    slot.compare_exchange(WAIT_FOR_SIPI, 0x9a, Ordering::Relaxed, Ordering::Relaxed).unwrap();
    assert_eq!(received_sipi(slot.load(Ordering::Relaxed)), Some(0x9a));
    ap.handle_sipi(slot.swap(ACTIVE, Ordering::Relaxed));
    assert_eq!(slot.load(Ordering::Relaxed), ACTIVE);
    assert_eq!(ap.guest_vmcb.data.state_save_area.cs_base, 0x9a000);
    // The next entry starts at the SIPI vector.
    ap.prepare_run();
    assert_eq!(ap.guest_vmcb.data.state_save_area.rip, 0);
    assert_eq!(ap.guest_vmcb.data.state_save_area.rflags, 2);
}

#[test]
fn init_errors() {
    let mut bsp = vcpu(0);
    assert_eq!(bsp.handle_init_signal(ACTIVE, 0, 0), Err(InitError::BootstrapProcessor));
    assert_eq!(bsp.registers, sample_registers());
    let mut ap = vcpu(1);
    assert_eq!(ap.handle_init_signal(WAIT_FOR_SIPI, 0, 0), Err(InitError::NotActive { state: WAIT_FOR_SIPI }));
    assert_eq!(ap.guest_vmcb.data.state_save_area.rip, 0xffff_f800_0000_2000);
}

#[test]
fn unknown_apic_instruction() {
    let mut npt = split_tables();
    let mut v = vcpu(0);
    v.registers.rip = 0x5000;
    fault_with(&mut v, &[0x8b, 0x80, 0xb0, 0x00, 0x00, 0x00], APIC + 0xb0);
    assert_eq!(v.handle_nested_page_fault(&mut npt, 4), Err(ApicError::UnknownInstruction));
    assert_eq!(v.registers.rip, 0x5000);
    // A pattern cut short by the fetched length is not recognised either.
    fault_with(&mut v, &[0xc7, 0x80, 0xb0, 0x00], APIC + 0xb0);
    assert_eq!(v.handle_nested_page_fault(&mut npt, 4), Err(ApicError::UnknownInstruction));
}

#[test]
fn unsupported_startup_ipis() {
    let mut npt = split_tables();
    let mut v = vcpu(0);
    for (value, err) in [
        (0x000c_4e46u64, ApicError::LogicalDestination),
        (0x000c_4646 | 0x4_0000, ApicError::DestinationShorthand),
        (0x000c_4600, ApicError::DestinationShorthand),
        (0x0000_46ff, ApicError::InvalidVector),
        (0x0000_4600 & !0xff, ApicError::InvalidVector),
    ] {
        v.registers.rax = value;
        fault_with(&mut v, &[0xa3, 0x00, 0x03, 0xe0, 0xfe, 0, 0, 0, 0], APIC + 0x300);
        assert_eq!(v.handle_nested_page_fault(&mut npt, 4), Err(err));
    }
}

#[test]
fn sipi_before_wait_is_dropped() {
    let mut npt = split_tables();
    let mut bsp = vcpu(0);
    bsp.registers.rax = 0x0000_4646;
    fault_with(&mut bsp, &[0xa3, 0x00, 0x03, 0xe0, 0xfe, 0, 0, 0, 0], APIC + 0x300);
    let Ok(ApicWrite::StartupIpi { vector, .. }) = bsp.handle_nested_page_fault(&mut npt, 4) else {
        panic!("expected a Startup IPI");
    };
    // The target has not taken its INIT yet: the first SIPI is dropped.
    let slot = AtomicU8::new(ACTIVE);
    assert_eq!(slot.compare_exchange(WAIT_FOR_SIPI, vector, Ordering::Relaxed, Ordering::Relaxed), Err(ACTIVE));
    let mut ap = vcpu(1);
    let previous = slot.swap(WAIT_FOR_SIPI, Ordering::Relaxed);
    assert_eq!(ap.handle_init_signal(previous, 0, 0), Ok(()));
    // The second SIPI arrives while it waits.
    assert_eq!(slot.compare_exchange(WAIT_FOR_SIPI, vector, Ordering::Relaxed, Ordering::Relaxed), Ok(WAIT_FOR_SIPI));
    assert_eq!(received_sipi(slot.load(Ordering::Relaxed)), Some(0x46));
}

#[test]
fn last_processor_disarms_interception() {
    let mut npt = split_tables();
    let mut v = vcpu(0);
    v.intercept_apic_write(&mut npt, true);
    assert!(!npt.apic_pt().0.entries[0].writable());
    assert_eq!(v.guest_vmcb.data.control_area.tlb_control, 1);
    // Not the last processor: the interception stays armed.
    let mut other = vcpu(1);
    fault_with(&mut other, &[0xc7, 0x80, 0xb0, 0, 0, 0, 0, 0, 0, 0], APIC + 0xb0);
    other.handle_nested_page_fault(&mut npt, 4).unwrap();
    assert!(!npt.apic_pt().0.entries[0].writable());
    // The last processor disarms it.
    let mut last = vcpu(3);
    fault_with(&mut last, &[0xc7, 0x80, 0xb0, 0, 0, 0, 0, 0, 0, 0], APIC + 0xb0);
    last.handle_nested_page_fault(&mut npt, 4).unwrap();
    assert!(npt.apic_pt().0.entries[0].writable());
    assert_eq!(last.guest_vmcb.data.control_area.tlb_control, 1);
}

#[test]
fn cpuid_on_this_processor() {
    let mut v = vcpu(1);
    v.registers.rax = 1;
    v.registers.rcx = 0;
    handle_cpuid(&mut v, &InstructionInfo { next_rip: 0x2002 });
    assert_eq!(v.registers.rcx & 0x20, 0);
    assert_eq!(v.registers.rip, 0x2002);
    assert_eq!(v.registers.r15, 0xff);

    v.registers.rax = 0;
    handle_cpuid(&mut v, &InstructionInfo { next_rip: 0x2004 });
    let leaf0 = CpuidResult {
        eax: v.registers.rax as u32,
        ebx: v.registers.rbx as u32,
        ecx: v.registers.rcx as u32,
        edx: v.registers.rdx as u32,
    };
    let vendor = hypervisor::arch::vendor_bytes(&leaf0);
    assert_eq!(hypervisor::arch::cpu_version_from_vendor(&vendor), hypervisor::arch::get_cpu_version());
}
