//! A thin hypervisor core for AMD SVM: the identity nested page tables with
//! the local-APIC split, segment decoding for the state save area, the VMCB
//! builders, and the decisions of the per-processor exit loop, including the
//! emulation of INIT and Startup IPIs.
use vstd::prelude::*;

pub mod activity;
pub mod apic;
pub mod gdt_tss;
pub mod arch;
pub mod idt;
pub mod layout;
pub mod paging;
pub mod registers;
pub mod segment;
pub mod vcpu;
pub mod vmcb;
pub mod vmexit;

pub use activity::GuestActivityState;
pub use arch::{Architecture, CPUVersion};
pub use idt::{InterruptDescriptorTable, InterruptDescriptorTableEntry, InterruptDescriptorTableRaw};
pub use paging::{Entry, NestedPageTables, PagingStructures, PagingStructuresRaw, Pd, Pdpt, Pml4, Pt, Table};
pub use registers::{Registers, Xmm};
pub use segment::{get_segment_access_right, get_segment_limit, SegmentDescriptor, SegmentDescriptorRaw};
pub use vcpu::{VCpu, Vmx};
pub use vmcb::{ControlArea, HostStateArea, StateSaveArea, TlbControl, Vmcb, VmcbRaw};
pub use vmexit::{handle_cpuid, InstructionInfo, VmExitReason};

verus! {

} // verus!
