//! Processor vendor detection and enabling of the virtualization extension.
use vstd::prelude::*;
use crate::vmcb::{MsrWrite, EFER_SVME};
use crate::vmexit::{cpuid, CpuidResult};

verus! {

/// The MSR number of IA32_EFER.
pub const IA32_EFER: u32 = 0xc000_0080;

/// The vendor of the processor, from its CPUID vendor string.
#[derive(Clone, Copy, Debug, PartialEq, Eq, Structural)]
pub enum CPUVersion {
    Unknown,
    Intel,
    AMD,
}

pub open spec fn genuine_intel() -> Seq<u8> {
    seq![0x47u8, 0x65, 0x6e, 0x75, 0x69, 0x6e, 0x65, 0x49, 0x6e, 0x74, 0x65, 0x6c]
}

pub open spec fn authentic_amd() -> Seq<u8> {
    seq![0x41u8, 0x75, 0x74, 0x68, 0x65, 0x6e, 0x74, 0x69, 0x63, 0x41, 0x4d, 0x44]
}

/// Whether two byte strings are equal.
fn bytes_equal(a: &[u8], b: &[u8]) -> (r: bool)
    ensures
        r == (a@ == b@),
{
    if a.len() != b.len() {
        return false;
    }
    let mut i: usize = 0;
    while i < a.len()
        invariant
            a@.len() == b@.len(),
            i <= a@.len(),
            forall|k: int| 0 <= k < i ==> a@[k] == b@[k],
        decreases a@.len() - i,
    {
        if a[i] != b[i] {
            return false;
        }
        i = i + 1;
    }
    assert(a@ =~= b@);
    true
}

/// The four bytes of `v`, least significant first.
pub open spec fn le_bytes4(v: u32) -> Seq<u8> {
    seq![(v & 0xff) as u8, ((v >> 8u32) & 0xff) as u8, ((v >> 16u32) & 0xff) as u8, (v >> 24u32) as u8]
}

/// The vendor string of CPUID leaf 0: the bytes of EBX, EDX and ECX.
pub open spec fn vendor_string(r: CpuidResult) -> Seq<u8> {
    le_bytes4(r.ebx) + le_bytes4(r.edx) + le_bytes4(r.ecx)
}

fn push_le_bytes4(out: &mut Vec<u8>, v: u32)
    ensures
        final(out)@ == old(out)@ + le_bytes4(v),
{
    out.push((v & 0xff) as u8);
    out.push(((v >> 8u32) & 0xff) as u8);
    out.push(((v >> 16u32) & 0xff) as u8);
    out.push((v >> 24u32) as u8);
    assert(out@ =~= old(out)@ + le_bytes4(v));
}

/// The vendor string that CPUID leaf 0 returned in `r`.
pub fn vendor_bytes(r: &CpuidResult) -> (out: Vec<u8>)
    ensures
        out@ == vendor_string(*r),
{
    let mut out: Vec<u8> = Vec::new();
    push_le_bytes4(&mut out, r.ebx);
    push_le_bytes4(&mut out, r.edx);
    push_le_bytes4(&mut out, r.ecx);
    assert(out@ =~= vendor_string(*r));
    out
}

/// The vendor of the current processor, from its CPUID vendor string.
pub fn get_cpu_version() -> (r: CPUVersion)
    ensures
        exists|leaf0: CpuidResult| r == vendor_version(vendor_string(leaf0)),
{
    let leaf0 = cpuid(0, 0);
    let vendor = vendor_bytes(&leaf0);
    cpu_version_from_vendor(vendor.as_slice())
}

/// The vendor named by a CPUID vendor string.
pub open spec fn vendor_version(vendor: Seq<u8>) -> CPUVersion {
    if vendor == genuine_intel() {
        CPUVersion::Intel
    } else if vendor == authentic_amd() {
        CPUVersion::AMD
    } else {
        CPUVersion::Unknown
    }
}

/// The vendor named by the 12-byte CPUID vendor string `vendor`
/// ("GenuineIntel", "AuthenticAMD", or another).
pub fn cpu_version_from_vendor(vendor: &[u8]) -> (r: CPUVersion)
    ensures
        r == vendor_version(vendor@),
{
    let intel: [u8; 12] = [0x47, 0x65, 0x6e, 0x75, 0x69, 0x6e, 0x65, 0x49, 0x6e, 0x74, 0x65, 0x6c];
    let amd: [u8; 12] = [0x41, 0x75, 0x74, 0x68, 0x65, 0x6e, 0x74, 0x69, 0x63, 0x41, 0x4d, 0x44];
    assert(intel@ =~= genuine_intel());
    assert(amd@ =~= authentic_amd());
    if bytes_equal(vendor, &intel) {
        CPUVersion::Intel
    } else if bytes_equal(vendor, &amd) {
        CPUVersion::AMD
    } else {
        CPUVersion::Unknown
    }
}

/// The backend chosen for the processor.
pub struct Architecture;

impl Architecture {
    /// Enabling SVM: the EFER write that sets SVME on top of `efer`.
    pub fn enable_amd(efer: u64) -> (r: MsrWrite)
        ensures
            r == (MsrWrite { msr: IA32_EFER, value: efer | EFER_SVME }),
    {
        MsrWrite { msr: IA32_EFER, value: efer | EFER_SVME }
    }

    /// What enabling the virtualization extension takes on a processor of
    /// `version` whose EFER holds `efer`: nothing on Intel, whose backend
    /// carries no logic, and setting EFER.SVME otherwise.
    pub fn enable(version: CPUVersion, efer: u64) -> (r: Option<MsrWrite>)
        ensures
            r == (if version == CPUVersion::Intel {
                None
            } else {
                Some(MsrWrite { msr: IA32_EFER, value: efer | EFER_SVME })
            }),
    {
        match version {
            CPUVersion::Intel => None,
            _ => Some(Self::enable_amd(efer)),
        }
    }
}

} // verus!
