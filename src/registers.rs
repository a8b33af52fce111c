//! The guest general-purpose register frame exchanged with the guest-entry
//! trampoline.
use vstd::prelude::*;

verus! {

/// One 128-bit XMM register, as two 64-bit halves.
#[derive(Clone, Copy, Debug, PartialEq, Eq, Structural)]
pub struct Xmm {
    pub low: u64,
    pub hight: u64,
}

/// The guest register frame: RAX..R15, RFLAGS, RSP, RIP and six XMM
/// registers. Its in-memory layout (0xF0 bytes) is what the trampoline reads
/// and writes.
#[derive(Clone, Copy, Debug, PartialEq, Eq, Structural)]
pub struct Registers {
    pub rax: u64,
    pub rbx: u64,
    pub rcx: u64,
    pub rdx: u64,
    pub rdi: u64,
    pub rsi: u64,
    pub rbp: u64,
    pub r8: u64,
    pub r9: u64,
    pub r10: u64,
    pub r11: u64,
    pub r12: u64,
    pub r13: u64,
    pub r14: u64,
    pub r15: u64,
    pub rflags: u64,
    pub rsp: u64,
    pub rip: u64,
    pub xmm0: Xmm,
    pub xmm1: Xmm,
    pub xmm2: Xmm,
    pub xmm3: Xmm,
    pub xmm4: Xmm,
    pub xmm5: Xmm,
}

impl Xmm {
    pub fn zeroed() -> (r: Xmm)
        ensures
            r.low == 0 && r.hight == 0,
    {
        Xmm { low: 0, hight: 0 }
    }
}

impl Registers {
    /// A frame with every register cleared.
    pub open spec fn is_zeroed(self) -> bool {
        &&& self.rax == 0 && self.rbx == 0 && self.rcx == 0 && self.rdx == 0
        &&& self.rdi == 0 && self.rsi == 0 && self.rbp == 0
        &&& self.r8 == 0 && self.r9 == 0 && self.r10 == 0 && self.r11 == 0
        &&& self.r12 == 0 && self.r13 == 0 && self.r14 == 0 && self.r15 == 0
        &&& self.rflags == 0 && self.rsp == 0 && self.rip == 0
        &&& self.xmm0 == Xmm { low: 0, hight: 0 }
        &&& self.xmm1 == Xmm { low: 0, hight: 0 }
        &&& self.xmm2 == Xmm { low: 0, hight: 0 }
        &&& self.xmm3 == Xmm { low: 0, hight: 0 }
        &&& self.xmm4 == Xmm { low: 0, hight: 0 }
        &&& self.xmm5 == Xmm { low: 0, hight: 0 }
    }

    pub fn zeroed() -> (r: Registers)
        ensures
            r.is_zeroed(),
    {
        Registers {
            rax: 0,
            rbx: 0,
            rcx: 0,
            rdx: 0,
            rdi: 0,
            rsi: 0,
            rbp: 0,
            r8: 0,
            r9: 0,
            r10: 0,
            r11: 0,
            r12: 0,
            r13: 0,
            r14: 0,
            r15: 0,
            rflags: 0,
            rsp: 0,
            rip: 0,
            xmm0: Xmm::zeroed(),
            xmm1: Xmm::zeroed(),
            xmm2: Xmm::zeroed(),
            xmm3: Xmm::zeroed(),
            xmm4: Xmm::zeroed(),
            xmm5: Xmm::zeroed(),
        }
    }
}

} // verus!
