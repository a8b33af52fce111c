//! The host interrupt descriptor table: 256 interrupt gates, one per
//! vector, each pointing at a 16-byte handler stub.
use vstd::prelude::*;

verus! {

pub const IDT_ENTRY_COUNT: usize = 256;

/// P=1, DPL=0, S=0, type=1110b (64-bit interrupt gate).
pub const INTERRUPT_GATE: u8 = 0x8e;

/// The distance between consecutive handler stubs.
pub const HANDLER_STRIDE: u64 = 0x10;

/// The size of the table in bytes, less one: the IDTR limit.
pub const IDT_LIMIT: u16 = 0xfff;

/// The base and limit loaded into IDTR or GDTR.
#[derive(Clone, Copy, Debug, PartialEq, Eq, Structural)]
pub struct DescriptorTablePointer {
    pub limit: u16,
    pub base: u64,
}

/// A 16-byte interrupt-gate descriptor.
#[derive(Clone, Copy, Debug, PartialEq, Eq, Structural)]
pub struct InterruptDescriptorTableEntry {
    pub offset_low: u16,
    pub selector: u16,
    pub reserved_1: u8,
    pub gate_type: u8,
    pub offset_high: u16,
    pub offset_upper: u32,
    pub reserved_2: u32,
}

impl InterruptDescriptorTableEntry {
    /// The linear address of the interrupt handler.
    pub open spec fn handler(self) -> int {
        self.offset_low as int + self.offset_high as int * 0x1_0000 + self.offset_upper as int
            * 0x1_0000_0000
    }

    /// An interrupt gate to `handler` through code segment `cs`.
    pub fn new(handler: u64, cs: u16) -> (r: InterruptDescriptorTableEntry)
        ensures
            r.handler() == handler,
            r.selector == cs,
            r.gate_type == INTERRUPT_GATE,
            r.reserved_1 == 0 && r.reserved_2 == 0,
    {
        let low = handler & 0xffff;
        let high = (handler >> 16u64) & 0xffff;
        let upper = handler >> 32u64;
        assert(low + high * 0x1_0000 + upper * 0x1_0000_0000 == handler && upper <= 0xffff_ffff && low <= 0xffff
            && high <= 0xffff)
            by (bit_vector)
            requires
                low == handler & 0xffff,
                high == (handler >> 16u64) & 0xffff,
                upper == handler >> 32u64,
        ;
        InterruptDescriptorTableEntry {
            offset_low: low as u16,
            selector: cs,
            reserved_1: 0,
            gate_type: INTERRUPT_GATE,
            offset_high: high as u16,
            offset_upper: upper as u32,
            reserved_2: 0,
        }
    }
}

/// The 256 gates of the table.
#[derive(Debug)]
pub struct InterruptDescriptorTableRaw(pub Vec<InterruptDescriptorTableEntry>);

/// The host IDT and the linear address it is loaded from.
#[derive(Debug)]
pub struct InterruptDescriptorTable {
    pub data: InterruptDescriptorTableRaw,
    pub address: u64,
}

impl InterruptDescriptorTable {
    /// Builds the table at linear address `address`: gate `i` points at
    /// `handler_base + 0x10 * i` through code segment `cs`.
    pub fn new(cs: u16, handler_base: u64, address: u64) -> (r: InterruptDescriptorTable)
        requires
            handler_base + HANDLER_STRIDE * (IDT_ENTRY_COUNT - 1) <= u64::MAX,
        ensures
            r.address == address,
            r.data.0@.len() == IDT_ENTRY_COUNT,
            forall|i: int|
                0 <= i < IDT_ENTRY_COUNT ==> {
                    &&& (#[trigger] r.data.0@[i]).handler() == handler_base + HANDLER_STRIDE * i
                    &&& r.data.0@[i].selector == cs
                    &&& r.data.0@[i].gate_type == INTERRUPT_GATE
                },
    {
        let mut entries: Vec<InterruptDescriptorTableEntry> = Vec::new();
        let mut i: usize = 0;
        while i < IDT_ENTRY_COUNT
            invariant
                i <= IDT_ENTRY_COUNT,
                handler_base + HANDLER_STRIDE * (IDT_ENTRY_COUNT - 1) <= u64::MAX,
                entries@.len() == i,
                forall|k: int|
                    0 <= k < i ==> {
                        &&& (#[trigger] entries@[k]).handler() == handler_base + HANDLER_STRIDE * k
                        &&& entries@[k].selector == cs
                        &&& entries@[k].gate_type == INTERRUPT_GATE
                    },
            decreases IDT_ENTRY_COUNT - i,
        {
            let handler = handler_base + HANDLER_STRIDE * i as u64;
            entries.push(InterruptDescriptorTableEntry::new(handler, cs));
            i = i + 1;
        }
        InterruptDescriptorTable { data: InterruptDescriptorTableRaw(entries), address }
    }

    /// The IDTR value that loads this table.
    pub fn idtr(&self) -> (r: DescriptorTablePointer)
        ensures
            r == (DescriptorTablePointer { limit: IDT_LIMIT, base: self.address }),
    {
        DescriptorTablePointer { limit: IDT_LIMIT, base: self.address }
    }
}

} // verus!
