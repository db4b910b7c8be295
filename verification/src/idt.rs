//! The dispatch-table builder: the 256-entry interrupt descriptor table and
//! bit-exact encoding of each gate descriptor.
//!
//! The hardware reads the table directly, so the encoding is stated as
//! explicit functions on fixed-width integers: a handler address split into
//! low/high 16-bit halves, the code-segment selector, a reserved zero byte
//! and a flags byte packing gate type, privilege level and presence. Every
//! one of the 256 slots always holds a present descriptor — unmapped vectors
//! point at the generic fallback trampoline, so no vector is ever undefined.

use vstd::prelude::*;

verus! {

/// Number of vectors the dispatch table covers.
pub const IDT_ENTRIES: usize = 256;

/// Bytes one encoded gate descriptor occupies in the hardware layout:
/// two 16-bit address halves, a 16-bit selector, a reserved byte, a flags byte.
pub const IDT_ENTRY_BYTES: usize = 8;

/// Segment selector stored in every gate: requested privilege ring 0 in the
/// low two bits, bit 2 clear to address the global descriptor table, and the
/// code-segment entry index (1) from bit 3 up.
pub const CODE_SEGMENT_SELECTOR: u16 = 0x8;

/// Flags byte stored in every gate: 32-bit interrupt-gate type (0xe) in the
/// low four bits, a reserved zero bit, descriptor privilege level 0, and the
/// presence bit set.
pub const GATE_FLAGS: u8 = 0x8e;

/// Low 16 bits of a handler address, as stored in a gate.
pub open spec fn spec_offset_low(handler: u32) -> u16 {
    (handler & 0xffff) as u16
}

/// High 16 bits of a handler address, as stored in a gate.
pub open spec fn spec_offset_high(handler: u32) -> u16 {
    (handler >> 16) as u16
}

/// One gate descriptor: a single slot of the dispatch table.
#[derive(Clone, Copy, PartialEq, Eq, Structural, Debug)]
pub struct IdtEntry {
    /// Lower 16 bits of the handler address.
    pub offset_low: u16,
    /// Selector of the code segment the CPU switches to.
    pub segment_selector: u16,
    /// Reserved by the hardware, always zero.
    pub reserved: u8,
    /// Gate type, privilege level and presence, packed.
    pub flags: u8,
    /// Upper 16 bits of the handler address.
    pub offset_high: u16,
}

impl IdtEntry {
    /// The handler address this gate dispatches to, rejoined from its halves.
    pub open spec fn handler(self) -> u32 {
        ((self.offset_high as u32) << 16) | (self.offset_low as u32)
    }

    /// The fixed selector, reserved and flags fields every gate carries.
    pub open spec fn well_formed(self) -> bool {
        &&& self.segment_selector == CODE_SEGMENT_SELECTOR
        &&& self.reserved == 0
        &&& self.flags == GATE_FLAGS
    }

    /// This descriptor holds exactly the encoding of `handler`.
    pub open spec fn encodes(self, handler: u32) -> bool {
        &&& self.offset_low == spec_offset_low(handler)
        &&& self.offset_high == spec_offset_high(handler)
        &&& self.well_formed()
    }

    /// The presence bit of the flags byte is set.
    pub open spec fn present(self) -> bool {
        self.flags & 0x80 == 0x80
    }

    /// Encodes a gate for the given handler address: address split into its
    /// two halves, ring-0 interrupt gate in the global table's code segment,
    /// present.
    pub fn new(offset: u32) -> (entry: Self)
        ensures
            entry.encodes(offset),
    {
        let offset_low: u16 = (offset & 0xffff) as u16;
        let offset_high: u16 = (offset >> 16) as u16;
        Self {
            offset_low,
            segment_selector: CODE_SEGMENT_SELECTOR,
            reserved: 0,
            flags: GATE_FLAGS,
            offset_high,
        }
    }

    /// Overwrites the handler address halves, preserving selector and flags.
    pub fn set(&mut self, offset: u32)
        ensures
            final(self).offset_low == spec_offset_low(offset),
            final(self).offset_high == spec_offset_high(offset),
            final(self).segment_selector == old(self).segment_selector,
            final(self).reserved == old(self).reserved,
            final(self).flags == old(self).flags,
            old(self).well_formed() ==> final(self).encodes(offset),
            final(self).handler() == offset,
    {
        self.offset_low = (offset & 0xffff) as u16;
        self.offset_high = (offset >> 16) as u16;
        proof {
            let lo = self.offset_low;
            let hi = self.offset_high;
            assert(((hi as u32) << 16) | (lo as u32) == offset) by (bit_vector)
                requires
                    lo == (offset & 0xffff) as u16,
                    hi == (offset >> 16) as u16,
            ;
        }
    }

    /// Decodes the handler address back out of the descriptor.
    pub fn handler_address(&self) -> (addr: u32)
        ensures
            addr == self.handler(),
    {
        ((self.offset_high as u32) << 16) | (self.offset_low as u32)
    }
}

/// Splitting an address into a gate and rejoining the halves gives the
/// address back: the low/high encoding loses nothing.
pub proof fn lemma_entry_round_trip(entry: IdtEntry, handler: u32)
    requires
        entry.encodes(handler),
    ensures
        entry.handler() == handler,
{
    let lo = entry.offset_low;
    let hi = entry.offset_high;
    assert(((hi as u32) << 16) | (lo as u32) == handler) by (bit_vector)
        requires
            lo == (handler & 0xffff) as u16,
            hi == (handler >> 16) as u16,
    ;
}

/// An encoded gate is present: the fixed flags byte has the presence bit set.
pub proof fn lemma_encoded_present(entry: IdtEntry)
    requires
        entry.well_formed(),
    ensures
        entry.present(),
{
    assert(0x8eu8 & 0x80 == 0x80) by (bit_vector);
}

/// The interrupt descriptor table: 256 gates, one per vector, each always
/// present and well formed.
pub struct InterruptDescriptorTable {
    /// The descriptors, indexed by vector.
    pub entries: Vec<IdtEntry>,
}

/// The ephemeral descriptor the table-load instruction consumes: the table's
/// size in bytes minus one, and its base address.
#[derive(Clone, Copy, PartialEq, Eq, Structural, Debug)]
pub struct IdtDescriptor {
    /// Size of the table in bytes, minus one.
    pub size: u16,
    /// Base address of the table.
    pub offset: u32,
}

impl InterruptDescriptorTable {
    /// All 256 slots exist and each holds a well-formed gate.
    pub open spec fn well_formed(self) -> bool {
        &&& self.entries@.len() == IDT_ENTRIES
        &&& forall|v: int|
            0 <= v < self.entries@.len() ==> (#[trigger] self.entries@[v]).well_formed()
    }

    /// The handler address that vector `vector` dispatches to.
    pub open spec fn handler_of(self, vector: int) -> u32 {
        self.entries@[vector].handler()
    }

    /// Builds the default table: every one of the 256 gates present and
    /// pointing at the generic fallback trampoline, so no vector is ever
    /// left undefined.
    pub fn new() -> (table: Self)
        ensures
            table.well_formed(),
            forall|v: int|
                0 <= v < IDT_ENTRIES ==> (#[trigger] table.entries@[v]).encodes(
                    crate::exceptions::GENERIC_HANDLER_ADDRESS,
                ),
            forall|v: int| 0 <= v < IDT_ENTRIES ==> (#[trigger] table.entries@[v]).present(),
            forall|v: int|
                0 <= v < IDT_ENTRIES ==> table.handler_of(v)
                    == crate::exceptions::GENERIC_HANDLER_ADDRESS,
    {
        let mut entries: Vec<IdtEntry> = Vec::new();
        while entries.len() < IDT_ENTRIES
            invariant
                entries@.len() <= IDT_ENTRIES,
                forall|v: int|
                    0 <= v < entries@.len() ==> (#[trigger] entries@[v]).encodes(
                        crate::exceptions::GENERIC_HANDLER_ADDRESS,
                    ),
            decreases IDT_ENTRIES - entries@.len(),
        {
            entries.push(IdtEntry::new(crate::exceptions::GENERIC_HANDLER_ADDRESS));
        }
        let table = Self { entries };
        proof {
            assert forall|v: int| 0 <= v < IDT_ENTRIES implies (#[trigger] table.entries@[v]).present()
                && table.handler_of(v) == crate::exceptions::GENERIC_HANDLER_ADDRESS by {
                lemma_encoded_present(table.entries@[v]);
                lemma_entry_round_trip(table.entries@[v], crate::exceptions::GENERIC_HANDLER_ADDRESS);
            }
        }
        table
    }

    /// Resets every gate of an existing table to the generic fallback
    /// trampoline, in place.
    pub fn init(&mut self)
        requires
            old(self).well_formed(),
        ensures
            final(self).well_formed(),
            forall|v: int|
                0 <= v < IDT_ENTRIES ==> (#[trigger] final(self).entries@[v]).encodes(
                    crate::exceptions::GENERIC_HANDLER_ADDRESS,
                ),
    {
        let mut i: usize = 0;
        while i < IDT_ENTRIES
            invariant
                i <= IDT_ENTRIES,
                self.well_formed(),
                forall|v: int|
                    0 <= v < i ==> (#[trigger] self.entries@[v]).encodes(
                        crate::exceptions::GENERIC_HANDLER_ADDRESS,
                    ),
            decreases IDT_ENTRIES - i,
        {
            self.add(i, crate::exceptions::GENERIC_HANDLER_ADDRESS);
            i += 1;
        }
    }

    /// Points vector `vector` at `handler`, re-encoding the address
    /// halves and leaving every other gate untouched.
    pub fn add(&mut self, vector: usize, handler: u32)
        requires
            old(self).well_formed(),
            vector < IDT_ENTRIES,
        ensures
            final(self).well_formed(),
            final(self).entries@.len() == old(self).entries@.len(),
            final(self).entries@[vector as int].encodes(handler),
            final(self).handler_of(vector as int) == handler,
            forall|v: int|
                0 <= v < old(self).entries@.len() && v != vector as int
                    ==> final(self).entries@[v] == old(self).entries@[v],
    {
        let entry = IdtEntry::new(handler);
        self.entries[vector] = entry;
        proof {
            lemma_entry_round_trip(self.entries@[vector as int], handler);
        }
    }

    /// Points the five known CPU-exception vectors at their trampolines:
    /// divide error, invalid opcode, double fault, general-protection fault
    /// and page fault. Every other gate is left as it was.
    pub fn add_exceptions(&mut self)
        requires
            old(self).well_formed(),
        ensures
            final(self).well_formed(),
            final(self).entries@.len() == old(self).entries@.len(),
            final(self).entries@[crate::exceptions::DIV_ERROR_VECTOR as int].encodes(
                crate::exceptions::DIV_ERROR_HANDLER_ADDRESS,
            ),
            final(self).entries@[crate::exceptions::INVALID_OPCODE_VECTOR as int].encodes(
                crate::exceptions::INVALID_OPCODE_HANDLER_ADDRESS,
            ),
            final(self).entries@[crate::exceptions::DOUBLE_FAULT_VECTOR as int].encodes(
                crate::exceptions::DOUBLE_FAULT_HANDLER_ADDRESS,
            ),
            final(self).entries@[crate::exceptions::GENERAL_PROTECTION_FAULT_VECTOR as int].encodes(
                crate::exceptions::GENERAL_PROTECTION_FAULT_HANDLER_ADDRESS,
            ),
            final(self).entries@[crate::exceptions::PAGE_FAULT_VECTOR as int].encodes(
                crate::exceptions::PAGE_FAULT_HANDLER_ADDRESS,
            ),
            forall|v: int|
                0 <= v < old(self).entries@.len()
                    && v != crate::exceptions::DIV_ERROR_VECTOR as int
                    && v != crate::exceptions::INVALID_OPCODE_VECTOR as int
                    && v != crate::exceptions::DOUBLE_FAULT_VECTOR as int
                    && v != crate::exceptions::GENERAL_PROTECTION_FAULT_VECTOR as int
                    && v != crate::exceptions::PAGE_FAULT_VECTOR as int
                    ==> final(self).entries@[v] == old(self).entries@[v],
    {
        self.add(0x0, crate::exceptions::DIV_ERROR_HANDLER_ADDRESS);
        self.add(0x6, crate::exceptions::INVALID_OPCODE_HANDLER_ADDRESS);
        self.add(0x8, crate::exceptions::DOUBLE_FAULT_HANDLER_ADDRESS);
        self.add(0xd, crate::exceptions::GENERAL_PROTECTION_FAULT_HANDLER_ADDRESS);
        self.add(0xe, crate::exceptions::PAGE_FAULT_HANDLER_ADDRESS);
    }

    /// Computes the descriptor the table-load instruction consumes: the
    /// table's byte size minus one, and the base address the table sits at.
    /// Issuing the instruction itself needs a privileged machine context and
    /// stays outside this library.
    pub fn descriptor(&self, base: u32) -> (d: IdtDescriptor)
        ensures
            d.size == IDT_ENTRIES * IDT_ENTRY_BYTES - 1,
            d.offset == base,
    {
        IdtDescriptor { size: (IDT_ENTRIES * IDT_ENTRY_BYTES - 1) as u16, offset: base }
    }
}

} // verus!
