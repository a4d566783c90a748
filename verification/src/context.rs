//! Plain-value images of processor state: the general registers of a guest
//! and the execution context captured from the host kernel.

use crate::bits::bit_range;
use crate::bits::get_bits_u32;
use vstd::prelude::*;

verus! {

/// The general-purpose registers, in the order in which the trap path lays
/// them out in memory. The slot between `rbx` and `rbp` stands where the
/// stack pointer would be; the hardware keeps the real one.
#[derive(Clone, Copy, Debug, PartialEq, Eq, Structural)]
pub struct GeneralRegisters {
    pub rax: u64,
    pub rcx: u64,
    pub rdx: u64,
    pub rbx: u64,
    pub unused_rsp: u64,
    pub rbp: u64,
    pub rsi: u64,
    pub rdi: u64,
    pub r8: u64,
    pub r9: u64,
    pub r10: u64,
    pub r11: u64,
    pub r12: u64,
    pub r13: u64,
    pub r14: u64,
    pub r15: u64,
}

impl GeneralRegisters {
    pub open spec fn spec_zeroed() -> GeneralRegisters {
        GeneralRegisters {
            rax: 0,
            rcx: 0,
            rdx: 0,
            rbx: 0,
            unused_rsp: 0,
            rbp: 0,
            rsi: 0,
            rdi: 0,
            r8: 0,
            r9: 0,
            r10: 0,
            r11: 0,
            r12: 0,
            r13: 0,
            r14: 0,
            r15: 0,
        }
    }

    /// A register file with every register zero.
    pub fn zeroed() -> (regs: GeneralRegisters)
        ensures
            regs == GeneralRegisters::spec_zeroed(),
    {
        GeneralRegisters {
            rax: 0,
            rcx: 0,
            rdx: 0,
            rbx: 0,
            unused_rsp: 0,
            rbp: 0,
            rsi: 0,
            rdi: 0,
            r8: 0,
            r9: 0,
            r10: 0,
            r11: 0,
            r12: 0,
            r13: 0,
            r14: 0,
            r15: 0,
        }
    }
}

/// Bit 16 of a segment's access rights: the segment is unusable.
pub const SEGMENT_UNUSABLE: u32 = 0x1_0000;

/// The descriptor privilege level held in bits 5 and 6 of access rights.
pub open spec fn spec_dpl(access_rights: u32) -> u32 {
    (access_rights >> 5) & 3
}

/// The descriptor privilege level of a segment with these access rights.
pub fn dpl(access_rights: u32) -> (level: u32)
    ensures
        level == spec_dpl(access_rights),
        level <= 3,
{
    let level = get_bits_u32(access_rights, 5, 7);
    assert(bit_range(access_rights, 5, 7) == (access_rights >> 5) & 3 && (access_rights >> 5) & 3
        <= 3) by (bit_vector);
    level
}

/// One segment register: its selector and the cached descriptor.
#[derive(Clone, Copy, Debug, PartialEq, Eq, Structural)]
pub struct Segment {
    pub selector: u16,
    pub base: u64,
    pub limit: u32,
    pub access_rights: u32,
}

impl Segment {
    pub open spec fn spec_invalid() -> Segment {
        Segment { selector: 0, base: 0, limit: 0, access_rights: SEGMENT_UNUSABLE }
    }

    /// The segment that is marked unusable and describes nothing.
    pub fn invalid() -> (seg: Segment)
        ensures
            seg == Segment::spec_invalid(),
    {
        Segment { selector: 0, base: 0, limit: 0, access_rights: SEGMENT_UNUSABLE }
    }
}

/// The operand of the descriptor-table registers.
#[derive(Clone, Copy, Debug, PartialEq, Eq, Structural)]
pub struct DescriptorTablePointer {
    pub limit: u16,
    pub base: u64,
}

/// The execution context of the host kernel at the moment it handed the
/// core over: what the guest starts from, and what teardown gives back.
#[derive(Clone, Copy, Debug, PartialEq, Eq, Structural)]
pub struct LinuxContext {
    pub rsp: u64,
    pub rip: u64,
    pub r15: u64,
    pub r14: u64,
    pub r13: u64,
    pub r12: u64,
    pub rbx: u64,
    pub rbp: u64,
    pub es: Segment,
    pub cs: Segment,
    pub ss: Segment,
    pub ds: Segment,
    pub fs: Segment,
    pub gs: Segment,
    pub tss: Segment,
    pub gdt: DescriptorTablePointer,
    pub idt: DescriptorTablePointer,
    pub cr0: u64,
    pub cr3: u64,
    pub cr4: u64,
    pub efer: u64,
    pub pat: u64,
}

} // verus!
