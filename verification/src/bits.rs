//! Bits of the control registers, and the calls into the crates that
//! define them. The constants are for contracts; the code gets its bits
//! through the calls, whose contracts tie the two together.

use bit_field::BitField;
use vstd::prelude::*;
use x86_64::registers::control::Cr0Flags;
use x86_64::registers::control::Cr4Flags;

verus! {

/// CR0.PE, protected mode enable.
pub const CR0_PROTECTED_MODE_ENABLE: u64 = 0x1;

/// CR0.NW, not write-through.
pub const CR0_NOT_WRITE_THROUGH: u64 = 0x2000_0000;

/// CR0.CD, cache disable.
pub const CR0_CACHE_DISABLE: u64 = 0x4000_0000;

/// CR0.PG, paging.
pub const CR0_PAGING: u64 = 0x8000_0000;

/// The CR0 bits that `x86_64` defines a flag for.
pub const CR0_DEFINED: u64 = 0xE005_003F;

/// CR4.VMXE, virtual machine extensions enable.
pub const CR4_VMXE: u64 = 0x2000;

/// CR4.OSXSAVE, extended state save enable.
pub const CR4_OSXSAVE: u64 = 0x4_0000;

/// The CR4 bits that `x86_64` defines a flag for.
pub const CR4_DEFINED: u64 = 0x01FF_7FFF;

/// The field of `value` that starts at bit `start` and ends before bit `end`,
/// moved down to bit 0.
pub open spec fn bit_range(value: u32, start: usize, end: usize) -> u32 {
    if start == end {
        0
    } else {
        ((value << ((32 - end) as u32)) >> ((32 - end) as u32)) >> (start as u32)
    }
}

/// `BitField::get_bits` of `bit_field` on a `u32`, for the range
/// `start..end`. The crate shifts the bits above `end` out to the left,
/// moves the value back and then shifts the bits below `start` out to the
/// right; it panics unless `start < 32`, `end <= 32` and `start <= end`.
#[verifier::external_body]
pub(crate) fn get_bits_u32(value: u32, start: usize, end: usize) -> (bits: u32)
    requires
        start < 32,
        end <= 32,
        start <= end,
    ensures
        bits == bit_range(value, start, end),
{
    value.get_bits(start..end)
}

/// `Cr0Flags::from_bits_truncate` of `x86_64`, read back with `bits`: the
/// crate keeps the bits that it defines a CR0 flag for and clears the rest.
#[verifier::external_body]
pub(crate) fn cr0_from_bits_truncate(raw: u64) -> (kept: u64)
    ensures
        kept == raw & CR0_DEFINED,
{
    Cr0Flags::from_bits_truncate(raw).bits()
}

/// `Cr4Flags::from_bits_truncate` of `x86_64`, read back with `bits`: the
/// crate keeps the bits that it defines a CR4 flag for and clears the rest.
#[verifier::external_body]
pub(crate) fn cr4_from_bits_truncate(raw: u64) -> (kept: u64)
    ensures
        kept == raw & CR4_DEFINED,
{
    Cr4Flags::from_bits_truncate(raw).bits()
}

/// The union of `Cr0Flags::NOT_WRITE_THROUGH` and `Cr0Flags::CACHE_DISABLE`
/// of `x86_64`, as bits.
#[verifier::external_body]
pub(crate) fn cr0_cache_control_bits() -> (bits: u64)
    ensures
        bits == CR0_NOT_WRITE_THROUGH | CR0_CACHE_DISABLE,
{
    Cr0Flags::NOT_WRITE_THROUGH.union(Cr0Flags::CACHE_DISABLE).bits()
}

/// The union of `Cr0Flags::PAGING` and `Cr0Flags::PROTECTED_MODE_ENABLE` of
/// `x86_64`, as bits.
#[verifier::external_body]
pub(crate) fn cr0_mode_bits() -> (bits: u64)
    ensures
        bits == CR0_PAGING | CR0_PROTECTED_MODE_ENABLE,
{
    Cr0Flags::PAGING.union(Cr0Flags::PROTECTED_MODE_ENABLE).bits()
}

/// `Cr4Flags::VIRTUAL_MACHINE_EXTENSIONS` of `x86_64`, as bits.
#[verifier::external_body]
pub(crate) fn cr4_vmxe_bits() -> (bits: u64)
    ensures
        bits == CR4_VMXE,
{
    Cr4Flags::VIRTUAL_MACHINE_EXTENSIONS.bits()
}

/// `Cr4Flags::OSXSAVE` of `x86_64`, as bits.
#[verifier::external_body]
pub(crate) fn cr4_osxsave_bits() -> (bits: u64)
    ensures
        bits == CR4_OSXSAVE,
{
    Cr4Flags::OSXSAVE.bits()
}

} // verus!
