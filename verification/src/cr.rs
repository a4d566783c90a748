//! The rules by which guest control registers are written and read.
//!
//! The processor reports, for CR0 and for CR4, which bits must be 0 and
//! which must be 1 while a guest runs. Every value stored for the guest is
//! filtered through those masks. Beside the stored value stands a shadow,
//! which remembers what was asked for, and an ownership mask, which says
//! which bits the host decides: a read puts the host-owned bits of the
//! shadow together with the guest-owned bits of the stored value.

use crate::bits::cr0_cache_control_bits;
use crate::bits::CR0_CACHE_DISABLE;
use crate::bits::cr0_mode_bits;
use crate::bits::CR0_NOT_WRITE_THROUGH;
use crate::bits::CR0_PAGING;
use crate::bits::CR0_PROTECTED_MODE_ENABLE;
use crate::bits::CR4_VMXE;
use crate::bits::cr4_vmxe_bits;
use vstd::prelude::*;

verus! {

/// The fixed-bit masks of one control register: a stored value has no bit
/// outside `must0` and every bit of `must1`.
#[derive(Clone, Copy, Debug, PartialEq, Eq, Structural)]
pub struct FixedBits {
    pub must0: u64,
    pub must1: u64,
}

/// What one write leaves in the control structure.
#[derive(Clone, Copy, Debug, PartialEq, Eq, Structural)]
pub struct CrImage {
    /// The value that the guest runs with.
    pub stored: u64,
    /// The value that was asked for.
    pub shadow: u64,
    /// The bits that the host owns.
    pub host_mask: u64,
}

/// The masks for CR0. Caching stays on whatever the capability register
/// says, so the two cache-control bits are never allowed; paging and
/// protected mode are the guest's to choose, so they are never forced.
pub open spec fn spec_cr0_fixed_bits(fixed0: u64, fixed1: u64) -> FixedBits {
    FixedBits {
        must0: fixed1 & !(CR0_NOT_WRITE_THROUGH | CR0_CACHE_DISABLE),
        must1: fixed0 & !(CR0_PAGING | CR0_PROTECTED_MODE_ENABLE),
    }
}

/// The masks for CR4: those of the capability registers.
pub open spec fn spec_cr4_fixed_bits(fixed0: u64, fixed1: u64) -> FixedBits {
    FixedBits { must0: fixed1, must1: fixed0 }
}

/// The value that a write of `value` to control register `index` asks for:
/// for CR4 the virtual-machine-extensions bit is added to every request.
pub open spec fn spec_requested(index: usize, value: u64) -> u64 {
    if index == 4 {
        value | CR4_VMXE
    } else {
        value
    }
}

/// What a request leaves in the control structure under the masks `fixed`.
pub open spec fn spec_cr_image(requested: u64, fixed: FixedBits) -> CrImage {
    CrImage {
        stored: (requested & fixed.must0) | fixed.must1,
        shadow: requested,
        host_mask: fixed.must1 | !fixed.must0,
    }
}

/// What a read returns: the shadow in the bits that the host owns, the
/// stored value in the others.
pub open spec fn spec_composite(shadow: u64, host_mask: u64, stored: u64) -> u64 {
    (shadow & host_mask) | (stored & !host_mask)
}

pub fn cr0_fixed_bits(fixed0: u64, fixed1: u64) -> (fixed: FixedBits)
    ensures
        fixed == spec_cr0_fixed_bits(fixed0, fixed1),
{
    FixedBits { must0: fixed1 & !cr0_cache_control_bits(), must1: fixed0 & !cr0_mode_bits() }
}

pub fn cr4_fixed_bits(fixed0: u64, fixed1: u64) -> (fixed: FixedBits)
    ensures
        fixed == spec_cr4_fixed_bits(fixed0, fixed1),
{
    FixedBits { must0: fixed1, must1: fixed0 }
}

pub fn requested(index: usize, value: u64) -> (asked: u64)
    ensures
        asked == spec_requested(index, value),
{
    if index == 4 {
        value | cr4_vmxe_bits()
    } else {
        value
    }
}

pub fn cr_image(requested: u64, fixed: FixedBits) -> (image: CrImage)
    ensures
        image == spec_cr_image(requested, fixed),
{
    CrImage {
        stored: (requested & fixed.must0) | fixed.must1,
        shadow: requested,
        host_mask: fixed.must1 | !fixed.must0,
    }
}

pub fn composite(shadow: u64, host_mask: u64, stored: u64) -> (value: u64)
    ensures
        value == spec_composite(shadow, host_mask, stored),
{
    (shadow & host_mask) | (stored & !host_mask)
}

/// Every stored value obeys the masks: filtering it through them once
/// more changes nothing, it has every bit of `must1`, and in the bits that
/// the guest owns it agrees with what was asked for.
pub proof fn lemma_stored_obeys_masks(requested: u64, fixed: FixedBits)
    ensures
        ({
            let image = spec_cr_image(requested, fixed);
            let guest_owned = fixed.must0 & !fixed.must1;
            &&& image.stored & fixed.must1 == fixed.must1
            &&& image.stored & guest_owned == requested & guest_owned
            &&& image.stored & !image.host_mask == requested & !image.host_mask
            &&& (image.stored & fixed.must0) | fixed.must1 == image.stored
        }),
{
    let must0 = fixed.must0;
    let must1 = fixed.must1;
    let stored = (requested & must0) | must1;
    let host_mask = must1 | !must0;
    assert(stored & must1 == must1 && stored & (must0 & !must1) == requested & (must0 & !must1)
        && stored & !host_mask == requested & !host_mask && (stored & must0) | must1 == stored)
        by (bit_vector)
        requires
            stored == (requested & must0) | must1,
            host_mask == must1 | !must0,
    ;
}

/// A write of `value` to CR0 or CR4 stores a value that has every bit of
/// `must1`, and that agrees with `value` in the bits that the guest owns.
/// For CR4 the agreement leaves out the one case in which it cannot hold:
/// the guest owns the virtual-machine-extensions bit and `value` lacks it,
/// for then the bit is stored as 1 all the same.
pub proof fn lemma_write_keeps_guest_bits(index: usize, value: u64, fixed: FixedBits)
    requires
        index == 0 || index == 4,
        index == 4 ==> value & CR4_VMXE != 0 || fixed.must0 & !fixed.must1 & CR4_VMXE == 0,
    ensures
        ({
            let image = spec_cr_image(spec_requested(index, value), fixed);
            let guest_owned = fixed.must0 & !fixed.must1;
            &&& image.stored & fixed.must1 == fixed.must1
            &&& image.stored & guest_owned == value & guest_owned
        }),
{
    lemma_stored_obeys_masks(spec_requested(index, value), fixed);
    let must0 = fixed.must0;
    let must1 = fixed.must1;
    if index == 4 {
        assert((value | 0x2000) & (must0 & !must1) == value & (must0 & !must1)) by (bit_vector)
            requires
                value & 0x2000 != 0 || must0 & !must1 & 0x2000 == 0,
        ;
    }
}

/// Every write to CR4 stores the virtual-machine-extensions bit as 1,
/// whatever was asked for, as long as the capability registers demand or
/// allow the bit.
pub proof fn lemma_cr4_keeps_vmxe(value: u64, fixed: FixedBits)
    requires
        (fixed.must0 | fixed.must1) & CR4_VMXE != 0,
    ensures
        spec_cr_image(spec_requested(4, value), fixed).stored & CR4_VMXE == CR4_VMXE,
{
    let must0 = fixed.must0;
    let must1 = fixed.must1;
    assert((((value | 0x2000) & must0) | must1) & 0x2000 == 0x2000) by (bit_vector)
        requires
            (must0 | must1) & 0x2000 != 0,
    ;
}

/// A read that follows a write returns what the write asked for: the
/// composite of the three values that the write left behind is the
/// requested value itself, bit for bit.
pub proof fn lemma_read_after_write(requested: u64, fixed: FixedBits)
    ensures
        ({
            let image = spec_cr_image(requested, fixed);
            spec_composite(image.shadow, image.host_mask, image.stored) == requested
        }),
{
    let must0 = fixed.must0;
    let must1 = fixed.must1;
    assert((requested & (must1 | !must0)) | (((requested & must0) | must1) & !(must1 | !must0))
        == requested) by (bit_vector);
}

} // verus!
