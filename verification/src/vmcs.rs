//! The virtual-machine control structure as a typed key-value store.
//!
//! The store stands for the contents of one control-structure region. The
//! processor serves field reads and writes only while the structure is the
//! current one of its core; the store refuses them otherwise, so that a
//! caller that is proved to succeed is proved to respect that order.

use crate::error::HvError;
use crate::error::HvErrorNum;
use crate::error::HvResult;
use crate::fields::VmcsField16;
use crate::fields::VmcsField32;
use crate::fields::VmcsField64;
use vstd::prelude::*;

verus! {

/// Size of the page that a control-structure region occupies.
pub const PAGE_SIZE: u64 = 0x1000;

/// Bit 31 of a region's revision word: the region is a shadow structure.
pub const SHADOW_INDICATOR: u32 = 0x8000_0000;

/// A page of physical memory handed to the processor, tagged with the
/// revision identifier that the processor reported.
#[derive(Clone, Copy, Debug, PartialEq, Eq, Structural)]
pub struct VmxRegion {
    paddr: u64,
    revision: u32,
}

impl VmxRegion {
    pub closed spec fn spec_paddr(&self) -> u64 {
        self.paddr
    }

    pub closed spec fn spec_revision(&self) -> u32 {
        self.revision
    }

    /// The revision word that heads a region made for `revision_id`.
    pub open spec fn revision_word(revision_id: u32, shadow_indicator: bool) -> u32 {
        if shadow_indicator {
            revision_id | SHADOW_INDICATOR
        } else {
            revision_id
        }
    }

    /// Tags the page at `paddr` for use as a region. The page has to start
    /// on a page boundary: any other address is refused as invalid.
    pub fn new(paddr: u64, revision_id: u32, shadow_indicator: bool) -> (r: HvResult<VmxRegion>)
        ensures
            paddr % PAGE_SIZE == 0 ==> r is Ok && r->Ok_0.spec_paddr() == paddr
                && r->Ok_0.spec_revision() == Self::revision_word(revision_id, shadow_indicator),
            paddr % PAGE_SIZE != 0 ==> r == Err::<VmxRegion, HvError>(
                HvError { num: HvErrorNum::EINVAL },
            ),
    {
        if paddr % PAGE_SIZE != 0 {
            return Err(HvError::new(HvErrorNum::EINVAL));
        }
        let revision = if shadow_indicator {
            revision_id | SHADOW_INDICATOR
        } else {
            revision_id
        };
        Ok(VmxRegion { paddr, revision })
    }

    #[verifier::when_used_as_spec(spec_paddr)]
    pub fn paddr(&self) -> (p: u64)
        ensures
            p == self.spec_paddr(),
    {
        self.paddr
    }

    #[verifier::when_used_as_spec(spec_revision)]
    pub fn revision(&self) -> (r: u32)
        ensures
            r == self.spec_revision(),
    {
        self.revision
    }
}

/// The contents of one control structure.
#[derive(Clone, Debug, PartialEq, Eq)]
pub struct Vmcs {
    current: bool,
    cells16: [u16; 15],
    cells32: [u32; 41],
    cells64: [u64; 47],
}

/// The error that a refused control-structure access is reported as.
pub open spec fn vm_fail() -> HvError {
    HvError { num: HvErrorNum::EIO }
}

impl Vmcs {
    /// Whether the structure is the current one of its core.
    pub closed spec fn spec_is_current(&self) -> bool {
        self.current
    }

    /// What the 16-bit field `field` holds.
    pub closed spec fn value16(&self, field: VmcsField16) -> u16 {
        self.cells16@[field.spec_index()]
    }

    /// What the 32-bit field `field` holds.
    pub closed spec fn value32(&self, field: VmcsField32) -> u32 {
        self.cells32@[field.spec_index()]
    }

    /// What the 64-bit field `field` holds.
    pub closed spec fn value64(&self, field: VmcsField64) -> u64 {
        self.cells64@[field.spec_index()]
    }

    /// Both stores hold the same in every field.
    pub open spec fn same_fields(&self, other: &Vmcs) -> bool {
        &&& forall|f: VmcsField16| self.value16(f) == other.value16(f)
        &&& forall|f: VmcsField32| self.value32(f) == other.value32(f)
        &&& forall|f: VmcsField64| self.value64(f) == other.value64(f)
    }

    /// `self` is `before` with `value` in the 16-bit field `field`.
    pub open spec fn is_update16(&self, before: &Vmcs, field: VmcsField16, value: u16) -> bool {
        &&& self.spec_is_current() == before.spec_is_current()
        &&& forall|f: VmcsField16|
            self.value16(f) == if f == field {
                value
            } else {
                before.value16(f)
            }
        &&& forall|f: VmcsField32| self.value32(f) == before.value32(f)
        &&& forall|f: VmcsField64| self.value64(f) == before.value64(f)
    }

    /// `self` is `before` with `value` in the 32-bit field `field`.
    pub open spec fn is_update32(&self, before: &Vmcs, field: VmcsField32, value: u32) -> bool {
        &&& self.spec_is_current() == before.spec_is_current()
        &&& forall|f: VmcsField16| self.value16(f) == before.value16(f)
        &&& forall|f: VmcsField32|
            self.value32(f) == if f == field {
                value
            } else {
                before.value32(f)
            }
        &&& forall|f: VmcsField64| self.value64(f) == before.value64(f)
    }

    /// `self` is `before` with `value` in the 64-bit field `field`.
    pub open spec fn is_update64(&self, before: &Vmcs, field: VmcsField64, value: u64) -> bool {
        &&& self.spec_is_current() == before.spec_is_current()
        &&& forall|f: VmcsField16| self.value16(f) == before.value16(f)
        &&& forall|f: VmcsField32| self.value32(f) == before.value32(f)
        &&& forall|f: VmcsField64|
            self.value64(f) == if f == field {
                value
            } else {
                before.value64(f)
            }
    }

    /// `self` is `before` with a general-protection fault, error code zero,
    /// waiting to be delivered on the next entry.
    pub open spec fn is_fault_injected(&self, before: &Vmcs) -> bool {
        &&& self.spec_is_current() == before.spec_is_current()
        &&& forall|f: VmcsField16| self.value16(f) == before.value16(f)
        &&& forall|f: VmcsField32|
            self.value32(f) == if f == VmcsField32::VmEntryIntrInfo {
                crate::exit_info::GENERAL_PROTECTION_INJECTION
            } else if f == VmcsField32::VmEntryExceptionErrorCode {
                0
            } else {
                before.value32(f)
            }
        &&& forall|f: VmcsField64| self.value64(f) == before.value64(f)
    }

    /// The contents of a region that was just initialised: every field
    /// zero, and not current on any core.
    pub fn new() -> (vmcs: Vmcs)
        ensures
            !vmcs.spec_is_current(),
            forall|f: VmcsField16| vmcs.value16(f) == 0,
            forall|f: VmcsField32| vmcs.value32(f) == 0,
            forall|f: VmcsField64| vmcs.value64(f) == 0,
    {
        Vmcs { current: false, cells16: [0u16; 15], cells32: [0u32; 41], cells64: [0u64; 47] }
    }

    #[verifier::when_used_as_spec(spec_is_current)]
    pub fn is_current(&self) -> (b: bool)
        ensures
            b == self.spec_is_current(),
    {
        self.current
    }

    /// Makes the structure inactive and not current. The processor accepts
    /// this only in VMX operation.
    pub fn clear(&mut self, vmx_operation: bool) -> (r: HvResult)
        ensures
            final(self).same_fields(old(self)),
            vmx_operation ==> r is Ok && !final(self).spec_is_current(),
            !vmx_operation ==> r == Err::<(), HvError>(vm_fail()) && final(self).spec_is_current()
                == old(self).spec_is_current(),
    {
        if !vmx_operation {
            return Err(HvError::new(HvErrorNum::EIO));
        }
        self.current = false;
        Ok(())
    }

    /// Makes the structure the current one of its core. The processor
    /// accepts this only in VMX operation.
    pub fn load(&mut self, vmx_operation: bool) -> (r: HvResult)
        ensures
            final(self).same_fields(old(self)),
            vmx_operation ==> r is Ok && final(self).spec_is_current(),
            !vmx_operation ==> r == Err::<(), HvError>(vm_fail()) && final(self).spec_is_current()
                == old(self).spec_is_current(),
    {
        if !vmx_operation {
            return Err(HvError::new(HvErrorNum::EIO));
        }
        self.current = true;
        Ok(())
    }

    /// Reads a 16-bit field of the current structure.
    pub fn read16(&self, field: VmcsField16) -> (r: HvResult<u16>)
        ensures
            self.spec_is_current() ==> r == Ok::<u16, HvError>(self.value16(field)),
            !self.spec_is_current() ==> r == Err::<u16, HvError>(vm_fail()),
    {
        if !self.current {
            return Err(HvError::new(HvErrorNum::EIO));
        }
        Ok(self.cells16[field.index()])
    }

    /// Reads a 32-bit field of the current structure.
    pub fn read32(&self, field: VmcsField32) -> (r: HvResult<u32>)
        ensures
            self.spec_is_current() ==> r == Ok::<u32, HvError>(self.value32(field)),
            !self.spec_is_current() ==> r == Err::<u32, HvError>(vm_fail()),
    {
        if !self.current {
            return Err(HvError::new(HvErrorNum::EIO));
        }
        Ok(self.cells32[field.index()])
    }

    /// Reads a 64-bit field of the current structure.
    pub fn read64(&self, field: VmcsField64) -> (r: HvResult<u64>)
        ensures
            self.spec_is_current() ==> r == Ok::<u64, HvError>(self.value64(field)),
            !self.spec_is_current() ==> r == Err::<u64, HvError>(vm_fail()),
    {
        if !self.current {
            return Err(HvError::new(HvErrorNum::EIO));
        }
        Ok(self.cells64[field.index()])
    }

    /// Writes a 16-bit field of the current structure. A field that only
    /// the processor writes is refused.
    pub fn write16(&mut self, field: VmcsField16, value: u16) -> (r: HvResult)
        ensures
            old(self).spec_is_current() && !field.spec_is_read_only() ==> r is Ok && final(self).is_update16(old(self), field, value),
            !old(self).spec_is_current() || field.spec_is_read_only() ==> r == Err::<(), HvError>(
                vm_fail(),
            ) && *final(self) == *old(self),
    {
        if !self.current || field.is_read_only() {
            return Err(HvError::new(HvErrorNum::EIO));
        }
        let i = field.index();
        self.cells16[i] = value;
        Ok(())
    }

    /// Writes a 32-bit field of the current structure. A field that only
    /// the processor writes is refused.
    pub fn write32(&mut self, field: VmcsField32, value: u32) -> (r: HvResult)
        ensures
            old(self).spec_is_current() && !field.spec_is_read_only() ==> r is Ok && final(self).is_update32(old(self), field, value),
            !old(self).spec_is_current() || field.spec_is_read_only() ==> r == Err::<(), HvError>(
                vm_fail(),
            ) && *final(self) == *old(self),
    {
        if !self.current || field.is_read_only() {
            return Err(HvError::new(HvErrorNum::EIO));
        }
        let i = field.index();
        self.cells32[i] = value;
        Ok(())
    }

    /// Writes a 64-bit field of the current structure. A field that only
    /// the processor writes is refused.
    pub fn write64(&mut self, field: VmcsField64, value: u64) -> (r: HvResult)
        ensures
            old(self).spec_is_current() && !field.spec_is_read_only() ==> r is Ok && final(self).is_update64(old(self), field, value),
            !old(self).spec_is_current() || field.spec_is_read_only() ==> r == Err::<(), HvError>(
                vm_fail(),
            ) && *final(self) == *old(self),
    {
        if !self.current || field.is_read_only() {
            return Err(HvError::new(HvErrorNum::EIO));
        }
        let i = field.index();
        self.cells64[i] = value;
        Ok(())
    }

    /// What the field holds, whether or not the structure is current: for
    /// the code that mirrors the store to and from the processor.
    pub fn peek16(&self, field: VmcsField16) -> (value: u16)
        ensures
            value == self.value16(field),
    {
        self.cells16[field.index()]
    }

    /// As `peek16`, for a 32-bit field.
    pub fn peek32(&self, field: VmcsField32) -> (value: u32)
        ensures
            value == self.value32(field),
    {
        self.cells32[field.index()]
    }

    /// As `peek16`, for a 64-bit field.
    pub fn peek64(&self, field: VmcsField64) -> (value: u64)
        ensures
            value == self.value64(field),
    {
        self.cells64[field.index()]
    }

    /// Records what the processor holds in the field, whether or not the
    /// structure is current: this is how the fields that only the processor
    /// writes get their values.
    pub fn poke16(&mut self, field: VmcsField16, value: u16)
        ensures
            final(self).is_update16(old(self), field, value),
    {
        let i = field.index();
        self.cells16[i] = value;
    }

    /// As `poke16`, for a 32-bit field.
    pub fn poke32(&mut self, field: VmcsField32, value: u32)
        ensures
            final(self).is_update32(old(self), field, value),
    {
        let i = field.index();
        self.cells32[i] = value;
    }

    /// As `poke16`, for a 64-bit field.
    pub fn poke64(&mut self, field: VmcsField64, value: u64)
        ensures
            final(self).is_update64(old(self), field, value),
    {
        let i = field.index();
        self.cells64[i] = value;
    }

    /// Takes over from `changed` every field that it holds otherwise than
    /// `base`, and leaves the other fields as they are: what was changed in
    /// one copy of a structure is carried into another.
    pub fn overlay(&mut self, base: &Vmcs, changed: &Vmcs)
        ensures
            final(self).spec_is_current() == old(self).spec_is_current(),
            forall|f: VmcsField16|
                final(self).value16(f) == if changed.value16(f) != base.value16(f) {
                    changed.value16(f)
                } else {
                    old(self).value16(f)
                },
            forall|f: VmcsField32|
                final(self).value32(f) == if changed.value32(f) != base.value32(f) {
                    changed.value32(f)
                } else {
                    old(self).value32(f)
                },
            forall|f: VmcsField64|
                final(self).value64(f) == if changed.value64(f) != base.value64(f) {
                    changed.value64(f)
                } else {
                    old(self).value64(f)
                },
    {
        let ghost start = *self;
        let mut i: usize = 0;
        while i < 15
            invariant
                i <= 15,
                self.current == start.current,
                self.cells32 == start.cells32,
                self.cells64 == start.cells64,
                forall|k: int|
                    0 <= k < i ==> self.cells16@[k] == if changed.cells16@[k] != base.cells16@[k] {
                        changed.cells16@[k]
                    } else {
                        start.cells16@[k]
                    },
                forall|k: int| i <= k < 15 ==> self.cells16@[k] == start.cells16@[k],
            decreases 15 - i,
        {
            if changed.cells16[i] != base.cells16[i] {
                self.cells16[i] = changed.cells16[i];
            }
            i += 1;
        }
        let mut i: usize = 0;
        while i < 41
            invariant
                i <= 41,
                self.current == start.current,
                self.cells64 == start.cells64,
                forall|f: VmcsField16|
                    self.value16(f) == if changed.value16(f) != base.value16(f) {
                        changed.value16(f)
                    } else {
                        start.value16(f)
                    },
                forall|k: int|
                    0 <= k < i ==> self.cells32@[k] == if changed.cells32@[k] != base.cells32@[k] {
                        changed.cells32@[k]
                    } else {
                        start.cells32@[k]
                    },
                forall|k: int| i <= k < 41 ==> self.cells32@[k] == start.cells32@[k],
            decreases 41 - i,
        {
            if changed.cells32[i] != base.cells32[i] {
                self.cells32[i] = changed.cells32[i];
            }
            i += 1;
        }
        let mut i: usize = 0;
        while i < 47
            invariant
                i <= 47,
                self.current == start.current,
                forall|f: VmcsField16|
                    self.value16(f) == if changed.value16(f) != base.value16(f) {
                        changed.value16(f)
                    } else {
                        start.value16(f)
                    },
                forall|f: VmcsField32|
                    self.value32(f) == if changed.value32(f) != base.value32(f) {
                        changed.value32(f)
                    } else {
                        start.value32(f)
                    },
                forall|k: int|
                    0 <= k < i ==> self.cells64@[k] == if changed.cells64@[k] != base.cells64@[k] {
                        changed.cells64@[k]
                    } else {
                        start.cells64@[k]
                    },
                forall|k: int| i <= k < 47 ==> self.cells64@[k] == start.cells64@[k],
            decreases 47 - i,
        {
            if changed.cells64[i] != base.cells64[i] {
                self.cells64[i] = changed.cells64[i];
            }
            i += 1;
        }
    }

    /// Sets the bits `set` and clears the bits `clear` of a control field,
    /// within what the capability register of that control allows. The
    /// bits that the capability register demands are set with them, and
    /// the bits that the request does not name keep their value where the
    /// capability register leaves them free. A request that the capability
    /// register does not allow is refused as an invalid configuration, and
    /// nothing is written.
    pub fn set_control(
        &mut self,
        control: VmcsField32,
        capability: u64,
        set: u32,
        clear: u32,
    ) -> (r: HvResult)
        ensures
            !control_request_allowed(capability, set, clear) ==> r == Err::<(), HvError>(
                HvError { num: HvErrorNum::EINVAL },
            ) && *final(self) == *old(self),
            control_request_allowed(capability, set, clear) && (!old(self).spec_is_current()
                || control.spec_is_read_only()) ==> r == Err::<(), HvError>(vm_fail()) && *final(self) == *old(self),
            control_request_allowed(capability, set, clear) && old(self).spec_is_current()
                && !control.spec_is_read_only() ==> r is Ok && final(self).is_update32(
                old(self),
                control,
                control_value(capability, old(self).value32(control), set, clear),
            ),
    {
        let must = allowed0(capability);
        let may = allowed1(capability);
        if (must & !may) != 0 || (set & clear) != 0 || (set & !may) != 0 || (clear & must) != 0 {
            return Err(HvError::new(HvErrorNum::EINVAL));
        }
        let before = self.read32(control)?;
        self.write32(control, must | set | (before & may & !clear))
    }
}

/// The bits that a capability register demands to be 1: its low half.
pub open spec fn spec_allowed0(capability: u64) -> u32 {
    (capability & 0xFFFF_FFFF) as u32
}

/// The bits that a capability register allows to be 1: its high half.
pub open spec fn spec_allowed1(capability: u64) -> u32 {
    (capability >> 32) as u32
}

#[verifier::when_used_as_spec(spec_allowed0)]
pub fn allowed0(capability: u64) -> (bits: u32)
    ensures
        bits == spec_allowed0(capability),
{
    assert(capability & 0xFFFF_FFFF <= 0xFFFF_FFFF) by (bit_vector);
    (capability & 0xFFFF_FFFF) as u32
}

#[verifier::when_used_as_spec(spec_allowed1)]
pub fn allowed1(capability: u64) -> (bits: u32)
    ensures
        bits == spec_allowed1(capability),
{
    assert(capability >> 32 <= 0xFFFF_FFFF) by (bit_vector);
    (capability >> 32) as u32
}

/// Whether the capability register is consistent and allows every bit of
/// `set` to be 1 and every bit of `clear` to be 0, and the two do not
/// overlap.
pub open spec fn control_request_allowed(capability: u64, set: u32, clear: u32) -> bool {
    &&& spec_allowed0(capability) & !spec_allowed1(capability) == 0
    &&& set & clear == 0
    &&& set & !spec_allowed1(capability) == 0
    &&& clear & spec_allowed0(capability) == 0
}

/// The value that a control field takes when `set` and `clear` are applied
/// to `before` under `capability`.
pub open spec fn control_value(capability: u64, before: u32, set: u32, clear: u32) -> u32 {
    spec_allowed0(capability) | set | (before & spec_allowed1(capability) & !clear)
}

/// A control value computed for an allowed request is legal and does what
/// was asked: every demanded bit and every bit of `set` is 1, every bit of
/// `clear` and every bit that the capability register forbids is 0, and a
/// bit that is neither demanded nor named keeps the value it had, as far as
/// the capability register allows it.
pub proof fn lemma_control_value_legal(capability: u64, before: u32, set: u32, clear: u32)
    requires
        control_request_allowed(capability, set, clear),
    ensures
        ({
            let value = control_value(capability, before, set, clear);
            let must = spec_allowed0(capability);
            let may = spec_allowed1(capability);
            &&& value & must == must
            &&& value & !may == 0
            &&& value & set == set
            &&& value & clear == 0
            &&& value & !(must | set | clear) == before & may & !(must | set | clear)
        }),
{
    let must = spec_allowed0(capability);
    let may = spec_allowed1(capability);
    let value = must | set | (before & may & !clear);
    assert(value & must == must && value & !may == 0 && value & set == set && value & clear == 0
        && value & !(must | set | clear) == before & may & !(must | set | clear))
        by (bit_vector)
        requires
            value == must | set | (before & may & !clear),
            must & !may == 0,
            set & clear == 0,
            set & !may == 0,
            clear & must == 0,
    ;
}

/// Asking twice is asking once: a control value computed for an allowed
/// request does not change when the same request is applied to it again.
pub proof fn lemma_control_value_idempotent(capability: u64, before: u32, set: u32, clear: u32)
    requires
        control_request_allowed(capability, set, clear),
    ensures
        control_value(capability, control_value(capability, before, set, clear), set, clear)
            == control_value(capability, before, set, clear),
{
    let must = spec_allowed0(capability);
    let may = spec_allowed1(capability);
    assert((must | set | ((must | set | (before & may & !clear)) & may & !clear)) == (must | set | (
    before & may & !clear))) by (bit_vector)
        requires
            must & !may == 0,
            set & clear == 0,
            set & !may == 0,
            clear & must == 0,
    ;
}

} // verus!
