//! The isolation domain of a guest, as far as a virtual CPU deals with it.

use crate::error::HvError;
use crate::error::HvResult;
use crate::fields::VmcsField64;
use crate::vmcs::PAGE_SIZE;
use crate::vmcs::vm_fail;
use crate::vmcs::Vmcs;
use vstd::prelude::*;

verus! {

/// An isolation domain: it owns the mapping of guest-physical memory and
/// knows the pointer under which the processor finds that mapping.
#[derive(Clone, Copy, Debug, PartialEq, Eq, Structural)]
pub struct Cell {
    pub ept_pointer: u64,
}

impl Cell {
    pub fn new(ept_pointer: u64) -> (cell: Cell)
        ensures
            cell.ept_pointer == ept_pointer,
    {
        Cell { ept_pointer }
    }

    /// Installs the domain's address-translation root in the control
    /// structure.
    pub fn activate(&self, vmcs: &mut Vmcs) -> (r: HvResult)
        ensures
            old(vmcs).spec_is_current() ==> r is Ok && final(vmcs).is_update64(
                old(vmcs),
                VmcsField64::EptPointer,
                self.ept_pointer,
            ),
            !old(vmcs).spec_is_current() ==> r == Err::<(), HvError>(vm_fail()) && *final(vmcs)
                == *old(vmcs),
    {
        vmcs.write64(VmcsField64::EptPointer, self.ept_pointer)
    }
}

/// A read-only view of the page table that the guest runs on.
#[derive(Clone, Copy, Debug, PartialEq, Eq, Structural)]
pub struct GuestPageTableImmut {
    pub root: u64,
}

/// The start of the page that holds `addr`.
pub open spec fn spec_align_down(addr: u64) -> u64 {
    (addr - addr % PAGE_SIZE) as u64
}

#[verifier::when_used_as_spec(spec_align_down)]
pub fn align_down(addr: u64) -> (start: u64)
    ensures
        start == spec_align_down(addr),
        start % PAGE_SIZE == 0,
        start <= addr < start + PAGE_SIZE,
{
    addr - addr % PAGE_SIZE
}

impl GuestPageTableImmut {
    /// The view of the table whose top level starts at `root`.
    pub fn from_root(root: u64) -> (table: GuestPageTableImmut)
        ensures
            table.root == root,
    {
        GuestPageTableImmut { root }
    }
}

} // verus!
