//! The state of one physical core, as far as the virtual CPU reads or
//! changes it: capability registers, model-specific registers, control
//! registers, and whether the core is in VMX operation.

use crate::bits::CR4_VMXE;
use crate::error::HvError;
use crate::error::HvErrorNum;
use crate::error::HvResult;
use crate::vmcs::vm_fail;
use crate::vmcs::VmxRegion;
use vstd::prelude::*;

verus! {

/// Feature control: the register is locked.
pub const FEATURE_CONTROL_LOCKED: u64 = 0x1;

/// Feature control: VMX may be entered inside secure mode.
pub const FEATURE_CONTROL_VMXON_INSIDE_SMX: u64 = 0x2;

/// Feature control: VMX may be entered outside secure mode.
pub const FEATURE_CONTROL_VMXON_OUTSIDE_SMX: u64 = 0x4;

/// The bits of CR3 that hold the address of the top-level page table.
pub const CR3_ADDRESS: u64 = 0x000F_FFFF_FFFF_F000;

/// The bits of the basic capability register that hold the revision
/// identifier.
pub const VMX_BASIC_REVISION: u64 = 0x7FFF_FFFF;

/// The value that CR0 of the host is brought to before VMX operation is
/// entered: paging, write protection, native numeric errors, extension
/// type, task switched, coprocessor monitoring and protected mode.
pub const HOST_CR0: u64 = 0x8001_003B;

/// The value that CR4 of the host is brought to before VMX operation is
/// entered, but for the bits that entering needs: physical address
/// extension.
pub const HOST_CR4: u64 = 0x20;

/// The page frames that a virtual CPU is given: one for the activation
/// region, one for the control structure, and the frame of the bitmap of
/// register accesses that all cores share.
#[derive(Clone, Copy, Debug, PartialEq, Eq, Structural)]
pub struct VmxFrames {
    pub vmxon: u64,
    pub vmcs: u64,
    pub msr_bitmap: u64,
}

/// The capability registers of the core. They never change.
#[derive(Clone, Copy, Debug, PartialEq, Eq, Structural)]
pub struct VmxCapabilities {
    pub basic: u64,
    pub pinbased_ctls: u64,
    pub procbased_ctls: u64,
    pub procbased_ctls2: u64,
    pub exit_ctls: u64,
    pub entry_ctls: u64,
    pub cr0_fixed0: u64,
    pub cr0_fixed1: u64,
    pub cr4_fixed0: u64,
    pub cr4_fixed1: u64,
}

/// The processor features that the setup of a virtual CPU depends on.
#[derive(Clone, Copy, Debug, PartialEq, Eq, Structural)]
pub struct CpuFeatures {
    pub perf_monitor_version_id: u8,
    pub xsave: bool,
    pub rdtscp: bool,
    pub invpcid: bool,
    pub xsaves_xrstors: bool,
}

/// Where the host's own tables and entry points lie on this core.
#[derive(Clone, Copy, Debug, PartialEq, Eq, Structural)]
pub struct HostLayout {
    /// Selector of the host code segment.
    pub kcode_selector: u16,
    /// Selector of the host task-state segment.
    pub tss_selector: u16,
    /// Base of the host global descriptor table.
    pub gdt_base: u64,
    /// Base of the host interrupt descriptor table.
    pub idt_base: u64,
    /// Top of the stack on which the host handles traps.
    pub stack_top: u64,
    /// Address of the word from which the trap path loads that stack top.
    pub stack_top_slot: u64,
    /// Address of the trap path's first instruction.
    pub exit_entry: u64,
}

/// One physical core.
#[derive(Clone, Copy, Debug, PartialEq, Eq, Structural)]
pub struct HostCpu {
    pub caps: VmxCapabilities,
    pub features: CpuFeatures,
    pub layout: HostLayout,
    pub feature_control: u64,
    pub perf_global_ctrl: u64,
    pub pat: u64,
    pub efer: u64,
    pub gs_base: u64,
    pub sysenter_cs: u64,
    pub sysenter_esp: u64,
    pub sysenter_eip: u64,
    pub cr0: u64,
    pub cr3: u64,
    pub cr4: u64,
    /// Whether the core is in VMX operation.
    pub vmx_operation: bool,
}

impl VmxCapabilities {
    /// The revision identifier that regions must be tagged with.
    pub open spec fn spec_revision_id(&self) -> u32 {
        (self.basic & VMX_BASIC_REVISION) as u32
    }

    #[verifier::when_used_as_spec(spec_revision_id)]
    pub fn revision_id(&self) -> (id: u32)
        ensures
            id == self.spec_revision_id(),
    {
        let basic = self.basic;
        assert(basic & 0x7FFF_FFFF <= 0x7FFF_FFFF) by (bit_vector);
        (basic & VMX_BASIC_REVISION) as u32
    }
}

impl HostCpu {
    /// Whether the processor would accept the instruction that enters VMX
    /// operation with `region`: the extensions are enabled in CR4, feature
    /// control is locked with entry outside secure mode allowed, the core
    /// is not in VMX operation yet, and the region carries the revision
    /// identifier of this processor.
    pub open spec fn vmxon_allowed(&self, region: &VmxRegion) -> bool {
        &&& self.cr4 & CR4_VMXE != 0
        &&& self.feature_control & FEATURE_CONTROL_LOCKED != 0
        &&& self.feature_control & FEATURE_CONTROL_VMXON_OUTSIDE_SMX != 0
        &&& !self.vmx_operation
        &&& region.spec_revision() == self.caps.spec_revision_id()
    }

    /// Enters VMX operation with `region` as the activation region.
    pub fn vmxon(&mut self, region: &VmxRegion) -> (r: HvResult)
        ensures
            old(self).vmxon_allowed(region) ==> r is Ok && *final(self) == (HostCpu {
                vmx_operation: true,
                ..*old(self)
            }),
            !old(self).vmxon_allowed(region) ==> r == Err::<(), HvError>(vm_fail()) && *final(self)
                == *old(self),
    {
        if self.cr4 & CR4_VMXE == 0 || self.feature_control & FEATURE_CONTROL_LOCKED == 0
            || self.feature_control & FEATURE_CONTROL_VMXON_OUTSIDE_SMX == 0 || self.vmx_operation
            || region.revision() != self.caps.revision_id() {
            return Err(HvError::new(HvErrorNum::EIO));
        }
        self.vmx_operation = true;
        Ok(())
    }

    /// Leaves VMX operation. The core has to be in VMX operation, and no
    /// control structure may be current on it any more: one that still is
    /// has to be cleared first.
    pub fn vmxoff(&mut self, structure_current: bool) -> (r: HvResult)
        ensures
            old(self).vmx_operation && !structure_current ==> r is Ok && *final(self) == (HostCpu {
                vmx_operation: false,
                ..*old(self)
            }),
            !old(self).vmx_operation || structure_current ==> r == Err::<(), HvError>(vm_fail())
                && *final(self) == *old(self),
    {
        if !self.vmx_operation || structure_current {
            return Err(HvError::new(HvErrorNum::EIO));
        }
        self.vmx_operation = false;
        Ok(())
    }

    /// The address of the top-level page table that CR3 names.
    pub open spec fn spec_page_table_root(&self) -> u64 {
        self.cr3 & CR3_ADDRESS
    }

    #[verifier::when_used_as_spec(spec_page_table_root)]
    pub fn page_table_root(&self) -> (root: u64)
        ensures
            root == self.spec_page_table_root(),
    {
        self.cr3 & CR3_ADDRESS
    }
}

} // verus!
