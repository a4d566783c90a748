//! What the processor reports when a guest traps to the host.

use crate::error::HvError;
use crate::error::HvResult;
use crate::fields::VmcsField32;
use crate::fields::VmcsField64;
use crate::vmcs::vm_fail;
use crate::vmcs::Vmcs;
use vstd::prelude::*;

verus! {

/// Bit 31 of the exit-reason field: the exit was a failed entry.
pub const EXIT_REASON_ENTRY_FAILURE: u32 = 0x8000_0000;

/// The bits of the exit-reason field that hold the basic reason.
pub const EXIT_REASON_BASIC: u32 = 0xFFFF;

/// The bits of the interruption-information field that hold the vector.
pub const INTR_INFO_VECTOR: u32 = 0xFF;

/// Vector of the non-maskable interrupt.
pub const NMI_VECTOR: u8 = 2;

/// Vector of the general-protection fault.
pub const GENERAL_PROTECTION_VECTOR: u8 = 13;

/// The interruption information that asks the processor to deliver a
/// general-protection fault with an error code on the next entry: the
/// vector 13 in bits 0 to 7, the type "hardware exception" (3) in bits 8 to
/// 10, "deliver error code" in bit 11 and "valid" in bit 31.
pub const GENERAL_PROTECTION_INJECTION: u32 = 0x8000_0B0D;

/// Length in bytes of the instruction by which a guest calls the host.
pub const VMCALL_LENGTH: u8 = 3;

/// The basic reasons for an exit that the dispatcher tells apart.
#[derive(Clone, Copy, Debug, PartialEq, Eq, Structural)]
pub enum VmxExitReason {
    ExceptionNmi,
    TripleFault,
    Cpuid,
    Vmcall,
    MsrRead,
    MsrWrite,
    EptViolation,
    PreemptionTimer,
    /// Any other basic reason, with its number.
    Other(u32),
}

impl VmxExitReason {
    pub open spec fn spec_from_basic(basic: u32) -> VmxExitReason {
        if basic == 0 {
            VmxExitReason::ExceptionNmi
        } else if basic == 2 {
            VmxExitReason::TripleFault
        } else if basic == 10 {
            VmxExitReason::Cpuid
        } else if basic == 18 {
            VmxExitReason::Vmcall
        } else if basic == 31 {
            VmxExitReason::MsrRead
        } else if basic == 32 {
            VmxExitReason::MsrWrite
        } else if basic == 48 {
            VmxExitReason::EptViolation
        } else if basic == 52 {
            VmxExitReason::PreemptionTimer
        } else {
            VmxExitReason::Other(basic)
        }
    }

    /// The reason that the architecture numbers `basic`.
    pub fn from_basic(basic: u32) -> (reason: VmxExitReason)
        ensures
            reason == Self::spec_from_basic(basic),
    {
        if basic == 0 {
            VmxExitReason::ExceptionNmi
        } else if basic == 2 {
            VmxExitReason::TripleFault
        } else if basic == 10 {
            VmxExitReason::Cpuid
        } else if basic == 18 {
            VmxExitReason::Vmcall
        } else if basic == 31 {
            VmxExitReason::MsrRead
        } else if basic == 32 {
            VmxExitReason::MsrWrite
        } else if basic == 48 {
            VmxExitReason::EptViolation
        } else if basic == 52 {
            VmxExitReason::PreemptionTimer
        } else {
            VmxExitReason::Other(basic)
        }
    }
}

/// One trap, as read from the control structure.
#[derive(Clone, Copy, Debug, PartialEq, Eq, Structural)]
pub struct VmExitInfo {
    /// The exit happened while the processor tried to enter the guest.
    pub entry_failure: bool,
    pub exit_reason: VmxExitReason,
    /// Length of the instruction that trapped.
    pub exit_instruction_length: u32,
    /// Where the guest was.
    pub guest_rip: u64,
}

impl VmExitInfo {
    pub open spec fn spec_new(vmcs: &Vmcs) -> VmExitInfo {
        let raw = vmcs.value32(VmcsField32::VmExitReason);
        VmExitInfo {
            entry_failure: raw & EXIT_REASON_ENTRY_FAILURE != 0,
            exit_reason: VmxExitReason::spec_from_basic(raw & EXIT_REASON_BASIC),
            exit_instruction_length: vmcs.value32(VmcsField32::VmExitInstructionLen),
            guest_rip: vmcs.value64(VmcsField64::GuestRip),
        }
    }

    /// Reads the trap that the current structure reports.
    pub fn new(vmcs: &Vmcs) -> (r: HvResult<VmExitInfo>)
        ensures
            vmcs.spec_is_current() ==> r == Ok::<VmExitInfo, HvError>(Self::spec_new(vmcs)),
            !vmcs.spec_is_current() ==> r == Err::<VmExitInfo, HvError>(vm_fail()),
    {
        let raw = vmcs.read32(VmcsField32::VmExitReason)?;
        let exit_instruction_length = vmcs.read32(VmcsField32::VmExitInstructionLen)?;
        let guest_rip = vmcs.read64(VmcsField64::GuestRip)?;
        Ok(
            VmExitInfo {
                entry_failure: raw & EXIT_REASON_ENTRY_FAILURE != 0,
                exit_reason: VmxExitReason::from_basic(raw & EXIT_REASON_BASIC),
                exit_instruction_length,
                guest_rip,
            },
        )
    }
}

/// The event that made the guest trap with the reason "exception or NMI".
#[derive(Clone, Copy, Debug, PartialEq, Eq, Structural)]
pub struct ExitInterruptInfo {
    pub vector: u8,
    /// The raw interruption information.
    pub info: u32,
}

impl ExitInterruptInfo {
    pub open spec fn spec_new(vmcs: &Vmcs) -> ExitInterruptInfo {
        let info = vmcs.value32(VmcsField32::VmExitIntrInfo);
        ExitInterruptInfo { vector: (info & INTR_INFO_VECTOR) as u8, info }
    }

    /// Reads the interruption information of the current structure.
    pub fn new(vmcs: &Vmcs) -> (r: HvResult<ExitInterruptInfo>)
        ensures
            vmcs.spec_is_current() ==> r == Ok::<ExitInterruptInfo, HvError>(Self::spec_new(vmcs)),
            !vmcs.spec_is_current() ==> r == Err::<ExitInterruptInfo, HvError>(vm_fail()),
    {
        let info = vmcs.read32(VmcsField32::VmExitIntrInfo)?;
        assert(info & 0xFF <= 0xFF) by (bit_vector);
        Ok(ExitInterruptInfo { vector: (info & INTR_INFO_VECTOR) as u8, info })
    }
}

/// The access that made the guest trap with the reason "EPT violation".
#[derive(Clone, Copy, Debug, PartialEq, Eq, Structural)]
pub struct EptViolationInfo {
    /// The guest-physical address that the guest touched.
    pub guest_paddr: u64,
    /// The raw exit qualification.
    pub qualification: u64,
}

impl EptViolationInfo {
    pub open spec fn spec_new(vmcs: &Vmcs) -> EptViolationInfo {
        EptViolationInfo {
            guest_paddr: vmcs.value64(VmcsField64::GuestPhysicalAddress),
            qualification: vmcs.value64(VmcsField64::ExitQualification),
        }
    }

    /// Reads the violation that the current structure reports.
    pub fn new(vmcs: &Vmcs) -> (r: HvResult<EptViolationInfo>)
        ensures
            vmcs.spec_is_current() ==> r == Ok::<EptViolationInfo, HvError>(Self::spec_new(vmcs)),
            !vmcs.spec_is_current() ==> r == Err::<EptViolationInfo, HvError>(vm_fail()),
    {
        let qualification = vmcs.read64(VmcsField64::ExitQualification)?;
        let guest_paddr = vmcs.read64(VmcsField64::GuestPhysicalAddress)?;
        Ok(EptViolationInfo { guest_paddr, qualification })
    }
}

} // verus!
