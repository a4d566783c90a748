//! The fields of the virtual-machine control structure that this core
//! reads or writes, as typed keys: one enumeration for each access width.
//! Fields of natural width are counted among the 64-bit ones.

use vstd::prelude::*;

verus! {

/// The 16-bit fields.
#[derive(Clone, Copy, Debug, PartialEq, Eq, Structural)]
pub enum VmcsField16 {
    // Guest segment selectors.
    GuestEsSelector,
    GuestCsSelector,
    GuestSsSelector,
    GuestDsSelector,
    GuestFsSelector,
    GuestGsSelector,
    GuestLdtrSelector,
    GuestTrSelector,
    // Host segment selectors.
    HostEsSelector,
    HostCsSelector,
    HostSsSelector,
    HostDsSelector,
    HostFsSelector,
    HostGsSelector,
    HostTrSelector,
}

impl VmcsField16 {
    /// How many fields of this width there are.
    pub const COUNT: usize = 15;

    /// The slot of the field in a store of this width.
    pub open spec fn spec_index(self) -> int {
        match self {
            VmcsField16::GuestEsSelector => 0,
            VmcsField16::GuestCsSelector => 1,
            VmcsField16::GuestSsSelector => 2,
            VmcsField16::GuestDsSelector => 3,
            VmcsField16::GuestFsSelector => 4,
            VmcsField16::GuestGsSelector => 5,
            VmcsField16::GuestLdtrSelector => 6,
            VmcsField16::GuestTrSelector => 7,
            VmcsField16::HostEsSelector => 8,
            VmcsField16::HostCsSelector => 9,
            VmcsField16::HostSsSelector => 10,
            VmcsField16::HostDsSelector => 11,
            VmcsField16::HostFsSelector => 12,
            VmcsField16::HostGsSelector => 13,
            VmcsField16::HostTrSelector => 14,
        }
    }

    pub fn index(self) -> (i: usize)
        ensures
            i == self.spec_index(),
            i < VmcsField16::COUNT,
    {
        match self {
            VmcsField16::GuestEsSelector => 0,
            VmcsField16::GuestCsSelector => 1,
            VmcsField16::GuestSsSelector => 2,
            VmcsField16::GuestDsSelector => 3,
            VmcsField16::GuestFsSelector => 4,
            VmcsField16::GuestGsSelector => 5,
            VmcsField16::GuestLdtrSelector => 6,
            VmcsField16::GuestTrSelector => 7,
            VmcsField16::HostEsSelector => 8,
            VmcsField16::HostCsSelector => 9,
            VmcsField16::HostSsSelector => 10,
            VmcsField16::HostDsSelector => 11,
            VmcsField16::HostFsSelector => 12,
            VmcsField16::HostGsSelector => 13,
            VmcsField16::HostTrSelector => 14,
        }
    }

    /// The field that occupies slot `i`, if there is one.
    pub fn from_index(i: usize) -> (field: Option<Self>)
        ensures
            i < VmcsField16::COUNT ==> field is Some && field->0.spec_index() == i,
            i >= VmcsField16::COUNT ==> field is None,
    {
        match i {
            0 => Some(VmcsField16::GuestEsSelector),
            1 => Some(VmcsField16::GuestCsSelector),
            2 => Some(VmcsField16::GuestSsSelector),
            3 => Some(VmcsField16::GuestDsSelector),
            4 => Some(VmcsField16::GuestFsSelector),
            5 => Some(VmcsField16::GuestGsSelector),
            6 => Some(VmcsField16::GuestLdtrSelector),
            7 => Some(VmcsField16::GuestTrSelector),
            8 => Some(VmcsField16::HostEsSelector),
            9 => Some(VmcsField16::HostCsSelector),
            10 => Some(VmcsField16::HostSsSelector),
            11 => Some(VmcsField16::HostDsSelector),
            12 => Some(VmcsField16::HostFsSelector),
            13 => Some(VmcsField16::HostGsSelector),
            14 => Some(VmcsField16::HostTrSelector),
            _ => None,
        }
    }

    /// Whether only the processor writes the field: it reports something,
    /// and software can but read it.
    pub open spec fn spec_is_read_only(self) -> bool {
        false
    }

    #[verifier::when_used_as_spec(spec_is_read_only)]
    pub fn is_read_only(self) -> (read_only: bool)
        ensures
            read_only == self.spec_is_read_only(),
    {
        false
    }

    /// The encoding by which the processor's read and write instructions
    /// name the field.
    pub open spec fn spec_encoding(self) -> u32 {
        match self {
            VmcsField16::GuestEsSelector => 0x0800,
            VmcsField16::GuestCsSelector => 0x0802,
            VmcsField16::GuestSsSelector => 0x0804,
            VmcsField16::GuestDsSelector => 0x0806,
            VmcsField16::GuestFsSelector => 0x0808,
            VmcsField16::GuestGsSelector => 0x080A,
            VmcsField16::GuestLdtrSelector => 0x080C,
            VmcsField16::GuestTrSelector => 0x080E,
            VmcsField16::HostEsSelector => 0x0C00,
            VmcsField16::HostCsSelector => 0x0C02,
            VmcsField16::HostSsSelector => 0x0C04,
            VmcsField16::HostDsSelector => 0x0C06,
            VmcsField16::HostFsSelector => 0x0C08,
            VmcsField16::HostGsSelector => 0x0C0A,
            VmcsField16::HostTrSelector => 0x0C0C,
        }
    }

    pub fn encoding(self) -> (code: u32)
        ensures
            code == self.spec_encoding(),
    {
        match self {
            VmcsField16::GuestEsSelector => 0x0800,
            VmcsField16::GuestCsSelector => 0x0802,
            VmcsField16::GuestSsSelector => 0x0804,
            VmcsField16::GuestDsSelector => 0x0806,
            VmcsField16::GuestFsSelector => 0x0808,
            VmcsField16::GuestGsSelector => 0x080A,
            VmcsField16::GuestLdtrSelector => 0x080C,
            VmcsField16::GuestTrSelector => 0x080E,
            VmcsField16::HostEsSelector => 0x0C00,
            VmcsField16::HostCsSelector => 0x0C02,
            VmcsField16::HostSsSelector => 0x0C04,
            VmcsField16::HostDsSelector => 0x0C06,
            VmcsField16::HostFsSelector => 0x0C08,
            VmcsField16::HostGsSelector => 0x0C0A,
            VmcsField16::HostTrSelector => 0x0C0C,
        }
    }
}

/// The 32-bit fields.
#[derive(Clone, Copy, Debug, PartialEq, Eq, Structural)]
pub enum VmcsField32 {
    // Execution, exit and entry controls.
    PinBasedVmExecControl,
    ProcBasedVmExecControl,
    ExceptionBitmap,
    Cr3TargetCount,
    VmExitControls,
    VmExitMsrStoreCount,
    VmExitMsrLoadCount,
    VmEntryControls,
    VmEntryMsrLoadCount,
    VmEntryIntrInfo,
    VmEntryExceptionErrorCode,
    VmEntryInstructionLen,
    SecondaryVmExecControl,
    // What the processor reports about the last instruction and the last exit.
    VmInstructionError,
    VmExitReason,
    VmExitIntrInfo,
    VmExitIntrErrorCode,
    VmExitInstructionLen,
    // Guest segment limits and access rights, and other guest state.
    GuestEsLimit,
    GuestCsLimit,
    GuestSsLimit,
    GuestDsLimit,
    GuestFsLimit,
    GuestGsLimit,
    GuestLdtrLimit,
    GuestTrLimit,
    GuestGdtrLimit,
    GuestIdtrLimit,
    GuestEsArBytes,
    GuestCsArBytes,
    GuestSsArBytes,
    GuestDsArBytes,
    GuestFsArBytes,
    GuestGsArBytes,
    GuestLdtrArBytes,
    GuestTrArBytes,
    GuestInterruptibilityInfo,
    GuestActivityState,
    GuestSysenterCs,
    VmxPreemptionTimerValue,
    // Host state.
    HostIa32SysenterCs,
}

impl VmcsField32 {
    /// How many fields of this width there are.
    pub const COUNT: usize = 41;

    /// The slot of the field in a store of this width.
    pub open spec fn spec_index(self) -> int {
        match self {
            VmcsField32::PinBasedVmExecControl => 0,
            VmcsField32::ProcBasedVmExecControl => 1,
            VmcsField32::ExceptionBitmap => 2,
            VmcsField32::Cr3TargetCount => 3,
            VmcsField32::VmExitControls => 4,
            VmcsField32::VmExitMsrStoreCount => 5,
            VmcsField32::VmExitMsrLoadCount => 6,
            VmcsField32::VmEntryControls => 7,
            VmcsField32::VmEntryMsrLoadCount => 8,
            VmcsField32::VmEntryIntrInfo => 9,
            VmcsField32::VmEntryExceptionErrorCode => 10,
            VmcsField32::VmEntryInstructionLen => 11,
            VmcsField32::SecondaryVmExecControl => 12,
            VmcsField32::VmInstructionError => 13,
            VmcsField32::VmExitReason => 14,
            VmcsField32::VmExitIntrInfo => 15,
            VmcsField32::VmExitIntrErrorCode => 16,
            VmcsField32::VmExitInstructionLen => 17,
            VmcsField32::GuestEsLimit => 18,
            VmcsField32::GuestCsLimit => 19,
            VmcsField32::GuestSsLimit => 20,
            VmcsField32::GuestDsLimit => 21,
            VmcsField32::GuestFsLimit => 22,
            VmcsField32::GuestGsLimit => 23,
            VmcsField32::GuestLdtrLimit => 24,
            VmcsField32::GuestTrLimit => 25,
            VmcsField32::GuestGdtrLimit => 26,
            VmcsField32::GuestIdtrLimit => 27,
            VmcsField32::GuestEsArBytes => 28,
            VmcsField32::GuestCsArBytes => 29,
            VmcsField32::GuestSsArBytes => 30,
            VmcsField32::GuestDsArBytes => 31,
            VmcsField32::GuestFsArBytes => 32,
            VmcsField32::GuestGsArBytes => 33,
            VmcsField32::GuestLdtrArBytes => 34,
            VmcsField32::GuestTrArBytes => 35,
            VmcsField32::GuestInterruptibilityInfo => 36,
            VmcsField32::GuestActivityState => 37,
            VmcsField32::GuestSysenterCs => 38,
            VmcsField32::VmxPreemptionTimerValue => 39,
            VmcsField32::HostIa32SysenterCs => 40,
        }
    }

    pub fn index(self) -> (i: usize)
        ensures
            i == self.spec_index(),
            i < VmcsField32::COUNT,
    {
        match self {
            VmcsField32::PinBasedVmExecControl => 0,
            VmcsField32::ProcBasedVmExecControl => 1,
            VmcsField32::ExceptionBitmap => 2,
            VmcsField32::Cr3TargetCount => 3,
            VmcsField32::VmExitControls => 4,
            VmcsField32::VmExitMsrStoreCount => 5,
            VmcsField32::VmExitMsrLoadCount => 6,
            VmcsField32::VmEntryControls => 7,
            VmcsField32::VmEntryMsrLoadCount => 8,
            VmcsField32::VmEntryIntrInfo => 9,
            VmcsField32::VmEntryExceptionErrorCode => 10,
            VmcsField32::VmEntryInstructionLen => 11,
            VmcsField32::SecondaryVmExecControl => 12,
            VmcsField32::VmInstructionError => 13,
            VmcsField32::VmExitReason => 14,
            VmcsField32::VmExitIntrInfo => 15,
            VmcsField32::VmExitIntrErrorCode => 16,
            VmcsField32::VmExitInstructionLen => 17,
            VmcsField32::GuestEsLimit => 18,
            VmcsField32::GuestCsLimit => 19,
            VmcsField32::GuestSsLimit => 20,
            VmcsField32::GuestDsLimit => 21,
            VmcsField32::GuestFsLimit => 22,
            VmcsField32::GuestGsLimit => 23,
            VmcsField32::GuestLdtrLimit => 24,
            VmcsField32::GuestTrLimit => 25,
            VmcsField32::GuestGdtrLimit => 26,
            VmcsField32::GuestIdtrLimit => 27,
            VmcsField32::GuestEsArBytes => 28,
            VmcsField32::GuestCsArBytes => 29,
            VmcsField32::GuestSsArBytes => 30,
            VmcsField32::GuestDsArBytes => 31,
            VmcsField32::GuestFsArBytes => 32,
            VmcsField32::GuestGsArBytes => 33,
            VmcsField32::GuestLdtrArBytes => 34,
            VmcsField32::GuestTrArBytes => 35,
            VmcsField32::GuestInterruptibilityInfo => 36,
            VmcsField32::GuestActivityState => 37,
            VmcsField32::GuestSysenterCs => 38,
            VmcsField32::VmxPreemptionTimerValue => 39,
            VmcsField32::HostIa32SysenterCs => 40,
        }
    }

    /// The field that occupies slot `i`, if there is one.
    pub fn from_index(i: usize) -> (field: Option<Self>)
        ensures
            i < VmcsField32::COUNT ==> field is Some && field->0.spec_index() == i,
            i >= VmcsField32::COUNT ==> field is None,
    {
        match i {
            0 => Some(VmcsField32::PinBasedVmExecControl),
            1 => Some(VmcsField32::ProcBasedVmExecControl),
            2 => Some(VmcsField32::ExceptionBitmap),
            3 => Some(VmcsField32::Cr3TargetCount),
            4 => Some(VmcsField32::VmExitControls),
            5 => Some(VmcsField32::VmExitMsrStoreCount),
            6 => Some(VmcsField32::VmExitMsrLoadCount),
            7 => Some(VmcsField32::VmEntryControls),
            8 => Some(VmcsField32::VmEntryMsrLoadCount),
            9 => Some(VmcsField32::VmEntryIntrInfo),
            10 => Some(VmcsField32::VmEntryExceptionErrorCode),
            11 => Some(VmcsField32::VmEntryInstructionLen),
            12 => Some(VmcsField32::SecondaryVmExecControl),
            13 => Some(VmcsField32::VmInstructionError),
            14 => Some(VmcsField32::VmExitReason),
            15 => Some(VmcsField32::VmExitIntrInfo),
            16 => Some(VmcsField32::VmExitIntrErrorCode),
            17 => Some(VmcsField32::VmExitInstructionLen),
            18 => Some(VmcsField32::GuestEsLimit),
            19 => Some(VmcsField32::GuestCsLimit),
            20 => Some(VmcsField32::GuestSsLimit),
            21 => Some(VmcsField32::GuestDsLimit),
            22 => Some(VmcsField32::GuestFsLimit),
            23 => Some(VmcsField32::GuestGsLimit),
            24 => Some(VmcsField32::GuestLdtrLimit),
            25 => Some(VmcsField32::GuestTrLimit),
            26 => Some(VmcsField32::GuestGdtrLimit),
            27 => Some(VmcsField32::GuestIdtrLimit),
            28 => Some(VmcsField32::GuestEsArBytes),
            29 => Some(VmcsField32::GuestCsArBytes),
            30 => Some(VmcsField32::GuestSsArBytes),
            31 => Some(VmcsField32::GuestDsArBytes),
            32 => Some(VmcsField32::GuestFsArBytes),
            33 => Some(VmcsField32::GuestGsArBytes),
            34 => Some(VmcsField32::GuestLdtrArBytes),
            35 => Some(VmcsField32::GuestTrArBytes),
            36 => Some(VmcsField32::GuestInterruptibilityInfo),
            37 => Some(VmcsField32::GuestActivityState),
            38 => Some(VmcsField32::GuestSysenterCs),
            39 => Some(VmcsField32::VmxPreemptionTimerValue),
            40 => Some(VmcsField32::HostIa32SysenterCs),
            _ => None,
        }
    }

    /// Whether only the processor writes the field: it reports something,
    /// and software can but read it.
    pub open spec fn spec_is_read_only(self) -> bool {
        match self {
            VmcsField32::VmInstructionError => true,
            VmcsField32::VmExitReason => true,
            VmcsField32::VmExitIntrInfo => true,
            VmcsField32::VmExitIntrErrorCode => true,
            VmcsField32::VmExitInstructionLen => true,
            _ => false,
        }
    }

    #[verifier::when_used_as_spec(spec_is_read_only)]
    pub fn is_read_only(self) -> (read_only: bool)
        ensures
            read_only == self.spec_is_read_only(),
    {
        match self {
            VmcsField32::VmInstructionError => true,
            VmcsField32::VmExitReason => true,
            VmcsField32::VmExitIntrInfo => true,
            VmcsField32::VmExitIntrErrorCode => true,
            VmcsField32::VmExitInstructionLen => true,
            _ => false,
        }
    }

    /// The encoding by which the processor's read and write instructions
    /// name the field.
    pub open spec fn spec_encoding(self) -> u32 {
        match self {
            VmcsField32::PinBasedVmExecControl => 0x4000,
            VmcsField32::ProcBasedVmExecControl => 0x4002,
            VmcsField32::ExceptionBitmap => 0x4004,
            VmcsField32::Cr3TargetCount => 0x400A,
            VmcsField32::VmExitControls => 0x400C,
            VmcsField32::VmExitMsrStoreCount => 0x400E,
            VmcsField32::VmExitMsrLoadCount => 0x4010,
            VmcsField32::VmEntryControls => 0x4012,
            VmcsField32::VmEntryMsrLoadCount => 0x4014,
            VmcsField32::VmEntryIntrInfo => 0x4016,
            VmcsField32::VmEntryExceptionErrorCode => 0x4018,
            VmcsField32::VmEntryInstructionLen => 0x401A,
            VmcsField32::SecondaryVmExecControl => 0x401E,
            VmcsField32::VmInstructionError => 0x4400,
            VmcsField32::VmExitReason => 0x4402,
            VmcsField32::VmExitIntrInfo => 0x4404,
            VmcsField32::VmExitIntrErrorCode => 0x4406,
            VmcsField32::VmExitInstructionLen => 0x440C,
            VmcsField32::GuestEsLimit => 0x4800,
            VmcsField32::GuestCsLimit => 0x4802,
            VmcsField32::GuestSsLimit => 0x4804,
            VmcsField32::GuestDsLimit => 0x4806,
            VmcsField32::GuestFsLimit => 0x4808,
            VmcsField32::GuestGsLimit => 0x480A,
            VmcsField32::GuestLdtrLimit => 0x480C,
            VmcsField32::GuestTrLimit => 0x480E,
            VmcsField32::GuestGdtrLimit => 0x4810,
            VmcsField32::GuestIdtrLimit => 0x4812,
            VmcsField32::GuestEsArBytes => 0x4814,
            VmcsField32::GuestCsArBytes => 0x4816,
            VmcsField32::GuestSsArBytes => 0x4818,
            VmcsField32::GuestDsArBytes => 0x481A,
            VmcsField32::GuestFsArBytes => 0x481C,
            VmcsField32::GuestGsArBytes => 0x481E,
            VmcsField32::GuestLdtrArBytes => 0x4820,
            VmcsField32::GuestTrArBytes => 0x4822,
            VmcsField32::GuestInterruptibilityInfo => 0x4824,
            VmcsField32::GuestActivityState => 0x4826,
            VmcsField32::GuestSysenterCs => 0x482A,
            VmcsField32::VmxPreemptionTimerValue => 0x482E,
            VmcsField32::HostIa32SysenterCs => 0x4C00,
        }
    }

    pub fn encoding(self) -> (code: u32)
        ensures
            code == self.spec_encoding(),
    {
        match self {
            VmcsField32::PinBasedVmExecControl => 0x4000,
            VmcsField32::ProcBasedVmExecControl => 0x4002,
            VmcsField32::ExceptionBitmap => 0x4004,
            VmcsField32::Cr3TargetCount => 0x400A,
            VmcsField32::VmExitControls => 0x400C,
            VmcsField32::VmExitMsrStoreCount => 0x400E,
            VmcsField32::VmExitMsrLoadCount => 0x4010,
            VmcsField32::VmEntryControls => 0x4012,
            VmcsField32::VmEntryMsrLoadCount => 0x4014,
            VmcsField32::VmEntryIntrInfo => 0x4016,
            VmcsField32::VmEntryExceptionErrorCode => 0x4018,
            VmcsField32::VmEntryInstructionLen => 0x401A,
            VmcsField32::SecondaryVmExecControl => 0x401E,
            VmcsField32::VmInstructionError => 0x4400,
            VmcsField32::VmExitReason => 0x4402,
            VmcsField32::VmExitIntrInfo => 0x4404,
            VmcsField32::VmExitIntrErrorCode => 0x4406,
            VmcsField32::VmExitInstructionLen => 0x440C,
            VmcsField32::GuestEsLimit => 0x4800,
            VmcsField32::GuestCsLimit => 0x4802,
            VmcsField32::GuestSsLimit => 0x4804,
            VmcsField32::GuestDsLimit => 0x4806,
            VmcsField32::GuestFsLimit => 0x4808,
            VmcsField32::GuestGsLimit => 0x480A,
            VmcsField32::GuestLdtrLimit => 0x480C,
            VmcsField32::GuestTrLimit => 0x480E,
            VmcsField32::GuestGdtrLimit => 0x4810,
            VmcsField32::GuestIdtrLimit => 0x4812,
            VmcsField32::GuestEsArBytes => 0x4814,
            VmcsField32::GuestCsArBytes => 0x4816,
            VmcsField32::GuestSsArBytes => 0x4818,
            VmcsField32::GuestDsArBytes => 0x481A,
            VmcsField32::GuestFsArBytes => 0x481C,
            VmcsField32::GuestGsArBytes => 0x481E,
            VmcsField32::GuestLdtrArBytes => 0x4820,
            VmcsField32::GuestTrArBytes => 0x4822,
            VmcsField32::GuestInterruptibilityInfo => 0x4824,
            VmcsField32::GuestActivityState => 0x4826,
            VmcsField32::GuestSysenterCs => 0x482A,
            VmcsField32::VmxPreemptionTimerValue => 0x482E,
            VmcsField32::HostIa32SysenterCs => 0x4C00,
        }
    }
}

/// The 64-bit and natural-width fields.
#[derive(Clone, Copy, Debug, PartialEq, Eq, Structural)]
pub enum VmcsField64 {
    // Control fields.
    MsrBitmap,
    EptPointer,
    Cr0GuestHostMask,
    Cr4GuestHostMask,
    Cr0ReadShadow,
    Cr4ReadShadow,
    // What the processor reports about the last exit.
    GuestPhysicalAddress,
    ExitQualification,
    GuestLinearAddress,
    // Guest state.
    VmcsLinkPointer,
    GuestIa32Debugctl,
    GuestIa32Pat,
    GuestIa32Efer,
    GuestCr0,
    GuestCr3,
    GuestCr4,
    GuestEsBase,
    GuestCsBase,
    GuestSsBase,
    GuestDsBase,
    GuestFsBase,
    GuestGsBase,
    GuestLdtrBase,
    GuestTrBase,
    GuestGdtrBase,
    GuestIdtrBase,
    GuestDr7,
    GuestRsp,
    GuestRip,
    GuestRflags,
    GuestPendingDbgExceptions,
    GuestSysenterEsp,
    GuestSysenterEip,
    // Host state.
    HostIa32Pat,
    HostIa32Efer,
    HostCr0,
    HostCr3,
    HostCr4,
    HostFsBase,
    HostGsBase,
    HostTrBase,
    HostGdtrBase,
    HostIdtrBase,
    HostIa32SysenterEsp,
    HostIa32SysenterEip,
    HostRsp,
    HostRip,
}

impl VmcsField64 {
    /// How many fields of this width there are.
    pub const COUNT: usize = 47;

    /// The slot of the field in a store of this width.
    pub open spec fn spec_index(self) -> int {
        match self {
            VmcsField64::MsrBitmap => 0,
            VmcsField64::EptPointer => 1,
            VmcsField64::Cr0GuestHostMask => 2,
            VmcsField64::Cr4GuestHostMask => 3,
            VmcsField64::Cr0ReadShadow => 4,
            VmcsField64::Cr4ReadShadow => 5,
            VmcsField64::GuestPhysicalAddress => 6,
            VmcsField64::ExitQualification => 7,
            VmcsField64::GuestLinearAddress => 8,
            VmcsField64::VmcsLinkPointer => 9,
            VmcsField64::GuestIa32Debugctl => 10,
            VmcsField64::GuestIa32Pat => 11,
            VmcsField64::GuestIa32Efer => 12,
            VmcsField64::GuestCr0 => 13,
            VmcsField64::GuestCr3 => 14,
            VmcsField64::GuestCr4 => 15,
            VmcsField64::GuestEsBase => 16,
            VmcsField64::GuestCsBase => 17,
            VmcsField64::GuestSsBase => 18,
            VmcsField64::GuestDsBase => 19,
            VmcsField64::GuestFsBase => 20,
            VmcsField64::GuestGsBase => 21,
            VmcsField64::GuestLdtrBase => 22,
            VmcsField64::GuestTrBase => 23,
            VmcsField64::GuestGdtrBase => 24,
            VmcsField64::GuestIdtrBase => 25,
            VmcsField64::GuestDr7 => 26,
            VmcsField64::GuestRsp => 27,
            VmcsField64::GuestRip => 28,
            VmcsField64::GuestRflags => 29,
            VmcsField64::GuestPendingDbgExceptions => 30,
            VmcsField64::GuestSysenterEsp => 31,
            VmcsField64::GuestSysenterEip => 32,
            VmcsField64::HostIa32Pat => 33,
            VmcsField64::HostIa32Efer => 34,
            VmcsField64::HostCr0 => 35,
            VmcsField64::HostCr3 => 36,
            VmcsField64::HostCr4 => 37,
            VmcsField64::HostFsBase => 38,
            VmcsField64::HostGsBase => 39,
            VmcsField64::HostTrBase => 40,
            VmcsField64::HostGdtrBase => 41,
            VmcsField64::HostIdtrBase => 42,
            VmcsField64::HostIa32SysenterEsp => 43,
            VmcsField64::HostIa32SysenterEip => 44,
            VmcsField64::HostRsp => 45,
            VmcsField64::HostRip => 46,
        }
    }

    pub fn index(self) -> (i: usize)
        ensures
            i == self.spec_index(),
            i < VmcsField64::COUNT,
    {
        match self {
            VmcsField64::MsrBitmap => 0,
            VmcsField64::EptPointer => 1,
            VmcsField64::Cr0GuestHostMask => 2,
            VmcsField64::Cr4GuestHostMask => 3,
            VmcsField64::Cr0ReadShadow => 4,
            VmcsField64::Cr4ReadShadow => 5,
            VmcsField64::GuestPhysicalAddress => 6,
            VmcsField64::ExitQualification => 7,
            VmcsField64::GuestLinearAddress => 8,
            VmcsField64::VmcsLinkPointer => 9,
            VmcsField64::GuestIa32Debugctl => 10,
            VmcsField64::GuestIa32Pat => 11,
            VmcsField64::GuestIa32Efer => 12,
            VmcsField64::GuestCr0 => 13,
            VmcsField64::GuestCr3 => 14,
            VmcsField64::GuestCr4 => 15,
            VmcsField64::GuestEsBase => 16,
            VmcsField64::GuestCsBase => 17,
            VmcsField64::GuestSsBase => 18,
            VmcsField64::GuestDsBase => 19,
            VmcsField64::GuestFsBase => 20,
            VmcsField64::GuestGsBase => 21,
            VmcsField64::GuestLdtrBase => 22,
            VmcsField64::GuestTrBase => 23,
            VmcsField64::GuestGdtrBase => 24,
            VmcsField64::GuestIdtrBase => 25,
            VmcsField64::GuestDr7 => 26,
            VmcsField64::GuestRsp => 27,
            VmcsField64::GuestRip => 28,
            VmcsField64::GuestRflags => 29,
            VmcsField64::GuestPendingDbgExceptions => 30,
            VmcsField64::GuestSysenterEsp => 31,
            VmcsField64::GuestSysenterEip => 32,
            VmcsField64::HostIa32Pat => 33,
            VmcsField64::HostIa32Efer => 34,
            VmcsField64::HostCr0 => 35,
            VmcsField64::HostCr3 => 36,
            VmcsField64::HostCr4 => 37,
            VmcsField64::HostFsBase => 38,
            VmcsField64::HostGsBase => 39,
            VmcsField64::HostTrBase => 40,
            VmcsField64::HostGdtrBase => 41,
            VmcsField64::HostIdtrBase => 42,
            VmcsField64::HostIa32SysenterEsp => 43,
            VmcsField64::HostIa32SysenterEip => 44,
            VmcsField64::HostRsp => 45,
            VmcsField64::HostRip => 46,
        }
    }

    /// The field that occupies slot `i`, if there is one.
    pub fn from_index(i: usize) -> (field: Option<Self>)
        ensures
            i < VmcsField64::COUNT ==> field is Some && field->0.spec_index() == i,
            i >= VmcsField64::COUNT ==> field is None,
    {
        match i {
            0 => Some(VmcsField64::MsrBitmap),
            1 => Some(VmcsField64::EptPointer),
            2 => Some(VmcsField64::Cr0GuestHostMask),
            3 => Some(VmcsField64::Cr4GuestHostMask),
            4 => Some(VmcsField64::Cr0ReadShadow),
            5 => Some(VmcsField64::Cr4ReadShadow),
            6 => Some(VmcsField64::GuestPhysicalAddress),
            7 => Some(VmcsField64::ExitQualification),
            8 => Some(VmcsField64::GuestLinearAddress),
            9 => Some(VmcsField64::VmcsLinkPointer),
            10 => Some(VmcsField64::GuestIa32Debugctl),
            11 => Some(VmcsField64::GuestIa32Pat),
            12 => Some(VmcsField64::GuestIa32Efer),
            13 => Some(VmcsField64::GuestCr0),
            14 => Some(VmcsField64::GuestCr3),
            15 => Some(VmcsField64::GuestCr4),
            16 => Some(VmcsField64::GuestEsBase),
            17 => Some(VmcsField64::GuestCsBase),
            18 => Some(VmcsField64::GuestSsBase),
            19 => Some(VmcsField64::GuestDsBase),
            20 => Some(VmcsField64::GuestFsBase),
            21 => Some(VmcsField64::GuestGsBase),
            22 => Some(VmcsField64::GuestLdtrBase),
            23 => Some(VmcsField64::GuestTrBase),
            24 => Some(VmcsField64::GuestGdtrBase),
            25 => Some(VmcsField64::GuestIdtrBase),
            26 => Some(VmcsField64::GuestDr7),
            27 => Some(VmcsField64::GuestRsp),
            28 => Some(VmcsField64::GuestRip),
            29 => Some(VmcsField64::GuestRflags),
            30 => Some(VmcsField64::GuestPendingDbgExceptions),
            31 => Some(VmcsField64::GuestSysenterEsp),
            32 => Some(VmcsField64::GuestSysenterEip),
            33 => Some(VmcsField64::HostIa32Pat),
            34 => Some(VmcsField64::HostIa32Efer),
            35 => Some(VmcsField64::HostCr0),
            36 => Some(VmcsField64::HostCr3),
            37 => Some(VmcsField64::HostCr4),
            38 => Some(VmcsField64::HostFsBase),
            39 => Some(VmcsField64::HostGsBase),
            40 => Some(VmcsField64::HostTrBase),
            41 => Some(VmcsField64::HostGdtrBase),
            42 => Some(VmcsField64::HostIdtrBase),
            43 => Some(VmcsField64::HostIa32SysenterEsp),
            44 => Some(VmcsField64::HostIa32SysenterEip),
            45 => Some(VmcsField64::HostRsp),
            46 => Some(VmcsField64::HostRip),
            _ => None,
        }
    }

    /// Whether only the processor writes the field: it reports something,
    /// and software can but read it.
    pub open spec fn spec_is_read_only(self) -> bool {
        match self {
            VmcsField64::GuestPhysicalAddress => true,
            VmcsField64::ExitQualification => true,
            VmcsField64::GuestLinearAddress => true,
            _ => false,
        }
    }

    #[verifier::when_used_as_spec(spec_is_read_only)]
    pub fn is_read_only(self) -> (read_only: bool)
        ensures
            read_only == self.spec_is_read_only(),
    {
        match self {
            VmcsField64::GuestPhysicalAddress => true,
            VmcsField64::ExitQualification => true,
            VmcsField64::GuestLinearAddress => true,
            _ => false,
        }
    }

    /// The encoding by which the processor's read and write instructions
    /// name the field.
    pub open spec fn spec_encoding(self) -> u32 {
        match self {
            VmcsField64::MsrBitmap => 0x2004,
            VmcsField64::EptPointer => 0x201A,
            VmcsField64::Cr0GuestHostMask => 0x6000,
            VmcsField64::Cr4GuestHostMask => 0x6002,
            VmcsField64::Cr0ReadShadow => 0x6004,
            VmcsField64::Cr4ReadShadow => 0x6006,
            VmcsField64::GuestPhysicalAddress => 0x2400,
            VmcsField64::ExitQualification => 0x6400,
            VmcsField64::GuestLinearAddress => 0x640A,
            VmcsField64::VmcsLinkPointer => 0x2800,
            VmcsField64::GuestIa32Debugctl => 0x2802,
            VmcsField64::GuestIa32Pat => 0x2804,
            VmcsField64::GuestIa32Efer => 0x2806,
            VmcsField64::GuestCr0 => 0x6800,
            VmcsField64::GuestCr3 => 0x6802,
            VmcsField64::GuestCr4 => 0x6804,
            VmcsField64::GuestEsBase => 0x6806,
            VmcsField64::GuestCsBase => 0x6808,
            VmcsField64::GuestSsBase => 0x680A,
            VmcsField64::GuestDsBase => 0x680C,
            VmcsField64::GuestFsBase => 0x680E,
            VmcsField64::GuestGsBase => 0x6810,
            VmcsField64::GuestLdtrBase => 0x6812,
            VmcsField64::GuestTrBase => 0x6814,
            VmcsField64::GuestGdtrBase => 0x6816,
            VmcsField64::GuestIdtrBase => 0x6818,
            VmcsField64::GuestDr7 => 0x681A,
            VmcsField64::GuestRsp => 0x681C,
            VmcsField64::GuestRip => 0x681E,
            VmcsField64::GuestRflags => 0x6820,
            VmcsField64::GuestPendingDbgExceptions => 0x6822,
            VmcsField64::GuestSysenterEsp => 0x6824,
            VmcsField64::GuestSysenterEip => 0x6826,
            VmcsField64::HostIa32Pat => 0x2C00,
            VmcsField64::HostIa32Efer => 0x2C02,
            VmcsField64::HostCr0 => 0x6C00,
            VmcsField64::HostCr3 => 0x6C02,
            VmcsField64::HostCr4 => 0x6C04,
            VmcsField64::HostFsBase => 0x6C06,
            VmcsField64::HostGsBase => 0x6C08,
            VmcsField64::HostTrBase => 0x6C0A,
            VmcsField64::HostGdtrBase => 0x6C0C,
            VmcsField64::HostIdtrBase => 0x6C0E,
            VmcsField64::HostIa32SysenterEsp => 0x6C10,
            VmcsField64::HostIa32SysenterEip => 0x6C12,
            VmcsField64::HostRsp => 0x6C14,
            VmcsField64::HostRip => 0x6C16,
        }
    }

    pub fn encoding(self) -> (code: u32)
        ensures
            code == self.spec_encoding(),
    {
        match self {
            VmcsField64::MsrBitmap => 0x2004,
            VmcsField64::EptPointer => 0x201A,
            VmcsField64::Cr0GuestHostMask => 0x6000,
            VmcsField64::Cr4GuestHostMask => 0x6002,
            VmcsField64::Cr0ReadShadow => 0x6004,
            VmcsField64::Cr4ReadShadow => 0x6006,
            VmcsField64::GuestPhysicalAddress => 0x2400,
            VmcsField64::ExitQualification => 0x6400,
            VmcsField64::GuestLinearAddress => 0x640A,
            VmcsField64::VmcsLinkPointer => 0x2800,
            VmcsField64::GuestIa32Debugctl => 0x2802,
            VmcsField64::GuestIa32Pat => 0x2804,
            VmcsField64::GuestIa32Efer => 0x2806,
            VmcsField64::GuestCr0 => 0x6800,
            VmcsField64::GuestCr3 => 0x6802,
            VmcsField64::GuestCr4 => 0x6804,
            VmcsField64::GuestEsBase => 0x6806,
            VmcsField64::GuestCsBase => 0x6808,
            VmcsField64::GuestSsBase => 0x680A,
            VmcsField64::GuestDsBase => 0x680C,
            VmcsField64::GuestFsBase => 0x680E,
            VmcsField64::GuestGsBase => 0x6810,
            VmcsField64::GuestLdtrBase => 0x6812,
            VmcsField64::GuestTrBase => 0x6814,
            VmcsField64::GuestGdtrBase => 0x6816,
            VmcsField64::GuestIdtrBase => 0x6818,
            VmcsField64::GuestDr7 => 0x681A,
            VmcsField64::GuestRsp => 0x681C,
            VmcsField64::GuestRip => 0x681E,
            VmcsField64::GuestRflags => 0x6820,
            VmcsField64::GuestPendingDbgExceptions => 0x6822,
            VmcsField64::GuestSysenterEsp => 0x6824,
            VmcsField64::GuestSysenterEip => 0x6826,
            VmcsField64::HostIa32Pat => 0x2C00,
            VmcsField64::HostIa32Efer => 0x2C02,
            VmcsField64::HostCr0 => 0x6C00,
            VmcsField64::HostCr3 => 0x6C02,
            VmcsField64::HostCr4 => 0x6C04,
            VmcsField64::HostFsBase => 0x6C06,
            VmcsField64::HostGsBase => 0x6C08,
            VmcsField64::HostTrBase => 0x6C0A,
            VmcsField64::HostGdtrBase => 0x6C0C,
            VmcsField64::HostIdtrBase => 0x6C0E,
            VmcsField64::HostIa32SysenterEsp => 0x6C10,
            VmcsField64::HostIa32SysenterEip => 0x6C12,
            VmcsField64::HostRsp => 0x6C14,
            VmcsField64::HostRip => 0x6C16,
        }
    }
}

/// The access-width class that an encoding carries in bits 13 and 14:
/// 0 for 16 bits, 1 for 64 bits, 2 for 32 bits and 3 for natural width.
pub open spec fn encoding_width(code: u32) -> int {
    (code as int / 0x2000) % 4
}

/// Every field's encoding carries the width class of the enumeration that
/// the field belongs to.
pub proof fn lemma_encoding_width(narrow: VmcsField16, medium: VmcsField32, wide: VmcsField64)
    ensures
        encoding_width(narrow.spec_encoding()) == 0,
        encoding_width(medium.spec_encoding()) == 2,
        encoding_width(wide.spec_encoding()) == 1 || encoding_width(wide.spec_encoding()) == 3,
{
}

/// The class that an encoding carries in bits 10 and 11: 0 for a control,
/// 1 for what the processor reports, 2 for guest state and 3 for host
/// state.
pub open spec fn encoding_class(code: u32) -> int {
    (code as int / 0x400) % 4
}

/// The fields that only the processor writes are those whose encoding is
/// of the class of reports.
pub proof fn lemma_read_only_class(narrow: VmcsField16, medium: VmcsField32, wide: VmcsField64)
    ensures
        narrow.spec_is_read_only() <==> encoding_class(narrow.spec_encoding()) == 1,
        medium.spec_is_read_only() <==> encoding_class(medium.spec_encoding()) == 1,
        wide.spec_is_read_only() <==> encoding_class(wide.spec_encoding()) == 1,
{
}

/// Two different fields of one width never share a slot or an encoding.
pub proof fn lemma_fields_distinct(
    a16: VmcsField16,
    b16: VmcsField16,
    a32: VmcsField32,
    b32: VmcsField32,
    a64: VmcsField64,
    b64: VmcsField64,
)
    ensures
        a16 != b16 ==> a16.spec_index() != b16.spec_index() && a16.spec_encoding()
            != b16.spec_encoding(),
        a32 != b32 ==> a32.spec_index() != b32.spec_index() && a32.spec_encoding()
            != b32.spec_encoding(),
        a64 != b64 ==> a64.spec_index() != b64.spec_index() && a64.spec_encoding()
            != b64.spec_encoding(),
{
}

} // verus!
