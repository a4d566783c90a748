//! What the setup of a virtual CPU writes into its control structure: for
//! every field the value it gets, as a function of the captured context,
//! the core and the isolation domain.

use crate::cell::Cell;
use crate::context::LinuxContext;
use crate::context::Segment;
use crate::fields::VmcsField16;
use crate::fields::VmcsField32;
use crate::fields::VmcsField64;
use crate::host::CpuFeatures;
use crate::host::HostCpu;
use crate::host::VmxCapabilities;
use crate::vcpu::cr_write_value;
use crate::vcpu::PIN_NMI_EXITING;
use crate::vmcs::control_request_allowed;
use crate::vmcs::control_value;
use crate::vmcs::lemma_control_value_idempotent;
use crate::vmcs::lemma_control_value_legal;
use crate::vmcs::spec_allowed0;
use crate::vmcs::spec_allowed1;
use crate::vmcs::Vmcs;
use vstd::prelude::*;

verus! {

/// Pin-based control: an external interrupt makes the guest trap.
pub const PIN_EXTERNAL_INTERRUPT_EXITING: u32 = 0x1;

/// Primary control: every port access makes the guest trap.
pub const CPU_UNCOND_IO_EXITING: u32 = 0x100_0000;

/// Primary control: a load of CR3 makes the guest trap.
pub const CPU_CR3_LOAD_EXITING: u32 = 0x8000;

/// Primary control: a store of CR3 makes the guest trap.
pub const CPU_CR3_STORE_EXITING: u32 = 0x1_0000;

/// Primary control: the bitmap decides which register accesses trap.
pub const CPU_USE_MSR_BITMAPS: u32 = 0x1000_0000;

/// Primary control: the secondary controls are in force.
pub const CPU_SEC_CONTROLS: u32 = 0x8000_0000;

/// Secondary control: extended page tables translate guest memory.
pub const CPU2_EPT: u32 = 0x2;

/// Secondary control: the guest may use RDTSCP.
pub const CPU2_RDTSCP: u32 = 0x8;

/// Secondary control: the guest may run without paging or protection.
pub const CPU2_UNRESTRICTED_GUEST: u32 = 0x80;

/// Secondary control: the guest may use INVPCID.
pub const CPU2_INVPCID: u32 = 0x1000;

/// Secondary control: the guest may use XSAVES and XRSTORS.
pub const CPU2_XSAVES: u32 = 0x10_0000;

/// Exit control: the host runs in 64-bit mode.
pub const EXIT_HOST_ADDR_SPACE_SIZE: u32 = 0x200;

/// Exit control: the guest's PAT is saved.
pub const EXIT_SAVE_IA32_PAT: u32 = 0x4_0000;

/// Exit control: the host's PAT is loaded.
pub const EXIT_LOAD_IA32_PAT: u32 = 0x8_0000;

/// Exit control: the guest's EFER is saved.
pub const EXIT_SAVE_IA32_EFER: u32 = 0x10_0000;

/// Exit control: the host's EFER is loaded.
pub const EXIT_LOAD_IA32_EFER: u32 = 0x20_0000;

/// Entry control: the guest runs in 64-bit mode.
pub const ENTRY_IA32E_MODE: u32 = 0x200;

/// Entry control: the guest's PAT is loaded.
pub const ENTRY_LOAD_IA32_PAT: u32 = 0x4000;

/// Entry control: the guest's EFER is loaded.
pub const ENTRY_LOAD_IA32_EFER: u32 = 0x8000;

/// The flags register of a guest that starts: only the bit that is always
/// 1.
pub const INITIAL_RFLAGS: u64 = 0x2;

/// The debug register 7 of a guest that starts.
pub const INITIAL_DR7: u64 = 0x400;

/// The link pointer of a structure that has no shadow structure.
pub const NO_LINK_POINTER: u64 = 0xFFFF_FFFF_FFFF_FFFF;

/// The new value where a table names one, the old value where it does not.
pub open spec fn pick<T>(patch: Option<T>, before: T) -> T {
    match patch {
        Some(v) => v,
        None => before,
    }
}

/// The segment registers of a guest.
#[derive(Clone, Copy, Debug, PartialEq, Eq, Structural)]
pub enum SegmentRegister {
    Es,
    Cs,
    Ss,
    Ds,
    Fs,
    Gs,
    Ldtr,
    Tr,
}

impl SegmentRegister {
    /// The field that holds the selector of this register.
    pub open spec fn spec_selector_field(self) -> VmcsField16 {
        match self {
            SegmentRegister::Es => VmcsField16::GuestEsSelector,
            SegmentRegister::Cs => VmcsField16::GuestCsSelector,
            SegmentRegister::Ss => VmcsField16::GuestSsSelector,
            SegmentRegister::Ds => VmcsField16::GuestDsSelector,
            SegmentRegister::Fs => VmcsField16::GuestFsSelector,
            SegmentRegister::Gs => VmcsField16::GuestGsSelector,
            SegmentRegister::Ldtr => VmcsField16::GuestLdtrSelector,
            SegmentRegister::Tr => VmcsField16::GuestTrSelector,
        }
    }

    /// The field that holds the base of this register.
    pub open spec fn spec_base_field(self) -> VmcsField64 {
        match self {
            SegmentRegister::Es => VmcsField64::GuestEsBase,
            SegmentRegister::Cs => VmcsField64::GuestCsBase,
            SegmentRegister::Ss => VmcsField64::GuestSsBase,
            SegmentRegister::Ds => VmcsField64::GuestDsBase,
            SegmentRegister::Fs => VmcsField64::GuestFsBase,
            SegmentRegister::Gs => VmcsField64::GuestGsBase,
            SegmentRegister::Ldtr => VmcsField64::GuestLdtrBase,
            SegmentRegister::Tr => VmcsField64::GuestTrBase,
        }
    }

    /// The field that holds the limit of this register.
    pub open spec fn spec_limit_field(self) -> VmcsField32 {
        match self {
            SegmentRegister::Es => VmcsField32::GuestEsLimit,
            SegmentRegister::Cs => VmcsField32::GuestCsLimit,
            SegmentRegister::Ss => VmcsField32::GuestSsLimit,
            SegmentRegister::Ds => VmcsField32::GuestDsLimit,
            SegmentRegister::Fs => VmcsField32::GuestFsLimit,
            SegmentRegister::Gs => VmcsField32::GuestGsLimit,
            SegmentRegister::Ldtr => VmcsField32::GuestLdtrLimit,
            SegmentRegister::Tr => VmcsField32::GuestTrLimit,
        }
    }

    /// The field that holds the access rights of this register.
    pub open spec fn spec_access_rights_field(self) -> VmcsField32 {
        match self {
            SegmentRegister::Es => VmcsField32::GuestEsArBytes,
            SegmentRegister::Cs => VmcsField32::GuestCsArBytes,
            SegmentRegister::Ss => VmcsField32::GuestSsArBytes,
            SegmentRegister::Ds => VmcsField32::GuestDsArBytes,
            SegmentRegister::Fs => VmcsField32::GuestFsArBytes,
            SegmentRegister::Gs => VmcsField32::GuestGsArBytes,
            SegmentRegister::Ldtr => VmcsField32::GuestLdtrArBytes,
            SegmentRegister::Tr => VmcsField32::GuestTrArBytes,
        }
    }

    #[verifier::when_used_as_spec(spec_selector_field)]
    pub fn selector_field(self) -> (field: VmcsField16)
        ensures
            field == self.spec_selector_field(),
    {
        match self {
            SegmentRegister::Es => VmcsField16::GuestEsSelector,
            SegmentRegister::Cs => VmcsField16::GuestCsSelector,
            SegmentRegister::Ss => VmcsField16::GuestSsSelector,
            SegmentRegister::Ds => VmcsField16::GuestDsSelector,
            SegmentRegister::Fs => VmcsField16::GuestFsSelector,
            SegmentRegister::Gs => VmcsField16::GuestGsSelector,
            SegmentRegister::Ldtr => VmcsField16::GuestLdtrSelector,
            SegmentRegister::Tr => VmcsField16::GuestTrSelector,
        }
    }

    #[verifier::when_used_as_spec(spec_base_field)]
    pub fn base_field(self) -> (field: VmcsField64)
        ensures
            field == self.spec_base_field(),
    {
        match self {
            SegmentRegister::Es => VmcsField64::GuestEsBase,
            SegmentRegister::Cs => VmcsField64::GuestCsBase,
            SegmentRegister::Ss => VmcsField64::GuestSsBase,
            SegmentRegister::Ds => VmcsField64::GuestDsBase,
            SegmentRegister::Fs => VmcsField64::GuestFsBase,
            SegmentRegister::Gs => VmcsField64::GuestGsBase,
            SegmentRegister::Ldtr => VmcsField64::GuestLdtrBase,
            SegmentRegister::Tr => VmcsField64::GuestTrBase,
        }
    }

    #[verifier::when_used_as_spec(spec_limit_field)]
    pub fn limit_field(self) -> (field: VmcsField32)
        ensures
            field == self.spec_limit_field(),
    {
        match self {
            SegmentRegister::Es => VmcsField32::GuestEsLimit,
            SegmentRegister::Cs => VmcsField32::GuestCsLimit,
            SegmentRegister::Ss => VmcsField32::GuestSsLimit,
            SegmentRegister::Ds => VmcsField32::GuestDsLimit,
            SegmentRegister::Fs => VmcsField32::GuestFsLimit,
            SegmentRegister::Gs => VmcsField32::GuestGsLimit,
            SegmentRegister::Ldtr => VmcsField32::GuestLdtrLimit,
            SegmentRegister::Tr => VmcsField32::GuestTrLimit,
        }
    }

    #[verifier::when_used_as_spec(spec_access_rights_field)]
    pub fn access_rights_field(self) -> (field: VmcsField32)
        ensures
            field == self.spec_access_rights_field(),
    {
        match self {
            SegmentRegister::Es => VmcsField32::GuestEsArBytes,
            SegmentRegister::Cs => VmcsField32::GuestCsArBytes,
            SegmentRegister::Ss => VmcsField32::GuestSsArBytes,
            SegmentRegister::Ds => VmcsField32::GuestDsArBytes,
            SegmentRegister::Fs => VmcsField32::GuestFsArBytes,
            SegmentRegister::Gs => VmcsField32::GuestGsArBytes,
            SegmentRegister::Ldtr => VmcsField32::GuestLdtrArBytes,
            SegmentRegister::Tr => VmcsField32::GuestTrArBytes,
        }
    }
}

/// `after` is `before` with `seg` in the four fields of `register`.
pub open spec fn is_segment_write(
    after: &Vmcs,
    before: &Vmcs,
    register: SegmentRegister,
    seg: Segment,
) -> bool {
    &&& after.spec_is_current() == before.spec_is_current()
    &&& forall|f: VmcsField16|
        after.value16(f) == if f == register.spec_selector_field() {
            seg.selector
        } else {
            before.value16(f)
        }
    &&& forall|f: VmcsField32|
        after.value32(f) == if f == register.spec_limit_field() {
            seg.limit
        } else if f == register.spec_access_rights_field() {
            seg.access_rights
        } else {
            before.value32(f)
        }
    &&& forall|f: VmcsField64|
        after.value64(f) == if f == register.spec_base_field() {
            seg.base
        } else {
            before.value64(f)
        }
}

/// The host state that goes into 16-bit fields: the selectors. The code
/// and task selectors are the host's own; the others are null.
pub open spec fn host_value16(cpu: HostCpu, field: VmcsField16) -> Option<u16> {
    match field {
        VmcsField16::HostEsSelector => Some(0u16),
        VmcsField16::HostCsSelector => Some(cpu.layout.kcode_selector),
        VmcsField16::HostSsSelector => Some(0u16),
        VmcsField16::HostDsSelector => Some(0u16),
        VmcsField16::HostFsSelector => Some(0u16),
        VmcsField16::HostGsSelector => Some(0u16),
        VmcsField16::HostTrSelector => Some(cpu.layout.tss_selector),
        _ => None,
    }
}

/// The host state that goes into 32-bit fields.
pub open spec fn host_value32(field: VmcsField32) -> Option<u32> {
    match field {
        VmcsField32::HostIa32SysenterCs => Some(0u32),
        _ => None,
    }
}

/// The host state that goes into 64-bit fields: the registers of the core
/// as they are now, the bases of the host's tables, and the place where the
/// processor resumes the host after a trap: the entry of the trap path, on
/// the stack word that holds the host stack top.
pub open spec fn host_value64(cpu: HostCpu, field: VmcsField64) -> Option<u64> {
    match field {
        VmcsField64::HostIa32Pat => Some(cpu.pat),
        VmcsField64::HostIa32Efer => Some(cpu.efer),
        VmcsField64::HostCr0 => Some(cpu.cr0),
        VmcsField64::HostCr3 => Some(cpu.spec_page_table_root()),
        VmcsField64::HostCr4 => Some(cpu.cr4),
        VmcsField64::HostFsBase => Some(0u64),
        VmcsField64::HostGsBase => Some(cpu.gs_base),
        VmcsField64::HostTrBase => Some(0u64),
        VmcsField64::HostGdtrBase => Some(cpu.layout.gdt_base),
        VmcsField64::HostIdtrBase => Some(cpu.layout.idt_base),
        VmcsField64::HostIa32SysenterEsp => Some(0u64),
        VmcsField64::HostIa32SysenterEip => Some(0u64),
        VmcsField64::HostRsp => Some(cpu.layout.stack_top_slot),
        VmcsField64::HostRip => Some(cpu.layout.exit_entry),
        _ => None,
    }
}

/// The guest state that goes into 16-bit fields: the selectors of the
/// captured context, and a null selector for the local descriptor table.
pub open spec fn guest_value16(linux: LinuxContext, field: VmcsField16) -> Option<u16> {
    match field {
        VmcsField16::GuestEsSelector => Some(linux.es.selector),
        VmcsField16::GuestCsSelector => Some(linux.cs.selector),
        VmcsField16::GuestSsSelector => Some(linux.ss.selector),
        VmcsField16::GuestDsSelector => Some(linux.ds.selector),
        VmcsField16::GuestFsSelector => Some(linux.fs.selector),
        VmcsField16::GuestGsSelector => Some(linux.gs.selector),
        VmcsField16::GuestLdtrSelector => Some(Segment::spec_invalid().selector),
        VmcsField16::GuestTrSelector => Some(linux.tss.selector),
        _ => None,
    }
}

/// The low 32 bits of a register value.
pub open spec fn spec_low32(value: u64) -> u32 {
    (value & 0xFFFF_FFFF) as u32
}

/// The guest state that goes into 32-bit fields.
pub open spec fn guest_value32(linux: LinuxContext, cpu: HostCpu, field: VmcsField32) -> Option<
    u32,
> {
    match field {
        VmcsField32::GuestEsLimit => Some(linux.es.limit),
        VmcsField32::GuestCsLimit => Some(linux.cs.limit),
        VmcsField32::GuestSsLimit => Some(linux.ss.limit),
        VmcsField32::GuestDsLimit => Some(linux.ds.limit),
        VmcsField32::GuestFsLimit => Some(linux.fs.limit),
        VmcsField32::GuestGsLimit => Some(linux.gs.limit),
        VmcsField32::GuestLdtrLimit => Some(Segment::spec_invalid().limit),
        VmcsField32::GuestTrLimit => Some(linux.tss.limit),
        VmcsField32::GuestGdtrLimit => Some(linux.gdt.limit as u32),
        VmcsField32::GuestIdtrLimit => Some(linux.idt.limit as u32),
        VmcsField32::GuestEsArBytes => Some(linux.es.access_rights),
        VmcsField32::GuestCsArBytes => Some(linux.cs.access_rights),
        VmcsField32::GuestSsArBytes => Some(linux.ss.access_rights),
        VmcsField32::GuestDsArBytes => Some(linux.ds.access_rights),
        VmcsField32::GuestFsArBytes => Some(linux.fs.access_rights),
        VmcsField32::GuestGsArBytes => Some(linux.gs.access_rights),
        VmcsField32::GuestLdtrArBytes => Some(Segment::spec_invalid().access_rights),
        VmcsField32::GuestTrArBytes => Some(linux.tss.access_rights),
        VmcsField32::GuestInterruptibilityInfo => Some(0u32),
        VmcsField32::GuestActivityState => Some(0u32),
        VmcsField32::GuestSysenterCs => Some(spec_low32(cpu.sysenter_cs)),
        VmcsField32::VmxPreemptionTimerValue => Some(0u32),
        _ => None,
    }
}

/// The guest state that goes into 64-bit fields. The control registers go
/// through the masked write, CR0 first, then CR4, then CR3, and leave
/// their shadows and ownership masks with them.
pub open spec fn guest_value64(
    linux: LinuxContext,
    cpu: HostCpu,
    caps: VmxCapabilities,
    field: VmcsField64,
) -> Option<u64> {
    match field {
        VmcsField64::GuestIa32Pat => Some(linux.pat),
        VmcsField64::GuestIa32Efer => Some(linux.efer),
        VmcsField64::GuestCr0 => cr_write_value(caps, 0, linux.cr0, field),
        VmcsField64::Cr0ReadShadow => cr_write_value(caps, 0, linux.cr0, field),
        VmcsField64::Cr0GuestHostMask => cr_write_value(caps, 0, linux.cr0, field),
        VmcsField64::GuestCr4 => cr_write_value(caps, 4, linux.cr4, field),
        VmcsField64::Cr4ReadShadow => cr_write_value(caps, 4, linux.cr4, field),
        VmcsField64::Cr4GuestHostMask => cr_write_value(caps, 4, linux.cr4, field),
        VmcsField64::GuestCr3 => Some(linux.cr3),
        VmcsField64::GuestEsBase => Some(linux.es.base),
        VmcsField64::GuestCsBase => Some(linux.cs.base),
        VmcsField64::GuestSsBase => Some(linux.ss.base),
        VmcsField64::GuestDsBase => Some(linux.ds.base),
        VmcsField64::GuestFsBase => Some(linux.fs.base),
        VmcsField64::GuestGsBase => Some(linux.gs.base),
        VmcsField64::GuestLdtrBase => Some(Segment::spec_invalid().base),
        VmcsField64::GuestTrBase => Some(linux.tss.base),
        VmcsField64::GuestGdtrBase => Some(linux.gdt.base),
        VmcsField64::GuestIdtrBase => Some(linux.idt.base),
        VmcsField64::GuestRsp => Some(linux.rsp),
        VmcsField64::GuestRip => Some(linux.rip),
        VmcsField64::GuestRflags => Some(INITIAL_RFLAGS),
        VmcsField64::GuestSysenterEsp => Some(cpu.sysenter_esp),
        VmcsField64::GuestSysenterEip => Some(cpu.sysenter_eip),
        VmcsField64::GuestDr7 => Some(INITIAL_DR7),
        VmcsField64::GuestIa32Debugctl => Some(0u64),
        VmcsField64::GuestPendingDbgExceptions => Some(0u64),
        VmcsField64::VmcsLinkPointer => Some(NO_LINK_POINTER),
        _ => None,
    }
}

/// The primary controls that are asked for: the register bitmap and the
/// secondary controls, and a trap on every load of CR3. Unconditional traps
/// on port accesses are not asked for: the guest reaches the ports.
pub open spec fn primary_set() -> u32 {
    CPU_USE_MSR_BITMAPS | CPU_SEC_CONTROLS | CPU_CR3_LOAD_EXITING
}

/// The primary controls that are switched off: a trap on a store of CR3.
pub open spec fn primary_clear() -> u32 {
    CPU_CR3_STORE_EXITING
}

/// The secondary controls that are asked for: extended page tables and
/// the unrestricted guest always, and each instruction that the processor
/// has.
pub open spec fn spec_secondary_set(features: CpuFeatures) -> u32 {
    CPU2_EPT | CPU2_UNRESTRICTED_GUEST | (if features.rdtscp {
        CPU2_RDTSCP
    } else {
        0u32
    }) | (if features.invpcid {
        CPU2_INVPCID
    } else {
        0u32
    }) | (if features.xsaves_xrstors {
        CPU2_XSAVES
    } else {
        0u32
    })
}

#[verifier::when_used_as_spec(spec_secondary_set)]
pub fn secondary_set(features: CpuFeatures) -> (set: u32)
    ensures
        set == spec_secondary_set(features),
{
    CPU2_EPT | CPU2_UNRESTRICTED_GUEST | (if features.rdtscp {
        CPU2_RDTSCP
    } else {
        0u32
    }) | (if features.invpcid {
        CPU2_INVPCID
    } else {
        0u32
    }) | (if features.xsaves_xrstors {
        CPU2_XSAVES
    } else {
        0u32
    })
}

/// The exit controls that are asked for.
pub open spec fn exit_set() -> u32 {
    EXIT_HOST_ADDR_SPACE_SIZE | EXIT_SAVE_IA32_PAT | EXIT_LOAD_IA32_PAT | EXIT_SAVE_IA32_EFER
        | EXIT_LOAD_IA32_EFER
}

/// The entry controls that are asked for.
pub open spec fn entry_set() -> u32 {
    ENTRY_IA32E_MODE | ENTRY_LOAD_IA32_PAT | ENTRY_LOAD_IA32_EFER
}

/// Whether the capability registers of the core allow every control that
/// the setup asks for. External interrupts are not among them: the guest
/// takes its interrupts itself.
pub open spec fn controls_supported(caps: VmxCapabilities, features: CpuFeatures) -> bool {
    &&& control_request_allowed(caps.pinbased_ctls, PIN_NMI_EXITING, 0)
    &&& control_request_allowed(caps.procbased_ctls, primary_set(), primary_clear())
    &&& control_request_allowed(caps.procbased_ctls2, spec_secondary_set(features), 0)
    &&& control_request_allowed(caps.exit_ctls, exit_set(), 0)
    &&& control_request_allowed(caps.entry_ctls, entry_set(), 0)
}

/// The controls that go into 32-bit fields. Each of the five groups is
/// computed from its capability register and from `before`, which is what
/// the field held; the counts and the exception bitmap are zero.
pub open spec fn control_value32(
    caps: VmxCapabilities,
    features: CpuFeatures,
    before: u32,
    field: VmcsField32,
) -> Option<u32> {
    match field {
        VmcsField32::PinBasedVmExecControl => Some(
            control_value(caps.pinbased_ctls, before, PIN_NMI_EXITING, 0),
        ),
        VmcsField32::ProcBasedVmExecControl => Some(
            control_value(caps.procbased_ctls, before, primary_set(), primary_clear()),
        ),
        VmcsField32::SecondaryVmExecControl => Some(
            control_value(caps.procbased_ctls2, before, spec_secondary_set(features), 0),
        ),
        VmcsField32::VmExitControls => Some(
            control_value(caps.exit_ctls, before, exit_set(), 0),
        ),
        VmcsField32::VmEntryControls => Some(
            control_value(caps.entry_ctls, before, entry_set(), 0),
        ),
        VmcsField32::VmExitMsrStoreCount => Some(0u32),
        VmcsField32::VmExitMsrLoadCount => Some(0u32),
        VmcsField32::VmEntryMsrLoadCount => Some(0u32),
        VmcsField32::Cr3TargetCount => Some(0u32),
        VmcsField32::ExceptionBitmap => Some(0u32),
        _ => None,
    }
}

/// The controls that go into 64-bit fields: the guest owns all of CR4, the
/// isolation domain gives the translation root, and the bitmap of register
/// accesses is the one shared by all cores.
pub open spec fn control_value64(cell: Cell, msr_bitmap: u64, field: VmcsField64) -> Option<u64> {
    match field {
        VmcsField64::Cr4GuestHostMask => Some(0u64),
        VmcsField64::EptPointer => Some(cell.ept_pointer),
        VmcsField64::MsrBitmap => Some(msr_bitmap),
        _ => None,
    }
}

/// `after` is `before` with the host state of `cpu` written into it.
pub open spec fn is_host_setup(after: &Vmcs, before: &Vmcs, cpu: HostCpu) -> bool {
    &&& after.spec_is_current() == before.spec_is_current()
    &&& forall|f: VmcsField16| #[trigger] after.value16(f) == pick(host_value16(cpu, f), before.value16(f))
    &&& forall|f: VmcsField32| #[trigger] after.value32(f) == pick(host_value32(f), before.value32(f))
    &&& forall|f: VmcsField64| #[trigger] after.value64(f) == pick(host_value64(cpu, f), before.value64(f))
}

/// `after` is `before` with the guest state of `linux` written into it.
pub open spec fn is_guest_setup(
    after: &Vmcs,
    before: &Vmcs,
    linux: LinuxContext,
    cpu: HostCpu,
    caps: VmxCapabilities,
) -> bool {
    &&& after.spec_is_current() == before.spec_is_current()
    &&& forall|f: VmcsField16| #[trigger] after.value16(f) == pick(guest_value16(linux, f), before.value16(f))
    &&& forall|f: VmcsField32|
        #[trigger] after.value32(f) == pick(guest_value32(linux, cpu, f), before.value32(f))
    &&& forall|f: VmcsField64|
        #[trigger] after.value64(f) == pick(guest_value64(linux, cpu, caps, f), before.value64(f))
}

/// `after` is `before` with the controls written into it.
pub open spec fn is_control_setup(
    after: &Vmcs,
    before: &Vmcs,
    caps: VmxCapabilities,
    features: CpuFeatures,
    cell: Cell,
    msr_bitmap: u64,
) -> bool {
    &&& after.spec_is_current() == before.spec_is_current()
    &&& forall|f: VmcsField16| #[trigger] after.value16(f) == before.value16(f)
    &&& forall|f: VmcsField32|
        #[trigger] after.value32(f) == pick(
            control_value32(caps, features, before.value32(f), f),
            before.value32(f),
        )
    &&& forall|f: VmcsField64|
        #[trigger] after.value64(f) == pick(control_value64(cell, msr_bitmap, f), before.value64(f))
}

/// The control structure of a virtual CPU that was just created: current,
/// with controls, guest state and host state written in that order of
/// precedence, and zero in every field that none of them names.
pub open spec fn is_initial(
    vmcs: &Vmcs,
    linux: LinuxContext,
    cell: Cell,
    cpu: HostCpu,
    msr_bitmap: u64,
) -> bool {
    &&& vmcs.spec_is_current()
    &&& forall|f: VmcsField16|
        #[trigger] vmcs.value16(f) == pick(guest_value16(linux, f), pick(host_value16(cpu, f), 0u16))
    &&& forall|f: VmcsField32|
        #[trigger] vmcs.value32(f) == pick(
            control_value32(cpu.caps, cpu.features, 0u32, f),
            pick(guest_value32(linux, cpu, f), pick(host_value32(f), 0u32)),
        )
    &&& forall|f: VmcsField64|
        #[trigger] vmcs.value64(f) == pick(
            control_value64(cell, msr_bitmap, f),
            pick(guest_value64(linux, cpu, cpu.caps, f), pick(host_value64(cpu, f), 0u64)),
        )
}

#[verifier::when_used_as_spec(spec_low32)]
pub fn low32(value: u64) -> (low: u32)
    ensures
        low == spec_low32(value),
{
    assert(value & 0xFFFF_FFFF <= 0xFFFF_FFFF) by (bit_vector);
    (value & 0xFFFF_FFFF) as u32
}

/// Each of the three steps of the setup can be run again without harm:
/// a second run on the result of the first changes no field.
pub proof fn lemma_setup_steps_idempotent(
    first: &Vmcs,
    second: &Vmcs,
    before: &Vmcs,
    linux: LinuxContext,
    cell: Cell,
    cpu: HostCpu,
    msr_bitmap: u64,
)
    ensures
        is_host_setup(first, before, cpu) && is_host_setup(second, first, cpu)
            ==> second.same_fields(first),
        is_guest_setup(first, before, linux, cpu, cpu.caps) && is_guest_setup(
            second,
            first,
            linux,
            cpu,
            cpu.caps,
        ) ==> second.same_fields(first),
        controls_supported(cpu.caps, cpu.features) && is_control_setup(
            first,
            before,
            cpu.caps,
            cpu.features,
            cell,
            msr_bitmap,
        ) && is_control_setup(second, first, cpu.caps, cpu.features, cell, msr_bitmap)
            ==> second.same_fields(first),
{
    if controls_supported(cpu.caps, cpu.features) {
        let pin = before.value32(VmcsField32::PinBasedVmExecControl);
        let primary = before.value32(VmcsField32::ProcBasedVmExecControl);
        let secondary = before.value32(VmcsField32::SecondaryVmExecControl);
        let exit = before.value32(VmcsField32::VmExitControls);
        let entry = before.value32(VmcsField32::VmEntryControls);
        lemma_control_value_idempotent(cpu.caps.pinbased_ctls, pin, PIN_NMI_EXITING, 0);
        lemma_control_value_idempotent(
            cpu.caps.procbased_ctls,
            primary,
            primary_set(),
            primary_clear(),
        );
        lemma_control_value_idempotent(
            cpu.caps.procbased_ctls2,
            secondary,
            spec_secondary_set(cpu.features),
            0,
        );
        lemma_control_value_idempotent(cpu.caps.exit_ctls, exit, exit_set(), 0);
        lemma_control_value_idempotent(cpu.caps.entry_ctls, entry, entry_set(), 0);
    }
}

/// The order of the steps matters: the guest step leaves the host in
/// charge of the CR4 bits that the guest may not choose, and the control
/// step hands all of CR4 to the guest. Whichever of the two runs last
/// decides the ownership mask.
pub proof fn lemma_setup_steps_do_not_commute(
    guest_last: &Vmcs,
    control_last: &Vmcs,
    middle_a: &Vmcs,
    middle_b: &Vmcs,
    before: &Vmcs,
    linux: LinuxContext,
    cell: Cell,
    cpu: HostCpu,
    msr_bitmap: u64,
)
    requires
        is_guest_setup(middle_a, before, linux, cpu, cpu.caps),
        is_control_setup(control_last, middle_a, cpu.caps, cpu.features, cell, msr_bitmap),
        is_control_setup(middle_b, before, cpu.caps, cpu.features, cell, msr_bitmap),
        is_guest_setup(guest_last, middle_b, linux, cpu, cpu.caps),
    ensures
        control_last.value64(VmcsField64::Cr4GuestHostMask) == 0,
        guest_last.value64(VmcsField64::Cr4GuestHostMask) == crate::cr::spec_cr_image(
            crate::cr::spec_requested(4, linux.cr4),
            crate::cr::spec_cr4_fixed_bits(cpu.caps.cr4_fixed0, cpu.caps.cr4_fixed1),
        ).host_mask,
{
}

/// The controls of a virtual CPU that was just created are legal: each
/// of the five groups has every bit that its capability register demands
/// and none that it forbids, and has every bit that the setup asks for.
pub proof fn lemma_initial_controls_legal(
    vmcs: &Vmcs,
    linux: LinuxContext,
    cell: Cell,
    cpu: HostCpu,
    msr_bitmap: u64,
)
    requires
        is_initial(vmcs, linux, cell, cpu, msr_bitmap),
        controls_supported(cpu.caps, cpu.features),
    ensures
        ({
            let pin = vmcs.value32(VmcsField32::PinBasedVmExecControl);
            let primary = vmcs.value32(VmcsField32::ProcBasedVmExecControl);
            let secondary = vmcs.value32(VmcsField32::SecondaryVmExecControl);
            let exit = vmcs.value32(VmcsField32::VmExitControls);
            let entry = vmcs.value32(VmcsField32::VmEntryControls);
            &&& is_legal_control(cpu.caps.pinbased_ctls, pin)
            &&& is_legal_control(cpu.caps.procbased_ctls, primary)
            &&& is_legal_control(cpu.caps.procbased_ctls2, secondary)
            &&& is_legal_control(cpu.caps.exit_ctls, exit)
            &&& is_legal_control(cpu.caps.entry_ctls, entry)
            &&& pin & PIN_NMI_EXITING == PIN_NMI_EXITING
            &&& primary & primary_set() == primary_set()
            &&& primary & primary_clear() == 0
            &&& secondary & spec_secondary_set(cpu.features) == spec_secondary_set(cpu.features)
            &&& exit & exit_set() == exit_set()
            &&& entry & entry_set() == entry_set()
        }),
{
    lemma_control_value_legal(cpu.caps.pinbased_ctls, 0, PIN_NMI_EXITING, 0);
    lemma_control_value_legal(cpu.caps.procbased_ctls, 0, primary_set(), primary_clear());
    lemma_control_value_legal(cpu.caps.procbased_ctls2, 0, spec_secondary_set(cpu.features), 0);
    lemma_control_value_legal(cpu.caps.exit_ctls, 0, exit_set(), 0);
    lemma_control_value_legal(cpu.caps.entry_ctls, 0, entry_set(), 0);
}

/// A control value is legal under a capability register if it has every
/// bit that the register demands and none that it forbids.
pub open spec fn is_legal_control(capability: u64, value: u32) -> bool {
    value & spec_allowed0(capability) == spec_allowed0(capability) && value & !spec_allowed1(
        capability,
    ) == 0
}

/// A virtual CPU that was just created leaves external interrupts and port
/// accesses to its guest wherever the processor lets it: the two controls
/// that would make them trap are on only where the capability register
/// demands them.
pub proof fn lemma_initial_controls_pass_through(
    vmcs: &Vmcs,
    linux: LinuxContext,
    cell: Cell,
    cpu: HostCpu,
    msr_bitmap: u64,
)
    requires
        is_initial(vmcs, linux, cell, cpu, msr_bitmap),
    ensures
        vmcs.value32(VmcsField32::PinBasedVmExecControl) & PIN_EXTERNAL_INTERRUPT_EXITING
            == spec_allowed0(cpu.caps.pinbased_ctls) & PIN_EXTERNAL_INTERRUPT_EXITING,
        vmcs.value32(VmcsField32::ProcBasedVmExecControl) & CPU_UNCOND_IO_EXITING
            == spec_allowed0(cpu.caps.procbased_ctls) & CPU_UNCOND_IO_EXITING,
{
    let pin_must = spec_allowed0(cpu.caps.pinbased_ctls);
    let pin_may = spec_allowed1(cpu.caps.pinbased_ctls);
    let pin = vmcs.value32(VmcsField32::PinBasedVmExecControl);
    assert(pin & 0x1 == pin_must & 0x1) by (bit_vector)
        requires
            pin == pin_must | 0x8u32 | (0u32 & pin_may & !0u32),
    ;
    let cpu_must = spec_allowed0(cpu.caps.procbased_ctls);
    let cpu_may = spec_allowed1(cpu.caps.procbased_ctls);
    let primary = vmcs.value32(VmcsField32::ProcBasedVmExecControl);
    assert(primary & 0x100_0000 == cpu_must & 0x100_0000) by (bit_vector)
        requires
            primary == cpu_must | (0x1000_0000u32 | 0x8000_0000u32 | 0x8000u32) | (0u32 & cpu_may
                & !0x1_0000u32),
    ;
}

/// The guest's CR0 and CR4 of a virtual CPU that was just created obey the
/// fixed-bit masks of the core, and in the bits that the guest owns they
/// are those of the captured context.
pub proof fn lemma_initial_control_registers_obey_masks(
    vmcs: &Vmcs,
    linux: LinuxContext,
    cell: Cell,
    cpu: HostCpu,
    msr_bitmap: u64,
)
    requires
        is_initial(vmcs, linux, cell, cpu, msr_bitmap),
    ensures
        ({
            let fixed0 = crate::cr::spec_cr0_fixed_bits(cpu.caps.cr0_fixed0, cpu.caps.cr0_fixed1);
            let fixed4 = crate::cr::spec_cr4_fixed_bits(cpu.caps.cr4_fixed0, cpu.caps.cr4_fixed1);
            let cr0 = vmcs.value64(VmcsField64::GuestCr0);
            let cr4 = vmcs.value64(VmcsField64::GuestCr4);
            &&& (cr0 & fixed0.must0) | fixed0.must1 == cr0
            &&& cr0 & fixed0.must1 == fixed0.must1
            &&& cr0 & (fixed0.must0 & !fixed0.must1) == linux.cr0 & (fixed0.must0 & !fixed0.must1)
            &&& (cr4 & fixed4.must0) | fixed4.must1 == cr4
            &&& cr4 & fixed4.must1 == fixed4.must1
        }),
{
    crate::cr::lemma_stored_obeys_masks(
        crate::cr::spec_requested(0, linux.cr0),
        crate::cr::spec_cr0_fixed_bits(cpu.caps.cr0_fixed0, cpu.caps.cr0_fixed1),
    );
    crate::cr::lemma_stored_obeys_masks(
        crate::cr::spec_requested(4, linux.cr4),
        crate::cr::spec_cr4_fixed_bits(cpu.caps.cr4_fixed0, cpu.caps.cr4_fixed1),
    );
}

} // verus!
