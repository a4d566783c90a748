//! The virtual CPU of one core: its control structure, the guest's
//! general registers between a trap and the next entry, and the operations
//! of its life cycle.

use crate::bits::CR0_DEFINED;
use crate::bits::cr0_from_bits_truncate;
use crate::bits::CR4_DEFINED;
use crate::bits::cr4_from_bits_truncate;
use crate::bits::CR4_OSXSAVE;
use crate::bits::cr4_osxsave_bits;
use crate::bits::CR4_VMXE;
use crate::bits::cr4_vmxe_bits;
use crate::cell::align_down;
use crate::cell::Cell;
use crate::cell::GuestPageTableImmut;
use crate::cell::spec_align_down;
use crate::context::DescriptorTablePointer;
use crate::context::dpl;
use crate::context::GeneralRegisters;
use crate::context::LinuxContext;
use crate::context::Segment;
use crate::context::spec_dpl;
use crate::cr::composite;
use crate::cr::cr0_fixed_bits;
use crate::cr::cr4_fixed_bits;
use crate::cr::cr_image;
use crate::cr::FixedBits;
use crate::cr::requested;
use crate::cr::spec_composite;
use crate::cr::spec_cr0_fixed_bits;
use crate::cr::spec_cr4_fixed_bits;
use crate::cr::spec_cr_image;
use crate::cr::spec_requested;
use crate::error::HvError;
use crate::error::HvErrorNum;
use crate::error::HvResult;
use crate::exit_info::EXIT_REASON_BASIC;
use crate::exit_info::GENERAL_PROTECTION_INJECTION;
use crate::fields::VmcsField16;
use crate::fields::VmcsField32;
use crate::fields::VmcsField64;
use crate::host::FEATURE_CONTROL_LOCKED;
use crate::host::FEATURE_CONTROL_VMXON_OUTSIDE_SMX;
use crate::host::HOST_CR0;
use crate::host::HOST_CR4;
use crate::host::HostCpu;
use crate::host::VmxCapabilities;
use crate::host::VmxFrames;
use crate::image::controls_supported;
use crate::image::CPU_CR3_LOAD_EXITING;
use crate::image::CPU_CR3_STORE_EXITING;
use crate::image::CPU_SEC_CONTROLS;
use crate::image::CPU_USE_MSR_BITMAPS;
use crate::image::ENTRY_IA32E_MODE;
use crate::image::ENTRY_LOAD_IA32_EFER;
use crate::image::ENTRY_LOAD_IA32_PAT;
use crate::image::EXIT_HOST_ADDR_SPACE_SIZE;
use crate::image::EXIT_LOAD_IA32_EFER;
use crate::image::EXIT_LOAD_IA32_PAT;
use crate::image::EXIT_SAVE_IA32_EFER;
use crate::image::EXIT_SAVE_IA32_PAT;
use crate::image::INITIAL_DR7;
use crate::image::INITIAL_RFLAGS;
use crate::image::is_control_setup;
use crate::image::is_guest_setup;
use crate::image::is_host_setup;
use crate::image::is_initial;
use crate::image::is_segment_write;
use crate::image::low32;
use crate::image::NO_LINK_POINTER;
use crate::image::secondary_set;
use crate::image::SegmentRegister;
use crate::vmcs::PAGE_SIZE;
use crate::vmcs::vm_fail;
use crate::vmcs::Vmcs;
use crate::vmcs::VmxRegion;
use vstd::prelude::*;

verus! {

/// Pin-based control: a non-maskable interrupt makes the guest trap.
pub const PIN_NMI_EXITING: u32 = 0x8;

/// Pin-based control: the countdown timer runs and makes the guest trap
/// when it reaches zero.
pub const PIN_PREEMPTION_TIMER: u32 = 0x40;

/// The number that the architecture gives the exit reason "guest called the
/// host".
pub const EXIT_REASON_VMCALL: u32 = 18;

/// The virtual CPU of one core.
#[derive(Clone, Debug, PartialEq, Eq)]
pub struct Vcpu {
    /// The guest's general registers, saved when it traps.
    guest_regs: GeneralRegisters,
    /// The stack pointer that the trap path switches to.
    host_stack_top: u64,
    /// The activation region.
    vmxon_region: VmxRegion,
    /// The region of the control structure.
    vmcs_region: VmxRegion,
    /// The contents of the control structure.
    vmcs: Vmcs,
    /// The capability registers of the core that the virtual CPU runs on.
    caps: VmxCapabilities,
}

/// The fixed-bit masks of control register `index`, which is 0 or 4.
pub open spec fn spec_fixed_bits(caps: VmxCapabilities, index: usize) -> FixedBits {
    if index == 0 {
        spec_cr0_fixed_bits(caps.cr0_fixed0, caps.cr0_fixed1)
    } else {
        spec_cr4_fixed_bits(caps.cr4_fixed0, caps.cr4_fixed1)
    }
}

/// What a write of `value` to guest control register `index` puts in the
/// 64-bit field `field`, if it writes that field at all. CR0 and CR4 are
/// stored filtered, with shadow and ownership mask beside them; CR3 is
/// stored as it is.
pub open spec fn cr_write_value(
    caps: VmxCapabilities,
    index: usize,
    value: u64,
    field: VmcsField64,
) -> Option<u64> {
    let image = spec_cr_image(spec_requested(index, value), spec_fixed_bits(caps, index));
    if index == 0 {
        match field {
            VmcsField64::GuestCr0 => Some(image.stored),
            VmcsField64::Cr0ReadShadow => Some(image.shadow),
            VmcsField64::Cr0GuestHostMask => Some(image.host_mask),
            _ => None,
        }
    } else if index == 3 {
        match field {
            VmcsField64::GuestCr3 => Some(value),
            _ => None,
        }
    } else {
        match field {
            VmcsField64::GuestCr4 => Some(image.stored),
            VmcsField64::Cr4ReadShadow => Some(image.shadow),
            VmcsField64::Cr4GuestHostMask => Some(image.host_mask),
            _ => None,
        }
    }
}

/// `after` is `before` with `value` written to guest control register
/// `index`.
pub open spec fn is_cr_write(
    after: &Vmcs,
    before: &Vmcs,
    caps: VmxCapabilities,
    index: usize,
    value: u64,
) -> bool {
    &&& after.spec_is_current() == before.spec_is_current()
    &&& forall|f: VmcsField16| after.value16(f) == before.value16(f)
    &&& forall|f: VmcsField32| after.value32(f) == before.value32(f)
    &&& forall|f: VmcsField64|
        after.value64(f) == match cr_write_value(caps, index, value, f) {
            Some(v) => v,
            None => before.value64(f),
        }
}

/// What a read of guest control register `index` returns: for CR0 and CR4
/// the bits that the host owns come from the shadow and the others from the
/// stored value; CR3 is returned as stored.
pub open spec fn cr_read_value(vmcs: &Vmcs, index: usize) -> u64 {
    if index == 0 {
        spec_composite(
            vmcs.value64(VmcsField64::Cr0ReadShadow),
            vmcs.value64(VmcsField64::Cr0GuestHostMask),
            vmcs.value64(VmcsField64::GuestCr0),
        )
    } else if index == 3 {
        vmcs.value64(VmcsField64::GuestCr3)
    } else {
        spec_composite(
            vmcs.value64(VmcsField64::Cr4ReadShadow),
            vmcs.value64(VmcsField64::Cr4GuestHostMask),
            vmcs.value64(VmcsField64::GuestCr4),
        )
    }
}

/// A read of a guest control register returns what the last write to it
/// asked for, and returns it again on every further read until the next
/// write: the result depends on the control structure alone.
pub proof fn lemma_cr_read_back(
    after: &Vmcs,
    before: &Vmcs,
    caps: VmxCapabilities,
    index: usize,
    value: u64,
)
    requires
        index == 0 || index == 3 || index == 4,
        is_cr_write(after, before, caps, index, value),
    ensures
        cr_read_value(after, index) == spec_requested(index, value),
{
    crate::cr::lemma_read_after_write(spec_requested(index, value), spec_fixed_bits(caps, index));
}

/// The capability register and the two bit sets with which the countdown
/// timer is switched on or off: nothing but the timer bit is named.
pub open spec fn timer_control_value(caps: VmxCapabilities, before: u32, on: bool) -> u32 {
    if on {
        crate::vmcs::control_value(caps.pinbased_ctls, before, PIN_PREEMPTION_TIMER, 0)
    } else {
        crate::vmcs::control_value(caps.pinbased_ctls, before, 0, PIN_PREEMPTION_TIMER)
    }
}

/// Whether the capability register lets the countdown timer be switched.
pub open spec fn timer_control_allowed(caps: VmxCapabilities, on: bool) -> bool {
    if on {
        crate::vmcs::control_request_allowed(caps.pinbased_ctls, PIN_PREEMPTION_TIMER, 0)
    } else {
        crate::vmcs::control_request_allowed(caps.pinbased_ctls, 0, PIN_PREEMPTION_TIMER)
    }
}

/// The core with its performance counters switched off, if it has any.
pub open spec fn perf_counters_off(cpu: HostCpu) -> HostCpu {
    if cpu.features.perf_monitor_version_id > 0 {
        HostCpu { perf_global_ctrl: 0, ..cpu }
    } else {
        cpu
    }
}

/// Whether feature control forbids VMX for good: it is locked, and entry
/// outside secure mode is not allowed.
pub open spec fn vmx_locked_out(cpu: HostCpu) -> bool {
    cpu.feature_control & FEATURE_CONTROL_LOCKED != 0 && cpu.feature_control
        & FEATURE_CONTROL_VMXON_OUTSIDE_SMX == 0
}

/// The core with feature control locked and entry outside secure mode
/// allowed, where the register was not locked yet.
pub open spec fn feature_control_opened(cpu: HostCpu) -> HostCpu {
    if cpu.feature_control & FEATURE_CONTROL_LOCKED == 0 {
        HostCpu {
            feature_control: cpu.feature_control | FEATURE_CONTROL_LOCKED
                | FEATURE_CONTROL_VMXON_OUTSIDE_SMX,
            ..cpu
        }
    } else {
        cpu
    }
}

/// The value that CR4 of the host is brought to: the canonical value with
/// the virtual-machine extensions enabled, and with extended state saves
/// enabled where the processor has them.
pub open spec fn canonical_cr4(cpu: HostCpu) -> u64 {
    if cpu.features.xsave {
        HOST_CR4 | CR4_VMXE | CR4_OSXSAVE
    } else {
        HOST_CR4 | CR4_VMXE
    }
}

/// The core with its control registers in the canonical state.
pub open spec fn control_registers_canonical(cpu: HostCpu) -> HostCpu {
    HostCpu { cr0: HOST_CR0, cr4: canonical_cr4(cpu), ..cpu }
}

/// The core as the creation of a virtual CPU leaves it before it enters
/// VMX operation.
pub open spec fn prepared(cpu: HostCpu) -> HostCpu {
    control_registers_canonical(feature_control_opened(perf_counters_off(cpu)))
}

/// How the creation of a virtual CPU ends.
pub enum Creation {
    /// The captured context has the virtual-machine extensions enabled
    /// already.
    Busy,
    /// Feature control forbids VMX.
    Unavailable,
    /// A frame does not start on a page boundary.
    BadFrame,
    /// The core is in VMX operation already.
    EntryRefused,
    /// The capability registers do not allow a control that is needed.
    Unsupported,
    /// The virtual CPU stands.
    Created,
}

/// How the creation of a virtual CPU ends on given inputs. The checks are
/// made in this order, and the first that fails decides.
pub open spec fn creation(linux: LinuxContext, cpu: HostCpu, frames: VmxFrames) -> Creation {
    if linux.cr4 & CR4_VMXE != 0 {
        Creation::Busy
    } else if vmx_locked_out(cpu) {
        Creation::Unavailable
    } else if frames.vmxon % PAGE_SIZE != 0 || frames.vmcs % PAGE_SIZE != 0 {
        Creation::BadFrame
    } else if cpu.vmx_operation {
        Creation::EntryRefused
    } else if !controls_supported(cpu.caps, cpu.features) {
        Creation::Unsupported
    } else {
        Creation::Created
    }
}

/// The low 16 bits of a field value.
pub open spec fn spec_low16(value: u32) -> u16 {
    (value & 0xFFFF) as u16
}

#[verifier::when_used_as_spec(spec_low16)]
pub fn low16(value: u32) -> (low: u16)
    ensures
        low == spec_low16(value),
{
    assert(value & 0xFFFF <= 0xFFFF) by (bit_vector);
    (value & 0xFFFF) as u16
}

/// The context that teardown hands back: `linux` with what the guest left
/// in the control structure. The instruction and stack pointers, control
/// registers, selectors, the bases of FS and GS and the descriptor-table
/// registers are the guest's; the virtual-machine-extensions bit is taken
/// out of CR4 again; everything else stays as it was.
pub open spec fn restored_context(linux: LinuxContext, vmcs: &Vmcs) -> LinuxContext {
    LinuxContext {
        rip: vmcs.value64(VmcsField64::GuestRip),
        rsp: vmcs.value64(VmcsField64::GuestRsp),
        cr0: vmcs.value64(VmcsField64::GuestCr0) & CR0_DEFINED,
        cr3: vmcs.value64(VmcsField64::GuestCr3),
        cr4: (vmcs.value64(VmcsField64::GuestCr4) & CR4_DEFINED) & !CR4_VMXE,
        es: Segment { selector: vmcs.value16(VmcsField16::GuestEsSelector), ..linux.es },
        cs: Segment { selector: vmcs.value16(VmcsField16::GuestCsSelector), ..linux.cs },
        ss: Segment { selector: vmcs.value16(VmcsField16::GuestSsSelector), ..linux.ss },
        ds: Segment { selector: vmcs.value16(VmcsField16::GuestDsSelector), ..linux.ds },
        fs: Segment {
            selector: vmcs.value16(VmcsField16::GuestFsSelector),
            base: vmcs.value64(VmcsField64::GuestFsBase),
            ..linux.fs
        },
        gs: Segment {
            selector: vmcs.value16(VmcsField16::GuestGsSelector),
            base: vmcs.value64(VmcsField64::GuestGsBase),
            ..linux.gs
        },
        tss: Segment { selector: vmcs.value16(VmcsField16::GuestTrSelector), ..linux.tss },
        gdt: DescriptorTablePointer {
            base: vmcs.value64(VmcsField64::GuestGdtrBase),
            limit: spec_low16(vmcs.value32(VmcsField32::GuestGdtrLimit)),
        },
        idt: DescriptorTablePointer {
            base: vmcs.value64(VmcsField64::GuestIdtrBase),
            limit: spec_low16(vmcs.value32(VmcsField32::GuestIdtrLimit)),
        },
        ..linux
    }
}

/// The core with the guest's system-call registers given back to it.
pub open spec fn sysenter_restored(cpu: HostCpu, vmcs: &Vmcs) -> HostCpu {
    HostCpu {
        sysenter_cs: vmcs.value32(VmcsField32::GuestSysenterCs) as u64,
        sysenter_esp: vmcs.value64(VmcsField64::GuestSysenterEsp),
        sysenter_eip: vmcs.value64(VmcsField64::GuestSysenterEip),
        ..cpu
    }
}

/// The registers that the guest is entered with: the return register is
/// zero, the registers that a callee preserves are those of the captured
/// context, and the others are as they were.
pub open spec fn entry_registers(regs: GeneralRegisters, linux: LinuxContext) -> GeneralRegisters {
    GeneralRegisters {
        rax: 0,
        rbx: linux.rbx,
        rbp: linux.rbp,
        r12: linux.r12,
        r13: linux.r13,
        r14: linux.r14,
        r15: linux.r15,
        ..regs
    }
}

/// What a diagnostic report shows of a virtual CPU.
#[derive(Clone, Copy, Debug, PartialEq, Eq, Structural)]
pub struct VcpuDump {
    pub guest_regs: GeneralRegisters,
    pub rip: u64,
    pub rsp: u64,
    pub rflags: u64,
    pub cr0: u64,
    pub cr3: u64,
    pub cr4: u64,
    pub cs: u16,
    pub fs_base: u64,
    pub gs_base: u64,
    pub tss: u16,
}

impl Vcpu {
    pub closed spec fn spec_regs(&self) -> GeneralRegisters {
        self.guest_regs
    }

    pub closed spec fn spec_host_stack_top(&self) -> u64 {
        self.host_stack_top
    }

    pub closed spec fn spec_vmxon_region(&self) -> VmxRegion {
        self.vmxon_region
    }

    pub closed spec fn spec_vmcs_region(&self) -> VmxRegion {
        self.vmcs_region
    }

    pub closed spec fn spec_vmcs(&self) -> Vmcs {
        self.vmcs
    }

    pub closed spec fn spec_caps(&self) -> VmxCapabilities {
        self.caps
    }

    /// `self` and `before` differ at most in the control structure.
    pub open spec fn same_outside_vmcs(&self, before: &Vcpu) -> bool {
        &&& self.spec_regs() == before.spec_regs()
        &&& self.spec_host_stack_top() == before.spec_host_stack_top()
        &&& self.spec_vmxon_region() == before.spec_vmxon_region()
        &&& self.spec_vmcs_region() == before.spec_vmcs_region()
        &&& self.spec_caps() == before.spec_caps()
    }

    /// `self` and `before` differ at most in the guest registers.
    pub open spec fn same_outside_regs(&self, before: &Vcpu) -> bool {
        &&& self.spec_vmcs() == before.spec_vmcs()
        &&& self.spec_host_stack_top() == before.spec_host_stack_top()
        &&& self.spec_vmxon_region() == before.spec_vmxon_region()
        &&& self.spec_vmcs_region() == before.spec_vmcs_region()
        &&& self.spec_caps() == before.spec_caps()
    }

    /// `self` and `before` differ at most in the guest registers and in the
    /// control structure.
    pub open spec fn same_outside_regs_and_vmcs(&self, before: &Vcpu) -> bool {
        &&& self.spec_host_stack_top() == before.spec_host_stack_top()
        &&& self.spec_vmxon_region() == before.spec_vmxon_region()
        &&& self.spec_vmcs_region() == before.spec_vmcs_region()
        &&& self.spec_caps() == before.spec_caps()
    }

    /// Whether the control structure is current, so that its fields can be
    /// read and written.
    pub open spec fn spec_is_active(&self) -> bool {
        self.spec_vmcs().spec_is_current()
    }

    #[verifier::when_used_as_spec(spec_is_active)]
    pub fn is_active(&self) -> (b: bool)
        ensures
            b == self.spec_is_active(),
    {
        self.vmcs.is_current()
    }

    /// The control structure.
    pub fn vmcs(&self) -> (vmcs: &Vmcs)
        ensures
            *vmcs == self.spec_vmcs(),
    {
        &self.vmcs
    }

    /// The control structure, for the code that mirrors it to and from the
    /// processor.
    pub fn vmcs_mut(&mut self) -> (vmcs: &mut Vmcs)
        ensures
            *vmcs == old(self).spec_vmcs(),
            final(self).spec_vmcs() == *final(vmcs),
            final(self).same_outside_vmcs(old(self)),
    {
        &mut self.vmcs
    }

    /// The guest's general registers.
    pub fn regs(&self) -> (regs: &GeneralRegisters)
        ensures
            *regs == self.spec_regs(),
    {
        &self.guest_regs
    }

    /// The guest's general registers, to change them.
    pub fn regs_mut(&mut self) -> (regs: &mut GeneralRegisters)
        ensures
            *regs == old(self).spec_regs(),
            final(self).spec_regs() == *final(regs),
            final(self).same_outside_regs(old(self)),
    {
        &mut self.guest_regs
    }

    /// The stack pointer that the trap path switches to.
    pub fn host_stack_top(&self) -> (top: u64)
        ensures
            top == self.spec_host_stack_top(),
    {
        self.host_stack_top
    }

    /// The activation region.
    pub fn vmxon_region(&self) -> (region: VmxRegion)
        ensures
            region == self.spec_vmxon_region(),
    {
        self.vmxon_region
    }

    /// The region of the control structure.
    pub fn vmcs_region(&self) -> (region: VmxRegion)
        ensures
            region == self.spec_vmcs_region(),
    {
        self.vmcs_region
    }

    /// Creates the virtual CPU of a core from the context that was captured
    /// when the host kernel handed the core over, for the guest that `cell`
    /// isolates. The core's performance counters are switched off first.
    /// Then the checks of `creation` are made; where one fails, nothing
    /// further is written to the core. Otherwise the core enters VMX
    /// operation with its control registers in the canonical state, and the
    /// control structure is made current and set up.
    pub fn new(linux: &LinuxContext, cell: &Cell, cpu: &mut HostCpu, frames: &VmxFrames) -> (r:
        HvResult<Vcpu>)
        ensures
            match creation(*linux, *old(cpu), *frames) {
                Creation::Busy => r == Err::<Vcpu, HvError>(HvError { num: HvErrorNum::EBUSY })
                    && *final(cpu) == perf_counters_off(*old(cpu)),
                Creation::Unavailable => r == Err::<Vcpu, HvError>(
                    HvError { num: HvErrorNum::ENODEV },
                ) && *final(cpu) == perf_counters_off(*old(cpu)),
                Creation::BadFrame => r == Err::<Vcpu, HvError>(
                    HvError { num: HvErrorNum::EINVAL },
                ) && *final(cpu) == feature_control_opened(perf_counters_off(*old(cpu))),
                Creation::EntryRefused => r == Err::<Vcpu, HvError>(vm_fail()) && *final(cpu)
                    == prepared(*old(cpu)),
                Creation::Unsupported => r == Err::<Vcpu, HvError>(
                    HvError { num: HvErrorNum::EINVAL },
                ) && *final(cpu) == (HostCpu { vmx_operation: true, ..prepared(*old(cpu)) }),
                Creation::Created => {
                    &&& *final(cpu) == (HostCpu { vmx_operation: true, ..prepared(*old(cpu)) })
                    &&& r is Ok
                    &&& r->Ok_0.spec_regs() == GeneralRegisters::spec_zeroed()
                    &&& r->Ok_0.spec_host_stack_top() == old(cpu).layout.stack_top
                    &&& r->Ok_0.spec_vmxon_region().spec_paddr() == frames.vmxon
                    &&& r->Ok_0.spec_vmxon_region().spec_revision() == old(cpu).caps.spec_revision_id()
                    &&& r->Ok_0.spec_vmcs_region().spec_paddr() == frames.vmcs
                    &&& r->Ok_0.spec_vmcs_region().spec_revision() == old(cpu).caps.spec_revision_id()
                    &&& r->Ok_0.spec_caps() == old(cpu).caps
                    &&& is_initial(
                        &r->Ok_0.spec_vmcs(),
                        *linux,
                        *cell,
                        *final(cpu),
                        frames.msr_bitmap,
                    )
                },
            },
    {
        // Make sure that all performance counters are off.
        if cpu.features.perf_monitor_version_id > 0 {
            cpu.perf_global_ctrl = 0;
        }
        if linux.cr4 & cr4_vmxe_bits() != 0 {
            return Err(HvError::new(HvErrorNum::EBUSY));
        }
        // Open feature control, if that is still possible.

        let ctrl = cpu.feature_control;
        let locked = ctrl & FEATURE_CONTROL_LOCKED != 0;
        let vmxon_outside = ctrl & FEATURE_CONTROL_VMXON_OUTSIDE_SMX != 0;
        if !locked {
            cpu.feature_control = ctrl | FEATURE_CONTROL_LOCKED | FEATURE_CONTROL_VMXON_OUTSIDE_SMX;
        } else if !vmxon_outside {
            return Err(HvError::new(HvErrorNum::ENODEV));
        }
        let revision_id = cpu.caps.revision_id();
        let vmxon_region = VmxRegion::new(frames.vmxon, revision_id, false)?;
        let vmcs_region = VmxRegion::new(frames.vmcs, revision_id, false)?;

        // Bring CR0 and CR4 into well-defined states.
        let mut cr4 = HOST_CR4 | cr4_vmxe_bits();
        if cpu.features.xsave {
            cr4 = cr4 | cr4_osxsave_bits();
        }
        cpu.cr0 = HOST_CR0;
        cpu.cr4 = cr4;
        proof {
            let fc = cpu.feature_control;
            assert(fc & 1 != 0 && fc & 4 != 0) by (bit_vector)
                requires
                    fc == ctrl | 1u64 | 4u64 || (fc == ctrl && ctrl & 1u64 != 0 && ctrl & 4u64 != 0),
            ;
            assert(cr4 & 0x2000 != 0) by (bit_vector)
                requires
                    cr4 == 0x20u64 | 0x2000u64 | 0x4_0000u64 || cr4 == 0x20u64 | 0x2000u64,
            ;
        }

        cpu.vmxon(&vmxon_region)?;

        let mut ret = Vcpu {
            guest_regs: GeneralRegisters::zeroed(),
            host_stack_top: cpu.layout.stack_top,
            vmxon_region,
            vmcs_region,
            vmcs: Vmcs::new(),
            caps: cpu.caps,
        };
        ret.vmcs_setup(linux, cell, cpu, frames.msr_bitmap)?;
        Ok(ret)
    }

    /// Copies the registers that the guest starts with from the captured
    /// context into the register snapshot, from which the entry path loads
    /// them before it launches the guest.
    pub fn enter(&mut self, linux: &LinuxContext)
        ensures
            final(self).spec_regs() == entry_registers(old(self).spec_regs(), *linux),
            final(self).same_outside_regs(old(self)),
    {
        let regs = self.regs_mut();
        regs.rax = 0;
        regs.rbx = linux.rbx;
        regs.rbp = linux.rbp;
        regs.r12 = linux.r12;
        regs.r13 = linux.r13;
        regs.r14 = linux.r14;
        regs.r15 = linux.r15;
    }

    /// Gives the core back to the host: copies what the guest left in the
    /// control structure into `linux`, gives the guest's system-call
    /// registers back to the core, clears the control structure and leaves
    /// VMX operation. Each step needs the one before; a step that the
    /// processor refuses ends the teardown where it stands.
    pub fn exit(&mut self, linux: &mut LinuxContext, cpu: &mut HostCpu) -> (r: HvResult)
        ensures
            final(self).same_outside_vmcs(old(self)),
            final(self).spec_vmcs().same_fields(&old(self).spec_vmcs()),
            !old(self).spec_is_active() ==> r == Err::<(), HvError>(vm_fail()) && *final(linux)
                == *old(linux) && *final(cpu) == *old(cpu) && !final(self).spec_is_active(),
            old(self).spec_is_active() ==> *final(linux) == restored_context(
                *old(linux),
                &old(self).spec_vmcs(),
            ),
            old(self).spec_is_active() && !old(cpu).vmx_operation ==> r == Err::<(), HvError>(
                vm_fail(),
            ) && *final(cpu) == sysenter_restored(*old(cpu), &old(self).spec_vmcs())
                && final(self).spec_is_active(),
            old(self).spec_is_active() && old(cpu).vmx_operation ==> r is Ok && *final(cpu) == (
            HostCpu {
                vmx_operation: false,
                ..sysenter_restored(*old(cpu), &old(self).spec_vmcs())
            }) && !final(self).spec_is_active(),
    {
        self.load_vmcs_guest(linux, cpu)?;
        self.vmcs.clear(cpu.vmx_operation)?;
        cpu.vmxoff(self.vmcs.is_current())?;
        Ok(())
    }

    /// What a diagnostic report shows of the virtual CPU: the general
    /// registers, the guest's instruction pointer, stack pointer and flags,
    /// its control registers as it reads them, and the selectors and bases
    /// that tell where it runs.
    pub open spec fn spec_dump(&self) -> VcpuDump {
        VcpuDump {
            guest_regs: self.spec_regs(),
            rip: self.spec_vmcs().value64(VmcsField64::GuestRip),
            rsp: self.spec_vmcs().value64(VmcsField64::GuestRsp),
            rflags: self.spec_vmcs().value64(VmcsField64::GuestRflags),
            cr0: cr_read_value(&self.spec_vmcs(), 0),
            cr3: cr_read_value(&self.spec_vmcs(), 3),
            cr4: cr_read_value(&self.spec_vmcs(), 4),
            cs: self.spec_vmcs().value16(VmcsField16::GuestCsSelector),
            fs_base: self.spec_vmcs().value64(VmcsField64::GuestFsBase),
            gs_base: self.spec_vmcs().value64(VmcsField64::GuestGsBase),
            tss: self.spec_vmcs().value16(VmcsField16::GuestTrSelector),
        }
    }

    /// What a diagnostic report shows of the virtual CPU.
    pub fn dump(&self) -> (d: VcpuDump)
        requires
            self.spec_is_active(),
        ensures
            d == self.spec_dump(),
    {
        VcpuDump {
            guest_regs: self.guest_regs,
            rip: self.instr_pointer(),
            rsp: self.stack_pointer(),
            rflags: self.rflags(),
            cr0: self.cr(0),
            cr3: self.cr(3),
            cr4: self.cr(4),
            cs: self.vmcs.peek16(VmcsField16::GuestCsSelector),
            fs_base: self.fs_base(),
            gs_base: self.gs_base(),
            tss: self.vmcs.peek16(VmcsField16::GuestTrSelector),
        }
    }

    /// Makes the fresh control structure current and writes host state,
    /// guest state and controls, in that order.
    fn vmcs_setup(&mut self, linux: &LinuxContext, cell: &Cell, cpu: &HostCpu, msr_bitmap: u64) -> (r:
        HvResult)
        requires
            cpu.vmx_operation,
            old(self).spec_caps() == cpu.caps,
            forall|f: VmcsField16| old(self).spec_vmcs().value16(f) == 0,
            forall|f: VmcsField32| old(self).spec_vmcs().value32(f) == 0,
            forall|f: VmcsField64| old(self).spec_vmcs().value64(f) == 0,
        ensures
            final(self).same_outside_vmcs(old(self)),
            controls_supported(cpu.caps, cpu.features) ==> r is Ok && is_initial(
                &final(self).spec_vmcs(),
                *linux,
                *cell,
                *cpu,
                msr_bitmap,
            ),
            !controls_supported(cpu.caps, cpu.features) ==> r == Err::<(), HvError>(
                HvError { num: HvErrorNum::EINVAL },
            ),
    {
        assert(self.spec_vmcs() == self.vmcs);
        self.vmcs.clear(cpu.vmx_operation)?;
        self.vmcs.load(cpu.vmx_operation)?;
        self.setup_vmcs_host(cpu)?;
        self.setup_vmcs_guest(linux, cpu)?;
        self.setup_vmcs_control(cell, cpu, msr_bitmap)?;
        Ok(())
    }

    /// Copies what the guest left in the control structure into `linux`,
    /// and gives the guest's system-call registers back to the core.
    fn load_vmcs_guest(&self, linux: &mut LinuxContext, cpu: &mut HostCpu) -> (r: HvResult)
        ensures
            self.spec_is_active() ==> r is Ok && *final(linux) == restored_context(
                *old(linux),
                &self.spec_vmcs(),
            ) && *final(cpu) == sysenter_restored(*old(cpu), &self.spec_vmcs()),
            !self.spec_is_active() ==> r == Err::<(), HvError>(vm_fail()) && *final(linux) == *old(linux) && *final(cpu) == *old(cpu),
    {
        linux.rip = self.vmcs.read64(VmcsField64::GuestRip)?;
        linux.rsp = self.vmcs.read64(VmcsField64::GuestRsp)?;
        linux.cr0 = cr0_from_bits_truncate(self.vmcs.read64(VmcsField64::GuestCr0)?);
        linux.cr3 = self.vmcs.read64(VmcsField64::GuestCr3)?;
        linux.cr4 = cr4_from_bits_truncate(self.vmcs.read64(VmcsField64::GuestCr4)?)
            & !cr4_vmxe_bits();

        linux.es.selector = self.vmcs.read16(VmcsField16::GuestEsSelector)?;
        linux.cs.selector = self.vmcs.read16(VmcsField16::GuestCsSelector)?;
        linux.ss.selector = self.vmcs.read16(VmcsField16::GuestSsSelector)?;
        linux.ds.selector = self.vmcs.read16(VmcsField16::GuestDsSelector)?;
        linux.fs.selector = self.vmcs.read16(VmcsField16::GuestFsSelector)?;
        linux.fs.base = self.vmcs.read64(VmcsField64::GuestFsBase)?;
        linux.gs.selector = self.vmcs.read16(VmcsField16::GuestGsSelector)?;
        linux.gs.base = self.vmcs.read64(VmcsField64::GuestGsBase)?;
        linux.tss.selector = self.vmcs.read16(VmcsField16::GuestTrSelector)?;

        linux.gdt.base = self.vmcs.read64(VmcsField64::GuestGdtrBase)?;
        linux.gdt.limit = low16(self.vmcs.read32(VmcsField32::GuestGdtrLimit)?);
        linux.idt.base = self.vmcs.read64(VmcsField64::GuestIdtrBase)?;
        linux.idt.limit = low16(self.vmcs.read32(VmcsField32::GuestIdtrLimit)?);

        cpu.sysenter_cs = self.vmcs.read32(VmcsField32::GuestSysenterCs)? as u64;
        cpu.sysenter_esp = self.vmcs.read64(VmcsField64::GuestSysenterEsp)?;
        cpu.sysenter_eip = self.vmcs.read64(VmcsField64::GuestSysenterEip)?;
        Ok(())
    }

    /// Puts `value` in the register in which the guest finds the result of
    /// a call to the host.
    pub fn set_return_val(&mut self, value: u64)
        ensures
            final(self).spec_regs() == (GeneralRegisters { rax: value, ..old(self).spec_regs() }),
            final(self).same_outside_regs(old(self)),
    {
        self.guest_regs.rax = value;
    }

    /// Asks the processor to deliver a general-protection fault with error
    /// code zero to the guest on the next entry.
    pub fn inject_fault(&mut self) -> (r: HvResult)
        ensures
            final(self).same_outside_vmcs(old(self)),
            old(self).spec_is_active() ==> r is Ok && final(self).spec_vmcs().is_fault_injected(
                &old(self).spec_vmcs(),
            ),
            !old(self).spec_is_active() ==> r == Err::<(), HvError>(vm_fail()) && *final(self)
                == *old(self),
    {
        self.vmcs.write32(VmcsField32::VmEntryExceptionErrorCode, 0)?;
        self.vmcs.write32(VmcsField32::VmEntryIntrInfo, GENERAL_PROTECTION_INJECTION)
    }

    /// Moves the guest's instruction pointer forward by `instr_len` bytes,
    /// past an instruction that was handled for the guest. The pointer
    /// wraps round at the end of the address space, as the processor's does.
    pub fn advance_rip(&mut self, instr_len: u8) -> (r: HvResult)
        ensures
            final(self).same_outside_vmcs(old(self)),
            old(self).spec_is_active() ==> r is Ok && final(self).spec_vmcs().is_update64(
                &old(self).spec_vmcs(),
                VmcsField64::GuestRip,
                spec_advance(old(self).spec_vmcs().value64(VmcsField64::GuestRip), instr_len),
            ),
            !old(self).spec_is_active() ==> r == Err::<(), HvError>(vm_fail()) && *final(self)
                == *old(self),
    {
        let rip = self.vmcs.read64(VmcsField64::GuestRip)?;
        self.vmcs.write64(VmcsField64::GuestRip, rip.wrapping_add(instr_len as u64))
    }

    /// Whether the guest runs at the highest privilege: the privilege level
    /// in the access rights of its code segment is 0.
    pub fn guest_is_privileged(&self) -> (privileged: bool)
        requires
            self.spec_is_active(),
        ensures
            privileged == self.spec_guest_is_privileged(),
    {
        match self.vmcs.read32(VmcsField32::GuestCsArBytes) {
            Ok(access_rights) => dpl(access_rights) == 0,
            Err(_) => false,
        }
    }

    pub open spec fn spec_guest_is_privileged(&self) -> bool {
        spec_dpl(self.spec_vmcs().value32(VmcsField32::GuestCsArBytes)) == 0
    }

    /// Whether the guest trapped, the last time, because it called the
    /// host.
    pub fn in_hypercall(&self) -> (calling: bool)
        ensures
            calling == self.spec_in_hypercall(),
    {
        match self.vmcs.read32(VmcsField32::VmExitReason) {
            Ok(raw) => raw & EXIT_REASON_BASIC == EXIT_REASON_VMCALL,
            Err(_) => false,
        }
    }

    pub open spec fn spec_in_hypercall(&self) -> bool {
        self.spec_is_active() && self.spec_vmcs().value32(VmcsField32::VmExitReason)
            & EXIT_REASON_BASIC == EXIT_REASON_VMCALL
    }

    /// A view of the page table that the guest's CR3 names.
    pub fn guest_page_table(&self) -> (table: GuestPageTableImmut)
        requires
            self.spec_is_active(),
        ensures
            table.root == spec_align_down(cr_read_value(&self.spec_vmcs(), 3)),
    {
        GuestPageTableImmut::from_root(align_down(self.cr(3)))
    }

    /// Switches the countdown timer of the guest on or off, and touches no
    /// other pin-based control.
    pub fn setup_vmcs_control_timer(&mut self, flag: bool) -> (r: HvResult)
        ensures
            final(self).same_outside_vmcs(old(self)),
            !timer_control_allowed(old(self).spec_caps(), flag) ==> r == Err::<(), HvError>(
                HvError { num: crate::error::HvErrorNum::EINVAL },
            ) && *final(self) == *old(self),
            timer_control_allowed(old(self).spec_caps(), flag) && !old(self).spec_is_active() ==> r
                == Err::<(), HvError>(vm_fail()) && *final(self) == *old(self),
            timer_control_allowed(old(self).spec_caps(), flag) && old(self).spec_is_active() ==> r
                is Ok && final(self).spec_vmcs().is_update32(
                &old(self).spec_vmcs(),
                VmcsField32::PinBasedVmExecControl,
                timer_control_value(
                    old(self).spec_caps(),
                    old(self).spec_vmcs().value32(VmcsField32::PinBasedVmExecControl),
                    flag,
                ),
            ),
    {
        if flag {
            self.vmcs.set_control(
                VmcsField32::PinBasedVmExecControl,
                self.caps.pinbased_ctls,
                PIN_PREEMPTION_TIMER,
                0,
            )
        } else {
            self.vmcs.set_control(
                VmcsField32::PinBasedVmExecControl,
                self.caps.pinbased_ctls,
                0,
                PIN_PREEMPTION_TIMER,
            )
        }
    }

    /// Writes the four fields of one guest segment register.
    fn set_guest_segment(&mut self, register: SegmentRegister, seg: &Segment) -> (r: HvResult)
        requires
            old(self).spec_is_active(),
        ensures
            r is Ok,
            final(self).same_outside_vmcs(old(self)),
            is_segment_write(&final(self).spec_vmcs(), &old(self).spec_vmcs(), register, *seg),
    {
        self.vmcs.write16(register.selector_field(), seg.selector)?;
        self.vmcs.write64(register.base_field(), seg.base)?;
        self.vmcs.write32(register.limit_field(), seg.limit)?;
        self.vmcs.write32(register.access_rights_field(), seg.access_rights)?;
        Ok(())
    }

    /// Writes the state that the processor loads when the guest traps: the
    /// core's registers as they are, the host's tables, and the trap path
    /// as the place to resume.
    fn setup_vmcs_host(&mut self, cpu: &HostCpu) -> (r: HvResult)
        requires
            old(self).spec_is_active(),
        ensures
            r is Ok,
            final(self).same_outside_vmcs(old(self)),
            is_host_setup(&final(self).spec_vmcs(), &old(self).spec_vmcs(), *cpu),
    {
        self.vmcs.write64(VmcsField64::HostIa32Pat, cpu.pat)?;
        self.vmcs.write64(VmcsField64::HostIa32Efer, cpu.efer)?;

        self.vmcs.write64(VmcsField64::HostCr0, cpu.cr0)?;
        self.vmcs.write64(VmcsField64::HostCr3, cpu.page_table_root())?;
        self.vmcs.write64(VmcsField64::HostCr4, cpu.cr4)?;

        self.vmcs.write16(VmcsField16::HostEsSelector, 0)?;
        self.vmcs.write16(VmcsField16::HostCsSelector, cpu.layout.kcode_selector)?;
        self.vmcs.write16(VmcsField16::HostSsSelector, 0)?;
        self.vmcs.write16(VmcsField16::HostDsSelector, 0)?;
        self.vmcs.write16(VmcsField16::HostFsSelector, 0)?;
        self.vmcs.write16(VmcsField16::HostGsSelector, 0)?;
        self.vmcs.write16(VmcsField16::HostTrSelector, cpu.layout.tss_selector)?;
        self.vmcs.write64(VmcsField64::HostFsBase, 0)?;
        self.vmcs.write64(VmcsField64::HostGsBase, cpu.gs_base)?;
        self.vmcs.write64(VmcsField64::HostTrBase, 0)?;

        self.vmcs.write64(VmcsField64::HostGdtrBase, cpu.layout.gdt_base)?;
        self.vmcs.write64(VmcsField64::HostIdtrBase, cpu.layout.idt_base)?;

        self.vmcs.write64(VmcsField64::HostIa32SysenterEsp, 0)?;
        self.vmcs.write64(VmcsField64::HostIa32SysenterEip, 0)?;
        self.vmcs.write32(VmcsField32::HostIa32SysenterCs, 0)?;

        self.vmcs.write64(VmcsField64::HostRsp, cpu.layout.stack_top_slot)?;
        self.vmcs.write64(VmcsField64::HostRip, cpu.layout.exit_entry)?;
        Ok(())
    }

    /// Writes the state that the guest starts from: the captured context.
    fn setup_vmcs_guest(&mut self, linux: &LinuxContext, cpu: &HostCpu) -> (r: HvResult)
        requires
            old(self).spec_is_active(),
        ensures
            r is Ok,
            final(self).same_outside_vmcs(old(self)),
            is_guest_setup(
                &final(self).spec_vmcs(),
                &old(self).spec_vmcs(),
                *linux,
                *cpu,
                old(self).spec_caps(),
            ),
    {
        self.vmcs.write64(VmcsField64::GuestIa32Pat, linux.pat)?;
        self.vmcs.write64(VmcsField64::GuestIa32Efer, linux.efer)?;

        self.set_cr(0, linux.cr0);
        self.set_cr(4, linux.cr4);
        self.set_cr(3, linux.cr3);

        self.set_guest_segment(SegmentRegister::Es, &linux.es)?;
        self.set_guest_segment(SegmentRegister::Cs, &linux.cs)?;
        self.set_guest_segment(SegmentRegister::Ss, &linux.ss)?;
        self.set_guest_segment(SegmentRegister::Ds, &linux.ds)?;
        self.set_guest_segment(SegmentRegister::Fs, &linux.fs)?;
        self.set_guest_segment(SegmentRegister::Gs, &linux.gs)?;
        self.set_guest_segment(SegmentRegister::Tr, &linux.tss)?;
        let unusable = Segment::invalid();
        self.set_guest_segment(SegmentRegister::Ldtr, &unusable)?;

        self.vmcs.write64(VmcsField64::GuestGdtrBase, linux.gdt.base)?;
        self.vmcs.write32(VmcsField32::GuestGdtrLimit, linux.gdt.limit as u32)?;
        self.vmcs.write64(VmcsField64::GuestIdtrBase, linux.idt.base)?;
        self.vmcs.write32(VmcsField32::GuestIdtrLimit, linux.idt.limit as u32)?;

        self.vmcs.write64(VmcsField64::GuestRsp, linux.rsp)?;
        self.vmcs.write64(VmcsField64::GuestRip, linux.rip)?;
        self.vmcs.write64(VmcsField64::GuestRflags, INITIAL_RFLAGS)?;

        self.vmcs.write32(VmcsField32::GuestSysenterCs, low32(cpu.sysenter_cs))?;
        self.vmcs.write64(VmcsField64::GuestSysenterEsp, cpu.sysenter_esp)?;
        self.vmcs.write64(VmcsField64::GuestSysenterEip, cpu.sysenter_eip)?;

        self.vmcs.write64(VmcsField64::GuestDr7, INITIAL_DR7)?;
        self.vmcs.write64(VmcsField64::GuestIa32Debugctl, 0)?;

        self.vmcs.write32(VmcsField32::GuestActivityState, 0)?;
        self.vmcs.write32(VmcsField32::GuestInterruptibilityInfo, 0)?;
        self.vmcs.write64(VmcsField64::GuestPendingDbgExceptions, 0)?;

        self.vmcs.write64(VmcsField64::VmcsLinkPointer, NO_LINK_POINTER)?;
        self.vmcs.write32(VmcsField32::VmxPreemptionTimerValue, 0)?;
        Ok(())
    }

    /// Writes the controls: what makes the guest trap, what the processor
    /// saves and loads on the way, and where it finds the guest's memory.
    fn setup_vmcs_control(&mut self, cell: &Cell, cpu: &HostCpu, msr_bitmap: u64) -> (r: HvResult)
        requires
            old(self).spec_is_active(),
            old(self).spec_caps() == cpu.caps,
        ensures
            final(self).same_outside_vmcs(old(self)),
            final(self).spec_is_active(),
            controls_supported(cpu.caps, cpu.features) ==> r is Ok && is_control_setup(
                &final(self).spec_vmcs(),
                &old(self).spec_vmcs(),
                cpu.caps,
                cpu.features,
                *cell,
                msr_bitmap,
            ),
            !controls_supported(cpu.caps, cpu.features) ==> r == Err::<(), HvError>(
                HvError { num: HvErrorNum::EINVAL },
            ),
    {
        // External interrupts are left to the guest.
        self.vmcs.set_control(
            VmcsField32::PinBasedVmExecControl,
            self.caps.pinbased_ctls,
            PIN_NMI_EXITING,
            0,
        )?;

        // So are its port accesses.
        self.vmcs.set_control(
            VmcsField32::ProcBasedVmExecControl,
            self.caps.procbased_ctls,
            CPU_USE_MSR_BITMAPS | CPU_SEC_CONTROLS | CPU_CR3_LOAD_EXITING,
            CPU_CR3_STORE_EXITING,
        )?;

        self.vmcs.set_control(
            VmcsField32::SecondaryVmExecControl,
            self.caps.procbased_ctls2,
            secondary_set(cpu.features),
            0,
        )?;

        self.vmcs.set_control(
            VmcsField32::VmExitControls,
            self.caps.exit_ctls,
            EXIT_HOST_ADDR_SPACE_SIZE | EXIT_SAVE_IA32_PAT | EXIT_LOAD_IA32_PAT
                | EXIT_SAVE_IA32_EFER | EXIT_LOAD_IA32_EFER,
            0,
        )?;

        self.vmcs.set_control(
            VmcsField32::VmEntryControls,
            self.caps.entry_ctls,
            ENTRY_IA32E_MODE | ENTRY_LOAD_IA32_PAT | ENTRY_LOAD_IA32_EFER,
            0,
        )?;

        self.vmcs.write32(VmcsField32::VmExitMsrStoreCount, 0)?;
        self.vmcs.write32(VmcsField32::VmExitMsrLoadCount, 0)?;
        self.vmcs.write32(VmcsField32::VmEntryMsrLoadCount, 0)?;

        self.vmcs.write64(VmcsField64::Cr4GuestHostMask, 0)?;
        self.vmcs.write32(VmcsField32::Cr3TargetCount, 0)?;

        cell.activate(&mut self.vmcs)?;

        self.vmcs.write64(VmcsField64::MsrBitmap, msr_bitmap)?;
        self.vmcs.write32(VmcsField32::ExceptionBitmap, 0)?;
        Ok(())
    }

    /// The number by which the processor says why it refused the last
    /// VMX instruction.
    pub fn instruction_error(&self) -> (r: HvResult<u32>)
        ensures
            self.spec_is_active() ==> r == Ok::<u32, HvError>(
                self.spec_vmcs().value32(VmcsField32::VmInstructionError),
            ),
            !self.spec_is_active() ==> r == Err::<u32, HvError>(vm_fail()),
    {
        self.vmcs.read32(VmcsField32::VmInstructionError)
    }

    /// The guest's instruction pointer.
    pub fn instr_pointer(&self) -> (rip: u64)
        requires
            self.spec_is_active(),
        ensures
            rip == self.spec_vmcs().value64(VmcsField64::GuestRip),
    {
        self.vmcs.peek64(VmcsField64::GuestRip)
    }

    /// The guest's stack pointer.
    pub fn stack_pointer(&self) -> (rsp: u64)
        requires
            self.spec_is_active(),
        ensures
            rsp == self.spec_vmcs().value64(VmcsField64::GuestRsp),
    {
        self.vmcs.peek64(VmcsField64::GuestRsp)
    }

    /// Sets the guest's stack pointer.
    pub fn set_stack_pointer(&mut self, sp: u64)
        requires
            old(self).spec_is_active(),
        ensures
            final(self).same_outside_vmcs(old(self)),
            final(self).spec_vmcs().is_update64(&old(self).spec_vmcs(), VmcsField64::GuestRsp, sp),
    {
        let _ = self.vmcs.write64(VmcsField64::GuestRsp, sp);
    }

    /// The guest's flags register.
    pub fn rflags(&self) -> (flags: u64)
        requires
            self.spec_is_active(),
        ensures
            flags == self.spec_vmcs().value64(VmcsField64::GuestRflags),
    {
        self.vmcs.peek64(VmcsField64::GuestRflags)
    }

    /// The base of the guest's FS segment.
    pub fn fs_base(&self) -> (base: u64)
        requires
            self.spec_is_active(),
        ensures
            base == self.spec_vmcs().value64(VmcsField64::GuestFsBase),
    {
        self.vmcs.peek64(VmcsField64::GuestFsBase)
    }

    /// The base of the guest's GS segment.
    pub fn gs_base(&self) -> (base: u64)
        requires
            self.spec_is_active(),
        ensures
            base == self.spec_vmcs().value64(VmcsField64::GuestGsBase),
    {
        self.vmcs.peek64(VmcsField64::GuestGsBase)
    }

    /// Reads guest control register `cr_idx`, which is 0, 3 or 4.
    pub fn cr(&self, cr_idx: usize) -> (value: u64)
        requires
            self.spec_is_active(),
            cr_idx == 0 || cr_idx == 3 || cr_idx == 4,
        ensures
            value == cr_read_value(&self.spec_vmcs(), cr_idx),
    {
        if cr_idx == 0 {
            composite(
                self.vmcs.peek64(VmcsField64::Cr0ReadShadow),
                self.vmcs.peek64(VmcsField64::Cr0GuestHostMask),
                self.vmcs.peek64(VmcsField64::GuestCr0),
            )
        } else if cr_idx == 3 {
            self.vmcs.peek64(VmcsField64::GuestCr3)
        } else {
            composite(
                self.vmcs.peek64(VmcsField64::Cr4ReadShadow),
                self.vmcs.peek64(VmcsField64::Cr4GuestHostMask),
                self.vmcs.peek64(VmcsField64::GuestCr4),
            )
        }
    }

    /// Writes guest control register `cr_idx`, which is 0, 3 or 4.
    pub fn set_cr(&mut self, cr_idx: usize, val: u64)
        requires
            old(self).spec_is_active(),
            cr_idx == 0 || cr_idx == 3 || cr_idx == 4,
        ensures
            final(self).same_outside_vmcs(old(self)),
            is_cr_write(
                &final(self).spec_vmcs(),
                &old(self).spec_vmcs(),
                old(self).spec_caps(),
                cr_idx,
                val,
            ),
    {
        if cr_idx == 0 {
            let fixed = cr0_fixed_bits(self.caps.cr0_fixed0, self.caps.cr0_fixed1);
            let image = cr_image(requested(cr_idx, val), fixed);
            let _ = self.vmcs.write64(VmcsField64::GuestCr0, image.stored);
            let _ = self.vmcs.write64(VmcsField64::Cr0ReadShadow, image.shadow);
            let _ = self.vmcs.write64(VmcsField64::Cr0GuestHostMask, image.host_mask);
        } else if cr_idx == 3 {
            let _ = self.vmcs.write64(VmcsField64::GuestCr3, val);
        } else {
            let fixed = cr4_fixed_bits(self.caps.cr4_fixed0, self.caps.cr4_fixed1);
            let image = cr_image(requested(cr_idx, val), fixed);
            let _ = self.vmcs.write64(VmcsField64::GuestCr4, image.stored);
            let _ = self.vmcs.write64(VmcsField64::Cr4ReadShadow, image.shadow);
            let _ = self.vmcs.write64(VmcsField64::Cr4GuestHostMask, image.host_mask);
        }
    }
}

/// The instruction pointer `len` bytes after `rip`, wrapping round at the
/// end of the address space.
pub open spec fn spec_advance(rip: u64, len: u8) -> u64 {
    if rip + len > u64::MAX {
        (rip + len - 0x1_0000_0000_0000_0000) as u64
    } else {
        (rip + len) as u64
    }
}

} // verus!
