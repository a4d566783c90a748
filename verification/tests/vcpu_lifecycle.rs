use hvcore::bits::{CR0_DEFINED, CR4_DEFINED};
use hvcore::cell::{align_down, Cell, GuestPageTableImmut};
use hvcore::context::{
    dpl, DescriptorTablePointer, GeneralRegisters, LinuxContext, Segment, SEGMENT_UNUSABLE,
};
use hvcore::error::{HvError, HvErrorNum};
use hvcore::fields::{VmcsField16, VmcsField32, VmcsField64};
use hvcore::host::{
    CpuFeatures, HostCpu, HostLayout, VmxCapabilities, VmxFrames, HOST_CR0, HOST_CR4,
};
use hvcore::vcpu::Vcpu;
use x86_64::registers::control::{Cr0Flags, Cr4Flags};

fn segment(selector: u16, base: u64, limit: u32, access_rights: u32) -> Segment {
    Segment { selector, base, limit, access_rights }
}

fn linux_context() -> LinuxContext {
    LinuxContext {
        rsp: 0xFFFF_8800_0010_0000,
        rip: 0xFFFF_FFFF_8100_0000,
        r15: 15,
        r14: 14,
        r13: 13,
        r12: 12,
        rbx: 0xB,
        rbp: 0xFFFF_8800_0010_0040,
        es: segment(0, 0, 0xFFFF_FFFF, 0xC093),
        cs: segment(0x10, 0, 0xFFFF_FFFF, 0xA09B),
        ss: segment(0x18, 0, 0xFFFF_FFFF, 0xC093),
        ds: segment(0, 0, 0xFFFF_FFFF, 0xC093),
        fs: segment(0, 0x7F00_0000_1000, 0xFFFF_FFFF, 0xC093),
        gs: segment(0, 0xFFFF_8800_7FC0_0000, 0xFFFF_FFFF, 0xC093),
        tss: segment(0x40, 0xFFFF_8800_7FC0_4000, 0x2087, 0x8B),
        gdt: DescriptorTablePointer { limit: 0x7F, base: 0xFFFF_8800_7FC0_9000 },
        idt: DescriptorTablePointer { limit: 0xFFF, base: 0xFFFF_FFFF_FF57_8000 },
        cr0: 0x8005_0033,
        cr3: 0x1_4567_8000,
        cr4: 0x34_06E0,
        efer: 0xD01,
        pat: 0x0007_0406_0007_0406,
    }
}

fn capabilities() -> VmxCapabilities {
    VmxCapabilities {
        basic: 0x00DA_0400_0000_0012,
        pinbased_ctls: 0x0000_007F_0000_0016,
        procbased_ctls: 0xFFF9_FFFE_0400_6172,
        procbased_ctls2: 0x057C_FFFF_0000_0000,
        exit_ctls: 0x00FF_FFFF_0003_6DFF,
        entry_ctls: 0x0000_FFFF_0000_11FF,
        cr0_fixed0: 0x8000_0021,
        cr0_fixed1: 0xFFFF_FFFF,
        cr4_fixed0: 0x2000,
        cr4_fixed1: 0x37_27FF,
    }
}

fn host_cpu() -> HostCpu {
    HostCpu {
        caps: capabilities(),
        features: CpuFeatures {
            perf_monitor_version_id: 4,
            xsave: true,
            rdtscp: true,
            invpcid: true,
            xsaves_xrstors: true,
        },
        layout: HostLayout {
            kcode_selector: 0x8,
            tss_selector: 0x10,
            gdt_base: 0xFFFF_FF00_0000_1000,
            idt_base: 0xFFFF_FF00_0000_2000,
            stack_top: 0xFFFF_FF00_0008_0000,
            stack_top_slot: 0xFFFF_FF00_0007_0080,
            exit_entry: 0xFFFF_FF00_0010_0400,
        },
        feature_control: 0x5,
        perf_global_ctrl: 0x7_0000_000F,
        pat: 0x07_0106,
        efer: 0xD01,
        gs_base: 0xFFFF_FF00_0007_0000,
        sysenter_cs: 0x10,
        sysenter_esp: 0xFFFF_8800_0000_3000,
        sysenter_eip: 0xFFFF_FFFF_8160_0000,
        cr0: 0x8005_003B,
        cr3: 0x0000_0000_0120_3018,
        cr4: 0x34_06E0,
        vmx_operation: false,
    }
}

fn frames() -> VmxFrames {
    VmxFrames { vmxon: 0x10_0000, vmcs: 0x10_1000, msr_bitmap: 0x10_2000 }
}

fn cell() -> Cell {
    Cell::new(0x20_005E)
}

fn created() -> (Vcpu, HostCpu) {
    let mut cpu = host_cpu();
    let vcpu = Vcpu::new(&linux_context(), &cell(), &mut cpu, &frames()).unwrap();
    (vcpu, cpu)
}

fn error(num: HvErrorNum) -> HvError {
    HvError::new(num)
}

#[test]
fn create_when_vmx_is_already_enabled_is_busy() {
    let mut linux = linux_context();
    linux.cr4 |= Cr4Flags::VIRTUAL_MACHINE_EXTENSIONS.bits();
    let mut cpu = host_cpu();
    cpu.features.perf_monitor_version_id = 0;
    let before = cpu;
    let r = Vcpu::new(&linux, &cell(), &mut cpu, &frames());
    assert_eq!(r.err(), Some(error(HvErrorNum::EBUSY)));
    // No hardware write was made.
    assert_eq!(cpu, before);
}

#[test]
fn create_busy_after_performance_counters_are_off() {
    let mut linux = linux_context();
    linux.cr4 |= 0x2000;
    let mut cpu = host_cpu();
    let before = cpu;
    let r = Vcpu::new(&linux, &cell(), &mut cpu, &frames());
    assert_eq!(r.err(), Some(error(HvErrorNum::EBUSY)));
    assert_eq!(cpu, HostCpu { perf_global_ctrl: 0, ..before });
}

#[test]
fn create_when_feature_control_is_locked_without_vmxon_is_unavailable() {
    let mut cpu = host_cpu();
    cpu.feature_control = 0x1;
    let before = cpu;
    let r = Vcpu::new(&linux_context(), &cell(), &mut cpu, &frames());
    assert_eq!(r.err(), Some(error(HvErrorNum::ENODEV)));
    assert_eq!(cpu, HostCpu { perf_global_ctrl: 0, ..before });
    // Locked with entry allowed inside secure mode only is no better.
    let mut cpu = host_cpu();
    cpu.feature_control = 0x3;
    let r = Vcpu::new(&linux_context(), &cell(), &mut cpu, &frames());
    assert_eq!(r.err(), Some(error(HvErrorNum::ENODEV)));
}

#[test]
fn create_opens_unlocked_feature_control() {
    let mut cpu = host_cpu();
    cpu.feature_control = 0x100;
    let r = Vcpu::new(&linux_context(), &cell(), &mut cpu, &frames());
    assert!(r.is_ok());
    assert_eq!(cpu.feature_control, 0x105);
}

#[test]
fn create_leaves_locked_feature_control_alone() {
    let (_, cpu) = created();
    assert_eq!(cpu.feature_control, 0x5);
}

#[test]
fn create_with_misaligned_frame_fails() {
    let mut cpu = host_cpu();
    cpu.feature_control = 0;
    let before = cpu;
    let bad = VmxFrames { vmxon: 0x10_0010, ..frames() };
    let r = Vcpu::new(&linux_context(), &cell(), &mut cpu, &bad);
    assert_eq!(r.err(), Some(error(HvErrorNum::EINVAL)));
    assert_eq!(cpu, HostCpu { perf_global_ctrl: 0, feature_control: 0x5, ..before });
    let mut cpu = host_cpu();
    let bad = VmxFrames { vmcs: 0x10_1800, ..frames() };
    let r = Vcpu::new(&linux_context(), &cell(), &mut cpu, &bad);
    assert_eq!(r.err(), Some(error(HvErrorNum::EINVAL)));
    assert!(!cpu.vmx_operation);
}

#[test]
fn create_on_a_core_in_vmx_operation_is_refused() {
    let mut cpu = host_cpu();
    cpu.vmx_operation = true;
    let before = cpu;
    let r = Vcpu::new(&linux_context(), &cell(), &mut cpu, &frames());
    assert_eq!(r.err(), Some(error(HvErrorNum::EIO)));
    assert_eq!(
        cpu,
        HostCpu { perf_global_ctrl: 0, cr0: HOST_CR0, cr4: 0x4_2020, ..before }
    );
}

#[test]
fn create_with_unsupported_control_fails() {
    // No extended page tables.
    let mut cpu = host_cpu();
    cpu.caps.procbased_ctls2 = 0x057C_FFFD_0000_0000;
    let r = Vcpu::new(&linux_context(), &cell(), &mut cpu, &frames());
    assert_eq!(r.err(), Some(error(HvErrorNum::EINVAL)));
    assert!(cpu.vmx_operation);
    // A store of CR3 that cannot be let through.
    let mut cpu = host_cpu();
    cpu.caps.procbased_ctls = 0xFFF9_FFFE_0401_6172;
    let r = Vcpu::new(&linux_context(), &cell(), &mut cpu, &frames());
    assert_eq!(r.err(), Some(error(HvErrorNum::EINVAL)));
    // No trap on a load of CR3.
    let mut cpu = host_cpu();
    cpu.caps.procbased_ctls = 0xFFF9_7FFE_0400_6172;
    let r = Vcpu::new(&linux_context(), &cell(), &mut cpu, &frames());
    assert_eq!(r.err(), Some(error(HvErrorNum::EINVAL)));
}

#[test]
fn create_brings_the_core_into_vmx_operation() {
    let before = host_cpu();
    let (vcpu, cpu) = created();
    assert_eq!(
        cpu,
        HostCpu {
            perf_global_ctrl: 0,
            cr0: HOST_CR0,
            cr4: HOST_CR4 | Cr4Flags::VIRTUAL_MACHINE_EXTENSIONS.bits() | Cr4Flags::OSXSAVE.bits(),
            vmx_operation: true,
            ..before
        }
    );
    assert_eq!(cpu.cr4, 0x4_2020);
    assert!(vcpu.is_active());
    assert_eq!(*vcpu.regs(), GeneralRegisters::zeroed());
    assert_eq!(vcpu.host_stack_top(), 0xFFFF_FF00_0008_0000);
    assert_eq!(vcpu.vmxon_region().paddr(), 0x10_0000);
    assert_eq!(vcpu.vmcs_region().paddr(), 0x10_1000);
    assert_eq!(vcpu.vmxon_region().revision(), 0x12);
    assert_eq!(vcpu.vmcs_region().revision(), 0x12);
}

#[test]
fn create_without_xsave_leaves_osxsave_off() {
    let mut cpu = host_cpu();
    cpu.features.xsave = false;
    Vcpu::new(&linux_context(), &cell(), &mut cpu, &frames()).unwrap();
    assert_eq!(cpu.cr4, 0x2020);
}

#[test]
fn host_cr0_is_made_of_defined_flags() {
    let expected = Cr0Flags::PAGING
        | Cr0Flags::WRITE_PROTECT
        | Cr0Flags::NUMERIC_ERROR
        | Cr0Flags::EXTENSION_TYPE
        | Cr0Flags::TASK_SWITCHED
        | Cr0Flags::MONITOR_COPROCESSOR
        | Cr0Flags::PROTECTED_MODE_ENABLE;
    assert_eq!(HOST_CR0, expected.bits());
    assert_eq!(HOST_CR4, Cr4Flags::PHYSICAL_ADDRESS_EXTENSION.bits());
}

#[test]
fn created_host_state() {
    let (vcpu, cpu) = created();
    let v = vcpu.vmcs();
    assert_eq!(v.peek64(VmcsField64::HostIa32Pat), 0x07_0106);
    assert_eq!(v.peek64(VmcsField64::HostIa32Efer), 0xD01);
    assert_eq!(v.peek64(VmcsField64::HostCr0), HOST_CR0);
    assert_eq!(v.peek64(VmcsField64::HostCr3), 0x120_3000);
    assert_eq!(v.peek64(VmcsField64::HostCr4), 0x4_2020);
    assert_eq!(v.peek16(VmcsField16::HostEsSelector), 0);
    assert_eq!(v.peek16(VmcsField16::HostCsSelector), 0x8);
    assert_eq!(v.peek16(VmcsField16::HostSsSelector), 0);
    assert_eq!(v.peek16(VmcsField16::HostDsSelector), 0);
    assert_eq!(v.peek16(VmcsField16::HostFsSelector), 0);
    assert_eq!(v.peek16(VmcsField16::HostGsSelector), 0);
    assert_eq!(v.peek16(VmcsField16::HostTrSelector), 0x10);
    assert_eq!(v.peek64(VmcsField64::HostFsBase), 0);
    assert_eq!(v.peek64(VmcsField64::HostGsBase), cpu.gs_base);
    assert_eq!(v.peek64(VmcsField64::HostTrBase), 0);
    assert_eq!(v.peek64(VmcsField64::HostGdtrBase), 0xFFFF_FF00_0000_1000);
    assert_eq!(v.peek64(VmcsField64::HostIdtrBase), 0xFFFF_FF00_0000_2000);
    assert_eq!(v.peek64(VmcsField64::HostIa32SysenterEsp), 0);
    assert_eq!(v.peek64(VmcsField64::HostIa32SysenterEip), 0);
    assert_eq!(v.peek32(VmcsField32::HostIa32SysenterCs), 0);
    assert_eq!(v.peek64(VmcsField64::HostRsp), 0xFFFF_FF00_0007_0080);
    assert_eq!(v.peek64(VmcsField64::HostRip), 0xFFFF_FF00_0010_0400);
}

#[test]
fn created_guest_state() {
    let (vcpu, _) = created();
    let linux = linux_context();
    let v = vcpu.vmcs();
    assert_eq!(v.peek64(VmcsField64::GuestIa32Pat), linux.pat);
    assert_eq!(v.peek64(VmcsField64::GuestIa32Efer), linux.efer);
    assert_eq!(v.peek64(VmcsField64::GuestCr0), 0x8005_0033);
    assert_eq!(v.peek64(VmcsField64::Cr0ReadShadow), 0x8005_0033);
    assert_eq!(v.peek64(VmcsField64::Cr0GuestHostMask), 0xFFFF_FFFF_6000_0020);
    assert_eq!(v.peek64(VmcsField64::GuestCr4), 0x34_26E0);
    assert_eq!(v.peek64(VmcsField64::Cr4ReadShadow), 0x34_26E0);
    assert_eq!(v.peek64(VmcsField64::GuestCr3), 0x1_4567_8000);
    assert_eq!(v.peek16(VmcsField16::GuestEsSelector), 0);
    assert_eq!(v.peek16(VmcsField16::GuestCsSelector), 0x10);
    assert_eq!(v.peek16(VmcsField16::GuestSsSelector), 0x18);
    assert_eq!(v.peek16(VmcsField16::GuestTrSelector), 0x40);
    assert_eq!(v.peek64(VmcsField64::GuestFsBase), 0x7F00_0000_1000);
    assert_eq!(v.peek64(VmcsField64::GuestGsBase), 0xFFFF_8800_7FC0_0000);
    assert_eq!(v.peek64(VmcsField64::GuestTrBase), 0xFFFF_8800_7FC0_4000);
    assert_eq!(v.peek32(VmcsField32::GuestCsLimit), 0xFFFF_FFFF);
    assert_eq!(v.peek32(VmcsField32::GuestTrLimit), 0x2087);
    assert_eq!(v.peek32(VmcsField32::GuestCsArBytes), 0xA09B);
    assert_eq!(v.peek32(VmcsField32::GuestSsArBytes), 0xC093);
    assert_eq!(v.peek32(VmcsField32::GuestTrArBytes), 0x8B);
    assert_eq!(v.peek64(VmcsField64::GuestGdtrBase), 0xFFFF_8800_7FC0_9000);
    assert_eq!(v.peek32(VmcsField32::GuestGdtrLimit), 0x7F);
    assert_eq!(v.peek64(VmcsField64::GuestIdtrBase), 0xFFFF_FFFF_FF57_8000);
    assert_eq!(v.peek32(VmcsField32::GuestIdtrLimit), 0xFFF);
    assert_eq!(v.peek64(VmcsField64::GuestRsp), linux.rsp);
    assert_eq!(v.peek64(VmcsField64::GuestRip), linux.rip);
    assert_eq!(v.peek64(VmcsField64::GuestRflags), 0x2);
    assert_eq!(v.peek32(VmcsField32::GuestSysenterCs), 0x10);
    assert_eq!(v.peek64(VmcsField64::GuestSysenterEsp), 0xFFFF_8800_0000_3000);
    assert_eq!(v.peek64(VmcsField64::GuestSysenterEip), 0xFFFF_FFFF_8160_0000);
    assert_eq!(v.peek64(VmcsField64::GuestDr7), 0x400);
    assert_eq!(v.peek64(VmcsField64::GuestIa32Debugctl), 0);
    assert_eq!(v.peek32(VmcsField32::GuestActivityState), 0);
    assert_eq!(v.peek32(VmcsField32::GuestInterruptibilityInfo), 0);
    assert_eq!(v.peek64(VmcsField64::GuestPendingDbgExceptions), 0);
    assert_eq!(v.peek64(VmcsField64::VmcsLinkPointer), u64::MAX);
    assert_eq!(v.peek32(VmcsField32::VmxPreemptionTimerValue), 0);
}

#[test]
fn created_local_descriptor_table_is_unusable() {
    let (vcpu, _) = created();
    let v = vcpu.vmcs();
    assert_eq!(Segment::invalid(), segment(0, 0, 0, 0x1_0000));
    assert_eq!(SEGMENT_UNUSABLE, 0x1_0000);
    assert_eq!(v.peek16(VmcsField16::GuestLdtrSelector), 0);
    assert_eq!(v.peek64(VmcsField64::GuestLdtrBase), 0);
    assert_eq!(v.peek32(VmcsField32::GuestLdtrLimit), 0);
    assert_eq!(v.peek32(VmcsField32::GuestLdtrArBytes), 0x1_0000);
}

#[test]
fn created_controls() {
    let (vcpu, _) = created();
    let v = vcpu.vmcs();
    assert_eq!(v.peek32(VmcsField32::PinBasedVmExecControl), 0x1E);
    assert_eq!(v.peek32(VmcsField32::ProcBasedVmExecControl), 0x9400_E172);
    assert_eq!(v.peek32(VmcsField32::SecondaryVmExecControl), 0x10_108A);
    assert_eq!(v.peek32(VmcsField32::VmExitControls), 0x3F_6FFF);
    assert_eq!(v.peek32(VmcsField32::VmEntryControls), 0xD3FF);
    assert_eq!(v.peek32(VmcsField32::VmExitMsrStoreCount), 0);
    assert_eq!(v.peek32(VmcsField32::VmExitMsrLoadCount), 0);
    assert_eq!(v.peek32(VmcsField32::VmEntryMsrLoadCount), 0);
    assert_eq!(v.peek64(VmcsField64::Cr4GuestHostMask), 0);
    assert_eq!(v.peek32(VmcsField32::Cr3TargetCount), 0);
    assert_eq!(v.peek64(VmcsField64::EptPointer), 0x20_005E);
    assert_eq!(v.peek64(VmcsField64::MsrBitmap), 0x10_2000);
    assert_eq!(v.peek32(VmcsField32::ExceptionBitmap), 0);
}

#[test]
fn created_controls_leave_interrupts_and_ports_to_the_guest() {
    let (vcpu, _) = created();
    let v = vcpu.vmcs();
    // external-interrupt exiting
    assert_eq!(v.peek32(VmcsField32::PinBasedVmExecControl) & 0x1, 0);
    // unconditional I/O exiting
    assert_eq!(v.peek32(VmcsField32::ProcBasedVmExecControl) & 0x100_0000, 0);
    // a load of CR3 traps, a store does not
    assert_eq!(v.peek32(VmcsField32::ProcBasedVmExecControl) & 0x8000, 0x8000);
    assert_eq!(v.peek32(VmcsField32::ProcBasedVmExecControl) & 0x1_0000, 0);
}

#[test]
fn secondary_controls_follow_the_features() {
    let mut cpu = host_cpu();
    cpu.features.rdtscp = false;
    cpu.features.invpcid = false;
    cpu.features.xsaves_xrstors = false;
    let vcpu = Vcpu::new(&linux_context(), &cell(), &mut cpu, &frames()).unwrap();
    assert_eq!(vcpu.vmcs().peek32(VmcsField32::SecondaryVmExecControl), 0x82);
}

#[test]
fn fields_that_setup_does_not_name_stay_zero() {
    let (vcpu, _) = created();
    let v = vcpu.vmcs();
    assert_eq!(v.peek32(VmcsField32::VmEntryIntrInfo), 0);
    assert_eq!(v.peek32(VmcsField32::VmExitReason), 0);
    assert_eq!(v.peek64(VmcsField64::ExitQualification), 0);
}

#[test]
fn enter_copies_callee_saved_registers() {
    let (mut vcpu, _) = created();
    let linux = linux_context();
    vcpu.regs_mut().rax = 77;
    vcpu.regs_mut().rcx = 99;
    let vmcs_before = vcpu.vmcs().clone();
    vcpu.enter(&linux);
    let expected = GeneralRegisters {
        rax: 0,
        rcx: 99,
        rbx: 0xB,
        rbp: 0xFFFF_8800_0010_0040,
        r12: 12,
        r13: 13,
        r14: 14,
        r15: 15,
        ..GeneralRegisters::zeroed()
    };
    assert_eq!(*vcpu.regs(), expected);
    assert_eq!(*vcpu.vmcs(), vmcs_before);
}

#[test]
fn exit_gives_the_context_back() {
    let (mut vcpu, mut cpu) = created();
    {
        let v = vcpu.vmcs_mut();
        v.poke64(VmcsField64::GuestRip, 0xFFFF_FFFF_8100_1234);
        v.poke64(VmcsField64::GuestRsp, 0xFFFF_8800_0010_0F00);
        v.poke64(VmcsField64::GuestCr0, u64::MAX);
        v.poke64(VmcsField64::GuestCr3, 0x2_0000_0000);
        v.poke64(VmcsField64::GuestCr4, u64::MAX);
        v.poke16(VmcsField16::GuestEsSelector, 0x2B);
        v.poke16(VmcsField16::GuestCsSelector, 0x33);
        v.poke16(VmcsField16::GuestSsSelector, 0x2B);
        v.poke16(VmcsField16::GuestDsSelector, 0x2B);
        v.poke16(VmcsField16::GuestFsSelector, 0x63);
        v.poke16(VmcsField16::GuestGsSelector, 0x6B);
        v.poke16(VmcsField16::GuestTrSelector, 0x48);
        v.poke64(VmcsField64::GuestFsBase, 0x7F11_0000_0000);
        v.poke64(VmcsField64::GuestGsBase, 0x7F22_0000_0000);
        v.poke64(VmcsField64::GuestGdtrBase, 0xFFFF_8800_0000_A000);
        v.poke32(VmcsField32::GuestGdtrLimit, 0x1_007F);
        v.poke64(VmcsField64::GuestIdtrBase, 0xFFFF_8800_0000_B000);
        v.poke32(VmcsField32::GuestIdtrLimit, 0x0FFF);
        v.poke32(VmcsField32::GuestSysenterCs, 0x23);
        v.poke64(VmcsField64::GuestSysenterEsp, 0x1111);
        v.poke64(VmcsField64::GuestSysenterEip, 0x2222);
    }
    let before = linux_context();
    let mut linux = before;
    let cpu_before = cpu;
    assert_eq!(vcpu.exit(&mut linux, &mut cpu), Ok(()));
    let expected = LinuxContext {
        rip: 0xFFFF_FFFF_8100_1234,
        rsp: 0xFFFF_8800_0010_0F00,
        cr0: 0xE005_003F,
        cr3: 0x2_0000_0000,
        cr4: 0x01FF_5FFF,
        es: Segment { selector: 0x2B, ..before.es },
        cs: Segment { selector: 0x33, ..before.cs },
        ss: Segment { selector: 0x2B, ..before.ss },
        ds: Segment { selector: 0x2B, ..before.ds },
        fs: Segment { selector: 0x63, base: 0x7F11_0000_0000, ..before.fs },
        gs: Segment { selector: 0x6B, base: 0x7F22_0000_0000, ..before.gs },
        tss: Segment { selector: 0x48, ..before.tss },
        gdt: DescriptorTablePointer { base: 0xFFFF_8800_0000_A000, limit: 0x7F },
        idt: DescriptorTablePointer { base: 0xFFFF_8800_0000_B000, limit: 0xFFF },
        ..before
    };
    assert_eq!(linux, expected);
    assert_eq!(linux.cr0, Cr0Flags::all().bits());
    assert_eq!(linux.cr0, CR0_DEFINED);
    assert_eq!(linux.cr4, CR4_DEFINED & !0x2000);
    assert_eq!(
        cpu,
        HostCpu {
            sysenter_cs: 0x23,
            sysenter_esp: 0x1111,
            sysenter_eip: 0x2222,
            vmx_operation: false,
            ..cpu_before
        }
    );
    assert!(!vcpu.is_active());
}

#[test]
fn exit_strips_vmxe_from_cr4() {
    let (mut vcpu, mut cpu) = created();
    let mut linux = linux_context();
    assert_eq!(vcpu.vmcs().peek64(VmcsField64::GuestCr4) & 0x2000, 0x2000);
    vcpu.exit(&mut linux, &mut cpu).unwrap();
    assert_eq!(linux.cr4, 0x34_06E0);
    assert_eq!(linux.cr0, 0x8005_0033);
}

#[test]
fn exit_of_an_inactive_vcpu_changes_nothing() {
    let (mut vcpu, mut cpu) = created();
    let mut linux = linux_context();
    vcpu.exit(&mut linux, &mut cpu).unwrap();
    let linux_before = linux;
    let cpu_before = cpu;
    linux.rip = 1;
    assert_eq!(vcpu.exit(&mut linux, &mut cpu), Err(error(HvErrorNum::EIO)));
    assert_eq!(linux, LinuxContext { rip: 1, ..linux_before });
    assert_eq!(cpu, cpu_before);
}

#[test]
fn exit_outside_vmx_operation_stops_before_clearing() {
    let (mut vcpu, mut cpu) = created();
    cpu.vmx_operation = false;
    let mut linux = linux_context();
    linux.rip = 0;
    assert_eq!(vcpu.exit(&mut linux, &mut cpu), Err(error(HvErrorNum::EIO)));
    assert_eq!(linux.rip, linux_context().rip);
    assert!(vcpu.is_active());
    assert!(!cpu.vmx_operation);
}

#[test]
fn inject_fault_requests_general_protection() {
    let (mut vcpu, _) = created();
    let before = vcpu.clone();
    assert_eq!(vcpu.inject_fault(), Ok(()));
    assert_eq!(vcpu.vmcs().peek32(VmcsField32::VmEntryIntrInfo), 0x8000_0B0D);
    assert_eq!(vcpu.vmcs().peek32(VmcsField32::VmEntryExceptionErrorCode), 0);
    // vector 13, hardware exception, error code delivered, valid
    let info = vcpu.vmcs().peek32(VmcsField32::VmEntryIntrInfo);
    assert_eq!(info & 0xFF, 13);
    assert_eq!((info >> 8) & 7, 3);
    assert_eq!((info >> 11) & 1, 1);
    assert_eq!(info >> 31, 1);
    let mut expected = before;
    expected.vmcs_mut().poke32(VmcsField32::VmEntryIntrInfo, 0x8000_0B0D);
    assert_eq!(vcpu, expected);
}

#[test]
fn inject_fault_into_inactive_structure_fails() {
    let (mut vcpu, mut cpu) = created();
    vcpu.exit(&mut linux_context(), &mut cpu).unwrap();
    let before = vcpu.clone();
    assert_eq!(vcpu.inject_fault(), Err(error(HvErrorNum::EIO)));
    assert_eq!(vcpu, before);
}

#[test]
fn advance_rip_adds_the_length() {
    let (mut vcpu, _) = created();
    assert_eq!(vcpu.advance_rip(3), Ok(()));
    assert_eq!(vcpu.instr_pointer(), 0xFFFF_FFFF_8100_0003);
    assert_eq!(vcpu.advance_rip(0), Ok(()));
    assert_eq!(vcpu.instr_pointer(), 0xFFFF_FFFF_8100_0003);
    assert_eq!(vcpu.advance_rip(255), Ok(()));
    assert_eq!(vcpu.instr_pointer(), 0xFFFF_FFFF_8100_0102);
}

#[test]
fn advance_rip_wraps_at_the_end_of_the_address_space() {
    let (mut vcpu, _) = created();
    vcpu.vmcs_mut().poke64(VmcsField64::GuestRip, u64::MAX - 1);
    assert_eq!(vcpu.advance_rip(3), Ok(()));
    assert_eq!(vcpu.instr_pointer(), 1);
}

#[test]
fn guest_privilege_is_the_dpl_of_its_code_segment() {
    let (mut vcpu, _) = created();
    assert!(vcpu.guest_is_privileged());
    vcpu.vmcs_mut().poke32(VmcsField32::GuestCsArBytes, 0xA0FB);
    assert!(!vcpu.guest_is_privileged());
    vcpu.vmcs_mut().poke32(VmcsField32::GuestCsArBytes, 0xA0BB);
    assert!(!vcpu.guest_is_privileged());
    vcpu.vmcs_mut().poke32(VmcsField32::GuestCsArBytes, 0xFFFF_FF9F);
    assert!(vcpu.guest_is_privileged());
}

#[test]
fn dpl_is_bits_5_and_6() {
    assert_eq!(dpl(0), 0);
    assert_eq!(dpl(0x20), 1);
    assert_eq!(dpl(0x40), 2);
    assert_eq!(dpl(0x60), 3);
    assert_eq!(dpl(0xA0FB), 3);
    assert_eq!(dpl(0xFFFF_FF9F), 0);
    assert_eq!(dpl(u32::MAX), 3);
}

#[test]
fn in_hypercall_looks_at_the_basic_exit_reason() {
    let (mut vcpu, mut cpu) = created();
    assert!(!vcpu.in_hypercall());
    vcpu.vmcs_mut().poke32(VmcsField32::VmExitReason, 18);
    assert!(vcpu.in_hypercall());
    vcpu.vmcs_mut().poke32(VmcsField32::VmExitReason, 0x8000_0012);
    assert!(vcpu.in_hypercall());
    vcpu.vmcs_mut().poke32(VmcsField32::VmExitReason, 10);
    assert!(!vcpu.in_hypercall());
    vcpu.vmcs_mut().poke32(VmcsField32::VmExitReason, 18);
    vcpu.exit(&mut linux_context(), &mut cpu).unwrap();
    assert!(!vcpu.in_hypercall());
}

#[test]
fn guest_page_table_is_the_page_of_cr3() {
    let (mut vcpu, _) = created();
    assert_eq!(vcpu.guest_page_table(), GuestPageTableImmut { root: 0x1_4567_8000 });
    vcpu.set_cr(3, 0x1_4567_8FFF);
    assert_eq!(vcpu.guest_page_table().root, 0x1_4567_8000);
    assert_eq!(align_down(0xFFF), 0);
    assert_eq!(align_down(0x1000), 0x1000);
    assert_eq!(align_down(u64::MAX), 0xFFFF_FFFF_FFFF_F000);
}

#[test]
fn timer_control_touches_only_the_timer_bit() {
    let (mut vcpu, _) = created();
    let before = vcpu.clone();
    assert_eq!(vcpu.setup_vmcs_control_timer(true), Ok(()));
    assert_eq!(vcpu.vmcs().peek32(VmcsField32::PinBasedVmExecControl), 0x5E);
    let mut expected = before.clone();
    expected.vmcs_mut().poke32(VmcsField32::PinBasedVmExecControl, 0x5E);
    assert_eq!(vcpu, expected);
    assert_eq!(vcpu.setup_vmcs_control_timer(true), Ok(()));
    assert_eq!(vcpu.vmcs().peek32(VmcsField32::PinBasedVmExecControl), 0x5E);
    assert_eq!(vcpu.setup_vmcs_control_timer(false), Ok(()));
    assert_eq!(vcpu, before);
}

#[test]
fn timer_control_needs_the_capability() {
    let mut cpu = host_cpu();
    cpu.caps.pinbased_ctls = 0x0000_003F_0000_0016;
    let mut vcpu = Vcpu::new(&linux_context(), &cell(), &mut cpu, &frames()).unwrap();
    let before = vcpu.clone();
    assert_eq!(vcpu.setup_vmcs_control_timer(true), Err(error(HvErrorNum::EINVAL)));
    assert_eq!(vcpu, before);
    // Switching off what cannot be on is fine.
    assert_eq!(vcpu.setup_vmcs_control_timer(false), Ok(()));
    // A timer that must run cannot be switched off.
    let mut cpu = host_cpu();
    cpu.caps.pinbased_ctls = 0x0000_007F_0000_0056;
    let mut vcpu = Vcpu::new(&linux_context(), &cell(), &mut cpu, &frames()).unwrap();
    assert_eq!(vcpu.setup_vmcs_control_timer(false), Err(error(HvErrorNum::EINVAL)));
}

#[test]
fn set_cr0_stores_masked_value_with_shadow_and_mask() {
    let (mut vcpu, _) = created();
    vcpu.set_cr(0, 0x6000_0010);
    let v = vcpu.vmcs();
    assert_eq!(v.peek64(VmcsField64::GuestCr0), 0x30);
    assert_eq!(v.peek64(VmcsField64::Cr0ReadShadow), 0x6000_0010);
    assert_eq!(v.peek64(VmcsField64::Cr0GuestHostMask), 0xFFFF_FFFF_6000_0020);
    // cache-disable and not-write-through never reach the stored value
    vcpu.set_cr(0, u64::MAX);
    assert_eq!(vcpu.vmcs().peek64(VmcsField64::GuestCr0), 0x9FFF_FFFF);
    // paging and protected mode are the guest's to clear
    vcpu.set_cr(0, 0);
    assert_eq!(vcpu.vmcs().peek64(VmcsField64::GuestCr0), 0x20);
}

#[test]
fn set_cr4_forces_vmxe() {
    let (mut vcpu, _) = created();
    vcpu.set_cr(4, 0);
    let v = vcpu.vmcs();
    assert_eq!(v.peek64(VmcsField64::GuestCr4), 0x2000);
    assert_eq!(v.peek64(VmcsField64::Cr4ReadShadow), 0x2000);
    assert_eq!(v.peek64(VmcsField64::Cr4GuestHostMask), 0xFFFF_FFFF_FFC8_F800);
    vcpu.set_cr(4, u64::MAX);
    assert_eq!(vcpu.vmcs().peek64(VmcsField64::GuestCr4), 0x37_27FF);
    assert_eq!(vcpu.vmcs().peek64(VmcsField64::Cr4ReadShadow), u64::MAX);
}

#[test]
fn set_cr3_passes_through() {
    let (mut vcpu, _) = created();
    let before = vcpu.clone();
    vcpu.set_cr(3, 0xDEAD_BEEF_F00D_1234);
    assert_eq!(vcpu.cr(3), 0xDEAD_BEEF_F00D_1234);
    let mut expected = before;
    expected.vmcs_mut().poke64(VmcsField64::GuestCr3, 0xDEAD_BEEF_F00D_1234);
    assert_eq!(vcpu, expected);
}

#[test]
fn cr_read_after_set_cr_is_stable() {
    let (mut vcpu, _) = created();
    for value in [0u64, 0x6000_0010, 0x8005_0033, u64::MAX] {
        vcpu.set_cr(0, value);
        assert_eq!(vcpu.cr(0), value);
        assert_eq!(vcpu.cr(0), value);
    }
    for value in [0u64, 0x34_06E0, u64::MAX] {
        vcpu.set_cr(4, value);
        assert_eq!(vcpu.cr(4), value | 0x2000);
        assert_eq!(vcpu.cr(4), value | 0x2000);
        vcpu.set_cr(3, value);
        assert_eq!(vcpu.cr(3), value);
        assert_eq!(vcpu.cr(3), value);
        assert_eq!(vcpu.cr(4), value | 0x2000);
    }
}

#[test]
fn cr4_read_recombines_shadow_and_field_by_the_mask() {
    let (mut vcpu, _) = created();
    // After creation the guest owns all of CR4.
    assert_eq!(vcpu.vmcs().peek64(VmcsField64::Cr4GuestHostMask), 0);
    assert_eq!(vcpu.cr(4), 0x34_26E0);
    let v = vcpu.vmcs_mut();
    v.poke64(VmcsField64::Cr4ReadShadow, 0xFF00);
    v.poke64(VmcsField64::Cr4GuestHostMask, 0xF0F0);
    v.poke64(VmcsField64::GuestCr4, 0x00FF);
    assert_eq!(vcpu.cr(4), 0xF00F);
}

#[test]
fn accessors_read_guest_fields() {
    let (mut vcpu, _) = created();
    let linux = linux_context();
    assert_eq!(vcpu.instr_pointer(), linux.rip);
    assert_eq!(vcpu.stack_pointer(), linux.rsp);
    assert_eq!(vcpu.rflags(), 2);
    assert_eq!(vcpu.fs_base(), linux.fs.base);
    assert_eq!(vcpu.gs_base(), linux.gs.base);
    vcpu.set_stack_pointer(0x1234_5678);
    assert_eq!(vcpu.stack_pointer(), 0x1234_5678);
    assert_eq!(vcpu.vmcs().peek64(VmcsField64::GuestRsp), 0x1234_5678);
    vcpu.set_return_val(0xABCD);
    assert_eq!(vcpu.regs().rax, 0xABCD);
}

#[test]
fn dump_shows_the_observable_state() {
    let (mut vcpu, _) = created();
    vcpu.set_return_val(5);
    let d = vcpu.dump();
    assert_eq!(d.guest_regs, GeneralRegisters { rax: 5, ..GeneralRegisters::zeroed() });
    assert_eq!(d.rip, 0xFFFF_FFFF_8100_0000);
    assert_eq!(d.rsp, 0xFFFF_8800_0010_0000);
    assert_eq!(d.rflags, 2);
    assert_eq!(d.cr0, 0x8005_0033);
    assert_eq!(d.cr3, 0x1_4567_8000);
    assert_eq!(d.cr4, 0x34_26E0);
    assert_eq!(d.cs, 0x10);
    assert_eq!(d.fs_base, 0x7F00_0000_1000);
    assert_eq!(d.gs_base, 0xFFFF_8800_7FC0_0000);
    assert_eq!(d.tss, 0x40);
}

#[test]
fn instruction_error_reads_the_report() {
    let (mut vcpu, mut cpu) = created();
    assert_eq!(vcpu.instruction_error(), Ok(0));
    vcpu.vmcs_mut().poke32(VmcsField32::VmInstructionError, 7);
    assert_eq!(vcpu.instruction_error(), Ok(7));
    vcpu.exit(&mut linux_context(), &mut cpu).unwrap();
    assert_eq!(vcpu.instruction_error(), Err(error(HvErrorNum::EIO)));
}
