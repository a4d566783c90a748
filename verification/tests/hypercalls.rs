use hvcore::cell::Cell;
use hvcore::context::{DescriptorTablePointer, GeneralRegisters, LinuxContext, Segment};
use hvcore::error::{HvError, HvErrorNum};
use hvcore::fields::{VmcsField32, VmcsField64};
use hvcore::host::{CpuFeatures, HostCpu, HostLayout, VmxCapabilities, VmxFrames};
use hvcore::hypercall::{
    HyperCall, HyperCallCode, HyperCallOutcome, HyperCallRequest, CELL_CREATE_RESULT,
    CELL_CREATE_TARGET, DISABLE_RESULT,
};
use hvcore::percpu::{DisableBarrier, PerCpu, System};
use hvcore::vcpu::Vcpu;

fn segment(selector: u16, base: u64, limit: u32, access_rights: u32) -> Segment {
    Segment { selector, base, limit, access_rights }
}

fn linux_context() -> LinuxContext {
    LinuxContext {
        rsp: 0xFFFF_8800_0010_0000,
        rip: 0xFFFF_FFFF_8100_0000,
        r15: 15,
        r14: 14,
        r13: 13,
        r12: 12,
        rbx: 0xB,
        rbp: 0xFFFF_8800_0010_0040,
        es: segment(0, 0, 0xFFFF_FFFF, 0xC093),
        cs: segment(0x10, 0, 0xFFFF_FFFF, 0xA09B),
        ss: segment(0x18, 0, 0xFFFF_FFFF, 0xC093),
        ds: segment(0, 0, 0xFFFF_FFFF, 0xC093),
        fs: segment(0, 0x7F00_0000_1000, 0xFFFF_FFFF, 0xC093),
        gs: segment(0, 0xFFFF_8800_7FC0_0000, 0xFFFF_FFFF, 0xC093),
        tss: segment(0x40, 0xFFFF_8800_7FC0_4000, 0x2087, 0x8B),
        gdt: DescriptorTablePointer { limit: 0x7F, base: 0xFFFF_8800_7FC0_9000 },
        idt: DescriptorTablePointer { limit: 0xFFF, base: 0xFFFF_FFFF_FF57_8000 },
        cr0: 0x8005_0033,
        cr3: 0x1_4567_8000,
        cr4: 0x34_06E0,
        efer: 0xD01,
        pat: 0x0007_0406_0007_0406,
    }
}

fn capabilities() -> VmxCapabilities {
    VmxCapabilities {
        basic: 0x00DA_0400_0000_0012,
        pinbased_ctls: 0x0000_007F_0000_0016,
        procbased_ctls: 0xFFF9_FFFE_0400_6172,
        procbased_ctls2: 0x057C_FFFF_0000_0000,
        exit_ctls: 0x00FF_FFFF_0003_6DFF,
        entry_ctls: 0x0000_FFFF_0000_11FF,
        cr0_fixed0: 0x8000_0021,
        cr0_fixed1: 0xFFFF_FFFF,
        cr4_fixed0: 0x2000,
        cr4_fixed1: 0x37_27FF,
    }
}

fn host_cpu() -> HostCpu {
    HostCpu {
        caps: capabilities(),
        features: CpuFeatures {
            perf_monitor_version_id: 4,
            xsave: true,
            rdtscp: true,
            invpcid: true,
            xsaves_xrstors: true,
        },
        layout: HostLayout {
            kcode_selector: 0x8,
            tss_selector: 0x10,
            gdt_base: 0xFFFF_FF00_0000_1000,
            idt_base: 0xFFFF_FF00_0000_2000,
            stack_top: 0xFFFF_FF00_0008_0000,
            stack_top_slot: 0xFFFF_FF00_0007_0080,
            exit_entry: 0xFFFF_FF00_0010_0400,
        },
        feature_control: 0x5,
        perf_global_ctrl: 0x7_0000_000F,
        pat: 0x07_0106,
        efer: 0xD01,
        gs_base: 0xFFFF_FF00_0007_0000,
        sysenter_cs: 0x10,
        sysenter_esp: 0xFFFF_8800_0000_3000,
        sysenter_eip: 0xFFFF_FFFF_8160_0000,
        cr0: 0x8005_003B,
        cr3: 0x0000_0000_0120_3018,
        cr4: 0x34_06E0,
        vmx_operation: false,
    }
}

fn frames() -> VmxFrames {
    VmxFrames { vmxon: 0x10_0000, vmcs: 0x10_1000, msr_bitmap: 0x10_2000 }
}

fn cell() -> Cell {
    Cell::new(0x20_005E)
}

fn per_cpu(id: usize) -> PerCpu {
    let mut hw = host_cpu();
    let linux = linux_context();
    let f = VmxFrames {
        vmxon: 0x10_0000 + 0x1_0000 * id as u64,
        vmcs: 0x10_1000 + 0x1_0000 * id as u64,
        msr_bitmap: 0x10_2000,
    };
    let vcpu = Vcpu::new(&linux, &cell(), &mut hw, &f).unwrap();
    PerCpu::new(id, vcpu, linux, hw)
}

fn system(cores: usize) -> System {
    let mut cpus = Vec::new();
    for id in 0..cores {
        cpus.push(per_cpu(id));
    }
    System { cpus, activated_cpus: cores as u32, barrier: DisableBarrier::new() }
}

fn make_unprivileged(system: &mut System, id: usize) {
    system.cpus[id].vcpu.vmcs_mut().poke32(VmcsField32::GuestCsArBytes, 0xA0FB);
}

fn with_fault(before: &PerCpu) -> PerCpu {
    let mut expected = before.clone();
    let v = expected.vcpu.vmcs_mut();
    v.poke32(VmcsField32::VmEntryIntrInfo, 0x8000_0B0D);
    v.poke32(VmcsField32::VmEntryExceptionErrorCode, 0);
    expected
}

#[test]
fn codes_decode_to_operations() {
    assert_eq!(HyperCallCode::try_from(0u32), Ok(HyperCallCode::HypervisorDisable));
    assert_eq!(HyperCallCode::try_from(1u32), Ok(HyperCallCode::HypervisorCellCreate));
    assert_eq!(HyperCallCode::try_from(2u32), Err(2));
    assert_eq!(HyperCallCode::try_from(0x4000_0000u32), Err(0x4000_0000));
    assert_eq!(HyperCallCode::try_from(u32::MAX), Err(u32::MAX));
    assert_eq!(HyperCallCode::HypervisorDisable.code(), 0);
    assert_eq!(HyperCallCode::HypervisorCellCreate.code(), 1);
}

#[test]
fn every_operation_is_privileged() {
    assert!(HyperCallCode::HypervisorDisable.is_privileged());
    assert!(HyperCallCode::HypervisorCellCreate.is_privileged());
}

#[test]
fn request_comes_from_rax_rdi_rsi() {
    let regs = GeneralRegisters {
        rax: 0xFFFF_FFFF_0000_0001,
        rdi: 0x1111,
        rsi: 0x2222,
        rdx: 0x3333,
        ..GeneralRegisters::zeroed()
    };
    assert_eq!(
        HyperCallRequest::from_regs(&regs),
        HyperCallRequest { code: 1, arg0: 0x1111, arg1: 0x2222 }
    );
}

#[test]
fn new_takes_the_guest_page_table() {
    let mut sys = system(2);
    sys.cpus[1].vcpu.set_cr(3, 0x7654_3ABC);
    let call = HyperCall::new(&mut sys, 1);
    assert_eq!(call.cpu_id, 1);
    assert_eq!(call.gpt.root, 0x7654_3000);
}

#[test]
fn unknown_code_succeeds_without_effect() {
    for code in [2u32, 3, 0xFF, 0x3FFF_FFFF, 0x4000_0000, 0x4000_0001, 0x8000_0000, u32::MAX] {
        for privileged in [true, false] {
            let mut sys = system(2);
            if !privileged {
                make_unprivileged(&mut sys, 1);
            }
            let before = sys.clone();
            let r = HyperCall::new(&mut sys, 1).hypercall(code, 7, 8);
            assert_eq!(r, Ok(HyperCallOutcome::Completed));
            assert_eq!(sys, before);
        }
    }
}

#[test]
fn unprivileged_guest_calling_privileged_code_gets_a_fault() {
    for code in [0u32, 1] {
        let mut sys = system(3);
        make_unprivileged(&mut sys, 2);
        let before = sys.clone();
        let r = HyperCall::new(&mut sys, 2).hypercall(code, 0, 0);
        assert_eq!(r, Ok(HyperCallOutcome::Completed));
        // The operation did not run: no arrival, no timer, no return value.
        assert_eq!(sys.barrier, before.barrier);
        assert_eq!(sys.cpus[0], before.cpus[0]);
        assert_eq!(sys.cpus[1], before.cpus[1]);
        assert_eq!(sys.cpus[2].vcpu.regs(), before.cpus[2].vcpu.regs());
        assert_eq!(sys.cpus[2], with_fault(&before.cpus[2]));
        assert_eq!(
            sys.cpus[2].vcpu.vmcs().peek32(VmcsField32::VmEntryIntrInfo),
            0x8000_0B0D
        );
    }
}

#[test]
fn cell_create_arms_the_timer_of_core_zero() {
    let mut sys = system(3);
    let before = sys.clone();
    let r = HyperCall::new(&mut sys, 2).hypercall(1, 0x55, 0x66);
    assert_eq!(r, Ok(HyperCallOutcome::Completed));
    assert_eq!(CELL_CREATE_TARGET, 0);
    let mut target = before.cpus[0].clone();
    target.vcpu.vmcs_mut().poke32(VmcsField32::PinBasedVmExecControl, 0x5E);
    assert_eq!(sys.cpus[0], target);
    assert_eq!(sys.cpus[1], before.cpus[1]);
    let mut caller = before.cpus[2].clone();
    caller.vcpu.set_return_val(CELL_CREATE_RESULT);
    assert_eq!(sys.cpus[2], caller);
    assert_eq!(sys.cpus[2].vcpu.regs().rax, 1);
    assert_eq!(sys.barrier, before.barrier);
    assert_eq!(sys.activated_cpus, 3);
}

#[test]
fn cell_create_on_core_zero_arms_its_own_timer() {
    let mut sys = system(2);
    let before = sys.clone();
    let r = HyperCall::new(&mut sys, 0).hypercall(1, 0, 0);
    assert_eq!(r, Ok(HyperCallOutcome::Completed));
    let mut expected = before.cpus[0].clone();
    expected.vcpu.vmcs_mut().poke32(VmcsField32::PinBasedVmExecControl, 0x5E);
    expected.vcpu.set_return_val(1);
    assert_eq!(sys.cpus[0], expected);
    assert_eq!(sys.cpus[1], before.cpus[1]);
}

#[test]
fn cell_create_returns_its_result_even_if_the_timer_cannot_be_armed() {
    let mut sys = system(2);
    // Core 0 has left the hypervisor: its control structure is not current.
    sys.cpus[0].deactivate_vmm(0).unwrap();
    let before = sys.clone();
    let r = HyperCall::new(&mut sys, 1).hypercall(1, 0, 0);
    assert_eq!(r, Ok(HyperCallOutcome::Completed));
    assert_eq!(sys.cpus[0], before.cpus[0]);
    assert_eq!(sys.cpus[1].vcpu.regs().rax, 1);
}

#[test]
fn disable_barrier_with_three_cores_needs_three_arrivals() {
    let mut sys = system(3);
    assert_eq!(HyperCall::new(&mut sys, 0).hypercall(0, 0, 0), Ok(HyperCallOutcome::AtBarrier));
    assert_eq!(sys.barrier.requests, 1);
    assert!(sys.cpus[0].vcpu.is_active());
    assert_eq!(HyperCall::new(&mut sys, 0).try_barrier(), Ok(HyperCallOutcome::AtBarrier));
    assert_eq!(HyperCall::new(&mut sys, 1).hypercall(0, 0, 0), Ok(HyperCallOutcome::AtBarrier));
    assert_eq!(sys.barrier.requests, 2);
    // Waiting does not count as arriving.
    assert_eq!(HyperCall::new(&mut sys, 0).try_barrier(), Ok(HyperCallOutcome::AtBarrier));
    assert_eq!(HyperCall::new(&mut sys, 1).try_barrier(), Ok(HyperCallOutcome::AtBarrier));
    assert_eq!(sys.barrier.requests, 2);
    assert!(sys.cpus.iter().all(|c| c.vcpu.is_active() && c.hw.vmx_operation));
    // The third arrival opens the barrier, for the core that arrives ...
    assert_eq!(HyperCall::new(&mut sys, 2).hypercall(0, 0, 0), Ok(HyperCallOutcome::Deactivated));
    assert_eq!(sys.barrier.requests, 3);
    assert!(!sys.cpus[2].vcpu.is_active());
    assert!(!sys.cpus[2].hw.vmx_operation);
    // ... and for those that wait.
    assert!(sys.cpus[0].vcpu.is_active());
    assert_eq!(HyperCall::new(&mut sys, 0).try_barrier(), Ok(HyperCallOutcome::Deactivated));
    assert!(!sys.cpus[0].vcpu.is_active());
    assert!(sys.cpus[1].vcpu.is_active());
    assert_eq!(HyperCall::new(&mut sys, 1).try_barrier(), Ok(HyperCallOutcome::Deactivated));
    assert!(sys.cpus.iter().all(|c| !c.vcpu.is_active() && !c.hw.vmx_operation));
}

#[test]
fn barrier_counts_and_opens() {
    let mut barrier = DisableBarrier::new();
    assert!(barrier.is_open(0));
    assert!(!barrier.is_open(3));
    barrier.arrive();
    barrier.arrive();
    assert!(!barrier.is_open(3));
    assert!(barrier.is_open(2));
    barrier.arrive();
    assert_eq!(barrier, DisableBarrier { requests: 3 });
    assert!(barrier.is_open(3));
    assert!(!barrier.is_open(4));
}

#[test]
fn barrier_counter_wraps() {
    let mut barrier = DisableBarrier { requests: u32::MAX };
    barrier.arrive();
    assert_eq!(barrier.requests, 0);
}

#[test]
fn disable_on_a_single_core_deactivates_at_once() {
    let mut sys = system(1);
    sys.cpus[0].vcpu.regs_mut().rax = 0x1234;
    sys.cpus[0].vcpu.regs_mut().rdx = 0x5678;
    sys.cpus[0].vcpu.vmcs_mut().poke64(VmcsField64::GuestRip, 0xFFFF_FFFF_8100_0F03);
    let before = sys.clone();
    let r = HyperCall::new(&mut sys, 0).hypercall(0, 0, 0);
    assert_eq!(r, Ok(HyperCallOutcome::Deactivated));
    let cpu = &sys.cpus[0];
    assert_eq!(DISABLE_RESULT, 0);
    assert_eq!(
        *cpu.vcpu.regs(),
        GeneralRegisters { rax: 0, rdx: 0x5678, ..GeneralRegisters::zeroed() }
    );
    assert_eq!(cpu.linux.rip, 0xFFFF_FFFF_8100_0F03);
    assert_eq!(cpu.linux.cr4, 0x34_06E0);
    assert_eq!(cpu.hw.sysenter_cs, 0x10);
    assert!(!cpu.hw.vmx_operation);
    assert!(!cpu.vcpu.is_active());
    assert_eq!(cpu.id, before.cpus[0].id);
    assert_eq!(sys.barrier.requests, 1);
}

#[test]
fn failed_deactivation_returns_the_error_code_to_the_guest() {
    let mut sys = system(1);
    // The core is not in VMX operation: the processor refuses to clear.
    sys.cpus[0].hw.vmx_operation = false;
    let r = HyperCall::new(&mut sys, 0).hypercall(0, 0, 0);
    assert_eq!(r, Ok(HyperCallOutcome::Completed));
    assert_eq!(sys.cpus[0].vcpu.regs().rax, 0xFFFF_FFFF_FFFF_FFFB);
    assert_eq!(sys.cpus[0].vcpu.regs().rax, HvError::new(HvErrorNum::EIO).register_image());
    assert!(sys.cpus[0].vcpu.is_active());
    assert_eq!(sys.cpus[0].vcpu.vmcs().peek32(VmcsField32::VmEntryIntrInfo), 0);
}

#[test]
fn deliver_privileged_result_goes_to_the_return_register() {
    let mut sys = system(2);
    let before = sys.clone();
    let mut call = HyperCall::new(&mut sys, 1);
    assert_eq!(call.deliver(HyperCallCode::HypervisorCellCreate, Ok(0xCAFE)), Ok(()));
    assert_eq!(sys.cpus[1].vcpu.regs().rax, 0xCAFE);
    let mut call = HyperCall::new(&mut sys, 1);
    let failure = Err(HvError::new(HvErrorNum::ENOSYS));
    assert_eq!(call.deliver(HyperCallCode::HypervisorCellCreate, failure), Ok(()));
    assert_eq!(sys.cpus[1].vcpu.regs().rax, 0xFFFF_FFFF_FFFF_FFDA);
    // A failure of a privileged call is data, not a fault.
    assert_eq!(sys.cpus[1].vcpu.vmcs(), before.cpus[1].vcpu.vmcs());
    assert_eq!(sys.cpus[0], before.cpus[0]);
}

#[test]
fn per_cpu_fault_and_deactivate() {
    let mut cpu = per_cpu(0);
    let before = cpu.clone();
    assert_eq!(cpu.fault(), Ok(()));
    assert_eq!(cpu, with_fault(&before));
    assert_eq!(cpu.deactivate_vmm(7), Ok(()));
    assert_eq!(cpu.vcpu.regs().rax, 7);
    assert!(!cpu.hw.vmx_operation);
    assert_eq!(cpu.fault(), Err(HvError::new(HvErrorNum::EIO)));
}

#[test]
fn system_knows_its_running_cores() {
    let mut sys = system(2);
    assert!(sys.is_running(0));
    assert!(sys.is_running(1));
    assert!(!sys.is_running(2));
    sys.cpus[1].deactivate_vmm(0).unwrap();
    assert!(!sys.is_running(1));
}
