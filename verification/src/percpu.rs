//! The state that belongs to one core, and the registry of all cores.

use crate::context::GeneralRegisters;
use crate::context::LinuxContext;
use crate::error::HvError;
use crate::error::HvResult;
use crate::host::HostCpu;
use crate::vcpu::restored_context;
use crate::vcpu::sysenter_restored;
use crate::vcpu::Vcpu;
use crate::vmcs::vm_fail;
use vstd::prelude::*;

verus! {

/// What one core owns: its virtual CPU, the context that was captured from
/// the host kernel on it, and the core itself.
#[derive(Clone, Debug, PartialEq, Eq)]
pub struct PerCpu {
    pub id: usize,
    pub vcpu: Vcpu,
    pub linux: LinuxContext,
    pub hw: HostCpu,
}

/// The barrier that cores pass on their way out of the hypervisor: a
/// counter of the cores that have asked to leave.
#[derive(Clone, Copy, Debug, PartialEq, Eq, Structural)]
pub struct DisableBarrier {
    pub requests: u32,
}

/// All cores, and what they share. A holder of the registry has it for
/// itself, so every change it makes is atomic for the other cores.
#[derive(Clone, Debug, PartialEq, Eq)]
pub struct System {
    /// The cores. A core is named by its index here.
    pub cpus: Vec<PerCpu>,
    /// How many cores have ever activated the hypervisor.
    pub activated_cpus: u32,
    pub barrier: DisableBarrier,
}

/// The counter after one more core has arrived. It wraps round, as an
/// atomic counter does.
pub open spec fn spec_arrived(requests: u32) -> u32 {
    if requests == u32::MAX {
        0
    } else {
        (requests + 1) as u32
    }
}

impl DisableBarrier {
    /// A barrier at which no core has arrived.
    pub fn new() -> (barrier: DisableBarrier)
        ensures
            barrier.requests == 0,
    {
        DisableBarrier { requests: 0 }
    }

    /// Counts one more core as arrived.
    pub fn arrive(&mut self)
        ensures
            final(self).requests == spec_arrived(old(self).requests),
    {
        self.requests = self.requests.wrapping_add(1);
    }

    /// Whether the cores that wait may go on: as many have arrived as
    /// there are cores in all.
    pub open spec fn spec_is_open(&self, cpus: u32) -> bool {
        self.requests >= cpus
    }

    #[verifier::when_used_as_spec(spec_is_open)]
    pub fn is_open(&self, cpus: u32) -> (open: bool)
        ensures
            open == self.spec_is_open(cpus),
    {
        !(self.requests < cpus)
    }
}

impl PerCpu {
    pub fn new(id: usize, vcpu: Vcpu, linux: LinuxContext, hw: HostCpu) -> (cpu: PerCpu)
        ensures
            cpu.id == id,
            cpu.vcpu == vcpu,
            cpu.linux == linux,
            cpu.hw == hw,
    {
        PerCpu { id, vcpu, linux, hw }
    }

    /// `self` is `before` but for the virtual CPU.
    pub open spec fn same_outside_vcpu(&self, before: &PerCpu) -> bool {
        self.id == before.id && self.linux == before.linux && self.hw == before.hw
    }

    /// `self` is `before` with a general-protection fault waiting for the
    /// guest.
    pub open spec fn is_fault_injected(&self, before: &PerCpu) -> bool {
        &&& self.same_outside_vcpu(before)
        &&& self.vcpu.same_outside_vmcs(&before.vcpu)
        &&& self.vcpu.spec_vmcs().is_fault_injected(&before.vcpu.spec_vmcs())
    }

    /// `self` is `before` with `value` in the guest's return register.
    pub open spec fn is_return_val(&self, before: &PerCpu, value: u64) -> bool {
        &&& self.same_outside_vcpu(before)
        &&& self.vcpu.same_outside_regs(&before.vcpu)
        &&& self.vcpu.spec_regs() == (GeneralRegisters { rax: value, ..before.vcpu.spec_regs() })
    }

    /// `self` is `before` after an attempt to leave the hypervisor with
    /// `ret_code` for the guest. The context of the host kernel has what the
    /// guest left, and the core has the guest's system-call registers. If
    /// the core was in VMX operation it has left it, and the control
    /// structure is not current any more.
    pub open spec fn is_deactivation(&self, before: &PerCpu, ret_code: u64) -> bool {
        &&& self.id == before.id
        &&& self.linux == restored_context(before.linux, &before.vcpu.spec_vmcs())
        &&& self.vcpu.spec_regs() == (GeneralRegisters { rax: ret_code, ..before.vcpu.spec_regs() })
        &&& self.vcpu.spec_host_stack_top() == before.vcpu.spec_host_stack_top()
        &&& self.vcpu.spec_vmxon_region() == before.vcpu.spec_vmxon_region()
        &&& self.vcpu.spec_vmcs_region() == before.vcpu.spec_vmcs_region()
        &&& self.vcpu.spec_caps() == before.vcpu.spec_caps()
        &&& self.vcpu.spec_vmcs().same_fields(&before.vcpu.spec_vmcs())
        &&& self.vcpu.spec_is_active() == !before.hw.vmx_operation
        &&& self.hw == if before.hw.vmx_operation {
            HostCpu {
                vmx_operation: false,
                ..sysenter_restored(before.hw, &before.vcpu.spec_vmcs())
            }
        } else {
            sysenter_restored(before.hw, &before.vcpu.spec_vmcs())
        }
    }

    /// Asks the processor to deliver a general-protection fault to the
    /// guest of this core.
    pub fn fault(&mut self) -> (r: HvResult)
        ensures
            old(self).vcpu.spec_is_active() ==> r is Ok && final(self).is_fault_injected(old(self)),
            !old(self).vcpu.spec_is_active() ==> r == Err::<(), HvError>(vm_fail()) && *final(self)
                == *old(self),
    {
        self.vcpu.inject_fault()
    }

    /// Leaves the hypervisor on this core, with `ret_code` as the result
    /// that the host kernel finds. The attempt fails where the core is not
    /// in VMX operation.
    pub fn deactivate_vmm(&mut self, ret_code: u64) -> (r: HvResult)
        requires
            old(self).vcpu.spec_is_active(),
        ensures
            final(self).is_deactivation(old(self), ret_code),
            old(self).hw.vmx_operation ==> r is Ok,
            !old(self).hw.vmx_operation ==> r == Err::<(), HvError>(vm_fail()),
    {
        self.vcpu.set_return_val(ret_code);
        self.vcpu.exit(&mut self.linux, &mut self.hw)
    }
}

impl System {
    /// Whether `id` is the number of a core whose control structure is
    /// current, so that traps of its guest can be handled.
    pub open spec fn spec_is_running(&self, id: usize) -> bool {
        id < self.cpus.len() && self.cpus[id as int].vcpu.spec_is_active()
    }

    #[verifier::when_used_as_spec(spec_is_running)]
    pub fn is_running(&self, id: usize) -> (running: bool)
        ensures
            running == self.spec_is_running(id),
    {
        id < self.cpus.len() && self.cpus[id].vcpu.is_active()
    }

    /// `self` is `before` but for core `id`.
    pub open spec fn same_outside_cpu(&self, before: &System, id: usize) -> bool {
        &&& self.activated_cpus == before.activated_cpus
        &&& self.barrier == before.barrier
        &&& self.cpus.len() == before.cpus.len()
        &&& forall|i: int| 0 <= i < before.cpus.len() && i != id ==> self.cpus[i] == before.cpus[i]
    }
}

} // verus!
