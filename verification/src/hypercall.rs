//! The calls that a guest makes to the hypervisor.
//!
//! A call names an operation by a numeric code in the guest's return
//! register and carries two argument words. The two highest bits of the
//! code are its privilege tier: tier 0 is for the privileged guest, every
//! other tier for the unprivileged one. A call from the wrong tier is
//! answered with a fault and not carried out.

use crate::bits::bit_range;
use crate::bits::get_bits_u32;
use crate::cell::GuestPageTableImmut;
use crate::context::GeneralRegisters;
use crate::error::HvError;
use crate::error::HvResult;
use crate::fields::VmcsField32;
use crate::host::VmxCapabilities;
use crate::percpu::DisableBarrier;
use crate::percpu::PerCpu;
use crate::percpu::spec_arrived;
use crate::percpu::System;
use crate::vcpu::timer_control_allowed;
use crate::vcpu::timer_control_value;
use crate::vmcs::vm_fail;
use crate::vmcs::Vmcs;
use vstd::prelude::*;
use vstd::std_specs::convert::TryFromSpecImpl;

verus! {

/// The operations that a guest can call.
#[derive(Clone, Copy, Debug, PartialEq, Eq, Structural)]
pub enum HyperCallCode {
    /// Leave the hypervisor on every core.
    HypervisorDisable,
    /// Arm the countdown timer of the first core.
    HypervisorCellCreate,
}

/// What an operation returns to the guest.
pub type HyperCallResult = HvResult<u64>;

/// The core whose countdown timer the cell-create operation arms.
pub const CELL_CREATE_TARGET: usize = 0;

/// What the cell-create operation returns.
pub const CELL_CREATE_RESULT: u64 = 1;

/// What the guest's return register holds when the host kernel gets its
/// core back.
pub const DISABLE_RESULT: u64 = 0;

/// Whether a code belongs to the privileged tier: its two highest bits are
/// zero.
pub open spec fn spec_code_is_privileged(code: u32) -> bool {
    bit_range(code, 30, 32) == 0
}

/// The privileged tier is the lowest quarter of the codes.
pub proof fn lemma_privileged_tier(code: u32)
    ensures
        spec_code_is_privileged(code) <==> code < 0x4000_0000,
{
    assert(bit_range(code, 30, 32) == 0 <==> code < 0x4000_0000) by (bit_vector);
}

impl HyperCallCode {
    /// The operation that a code names, if it names one.
    pub open spec fn spec_from_code(code: u32) -> Option<HyperCallCode> {
        if code == 0 {
            Some(HyperCallCode::HypervisorDisable)
        } else if code == 1 {
            Some(HyperCallCode::HypervisorCellCreate)
        } else {
            None
        }
    }

    /// The code of the operation.
    pub open spec fn spec_code(self) -> u32 {
        match self {
            HyperCallCode::HypervisorDisable => 0,
            HyperCallCode::HypervisorCellCreate => 1,
        }
    }

    #[verifier::when_used_as_spec(spec_code)]
    pub fn code(self) -> (code: u32)
        ensures
            code == self.spec_code(),
    {
        match self {
            HyperCallCode::HypervisorDisable => 0,
            HyperCallCode::HypervisorCellCreate => 1,
        }
    }

    pub open spec fn spec_is_privileged(self) -> bool {
        spec_code_is_privileged(self.spec_code())
    }

    /// Whether the operation is for the privileged guest.
    #[verifier::when_used_as_spec(spec_is_privileged)]
    pub fn is_privileged(self) -> (privileged: bool)
        ensures
            privileged == self.spec_is_privileged(),
    {
        get_bits_u32(self.code(), 30, 32) == 0
    }
}

impl TryFrom<u32> for HyperCallCode {
    type Error = u32;

    fn try_from(code: u32) -> (r: Result<HyperCallCode, u32>) {
        if code == 0 {
            Ok(HyperCallCode::HypervisorDisable)
        } else if code == 1 {
            Ok(HyperCallCode::HypervisorCellCreate)
        } else {
            Err(code)
        }
    }
}

impl TryFromSpecImpl<u32> for HyperCallCode {
    open spec fn obeys_try_from_spec() -> bool {
        true
    }

    open spec fn try_from_spec(code: u32) -> Result<HyperCallCode, u32> {
        match HyperCallCode::spec_from_code(code) {
            Some(op) => Ok(op),
            None => Err(code),
        }
    }
}

/// Every operation that exists is for the privileged guest.
pub proof fn lemma_operations_privileged(op: HyperCallCode)
    ensures
        op.spec_is_privileged(),
{
    lemma_privileged_tier(op.spec_code());
}

/// A call as the guest made it: the code and two argument words.
#[derive(Clone, Copy, Debug, PartialEq, Eq, Structural)]
pub struct HyperCallRequest {
    pub code: u32,
    pub arg0: u64,
    pub arg1: u64,
}

impl HyperCallRequest {
    /// The call that the registers of a trapped guest hold: the code in
    /// the low half of `rax`, the arguments in `rdi` and `rsi`.
    pub open spec fn spec_from_regs(regs: GeneralRegisters) -> HyperCallRequest {
        HyperCallRequest {
            code: crate::image::spec_low32(regs.rax),
            arg0: regs.rdi,
            arg1: regs.rsi,
        }
    }

    pub fn from_regs(regs: &GeneralRegisters) -> (request: HyperCallRequest)
        ensures
            request == Self::spec_from_regs(*regs),
    {
        HyperCallRequest { code: crate::image::low32(regs.rax), arg0: regs.rdi, arg1: regs.rsi }
    }
}

/// How a call leaves the core.
#[derive(Clone, Copy, Debug, PartialEq, Eq, Structural)]
pub enum HyperCallOutcome {
    /// The call is over; the guest goes on.
    Completed,
    /// The core has asked to leave and waits for the other cores. It has
    /// to try the barrier again until it passes.
    AtBarrier,
    /// The core has left the hypervisor and belongs to the host kernel
    /// again. The guest is not resumed.
    Deactivated,
}

/// The calls of the guest on one core.
pub struct HyperCall<'a> {
    /// The registry of cores, held for the time of the call.
    pub system: &'a mut System,
    /// The number of the core whose guest calls.
    pub cpu_id: usize,
    /// The guest's page table at the time the call was taken.
    pub gpt: GuestPageTableImmut,
}

/// `after` is `before` with the call rejected on core `id`: a fault waits
/// for its guest, and nothing else has changed.
pub open spec fn is_rejected(after: &System, before: &System, id: usize) -> bool {
    &&& after.same_outside_cpu(before, id)
    &&& after.cpus[id as int].is_fault_injected(&before.cpus[id as int])
}

/// The registry with one more core arrived at the barrier.
pub open spec fn spec_arrival(before: System) -> System {
    System { barrier: DisableBarrier { requests: spec_arrived(before.barrier.requests) }, ..before }
}

/// What happens when core `id` tries the barrier in `before`. While fewer
/// cores have arrived than were ever activated, the core waits and nothing
/// changes. Otherwise the core leaves the hypervisor; if the processor
/// refuses that, the call is over and the guest finds the error code in its
/// return register.
pub open spec fn is_barrier_try(
    after: &System,
    before: &System,
    id: usize,
    r: HvResult<HyperCallOutcome>,
) -> bool {
    if !before.barrier.spec_is_open(before.activated_cpus) {
        r == Ok::<HyperCallOutcome, HvError>(HyperCallOutcome::AtBarrier) && *after == *before
    } else {
        &&& after.same_outside_cpu(before, id)
        &&& if before.cpus[id as int].hw.vmx_operation {
            &&& r == Ok::<HyperCallOutcome, HvError>(HyperCallOutcome::Deactivated)
            &&& after.cpus[id as int].is_deactivation(&before.cpus[id as int], DISABLE_RESULT)
        } else {
            &&& r == Ok::<HyperCallOutcome, HvError>(HyperCallOutcome::Completed)
            &&& after.cpus[id as int].is_deactivation(
                &before.cpus[id as int],
                vm_fail().spec_register_image(),
            )
        }
    }
}

/// `after` is the control structure `before` with the countdown timer
/// armed, as far as that can be done: where the capability register does
/// not allow the timer, or the control structure is not current, nothing
/// changes.
pub open spec fn is_timer_armed_in(after: &Vmcs, before: &Vmcs, caps: VmxCapabilities) -> bool {
    if timer_control_allowed(caps, true) && before.spec_is_current() {
        after.is_update32(
            before,
            VmcsField32::PinBasedVmExecControl,
            timer_control_value(caps, before.value32(VmcsField32::PinBasedVmExecControl), true),
        )
    } else {
        *after == *before
    }
}

/// `after` is `before` with the countdown timer of this core armed, as
/// far as that can be done.
pub open spec fn is_timer_armed(after: &PerCpu, before: &PerCpu) -> bool {
    &&& after.same_outside_vcpu(before)
    &&& after.vcpu.same_outside_vmcs(&before.vcpu)
    &&& is_timer_armed_in(
        &after.vcpu.spec_vmcs(),
        &before.vcpu.spec_vmcs(),
        before.vcpu.spec_caps(),
    )
}

/// `after` is `before` with `value` returned to the guest of core `id`.
pub open spec fn is_returned(after: &System, before: &System, id: usize, value: u64) -> bool {
    &&& after.same_outside_cpu(before, id)
    &&& after.cpus[id as int].is_return_val(&before.cpus[id as int], value)
}

/// `after` is `before` with the cell-create operation carried out for core
/// `id`: the countdown timer of the target core is armed, and the guest of
/// core `id` finds the result in its return register.
pub open spec fn is_cell_created(after: &System, before: &System, id: usize) -> bool {
    &&& after.activated_cpus == before.activated_cpus
    &&& after.barrier == before.barrier
    &&& after.cpus.len() == before.cpus.len()
    &&& forall|i: int|
        0 <= i < before.cpus.len() && i != id && i != CELL_CREATE_TARGET ==> after.cpus[i]
            == before.cpus[i]
    &&& if id == CELL_CREATE_TARGET {
        let a = after.cpus[id as int];
        let b = before.cpus[id as int];
        &&& a.same_outside_vcpu(&b)
        &&& a.vcpu.same_outside_regs_and_vmcs(&b.vcpu)
        &&& a.vcpu.spec_regs() == (GeneralRegisters { rax: CELL_CREATE_RESULT, ..b.vcpu.spec_regs() })
        &&& is_timer_armed_in(&a.vcpu.spec_vmcs(), &b.vcpu.spec_vmcs(), b.vcpu.spec_caps())
    } else {
        &&& is_timer_armed(
            &after.cpus[CELL_CREATE_TARGET as int],
            &before.cpus[CELL_CREATE_TARGET as int],
        )
        &&& after.cpus[id as int].is_return_val(&before.cpus[id as int], CELL_CREATE_RESULT)
    }
}

/// `after` is `before` with the result `ret` of operation `op` delivered to
/// the guest of core `id`. A privileged guest finds the value, or the code
/// of the error, in its return register. An unprivileged guest gets a fault
/// for a failure, and nothing for a success.
pub open spec fn is_delivered(
    after: &System,
    before: &System,
    id: usize,
    op: HyperCallCode,
    ret: HyperCallResult,
) -> bool {
    if op.spec_is_privileged() {
        is_returned(
            after,
            before,
            id,
            match ret {
                Ok(value) => value,
                Err(e) => e.spec_register_image(),
            },
        )
    } else if ret is Err {
        is_rejected(after, before, id)
    } else {
        *after == *before
    }
}

/// What a call with code `code` does on core `id`. An unknown code does
/// nothing. A code of the tier that the guest is not in gets the guest a
/// fault and does nothing else. Otherwise the operation is carried out.
pub open spec fn is_hypercall(
    after: &System,
    before: &System,
    id: usize,
    code: u32,
    r: HvResult<HyperCallOutcome>,
) -> bool {
    match HyperCallCode::spec_from_code(code) {
        None => r == Ok::<HyperCallOutcome, HvError>(HyperCallOutcome::Completed) && *after
            == *before,
        Some(op) => if op.spec_is_privileged()
            != before.cpus[id as int].vcpu.spec_guest_is_privileged() {
            r == Ok::<HyperCallOutcome, HvError>(HyperCallOutcome::Completed) && is_rejected(
                after,
                before,
                id,
            )
        } else {
            match op {
                HyperCallCode::HypervisorDisable => is_barrier_try(
                    after,
                    &spec_arrival(*before),
                    id,
                    r,
                ),
                HyperCallCode::HypervisorCellCreate => r == Ok::<HyperCallOutcome, HvError>(
                    HyperCallOutcome::Completed,
                ) && is_cell_created(after, before, id),
            }
        },
    }
}

impl<'a> HyperCall<'a> {
    /// Takes the calls of the guest on core `cpu_id`, whose control
    /// structure is current.
    pub fn new(system: &'a mut System, cpu_id: usize) -> (call: HyperCall<'a>)
        requires
            old(system).spec_is_running(cpu_id),
        ensures
            *call.system == *old(system),
            call.cpu_id == cpu_id,
            call.gpt == (GuestPageTableImmut {
                root: crate::cell::spec_align_down(
                    crate::vcpu::cr_read_value(&old(system).cpus[cpu_id as int].vcpu.spec_vmcs(), 3),
                ),
            }),
            *final(call.system) == *final(system),
    {
        let gpt = system.cpus[cpu_id].vcpu.guest_page_table();
        HyperCall { system, cpu_id, gpt }
    }

    /// Serves the call with code `code`.
    pub fn hypercall(&mut self, code: u32, arg0: u64, _arg1: u64) -> (r: HvResult<HyperCallOutcome>)
        requires
            old(self).system.spec_is_running(old(self).cpu_id),
        ensures
            final(self).cpu_id == old(self).cpu_id,
            final(self).gpt == old(self).gpt,
            *final(final(self).system) == *final(old(self).system),
            is_hypercall(
                &*final(self).system,
                &*old(self).system,
                old(self).cpu_id,
                code,
                r,
            ),
    {
        let id = self.cpu_id;
        let op = match HyperCallCode::try_from(code) {
            Ok(op) => op,
            Err(_) => {
                return Ok(HyperCallOutcome::Completed);
            },
        };

        if self.system.cpus[id].vcpu.guest_is_privileged() {
            if !op.is_privileged() {
                self.system.cpus[id].fault()?;
                return Ok(HyperCallOutcome::Completed);
            }
        } else if op.is_privileged() {
            self.system.cpus[id].fault()?;
            return Ok(HyperCallOutcome::Completed);
        }

        match op {
            HyperCallCode::HypervisorDisable => self.hypervisor_disable(),
            HyperCallCode::HypervisorCellCreate => {
                let ret = self.hypervisor_cell_create();
                proof {
                    lemma_operations_privileged(op);
                }
                self.deliver(op, ret)?;
                Ok(HyperCallOutcome::Completed)
            },
        }
    }

    /// Delivers the result `ret` of operation `op` to the guest.
    pub fn deliver(&mut self, op: HyperCallCode, ret: HyperCallResult) -> (r: HvResult)
        requires
            old(self).system.spec_is_running(old(self).cpu_id),
        ensures
            r is Ok,
            final(self).cpu_id == old(self).cpu_id,
            final(self).gpt == old(self).gpt,
            *final(final(self).system) == *final(old(self).system),
            is_delivered(
                &*final(self).system,
                &*old(self).system,
                old(self).cpu_id,
                op,
                ret,
            ),
    {
        let id = self.cpu_id;
        if !op.is_privileged() {
            if ret.is_err() {
                self.system.cpus[id].fault()?;
            }
        } else {
            let val = match ret {
                Ok(value) => value,
                Err(err) => err.register_image(),
            };
            self.system.cpus[id].vcpu.set_return_val(val);
        }
        Ok(())
    }

    /// Asks to leave the hypervisor: the core arrives at the barrier and
    /// tries it once.
    pub fn hypervisor_disable(&mut self) -> (r: HvResult<HyperCallOutcome>)
        requires
            old(self).system.spec_is_running(old(self).cpu_id),
        ensures
            final(self).cpu_id == old(self).cpu_id,
            final(self).gpt == old(self).gpt,
            *final(final(self).system) == *final(old(self).system),
            is_barrier_try(
                &*final(self).system,
                &spec_arrival(*old(self).system),
                old(self).cpu_id,
                r,
            ),
    {
        self.system.barrier.arrive();
        self.try_barrier()
    }

    /// Tries the barrier for a core that has arrived at it. The core that
    /// waits calls this again and again until it is through.
    pub fn try_barrier(&mut self) -> (r: HvResult<HyperCallOutcome>)
        requires
            old(self).system.spec_is_running(old(self).cpu_id),
        ensures
            final(self).cpu_id == old(self).cpu_id,
            final(self).gpt == old(self).gpt,
            *final(final(self).system) == *final(old(self).system),
            is_barrier_try(
                &*final(self).system,
                &*old(self).system,
                old(self).cpu_id,
                r,
            ),
    {
        let id = self.cpu_id;
        if !self.system.barrier.is_open(self.system.activated_cpus) {
            return Ok(HyperCallOutcome::AtBarrier);
        }
        match self.system.cpus[id].deactivate_vmm(DISABLE_RESULT) {
            Ok(()) => Ok(HyperCallOutcome::Deactivated),
            Err(err) => {
                self.system.cpus[id].vcpu.set_return_val(err.register_image());
                Ok(HyperCallOutcome::Completed)
            },
        }
    }

    /// Arms the countdown timer of the target core. Whether that worked is
    /// not reported: the operation always returns its fixed result.
    fn hypervisor_cell_create(&mut self) -> (r: HyperCallResult)
        requires
            old(self).system.spec_is_running(old(self).cpu_id),
        ensures
            r == Ok::<u64, HvError>(CELL_CREATE_RESULT),
            final(self).cpu_id == old(self).cpu_id,
            final(self).gpt == old(self).gpt,
            *final(final(self).system) == *final(old(self).system),
            final(self).system.same_outside_cpu(&*old(self).system, CELL_CREATE_TARGET),
            is_timer_armed(
                &final(self).system.cpus[CELL_CREATE_TARGET as int],
                &old(self).system.cpus[CELL_CREATE_TARGET as int],
            ),
            final(self).system.spec_is_running(old(self).cpu_id),
    {
        let _ = self.system.cpus[CELL_CREATE_TARGET].vcpu.setup_vmcs_control_timer(true);
        Ok(CELL_CREATE_RESULT)
    }
}

/// A call whose code names an operation, made by a guest that is not
/// privileged, is never carried out: the guest gets a fault, and but for
/// that fault the registry is as it was. Every operation is of the
/// privileged tier, so this holds of every code that names one.
pub proof fn lemma_unprivileged_call_is_rejected(
    after: &System,
    before: &System,
    id: usize,
    code: u32,
    r: HvResult<HyperCallOutcome>,
)
    requires
        is_hypercall(after, before, id, code, r),
        HyperCallCode::spec_from_code(code) is Some,
        !before.cpus[id as int].vcpu.spec_guest_is_privileged(),
    ensures
        spec_code_is_privileged(code),
        r == Ok::<HyperCallOutcome, HvError>(HyperCallOutcome::Completed),
        is_rejected(after, before, id),
        after.barrier == before.barrier,
        after.cpus[id as int].vcpu.spec_regs() == before.cpus[id as int].vcpu.spec_regs(),
{
    lemma_operations_privileged(HyperCallCode::spec_from_code(code)->0);
}

/// A call whose code names no operation succeeds and changes nothing.
pub proof fn lemma_unknown_call_is_inert(
    after: &System,
    before: &System,
    id: usize,
    code: u32,
    r: HvResult<HyperCallOutcome>,
)
    requires
        is_hypercall(after, before, id, code, r),
        code >= 2,
    ensures
        r == Ok::<HyperCallOutcome, HvError>(HyperCallOutcome::Completed),
        *after == *before,
{
}

/// No core passes the barrier before every core has arrived: while fewer
/// cores have arrived than were ever activated, a try leaves the core
/// waiting and changes nothing. Once that many have arrived, no try leaves
/// a core waiting.
pub proof fn lemma_barrier_holds_until_all_arrived(
    after: &System,
    before: &System,
    id: usize,
    r: HvResult<HyperCallOutcome>,
)
    requires
        is_barrier_try(after, before, id, r),
    ensures
        before.barrier.requests < before.activated_cpus ==> r == Ok::<HyperCallOutcome, HvError>(
            HyperCallOutcome::AtBarrier,
        ) && *after == *before,
        before.barrier.requests >= before.activated_cpus ==> r != Ok::<HyperCallOutcome, HvError>(
            HyperCallOutcome::AtBarrier,
        ),
{
}

} // verus!
