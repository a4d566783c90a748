//! The dispatcher of traps: it reads why the guest trapped and decides
//! what is done about it.

use crate::error::HvError;
use crate::error::HvErrorNum;
use crate::error::HvResult;
use crate::exit_info::EptViolationInfo;
use crate::exit_info::ExitInterruptInfo;
use crate::exit_info::NMI_VECTOR;
use crate::exit_info::VMCALL_LENGTH;
use crate::exit_info::VmExitInfo;
use crate::exit_info::VmxExitReason;
use crate::fields::VmcsField64;
use crate::hypercall::HyperCall;
use crate::hypercall::HyperCallOutcome;
use crate::hypercall::HyperCallRequest;
use crate::hypercall::is_hypercall;
use crate::hypercall::is_rejected;
use crate::percpu::System;
use crate::vcpu::spec_advance;
use crate::vcpu::VcpuDump;
use crate::vmcs::vm_fail;
use vstd::prelude::*;

verus! {

/// What the trap path has to do after the dispatcher has run.
#[derive(Clone, Copy, Debug, PartialEq, Eq, Structural)]
pub enum ExitAction {
    /// The trap is handled. Resume the guest.
    Resume,
    /// A non-maskable interrupt arrived while the guest ran. Raise it on
    /// the host, then resume the guest.
    ForwardNmi,
    /// The guest asked for processor identification. Let the handler of
    /// that answer, then resume the guest.
    Cpuid,
    /// The guest read a model-specific register. Let the handler of that
    /// answer, then resume the guest.
    MsrRead,
    /// The guest wrote a model-specific register. Let the handler of that
    /// act, then resume the guest.
    MsrWrite,
    /// The countdown timer expired. Let the periodic handler run, then
    /// resume the guest.
    Timer,
    /// The core waits at the barrier on its way out of the hypervisor. Try
    /// the barrier until the core is through.
    AwaitBarrier,
    /// The core has left the hypervisor. Return to the host kernel.
    ReturnToHost,
    /// The processor could not enter the guest. Nothing can be resumed:
    /// halt.
    Halt,
}

/// The trap of the guest on one core.
pub struct VmExit<'a> {
    /// The registry of cores, held for the time of the trap.
    pub system: &'a mut System,
    /// The number of the core whose guest trapped.
    pub cpu_id: usize,
}

/// What the trap path does after a call of the guest that ended with
/// `outcome`.
pub open spec fn spec_action_after_call(outcome: HyperCallOutcome) -> ExitAction {
    match outcome {
        HyperCallOutcome::Completed => ExitAction::Resume,
        HyperCallOutcome::AtBarrier => ExitAction::AwaitBarrier,
        HyperCallOutcome::Deactivated => ExitAction::ReturnToHost,
    }
}

#[verifier::when_used_as_spec(spec_action_after_call)]
pub fn action_after_call(outcome: HyperCallOutcome) -> (action: ExitAction)
    ensures
        action == spec_action_after_call(outcome),
{
    match outcome {
        HyperCallOutcome::Completed => ExitAction::Resume,
        HyperCallOutcome::AtBarrier => ExitAction::AwaitBarrier,
        HyperCallOutcome::Deactivated => ExitAction::ReturnToHost,
    }
}

/// The error that an event is reported as for which nothing is
/// implemented.
pub open spec fn unsupported() -> HvError {
    HvError { num: HvErrorNum::ENOSYS }
}

/// `after` is `before` with the instruction pointer of the guest on core
/// `id` moved past the instruction by which it called the host.
pub open spec fn is_call_skipped(after: &System, before: &System, id: usize) -> bool {
    &&& after.same_outside_cpu(before, id)
    &&& after.cpus[id as int].same_outside_vcpu(&before.cpus[id as int])
    &&& after.cpus[id as int].vcpu.same_outside_vmcs(&before.cpus[id as int].vcpu)
    &&& after.cpus[id as int].vcpu.spec_vmcs().is_update64(
        &before.cpus[id as int].vcpu.spec_vmcs(),
        VmcsField64::GuestRip,
        spec_advance(
            before.cpus[id as int].vcpu.spec_vmcs().value64(VmcsField64::GuestRip),
            VMCALL_LENGTH,
        ),
    )
}

/// What the dispatcher does with a call of the guest on core `id`: the
/// guest's instruction pointer is moved past the calling instruction, and
/// the call that the guest's registers hold is served.
pub open spec fn is_call_handled(
    after: &System,
    before: &System,
    id: usize,
    r: HvResult<ExitAction>,
) -> bool {
    exists|skipped: System, outcome: HvResult<HyperCallOutcome>|
        {
            &&& is_call_skipped(&skipped, before, id)
            &&& #[trigger] is_hypercall(
                after,
                &skipped,
                id,
                HyperCallRequest::spec_from_regs(before.cpus[id as int].vcpu.spec_regs()).code,
                outcome,
            )
            &&& outcome is Ok
            &&& r == Ok::<ExitAction, HvError>(spec_action_after_call(outcome->Ok_0))
        }
}

/// What the dispatcher does with the trap that core `id` reports in
/// `before`.
///
/// A trap that cannot be read is a failure, and so is a trap for which
/// nothing is implemented: a violation of the extended page tables, and
/// every reason that is not listed here. A failure changes nothing, and the
/// guest is resumed after it like after a success. A failed entry is the
/// one event after which nothing is resumed. A triple fault is answered
/// with a fault for the guest, which may then end itself.
pub open spec fn is_exit_handled(
    after: &System,
    before: &System,
    id: usize,
    r: HvResult<ExitAction>,
) -> bool {
    let vmcs = before.cpus[id as int].vcpu.spec_vmcs();
    let info = VmExitInfo::spec_new(&vmcs);
    if !vmcs.spec_is_current() {
        r == Err::<ExitAction, HvError>(vm_fail()) && *after == *before
    } else if info.entry_failure {
        r == Ok::<ExitAction, HvError>(ExitAction::Halt) && *after == *before
    } else {
        match info.exit_reason {
            VmxExitReason::ExceptionNmi => *after == *before && r == Ok::<ExitAction, HvError>(
                if ExitInterruptInfo::spec_new(&vmcs).vector == NMI_VECTOR {
                    ExitAction::ForwardNmi
                } else {
                    ExitAction::Resume
                },
            ),
            VmxExitReason::Cpuid => *after == *before && r == Ok::<ExitAction, HvError>(
                ExitAction::Cpuid,
            ),
            VmxExitReason::Vmcall => is_call_handled(after, before, id, r),
            VmxExitReason::MsrRead => *after == *before && r == Ok::<ExitAction, HvError>(
                ExitAction::MsrRead,
            ),
            VmxExitReason::MsrWrite => *after == *before && r == Ok::<ExitAction, HvError>(
                ExitAction::MsrWrite,
            ),
            VmxExitReason::EptViolation => *after == *before && r == Err::<ExitAction, HvError>(
                unsupported(),
            ),
            VmxExitReason::PreemptionTimer => *after == *before && r == Ok::<ExitAction, HvError>(
                ExitAction::Timer,
            ),
            VmxExitReason::TripleFault => is_rejected(after, before, id) && r == Ok::<
                ExitAction,
                HvError,
            >(ExitAction::Resume),
            VmxExitReason::Other(_) => *after == *before && r == Err::<ExitAction, HvError>(
                unsupported(),
            ),
        }
    }
}

impl<'a> VmExit<'a> {
    /// Takes the trap of the guest on core `cpu_id`.
    pub fn new(system: &'a mut System, cpu_id: usize) -> (exit: VmExit<'a>)
        ensures
            *exit.system == *old(system),
            exit.cpu_id == cpu_id,
            *final(exit.system) == *final(system),
    {
        VmExit { system, cpu_id }
    }

    /// An exception or a non-maskable interrupt in the guest. The
    /// interrupt is the host's and is handed on to it; an exception is the
    /// guest's own affair.
    fn handle_exception_nmi(&mut self, _exit_info: &VmExitInfo) -> (r: HvResult<ExitAction>)
        requires
            old(self).system.spec_is_running(old(self).cpu_id),
        ensures
            *final(self) == *old(self),
            r == Ok::<ExitAction, HvError>(
                if ExitInterruptInfo::spec_new(
                    &old(self).system.cpus[old(self).cpu_id as int].vcpu.spec_vmcs(),
                ).vector == NMI_VECTOR {
                    ExitAction::ForwardNmi
                } else {
                    ExitAction::Resume
                },
            ),
    {
        let intr_info = ExitInterruptInfo::new(self.system.cpus[self.cpu_id].vcpu.vmcs())?;
        if intr_info.vector == NMI_VECTOR {
            Ok(ExitAction::ForwardNmi)
        } else {
            Ok(ExitAction::Resume)
        }
    }

    /// The guest touched memory that its extended page tables do not map.
    /// Nothing emulates such an access.
    fn handle_ept_violation(&mut self, _exit_info: &VmExitInfo) -> (r: HvResult<ExitAction>)
        requires
            old(self).system.spec_is_running(old(self).cpu_id),
        ensures
            *final(self) == *old(self),
            r == Err::<ExitAction, HvError>(unsupported()),
    {
        let _ept_vio_info = EptViolationInfo::new(self.system.cpus[self.cpu_id].vcpu.vmcs())?;
        Err(HvError::new(HvErrorNum::ENOSYS))
    }

    /// The guest called the host.
    pub fn handle_hypercall(&mut self) -> (r: HvResult<ExitAction>)
        requires
            old(self).system.spec_is_running(old(self).cpu_id),
        ensures
            final(self).cpu_id == old(self).cpu_id,
            *final(final(self).system) == *final(old(self).system),
            is_call_handled(&*final(self).system, &*old(self).system, old(self).cpu_id, r),
    {
        let id = self.cpu_id;
        self.system.cpus[id].vcpu.advance_rip(VMCALL_LENGTH)?;
        let ghost skipped = *self.system;
        let request = HyperCallRequest::from_regs(self.system.cpus[id].vcpu.regs());
        let mut call = HyperCall::new(&mut *self.system, id);
        let outcome = call.hypercall(request.code, request.arg0, request.arg1);
        proof {
            assert(is_hypercall(&*self.system, &skipped, id, request.code, outcome));
        }
        match outcome {
            Ok(outcome) => Ok(action_after_call(outcome)),
            Err(e) => Err(e),
        }
    }

    /// Handles the trap that the core reports.
    pub fn handle_exit(&mut self) -> (r: HvResult<ExitAction>)
        requires
            old(self).cpu_id < old(self).system.cpus.len(),
        ensures
            final(self).cpu_id == old(self).cpu_id,
            *final(final(self).system) == *final(old(self).system),
            is_exit_handled(&*final(self).system, &*old(self).system, old(self).cpu_id, r),
    {
        let id = self.cpu_id;
        let exit_info = VmExitInfo::new(self.system.cpus[id].vcpu.vmcs())?;

        if exit_info.entry_failure {
            return Ok(ExitAction::Halt);
        }
        match exit_info.exit_reason {
            VmxExitReason::ExceptionNmi => self.handle_exception_nmi(&exit_info),
            VmxExitReason::Cpuid => Ok(ExitAction::Cpuid),
            VmxExitReason::Vmcall => self.handle_hypercall(),
            VmxExitReason::MsrRead => Ok(ExitAction::MsrRead),
            VmxExitReason::MsrWrite => Ok(ExitAction::MsrWrite),
            VmxExitReason::EptViolation => self.handle_ept_violation(&exit_info),
            VmxExitReason::PreemptionTimer => Ok(ExitAction::Timer),
            VmxExitReason::TripleFault => {
                self.system.cpus[id].vcpu.inject_fault()?;
                Ok(ExitAction::Resume)
            },
            _ => Err(HvError::new(HvErrorNum::ENOSYS)),
        }
    }
}

/// A triple fault never halts the core: the guest gets a fault, nothing
/// else changes, and the dispatcher reports success.
pub proof fn lemma_triple_fault_is_answered(
    after: &System,
    before: &System,
    id: usize,
    r: HvResult<ExitAction>,
)
    requires
        is_exit_handled(after, before, id, r),
        before.cpus[id as int].vcpu.spec_is_active(),
        !VmExitInfo::spec_new(&before.cpus[id as int].vcpu.spec_vmcs()).entry_failure,
        VmExitInfo::spec_new(&before.cpus[id as int].vcpu.spec_vmcs()).exit_reason
            == VmxExitReason::TripleFault,
    ensures
        r == Ok::<ExitAction, HvError>(ExitAction::Resume),
        after.cpus[id as int].is_fault_injected(&before.cpus[id as int]),
        after.same_outside_cpu(before, id),
{
}

/// A failed entry always halts the core, whatever reason the trap gives,
/// and nothing is changed on the way.
pub proof fn lemma_entry_failure_halts(
    after: &System,
    before: &System,
    id: usize,
    r: HvResult<ExitAction>,
)
    requires
        is_exit_handled(after, before, id, r),
        before.cpus[id as int].vcpu.spec_is_active(),
        VmExitInfo::spec_new(&before.cpus[id as int].vcpu.spec_vmcs()).entry_failure,
    ensures
        r == Ok::<ExitAction, HvError>(ExitAction::Halt),
        *after == *before,
{
}

/// The core halts only after a failed entry.
pub proof fn lemma_halt_only_after_entry_failure(
    after: &System,
    before: &System,
    id: usize,
    r: HvResult<ExitAction>,
)
    requires
        is_exit_handled(after, before, id, r),
        r == Ok::<ExitAction, HvError>(ExitAction::Halt),
    ensures
        before.cpus[id as int].vcpu.spec_is_active(),
        VmExitInfo::spec_new(&before.cpus[id as int].vcpu.spec_vmcs()).entry_failure,
{
}

/// What the trap path does after the dispatcher returned `result`: what
/// the dispatcher asked for, and after a failure it resumes the guest.
pub open spec fn spec_next_action(result: HvResult<ExitAction>) -> ExitAction {
    match result {
        Ok(action) => action,
        Err(_) => ExitAction::Resume,
    }
}

#[verifier::when_used_as_spec(spec_next_action)]
pub fn next_action(result: HvResult<ExitAction>) -> (action: ExitAction)
    ensures
        action == spec_next_action(result),
{
    match result {
        Ok(action) => action,
        Err(_) => ExitAction::Resume,
    }
}

/// What the trap path reports of core `cpu_id` after the dispatcher
/// returned `result`: the state of the virtual CPU after a failure, nothing
/// after a success. Nothing can be shown of a virtual CPU whose control
/// structure is not current.
pub fn failure_report(system: &System, cpu_id: usize, result: &HvResult<ExitAction>) -> (report:
    Option<VcpuDump>)
    requires
        cpu_id < system.cpus.len(),
    ensures
        report is Some <==> result is Err && system.spec_is_running(cpu_id),
        report is Some ==> report->0 == system.cpus[cpu_id as int].vcpu.spec_dump(),
{
    if result.is_err() && system.cpus[cpu_id].vcpu.is_active() {
        Some(system.cpus[cpu_id].vcpu.dump())
    } else {
        None
    }
}

} // verus!
