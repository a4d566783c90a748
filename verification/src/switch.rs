//! The two halves of the world switch, on a model of the registers that
//! the core has at the moment of a trap.
//!
//! When the guest traps, the processor starts the host at the entry of the
//! trap path with the stack pointer on the register snapshot of the
//! virtual CPU. The first half saves the guest's registers there and moves
//! to the host's own stack; it hands out a frame that remembers where it
//! came from. The second half takes that frame back, returns to the
//! snapshot and loads the guest's registers from it. No guest is resumed
//! without a frame, and no frame exists before the registers are saved.

use crate::context::GeneralRegisters;
use crate::error::HvError;
use crate::error::HvErrorNum;
use crate::vcpu::Vcpu;
use vstd::prelude::*;

verus! {

/// The registers of the core while the trap path runs.
#[derive(Clone, Copy, Debug, PartialEq, Eq, Structural)]
pub struct LiveRegisters {
    pub regs: GeneralRegisters,
    pub rsp: u64,
}

/// What the first half of the switch leaves for the second.
#[derive(Debug, PartialEq, Eq)]
pub struct TrapFrame {
    saved_rsp: u64,
}

impl TrapFrame {
    /// The stack pointer with which the trap path was entered.
    pub closed spec fn spec_saved_rsp(&self) -> u64 {
        self.saved_rsp
    }

    #[verifier::when_used_as_spec(spec_saved_rsp)]
    pub fn saved_rsp(&self) -> (rsp: u64)
        ensures
            rsp == self.spec_saved_rsp(),
    {
        self.saved_rsp
    }
}

/// From guest to host: saves every general register of the trapped guest
/// in the snapshot of the virtual CPU, then moves the stack pointer to the
/// host's stack top. The registers themselves are left as they are.
pub fn trap_in(vcpu: &mut Vcpu, live: &mut LiveRegisters) -> (frame: TrapFrame)
    ensures
        final(vcpu).spec_regs() == old(live).regs,
        final(vcpu).same_outside_regs(old(vcpu)),
        final(live).regs == old(live).regs,
        final(live).rsp == old(vcpu).spec_host_stack_top(),
        frame.spec_saved_rsp() == old(live).rsp,
{
    let regs = vcpu.regs_mut();
    *regs = live.regs;
    let frame = TrapFrame { saved_rsp: live.rsp };
    live.rsp = vcpu.host_stack_top();
    frame
}

/// From host to guest: moves the stack pointer back to where the trap path
/// was entered, then loads every general register from the snapshot of the
/// virtual CPU. What the handlers wrote into the snapshot is what the guest
/// resumes with.
pub fn resume_out(vcpu: &Vcpu, live: &mut LiveRegisters, frame: TrapFrame)
    ensures
        final(live).rsp == frame.spec_saved_rsp(),
        final(live).regs == vcpu.spec_regs(),
{
    live.rsp = frame.saved_rsp;
    live.regs = *vcpu.regs();
}

/// The two ways in which the processor is told to run the guest.
#[derive(Clone, Copy, Debug, PartialEq, Eq, Structural)]
pub enum EntryKind {
    /// The first entry of a guest.
    Launch,
    /// Every entry after a trap.
    Resume,
}

/// What follows when the processor refuses to run the guest.
#[derive(Clone, Copy, Debug, PartialEq, Eq, Structural)]
pub enum EntryRefusal {
    /// The caller gets the error: the host kernel still runs and can be
    /// told.
    Report(HvError),
    /// The core halts: the guest's state is half loaded and nothing can go
    /// on from it.
    Halt,
}

/// What follows when the processor refuses an entry of this kind: a
/// refused launch is reported as an input/output error, a refused resume
/// halts the core.
pub open spec fn spec_entry_refused(kind: EntryKind) -> EntryRefusal {
    match kind {
        EntryKind::Launch => EntryRefusal::Report(HvError { num: HvErrorNum::EIO }),
        EntryKind::Resume => EntryRefusal::Halt,
    }
}

#[verifier::when_used_as_spec(spec_entry_refused)]
pub fn entry_refused(kind: EntryKind) -> (refusal: EntryRefusal)
    ensures
        refusal == spec_entry_refused(kind),
{
    match kind {
        EntryKind::Launch => EntryRefusal::Report(HvError::new(HvErrorNum::EIO)),
        EntryKind::Resume => EntryRefusal::Halt,
    }
}

} // verus!
