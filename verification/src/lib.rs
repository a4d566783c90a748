//! The core of a hypervisor for processors with VT-x: the virtual CPU of
//! one core from creation to teardown, the dispatcher of the guest's traps,
//! and the calls that a guest makes to the hypervisor.
//!
//! Nothing here touches the processor. The core and the control structure
//! of a virtual CPU are values: [`host::HostCpu`] holds the registers of a
//! core that matter, [`vmcs::Vmcs`] the fields of a control structure. What
//! the processor would refuse, the values refuse too: a field cannot be
//! read before its structure is current, VMX operation cannot be left while
//! a structure is current, a control cannot be set that the capability
//! register forbids. Every operation says exactly how it changes these
//! values, so a caller that is proved to succeed is proved to keep to the
//! order that the processor demands. The code that stands between the
//! values and the processor reads the one into the other and back.
//!
//! [`vcpu::Vcpu`] is the virtual CPU. [`image`] says what its setup writes,
//! [`cr`] how guest control registers are filtered. [`vmexit::VmExit`]
//! dispatches traps and [`hypercall::HyperCall`] serves calls; both work on
//! the registry of all cores in [`percpu`]. [`switch`] is the passage
//! between guest and host.

pub mod bits;
pub mod cell;
pub mod context;
pub mod cpu;
pub mod cr;
pub mod error;
pub mod exit_info;
pub mod fields;
pub mod host;
pub mod hypercall;
pub mod image;
pub mod percpu;
pub mod switch;
pub mod vcpu;
pub mod vmcs;
pub mod vmexit;
