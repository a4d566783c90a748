//! What the core tells about itself: its number and its clock.

use vstd::prelude::*;
use x86::cpuid::CpuId;

verus! {

/// The base frequency, in MHz, that is assumed of a processor that reports
/// none, and below which no reported frequency is believed.
pub const DEFAULT_FREQUENCY: u16 = 4000;

/// `CpuId::get_feature_info` of `x86`'s `cpuid` module, and of the leaf it
/// returns `initial_local_apic_id`: the number that the processor on which
/// this runs gives itself, or nothing where the processor has no such
/// leaf. The answer is that of the processor, so nothing is claimed of it.
#[verifier::external_body]
fn cpuid_initial_local_apic_id() -> (id: Option<u8>) {
    match CpuId::new().get_feature_info() {
        Some(info) => Some(info.initial_local_apic_id()),
        None => None,
    }
}

/// `CpuId::get_processor_frequency_info` of `x86`'s `cpuid` module, and of
/// the leaf it returns `processor_base_frequency`: the base frequency in
/// MHz that the processor on which this runs reports, or nothing where the
/// processor has no such leaf. The answer is that of the processor, so
/// nothing is claimed of it.
#[verifier::external_body]
fn cpuid_processor_base_frequency() -> (mhz: Option<u16>) {
    match CpuId::new().get_processor_frequency_info() {
        Some(info) => Some(info.processor_base_frequency()),
        None => None,
    }
}

/// The number of the core on which this runs, where the processor tells
/// it.
pub fn phys_id() -> (id: Option<usize>)
    ensures
        id matches Some(n) ==> n <= u8::MAX,
{
    phys_id_of(cpuid_initial_local_apic_id())
}

/// The number of a core whose processor answers `apic_id` when it is asked
/// for its initial local APIC identifier: that identifier, and nothing
/// where the processor gives none.
pub open spec fn spec_phys_id_of(apic_id: Option<u8>) -> Option<usize> {
    match apic_id {
        Some(n) => Some(n as usize),
        None => None,
    }
}

#[verifier::when_used_as_spec(spec_phys_id_of)]
pub fn phys_id_of(apic_id: Option<u8>) -> (id: Option<usize>)
    ensures
        id == spec_phys_id_of(apic_id),
{
    match apic_id {
        Some(n) => Some(n as usize),
        None => None,
    }
}

/// The frequency that is reckoned with for a processor that reports
/// `reported`: the reported one, but at least the default.
pub open spec fn spec_frequency_of(reported: Option<u16>) -> u16 {
    match reported {
        Some(mhz) => if mhz > DEFAULT_FREQUENCY {
            mhz
        } else {
            DEFAULT_FREQUENCY
        },
        None => DEFAULT_FREQUENCY,
    }
}

#[verifier::when_used_as_spec(spec_frequency_of)]
pub fn frequency_of(reported: Option<u16>) -> (mhz: u16)
    ensures
        mhz == spec_frequency_of(reported),
        mhz >= DEFAULT_FREQUENCY,
{
    match reported {
        Some(mhz) => if mhz > DEFAULT_FREQUENCY {
            mhz
        } else {
            DEFAULT_FREQUENCY
        },
        None => DEFAULT_FREQUENCY,
    }
}

/// The frequency, in MHz, that is reckoned with for the processor on
/// which this runs.
pub fn frequency() -> (mhz: u16)
    ensures
        mhz >= DEFAULT_FREQUENCY,
{
    frequency_of(cpuid_processor_base_frequency())
}

/// The time in nanoseconds that `cycle` ticks of the timestamp counter
/// take on a processor of `frequency` MHz.
pub fn current_time_nanos(cycle: u64, frequency: u16) -> (nanos: u64)
    requires
        frequency > 0,
        cycle * 1000 <= u64::MAX,
    ensures
        nanos == (cycle * 1000) / (frequency as int),
{
    cycle * 1000 / (frequency as u64)
}

} // verus!
