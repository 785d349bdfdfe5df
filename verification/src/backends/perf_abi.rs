//! The numbers of the kernel's performance event interface, as the
//! `perf-event-open-sys` crate declares them.
//!
//! Each function below hands out one constant of that crate's bindings. Its
//! contract states the constant's value; the verifier takes that on trust.

use vstd::prelude::*;

verus! {

/// `perf_event_open_sys::bindings::PERF_TYPE_HARDWARE`, the event type of the kernel's generic hardware events.
/// Trusted: the bindings give it the value 0.
#[verifier::external_body]
pub(crate) fn perf_type_hardware() -> (value: u32)
    ensures
        value == 0,
{
    perf_event_open_sys::bindings::PERF_TYPE_HARDWARE
}

/// `perf_event_open_sys::bindings::PERF_TYPE_SOFTWARE`, the event type of the kernel's software events.
/// Trusted: the bindings give it the value 1.
#[verifier::external_body]
pub(crate) fn perf_type_software() -> (value: u32)
    ensures
        value == 1,
{
    perf_event_open_sys::bindings::PERF_TYPE_SOFTWARE
}

/// `perf_event_open_sys::bindings::PERF_TYPE_RAW`, the event type of events given by their raw hardware encoding.
/// Trusted: the bindings give it the value 4.
#[verifier::external_body]
pub(crate) fn perf_type_raw() -> (value: u32)
    ensures
        value == 4,
{
    perf_event_open_sys::bindings::PERF_TYPE_RAW
}

/// `perf_event_open_sys::bindings::PERF_COUNT_HW_CPU_CYCLES`, the generic hardware event that counts processor cycles.
/// Trusted: the bindings give it the value 0.
#[verifier::external_body]
pub(crate) fn perf_count_hw_cpu_cycles() -> (value: u32)
    ensures
        value == 0,
{
    perf_event_open_sys::bindings::PERF_COUNT_HW_CPU_CYCLES
}

/// `perf_event_open_sys::bindings::PERF_COUNT_HW_INSTRUCTIONS`, the generic hardware event that counts retired instructions.
/// Trusted: the bindings give it the value 1.
#[verifier::external_body]
pub(crate) fn perf_count_hw_instructions() -> (value: u32)
    ensures
        value == 1,
{
    perf_event_open_sys::bindings::PERF_COUNT_HW_INSTRUCTIONS
}

/// `perf_event_open_sys::bindings::PERF_COUNT_HW_CACHE_REFERENCES`, the generic hardware event that counts cache accesses.
/// Trusted: the bindings give it the value 2.
#[verifier::external_body]
pub(crate) fn perf_count_hw_cache_references() -> (value: u32)
    ensures
        value == 2,
{
    perf_event_open_sys::bindings::PERF_COUNT_HW_CACHE_REFERENCES
}

/// `perf_event_open_sys::bindings::PERF_COUNT_HW_CACHE_MISSES`, the generic hardware event that counts cache misses.
/// Trusted: the bindings give it the value 3.
#[verifier::external_body]
pub(crate) fn perf_count_hw_cache_misses() -> (value: u32)
    ensures
        value == 3,
{
    perf_event_open_sys::bindings::PERF_COUNT_HW_CACHE_MISSES
}

/// `perf_event_open_sys::bindings::PERF_COUNT_HW_BRANCH_INSTRUCTIONS`, the generic hardware event that counts retired branch instructions.
/// Trusted: the bindings give it the value 4.
#[verifier::external_body]
pub(crate) fn perf_count_hw_branch_instructions() -> (value: u32)
    ensures
        value == 4,
{
    perf_event_open_sys::bindings::PERF_COUNT_HW_BRANCH_INSTRUCTIONS
}

/// `perf_event_open_sys::bindings::PERF_COUNT_HW_BRANCH_MISSES`, the generic hardware event that counts mispredicted branches.
/// Trusted: the bindings give it the value 5.
#[verifier::external_body]
pub(crate) fn perf_count_hw_branch_misses() -> (value: u32)
    ensures
        value == 5,
{
    perf_event_open_sys::bindings::PERF_COUNT_HW_BRANCH_MISSES
}

/// `perf_event_open_sys::bindings::PERF_COUNT_SW_CPU_CLOCK`, the software event of the per-processor clock.
/// Trusted: the bindings give it the value 0.
#[verifier::external_body]
pub(crate) fn perf_count_sw_cpu_clock() -> (value: u32)
    ensures
        value == 0,
{
    perf_event_open_sys::bindings::PERF_COUNT_SW_CPU_CLOCK
}

/// `perf_event_open_sys::bindings::PERF_COUNT_SW_TASK_CLOCK`, the software event of the per-task clock.
/// Trusted: the bindings give it the value 1.
#[verifier::external_body]
pub(crate) fn perf_count_sw_task_clock() -> (value: u32)
    ensures
        value == 1,
{
    perf_event_open_sys::bindings::PERF_COUNT_SW_TASK_CLOCK
}

/// `perf_event_open_sys::bindings::PERF_COUNT_SW_PAGE_FAULTS`, the software event that counts page faults.
/// Trusted: the bindings give it the value 2.
#[verifier::external_body]
pub(crate) fn perf_count_sw_page_faults() -> (value: u32)
    ensures
        value == 2,
{
    perf_event_open_sys::bindings::PERF_COUNT_SW_PAGE_FAULTS
}

/// `perf_event_open_sys::bindings::PERF_COUNT_SW_CONTEXT_SWITCHES`, the software event that counts context switches.
/// Trusted: the bindings give it the value 3.
#[verifier::external_body]
pub(crate) fn perf_count_sw_context_switches() -> (value: u32)
    ensures
        value == 3,
{
    perf_event_open_sys::bindings::PERF_COUNT_SW_CONTEXT_SWITCHES
}

/// `perf_event_open_sys::bindings::PERF_COUNT_SW_CPU_MIGRATIONS`, the software event that counts migrations between processors.
/// Trusted: the bindings give it the value 4.
#[verifier::external_body]
pub(crate) fn perf_count_sw_cpu_migrations() -> (value: u32)
    ensures
        value == 4,
{
    perf_event_open_sys::bindings::PERF_COUNT_SW_CPU_MIGRATIONS
}

/// `perf_event_open_sys::bindings::PERF_COUNT_SW_PAGE_FAULTS_MIN`, the software event that counts minor page faults.
/// Trusted: the bindings give it the value 5.
#[verifier::external_body]
pub(crate) fn perf_count_sw_page_faults_min() -> (value: u32)
    ensures
        value == 5,
{
    perf_event_open_sys::bindings::PERF_COUNT_SW_PAGE_FAULTS_MIN
}

/// `perf_event_open_sys::bindings::PERF_COUNT_SW_PAGE_FAULTS_MAJ`, the software event that counts major page faults.
/// Trusted: the bindings give it the value 6.
#[verifier::external_body]
pub(crate) fn perf_count_sw_page_faults_maj() -> (value: u32)
    ensures
        value == 6,
{
    perf_event_open_sys::bindings::PERF_COUNT_SW_PAGE_FAULTS_MAJ
}

/// `perf_event_open_sys::bindings::PERF_COUNT_SW_ALIGNMENT_FAULTS`, the software event that counts alignment faults.
/// Trusted: the bindings give it the value 7.
#[verifier::external_body]
pub(crate) fn perf_count_sw_alignment_faults() -> (value: u32)
    ensures
        value == 7,
{
    perf_event_open_sys::bindings::PERF_COUNT_SW_ALIGNMENT_FAULTS
}

/// `perf_event_open_sys::bindings::PERF_COUNT_SW_EMULATION_FAULTS`, the software event that counts emulation faults.
/// Trusted: the bindings give it the value 8.
#[verifier::external_body]
pub(crate) fn perf_count_sw_emulation_faults() -> (value: u32)
    ensures
        value == 8,
{
    perf_event_open_sys::bindings::PERF_COUNT_SW_EMULATION_FAULTS
}

/// `perf_event_open_sys::bindings::PERF_COUNT_SW_DUMMY`, the software event that counts nothing.
/// Trusted: the bindings give it the value 9.
#[verifier::external_body]
pub(crate) fn perf_count_sw_dummy() -> (value: u32)
    ensures
        value == 9,
{
    perf_event_open_sys::bindings::PERF_COUNT_SW_DUMMY
}

/// `perf_event_open_sys::bindings::PERF_FORMAT_TOTAL_TIME_ENABLED`, the read format bit that adds the time for which an event was enabled.
/// Trusted: the bindings give it the value 1.
#[verifier::external_body]
pub(crate) fn perf_format_total_time_enabled() -> (value: u32)
    ensures
        value == 1,
{
    perf_event_open_sys::bindings::PERF_FORMAT_TOTAL_TIME_ENABLED
}

/// `perf_event_open_sys::bindings::PERF_FORMAT_TOTAL_TIME_RUNNING`, the read format bit that adds the time for which an event was counting.
/// Trusted: the bindings give it the value 2.
#[verifier::external_body]
pub(crate) fn perf_format_total_time_running() -> (value: u32)
    ensures
        value == 2,
{
    perf_event_open_sys::bindings::PERF_FORMAT_TOTAL_TIME_RUNNING
}

/// `perf_event_open_sys::bindings::PERF_FORMAT_ID`, the read format bit that adds each event's identifier.
/// Trusted: the bindings give it the value 4.
#[verifier::external_body]
pub(crate) fn perf_format_id() -> (value: u32)
    ensures
        value == 4,
{
    perf_event_open_sys::bindings::PERF_FORMAT_ID
}

/// `perf_event_open_sys::bindings::PERF_FORMAT_GROUP`, the read format bit that reads a whole group at once.
/// Trusted: the bindings give it the value 8.
#[verifier::external_body]
pub(crate) fn perf_format_group() -> (value: u32)
    ensures
        value == 8,
{
    perf_event_open_sys::bindings::PERF_FORMAT_GROUP
}

/// `perf_event_open_sys::bindings::PERF_IOC_FLAG_GROUP`, the ioctl argument that applies a request to a whole group.
/// Trusted: the bindings give it the value 1.
#[verifier::external_body]
pub(crate) fn perf_ioc_flag_group() -> (value: u32)
    ensures
        value == 1,
{
    perf_event_open_sys::bindings::PERF_IOC_FLAG_GROUP
}

} // verus!
