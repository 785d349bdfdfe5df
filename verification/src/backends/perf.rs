//! The backend for the Linux kernel's performance events.

use crate::backends::host::{Fault, HostCall, HostReply, PerfEventAttr, Reply};
use crate::backends::perf_abi::{
    perf_count_hw_branch_instructions, perf_count_hw_branch_misses,
    perf_count_hw_cache_misses, perf_count_hw_cache_references, perf_count_hw_cpu_cycles,
    perf_count_hw_instructions, perf_format_group, perf_format_id,
    perf_format_total_time_enabled, perf_format_total_time_running, perf_ioc_flag_group,
    perf_type_hardware, perf_type_raw, perf_type_software,
    perf_count_sw_alignment_faults, perf_count_sw_context_switches, perf_count_sw_cpu_clock,
    perf_count_sw_cpu_migrations, perf_count_sw_dummy, perf_count_sw_emulation_faults,
    perf_count_sw_page_faults, perf_count_sw_page_faults_maj, perf_count_sw_page_faults_min,
    perf_count_sw_task_clock,
};
use crate::backends::perf_record::{read_value, value_of};
use crate::counter::{
    creation_order, kinds_of, requested_kinds, requests, CacheCounterKind, CacheLevelKind,
    CounterKind, CounterValue, CountersGroup, StandaloneCounter, SystemCounter,
    SystemCounterKind,
};
use vstd::prelude::*;

verus! {

/// A software event of the kernel, under the given name.
pub open spec fn software_event(name: &'static str, desc: &'static str, encoding: u64) -> SystemCounter {
    SystemCounter { kind: SystemCounterKind::Software, name, desc, encoding }
}

/// The software events that the kernel offers on every processor, each with
/// its number in the kernel's interface.
pub open spec fn software_events() -> Seq<SystemCounter> {
    seq![
        software_event("cpu_clock", "A high-resolution per-CPU timer", 0),
        software_event("task_clock", "Clock count specific to the task that is running", 1),
        software_event("page_faults", "Number of page faults", 2),
        software_event("context_switches", "Number of context switches", 3),
        software_event(
            "cpu_migrations",
            "Number of times the process has migrated to a new CPU",
            4,
        ),
        software_event("page_faults_min", "Number of minor page faults", 5),
        software_event("page_faults_maj", "Number of major page faults", 6),
        software_event("alignment_faults", "Number of unaligned memory accesses", 7),
        software_event("emulation_faults", "Number of emulation faults", 8),
        software_event("dummy", "A placeholder event", 9),
    ]
}

fn software(name: &'static str, desc: &'static str, number: u32) -> (event: SystemCounter)
    ensures
        event == software_event(name, desc, number as u64),
{
    SystemCounter { kind: SystemCounterKind::Software, name, desc, encoding: number as u64 }
}

pub fn get_software_events() -> (events: Vec<SystemCounter>)
    ensures
        events@ == software_events(),
{
    let mut events: Vec<SystemCounter> = Vec::new();
    events.push(software("cpu_clock", "A high-resolution per-CPU timer", perf_count_sw_cpu_clock()));
    events.push(
        software(
            "task_clock",
            "Clock count specific to the task that is running",
            perf_count_sw_task_clock(),
        ),
    );
    events.push(software("page_faults", "Number of page faults", perf_count_sw_page_faults()));
    events.push(
        software(
            "context_switches",
            "Number of context switches",
            perf_count_sw_context_switches(),
        ),
    );
    events.push(
        software(
            "cpu_migrations",
            "Number of times the process has migrated to a new CPU",
            perf_count_sw_cpu_migrations(),
        ),
    );
    events.push(
        software(
            "page_faults_min",
            "Number of minor page faults",
            perf_count_sw_page_faults_min(),
        ),
    );
    events.push(
        software(
            "page_faults_maj",
            "Number of major page faults",
            perf_count_sw_page_faults_maj(),
        ),
    );
    events.push(
        software(
            "alignment_faults",
            "Number of unaligned memory accesses",
            perf_count_sw_alignment_faults(),
        ),
    );
    events.push(
        software(
            "emulation_faults",
            "Number of emulation faults",
            perf_count_sw_emulation_faults(),
        ),
    );
    events.push(software("dummy", "A placeholder event", perf_count_sw_dummy()));
    assert(events@ =~= software_events());
    events
}

/// The bytes asked of the kernel when a group is read.
pub const READ_BUFFER_SIZE: usize = 8192;

/// The most counters that one group can hold: as many as a read of
/// `READ_BUFFER_SIZE` bytes returns in full.
pub const MAX_GROUP_COUNTERS: usize = 510;

pub const TOO_MANY_COUNTERS: &'static str = "Only 510 counters per group are supported right now";

pub const OPEN_FAILED: &'static str = "Failed to open file descriptor";

pub const ID_FAILED: &'static str = "Failed to acquire event ID";

pub const RESET_FAILED: &'static str = "Failed to reset counters";

pub const ENABLE_FAILED: &'static str = "Failed to start profiling";

pub const RESUME_FAILED: &'static str = "Failed to continue the process";

pub const DISABLE_FAILED: &'static str = "Failed to stop profiling";

pub const READ_FAILED: &'static str = "Failed to read output data";

/// The event type and configuration that the kernel knows a counter by, for
/// the counters that the kernel can count.
///
/// The generic hardware events stand for cycles, instructions, branches and
/// branch misses, and for the accesses and the misses of the last-level
/// cache. A catalogued counter is a software event or a raw hardware event,
/// by its kind, and its encoding is the configuration.
pub open spec fn event_selector(kind: CounterKind) -> Option<(u32, u64)> {
    match kind {
        CounterKind::Cycles => Some((0u32, 0u64)),
        CounterKind::Instructions => Some((0u32, 1u64)),
        CounterKind::Branches => Some((0u32, 4u64)),
        CounterKind::BranchMisses => Some((0u32, 5u64)),
        CounterKind::Cache(cache) => if cache.level == CacheLevelKind::Last {
            match cache.kind {
                CacheCounterKind::Hit => Some((0u32, 2u64)),
                CacheCounterKind::Miss => Some((0u32, 3u64)),
            }
        } else {
            None
        },
        CounterKind::System(counter) => match counter.kind {
            SystemCounterKind::Software => Some((1u32, counter.encoding)),
            SystemCounterKind::Hardware => Some((4u32, counter.encoding)),
        },
    }
}

/// The format in which a group is read: the whole group at once, with each
/// member's identifier and with the times enabled and running.
pub const READ_FORMAT: u64 = 15;

/// The attribute record with which a counter is opened: disabled, counting
/// in user mode only, inherited by children.
pub open spec fn event_attr(kind: CounterKind) -> Option<PerfEventAttr> {
    match event_selector(kind) {
        Some((type_, config)) => Some(
            PerfEventAttr {
                type_,
                config,
                read_format: READ_FORMAT,
                disabled: true,
                exclude_kernel: true,
                exclude_hv: true,
                inherit: true,
            },
        ),
        None => None,
    }
}

/// The event type and configuration of a counter.
pub fn select_event(kind: &CounterKind) -> (selector: Option<(u32, u64)>)
    ensures
        selector == event_selector(*kind),
{
    match kind {
        CounterKind::Cycles => Some((perf_type_hardware(), perf_count_hw_cpu_cycles() as u64)),
        CounterKind::Instructions => Some(
            (perf_type_hardware(), perf_count_hw_instructions() as u64),
        ),
        CounterKind::Branches => Some(
            (perf_type_hardware(), perf_count_hw_branch_instructions() as u64),
        ),
        CounterKind::BranchMisses => Some(
            (perf_type_hardware(), perf_count_hw_branch_misses() as u64),
        ),
        CounterKind::Cache(cache) => match cache.level {
            CacheLevelKind::Last => match cache.kind {
                CacheCounterKind::Hit => Some(
                    (perf_type_hardware(), perf_count_hw_cache_references() as u64),
                ),
                CacheCounterKind::Miss => Some(
                    (perf_type_hardware(), perf_count_hw_cache_misses() as u64),
                ),
            },
            _ => None,
        },
        CounterKind::System(counter) => match counter.kind {
            SystemCounterKind::Software => Some((perf_type_software(), counter.encoding)),
            SystemCounterKind::Hardware => Some((perf_type_raw(), counter.encoding)),
        },
    }
}

/// The attribute record with which a counter is opened.
pub fn attr_for(kind: &CounterKind) -> (attr: Option<PerfEventAttr>)
    ensures
        attr == event_attr(*kind),
{
    match select_event(kind) {
        Some((type_, config)) => {
            let group: u64 = perf_format_group() as u64;
            let id: u64 = perf_format_id() as u64;
            let enabled: u64 = perf_format_total_time_enabled() as u64;
            let running: u64 = perf_format_total_time_running() as u64;
            assert(8u64 | 4u64 | 1u64 | 2u64 == 15u64) by (bit_vector);
            Some(
                PerfEventAttr {
                    type_,
                    config,
                    read_format: group | id | enabled | running,
                    disabled: true,
                    exclude_kernel: true,
                    exclude_hv: true,
                    inherit: true,
                },
            )
        },
        None => None,
    }
}

/// The Linux backend. It holds no state of its own: every counter set that it
/// creates stands alone.
#[derive(Debug, Clone, Copy)]
pub struct PerfBackend {}

/// What binds one requested counter to the kernel's event for it.
#[derive(Debug, Clone, Copy)]
pub struct NativeCounterHandle {
    /// The counter that was asked for.
    pub kind: CounterKind,
    /// The attribute record that the event is opened with.
    pub attr: PerfEventAttr,
    /// The event's file descriptor, once it is open.
    pub fd: i32,
    /// The kernel's identifier of the event, once it is known.
    pub id: u64,
    /// The position of the first counter of this counter's group.
    pub leader: usize,
    /// The position of this counter's group among the groups.
    pub group: usize,
}

/// Where a set of counters stands.
#[derive(Debug, Clone, Copy, PartialEq, Eq, Structural)]
pub enum PerfPhase {
    /// The event of counter `slot` is being opened: the system call is due,
    /// or, once the event is `opened`, the request for its identifier.
    Opening { slot: usize, opened: bool },
    /// An event could not be opened. The set is of no use.
    Failed,
    /// Every event is open and nothing has been measured.
    Idle,
    /// Starting: the reset of group `group` is due.
    Resetting { group: usize },
    /// Starting: the enabling of group `group` is due.
    Enabling { group: usize },
    /// Starting: the target process is to continue.
    Resuming,
    /// The events are counting.
    Running,
    /// Stopping: the disabling of group `group` is due.
    Disabling { group: usize },
    /// Stopping: the read of group `group` is due.
    Reading { group: usize },
    /// An interval has been measured and its values can be had.
    Stopped,
    /// An operation failed after the events were open. Nothing can be said
    /// of the events any more.
    Aborted,
    /// Releasing: the event of counter `slot` is to be closed.
    Closing { slot: usize },
    /// Every event that was open is closed.
    Released,
}

/// The mathematical content of a set of counters.
pub struct PerfState {
    /// One handle for each requested counter, in the order of the request.
    pub handles: Seq<NativeCounterHandle>,
    /// For each group, the position of its first counter.
    pub leaders: Seq<usize>,
    /// For each group, the record that was last read of it.
    pub buffers: Seq<Seq<u8>>,
    /// The process that is measured; zero for the calling process.
    pub pid: i32,
    /// The number of events that are open: those of the first counters.
    pub open: usize,
    pub phase: PerfPhase,
}

impl PerfState {
    pub open spec fn wf(self) -> bool {
        &&& self.handles.len() <= usize::MAX
        &&& self.leaders.len() <= usize::MAX
        &&& self.open <= self.handles.len()
        &&& self.buffers.len() == self.leaders.len()
        &&& forall|i: int|
            0 <= i < self.handles.len() ==> {
                &&& (#[trigger] self.handles[i]).group < self.leaders.len()
                &&& self.leaders[self.handles[i].group as int] == self.handles[i].leader
                &&& self.handles[i].leader <= i
            }
        &&& forall|g: int|
            0 <= g < self.leaders.len() ==> {
                &&& (#[trigger] self.leaders[g]) < self.handles.len()
                &&& self.handles[self.leaders[g] as int].leader == self.leaders[g]
            }
        &&& match self.phase {
            PerfPhase::Opening { slot, opened } => slot < self.handles.len(),
            PerfPhase::Resetting { group } => group < self.leaders.len(),
            PerfPhase::Enabling { group } => group < self.leaders.len(),
            PerfPhase::Disabling { group } => group < self.leaders.len(),
            PerfPhase::Reading { group } => group < self.leaders.len(),
            PerfPhase::Closing { slot } => slot < self.open,
            _ => true,
        }
    }

    /// The kinds of the counters, in the order of the request.
    pub open spec fn kinds(self) -> Seq<CounterKind> {
        self.handles.map_values(|handle: NativeCounterHandle| handle.kind)
    }

    /// The file descriptor of the leader of group `group`.
    pub open spec fn leader_fd(self, group: int) -> i32 {
        self.handles[self.leaders[group] as int].fd
    }

    /// The file descriptor that counter `slot` is opened under: none for the
    /// first counter of a group, which becomes the group's leader, and the
    /// leader's for every other.
    pub open spec fn group_fd(self, slot: int) -> i32 {
        if self.handles[slot].leader == slot {
            -1i32
        } else {
            self.handles[self.handles[slot].leader as int].fd
        }
    }

    /// The operation that the host is to carry out now, if any is due.
    pub open spec fn pending(self) -> Option<HostCall> {
        match self.phase {
            PerfPhase::Opening { slot, opened } => if opened {
                Some(HostCall::PerfEventId { fd: self.handles[slot as int].fd })
            } else {
                Some(
                    HostCall::PerfEventOpen {
                        attr: self.handles[slot as int].attr,
                        pid: self.pid,
                        cpu: -1i32,
                        group_fd: self.group_fd(slot as int),
                        flags: 0,
                    },
                )
            },
            PerfPhase::Resetting { group } => Some(
                HostCall::PerfEventReset { fd: self.leader_fd(group as int), flags: 1 },
            ),
            PerfPhase::Enabling { group } => Some(
                HostCall::PerfEventEnable { fd: self.leader_fd(group as int), flags: 1 },
            ),
            PerfPhase::Resuming => Some(HostCall::PtraceCont { pid: self.pid }),
            PerfPhase::Disabling { group } => Some(
                HostCall::PerfEventDisable { fd: self.leader_fd(group as int), flags: 1 },
            ),
            PerfPhase::Reading { group } => Some(
                HostCall::Read { fd: self.leader_fd(group as int), count: READ_BUFFER_SIZE },
            ),
            PerfPhase::Closing { slot } => Some(
                HostCall::Close { fd: self.handles[slot as int].fd },
            ),
            _ => None,
        }
    }

    /// The same counters in another phase.
    pub open spec fn at(self, phase: PerfPhase) -> PerfState {
        PerfState { phase, ..self }
    }

    /// The counters once the event of counter `slot` is open under `fd`.
    pub open spec fn with_fd(self, slot: int, fd: i32) -> PerfState {
        PerfState {
            handles: self.handles.update(slot, NativeCounterHandle { fd, ..self.handles[slot] }),
            open: (slot + 1) as usize,
            ..self
        }
    }

    pub open spec fn with_id(self, slot: int, id: u64) -> PerfState {
        PerfState {
            handles: self.handles.update(slot, NativeCounterHandle { id, ..self.handles[slot] }),
            ..self
        }
    }

    pub open spec fn with_buffer(self, group: int, bytes: Seq<u8>) -> PerfState {
        PerfState { buffers: self.buffers.update(group, bytes), ..self }
    }

    /// The phase after the last group was enabled: the target process
    /// continues if there is one, and then the events are counting.
    pub open spec fn enabled_phase(self) -> PerfPhase {
        if self.pid != 0 {
            PerfPhase::Resuming
        } else {
            PerfPhase::Running
        }
    }

    /// Whether the counters can be started: every event is open and no
    /// operation is under way.
    pub open spec fn ready(self) -> bool {
        self.phase == PerfPhase::Idle || self.phase == PerfPhase::Running || self.phase
            == PerfPhase::Stopped
    }

    /// The counters once a start has been asked for. Every group is reset,
    /// then every group is enabled, each in the order of the request; then
    /// the target process continues. Counters that are not ready stay as
    /// they are.
    pub open spec fn started(self) -> PerfState {
        if !self.ready() {
            self
        } else if self.leaders.len() > 0 {
            self.at(PerfPhase::Resetting { group: 0 })
        } else {
            self.at(self.enabled_phase())
        }
    }

    /// The counters once a stop has been asked for. Every group is
    /// disabled, then every group is read. Counters that are not running
    /// stay as they are.
    pub open spec fn stopped(self) -> PerfState {
        if self.phase != PerfPhase::Running {
            self
        } else if self.leaders.len() > 0 {
            self.at(PerfPhase::Disabling { group: 0 })
        } else {
            self.at(PerfPhase::Stopped)
        }
    }

    /// The counters once their release has been asked for. Every event that
    /// is open is closed, in the order in which the events were opened,
    /// whatever the counters were doing. Counters that are being released,
    /// or were, stay as they are.
    pub open spec fn released(self) -> PerfState {
        if self.phase is Closing || self.phase is Released {
            self
        } else if self.open > 0 {
            self.at(PerfPhase::Closing { slot: 0 })
        } else {
            self.at(PerfPhase::Released)
        }
    }

    /// The counters after the host's reply to the pending operation, and the
    /// fault that the reply amounts to, if it does. A reply that nothing
    /// asked for changes nothing, and what the host says of a close is of
    /// no account.
    pub open spec fn resumed(self, reply: Reply) -> (PerfState, Option<Fault>) {
        match self.phase {
            PerfPhase::Opening { slot, opened } => if !opened {
                if 0 <= reply.status <= i32::MAX {
                    (
                        self.with_fd(slot as int, reply.status as i32).at(
                            PerfPhase::Opening { slot, opened: true },
                        ),
                        None,
                    )
                } else {
                    (self.at(PerfPhase::Failed), Some(Fault { fatal: false, message: OPEN_FAILED }))
                }
            } else {
                if reply.status >= 0 && reply.words.len() > 0 {
                    (
                        self.with_id(slot as int, reply.words[0]).at(
                        if slot + 1 < self.handles.len() {
                                PerfPhase::Opening { slot: (slot + 1) as usize, opened: false }
                            } else {
                                PerfPhase::Idle
                            },
                        ),
                        None,
                    )
                } else {
                    (self.at(PerfPhase::Failed), Some(Fault { fatal: false, message: ID_FAILED }))
                }
            },
            PerfPhase::Resetting { group } => if reply.status < 0 {
                (self.at(PerfPhase::Aborted), Some(Fault { fatal: true, message: RESET_FAILED }))
            } else if group + 1 < self.leaders.len() {
                (self.at(PerfPhase::Resetting { group: (group + 1) as usize }), None)
            } else {
                (self.at(PerfPhase::Enabling { group: 0 }), None)
            },
            PerfPhase::Enabling { group } => if reply.status < 0 {
                (self.at(PerfPhase::Aborted), Some(Fault { fatal: true, message: ENABLE_FAILED }))
            } else if group + 1 < self.leaders.len() {
                (self.at(PerfPhase::Enabling { group: (group + 1) as usize }), None)
            } else {
                (self.at(self.enabled_phase()), None)
            },
            PerfPhase::Resuming => if reply.status < 0 {
                (self.at(PerfPhase::Aborted), Some(Fault { fatal: true, message: RESUME_FAILED }))
            } else {
                (self.at(PerfPhase::Running), None)
            },
            PerfPhase::Disabling { group } => if reply.status < 0 {
                (self.at(PerfPhase::Aborted), Some(Fault { fatal: true, message: DISABLE_FAILED }))
            } else if group + 1 < self.leaders.len() {
                (self.at(PerfPhase::Disabling { group: (group + 1) as usize }), None)
            } else {
                (self.at(PerfPhase::Reading { group: 0 }), None)
            },
            PerfPhase::Reading { group } => if reply.status < 0 {
                (self.at(PerfPhase::Aborted), Some(Fault { fatal: true, message: READ_FAILED }))
            } else {
                (
                    self.with_buffer(group as int, reply.bytes).at(
                    if group + 1 < self.leaders.len() {
                            PerfPhase::Reading { group: (group + 1) as usize }
                        } else {
                            PerfPhase::Stopped
                        },
                    ),
                    None,
                )
            },
            PerfPhase::Closing { slot } => if slot + 1 < self.open {
                (self.at(PerfPhase::Closing { slot: (slot + 1) as usize }), None)
            } else {
                (self.at(PerfPhase::Released), None)
            },
            _ => (self, None),
        }
    }

    /// The value of the counter at position `index` of the request: after a
    /// completed interval, the corrected count of the member of its group's
    /// record that bears its identifier. There is no value at any other
    /// time, for any other position, or where the record holds no such
    /// member.
    pub open spec fn peeked(self, index: int) -> Option<CounterValue> {
        if self.phase == PerfPhase::Stopped && 0 <= index < self.handles.len() {
            match value_of(
                self.buffers[self.handles[index].group as int],
                self.handles[index].id,
            ) {
                Some(value) => Some(CounterValue { kind: self.handles[index].kind, value }),
                None => None,
            }
        } else {
            None
        }
    }
}

/// A set of counters of the Linux backend.
pub struct PerfCounters {
    handles: Vec<NativeCounterHandle>,
    leaders: Vec<usize>,
    buffers: Vec<Vec<u8>>,
    pid: i32,
    open: usize,
    phase: PerfPhase,
}

impl View for PerfCounters {
    type V = PerfState;

    closed spec fn view(&self) -> PerfState {
        PerfState {
            handles: self.handles@,
            leaders: self.leaders@,
            buffers: Seq::new(self.buffers@.len(), |g: int| self.buffers@[g]@),
            pid: self.pid,
            open: self.open,
            phase: self.phase,
        }
    }
}

impl PerfCounters {
    /// The operation that the host is to carry out now, if any is due.
    pub fn request(&self) -> (call: Option<HostCall>)
        requires
            self@.wf(),
        ensures
            call == self@.pending(),
    {
        match self.phase {
            PerfPhase::Opening { slot, opened } => {
                let handle = self.handles[slot];
                if opened {
                    Some(HostCall::PerfEventId { fd: handle.fd })
                } else {
                    let group_fd: i32 = if handle.leader == slot {
                        -1
                    } else {
                        self.handles[handle.leader].fd
                    };
                    Some(
                        HostCall::PerfEventOpen {
                            attr: handle.attr,
                            pid: self.pid,
                            cpu: -1,
                            group_fd,
                            flags: 0,
                        },
                    )
                }
            },
            PerfPhase::Resetting { group } => Some(
                HostCall::PerfEventReset { fd: self.leader_fd(group), flags: perf_ioc_flag_group() },
            ),
            PerfPhase::Enabling { group } => Some(
                HostCall::PerfEventEnable {
                    fd: self.leader_fd(group),
                    flags: perf_ioc_flag_group(),
                },
            ),
            PerfPhase::Resuming => Some(HostCall::PtraceCont { pid: self.pid }),
            PerfPhase::Disabling { group } => Some(
                HostCall::PerfEventDisable {
                    fd: self.leader_fd(group),
                    flags: perf_ioc_flag_group(),
                },
            ),
            PerfPhase::Reading { group } => Some(
                HostCall::Read { fd: self.leader_fd(group), count: READ_BUFFER_SIZE },
            ),
            PerfPhase::Closing { slot } => Some(HostCall::Close { fd: self.handles[slot].fd }),
            _ => None,
        }
    }

    fn leader_fd(&self, group: usize) -> (fd: i32)
        requires
            self@.wf(),
            group < self@.leaders.len(),
        ensures
            fd == self@.leader_fd(group as int),
    {
        self.handles[self.leaders[group]].fd
    }

    /// Asks for the counters to be started.
    pub fn start(&mut self)
        requires
            old(self)@.wf(),
        ensures
            final(self)@.wf(),
            final(self)@ == old(self)@.started(),
    {
        match self.phase {
            PerfPhase::Idle | PerfPhase::Running | PerfPhase::Stopped => {
                if self.leaders.len() > 0 {
                    self.phase = PerfPhase::Resetting { group: 0 };
                } else {
                    self.phase = self.after_enabling();
                }
            },
            _ => {},
        }
    }

    fn after_enabling(&self) -> (phase: PerfPhase)
        ensures
            phase == self@.enabled_phase(),
    {
        if self.pid != 0 {
            PerfPhase::Resuming
        } else {
            PerfPhase::Running
        }
    }

    /// Asks for the counters to be stopped and read.
    pub fn stop(&mut self)
        requires
            old(self)@.wf(),
        ensures
            final(self)@.wf(),
            final(self)@ == old(self)@.stopped(),
    {
        match self.phase {
            PerfPhase::Running => {
                if self.leaders.len() > 0 {
                    self.phase = PerfPhase::Disabling { group: 0 };
                } else {
                    self.phase = PerfPhase::Stopped;
                }
            },
            _ => {},
        }
    }

    /// Takes the host's reply to the pending operation.
    pub fn resume(&mut self, reply: HostReply) -> (outcome: Result<(), Fault>)
        requires
            old(self)@.wf(),
        ensures
            final(self)@.wf(),
            final(self)@ == old(self)@.resumed(reply@).0,
            outcome == match old(self)@.resumed(reply@).1 {
                Some(fault) => Err::<(), Fault>(fault),
                None => Ok::<(), Fault>(()),
            },
    {
        match self.phase {
            PerfPhase::Opening { slot, opened } => {
                let handle = self.handles[slot];
                if !opened {
                    if 0 <= reply.status && reply.status <= i32::MAX as i64 {
                        let fd: i32 = reply.status as i32;
                        self.handles.set(slot, NativeCounterHandle { fd, ..handle });
                        self.open = slot + 1;
                        self.phase = PerfPhase::Opening { slot, opened: true };
                        assert(self@ =~= old(self)@.resumed(reply@).0);
                        Ok(())
                    } else {
                        self.phase = PerfPhase::Failed;
                        assert(self@ =~= old(self)@.resumed(reply@).0);
                        Err(Fault { fatal: false, message: OPEN_FAILED })
                    }
                } else {
                    if reply.status >= 0 && reply.words.len() > 0 {
                        let id: u64 = reply.words[0];
                        self.handles.set(slot, NativeCounterHandle { id, ..handle });
                        let count = self.handles.len();
                        if slot + 1 < count {
                            self.phase = PerfPhase::Opening { slot: slot + 1, opened: false };
                        } else {
                            self.phase = PerfPhase::Idle;
                        }
                        assert(self@ =~= old(self)@.resumed(reply@).0);
                        Ok(())
                    } else {
                        self.phase = PerfPhase::Failed;
                        assert(self@ =~= old(self)@.resumed(reply@).0);
                        Err(Fault { fatal: false, message: ID_FAILED })
                    }
                }
            },
            PerfPhase::Resetting { group } => {
                if reply.status < 0 {
                    self.abort(RESET_FAILED)
                } else {
                    let count = self.leaders.len();
                    if group + 1 < count {
                        self.phase = PerfPhase::Resetting { group: group + 1 };
                    } else {
                        self.phase = PerfPhase::Enabling { group: 0 };
                    }
                    assert(self@ =~= old(self)@.resumed(reply@).0);
                    Ok(())
                }
            },
            PerfPhase::Enabling { group } => {
                if reply.status < 0 {
                    self.abort(ENABLE_FAILED)
                } else {
                    let count = self.leaders.len();
                    if group + 1 < count {
                        self.phase = PerfPhase::Enabling { group: group + 1 };
                    } else {
                        self.phase = self.after_enabling();
                    }
                    assert(self@ =~= old(self)@.resumed(reply@).0);
                    Ok(())
                }
            },
            PerfPhase::Resuming => {
                if reply.status < 0 {
                    self.abort(RESUME_FAILED)
                } else {
                    self.phase = PerfPhase::Running;
                    assert(self@ =~= old(self)@.resumed(reply@).0);
                    Ok(())
                }
            },
            PerfPhase::Disabling { group } => {
                if reply.status < 0 {
                    self.abort(DISABLE_FAILED)
                } else {
                    let count = self.leaders.len();
                    if group + 1 < count {
                        self.phase = PerfPhase::Disabling { group: group + 1 };
                    } else {
                        self.phase = PerfPhase::Reading { group: 0 };
                    }
                    assert(self@ =~= old(self)@.resumed(reply@).0);
                    Ok(())
                }
            },
            PerfPhase::Reading { group } => {
                if reply.status < 0 {
                    self.abort(READ_FAILED)
                } else {
                    self.buffers.set(group, reply.bytes);
                    let count = self.leaders.len();
                    if group + 1 < count {
                        self.phase = PerfPhase::Reading { group: group + 1 };
                    } else {
                        self.phase = PerfPhase::Stopped;
                    }
                    assert(self@.buffers =~= old(self)@.buffers.update(group as int, reply@.bytes));
                    assert(self@ =~= old(self)@.resumed(reply@).0);
                    Ok(())
                }
            },
            PerfPhase::Closing { slot } => {
                if slot + 1 < self.open {
                    self.phase = PerfPhase::Closing { slot: slot + 1 };
                } else {
                    self.phase = PerfPhase::Released;
                }
                assert(self@ =~= old(self)@.resumed(reply@).0);
                Ok(())
            },
            _ => Ok(()),
        }
    }

    /// Asks for the events to be closed.
    pub fn release(&mut self)
        requires
            old(self)@.wf(),
        ensures
            final(self)@.wf(),
            final(self)@ == old(self)@.released(),
    {
        match self.phase {
            PerfPhase::Closing { slot } => {},
            PerfPhase::Released => {},
            _ => {
                if self.open > 0 {
                    self.phase = PerfPhase::Closing { slot: 0 };
                } else {
                    self.phase = PerfPhase::Released;
                }
            },
        }
    }

    fn abort(&mut self, message: &'static str) -> (outcome: Result<(), Fault>)
        requires
            old(self)@.wf(),
        ensures
            final(self)@.wf(),
            final(self)@ == old(self)@.at(PerfPhase::Aborted),
            outcome == Err::<(), Fault>(Fault { fatal: true, message }),
    {
        self.phase = PerfPhase::Aborted;
        assert(self@ =~= old(self)@.at(PerfPhase::Aborted));
        Err(Fault { fatal: true, message })
    }

    /// The value of the counter at position `id` of the request.
    pub fn peek(&self, id: usize) -> (value: Option<CounterValue>)
        requires
            self@.wf(),
        ensures
            value == self@.peeked(id as int),
    {
        match self.phase {
            PerfPhase::Stopped => {
                if id >= self.handles.len() {
                    return None;
                }
                let handle = self.handles[id];
                match read_value(self.buffers[handle.group].as_slice(), handle.id) {
                    Some(value) => Some(CounterValue { kind: handle.kind, value }),
                    None => None,
                }
            },
            _ => None,
        }
    }
}

/// Whether the kernel can count a counter.
pub open spec fn supports(kind: CounterKind) -> bool {
    event_selector(kind).is_some()
}

/// Whether every requested counter is one that the kernel can count.
pub open spec fn supports_all(groups: Seq<Seq<StandaloneCounter>>) -> bool {
    forall|g: int, e: int|
        0 <= g < groups.len() && 0 <= e < groups[g].len() ==> supports(
            (#[trigger] groups[g][e]).counter,
        )
}

/// Whether no group holds more counters than a group can.
pub open spec fn fits(groups: Seq<Seq<StandaloneCounter>>) -> bool {
    forall|g: int| 0 <= g < groups.len() ==> (#[trigger] groups[g]).len() <= MAX_GROUP_COUNTERS
}

/// The handle of a counter whose event is not open yet.
pub open spec fn fresh_handle(kind: CounterKind, leader: usize, group: usize) -> NativeCounterHandle {
    NativeCounterHandle { kind, attr: event_attr(kind).unwrap(), fd: -1i32, id: 0, leader, group }
}

/// The handles of the first `n` groups of a request: one for each counter,
/// group after group. All the counters of a group name the group's first
/// counter as their leader.
pub open spec fn planned_handles(groups: Seq<Seq<StandaloneCounter>>, n: int) -> Seq<NativeCounterHandle>
    decreases n,
{
    if n <= 0 {
        Seq::empty()
    } else {
        let before = planned_handles(groups, n - 1);
        let group = planned_leaders(groups, n - 1).len();
        before + Seq::new(
            groups[n - 1].len(),
            |e: int| fresh_handle(groups[n - 1][e].counter, before.len() as usize, group as usize),
        )
    }
}

/// The positions of the leaders of the first `n` groups of a request. A
/// group without counters has no leader and is passed over.
pub open spec fn planned_leaders(groups: Seq<Seq<StandaloneCounter>>, n: int) -> Seq<usize>
    decreases n,
{
    if n <= 0 {
        Seq::empty()
    } else if groups[n - 1].len() == 0 {
        planned_leaders(groups, n - 1)
    } else {
        planned_leaders(groups, n - 1).push(planned_handles(groups, n - 1).len() as usize)
    }
}

/// The process that a request is about: the calling process where none is
/// named.
pub open spec fn target(pid: Option<i32>) -> i32 {
    match pid {
        Some(pid) => pid,
        None => 0,
    }
}

/// The counters that a request creates: no event is open yet, and the first
/// counter's is the first to be opened.
pub open spec fn planned(pid: Option<i32>, groups: Seq<Seq<StandaloneCounter>>) -> PerfState {
    let handles = planned_handles(groups, groups.len() as int);
    let leaders = planned_leaders(groups, groups.len() as int);
    PerfState {
        handles,
        leaders,
        buffers: Seq::new(leaders.len(), |g: int| Seq::<u8>::empty()),
        pid: target(pid),
        open: 0,
        phase: if handles.len() > 0 {
            PerfPhase::Opening { slot: 0, opened: false }
        } else {
            PerfPhase::Idle
        },
    }
}

impl PerfBackend {
    pub fn new() -> (backend: PerfBackend) {
        PerfBackend {  }
    }

    /// Whether the kernel can count a counter.
    pub fn is_supported(kind: &CounterKind) -> (supported: bool)
        ensures
            supported == supports(*kind),
    {
        select_event(kind).is_some()
    }

    /// Plans the counters of a request. Nothing is asked of the kernel
    /// here: the events are opened one by one as the host answers the
    /// requests of the counters that are returned.
    ///
    /// A request with a group that holds more than `MAX_GROUP_COUNTERS`
    /// counters is refused.
    pub fn create_counters(&self, pid: Option<i32>, groups: &[CountersGroup]) -> (created: Result<
        PerfCounters,
        String,
    >)
        requires
            supports_all(requests(groups@)),
        ensures
            match created {
                Ok(counters) => fits(requests(groups@)) && counters@ == planned(pid, requests(groups@))
                    && counters@.wf(),
                Err(message) => !fits(requests(groups@)) && message@ == TOO_MANY_COUNTERS@,
            },
    {
        let mut g: usize = 0;
        while g < groups.len()
            invariant
                g <= groups@.len(),
                forall|k: int| 0 <= k < g ==> (#[trigger] requests(groups@)[k]).len() <= MAX_GROUP_COUNTERS,
            decreases groups@.len() - g,
        {
            if groups[g].counters.len() > MAX_GROUP_COUNTERS {
                assert(requests(groups@)[g as int].len() > MAX_GROUP_COUNTERS);
                return Err(String::from_str(TOO_MANY_COUNTERS));
            }
            g += 1;
        }
        let mut handles: Vec<NativeCounterHandle> = Vec::new();
        let mut leaders: Vec<usize> = Vec::new();
        let mut buffers: Vec<Vec<u8>> = Vec::new();
        let mut g: usize = 0;
        while g < groups.len()
            invariant
                g <= groups@.len(),
                supports_all(requests(groups@)),
                handles@ == planned_handles(requests(groups@), g as int),
                leaders@ == planned_leaders(requests(groups@), g as int),
                buffers@.len() == leaders@.len(),
                forall|b: int| 0 <= b < buffers@.len() ==> (#[trigger] buffers@[b])@.len() == 0,
                forall|i: int|
                    0 <= i < handles@.len() ==> {
                        &&& (#[trigger] handles@[i]).group < leaders@.len()
                        &&& leaders@[handles@[i].group as int] == handles@[i].leader
                        &&& handles@[i].leader <= i
                    },
                forall|l: int|
                    0 <= l < leaders@.len() ==> {
                        &&& (#[trigger] leaders@[l]) < handles@.len()
                        &&& handles@[leaders@[l] as int].leader == leaders@[l]
                    },
            decreases groups@.len() - g,
        {
            let group = &groups[g].counters;
            let leader: usize = handles.len();
            let index: usize = leaders.len();
            let ghost before = handles@;
            if group.len() > 0 {
                leaders.push(leader);
                buffers.push(Vec::new());
            }
            let mut e: usize = 0;
            while e < group.len()
                invariant
                    e <= group@.len(),
                    g < groups@.len(),
                    group@ == requests(groups@)[g as int],
                    supports_all(requests(groups@)),
                    leader == before.len(),
                    group@.len() > 0 ==> leaders@.len() == index + 1 && leaders@[index as int]
                        == leader,
                    handles@ == before + Seq::new(
                        e as nat,
                        |k: int| fresh_handle(group@[k].counter, leader, index),
                    ),
                    forall|i: int|
                        0 <= i < handles@.len() ==> {
                            &&& (#[trigger] handles@[i]).group < leaders@.len()
                            &&& leaders@[handles@[i].group as int] == handles@[i].leader
                            &&& handles@[i].leader <= i
                        },
                decreases group@.len() - e,
            {
                let kind = group[e].counter;
                assert(supports(requests(groups@)[g as int][e as int].counter));
                match attr_for(&kind) {
                    Some(attr) => {
                        handles.push(
                            NativeCounterHandle { kind, attr, fd: -1, id: 0, leader, group: index },
                        );
                    },
                    None => {
                        return Err(String::from_str(TOO_MANY_COUNTERS));
                    },
                }
                assert(handles@ =~= before + Seq::new(
                    (e + 1) as nat,
                    |k: int| fresh_handle(group@[k].counter, leader, index),
                ));
                e += 1;
            }
            assert(handles@ =~= planned_handles(requests(groups@), g + 1));
            g += 1;
        }
        assert(leaders.len() == leaders@.len());
        let phase = if handles.len() > 0 {
            PerfPhase::Opening { slot: 0, opened: false }
        } else {
            PerfPhase::Idle
        };
        let counters = PerfCounters {
            handles,
            leaders,
            buffers,
            pid: match pid {
                Some(pid) => pid,
                None => 0,
            },
            open: 0,
            phase,
        };
        assert(counters@.buffers =~~= planned(pid, requests(groups@)).buffers);
        assert(counters@ =~= planned(pid, requests(groups@)));
        Ok(counters)
    }
}

/// The handles of the first `n` groups of a request stand for the counters
/// of those groups, one for one and in order.
pub proof fn lemma_planned_kinds(groups: Seq<Seq<StandaloneCounter>>, n: int)
    requires
        0 <= n <= groups.len(),
    ensures
        planned_handles(groups, n).map_values(|handle: NativeCounterHandle| handle.kind)
            == requested_kinds(groups, n),
    decreases n,
{
    let kind_of = |handle: NativeCounterHandle| handle.kind;
    if n > 0 {
        lemma_planned_kinds(groups, n - 1);
        let before = planned_handles(groups, n - 1);
        let group = planned_leaders(groups, n - 1).len();
        let added = Seq::new(
            groups[n - 1].len(),
            |e: int| fresh_handle(groups[n - 1][e].counter, before.len() as usize, group as usize),
        );
        assert(added.map_values(kind_of) =~= kinds_of(groups[n - 1]));
        assert((before + added).map_values(kind_of) =~= before.map_values(kind_of)
            + added.map_values(kind_of));
    } else {
        assert(planned_handles(groups, n).map_values(kind_of) =~= requested_kinds(groups, n));
    }
}

/// The counters that a request creates are the requested counters, one for
/// one and in order.
pub proof fn lemma_created_in_order(pid: Option<i32>, groups: Seq<Seq<StandaloneCounter>>)
    ensures
        planned(pid, groups).kinds() == creation_order(groups),
{
    lemma_planned_kinds(groups, groups.len() as int);
}

/// No operation on a set of counters, and no reply of the host, changes
/// which counters the set holds, their order, their grouping or the process
/// that is measured.
pub proof fn lemma_counters_are_stable(state: PerfState, reply: Reply)
    requires
        state.wf(),
    ensures
        state.started().kinds() == state.kinds(),
        state.stopped().kinds() == state.kinds(),
        state.released().kinds() == state.kinds(),
        state.resumed(reply).0.kinds() == state.kinds(),
        state.started().leaders == state.leaders && state.started().pid == state.pid,
        state.stopped().leaders == state.leaders && state.stopped().pid == state.pid,
        state.released().leaders == state.leaders && state.released().pid == state.pid,
        state.resumed(reply).0.leaders == state.leaders && state.resumed(reply).0.pid
            == state.pid,
        state.started().wf(),
        state.stopped().wf(),
        state.released().wf(),
        state.resumed(reply).0.wf(),
{
    assert(state.resumed(reply).0.kinds() =~= state.kinds());
}

/// A value that is handed out for position `index` is of the
/// counter that the set holds at that position, and no value is handed out
/// for a position past the last counter.
pub proof fn lemma_peek_in_order(state: PerfState, index: int)
    ensures
        match state.peeked(index) {
            Some(value) => 0 <= index < state.kinds().len() && value.kind == state.kinds()[index],
            None => true,
        },
        index >= state.kinds().len() ==> state.peeked(index).is_none(),
{
}

/// No value is handed out before an interval has been measured to its end.
pub proof fn lemma_no_value_before_stop(state: PerfState, index: int)
    requires
        state.phase != PerfPhase::Stopped,
    ensures
        state.peeked(index).is_none(),
{
}

/// A failed reply while the events are opened is reported and ends the
/// creation; a failed reply afterwards is fatal.
pub proof fn lemma_failures(state: PerfState, reply: Reply)
    requires
        state.pending().is_some(),
        !(state.phase is Closing),
        reply.status < 0,
    ensures
        state.resumed(reply).1.is_some(),
        state.resumed(reply).1.unwrap().fatal == !(state.phase is Opening),
        state.resumed(reply).0.pending().is_none(),
{
}

/// Nothing is open when the counters are created: a request that is
/// refused, and one that is only planned, has asked nothing of the kernel.
pub proof fn lemma_nothing_open_at_creation(pid: Option<i32>, groups: Seq<Seq<StandaloneCounter>>)
    ensures
        planned(pid, groups).open == 0,
        planned(pid, groups).released().pending().is_none(),
{
}

impl PerfState {
    /// How many operations the host has yet to carry out, at most, before
    /// none is due.
    pub open spec fn steps_left(self) -> int {
        let resume: int = if self.pid != 0 {
            1
        } else {
            0
        };
        match self.phase {
            PerfPhase::Opening { slot, opened } => 2 * (self.handles.len() - slot) - (if opened {
                1int
            } else {
                0int
            }),
            PerfPhase::Resetting { group } => 2 * self.leaders.len() - group + resume,
            PerfPhase::Enabling { group } => self.leaders.len() - group + resume,
            PerfPhase::Resuming => 1,
            PerfPhase::Disabling { group } => 2 * self.leaders.len() - group,
            PerfPhase::Reading { group } => self.leaders.len() - group,
            PerfPhase::Closing { slot } => self.open - slot,
            _ => 0,
        }
    }
}

/// Every operation comes to an end: an operation is due exactly while steps
/// are left, and each reply of the host, whatever it says, leaves fewer.
pub proof fn lemma_operations_end(state: PerfState, reply: Reply)
    requires
        state.wf(),
    ensures
        state.pending().is_some() <==> state.steps_left() > 0,
        state.steps_left() >= 0,
        state.pending().is_some() ==> state.resumed(reply).0.steps_left() < state.steps_left(),
        state.pending().is_none() ==> state.resumed(reply).0 == state,
{
}

/// A start goes through the groups in the order of the request, resets each
/// and then enables each, by its leader; a stop disables each and then reads
/// each. After the last step of a start that met no failure the events are
/// counting, and after the last step of such a stop the values can be had.
pub proof fn lemma_start_and_stop_in_order(state: PerfState, reply: Reply, group: int)
    requires
        state.wf(),
        0 <= group < state.leaders.len(),
        reply.status >= 0,
    ensures
        state.ready() ==> state.started().pending() == Some(
            HostCall::PerfEventReset { fd: state.leader_fd(0), flags: 1 },
        ),
        state.phase == (PerfPhase::Resetting { group: group as usize }) ==> state.resumed(
            reply,
        ).0.pending() == Some(
            if group + 1 < state.leaders.len() {
                HostCall::PerfEventReset { fd: state.leader_fd(group + 1), flags: 1 }
            } else {
                HostCall::PerfEventEnable { fd: state.leader_fd(0), flags: 1 }
            },
        ),
        state.phase == (PerfPhase::Enabling { group: group as usize }) ==> state.resumed(
            reply,
        ).0.pending() == (if group + 1 < state.leaders.len() {
            Some(HostCall::PerfEventEnable { fd: state.leader_fd(group + 1), flags: 1 })
        } else if state.pid != 0 {
            Some(HostCall::PtraceCont { pid: state.pid })
        } else {
            None
        }),
        state.phase == PerfPhase::Resuming ==> state.resumed(reply).0.phase == PerfPhase::Running,
        state.phase == (PerfPhase::Enabling { group: group as usize }) && group + 1
            == state.leaders.len() && state.pid == 0 ==> state.resumed(reply).0.phase
            == PerfPhase::Running,
        state.phase == PerfPhase::Running ==> state.stopped().pending() == Some(
            HostCall::PerfEventDisable { fd: state.leader_fd(0), flags: 1 },
        ),
        state.phase == (PerfPhase::Disabling { group: group as usize }) ==> state.resumed(
            reply,
        ).0.pending() == Some(
            if group + 1 < state.leaders.len() {
                HostCall::PerfEventDisable { fd: state.leader_fd(group + 1), flags: 1 }
            } else {
                HostCall::Read { fd: state.leader_fd(0), count: READ_BUFFER_SIZE }
            },
        ),
        state.phase == (PerfPhase::Reading { group: group as usize }) ==> state.resumed(
            reply,
        ).0.buffers[group] == reply.bytes && state.resumed(reply).0.pending() == (if group + 1
            < state.leaders.len() {
            Some(HostCall::Read { fd: state.leader_fd(group + 1), count: READ_BUFFER_SIZE })
        } else {
            None
        }),
        state.phase == (PerfPhase::Reading { group: group as usize }) && group + 1
            == state.leaders.len() ==> state.resumed(reply).0.phase == PerfPhase::Stopped,
{
}

/// After a completed interval there is a value for every counter that the
/// record of its group lists by its identifier: the raw count that the
/// record holds for it, corrected for the time in which the group was not
/// counting.
pub proof fn lemma_listed_counters_have_values(state: PerfState, index: int)
    requires
        state.wf(),
        state.phase == PerfPhase::Stopped,
        0 <= index < state.handles.len(),
    ensures
        state.peeked(index).is_some() <==> crate::backends::perf_record::find_member(
            state.buffers[state.handles[index].group as int],
            state.handles[index].id,
            0,
        ).is_some(),
        state.peeked(index).is_some() ==> Some(state.peeked(index).unwrap().value) == value_of(
            state.buffers[state.handles[index].group as int],
            state.handles[index].id,
        ),
{
}

/// The handles and leaders of the first `n` groups of a request fit
/// together: every handle names the leader of its own group, which comes no
/// later than the handle, and every leader leads itself.
proof fn lemma_plan_fits_together(groups: Seq<Seq<StandaloneCounter>>, n: int)
    requires
        0 <= n <= groups.len(),
        planned_handles(groups, n).len() <= usize::MAX,
    ensures
        planned_leaders(groups, n).len() <= planned_handles(groups, n).len(),
        forall|i: int|
            0 <= i < planned_handles(groups, n).len() ==> {
                &&& (#[trigger] planned_handles(groups, n)[i]).group < planned_leaders(
                    groups,
                    n,
                ).len()
                &&& planned_leaders(groups, n)[planned_handles(groups, n)[i].group as int]
                    == planned_handles(groups, n)[i].leader
                &&& planned_handles(groups, n)[i].leader <= i
            },
        forall|g: int|
            0 <= g < planned_leaders(groups, n).len() ==> {
                &&& (#[trigger] planned_leaders(groups, n)[g]) < planned_handles(groups, n).len()
                &&& planned_handles(groups, n)[planned_leaders(groups, n)[g] as int].leader
                    == planned_leaders(groups, n)[g]
            },
    decreases n,
{
    if n > 0 {
        let before = planned_handles(groups, n - 1);
        let leaders = planned_leaders(groups, n - 1);
        let now = planned_handles(groups, n);
        let leaders_now = planned_leaders(groups, n);
        assert(now.len() == before.len() + groups[n - 1].len());
        lemma_plan_fits_together(groups, n - 1);
        assert forall|i: int| 0 <= i < now.len() implies {
            &&& (#[trigger] now[i]).group < leaders_now.len()
            &&& leaders_now[now[i].group as int] == now[i].leader
            &&& now[i].leader <= i
        } by {
            if i < before.len() {
                assert(now[i] == before[i]);
            } else {
                assert(now[i] == fresh_handle(
                    groups[n - 1][i - before.len()].counter,
                    before.len() as usize,
                    leaders.len() as usize,
                ));
            }
        }
        assert forall|g: int| 0 <= g < leaders_now.len() implies {
            &&& (#[trigger] leaders_now[g]) < now.len()
            &&& now[leaders_now[g] as int].leader == leaders_now[g]
        } by {
            if g < leaders.len() {
                assert(leaders_now[g] == leaders[g]);
                assert(now[leaders[g] as int] == before[leaders[g] as int]);
            } else {
                assert(now[before.len() as int] == fresh_handle(
                    groups[n - 1][0].counter,
                    before.len() as usize,
                    leaders.len() as usize,
                ));
            }
        }
    }
}

/// The counters that a request creates are well formed, provided there are
/// no more of them than can be counted.
pub proof fn lemma_planned_is_well_formed(pid: Option<i32>, groups: Seq<Seq<StandaloneCounter>>)
    requires
        planned(pid, groups).handles.len() <= usize::MAX,
    ensures
        planned(pid, groups).wf(),
{
    lemma_plan_fits_together(groups, groups.len() as int);
}

} // verus!
