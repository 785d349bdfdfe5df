//! The backend for the kperf and kperfdata frameworks of macOS.

use crate::backends::host::{Fault, HostCall, HostReply, Reply};
use crate::counter::{
    creation_order, kinds_of, requests, same_text, CounterKind, CounterValue, CountersGroup,
    StandaloneCounter, SystemCounter,
};
use vstd::prelude::*;

verus! {

/// The most counters that the frameworks schedule at once.
pub const MAX_COUNTERS: usize = 6;

/// The number of hardware registers that one snapshot covers.
pub const REGISTERS: usize = 32;

/// The class of the configurable registers, as a bit of a class mask.
pub const KPC_CLASS_CONFIGURABLE_MASK: u32 = 2;

/// Where the framework that controls the counters is installed.
pub const KPERF_FRAMEWORK: &'static str = "/System/Library/PrivateFrameworks/kperf.framework/kperf";

/// Where the framework that holds the event database is installed.
pub const KPERFDATA_FRAMEWORK: &'static str =
    "/System/Library/PrivateFrameworks/kperfdata.framework/kperfdata";

pub const ONE_GROUP_ONLY: &'static str = "Only 1 group is supported currently";

pub const TOO_MANY_COUNTERS: &'static str = "Only 6 counters are supported right now";

pub const NO_ATTACH: &'static str = "Attaching to a process is not supported";

pub const COUNT_EVENTS_FAILED: &'static str = "Failed to count events";

pub const QUERY_EVENTS_FAILED: &'static str = "Failed to query events";

pub const FIND_EVENT_FAILED: &'static str = "Failed to find an event";

pub const DB_FAILED: &'static str = "Failed to load kpep database";

pub const CONFIG_FAILED: &'static str = "Failed to create config";

pub const FORCE_FAILED: &'static str = "Failed to set counters";

pub const ADD_EVENT_FAILED: &'static str = "Failed to add an event";

pub const CLASSES_FAILED: &'static str = "Failed to get kpc classes";

pub const REGISTER_COUNT_FAILED: &'static str = "Failed to get kpc count";

pub const REGISTER_MAP_FAILED: &'static str = "Failed to get register mapping";

pub const KPC_CONFIG_FAILED: &'static str = "Failed to set kpc config";

pub const FORCE_ALL_FAILED: &'static str = "Failed to set kpc counters";

pub const COUNTING_FAILED: &'static str = "Failed to set counting";

pub const THREAD_COUNTING_FAILED: &'static str = "Failed to set thread counting";

pub const SNAPSHOT_FAILED: &'static str = "Failed to get counters";

/// The frameworks catalogue no software events.
pub fn get_software_events() -> (events: Vec<SystemCounter>)
    ensures
        events@ == Seq::<SystemCounter>::empty(),
{
    Vec::new()
}

/// The names of the native event of a counter: the name on Apple silicon and
/// the name on Intel processors. Only the four generic counters have one.
pub open spec fn event_names(kind: CounterKind) -> Option<(Seq<char>, Seq<char>)> {
    match kind {
        CounterKind::Cycles => Some(("FIXED_CYCLES"@, "CPU_CLK_UNHALTED.THREAD"@)),
        CounterKind::Instructions => Some(("FIXED_INSTRUCTIONS"@, "INST_RETIRED.ANY"@)),
        CounterKind::Branches => Some(("INST_BRANCH"@, "BR_INST_RETIRED.ALL_BRANCHES"@)),
        CounterKind::BranchMisses => Some(("INST_BRANCH"@, "BR_MISP_RETIRED.ALL_BRANCHES"@)),
        _ => None,
    }
}

/// Whether the frameworks can count a counter.
pub open spec fn supports(kind: CounterKind) -> bool {
    event_names(kind).is_some()
}

/// The position of the first name at or after `from` that is `name`.
pub open spec fn position(names: Seq<Seq<char>>, name: Seq<char>, from: int) -> Option<int>
    decreases names.len() - from,
{
    if from < 0 || from >= names.len() {
        None
    } else if names[from] == name {
        Some(from)
    } else {
        position(names, name, from + 1)
    }
}

/// The position, in the database's list of events, of the native event of a
/// counter: the first event that bears the Apple name, or where there is
/// none the first that bears the Intel name.
pub open spec fn resolved(names: Seq<Seq<char>>, kind: CounterKind) -> Option<int> {
    match event_names(kind) {
        Some((apple, intel)) => match position(names, apple, 0) {
            Some(at) => Some(at),
            None => position(names, intel, 0),
        },
        None => None,
    }
}

/// How much a register advanced between two snapshots. A register that
/// passed its largest value starts again from zero; one that would not fit
/// the result counts as the largest value there is.
pub open spec fn elapsed(before: u64, after: u64) -> usize {
    let delta: int = if after >= before {
        after - before
    } else {
        0x1_0000_0000_0000_0000 - before + after
    };
    if delta > usize::MAX as int {
        usize::MAX
    } else {
        delta as usize
    }
}

/// The names of the native event of a counter.
pub fn names_of(kind: &CounterKind) -> (names: Option<(&'static str, &'static str)>)
    ensures
        match names {
            Some((apple, intel)) => event_names(*kind) == Some((apple@, intel@)),
            None => event_names(*kind).is_none(),
        },
{
    match kind {
        CounterKind::Cycles => Some(("FIXED_CYCLES", "CPU_CLK_UNHALTED.THREAD")),
        CounterKind::Instructions => Some(("FIXED_INSTRUCTIONS", "INST_RETIRED.ANY")),
        CounterKind::Branches => Some(("INST_BRANCH", "BR_INST_RETIRED.ALL_BRANCHES")),
        CounterKind::BranchMisses => Some(("INST_BRANCH", "BR_MISP_RETIRED.ALL_BRANCHES")),
        _ => None,
    }
}

/// The mathematical content of a list of names.
pub open spec fn names_view(names: Seq<String>) -> Seq<Seq<char>> {
    names.map_values(|name: String| name@)
}

/// Finds the first name of the list that is `name`.
pub fn find_name(names: &Vec<String>, name: &str) -> (at: Option<usize>)
    ensures
        match at {
            Some(at) => position(names_view(names@), name@, 0) == Some(at as int),
            None => position(names_view(names@), name@, 0).is_none(),
        },
{
    let mut i: usize = 0;
    while i < names.len()
        invariant
            i <= names@.len(),
            position(names_view(names@), name@, 0) == position(names_view(names@), name@, i as int),
        decreases names@.len() - i,
    {
        if same_text(names[i].as_str(), name) {
            return Some(i);
        }
        i += 1;
    }
    None
}

/// Finds the native event of a counter in the database's list of events.
pub fn resolve(names: &Vec<String>, kind: &CounterKind) -> (at: Option<usize>)
    ensures
        match at {
            Some(at) => resolved(names_view(names@), *kind) == Some(at as int),
            None => resolved(names_view(names@), *kind).is_none(),
        },
{
    match names_of(kind) {
        Some((apple, intel)) => match find_name(names, apple) {
            Some(at) => Some(at),
            None => find_name(names, intel),
        },
        None => None,
    }
}

/// How much a register advanced between two snapshots.
pub fn advance(before: u64, after: u64) -> (delta: usize)
    ensures
        delta == elapsed(before, after),
{
    let delta: u64 = if after >= before {
        after - before
    } else {
        (u64::MAX - before) + after + 1
    };
    if delta > usize::MAX as u64 {
        usize::MAX
    } else {
        delta as usize
    }
}

/// The macOS backend. The host loads the two frameworks and opens the event
/// database before it answers a backend's first request.
#[derive(Debug, Clone, Copy)]
pub struct KPerfBackend {}

/// What binds one requested counter to the hardware register that counts it.
#[derive(Debug, Clone, Copy)]
pub struct NativeCounterHandle {
    /// The counter that was asked for.
    pub kind: CounterKind,
    /// The register that the counter landed on, once the counters were
    /// started.
    pub reg_id: usize,
    /// The position of the counter's native event in the database's list.
    pub event: usize,
}

/// Where a set of counters stands.
#[derive(Debug, Clone, Copy, PartialEq, Eq, Structural)]
pub enum KPerfPhase {
    /// Creating: the number of events of the database is due.
    CountingEvents,
    /// Creating: the list of the events is due.
    ListingEvents,
    /// Creating: a database for the configuration is due.
    CreatingDb,
    /// Creating: the configuration is due.
    CreatingConfig,
    /// Creating: the configuration is to take all counters for itself.
    ForcingCounters,
    /// Creating: the event of counter `slot` is to be added.
    AddingEvent { slot: usize },
    /// The events could not be listed. The set is of no use.
    Failed,
    /// The configuration is complete and nothing has been measured.
    Idle,
    /// Starting: the class mask of the configuration is due.
    QueryingClasses,
    /// Starting: the number of configuration registers is due.
    QueryingCount,
    /// Starting: the register of each counter is due.
    QueryingMap,
    /// Starting: the words for the configuration registers are due.
    QueryingRegisters,
    /// Starting: all counters are to be taken from the system.
    ForcingAll,
    /// Starting: the configurable registers are to be programmed.
    Configuring,
    /// Starting: counting is to be enabled.
    EnablingCounting,
    /// Starting: counting is to be enabled for threads.
    EnablingThreadCounting,
    /// Starting: the snapshot from which the interval is measured is due.
    TakingBaseline,
    /// The registers are counting.
    Running,
    /// Stopping: the snapshot that ends the interval is due.
    TakingReading,
    /// Stopping: counting is to be disabled.
    DisablingCounting,
    /// Stopping: counting is to be disabled for threads.
    DisablingThreadCounting,
    /// An interval has been measured and its values can be had.
    Stopped,
    /// An operation failed in a way that leaves nothing to be said of the
    /// registers.
    Aborted,
    /// Releasing: the configuration is to be freed.
    FreeingConfig,
    /// Releasing: the database of the configuration is to be freed.
    FreeingDb,
    /// What the counters held is freed.
    Released,
}

/// The mathematical content of a set of counters.
pub struct KPerfState {
    /// One handle for each requested counter, in the order of the request.
    pub handles: Seq<NativeCounterHandle>,
    /// The number of events of the database.
    pub events: usize,
    /// The class mask of the configuration.
    pub classes: u32,
    /// The number of configuration registers.
    pub registers: usize,
    /// The words for the configuration registers.
    pub config: Seq<u64>,
    /// The registers when the interval began.
    pub before: Seq<u64>,
    /// The registers when the interval ended.
    pub after: Seq<u64>,
    /// Whether the database of the configuration exists.
    pub has_db: bool,
    /// Whether the configuration exists.
    pub has_config: bool,
    pub phase: KPerfPhase,
}

impl KPerfState {
    pub open spec fn wf(self) -> bool {
        &&& self.handles.len() <= MAX_COUNTERS
        &&& forall|i: int|
            0 <= i < self.handles.len() ==> (#[trigger] self.handles[i]).reg_id < REGISTERS
                && supports(self.handles[i].kind)
        &&& self.before.len() == REGISTERS
        &&& self.after.len() == REGISTERS
        &&& match self.phase {
            KPerfPhase::AddingEvent { slot } => slot < self.handles.len(),
            _ => true,
        }
    }

    /// The kinds of the counters, in the order of the request.
    pub open spec fn kinds(self) -> Seq<CounterKind> {
        self.handles.map_values(|handle: NativeCounterHandle| handle.kind)
    }

    /// The operation that the host is to carry out now, if any is due.
    pub open spec fn pending(self) -> Option<HostCall> {
        match self.phase {
            KPerfPhase::CountingEvents => Some(HostCall::KpepDbEventsCount),
            KPerfPhase::ListingEvents => Some(HostCall::KpepDbEvents { count: self.events }),
            KPerfPhase::CreatingDb => Some(HostCall::KpepDbCreate),
            KPerfPhase::CreatingConfig => Some(HostCall::KpepConfigCreate),
            KPerfPhase::ForcingCounters => Some(HostCall::KpepConfigForceCounters),
            KPerfPhase::AddingEvent { slot } => Some(
                HostCall::KpepConfigAddEvent { event: self.handles[slot as int].event },
            ),
            KPerfPhase::QueryingClasses => Some(HostCall::KpepConfigKpcClasses),
            KPerfPhase::QueryingCount => Some(HostCall::KpepConfigKpcCount),
            KPerfPhase::QueryingMap => Some(HostCall::KpepConfigKpcMap { registers: REGISTERS }),
            KPerfPhase::QueryingRegisters => Some(
                HostCall::KpepConfigKpc { registers: self.registers },
            ),
            KPerfPhase::ForcingAll => Some(HostCall::KpcForceAllCtrsSet { value: 1 }),
            KPerfPhase::Configuring => Some(HostCall::KpcSetConfig { classes: self.classes }),
            KPerfPhase::EnablingCounting => Some(
                HostCall::KpcSetCounting { classes: self.classes },
            ),
            KPerfPhase::EnablingThreadCounting => Some(
                HostCall::KpcSetThreadCounting { classes: self.classes },
            ),
            KPerfPhase::TakingBaseline => Some(
                HostCall::KpcGetThreadCounters { tid: 0, registers: 32 },
            ),
            KPerfPhase::TakingReading => Some(
                HostCall::KpcGetThreadCounters { tid: 0, registers: 32 },
            ),
            KPerfPhase::DisablingCounting => Some(HostCall::KpcSetCounting { classes: 0 }),
            KPerfPhase::DisablingThreadCounting => Some(
                HostCall::KpcSetThreadCounting { classes: 0 },
            ),
            KPerfPhase::FreeingConfig => Some(HostCall::KpepConfigFree),
            KPerfPhase::FreeingDb => Some(HostCall::KpepDbFree),
            _ => None,
        }
    }

    /// The same counters in another phase.
    pub open spec fn at(self, phase: KPerfPhase) -> KPerfState {
        KPerfState { phase, ..self }
    }

    /// The outcome of a reply that lets the operation go on.
    pub open spec fn proceed(self, phase: KPerfPhase) -> (KPerfState, Option<Fault>) {
        (self.at(phase), None)
    }

    /// The outcome of a reply that ends the creation with an error.
    pub open spec fn fail(self, message: &'static str) -> (KPerfState, Option<Fault>) {
        (self.at(KPerfPhase::Failed), Some(Fault { fatal: false, message }))
    }

    /// The outcome of a reply after which nothing can be said of the
    /// registers.
    pub open spec fn abort(self, message: &'static str) -> (KPerfState, Option<Fault>) {
        (self.at(KPerfPhase::Aborted), Some(Fault { fatal: true, message }))
    }

    /// Whether the database lists a native event for every counter.
    pub open spec fn all_resolved(self, names: Seq<Seq<char>>) -> bool {
        forall|i: int|
            0 <= i < self.handles.len() ==> resolved(names, (#[trigger] self.handles[i]).kind).is_some()
    }

    /// The counters, each bound to its native event.
    pub open spec fn with_events(self, names: Seq<Seq<char>>) -> KPerfState {
        KPerfState {
            handles: Seq::new(
                self.handles.len(),
                |i: int|
                    NativeCounterHandle {
                        event: resolved(names, self.handles[i].kind).unwrap() as usize,
                        ..self.handles[i]
                    },
            ),
            ..self
        }
    }

    /// Whether a register map names a register of the snapshot for every
    /// counter.
    pub open spec fn map_fits(self, map: Seq<u64>) -> bool {
        &&& map.len() == REGISTERS
        &&& forall|i: int| 0 <= i < self.handles.len() ==> (#[trigger] map[i]) < REGISTERS
    }

    /// The counters, each bound to the register that the map gives it:
    /// counter `i` to entry `i`.
    pub open spec fn with_registers(self, map: Seq<u64>) -> KPerfState {
        KPerfState {
            handles: Seq::new(
                self.handles.len(),
                |i: int| NativeCounterHandle { reg_id: map[i] as usize, ..self.handles[i] },
            ),
            ..self
        }
    }

    /// Whether the configurable registers are to be programmed: the
    /// configuration uses their class and has words for them.
    pub open spec fn configurable(self) -> bool {
        self.classes & KPC_CLASS_CONFIGURABLE_MASK != 0 && self.registers != 0
    }

    /// Whether the counters can be started: the configuration is complete
    /// and no operation is under way.
    pub open spec fn ready(self) -> bool {
        self.phase == KPerfPhase::Idle || self.phase == KPerfPhase::Running || self.phase
            == KPerfPhase::Stopped
    }

    /// The counters once a start has been asked for. Counters that are not
    /// ready stay as they are.
    pub open spec fn started(self) -> KPerfState {
        if self.ready() {
            self.at(KPerfPhase::QueryingClasses)
        } else {
            self
        }
    }

    /// The counters once a stop has been asked for. Counters that are not
    /// running stay as they are.
    pub open spec fn stopped(self) -> KPerfState {
        if self.phase == KPerfPhase::Running {
            self.at(KPerfPhase::TakingReading)
        } else {
            self
        }
    }

    /// The phase in which the database is freed, if there is one.
    pub open spec fn freeing_db(self) -> KPerfPhase {
        if self.has_db {
            KPerfPhase::FreeingDb
        } else {
            KPerfPhase::Released
        }
    }

    /// The counters once their release has been asked for. The
    /// configuration is freed and then its database, as far as they exist,
    /// whatever the counters were doing. Counters that are being released,
    /// or were, stay as they are.
    pub open spec fn released(self) -> KPerfState {
        if self.phase == KPerfPhase::FreeingConfig || self.phase == KPerfPhase::FreeingDb
            || self.phase == KPerfPhase::Released {
            self
        } else if self.has_config {
            self.at(KPerfPhase::FreeingConfig)
        } else {
            self.at(self.freeing_db())
        }
    }

    /// The counters after the host's reply to the pending operation, and the
    /// fault that the reply amounts to, if it does. A reply that nothing
    /// asked for changes nothing. What the host says of the two calls that
    /// disable counting, and of the two that free, is of no account.
    pub open spec fn resumed(self, reply: Reply) -> (KPerfState, Option<Fault>) {
        match self.phase {
            KPerfPhase::CountingEvents => if reply.status == 0 && reply.words.len() > 0
                && reply.words[0] <= usize::MAX {
                KPerfState { events: reply.words[0] as usize, ..self }.proceed(
                    KPerfPhase::ListingEvents,
                )
            } else {
                self.fail(COUNT_EVENTS_FAILED)
            },
            KPerfPhase::ListingEvents => if reply.status != 0 {
                self.fail(QUERY_EVENTS_FAILED)
            } else if !self.all_resolved(reply.names) {
                self.abort(FIND_EVENT_FAILED)
            } else {
                self.with_events(reply.names).proceed(KPerfPhase::CreatingDb)
            },
            KPerfPhase::CreatingDb => if reply.status != 0 {
                self.abort(DB_FAILED)
            } else {
                KPerfState { has_db: true, ..self }.proceed(KPerfPhase::CreatingConfig)
            },
            KPerfPhase::CreatingConfig => if reply.status != 0 {
                self.abort(CONFIG_FAILED)
            } else {
                KPerfState { has_config: true, ..self }.proceed(KPerfPhase::ForcingCounters)
            },
            KPerfPhase::ForcingCounters => if reply.status != 0 {
                self.abort(FORCE_FAILED)
            } else if self.handles.len() > 0 {
                self.proceed(KPerfPhase::AddingEvent { slot: 0 })
            } else {
                self.proceed(KPerfPhase::Idle)
            },
            KPerfPhase::AddingEvent { slot } => if reply.status != 0 {
                self.abort(ADD_EVENT_FAILED)
            } else if slot + 1 < self.handles.len() {
                self.proceed(KPerfPhase::AddingEvent { slot: (slot + 1) as usize })
            } else {
                self.proceed(KPerfPhase::Idle)
            },
            KPerfPhase::QueryingClasses => if reply.status == 0 && reply.words.len() > 0
                && reply.words[0] <= u32::MAX {
                KPerfState { classes: reply.words[0] as u32, ..self }.proceed(
                    KPerfPhase::QueryingCount,
                )
            } else {
                self.abort(CLASSES_FAILED)
            },
            KPerfPhase::QueryingCount => if reply.status == 0 && reply.words.len() > 0
                && reply.words[0] <= usize::MAX {
                KPerfState { registers: reply.words[0] as usize, ..self }.proceed(
                    KPerfPhase::QueryingMap,
                )
            } else {
                self.abort(REGISTER_COUNT_FAILED)
            },
            KPerfPhase::QueryingMap => if reply.status == 0 && self.map_fits(reply.words) {
                self.with_registers(reply.words).proceed(KPerfPhase::QueryingRegisters)
            } else {
                self.abort(REGISTER_MAP_FAILED)
            },
            KPerfPhase::QueryingRegisters => if reply.status == 0 {
                KPerfState { config: reply.words, ..self }.proceed(KPerfPhase::ForcingAll)
            } else {
                self.abort(KPC_CONFIG_FAILED)
            },
            KPerfPhase::ForcingAll => if reply.status != 0 {
                self.abort(FORCE_ALL_FAILED)
            } else if self.configurable() {
                self.proceed(KPerfPhase::Configuring)
            } else {
                self.proceed(KPerfPhase::EnablingCounting)
            },
            KPerfPhase::Configuring => if reply.status != 0 {
                self.abort(KPC_CONFIG_FAILED)
            } else {
                self.proceed(KPerfPhase::EnablingCounting)
            },
            KPerfPhase::EnablingCounting => if reply.status != 0 {
                self.abort(COUNTING_FAILED)
            } else {
                self.proceed(KPerfPhase::EnablingThreadCounting)
            },
            KPerfPhase::EnablingThreadCounting => if reply.status != 0 {
                self.abort(THREAD_COUNTING_FAILED)
            } else {
                self.proceed(KPerfPhase::TakingBaseline)
            },
            KPerfPhase::TakingBaseline => if reply.status == 0 && reply.words.len() == REGISTERS {
                KPerfState { before: reply.words, ..self }.proceed(KPerfPhase::Running)
            } else {
                self.abort(SNAPSHOT_FAILED)
            },
            KPerfPhase::TakingReading => if reply.status == 0 && reply.words.len() == REGISTERS {
                KPerfState { after: reply.words, ..self }.proceed(KPerfPhase::DisablingCounting)
            } else {
                self.abort(SNAPSHOT_FAILED)
            },
            KPerfPhase::DisablingCounting => self.proceed(KPerfPhase::DisablingThreadCounting),
            KPerfPhase::DisablingThreadCounting => self.proceed(KPerfPhase::Stopped),
            KPerfPhase::FreeingConfig => self.proceed(self.freeing_db()),
            KPerfPhase::FreeingDb => self.proceed(KPerfPhase::Released),
            _ => (self, None),
        }
    }

    /// The value of the counter at position `index` of the request: after a
    /// completed interval, how much its register advanced in the interval.
    /// There is no value at any other time or for any other position.
    pub open spec fn peeked(self, index: int) -> Option<CounterValue> {
        if self.phase == KPerfPhase::Stopped && 0 <= index < self.handles.len() {
            Some(
                CounterValue {
                    kind: self.handles[index].kind,
                    value: elapsed(
                        self.before[self.handles[index].reg_id as int],
                        self.after[self.handles[index].reg_id as int],
                    ),
                },
            )
        } else {
            None
        }
    }
}

/// A set of counters of the macOS backend.
pub struct KPerfCounters {
    handles: Vec<NativeCounterHandle>,
    events: usize,
    classes: u32,
    registers: usize,
    config: Vec<u64>,
    before: Vec<u64>,
    after: Vec<u64>,
    has_db: bool,
    has_config: bool,
    phase: KPerfPhase,
}

impl View for KPerfCounters {
    type V = KPerfState;

    closed spec fn view(&self) -> KPerfState {
        KPerfState {
            handles: self.handles@,
            events: self.events,
            classes: self.classes,
            registers: self.registers,
            config: self.config@,
            before: self.before@,
            after: self.after@,
            has_db: self.has_db,
            has_config: self.has_config,
            phase: self.phase,
        }
    }
}

impl KPerfCounters {
    /// The operation that the host is to carry out now, if any is due.
    pub fn request(&self) -> (call: Option<HostCall>)
        requires
            self@.wf(),
        ensures
            call == self@.pending(),
    {
        match self.phase {
            KPerfPhase::CountingEvents => Some(HostCall::KpepDbEventsCount),
            KPerfPhase::ListingEvents => Some(HostCall::KpepDbEvents { count: self.events }),
            KPerfPhase::CreatingDb => Some(HostCall::KpepDbCreate),
            KPerfPhase::CreatingConfig => Some(HostCall::KpepConfigCreate),
            KPerfPhase::ForcingCounters => Some(HostCall::KpepConfigForceCounters),
            KPerfPhase::AddingEvent { slot } => Some(
                HostCall::KpepConfigAddEvent { event: self.handles[slot].event },
            ),
            KPerfPhase::QueryingClasses => Some(HostCall::KpepConfigKpcClasses),
            KPerfPhase::QueryingCount => Some(HostCall::KpepConfigKpcCount),
            KPerfPhase::QueryingMap => Some(HostCall::KpepConfigKpcMap { registers: REGISTERS }),
            KPerfPhase::QueryingRegisters => Some(
                HostCall::KpepConfigKpc { registers: self.registers },
            ),
            KPerfPhase::ForcingAll => Some(HostCall::KpcForceAllCtrsSet { value: 1 }),
            KPerfPhase::Configuring => Some(HostCall::KpcSetConfig { classes: self.classes }),
            KPerfPhase::EnablingCounting => Some(
                HostCall::KpcSetCounting { classes: self.classes },
            ),
            KPerfPhase::EnablingThreadCounting => Some(
                HostCall::KpcSetThreadCounting { classes: self.classes },
            ),
            KPerfPhase::TakingBaseline => Some(
                HostCall::KpcGetThreadCounters { tid: 0, registers: 32 },
            ),
            KPerfPhase::TakingReading => Some(
                HostCall::KpcGetThreadCounters { tid: 0, registers: 32 },
            ),
            KPerfPhase::DisablingCounting => Some(HostCall::KpcSetCounting { classes: 0 }),
            KPerfPhase::DisablingThreadCounting => Some(
                HostCall::KpcSetThreadCounting { classes: 0 },
            ),
            KPerfPhase::FreeingConfig => Some(HostCall::KpepConfigFree),
            KPerfPhase::FreeingDb => Some(HostCall::KpepDbFree),
            _ => None,
        }
    }

    /// The words that the configurable registers are programmed with.
    pub fn config_words(&self) -> (words: &Vec<u64>)
        ensures
            words@ == self@.config,
    {
        &self.config
    }

    /// Asks for the counters to be started.
    pub fn start(&mut self)
        requires
            old(self)@.wf(),
        ensures
            final(self)@.wf(),
            final(self)@ == old(self)@.started(),
    {
        match self.phase {
            KPerfPhase::Idle | KPerfPhase::Running | KPerfPhase::Stopped => {
                self.phase = KPerfPhase::QueryingClasses;
            },
            _ => {},
        }
    }

    /// Asks for the counters to be stopped and read.
    pub fn stop(&mut self)
        requires
            old(self)@.wf(),
        ensures
            final(self)@.wf(),
            final(self)@ == old(self)@.stopped(),
    {
        match self.phase {
            KPerfPhase::Running => {
                self.phase = KPerfPhase::TakingReading;
            },
            _ => {},
        }
    }

    /// Asks for what the counters hold to be freed.
    pub fn release(&mut self)
        requires
            old(self)@.wf(),
        ensures
            final(self)@.wf(),
            final(self)@ == old(self)@.released(),
    {
        match self.phase {
            KPerfPhase::FreeingConfig => {},
            KPerfPhase::FreeingDb => {},
            KPerfPhase::Released => {},
            _ => {
                if self.has_config {
                    self.phase = KPerfPhase::FreeingConfig;
                } else {
                    self.phase = self.after_config();
                }
            },
        }
    }

    fn after_config(&self) -> (phase: KPerfPhase)
        ensures
            phase == self@.freeing_db(),
    {
        if self.has_db {
            KPerfPhase::FreeingDb
        } else {
            KPerfPhase::Released
        }
    }

    fn proceed(&mut self, phase: KPerfPhase) -> (outcome: Result<(), Fault>)
        ensures
            final(self)@ == old(self)@.at(phase),
            outcome == Ok::<(), Fault>(()),
    {
        self.phase = phase;
        Ok(())
    }

    fn fail(&mut self, message: &'static str) -> (outcome: Result<(), Fault>)
        ensures
            final(self)@ == old(self)@.at(KPerfPhase::Failed),
            outcome == Err::<(), Fault>(Fault { fatal: false, message }),
    {
        self.phase = KPerfPhase::Failed;
        Err(Fault { fatal: false, message })
    }

    fn abort(&mut self, message: &'static str) -> (outcome: Result<(), Fault>)
        ensures
            final(self)@ == old(self)@.at(KPerfPhase::Aborted),
            outcome == Err::<(), Fault>(Fault { fatal: true, message }),
    {
        self.phase = KPerfPhase::Aborted;
        Err(Fault { fatal: true, message })
    }

    /// Binds each counter to its native event, if the database lists one
    /// for every counter.
    fn bind_events(&mut self, names: &Vec<String>) -> (bound: bool)
        requires
            old(self)@.wf(),
        ensures
            bound == old(self)@.all_resolved(names_view(names@)),
            bound ==> final(self)@ == old(self)@.with_events(names_view(names@)),
            !bound ==> final(self)@ == old(self)@,
    {
        let mut bound: Vec<NativeCounterHandle> = Vec::new();
        let mut i: usize = 0;
        while i < self.handles.len()
            invariant
                i <= self.handles@.len(),
                *self == *old(self),
                bound@.len() == i,
                forall|k: int|
                    0 <= k < i ==> resolved(
                        names_view(names@),
                        (#[trigger] self.handles@[k]).kind,
                    ).is_some(),
                forall|k: int|
                    0 <= k < i ==> bound@[k] == (NativeCounterHandle {
                        event: resolved(names_view(names@), self.handles@[k].kind).unwrap() as usize,
                        ..self.handles@[k]
                    }),
            decreases self.handles@.len() - i,
        {
            let handle = self.handles[i];
            match resolve(names, &handle.kind) {
                Some(event) => {
                    bound.push(NativeCounterHandle { event, ..handle });
                },
                None => {
                    return false;
                },
            }
            i += 1;
        }
        self.handles = bound;
        assert(self@.handles =~= old(self)@.with_events(names_view(names@)).handles);
        true
    }

    /// Binds each counter to the register that the map gives it, if the map
    /// names a register of the snapshot for every counter.
    fn bind_registers(&mut self, map: &Vec<u64>) -> (bound: bool)
        requires
            old(self)@.wf(),
        ensures
            bound == old(self)@.map_fits(map@),
            bound ==> final(self)@ == old(self)@.with_registers(map@),
            !bound ==> final(self)@ == old(self)@,
    {
        if map.len() != REGISTERS {
            return false;
        }
        let mut bound: Vec<NativeCounterHandle> = Vec::new();
        let mut i: usize = 0;
        while i < self.handles.len()
            invariant
                i <= self.handles@.len(),
                self.handles@.len() <= MAX_COUNTERS,
                map@.len() == REGISTERS,
                *self == *old(self),
                bound@.len() == i,
                forall|k: int| 0 <= k < i ==> (#[trigger] map@[k]) < REGISTERS,
                forall|k: int|
                    0 <= k < i ==> bound@[k] == (NativeCounterHandle {
                        reg_id: map@[k] as usize,
                        ..self.handles@[k]
                    }),
            decreases self.handles@.len() - i,
        {
            let handle = self.handles[i];
            let register: u64 = map[i];
            if register >= REGISTERS as u64 {
                return false;
            }
            bound.push(NativeCounterHandle { reg_id: register as usize, ..handle });
            i += 1;
        }
        self.handles = bound;
        assert(self@.handles =~= old(self)@.with_registers(map@).handles);
        true
    }

    /// Takes the host's reply to the pending operation.
    pub fn resume(&mut self, reply: HostReply) -> (outcome: Result<(), Fault>)
        requires
            old(self)@.wf(),
        ensures
            final(self)@.wf(),
            final(self)@ == old(self)@.resumed(reply@).0,
            outcome == match old(self)@.resumed(reply@).1 {
                Some(fault) => Err::<(), Fault>(fault),
                None => Ok::<(), Fault>(()),
            },
    {
        match self.phase {
            KPerfPhase::CountingEvents => {
                if reply.status == 0 && reply.words.len() > 0 && reply.words[0]
                    <= usize::MAX as u64 {
                    self.events = reply.words[0] as usize;
                    self.proceed(KPerfPhase::ListingEvents)
                } else {
                    self.fail(COUNT_EVENTS_FAILED)
                }
            },
            KPerfPhase::ListingEvents => {
                if reply.status != 0 {
                    self.fail(QUERY_EVENTS_FAILED)
                } else if !self.bind_events(&reply.names) {
                    self.abort(FIND_EVENT_FAILED)
                } else {
                    self.proceed(KPerfPhase::CreatingDb)
                }
            },
            KPerfPhase::CreatingDb => {
                if reply.status != 0 {
                    self.abort(DB_FAILED)
                } else {
                    self.has_db = true;
                    self.proceed(KPerfPhase::CreatingConfig)
                }
            },
            KPerfPhase::CreatingConfig => {
                if reply.status != 0 {
                    self.abort(CONFIG_FAILED)
                } else {
                    self.has_config = true;
                    self.proceed(KPerfPhase::ForcingCounters)
                }
            },
            KPerfPhase::ForcingCounters => {
                if reply.status != 0 {
                    self.abort(FORCE_FAILED)
                } else if self.handles.len() > 0 {
                    self.proceed(KPerfPhase::AddingEvent { slot: 0 })
                } else {
                    self.proceed(KPerfPhase::Idle)
                }
            },
            KPerfPhase::AddingEvent { slot } => {
                let count = self.handles.len();
                if reply.status != 0 {
                    self.abort(ADD_EVENT_FAILED)
                } else if slot + 1 < count {
                    self.proceed(KPerfPhase::AddingEvent { slot: slot + 1 })
                } else {
                    self.proceed(KPerfPhase::Idle)
                }
            },
            KPerfPhase::QueryingClasses => {
                if reply.status == 0 && reply.words.len() > 0 && reply.words[0]
                    <= u32::MAX as u64 {
                    self.classes = reply.words[0] as u32;
                    self.proceed(KPerfPhase::QueryingCount)
                } else {
                    self.abort(CLASSES_FAILED)
                }
            },
            KPerfPhase::QueryingCount => {
                if reply.status == 0 && reply.words.len() > 0 && reply.words[0]
                    <= usize::MAX as u64 {
                    self.registers = reply.words[0] as usize;
                    self.proceed(KPerfPhase::QueryingMap)
                } else {
                    self.abort(REGISTER_COUNT_FAILED)
                }
            },
            KPerfPhase::QueryingMap => {
                if reply.status == 0 && self.bind_registers(&reply.words) {
                    self.proceed(KPerfPhase::QueryingRegisters)
                } else {
                    self.abort(REGISTER_MAP_FAILED)
                }
            },
            KPerfPhase::QueryingRegisters => {
                if reply.status == 0 {
                    self.config = reply.words;
                    self.proceed(KPerfPhase::ForcingAll)
                } else {
                    self.abort(KPC_CONFIG_FAILED)
                }
            },
            KPerfPhase::ForcingAll => {
                if reply.status != 0 {
                    self.abort(FORCE_ALL_FAILED)
                } else if (self.classes & KPC_CLASS_CONFIGURABLE_MASK != 0) && self.registers
                    != 0 {
                    self.proceed(KPerfPhase::Configuring)
                } else {
                    self.proceed(KPerfPhase::EnablingCounting)
                }
            },
            KPerfPhase::Configuring => {
                if reply.status != 0 {
                    self.abort(KPC_CONFIG_FAILED)
                } else {
                    self.proceed(KPerfPhase::EnablingCounting)
                }
            },
            KPerfPhase::EnablingCounting => {
                if reply.status != 0 {
                    self.abort(COUNTING_FAILED)
                } else {
                    self.proceed(KPerfPhase::EnablingThreadCounting)
                }
            },
            KPerfPhase::EnablingThreadCounting => {
                if reply.status != 0 {
                    self.abort(THREAD_COUNTING_FAILED)
                } else {
                    self.proceed(KPerfPhase::TakingBaseline)
                }
            },
            KPerfPhase::TakingBaseline => {
                if reply.status == 0 && reply.words.len() == REGISTERS {
                    self.before = reply.words;
                    self.proceed(KPerfPhase::Running)
                } else {
                    self.abort(SNAPSHOT_FAILED)
                }
            },
            KPerfPhase::TakingReading => {
                if reply.status == 0 && reply.words.len() == REGISTERS {
                    self.after = reply.words;
                    self.proceed(KPerfPhase::DisablingCounting)
                } else {
                    self.abort(SNAPSHOT_FAILED)
                }
            },
            KPerfPhase::DisablingCounting => self.proceed(KPerfPhase::DisablingThreadCounting),
            KPerfPhase::DisablingThreadCounting => self.proceed(KPerfPhase::Stopped),
            KPerfPhase::FreeingConfig => {
                let next = self.after_config();
                self.proceed(next)
            },
            KPerfPhase::FreeingDb => self.proceed(KPerfPhase::Released),
            _ => Ok(()),
        }
    }

    /// The value of the counter at position `id` of the request.
    pub fn peek(&self, id: usize) -> (value: Option<CounterValue>)
        requires
            self@.wf(),
        ensures
            value == self@.peeked(id as int),
    {
        match self.phase {
            KPerfPhase::Stopped => {
                if id >= self.handles.len() {
                    return None;
                }
                let handle = self.handles[id];
                Some(
                    CounterValue {
                        kind: handle.kind,
                        value: advance(self.before[handle.reg_id], self.after[handle.reg_id]),
                    },
                )
            },
            _ => None,
        }
    }
}

/// Whether every requested counter is one that the frameworks can count.
pub open spec fn supports_all(groups: Seq<Seq<StandaloneCounter>>) -> bool {
    forall|g: int, e: int|
        0 <= g < groups.len() && 0 <= e < groups[g].len() ==> supports(
            (#[trigger] groups[g][e]).counter,
        )
}

/// Why a request is refused, if it is: the frameworks take one group, of at
/// most `MAX_COUNTERS` counters, and measure the calling thread only.
pub open spec fn refusal(pid: Option<i32>, groups: Seq<Seq<StandaloneCounter>>) -> Option<Seq<char>> {
    if groups.len() != 1 {
        Some(ONE_GROUP_ONLY@)
    } else if groups[0].len() > MAX_COUNTERS {
        Some(TOO_MANY_COUNTERS@)
    } else if pid.is_some() {
        Some(NO_ATTACH@)
    } else {
        None
    }
}

/// The counters that a group creates: nothing is configured yet, and the
/// number of events of the database is the first thing to be asked for.
pub open spec fn planned(group: Seq<StandaloneCounter>) -> KPerfState {
    KPerfState {
        handles: Seq::new(
            group.len(),
            |i: int| NativeCounterHandle { kind: group[i].counter, reg_id: 0, event: 0 },
        ),
        events: 0,
        classes: 0,
        registers: 0,
        config: Seq::empty(),
        before: Seq::new(REGISTERS as nat, |i: int| 0u64),
        after: Seq::new(REGISTERS as nat, |i: int| 0u64),
        has_db: false,
        has_config: false,
        phase: KPerfPhase::CountingEvents,
    }
}

fn zeroed_snapshot() -> (snapshot: Vec<u64>)
    ensures
        snapshot@ == Seq::new(REGISTERS as nat, |i: int| 0u64),
{
    let mut snapshot: Vec<u64> = Vec::new();
    let mut i: usize = 0;
    while i < REGISTERS
        invariant
            i <= REGISTERS,
            snapshot@ == Seq::new(i as nat, |k: int| 0u64),
        decreases REGISTERS - i,
    {
        snapshot.push(0);
        assert(snapshot@ =~= Seq::new((i + 1) as nat, |k: int| 0u64));
        i += 1;
    }
    snapshot
}

impl KPerfBackend {
    pub fn new() -> (backend: KPerfBackend) {
        KPerfBackend {  }
    }

    /// Whether the frameworks can count a counter.
    pub fn is_supported(kind: &CounterKind) -> (supported: bool)
        ensures
            supported == supports(*kind),
    {
        names_of(kind).is_some()
    }

    /// Plans the counters of a request. Nothing is asked of the frameworks
    /// here: the configuration is made step by step as the host answers the
    /// requests of the counters that are returned.
    pub fn create_counters(&self, pid: Option<i32>, groups: &[CountersGroup]) -> (created: Result<
        KPerfCounters,
        String,
    >)
        requires
            supports_all(requests(groups@)),
        ensures
            match created {
                Ok(counters) => refusal(pid, requests(groups@)).is_none() && counters@ == planned(
                    requests(groups@)[0],
                ) && counters@.wf(),
                Err(message) => refusal(pid, requests(groups@)) == Some(message@),
            },
    {
        if groups.len() != 1 {
            return Err(String::from_str(ONE_GROUP_ONLY));
        }
        let group = &groups[0].counters;
        if group.len() > MAX_COUNTERS {
            return Err(String::from_str(TOO_MANY_COUNTERS));
        }
        if pid.is_some() {
            return Err(String::from_str(NO_ATTACH));
        }
        let mut handles: Vec<NativeCounterHandle> = Vec::new();
        let mut i: usize = 0;
        while i < group.len()
            invariant
                i <= group@.len(),
                handles@ == Seq::new(
                    i as nat,
                    |k: int| NativeCounterHandle { kind: group@[k].counter, reg_id: 0, event: 0 },
                ),
            decreases group@.len() - i,
        {
            handles.push(NativeCounterHandle { kind: group[i].counter, reg_id: 0, event: 0 });
            assert(handles@ =~= Seq::new(
                (i + 1) as nat,
                |k: int| NativeCounterHandle { kind: group@[k].counter, reg_id: 0, event: 0 },
            ));
            i += 1;
        }
        let counters = KPerfCounters {
            handles,
            events: 0,
            classes: 0,
            registers: 0,
            config: Vec::new(),
            before: zeroed_snapshot(),
            after: zeroed_snapshot(),
            has_db: false,
            has_config: false,
            phase: KPerfPhase::CountingEvents,
        };
        assert(counters@ =~= planned(requests(groups@)[0]));
        assert forall|k: int| 0 <= k < counters@.handles.len() implies supports(
            (#[trigger] counters@.handles[k]).kind,
        ) by {
            assert(supports(requests(groups@)[0][k].counter));
        }
        Ok(counters)
    }
}

/// A request for more counters than the frameworks
/// schedule at once is refused, whatever else it asks for.
pub proof fn lemma_capacity_enforced(pid: Option<i32>, groups: Seq<Seq<StandaloneCounter>>)
    requires
        creation_order(groups).len() > MAX_COUNTERS,
    ensures
        refusal(pid, groups).is_some(),
        groups.len() == 1 ==> refusal(pid, groups) == Some(TOO_MANY_COUNTERS@),
{
    if groups.len() == 1 {
        assert(crate::counter::requested_kinds(groups, 0).len() == 0);
        assert(creation_order(groups) =~= kinds_of(groups[0]));
    }
}

/// The counters that a request creates are the requested counters, one for
/// one and in order.
pub proof fn lemma_created_in_order(pid: Option<i32>, groups: Seq<Seq<StandaloneCounter>>)
    requires
        refusal(pid, groups).is_none(),
    ensures
        planned(groups[0]).kinds() == creation_order(groups),
{
    assert(crate::counter::requested_kinds(groups, 0) =~= Seq::empty());
    assert(creation_order(groups) =~= kinds_of(groups[0]));
    assert(planned(groups[0]).kinds() =~= kinds_of(groups[0]));
}

/// No operation on a set of counters, and no reply of the host, changes
/// which counters the set holds or their order.
pub proof fn lemma_counters_are_stable(state: KPerfState, reply: Reply)
    requires
        state.wf(),
    ensures
        state.started().kinds() == state.kinds(),
        state.stopped().kinds() == state.kinds(),
        state.released().kinds() == state.kinds(),
        state.resumed(reply).0.kinds() == state.kinds(),
        state.started().wf(),
        state.stopped().wf(),
        state.released().wf(),
        state.resumed(reply).0.wf(),
{
    assert(state.resumed(reply).0.kinds() =~= state.kinds());
}

/// After a completed interval there is a value for every
/// position of the request, of the counter at that position, and none for
/// any position past the last.
pub proof fn lemma_peek_in_order(state: KPerfState, index: int)
    requires
        state.phase == KPerfPhase::Stopped,
    ensures
        0 <= index < state.kinds().len() ==> state.peeked(index).is_some() && state.peeked(
            index,
        ).unwrap().kind == state.kinds()[index],
        index >= state.kinds().len() ==> state.peeked(index).is_none(),
{
}

/// No value is handed out before an interval has been measured to its end.
pub proof fn lemma_no_value_before_stop(state: KPerfState, index: int)
    requires
        state.phase != KPerfPhase::Stopped,
    ensures
        state.peeked(index).is_none(),
{
}

impl KPerfState {
    /// How many operations the host has yet to carry out, at most, before
    /// none is due.
    pub open spec fn steps_left(self) -> int {
        match self.phase {
            KPerfPhase::CountingEvents => self.handles.len() as int + 5,
            KPerfPhase::ListingEvents => self.handles.len() as int + 4,
            KPerfPhase::CreatingDb => self.handles.len() as int + 3,
            KPerfPhase::CreatingConfig => self.handles.len() as int + 2,
            KPerfPhase::ForcingCounters => self.handles.len() as int + 1,
            KPerfPhase::AddingEvent { slot } => self.handles.len() - slot,
            KPerfPhase::QueryingClasses => 9,
            KPerfPhase::QueryingCount => 8,
            KPerfPhase::QueryingMap => 7,
            KPerfPhase::QueryingRegisters => 6,
            KPerfPhase::ForcingAll => 5,
            KPerfPhase::Configuring => 4,
            KPerfPhase::EnablingCounting => 3,
            KPerfPhase::EnablingThreadCounting => 2,
            KPerfPhase::TakingBaseline => 1,
            KPerfPhase::TakingReading => 3,
            KPerfPhase::DisablingCounting => 2,
            KPerfPhase::DisablingThreadCounting => 1,
            KPerfPhase::FreeingConfig => 2,
            KPerfPhase::FreeingDb => 1,
            _ => 0,
        }
    }
}

/// Every operation comes to an end: an operation is due exactly while steps
/// are left, and each reply of the host, whatever it says, leaves fewer.
pub proof fn lemma_operations_end(state: KPerfState, reply: Reply)
    requires
        state.wf(),
    ensures
        state.pending().is_some() <==> state.steps_left() > 0,
        state.steps_left() >= 0,
        state.pending().is_some() ==> state.resumed(reply).0.steps_left() < state.steps_left(),
        state.pending().is_none() ==> state.resumed(reply).0 == state,
{
}

/// Nothing is held when the counters are created: a request that is
/// refused, and one that is only planned, has asked nothing of the
/// frameworks.
pub proof fn lemma_nothing_held_at_creation(group: Seq<StandaloneCounter>)
    ensures
        !planned(group).has_db,
        !planned(group).has_config,
        planned(group).released().pending().is_none(),
{
}

/// The value of a counter is read from the register that the register map
/// gave it at the last start, and the snapshots are those of the last start
/// and the last stop.
pub proof fn lemma_registers_bound_at_start(state: KPerfState, reply: Reply, index: int)
    requires
        state.wf(),
        0 <= index < state.handles.len(),
        reply.status == 0,
    ensures
        state.phase == KPerfPhase::QueryingMap && state.map_fits(reply.words) ==> state.resumed(
            reply,
        ).0.handles[index].reg_id == reply.words[index],
        state.phase == KPerfPhase::TakingBaseline && reply.words.len() == REGISTERS
            ==> state.resumed(reply).0.before == reply.words && state.resumed(reply).0.phase
            == KPerfPhase::Running,
        state.phase == KPerfPhase::TakingReading && reply.words.len() == REGISTERS
            ==> state.resumed(reply).0.after == reply.words,
        state.phase == KPerfPhase::ForcingAll ==> state.resumed(reply).0.pending() == Some(
            if state.configurable() {
                HostCall::KpcSetConfig { classes: state.classes }
            } else {
                HostCall::KpcSetCounting { classes: state.classes }
            },
        ),
{
}

/// The further a register advanced past its baseline without wrapping
/// around, the larger the value.
pub proof fn lemma_elapsed_monotone(before: u64, early: u64, late: u64)
    requires
        before <= early <= late,
    ensures
        elapsed(before, early) <= elapsed(before, late),
        elapsed(before, before) == 0,
{
}

/// The counters that a group creates are well formed, provided the group
/// is not too large and the frameworks can count every counter of it.
pub proof fn lemma_planned_is_well_formed(group: Seq<StandaloneCounter>)
    requires
        group.len() <= MAX_COUNTERS,
        forall|i: int| 0 <= i < group.len() ==> supports((#[trigger] group[i]).counter),
    ensures
        planned(group).wf(),
{
}

} // verus!
