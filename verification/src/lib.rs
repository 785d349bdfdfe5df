//! Uniform measurement of hardware and software performance counters.
//!
//! A [`Builder`] collects the counters to measure and hands them to the
//! backend of the operating system, which plans a set of [`Counters`]. The
//! library performs no operation of the operating system itself: the
//! counters name the operation that is due, the host carries it out and
//! hands back what it observed.

pub mod backends;
pub mod catalog;
pub mod counter;
pub mod events;
pub mod ffi;

use backends::host::{Fault, HostCall, HostReply};
use backends::kperf::KPerfBackend;
use backends::perf::PerfBackend;
use backends::{planned, refusal, supports, supports_all, Backend, BackendCounters, CountersState};
use counter::{creation_order, requests};
use vstd::prelude::*;

pub use backends::BackendKind;
pub use catalog::{find_event_by_name, list_events, list_events_for_backend};
pub use counter::{
    CacheCounter, CacheCounterKind, CacheLevelKind, CacheOpKind, CounterKind, CounterValue,
    CountersGroup, SamplingPrecision, StandaloneCounter, SystemCounter, SystemCounterKind,
};
pub use events::ProcessorFamily;

verus! {

/// The operating system that the process runs on.
#[derive(Debug, Clone, Copy, PartialEq, Eq, Structural)]
pub enum HostOs {
    Linux,
    MacOs,
    Other,
}

pub const BACKEND_NOT_SUPPORTED: &'static str = "Backend not supported for current OS";

pub const UNSUPPORTED_OS: &'static str = "Unsupported OS";

/// Whether a backend runs on an operating system.
pub open spec fn runs_on(kind: BackendKind, os: HostOs) -> bool {
    match kind {
        BackendKind::Perf => os == HostOs::Linux,
        BackendKind::KPerf => os == HostOs::MacOs,
    }
}

/// The backend of an operating system, if it has one.
pub open spec fn default_backend(os: HostOs) -> Option<BackendKind> {
    match os {
        HostOs::Linux => Some(BackendKind::Perf),
        HostOs::MacOs => Some(BackendKind::KPerf),
        HostOs::Other => None,
    }
}

/// Makes the backend of the given kind, if it runs on the operating system.
pub fn create_backend(kind: BackendKind, os: HostOs) -> (created: Result<Backend, String>)
    ensures
        match created {
            Ok(backend) => runs_on(kind, os) && backend.kind() == kind,
            Err(message) => !runs_on(kind, os) && message@ == BACKEND_NOT_SUPPORTED@,
        },
{
    match kind {
        BackendKind::Perf => match os {
            HostOs::Linux => Ok(Backend::Perf(PerfBackend::new())),
            _ => Err(String::from_str(BACKEND_NOT_SUPPORTED)),
        },
        BackendKind::KPerf => match os {
            HostOs::MacOs => Ok(Backend::KPerf(KPerfBackend::new())),
            _ => Err(String::from_str(BACKEND_NOT_SUPPORTED)),
        },
    }
}

/// Makes the backend of the operating system, if it has one.
pub fn create_default_backend(os: HostOs) -> (created: Result<Backend, String>)
    ensures
        match created {
            Ok(backend) => default_backend(os) == Some(backend.kind()),
            Err(message) => default_backend(os).is_none() && message@ == UNSUPPORTED_OS@,
        },
{
    match os {
        HostOs::Linux => create_backend(BackendKind::Perf, os),
        HostOs::MacOs => create_backend(BackendKind::KPerf, os),
        HostOs::Other => Err(String::from_str(UNSUPPORTED_OS)),
    }
}

/// The process identifier of a child, as the kernel's interfaces take it: the
/// same 32 bits, read as a signed number.
pub open spec fn pid_of_child(child: u32) -> i32 {
    if child <= 0x7fff_ffff {
        child as i32
    } else {
        (child - 0x1_0000_0000) as i32
    }
}

/// Collects what is to be measured.
pub struct Builder {
    backend: Backend,
    pid: Option<i32>,
    groups: Vec<CountersGroup>,
    period: Option<u32>,
}

/// The mathematical content of a [`Builder`].
pub struct BuilderState {
    /// The backend that will create the counters.
    pub backend: BackendKind,
    /// The process to measure, if it is not the calling one.
    pub pid: Option<i32>,
    /// The requested counters, by group.
    pub groups: Seq<Seq<StandaloneCounter>>,
    /// The sampling period, if sampling was asked for.
    pub period: Option<u32>,
}

impl BuilderState {
    /// A builder that nothing was asked of yet.
    pub open spec fn empty(backend: BackendKind) -> BuilderState {
        BuilderState { backend, pid: None, groups: Seq::empty(), period: None }
    }

    /// The request with one more counter. All the counters of a request
    /// form one group, in the order in which they were added.
    pub open spec fn with_counter(self, counter: CounterKind) -> BuilderState {
        let added = StandaloneCounter { precision: SamplingPrecision::ArbitrarySkid, counter };
        BuilderState {
            groups: if self.groups.len() == 0 {
                seq![seq![added]]
            } else {
                self.groups.update(0, self.groups[0].push(added))
            },
            ..self
        }
    }

    /// Whether the backend can count every requested counter.
    pub open spec fn supported(self) -> bool {
        supports_all(self.backend, self.groups)
    }
}

impl View for Builder {
    type V = BuilderState;

    closed spec fn view(&self) -> BuilderState {
        BuilderState {
            backend: self.backend.kind(),
            pid: self.pid,
            groups: requests(self.groups@),
            period: self.period,
        }
    }
}

impl Builder {
    fn default(backend: Backend) -> (builder: Builder)
        ensures
            builder@ == BuilderState::empty(backend.kind()),
    {
        let builder = Builder { backend, pid: None, groups: Vec::new(), period: None };
        assert(builder@.groups =~= Seq::empty());
        builder
    }

    /// A builder for the backend of the operating system.
    pub fn new(os: HostOs) -> (builder: Builder)
        requires
            default_backend(os).is_some(),
        ensures
            builder@ == BuilderState::empty(default_backend(os).unwrap()),
    {
        match os {
            HostOs::MacOs => Builder::default(Backend::KPerf(KPerfBackend::new())),
            _ => Builder::default(Backend::Perf(PerfBackend::new())),
        }
    }

    /// A builder for the given backend, if it runs on the operating system.
    pub fn new_from_backend(backend: BackendKind, os: HostOs) -> (created: Result<Builder, String>)
        ensures
            match created {
                Ok(builder) => runs_on(backend, os) && builder@ == BuilderState::empty(backend),
                Err(message) => !runs_on(backend, os) && message@ == BACKEND_NOT_SUPPORTED@,
            },
    {
        match create_backend(backend, os) {
            Ok(backend) => Ok(Builder::default(backend)),
            Err(message) => Err(message),
        }
    }

    /// Asks for the process `pid` to be measured.
    pub fn attach_pid(&mut self, pid: i32)
        ensures
            final(self)@ == (BuilderState { pid: Some(pid), ..old(self)@ }),
    {
        self.pid = Some(pid);
    }

    /// Asks for a child process to be measured, by the identifier that the
    /// operating system gave it.
    pub fn attach(&mut self, child: u32)
        ensures
            final(self)@ == (BuilderState { pid: Some(pid_of_child(child)), ..old(self)@ }),
    {
        let pid: i32 = if child <= 0x7fff_ffff {
            child as i32
        } else {
            (child as i64 - 0x1_0000_0000) as i32
        };
        self.pid = Some(pid);
    }

    /// Asks for sampling with the given period.
    pub fn enable_sampling(&mut self, period: u32)
        ensures
            final(self)@ == (BuilderState { period: Some(period), ..old(self)@ }),
    {
        self.period = Some(period);
    }

    /// Adds a counter to the request.
    pub fn add_counter(&mut self, counter: CounterKind)
        ensures
            final(self)@ == old(self)@.with_counter(counter),
    {
        if self.groups.len() == 0 {
            self.groups.push(CountersGroup::create_from_counter(counter));
            assert(self@.groups =~= old(self)@.with_counter(counter).groups);
        } else {
            self.groups[0].add_counter(counter);
            assert(self@.groups =~= old(self)@.with_counter(counter).groups);
        }
    }

    /// Whether the backend can count every requested counter.
    pub fn is_supported(&self) -> (supported: bool)
        ensures
            supported == self@.supported(),
    {
        let mut g: usize = 0;
        while g < self.groups.len()
            invariant
                g <= self.groups@.len(),
                forall|k: int, e: int|
                    0 <= k < g && 0 <= e < self@.groups[k].len() ==> supports(
                        self@.backend,
                        (#[trigger] self@.groups[k][e]).counter,
                    ),
            decreases self.groups@.len() - g,
        {
            let group = &self.groups[g].counters;
            let mut e: usize = 0;
            while e < group.len()
                invariant
                    e <= group@.len(),
                    g < self.groups@.len(),
                    group@ == self@.groups[g as int],
                    forall|k: int|
                        0 <= k < e ==> supports(self@.backend, (#[trigger] group@[k]).counter),
                decreases group@.len() - e,
            {
                if !self.backend.is_supported(&group[e].counter) {
                    return false;
                }
                e += 1;
            }
            g += 1;
        }
        true
    }

    /// Plans the counters of the request, or reports why the backend
    /// refuses it. Nothing is asked of the operating system here.
    pub fn build(&self) -> (built: Result<Counters, String>)
        requires
            self@.supported(),
        ensures
            match built {
                Ok(counters) => refusal(self@.backend, self@.pid, self@.groups).is_none()
                    && counters@ == planned(self@.backend, self@.pid, self@.groups)
                    && counters@.wf(),
                Err(message) => refusal(self@.backend, self@.pid, self@.groups) == Some(
                    message@,
                ),
            },
    {
        match self.backend.create_counters(self.pid, self.groups.as_slice()) {
            Ok(backend_counters) => Ok(Counters { backend_counters }),
            Err(message) => Err(message),
        }
    }
}

/// A set of counters, as calling code sees it.
pub struct Counters {
    backend_counters: BackendCounters,
}

impl View for Counters {
    type V = CountersState;

    closed spec fn view(&self) -> CountersState {
        self.backend_counters@
    }
}

impl Counters {
    /// Asks for the counters to be started. The host then carries out the
    /// operations that the counters request, until none is due.
    pub fn start(&mut self)
        requires
            old(self)@.wf(),
        ensures
            final(self)@.wf(),
            final(self)@ == old(self)@.started(),
    {
        self.backend_counters.start();
    }

    /// Asks for the counters to be stopped and read. The host then carries
    /// out the operations that the counters request, until none is due.
    pub fn stop(&mut self)
        requires
            old(self)@.wf(),
        ensures
            final(self)@.wf(),
            final(self)@ == old(self)@.stopped(),
    {
        self.backend_counters.stop();
    }

    /// Asks for what the counters hold of the operating system to be given
    /// back. The host then carries out the operations that the counters
    /// request, until none is due; after that the counters are of no use.
    pub fn release(&mut self)
        requires
            old(self)@.wf(),
        ensures
            final(self)@.wf(),
            final(self)@ == old(self)@.released(),
    {
        self.backend_counters.release();
    }

    /// The operation that the host is to carry out now, if any is due.
    pub fn request(&self) -> (call: Option<HostCall>)
        requires
            self@.wf(),
        ensures
            call == self@.pending(),
    {
        self.backend_counters.request()
    }

    /// Takes the host's reply to the pending operation.
    pub fn resume(&mut self, reply: HostReply) -> (outcome: Result<(), Fault>)
        requires
            old(self)@.wf(),
        ensures
            final(self)@.wf(),
            final(self)@ == old(self)@.resumed(reply@).0,
            outcome == match old(self)@.resumed(reply@).1 {
                Some(fault) => Err::<(), Fault>(fault),
                None => Ok::<(), Fault>(()),
            },
    {
        self.backend_counters.resume(reply)
    }

    /// The value of the counter at position `id` of the request.
    pub fn peek(&self, id: usize) -> (value: Option<CounterValue>)
        requires
            self@.wf(),
        ensures
            value == self@.peeked(id as int),
    {
        self.backend_counters.peek(id)
    }

    /// The set of counters of the backend.
    pub fn backend_counters(&self) -> (inner: &BackendCounters)
        ensures
            inner@ == self@,
    {
        &self.backend_counters
    }

    /// A walk over the values, from the first counter on.
    pub fn iter<'a>(&'a self) -> (iterator: CountersIterator<'a>)
        requires
            self@.wf(),
        ensures
            iterator.position() == 0,
            iterator.counters() == self@,
    {
        CountersIterator { cur: 0, backend_counters: &self.backend_counters }
    }
}

/// A walk over the values of a set of counters, in the order of the request.
pub struct CountersIterator<'a> {
    cur: usize,
    backend_counters: &'a BackendCounters,
}

impl<'a> CountersIterator<'a> {
    /// The position of the value that is handed out next.
    pub closed spec fn position(&self) -> int {
        self.cur as int
    }

    /// The counters that are walked over.
    pub closed spec fn counters(&self) -> CountersState {
        self.backend_counters@
    }

    /// Hands out the value at the current position and moves on, or hands
    /// out nothing and stays where there is no value.
    pub fn next(&mut self) -> (value: Option<CounterValue>)
        requires
            old(self).counters().wf(),
        ensures
            value == old(self).counters().peeked(old(self).position()),
            final(self).counters() == old(self).counters(),
            final(self).position() == if value.is_some() {
                old(self).position() + 1
            } else {
                old(self).position()
            },
    {
        let value = self.backend_counters.peek(self.cur);
        if value.is_some() && self.cur < usize::MAX {
            self.cur += 1;
        }
        value
    }
}

impl BuilderState {
    /// The requested counters, in the order in which they were added.
    pub open spec fn requested(self) -> Seq<CounterKind> {
        creation_order(self.groups)
    }
}

/// A builder keeps the counters in the order in which they were added, and
/// keeps them in one group.
pub proof fn lemma_request_order(builder: BuilderState, counter: CounterKind)
    requires
        builder.groups.len() <= 1,
    ensures
        BuilderState::empty(builder.backend).requested() == Seq::<CounterKind>::empty(),
        BuilderState::empty(builder.backend).groups.len() == 0,
        builder.with_counter(counter).groups.len() == 1,
        builder.with_counter(counter).requested() == builder.requested().push(counter),
{
    let added = builder.with_counter(counter);
    assert(counter::requested_kinds(added.groups, 0) =~= Seq::empty());
    assert(counter::requested_kinds(builder.groups, 0) =~= Seq::empty());
    assert(counter::requested_kinds(BuilderState::empty(builder.backend).groups, 0)
        =~= Seq::empty());
    assert(added.requested() =~= counter::kinds_of(added.groups[0]));
    if builder.groups.len() == 1 {
        assert(builder.requested() =~= counter::kinds_of(builder.groups[0]));
    }
    assert(added.requested() =~= builder.requested().push(counter));
}

/// The counters that a request creates are the requested counters, one for
/// one and in order.
pub proof fn lemma_built_in_order(builder: BuilderState)
    requires
        refusal(builder.backend, builder.pid, builder.groups).is_none(),
    ensures
        planned(builder.backend, builder.pid, builder.groups).kinds() == builder.requested(),
{
    match builder.backend {
        BackendKind::Perf => backends::perf::lemma_created_in_order(builder.pid, builder.groups),
        BackendKind::KPerf => backends::kperf::lemma_created_in_order(
            builder.pid,
            builder.groups,
        ),
    }
}

/// A request for more counters than the backend
/// schedules together is refused for that reason, and refused before
/// anything is asked of the operating system.
pub proof fn lemma_capacity_enforced(builder: BuilderState)
    requires
        builder.groups.len() == 1,
        builder.requested().len() > (match builder.backend {
            BackendKind::Perf => backends::perf::MAX_GROUP_COUNTERS,
            BackendKind::KPerf => backends::kperf::MAX_COUNTERS,
        }),
    ensures
        refusal(builder.backend, builder.pid, builder.groups) == Some(
            match builder.backend {
                BackendKind::Perf => backends::perf::TOO_MANY_COUNTERS@,
                BackendKind::KPerf => backends::kperf::TOO_MANY_COUNTERS@,
            },
        ),
{
    assert(counter::requested_kinds(builder.groups, 0) =~= Seq::empty());
    assert(builder.requested() =~= counter::kinds_of(builder.groups[0]));
    assert(builder.groups[0].len() == builder.requested().len());
}

/// No operation on a set of counters, and no reply of the host, changes
/// which counters the set holds or their order.
pub proof fn lemma_counters_are_stable(state: CountersState, reply: backends::host::Reply)
    requires
        state.wf(),
    ensures
        state.started().kinds() == state.kinds() && state.started().wf(),
        state.stopped().kinds() == state.kinds() && state.stopped().wf(),
        state.released().kinds() == state.kinds() && state.released().wf(),
        state.resumed(reply).0.kinds() == state.kinds() && state.resumed(reply).0.wf(),
{
    match state {
        CountersState::Perf(inner) => backends::perf::lemma_counters_are_stable(inner, reply),
        CountersState::KPerf(inner) => backends::kperf::lemma_counters_are_stable(inner, reply),
    }
}

/// A value that is handed out for position `index` is of the
/// counter at that position of the request; no value is handed out for a
/// position past the last counter, nor before an interval has been measured
/// to its end.
pub proof fn lemma_peek_in_order(state: CountersState, index: int)
    ensures
        match state.peeked(index) {
            Some(value) => 0 <= index < state.kinds().len() && value.kind
                == state.kinds()[index] && state.measured(),
            None => true,
        },
        index >= state.kinds().len() ==> state.peeked(index).is_none(),
        state is KPerf && state.measured() && 0 <= index < state.kinds().len()
            ==> state.peeked(index).is_some(),
{
}

/// A walk over the values hands out the values of the positions 0, 1, 2
/// and so on, and ends at the first position without a value.
pub proof fn lemma_walk_in_order(state: CountersState, position: int)
    requires
        state.wf(),
        0 <= position,
        forall|i: int| 0 <= i < position ==> state.peeked(i).is_some(),
    ensures
        position <= state.kinds().len(),
        forall|i: int|
            0 <= i < position ==> (#[trigger] state.peeked(i)).unwrap().kind == state.kinds()[i],
{
    if position > state.kinds().len() {
        assert(state.peeked(state.kinds().len() as int).is_some());
    }
}

/// Every operation comes to an end: the host has only finitely many
/// operations to carry out before none is due, whatever it replies.
pub proof fn lemma_operations_end(state: CountersState, reply: backends::host::Reply)
    requires
        state.wf(),
    ensures
        state.pending().is_some() ==> steps_left(state.resumed(reply).0) < steps_left(state),
        state.pending().is_some() <==> steps_left(state) > 0,
{
    match state {
        CountersState::Perf(inner) => backends::perf::lemma_operations_end(inner, reply),
        CountersState::KPerf(inner) => backends::kperf::lemma_operations_end(inner, reply),
    }
}

/// How many operations the host has yet to carry out, at most, before none
/// is due.
pub open spec fn steps_left(state: CountersState) -> int {
    match state {
        CountersState::Perf(inner) => inner.steps_left(),
        CountersState::KPerf(inner) => inner.steps_left(),
    }
}

/// The counters that a request creates are well formed.
pub proof fn lemma_planned_is_well_formed(builder: BuilderState)
    requires
        builder.supported(),
        builder.requested().len() <= usize::MAX,
        refusal(builder.backend, builder.pid, builder.groups).is_none(),
    ensures
        planned(builder.backend, builder.pid, builder.groups).wf(),
{
    lemma_built_in_order(builder);
    match builder.backend {
        BackendKind::Perf => {
            let state = backends::perf::planned(builder.pid, builder.groups);
            assert(state.handles.len() == state.kinds().len());
            backends::perf::lemma_planned_is_well_formed(builder.pid, builder.groups);
        },
        BackendKind::KPerf => {
            assert forall|i: int| 0 <= i < builder.groups[0].len() implies backends::kperf::supports(
                (#[trigger] builder.groups[0][i]).counter,
            ) by {
                assert(supports(builder.backend, builder.groups[0][i].counter));
            }
            backends::kperf::lemma_planned_is_well_formed(builder.groups[0]);
        },
    }
}

/// What can happen to a set of counters: the caller asks for an operation,
/// or the host replies.
pub enum Happening {
    Start,
    Stop,
    Release,
    Reply(backends::host::Reply),
}

/// The counters after something happened to them.
pub open spec fn after(state: CountersState, happening: Happening) -> CountersState {
    match happening {
        Happening::Start => state.started(),
        Happening::Stop => state.stopped(),
        Happening::Release => state.released(),
        Happening::Reply(reply) => state.resumed(reply).0,
    }
}

/// The counters after a history of happenings, the earliest first.
pub open spec fn after_all(state: CountersState, history: Seq<Happening>) -> CountersState
    decreases history.len(),
{
    if history.len() == 0 {
        state
    } else {
        after(after_all(state, history.drop_last()), history.last())
    }
}

/// Whatever happens to the counters of a request, they stay the requested
/// counters, one for one and in order: a value that is handed out for a
/// position, at any time, is of the counter that was requested at that
/// position, and there is never a value for a position past the last.
pub proof fn lemma_values_follow_the_request(
    builder: BuilderState,
    history: Seq<Happening>,
    index: int,
)
    requires
        builder.supported(),
        builder.requested().len() <= usize::MAX,
        refusal(builder.backend, builder.pid, builder.groups).is_none(),
    ensures
        ({
            let state = after_all(
                planned(builder.backend, builder.pid, builder.groups),
                history,
            );
            &&& state.wf()
            &&& state.kinds() == builder.requested()
            &&& match state.peeked(index) {
                Some(value) => 0 <= index < builder.requested().len() && value.kind
                    == builder.requested()[index],
                None => true,
            }
            &&& index >= builder.requested().len() ==> state.peeked(index).is_none()
        }),
    decreases history.len(),
{
    let first = planned(builder.backend, builder.pid, builder.groups);
    if history.len() == 0 {
        lemma_built_in_order(builder);
        lemma_planned_is_well_formed(builder);
    } else {
        lemma_values_follow_the_request(builder, history.drop_last(), index);
        let before = after_all(first, history.drop_last());
        match history.last() {
            Happening::Reply(reply) => lemma_counters_are_stable(before, reply),
            _ => lemma_counters_are_stable(
                before,
                backends::host::Reply {
                    status: 0,
                    words: Seq::empty(),
                    bytes: Seq::empty(),
                    names: Seq::empty(),
                },
            ),
        }
    }
    lemma_peek_in_order(after_all(first, history), index);
}

} // verus!
