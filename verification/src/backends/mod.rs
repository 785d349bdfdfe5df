//! The counter backends, one per operating system.

pub mod host;
pub mod kperf;
pub mod perf;
pub mod perf_abi;
pub mod perf_record;

use crate::backends::host::{Fault, HostCall, HostReply, Reply};
use crate::backends::kperf::{KPerfBackend, KPerfCounters, KPerfState};
use crate::backends::perf::{PerfBackend, PerfCounters, PerfState};
use crate::counter::{
    requests, CounterKind, CounterValue, CountersGroup, StandaloneCounter, SystemCounter,
};

use vstd::prelude::*;

verus! {

/// The backends that exist.
#[derive(Debug, Clone, Copy, PartialEq, Eq, Structural)]
pub enum BackendKind {
    /// The Linux kernel's performance events.
    Perf,
    /// The kperf and kperfdata frameworks of macOS.
    KPerf,
}

/// The software events that a backend catalogues.
pub open spec fn software_events(backend: BackendKind) -> Seq<SystemCounter> {
    match backend {
        BackendKind::Perf => perf::software_events(),
        BackendKind::KPerf => Seq::empty(),
    }
}

pub fn get_software_events(backend: BackendKind) -> (events: Vec<SystemCounter>)
    ensures
        events@ == software_events(backend),
{
    match backend {
        BackendKind::Perf => perf::get_software_events(),
        BackendKind::KPerf => kperf::get_software_events(),
    }
}

/// A backend: what turns a request for counters into a set of counters.
#[derive(Debug, Clone, Copy)]
pub enum Backend {
    Perf(PerfBackend),
    KPerf(KPerfBackend),
}

/// A set of counters of either backend.
pub enum BackendCounters {
    Perf(PerfCounters),
    KPerf(KPerfCounters),
}

/// The mathematical content of a set of counters of either backend.
pub enum CountersState {
    Perf(PerfState),
    KPerf(KPerfState),
}

/// Whether a backend can count a counter.
pub open spec fn supports(backend: BackendKind, kind: CounterKind) -> bool {
    match backend {
        BackendKind::Perf => perf::supports(kind),
        BackendKind::KPerf => kperf::supports(kind),
    }
}

/// Whether a backend can count every counter of a request.
pub open spec fn supports_all(backend: BackendKind, groups: Seq<Seq<StandaloneCounter>>) -> bool {
    forall|g: int, e: int|
        0 <= g < groups.len() && 0 <= e < groups[g].len() ==> supports(
            backend,
            (#[trigger] groups[g][e]).counter,
        )
}

/// Why a backend refuses a request, if it does.
pub open spec fn refusal(
    backend: BackendKind,
    pid: Option<i32>,
    groups: Seq<Seq<StandaloneCounter>>,
) -> Option<Seq<char>> {
    match backend {
        BackendKind::Perf => if perf::fits(groups) {
            None
        } else {
            Some(perf::TOO_MANY_COUNTERS@)
        },
        BackendKind::KPerf => kperf::refusal(pid, groups),
    }
}

/// The counters that a backend creates for a request that it does not
/// refuse.
pub open spec fn planned(
    backend: BackendKind,
    pid: Option<i32>,
    groups: Seq<Seq<StandaloneCounter>>,
) -> CountersState {
    match backend {
        BackendKind::Perf => CountersState::Perf(perf::planned(pid, groups)),
        BackendKind::KPerf => CountersState::KPerf(kperf::planned(groups[0])),
    }
}

impl CountersState {
    pub open spec fn wf(self) -> bool {
        match self {
            CountersState::Perf(state) => state.wf(),
            CountersState::KPerf(state) => state.wf(),
        }
    }

    /// The kinds of the counters, in the order of the request.
    pub open spec fn kinds(self) -> Seq<CounterKind> {
        match self {
            CountersState::Perf(state) => state.kinds(),
            CountersState::KPerf(state) => state.kinds(),
        }
    }

    /// The operation that the host is to carry out now, if any is due.
    pub open spec fn pending(self) -> Option<HostCall> {
        match self {
            CountersState::Perf(state) => state.pending(),
            CountersState::KPerf(state) => state.pending(),
        }
    }

    /// The counters once a start has been asked for.
    pub open spec fn started(self) -> CountersState {
        match self {
            CountersState::Perf(state) => CountersState::Perf(state.started()),
            CountersState::KPerf(state) => CountersState::KPerf(state.started()),
        }
    }

    /// The counters once a stop has been asked for.
    pub open spec fn stopped(self) -> CountersState {
        match self {
            CountersState::Perf(state) => CountersState::Perf(state.stopped()),
            CountersState::KPerf(state) => CountersState::KPerf(state.stopped()),
        }
    }

    /// The counters once their release has been asked for.
    pub open spec fn released(self) -> CountersState {
        match self {
            CountersState::Perf(state) => CountersState::Perf(state.released()),
            CountersState::KPerf(state) => CountersState::KPerf(state.released()),
        }
    }

    /// The counters after the host's reply to the pending operation, and the
    /// fault that the reply amounts to, if it does.
    pub open spec fn resumed(self, reply: Reply) -> (CountersState, Option<Fault>) {
        match self {
            CountersState::Perf(state) => (
                CountersState::Perf(state.resumed(reply).0),
                state.resumed(reply).1,
            ),
            CountersState::KPerf(state) => (
                CountersState::KPerf(state.resumed(reply).0),
                state.resumed(reply).1,
            ),
        }
    }

    /// The value of the counter at position `index` of the request, if
    /// there is one.
    pub open spec fn peeked(self, index: int) -> Option<CounterValue> {
        match self {
            CountersState::Perf(state) => state.peeked(index),
            CountersState::KPerf(state) => state.peeked(index),
        }
    }

    /// Whether an interval has been measured to its end.
    pub open spec fn measured(self) -> bool {
        match self {
            CountersState::Perf(state) => state.phase == perf::PerfPhase::Stopped,
            CountersState::KPerf(state) => state.phase == kperf::KPerfPhase::Stopped,
        }
    }
}

impl View for BackendCounters {
    type V = CountersState;

    open spec fn view(&self) -> CountersState {
        match self {
            BackendCounters::Perf(counters) => CountersState::Perf(counters@),
            BackendCounters::KPerf(counters) => CountersState::KPerf(counters@),
        }
    }
}

impl Backend {
    pub open spec fn kind(self) -> BackendKind {
        match self {
            Backend::Perf(_) => BackendKind::Perf,
            Backend::KPerf(_) => BackendKind::KPerf,
        }
    }

    /// Which backend this is.
    pub fn backend_kind(&self) -> (kind: BackendKind)
        ensures
            kind == self.kind(),
    {
        match self {
            Backend::Perf(_) => BackendKind::Perf,
            Backend::KPerf(_) => BackendKind::KPerf,
        }
    }

    /// Whether the backend can count a counter.
    pub fn is_supported(&self, kind: &CounterKind) -> (supported: bool)
        ensures
            supported == supports(self.kind(), *kind),
    {
        match self {
            Backend::Perf(_) => PerfBackend::is_supported(kind),
            Backend::KPerf(_) => KPerfBackend::is_supported(kind),
        }
    }

    /// Plans the counters of a request, or refuses the request.
    pub fn create_counters(&self, pid: Option<i32>, groups: &[CountersGroup]) -> (created: Result<
        BackendCounters,
        String,
    >)
        requires
            supports_all(self.kind(), requests(groups@)),
        ensures
            match created {
                Ok(counters) => refusal(self.kind(), pid, requests(groups@)).is_none()
                    && counters@ == planned(self.kind(), pid, requests(groups@))
                    && counters@.wf(),
                Err(message) => refusal(self.kind(), pid, requests(groups@)) == Some(message@),
            },
    {
        match self {
            Backend::Perf(backend) => {
                assert(perf::supports_all(requests(groups@))) by {
                    assert forall|g: int, e: int|
                        0 <= g < requests(groups@).len() && 0 <= e < requests(
                            groups@,
                        )[g].len() implies perf::supports(
                        (#[trigger] requests(groups@)[g][e]).counter,
                    ) by {
                        assert(supports(BackendKind::Perf, requests(groups@)[g][e].counter));
                    }
                }
                match backend.create_counters(pid, groups) {
                    Ok(counters) => Ok(BackendCounters::Perf(counters)),
                    Err(message) => Err(message),
                }
            },
            Backend::KPerf(backend) => {
                assert(kperf::supports_all(requests(groups@))) by {
                    assert forall|g: int, e: int|
                        0 <= g < requests(groups@).len() && 0 <= e < requests(
                            groups@,
                        )[g].len() implies kperf::supports(
                        (#[trigger] requests(groups@)[g][e]).counter,
                    ) by {
                        assert(supports(BackendKind::KPerf, requests(groups@)[g][e].counter));
                    }
                }
                match backend.create_counters(pid, groups) {
                    Ok(counters) => Ok(BackendCounters::KPerf(counters)),
                    Err(message) => Err(message),
                }
            },
        }
    }
}

impl BackendCounters {
    /// The operation that the host is to carry out now, if any is due.
    pub fn request(&self) -> (call: Option<HostCall>)
        requires
            self@.wf(),
        ensures
            call == self@.pending(),
    {
        match self {
            BackendCounters::Perf(counters) => counters.request(),
            BackendCounters::KPerf(counters) => counters.request(),
        }
    }

    /// Takes the host's reply to the pending operation.
    pub fn resume(&mut self, reply: HostReply) -> (outcome: Result<(), Fault>)
        requires
            old(self)@.wf(),
        ensures
            final(self)@.wf(),
            final(self)@ == old(self)@.resumed(reply@).0,
            outcome == match old(self)@.resumed(reply@).1 {
                Some(fault) => Err::<(), Fault>(fault),
                None => Ok::<(), Fault>(()),
            },
    {
        match self {
            BackendCounters::Perf(counters) => counters.resume(reply),
            BackendCounters::KPerf(counters) => counters.resume(reply),
        }
    }

    /// Asks for the counters to be started.
    pub fn start(&mut self)
        requires
            old(self)@.wf(),
        ensures
            final(self)@.wf(),
            final(self)@ == old(self)@.started(),
    {
        match self {
            BackendCounters::Perf(counters) => counters.start(),
            BackendCounters::KPerf(counters) => counters.start(),
        }
    }

    /// Asks for the counters to be stopped and read.
    pub fn stop(&mut self)
        requires
            old(self)@.wf(),
        ensures
            final(self)@.wf(),
            final(self)@ == old(self)@.stopped(),
    {
        match self {
            BackendCounters::Perf(counters) => counters.stop(),
            BackendCounters::KPerf(counters) => counters.stop(),
        }
    }

    /// Asks for what the counters hold of the operating system to be given
    /// back.
    pub fn release(&mut self)
        requires
            old(self)@.wf(),
        ensures
            final(self)@.wf(),
            final(self)@ == old(self)@.released(),
    {
        match self {
            BackendCounters::Perf(counters) => counters.release(),
            BackendCounters::KPerf(counters) => counters.release(),
        }
    }

    /// The value of the counter at position `id` of the request.
    pub fn peek(&self, id: usize) -> (value: Option<CounterValue>)
        requires
            self@.wf(),
        ensures
            value == self@.peeked(id as int),
    {
        match self {
            BackendCounters::Perf(counters) => counters.peek(id),
            BackendCounters::KPerf(counters) => counters.peek(id),
        }
    }
}

} // verus!
