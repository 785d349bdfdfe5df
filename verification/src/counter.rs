//! The logical vocabulary of counters: what a caller can ask to be measured,
//! and the canonical name of each request.

use vstd::prelude::*;
use vstd::std_specs::cmp::PartialEqSpecImpl;

verus! {

/// Whether a catalogued counter is kept by the operating system or by the
/// processor's monitoring unit.
#[derive(Debug, Clone, Copy, PartialEq, Eq, Structural)]
pub enum SystemCounterKind {
    Software,
    Hardware,
}

/// A catalogued counter. Two counters are the same counter when their kind and
/// name agree; the raw encoding takes no part in identity.
#[derive(Debug, Clone, Copy)]
pub struct SystemCounter {
    pub kind: SystemCounterKind,
    pub name: &'static str,
    pub desc: &'static str,
    pub encoding: u64,
}

impl SystemCounter {
    /// The pair that identifies a counter.
    pub open spec fn identity(self) -> (SystemCounterKind, Seq<char>) {
        (self.kind, self.name@)
    }

    /// The canonical name: `SW:` or `HW:` followed by the counter's name.
    pub open spec fn canonical_name(self) -> Seq<char> {
        match self.kind {
            SystemCounterKind::Software => "SW:"@ + self.name@,
            SystemCounterKind::Hardware => "HW:"@ + self.name@,
        }
    }

    pub fn to_string(&self) -> (text: String)
        ensures
            text@ == self.canonical_name(),
    {
        let prefix = match self.kind {
            SystemCounterKind::Software => "SW:",
            SystemCounterKind::Hardware => "HW:",
        };
        let mut text = String::from_str(prefix);
        text.append(self.name);
        text
    }
}

impl PartialEq for SystemCounter {
    fn eq(&self, other: &Self) -> (same: bool) {
        self.kind == other.kind && same_text(self.name, other.name)
    }
}

impl PartialEqSpecImpl for SystemCounter {
    open spec fn obeys_eq_spec() -> bool {
        true
    }

    open spec fn eq_spec(&self, other: &Self) -> bool {
        self.kind == other.kind && self.name@ == other.name@
    }
}

impl Eq for SystemCounter {}

/// The cache, or cache-like structure, that a cache counter observes.
#[derive(Debug, Clone, Copy, PartialEq, Eq, Structural)]
pub enum CacheLevelKind {
    L1,
    L1I,
    L1D,
    L2,
    L3,
    Last,
    DTLB,
    ITLB,
    BPU,
}

/// Whether a cache counter counts the accesses that were served or those that
/// were not.
#[derive(Debug, Clone, Copy, PartialEq, Eq, Structural)]
pub enum CacheCounterKind {
    Hit,
    Miss,
}

/// The kind of access that a cache counter counts.
#[derive(Debug, Clone, Copy, PartialEq, Eq, Structural)]
pub enum CacheOpKind {
    Read,
    Write,
    Prefetch,
}

#[derive(Debug, Clone, Copy, PartialEq, Eq, Structural)]
pub struct CacheCounter {
    pub kind: CacheCounterKind,
    pub level: CacheLevelKind,
    pub op: CacheOpKind,
}

/// One logical counter: the vocabulary that every backend understands.
#[derive(Debug, Clone, Copy)]
pub enum CounterKind {
    Cycles,
    Instructions,
    Cache(CacheCounter),
    Branches,
    BranchMisses,
    System(SystemCounter),
}

/// How closely a sampled instruction address must follow the event.
#[derive(Debug, Clone, Copy, PartialEq, Eq, Structural)]
pub enum SamplingPrecision {
    ArbitrarySkid,
    ConstantSkid,
    RequestNoSkid,
    ExactIP,
}

/// One counter of a group, with the precision asked of it.
#[derive(Debug, Clone, Copy)]
pub struct StandaloneCounter {
    pub precision: SamplingPrecision,
    pub counter: CounterKind,
}

/// Counters that are scheduled and read together, in the order in which they
/// were added.
#[derive(Debug, Clone)]
pub struct CountersGroup {
    pub counters: Vec<StandaloneCounter>,
}

/// What one counter accumulated between a start and the stop that followed.
#[derive(Debug, Clone, Copy)]
pub struct CounterValue {
    pub kind: CounterKind,
    pub value: usize,
}

impl CacheLevelKind {
    pub open spec fn name(self) -> Seq<char> {
        match self {
            CacheLevelKind::L1 => "l1"@,
            CacheLevelKind::L1I => "l1i"@,
            CacheLevelKind::L1D => "l1d"@,
            CacheLevelKind::L2 => "l2"@,
            CacheLevelKind::L3 => "l3"@,
            CacheLevelKind::Last => "last"@,
            CacheLevelKind::DTLB => "dTLB"@,
            CacheLevelKind::ITLB => "iTLB"@,
            CacheLevelKind::BPU => "BPU"@,
        }
    }

    pub fn as_str(&self) -> (text: &'static str)
        ensures
            text@ == self.name(),
    {
        match self {
            CacheLevelKind::L1 => "l1",
            CacheLevelKind::L1I => "l1i",
            CacheLevelKind::L1D => "l1d",
            CacheLevelKind::L2 => "l2",
            CacheLevelKind::L3 => "l3",
            CacheLevelKind::Last => "last",
            CacheLevelKind::DTLB => "dTLB",
            CacheLevelKind::ITLB => "iTLB",
            CacheLevelKind::BPU => "BPU",
        }
    }

    pub fn to_string(&self) -> (text: String)
        ensures
            text@ == self.name(),
    {
        String::from_str(self.as_str())
    }
}

impl CacheCounterKind {
    pub open spec fn name(self) -> Seq<char> {
        match self {
            CacheCounterKind::Hit => "hit"@,
            CacheCounterKind::Miss => "miss"@,
        }
    }

    pub fn as_str(&self) -> (text: &'static str)
        ensures
            text@ == self.name(),
    {
        match self {
            CacheCounterKind::Hit => "hit",
            CacheCounterKind::Miss => "miss",
        }
    }

    pub fn to_string(&self) -> (text: String)
        ensures
            text@ == self.name(),
    {
        String::from_str(self.as_str())
    }
}

impl CacheOpKind {
    pub open spec fn name(self) -> Seq<char> {
        match self {
            CacheOpKind::Read => "read"@,
            CacheOpKind::Write => "write"@,
            CacheOpKind::Prefetch => "prefetch"@,
        }
    }

    pub fn as_str(&self) -> (text: &'static str)
        ensures
            text@ == self.name(),
    {
        match self {
            CacheOpKind::Read => "read",
            CacheOpKind::Write => "write",
            CacheOpKind::Prefetch => "prefetch",
        }
    }

    pub fn to_string(&self) -> (text: String)
        ensures
            text@ == self.name(),
    {
        String::from_str(self.as_str())
    }
}

impl CacheCounter {
    /// `cache_`, then the level, the operation and the outcome, joined by `_`.
    pub open spec fn name(self) -> Seq<char> {
        "cache_"@ + self.level.name() + "_"@ + self.op.name() + "_"@ + self.kind.name()
    }

    pub fn to_string(&self) -> (text: String)
        ensures
            text@ == self.name(),
    {
        let mut text = String::from_str("cache_");
        text.append(self.level.as_str());
        text.append("_");
        text.append(self.op.as_str());
        text.append("_");
        text.append(self.kind.as_str());
        text
    }
}

impl CounterKind {
    /// The name under which a counter's value is reported.
    pub open spec fn name(self) -> Seq<char> {
        match self {
            CounterKind::Cycles => "cycles"@,
            CounterKind::Instructions => "instructions"@,
            CounterKind::Branches => "branches"@,
            CounterKind::BranchMisses => "branch_misses"@,
            CounterKind::Cache(cache) => cache.name(),
            CounterKind::System(counter) => counter.canonical_name(),
        }
    }

    pub fn to_string(&self) -> (text: String)
        ensures
            text@ == self.name(),
    {
        match self {
            CounterKind::Cycles => String::from_str("cycles"),
            CounterKind::Instructions => String::from_str("instructions"),
            CounterKind::Branches => String::from_str("branches"),
            CounterKind::BranchMisses => String::from_str("branch_misses"),
            CounterKind::Cache(cache) => cache.to_string(),
            CounterKind::System(counter) => counter.to_string(),
        }
    }
}

impl View for CountersGroup {
    type V = Seq<StandaloneCounter>;

    open spec fn view(&self) -> Seq<StandaloneCounter> {
        self.counters@
    }
}

impl CountersGroup {
    pub fn new() -> (group: CountersGroup)
        ensures
            group@ == Seq::<StandaloneCounter>::empty(),
    {
        CountersGroup { counters: Vec::new() }
    }

    /// Adds a counter that asks for no sampling precision.
    pub fn add_counter(&mut self, counter: CounterKind)
        ensures
            final(self)@ == old(self)@.push(
                StandaloneCounter { precision: SamplingPrecision::ArbitrarySkid, counter },
            ),
    {
        self.counters.push(StandaloneCounter { precision: SamplingPrecision::ArbitrarySkid, counter });
    }

    pub fn add_counter_precise(&mut self, counter: CounterKind, precision: SamplingPrecision)
        ensures
            final(self)@ == old(self)@.push(StandaloneCounter { precision, counter }),
    {
        self.counters.push(StandaloneCounter { precision, counter });
    }

    /// A group of one counter, with no sampling precision.
    pub fn create_from_counter(counter: CounterKind) -> (group: CountersGroup)
        ensures
            group@ == seq![StandaloneCounter { precision: SamplingPrecision::ArbitrarySkid, counter }],
    {
        let mut counters: Vec<StandaloneCounter> = Vec::new();
        counters.push(StandaloneCounter { precision: SamplingPrecision::ArbitrarySkid, counter });
        CountersGroup { counters }
    }

    /// The kinds of the group's counters, in order.
    pub open spec fn kinds(self) -> Seq<CounterKind> {
        kinds_of(self@)
    }
}

/// The kinds of the counters of a group, in order.
pub open spec fn kinds_of(group: Seq<StandaloneCounter>) -> Seq<CounterKind> {
    group.map_values(|c: StandaloneCounter| c.counter)
}

/// The mathematical content of a request: the counters of each group.
pub open spec fn requests(groups: Seq<CountersGroup>) -> Seq<Seq<StandaloneCounter>> {
    groups.map_values(|group: CountersGroup| group@)
}

/// The kinds of the counters of the first `n` groups of a request, group
/// after group.
pub open spec fn requested_kinds(groups: Seq<Seq<StandaloneCounter>>, n: int) -> Seq<CounterKind>
    decreases n,
{
    if n <= 0 {
        Seq::empty()
    } else {
        requested_kinds(groups, n - 1) + kinds_of(groups[n - 1])
    }
}

/// The kinds of all the counters of a request, in the order in which a
/// backend creates them.
pub open spec fn creation_order(groups: Seq<Seq<StandaloneCounter>>) -> Seq<CounterKind> {
    requested_kinds(groups, groups.len() as int)
}

/// Whether two strings hold the same characters.
pub fn same_text(a: &str, b: &str) -> (same: bool)
    ensures
        same == (a@ == b@),
{
    String::from_str(a) == String::from_str(b)
}

} // verus!
