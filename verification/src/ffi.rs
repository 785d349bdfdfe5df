//! What the C entry points decide: which counter an integer code stands
//! for, and what status an entry point reports. The entry points themselves,
//! with their pointers, live outside this library.

use crate::catalog::{catalog, find_event_by_name, find_from};
use crate::counter::{
    CacheCounter, CacheCounterKind, CacheLevelKind, CacheOpKind, CounterKind,
};
use crate::events::ProcessorFamily;
use crate::{BackendKind, Builder, Counters};
use vstd::prelude::*;

verus! {

/// The status of an entry point that did what it was asked.
pub const STATUS_OK: i32 = 0;

/// The status of an entry point that did not.
pub const STATUS_FAILED: i32 = 1;

pub const PMU_CYCLES: i32 = 0;

pub const PMU_INSTRUCTIONS: i32 = 1;

pub const PMU_BRANCHES: i32 = 2;

pub const PMU_BRANCH_MISSES: i32 = 3;

pub const PMU_SYSTEM: i32 = 4;

pub const PMU_CACHE_L1: i32 = 0;

pub const PMU_CACHE_L1D: i32 = 1;

pub const PMU_CACHE_L1I: i32 = 2;

pub const PMU_CACHE_L2: i32 = 3;

pub const PMU_CACHE_L3: i32 = 4;

pub const PMU_CACHE_LAST: i32 = 5;

pub const PMU_CACHE_DTLB: i32 = 6;

pub const PMU_CACHE_ITLB: i32 = 7;

pub const PMU_CACHE_BPU: i32 = 8;

pub const PMU_CACHE_HIT: i32 = 0;

pub const PMU_CACHE_MISS: i32 = 1;

pub const PMU_CACHE_READ: i32 = 0;

pub const PMU_CACHE_WRITE: i32 = 1;

pub const PMU_CACHE_PREFETCH: i32 = 2;

/// The cache level that a code stands for.
pub open spec fn level_of_code(code: i32) -> Option<CacheLevelKind> {
    if code == PMU_CACHE_L1 {
        Some(CacheLevelKind::L1)
    } else if code == PMU_CACHE_L1D {
        Some(CacheLevelKind::L1D)
    } else if code == PMU_CACHE_L1I {
        Some(CacheLevelKind::L1I)
    } else if code == PMU_CACHE_L2 {
        Some(CacheLevelKind::L2)
    } else if code == PMU_CACHE_L3 {
        Some(CacheLevelKind::L3)
    } else if code == PMU_CACHE_LAST {
        Some(CacheLevelKind::Last)
    } else if code == PMU_CACHE_DTLB {
        Some(CacheLevelKind::DTLB)
    } else if code == PMU_CACHE_ITLB {
        Some(CacheLevelKind::ITLB)
    } else if code == PMU_CACHE_BPU {
        Some(CacheLevelKind::BPU)
    } else {
        None
    }
}

/// The outcome that a code stands for.
pub open spec fn outcome_of_code(code: i32) -> Option<CacheCounterKind> {
    if code == PMU_CACHE_HIT {
        Some(CacheCounterKind::Hit)
    } else if code == PMU_CACHE_MISS {
        Some(CacheCounterKind::Miss)
    } else {
        None
    }
}

/// The kind of access that a code stands for.
pub open spec fn op_of_code(code: i32) -> Option<CacheOpKind> {
    if code == PMU_CACHE_READ {
        Some(CacheOpKind::Read)
    } else if code == PMU_CACHE_WRITE {
        Some(CacheOpKind::Write)
    } else if code == PMU_CACHE_PREFETCH {
        Some(CacheOpKind::Prefetch)
    } else {
        None
    }
}

/// The cache counter that three codes stand for, if each stands for
/// something.
pub open spec fn cache_counter_of_codes(clevel: i32, ckind: i32, cop: i32) -> Option<
    CacheCounter,
> {
    match (level_of_code(clevel), outcome_of_code(ckind), op_of_code(cop)) {
        (Some(level), Some(kind), Some(op)) => Some(CacheCounter { kind, level, op }),
        _ => None,
    }
}

/// The counter that a code stands for. The code of a catalogued counter
/// needs the counter's canonical name, and stands for the first entry of
/// the catalog that bears it.
pub open spec fn counter_of_code(kind: i32, name: Option<Seq<char>>, arch: ProcessorFamily) -> Option<
    CounterKind,
> {
    if kind == PMU_CYCLES {
        Some(CounterKind::Cycles)
    } else if kind == PMU_INSTRUCTIONS {
        Some(CounterKind::Instructions)
    } else if kind == PMU_BRANCHES {
        Some(CounterKind::Branches)
    } else if kind == PMU_BRANCH_MISSES {
        Some(CounterKind::BranchMisses)
    } else if kind == PMU_SYSTEM {
        match name {
            Some(name) => match find_from(catalog(BackendKind::Perf, arch), name, 0) {
                Some(event) => Some(CounterKind::System(event)),
                None => None,
            },
            None => None,
        }
    } else {
        None
    }
}

pub fn decode_level(code: i32) -> (level: Option<CacheLevelKind>)
    ensures
        level == level_of_code(code),
{
    if code == PMU_CACHE_L1 {
        Some(CacheLevelKind::L1)
    } else if code == PMU_CACHE_L1D {
        Some(CacheLevelKind::L1D)
    } else if code == PMU_CACHE_L1I {
        Some(CacheLevelKind::L1I)
    } else if code == PMU_CACHE_L2 {
        Some(CacheLevelKind::L2)
    } else if code == PMU_CACHE_L3 {
        Some(CacheLevelKind::L3)
    } else if code == PMU_CACHE_LAST {
        Some(CacheLevelKind::Last)
    } else if code == PMU_CACHE_DTLB {
        Some(CacheLevelKind::DTLB)
    } else if code == PMU_CACHE_ITLB {
        Some(CacheLevelKind::ITLB)
    } else if code == PMU_CACHE_BPU {
        Some(CacheLevelKind::BPU)
    } else {
        None
    }
}

pub fn decode_outcome(code: i32) -> (kind: Option<CacheCounterKind>)
    ensures
        kind == outcome_of_code(code),
{
    if code == PMU_CACHE_HIT {
        Some(CacheCounterKind::Hit)
    } else if code == PMU_CACHE_MISS {
        Some(CacheCounterKind::Miss)
    } else {
        None
    }
}

pub fn decode_op(code: i32) -> (op: Option<CacheOpKind>)
    ensures
        op == op_of_code(code),
{
    if code == PMU_CACHE_READ {
        Some(CacheOpKind::Read)
    } else if code == PMU_CACHE_WRITE {
        Some(CacheOpKind::Write)
    } else if code == PMU_CACHE_PREFETCH {
        Some(CacheOpKind::Prefetch)
    } else {
        None
    }
}

pub fn decode_cache_counter(clevel: i32, ckind: i32, cop: i32) -> (counter: Option<CacheCounter>)
    ensures
        counter == cache_counter_of_codes(clevel, ckind, cop),
{
    match (decode_level(clevel), decode_outcome(ckind), decode_op(cop)) {
        (Some(level), Some(kind), Some(op)) => Some(CacheCounter { kind, level, op }),
        _ => None,
    }
}

pub fn decode_counter(kind: i32, name: Option<&str>, arch: ProcessorFamily) -> (counter: Option<
    CounterKind,
>)
    ensures
        counter == counter_of_code(
            kind,
            match name {
                Some(name) => Some(name@),
                None => None,
            },
            arch,
        ),
{
    if kind == PMU_CYCLES {
        Some(CounterKind::Cycles)
    } else if kind == PMU_INSTRUCTIONS {
        Some(CounterKind::Instructions)
    } else if kind == PMU_BRANCHES {
        Some(CounterKind::Branches)
    } else if kind == PMU_BRANCH_MISSES {
        Some(CounterKind::BranchMisses)
    } else if kind == PMU_SYSTEM {
        match name {
            Some(name) => match find_event_by_name(name, arch) {
                Some(event) => Some(CounterKind::System(event)),
                None => None,
            },
            None => None,
        }
    } else {
        None
    }
}

/// The builder behind a handle that C code holds.
pub struct FFIBuilder {
    pub builder: Builder,
}

/// The counters behind a handle that C code holds.
pub struct FFICounters {
    pub counters: Counters,
}

impl FFIBuilder {
    /// Adds the counter that the code stands for, and reports whether it
    /// stands for one.
    pub fn add_counter(&mut self, kind: i32, name: Option<&str>, arch: ProcessorFamily) -> (status:
        i32)
        ensures
            match counter_of_code(
                kind,
                match name {
                    Some(name) => Some(name@),
                    None => None,
                },
                arch,
            ) {
                Some(counter) => status == STATUS_OK && final(self).builder@ == old(
                    self,
                ).builder@.with_counter(counter),
                None => status == STATUS_FAILED && final(self).builder@ == old(self).builder@,
            },
    {
        match decode_counter(kind, name, arch) {
            Some(counter) => {
                self.builder.add_counter(counter);
                STATUS_OK
            },
            None => STATUS_FAILED,
        }
    }

    /// Adds the cache counter that the codes stand for, and reports whether
    /// they stand for one.
    pub fn add_cache_counter(&mut self, clevel: i32, ckind: i32, cop: i32) -> (status: i32)
        ensures
            match cache_counter_of_codes(clevel, ckind, cop) {
                Some(counter) => status == STATUS_OK && final(self).builder@ == old(
                    self,
                ).builder@.with_counter(CounterKind::Cache(counter)),
                None => status == STATUS_FAILED && final(self).builder@ == old(self).builder@,
            },
    {
        match decode_cache_counter(clevel, ckind, cop) {
            Some(counter) => {
                self.builder.add_counter(CounterKind::Cache(counter));
                STATUS_OK
            },
            None => STATUS_FAILED,
        }
    }
}

impl FFICounters {
    /// The name of the counter at position `id`, where it has a value.
    pub fn peek_name(&self, id: usize) -> (name: Option<String>)
        requires
            self.counters@.wf(),
        ensures
            match self.counters@.peeked(id as int) {
                Some(value) => name.is_some() && name.unwrap()@ == value.kind.name(),
                None => name.is_none(),
            },
    {
        match self.counters.peek(id) {
            Some(value) => Some(value.kind.to_string()),
            None => None,
        }
    }

    /// The value of the counter at position `id`, where it has one.
    pub fn peek_value(&self, id: usize) -> (value: Option<u64>)
        requires
            self.counters@.wf(),
        ensures
            match self.counters@.peeked(id as int) {
                Some(counted) => value == Some(counted.value as u64),
                None => value.is_none(),
            },
    {
        match self.counters.peek(id) {
            Some(counted) => Some(counted.value as u64),
            None => None,
        }
    }
}

} // verus!
