//! The catalog of named counters: the software events of a backend, followed
//! by the hardware events of a processor family.

use crate::backends::{get_software_events, software_events, BackendKind};
use crate::counter::{same_text, SystemCounter, SystemCounterKind};
use crate::events::{
    amd_fam17h_zen1, get_hardware_events, hardware_events, intel_icl, ProcessorFamily,
};
use vstd::prelude::*;

verus! {

/// The catalog of a backend on a processor family.
pub open spec fn catalog(kind: BackendKind, arch: ProcessorFamily) -> Seq<SystemCounter> {
    software_events(kind) + hardware_events(arch)
}

/// The first event at or after position `from` whose canonical name is `name`.
pub open spec fn find_from(events: Seq<SystemCounter>, name: Seq<char>, from: int) -> Option<
    SystemCounter,
>
    decreases events.len() - from,
{
    if from < 0 || from >= events.len() {
        None
    } else if events[from].canonical_name() == name {
        Some(events[from])
    } else {
        find_from(events, name, from + 1)
    }
}

pub fn list_events_for_backend(kind: BackendKind, arch: ProcessorFamily) -> (events: Vec<
    SystemCounter,
>)
    ensures
        events@ == catalog(kind, arch),
{
    let mut events = get_software_events(kind);
    let mut hardware = get_hardware_events(arch);
    events.append(&mut hardware);
    events
}

/// The catalog of the Linux backend on a processor family.
pub fn list_events(arch: ProcessorFamily) -> (events: Vec<SystemCounter>)
    ensures
        events@ == catalog(BackendKind::Perf, arch),
{
    list_events_for_backend(BackendKind::Perf, arch)
}

/// The first event of `list_events(arch)` whose canonical name is `name`.
pub fn find_event_by_name(name: &str, arch: ProcessorFamily) -> (found: Option<SystemCounter>)
    ensures
        found == find_from(catalog(BackendKind::Perf, arch), name@, 0),
{
    let events = list_events(arch);
    let mut i: usize = 0;
    while i < events.len()
        invariant
            i <= events.len(),
            events@ == catalog(BackendKind::Perf, arch),
            find_from(events@, name@, 0) == find_from(events@, name@, i as int),
        decreases events.len() - i,
    {
        let event = events[i];
        let text = event.to_string();
        if same_text(text.as_str(), name) {
            return Some(event);
        }
        i += 1;
    }
    None
}

/// No two of the kernel's software events share a name.
proof fn lemma_software_names_differ()
    ensures
        forall|i: int, j: int|
            0 <= i < j < crate::backends::perf::software_events().len()
                ==> crate::backends::perf::software_events()[i].name@
                != crate::backends::perf::software_events()[j].name@,
{
    let events = crate::backends::perf::software_events();
    reveal_strlit("cpu_clock");
    reveal_strlit("task_clock");
    reveal_strlit("page_faults");
    reveal_strlit("context_switches");
    reveal_strlit("cpu_migrations");
    reveal_strlit("page_faults_min");
    reveal_strlit("page_faults_maj");
    reveal_strlit("alignment_faults");
    reveal_strlit("emulation_faults");
    reveal_strlit("dummy");
    assert(events.len() == 10);
    assert(events[0].name@.len() == 9);
    assert(events[1].name@.len() == 10);
    assert(events[2].name@.len() == 11);
    assert(events[3].name@.len() == 16 && events[3].name@[0] == 'c');
    assert(events[4].name@.len() == 14);
    assert(events[5].name@.len() == 15 && events[5].name@[13] == 'i');
    assert(events[6].name@.len() == 15 && events[6].name@[13] == 'a');
    assert(events[7].name@.len() == 16 && events[7].name@[0] == 'a');
    assert(events[8].name@.len() == 16 && events[8].name@[0] == 'e');
    assert(events[9].name@.len() == 5);
}

/// No two events of a table of hardware events share a name.
proof fn lemma_hardware_names_differ(arch: ProcessorFamily)
    ensures
        forall|i: int, j: int|
            0 <= i < j < hardware_events(arch).len() ==> hardware_events(arch)[i].name@
                != hardware_events(arch)[j].name@,
{
    reveal_strlit("RETIRED_UOPS");
    reveal_strlit("MISALIGNED_LOADS");
    reveal_strlit("UOPS_RETIRED.SLOTS");
    reveal_strlit("UOPS_RETIRED.TOTAL_CYCLES");
    reveal_strlit("UOPS_RETIRED.STALL_CYCLES");
    let amd = amd_fam17h_zen1::events();
    assert(amd.len() == 2);
    assert(amd[0].name@.len() == 12);
    assert(amd[1].name@.len() == 16);
    let intel = intel_icl::events();
    assert(intel.len() == 3);
    assert(intel[0].name@.len() == 18);
    assert(intel[1].name@.len() == 25 && intel[1].name@[13] == 'T');
    assert(intel[2].name@.len() == 25 && intel[2].name@[13] == 'S');
}

/// Every event of a catalog is of the kind of its table: the software events
/// come first, the hardware events after them.
proof fn lemma_catalog_kinds(kind: BackendKind, arch: ProcessorFamily)
    ensures
        forall|i: int|
            0 <= i < catalog(kind, arch).len() ==> (#[trigger] catalog(kind, arch)[i]).kind == (
            if i < software_events(kind).len() {
                SystemCounterKind::Software
            } else {
                SystemCounterKind::Hardware
            }),
{
}

/// Two different entries of a catalog differ in kind or
/// in name.
pub proof fn lemma_catalog_unique(kind: BackendKind, arch: ProcessorFamily)
    ensures
        forall|i: int, j: int|
            0 <= i < catalog(kind, arch).len() && 0 <= j < catalog(kind, arch).len() && i != j
                ==> catalog(kind, arch)[i].identity() != catalog(kind, arch)[j].identity(),
{
    lemma_software_names_differ();
    lemma_hardware_names_differ(arch);
    lemma_catalog_kinds(kind, arch);
    let all = catalog(kind, arch);
    let software = software_events(kind);
    let hardware = hardware_events(arch);
    assert forall|i: int, j: int| 0 <= i < all.len() && 0 <= j < all.len() && i != j implies all[i].identity()
        != all[j].identity() by {
        let (a, b) = if i < j {
            (i, j)
        } else {
            (j, i)
        };
        if b < software.len() {
            assert(all[a] == software[a] && all[b] == software[b]);
        } else if a >= software.len() {
            assert(all[a] == hardware[a - software.len()]);
            assert(all[b] == hardware[b - software.len()]);
        } else {
            assert(all[a].kind != all[b].kind);
        }
    }
}

/// Two events with the same canonical name are of the same kind and name.
pub proof fn lemma_canonical_name_identifies(a: SystemCounter, b: SystemCounter)
    requires
        a.canonical_name() == b.canonical_name(),
    ensures
        a.identity() == b.identity(),
{
    reveal_strlit("SW:");
    reveal_strlit("HW:");
    let name = a.canonical_name();
    assert("SW:"@.len() == 3 && "SW:"@[0] == 'S');
    assert("HW:"@.len() == 3 && "HW:"@[0] == 'H');
    assert(name[0] == (if a.kind == SystemCounterKind::Software {
        'S'
    } else {
        'H'
    }));
    assert(name[0] == (if b.kind == SystemCounterKind::Software {
        'S'
    } else {
        'H'
    }));
    assert(a.kind == b.kind);
    assert(a.name@ =~= name.subrange(3, name.len() as int));
    assert(b.name@ =~= name.subrange(3, name.len() as int));
}

/// Looking up the canonical name of an entry of the catalog finds
/// that entry.
pub proof fn lemma_find_round_trip(arch: ProcessorFamily, i: int)
    requires
        0 <= i < catalog(BackendKind::Perf, arch).len(),
    ensures
        find_from(
            catalog(BackendKind::Perf, arch),
            catalog(BackendKind::Perf, arch)[i].canonical_name(),
            0,
        ) == Some(catalog(BackendKind::Perf, arch)[i]),
{
    let all = catalog(BackendKind::Perf, arch);
    let name = all[i].canonical_name();
    lemma_catalog_unique(BackendKind::Perf, arch);
    assert forall|j: int| 0 <= j < i implies all[j].canonical_name() != name by {
        if all[j].canonical_name() == name {
            lemma_canonical_name_identifies(all[j], all[i]);
        }
    }
    lemma_find_skips(all, name, 0, i);
}

/// A search passes over the entries that do not bear the name.
proof fn lemma_find_skips(events: Seq<SystemCounter>, name: Seq<char>, from: int, to: int)
    requires
        0 <= from <= to <= events.len(),
        forall|j: int| from <= j < to ==> events[j].canonical_name() != name,
    ensures
        find_from(events, name, from) == find_from(events, name, to),
    decreases to - from,
{
    if from < to {
        lemma_find_skips(events, name, from + 1, to);
    }
}

} // verus!
