use pmu::backends::host::{Fault, HostCall, HostReply};
use pmu::backends::kperf::{
    advance, find_name, names_of, resolve, KPerfBackend, KPerfCounters, KPERFDATA_FRAMEWORK,
    KPERF_FRAMEWORK, KPC_CLASS_CONFIGURABLE_MASK, MAX_COUNTERS, REGISTERS,
};
use pmu::{
    CacheCounter, CacheCounterKind, CacheLevelKind, CacheOpKind, CounterKind, CountersGroup,
};

fn kperf_group(kinds: &[CounterKind]) -> CountersGroup {
    let mut group = CountersGroup::new();
    for kind in kinds {
        group.add_counter(*kind);
    }
    group
}

fn kperf_words(status: i64, words: Vec<u64>) -> HostReply {
    HostReply { status, words, bytes: vec![], names: vec![] }
}

fn kperf_names(status: i64, names: &[&str]) -> HostReply {
    HostReply {
        status,
        words: vec![],
        bytes: vec![],
        names: names.iter().map(|name| name.to_string()).collect(),
    }
}

fn apple_events() -> Vec<&'static str> {
    vec!["L1D_TLB_MISS", "FIXED_CYCLES", "FIXED_INSTRUCTIONS", "INST_BRANCH", "FIXED_CYCLES"]
}

fn intel_events() -> Vec<&'static str> {
    vec![
        "INST_RETIRED.ANY",
        "CPU_CLK_UNHALTED.THREAD",
        "BR_MISP_RETIRED.ALL_BRANCHES",
        "BR_INST_RETIRED.ALL_BRANCHES",
    ]
}

fn snapshot(values: &[(usize, u64)]) -> Vec<u64> {
    let mut registers = vec![0u64; 32];
    for (register, value) in values {
        registers[*register] = *value;
    }
    registers
}

fn register_map(map: &[u64]) -> Vec<u64> {
    let mut registers = vec![0u64; 32];
    registers[..map.len()].copy_from_slice(map);
    registers
}

/// Answers the requests of the creation from a database with these events.
fn configure(counters: &mut KPerfCounters, events: &[&str]) -> Vec<HostCall> {
    let mut calls = Vec::new();
    while let Some(call) = counters.request() {
        calls.push(call);
        let reply = match call {
            HostCall::KpepDbEventsCount => kperf_words(0, vec![events.len() as u64]),
            HostCall::KpepDbEvents { count } => {
                assert_eq!(count, events.len());
                kperf_names(0, events)
            }
            _ => HostReply::status(0),
        };
        assert_eq!(counters.resume(reply), Ok(()));
    }
    calls
}

/// Answers the requests of a start.
fn begin(
    counters: &mut KPerfCounters,
    classes: u64,
    registers: u64,
    map: &[u64],
    before: Vec<u64>,
) -> Vec<HostCall> {
    let mut calls = Vec::new();
    counters.start();
    while let Some(call) = counters.request() {
        calls.push(call);
        let reply = match call {
            HostCall::KpepConfigKpcClasses => kperf_words(0, vec![classes]),
            HostCall::KpepConfigKpcCount => kperf_words(0, vec![registers]),
            HostCall::KpepConfigKpcMap { .. } => kperf_words(0, register_map(map)),
            HostCall::KpepConfigKpc { registers } => kperf_words(0, vec![0xabc; registers]),
            HostCall::KpcGetThreadCounters { .. } => kperf_words(0, before.clone()),
            _ => HostReply::status(0),
        };
        assert_eq!(counters.resume(reply), Ok(()));
    }
    calls
}

/// Answers the requests of a stop.
fn end(counters: &mut KPerfCounters, after: Vec<u64>) -> Vec<HostCall> {
    let mut calls = Vec::new();
    counters.stop();
    while let Some(call) = counters.request() {
        calls.push(call);
        let reply = match call {
            HostCall::KpcGetThreadCounters { .. } => kperf_words(0, after.clone()),
            // What the host says of the two calls that disable counting is of no account.
            _ => HostReply::status(-1),
        };
        assert_eq!(counters.resume(reply), Ok(()));
    }
    calls
}

fn four_counters() -> Vec<CountersGroup> {
    vec![kperf_group(&[
        CounterKind::Cycles,
        CounterKind::Instructions,
        CounterKind::Branches,
        CounterKind::BranchMisses,
    ])]
}

#[test]
fn the_frameworks_are_found_under_their_system_paths() {
    assert_eq!(KPERF_FRAMEWORK, "/System/Library/PrivateFrameworks/kperf.framework/kperf");
    assert_eq!(
        KPERFDATA_FRAMEWORK,
        "/System/Library/PrivateFrameworks/kperfdata.framework/kperfdata"
    );
    assert_eq!(MAX_COUNTERS, 6);
    assert_eq!(REGISTERS, 32);
    assert_eq!(KPC_CLASS_CONFIGURABLE_MASK, 2);
}

#[test]
fn seven_counters_exceed_the_six_registers() {
    let backend = KPerfBackend::new();
    let groups = vec![kperf_group(&[CounterKind::Cycles; 7])];
    match backend.create_counters(None, &groups) {
        Ok(_) => panic!("seven counters were accepted"),
        Err(message) => assert_eq!(message, "Only 6 counters are supported right now"),
    }
    let groups = vec![kperf_group(&[CounterKind::Cycles; 6])];
    assert!(backend.create_counters(None, &groups).is_ok());
}

#[test]
fn only_one_group_is_taken() {
    let backend = KPerfBackend::new();
    for groups in [
        vec![],
        vec![kperf_group(&[CounterKind::Cycles]), kperf_group(&[CounterKind::Branches])],
        vec![kperf_group(&[CounterKind::Cycles; 7]), kperf_group(&[])],
    ] {
        match backend.create_counters(None, &groups) {
            Ok(_) => panic!("a request of {} groups was accepted", groups.len()),
            Err(message) => assert_eq!(message, "Only 1 group is supported currently"),
        }
    }
}

#[test]
fn attaching_to_a_process_fails_explicitly() {
    let backend = KPerfBackend::new();
    let groups = vec![kperf_group(&[CounterKind::Cycles])];
    match backend.create_counters(Some(4242), &groups) {
        Ok(_) => panic!("a request to attach was accepted"),
        Err(message) => assert_eq!(message, "Attaching to a process is not supported"),
    }
    let groups = vec![kperf_group(&[CounterKind::Cycles; 7])];
    match backend.create_counters(Some(4242), &groups) {
        Ok(_) => panic!("a request to attach was accepted"),
        Err(message) => assert_eq!(message, "Only 6 counters are supported right now"),
    }
}

#[test]
fn only_the_generic_counters_have_native_events() {
    assert_eq!(names_of(&CounterKind::Cycles), Some(("FIXED_CYCLES", "CPU_CLK_UNHALTED.THREAD")));
    assert_eq!(
        names_of(&CounterKind::Instructions),
        Some(("FIXED_INSTRUCTIONS", "INST_RETIRED.ANY"))
    );
    assert_eq!(
        names_of(&CounterKind::Branches),
        Some(("INST_BRANCH", "BR_INST_RETIRED.ALL_BRANCHES"))
    );
    assert_eq!(
        names_of(&CounterKind::BranchMisses),
        Some(("INST_BRANCH", "BR_MISP_RETIRED.ALL_BRANCHES"))
    );
    let cache = CounterKind::Cache(CacheCounter {
        kind: CacheCounterKind::Hit,
        level: CacheLevelKind::Last,
        op: CacheOpKind::Read,
    });
    assert_eq!(names_of(&cache), None);
    assert!(!KPerfBackend::is_supported(&cache));
    assert!(KPerfBackend::is_supported(&CounterKind::BranchMisses));
}

#[test]
fn the_apple_name_is_tried_first_and_the_intel_name_after_it() {
    let apple: Vec<String> = apple_events().iter().map(|name| name.to_string()).collect();
    let intel: Vec<String> = intel_events().iter().map(|name| name.to_string()).collect();
    assert_eq!(find_name(&apple, "FIXED_CYCLES"), Some(1));
    assert_eq!(find_name(&apple, "CPU_CLK_UNHALTED.THREAD"), None);
    assert_eq!(resolve(&apple, &CounterKind::Cycles), Some(1));
    assert_eq!(resolve(&intel, &CounterKind::Cycles), Some(1));
    assert_eq!(resolve(&intel, &CounterKind::Instructions), Some(0));
    assert_eq!(resolve(&intel, &CounterKind::BranchMisses), Some(2));
    assert_eq!(resolve(&apple, &CounterKind::BranchMisses), Some(3));
    let both: Vec<String> =
        ["CPU_CLK_UNHALTED.THREAD", "FIXED_CYCLES"].iter().map(|name| name.to_string()).collect();
    assert_eq!(resolve(&both, &CounterKind::Cycles), Some(1));
    assert_eq!(resolve(&Vec::new(), &CounterKind::Cycles), None);
}

#[test]
fn the_configuration_is_made_step_by_step() {
    let backend = KPerfBackend::new();
    let mut counters = backend.create_counters(None, &four_counters()).unwrap();
    let calls = configure(&mut counters, &apple_events());
    assert_eq!(
        calls,
        vec![
            HostCall::KpepDbEventsCount,
            HostCall::KpepDbEvents { count: 5 },
            HostCall::KpepDbCreate,
            HostCall::KpepConfigCreate,
            HostCall::KpepConfigForceCounters,
            HostCall::KpepConfigAddEvent { event: 1 },
            HostCall::KpepConfigAddEvent { event: 2 },
            HostCall::KpepConfigAddEvent { event: 3 },
            HostCall::KpepConfigAddEvent { event: 3 },
        ]
    );
    assert_eq!(counters.request(), None);
}

#[test]
fn a_group_without_counters_still_gets_a_configuration() {
    let backend = KPerfBackend::new();
    let mut counters = backend.create_counters(None, &vec![kperf_group(&[])]).unwrap();
    let calls = configure(&mut counters, &apple_events());
    assert_eq!(calls.len(), 5);
    assert_eq!(calls[4], HostCall::KpepConfigForceCounters);
    begin(&mut counters, 1, 0, &[], snapshot(&[]));
    end(&mut counters, snapshot(&[]));
    assert!(counters.peek(0).is_none());
}

#[test]
fn failures_to_list_the_events_are_reported() {
    let backend = KPerfBackend::new();
    let mut counters = backend.create_counters(None, &four_counters()).unwrap();
    assert_eq!(
        counters.resume(kperf_words(1, vec![5])),
        Err(Fault { fatal: false, message: "Failed to count events" })
    );
    assert_eq!(counters.request(), None);

    let mut counters = backend.create_counters(None, &four_counters()).unwrap();
    assert_eq!(counters.resume(kperf_words(0, vec![5])), Ok(()));
    assert_eq!(
        counters.resume(kperf_names(-1, &apple_events())),
        Err(Fault { fatal: false, message: "Failed to query events" })
    );
    assert_eq!(counters.request(), None);
}

#[test]
fn a_counter_without_an_event_in_the_database_is_fatal() {
    let backend = KPerfBackend::new();
    let mut counters = backend.create_counters(None, &four_counters()).unwrap();
    assert_eq!(counters.resume(kperf_words(0, vec![2])), Ok(()));
    assert_eq!(
        counters.resume(kperf_names(0, &["FIXED_CYCLES", "FIXED_INSTRUCTIONS"])),
        Err(Fault { fatal: true, message: "Failed to find an event" })
    );
    assert_eq!(counters.request(), None);
}

#[test]
fn failures_to_configure_are_fatal() {
    let backend = KPerfBackend::new();
    let messages = [
        "Failed to load kpep database",
        "Failed to create config",
        "Failed to set counters",
        "Failed to add an event",
        "Failed to add an event",
    ];
    for (successes, message) in messages.iter().enumerate() {
        let mut counters = backend.create_counters(None, &four_counters()).unwrap();
        assert_eq!(counters.resume(kperf_words(0, vec![5])), Ok(()));
        assert_eq!(counters.resume(kperf_names(0, &apple_events())), Ok(()));
        for _ in 0..successes {
            assert_eq!(counters.resume(HostReply::status(0)), Ok(()));
        }
        assert_eq!(counters.resume(HostReply::status(1)), Err(Fault { fatal: true, message }));
        assert_eq!(counters.request(), None);
    }
}

#[test]
fn start_programs_the_registers_and_takes_a_baseline() {
    let backend = KPerfBackend::new();
    let mut counters = backend.create_counters(None, &four_counters()).unwrap();
    configure(&mut counters, &intel_events());
    let calls = begin(&mut counters, 3, 4, &[0, 1, 5, 6], snapshot(&[]));
    assert_eq!(
        calls,
        vec![
            HostCall::KpepConfigKpcClasses,
            HostCall::KpepConfigKpcCount,
            HostCall::KpepConfigKpcMap { registers: 32 },
            HostCall::KpepConfigKpc { registers: 4 },
            HostCall::KpcForceAllCtrsSet { value: 1 },
            HostCall::KpcSetConfig { classes: 3 },
            HostCall::KpcSetCounting { classes: 3 },
            HostCall::KpcSetThreadCounting { classes: 3 },
            HostCall::KpcGetThreadCounters { tid: 0, registers: 32 },
        ]
    );
    assert_eq!(counters.config_words(), &vec![0xabcu64; 4]);
}

#[test]
fn the_configurable_registers_are_programmed_only_if_there_are_any() {
    let backend = KPerfBackend::new();
    for (classes, registers) in [(1u64, 4u64), (3, 0), (0, 0)] {
        let mut counters = backend.create_counters(None, &four_counters()).unwrap();
        configure(&mut counters, &apple_events());
        let calls = begin(&mut counters, classes, registers, &[0, 1, 5, 6], snapshot(&[]));
        assert_eq!(calls.len(), 8);
        assert!(!calls.iter().any(|call| matches!(call, HostCall::KpcSetConfig { .. })));
        assert_eq!(calls[5], HostCall::KpcSetCounting { classes: classes as u32 });
    }
}

#[test]
fn stop_takes_a_reading_and_disables_counting() {
    let backend = KPerfBackend::new();
    let mut counters = backend.create_counters(None, &four_counters()).unwrap();
    configure(&mut counters, &apple_events());
    begin(&mut counters, 3, 4, &[0, 1, 5, 6], snapshot(&[]));
    assert_eq!(
        end(&mut counters, snapshot(&[])),
        vec![
            HostCall::KpcGetThreadCounters { tid: 0, registers: 32 },
            HostCall::KpcSetCounting { classes: 0 },
            HostCall::KpcSetThreadCounting { classes: 0 },
        ]
    );
}

#[test]
fn peek_is_the_advance_of_the_counters_register() {
    let backend = KPerfBackend::new();
    let mut counters = backend.create_counters(None, &four_counters()).unwrap();
    configure(&mut counters, &apple_events());
    begin(
        &mut counters,
        3,
        4,
        &[0, 1, 5, 31],
        snapshot(&[(0, 1000), (1, 2000), (5, 10), (31, u64::MAX - 1)]),
    );
    assert!(counters.peek(0).is_none());
    end(&mut counters, snapshot(&[(0, 1500), (1, 2900), (5, 10), (31, 3)]));
    let names: Vec<String> =
        (0..4).map(|i| counters.peek(i).unwrap().kind.to_string()).collect();
    assert_eq!(names, vec!["cycles", "instructions", "branches", "branch_misses"]);
    let values: Vec<usize> = (0..4).map(|i| counters.peek(i).unwrap().value).collect();
    assert_eq!(values, vec![500, 900, 0, 5]);
    assert!(counters.peek(4).is_none());
}

#[test]
fn a_register_that_wrapped_around_still_advanced() {
    assert_eq!(advance(10, 25), 15);
    assert_eq!(advance(25, 25), 0);
    assert_eq!(advance(u64::MAX, 0), 1);
    assert_eq!(advance(u64::MAX - 1, 3), 5);
    assert_eq!(advance(1, 0), u64::MAX as usize);
}

#[test]
fn failures_to_start_are_fatal() {
    let backend = KPerfBackend::new();
    let messages = [
        "Failed to get kpc classes",
        "Failed to get kpc count",
        "Failed to get register mapping",
        "Failed to set kpc config",
        "Failed to set kpc counters",
        "Failed to set kpc config",
        "Failed to set counting",
        "Failed to set thread counting",
        "Failed to get counters",
    ];
    for (successes, message) in messages.iter().enumerate() {
        let mut counters = backend.create_counters(None, &four_counters()).unwrap();
        configure(&mut counters, &apple_events());
        counters.start();
        for _ in 0..successes {
            let reply = match counters.request().unwrap() {
                HostCall::KpepConfigKpcClasses => kperf_words(0, vec![3]),
                HostCall::KpepConfigKpcCount => kperf_words(0, vec![4]),
                HostCall::KpepConfigKpcMap { .. } => kperf_words(0, register_map(&[0, 1, 2, 3])),
                HostCall::KpepConfigKpc { .. } => kperf_words(0, vec![0; 4]),
                _ => HostReply::status(0),
            };
            assert_eq!(counters.resume(reply), Ok(()));
        }
        let failed = kperf_words(1, vec![0; 32]);
        assert_eq!(counters.resume(failed), Err(Fault { fatal: true, message }));
        assert_eq!(counters.request(), None);
        assert!(counters.peek(0).is_none());
    }
}

#[test]
fn a_register_map_that_names_no_register_of_the_snapshot_is_fatal() {
    let backend = KPerfBackend::new();
    for map in [register_map(&[0, 1, 2, 32]), vec![0, 1, 2, 3]] {
        let mut counters = backend.create_counters(None, &four_counters()).unwrap();
        configure(&mut counters, &apple_events());
        counters.start();
        assert_eq!(counters.resume(kperf_words(0, vec![3])), Ok(()));
        assert_eq!(counters.resume(kperf_words(0, vec![4])), Ok(()));
        assert_eq!(
            counters.resume(kperf_words(0, map)),
            Err(Fault { fatal: true, message: "Failed to get register mapping" })
        );
    }
}

#[test]
fn a_short_snapshot_is_fatal() {
    let backend = KPerfBackend::new();
    let mut counters = backend.create_counters(None, &four_counters()).unwrap();
    configure(&mut counters, &apple_events());
    begin(&mut counters, 3, 4, &[0, 1, 5, 6], snapshot(&[]));
    counters.stop();
    assert_eq!(
        counters.resume(kperf_words(0, vec![0; 31])),
        Err(Fault { fatal: true, message: "Failed to get counters" })
    );
    assert!(counters.peek(0).is_none());
}

#[test]
fn the_frameworks_catalogue_no_software_events() {
    assert!(pmu::backends::kperf::get_software_events().is_empty());
}

#[test]
fn release_frees_the_configuration_and_then_its_database() {
    let backend = KPerfBackend::new();
    let mut counters = backend.create_counters(None, &four_counters()).unwrap();
    configure(&mut counters, &apple_events());
    begin(&mut counters, 3, 4, &[0, 1, 5, 6], snapshot(&[]));
    counters.release();
    let mut calls = Vec::new();
    while let Some(call) = counters.request() {
        calls.push(call);
        assert_eq!(counters.resume(HostReply::status(1)), Ok(()));
    }
    assert_eq!(calls, vec![HostCall::KpepConfigFree, HostCall::KpepDbFree]);
    counters.start();
    assert_eq!(counters.request(), None);
    assert!(counters.peek(0).is_none());
}

#[test]
fn release_frees_only_what_exists() {
    let backend = KPerfBackend::new();
    let mut counters = backend.create_counters(None, &four_counters()).unwrap();
    counters.release();
    assert_eq!(counters.request(), None);

    let mut counters = backend.create_counters(None, &four_counters()).unwrap();
    assert_eq!(counters.resume(kperf_words(0, vec![5])), Ok(()));
    assert_eq!(counters.resume(kperf_names(0, &apple_events())), Ok(()));
    assert_eq!(counters.resume(HostReply::status(0)), Ok(()));
    assert!(counters.resume(HostReply::status(1)).is_err());
    counters.release();
    assert_eq!(counters.request(), Some(HostCall::KpepDbFree));
    assert_eq!(counters.resume(HostReply::status(0)), Ok(()));
    assert_eq!(counters.request(), None);
}
