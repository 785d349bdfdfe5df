use pmu::backends::host::{Fault, HostCall, HostReply, PerfEventAttr};
use pmu::backends::BackendCounters;
use pmu::ffi::{
    decode_cache_counter, decode_counter, decode_level, decode_op, decode_outcome, FFIBuilder,
    FFICounters, PMU_BRANCHES, PMU_BRANCH_MISSES, PMU_CACHE_BPU, PMU_CACHE_HIT, PMU_CACHE_L1,
    PMU_CACHE_L1D, PMU_CACHE_LAST, PMU_CACHE_MISS, PMU_CACHE_PREFETCH, PMU_CACHE_READ,
    PMU_CACHE_WRITE, PMU_CYCLES, PMU_INSTRUCTIONS, PMU_SYSTEM, STATUS_FAILED, STATUS_OK,
};
use pmu::{
    create_backend, create_default_backend, BackendKind, Builder, CacheCounter, CacheCounterKind,
    CacheLevelKind, CacheOpKind, CounterKind, CounterValue, Counters, CountersGroup, HostOs,
    ProcessorFamily, SamplingPrecision,
};

fn group_record(enabled: u64, running: u64, members: &[(u64, u64)]) -> Vec<u8> {
    let mut out: Vec<u8> = Vec::new();
    out.extend_from_slice(&(members.len() as u64).to_le_bytes());
    out.extend_from_slice(&enabled.to_le_bytes());
    out.extend_from_slice(&running.to_le_bytes());
    for (value, id) in members {
        out.extend_from_slice(&value.to_le_bytes());
        out.extend_from_slice(&id.to_le_bytes());
    }
    out
}

/// A kernel that opens events under the descriptors 3, 4, ..., gives the
/// event under descriptor `fd` the identifier `100 + fd`, and answers a read
/// with the record it was given.
fn kernel(counters: &mut Counters, record: &[u8]) -> Vec<HostCall> {
    let mut calls = Vec::new();
    let mut next_fd: i64 = 3 + calls.len() as i64;
    while let Some(call) = counters.request() {
        calls.push(call);
        let reply = match call {
            HostCall::PerfEventOpen { .. } => {
                next_fd += 1;
                HostReply::status(next_fd - 1)
            }
            HostCall::PerfEventId { fd } => {
                HostReply { status: 0, words: vec![100 + fd as u64], bytes: vec![], names: vec![] }
            }
            HostCall::Read { count, .. } => {
                assert!(record.len() <= count);
                HostReply {
                    status: record.len() as i64,
                    words: vec![],
                    bytes: record.to_vec(),
                    names: vec![],
                }
            }
            _ => HostReply::status(0),
        };
        assert_eq!(counters.resume(reply), Ok(()));
    }
    calls
}

fn collect(counters: &Counters) -> Vec<CounterValue> {
    let mut values = Vec::new();
    let mut walk = counters.iter();
    while let Some(value) = walk.next() {
        values.push(value);
    }
    assert!(walk.next().is_none());
    values
}

fn four(builder: &mut Builder) {
    builder.add_counter(CounterKind::Cycles);
    builder.add_counter(CounterKind::Instructions);
    builder.add_counter(CounterKind::Branches);
    builder.add_counter(CounterKind::BranchMisses);
}

#[test]
fn basic_measurement() {
    let mut builder = Builder::new(HostOs::Linux);
    four(&mut builder);
    assert!(builder.is_supported());
    let mut counters = builder.build().unwrap();
    let opened = kernel(&mut counters, &[]);
    assert_eq!(opened.len(), 8);
    counters.start();
    kernel(&mut counters, &[]);
    counters.stop();
    let record = group_record(
        1_000,
        1_000,
        &[(2_400_000, 103), (3_000_000, 104), (600_000, 105), (1_200, 106)],
    );
    kernel(&mut counters, &record);

    let values = collect(&counters);
    assert_eq!(values.len(), 4);
    let names: Vec<String> = values.iter().map(|v| v.kind.to_string()).collect();
    assert_eq!(names, vec!["cycles", "instructions", "branches", "branch_misses"]);
    assert!(values[0].value > 0);
    assert!(values[1].value > 0);
    assert!(values[1].value >= values[2].value);
    assert_eq!(values[0].value, 2_400_000);
    assert_eq!(values[3].value, 1_200);
}

#[test]
fn all_the_counters_of_a_request_form_one_group() {
    let mut builder = Builder::new(HostOs::Linux);
    four(&mut builder);
    let mut counters = builder.build().unwrap();
    let group_fds: Vec<i32> = kernel(&mut counters, &[])
        .iter()
        .filter_map(|call| match call {
            HostCall::PerfEventOpen { group_fd, .. } => Some(*group_fd),
            _ => None,
        })
        .collect();
    assert_eq!(group_fds, vec![-1, 3, 3, 3]);
    counters.start();
    assert_eq!(
        kernel(&mut counters, &[]),
        vec![
            HostCall::PerfEventReset { fd: 3, flags: 1 },
            HostCall::PerfEventEnable { fd: 3, flags: 1 },
        ]
    );
}

#[test]
fn the_multiplexing_correction_reaches_the_values() {
    let mut builder = Builder::new(HostOs::Linux);
    builder.add_counter(CounterKind::Cycles);
    let mut counters = builder.build().unwrap();
    kernel(&mut counters, &[]);
    counters.start();
    kernel(&mut counters, &[]);
    counters.stop();
    kernel(&mut counters, &group_record(200, 100, &[(50, 103)]));
    assert_eq!(counters.peek(0).unwrap().value, 100);
    assert!(counters.peek(1).is_none());
}

#[test]
fn the_walk_starts_anew_with_every_call() {
    let mut builder = Builder::new(HostOs::Linux);
    builder.add_counter(CounterKind::Cycles);
    builder.add_counter(CounterKind::Branches);
    let mut counters = builder.build().unwrap();
    kernel(&mut counters, &[]);
    assert!(collect(&counters).is_empty());
    counters.start();
    kernel(&mut counters, &[]);
    assert!(collect(&counters).is_empty());
    counters.stop();
    kernel(&mut counters, &group_record(1, 1, &[(7, 103), (8, 104)]));
    for _ in 0..2 {
        let values: Vec<usize> = collect(&counters).iter().map(|v| v.value).collect();
        assert_eq!(values, vec![7, 8]);
    }
}

#[test]
fn the_walk_ends_at_the_first_counter_without_a_value() {
    let mut builder = Builder::new(HostOs::Linux);
    four(&mut builder);
    let mut counters = builder.build().unwrap();
    kernel(&mut counters, &[]);
    counters.start();
    kernel(&mut counters, &[]);
    counters.stop();
    kernel(&mut counters, &group_record(1, 1, &[(7, 103), (8, 104), (9, 106)]));
    let values: Vec<usize> = collect(&counters).iter().map(|v| v.value).collect();
    assert_eq!(values, vec![7, 8]);
    assert_eq!(counters.peek(3).unwrap().value, 9);
}

#[test]
fn the_target_process_is_opened_and_resumed() {
    let mut builder = Builder::new(HostOs::Linux);
    builder.attach_pid(4242);
    builder.enable_sampling(1000);
    builder.add_counter(CounterKind::Instructions);
    let mut counters = builder.build().unwrap();
    let expected = PerfEventAttr {
        type_: 0,
        config: 1,
        read_format: 15,
        disabled: true,
        exclude_kernel: true,
        exclude_hv: true,
        inherit: true,
    };
    assert_eq!(
        counters.request(),
        Some(HostCall::PerfEventOpen { attr: expected, pid: 4242, cpu: -1, group_fd: -1, flags: 0 })
    );
    kernel(&mut counters, &[]);
    counters.start();
    assert_eq!(kernel(&mut counters, &[]).last(), Some(&HostCall::PtraceCont { pid: 4242 }));
}

#[test]
fn unknown_backend_on_unsupported_os() {
    for os in [HostOs::Linux, HostOs::Other] {
        match Builder::new_from_backend(BackendKind::KPerf, os) {
            Ok(_) => panic!("the macOS backend was made on another system"),
            Err(message) => assert_eq!(message, "Backend not supported for current OS"),
        }
    }
    for os in [HostOs::MacOs, HostOs::Other] {
        match Builder::new_from_backend(BackendKind::Perf, os) {
            Ok(_) => panic!("the Linux backend was made on another system"),
            Err(message) => assert_eq!(message, "Backend not supported for current OS"),
        }
    }
    assert!(Builder::new_from_backend(BackendKind::KPerf, HostOs::MacOs).is_ok());
    assert!(Builder::new_from_backend(BackendKind::Perf, HostOs::Linux).is_ok());
}

#[test]
fn every_system_has_at_most_one_backend_of_its_own() {
    assert!(matches!(
        create_default_backend(HostOs::Linux).unwrap().backend_kind(),
        BackendKind::Perf
    ));
    assert!(matches!(
        create_default_backend(HostOs::MacOs).unwrap().backend_kind(),
        BackendKind::KPerf
    ));
    match create_default_backend(HostOs::Other) {
        Ok(_) => panic!("a backend was made for an unknown system"),
        Err(message) => assert_eq!(message, "Unsupported OS"),
    }
    assert!(create_backend(BackendKind::Perf, HostOs::Linux).is_ok());
    assert!(create_backend(BackendKind::Perf, HostOs::MacOs).is_err());
}

#[test]
fn seven_counters_are_too_many_for_the_macos_backend() {
    let mut builder = Builder::new(HostOs::MacOs);
    for _ in 0..6 {
        builder.add_counter(CounterKind::Cycles);
    }
    assert!(builder.build().is_ok());
    builder.add_counter(CounterKind::Cycles);
    match builder.build() {
        Ok(_) => panic!("seven counters were accepted"),
        Err(message) => assert_eq!(message, "Only 6 counters are supported right now"),
    }
}

#[test]
fn a_request_without_counters_has_no_group() {
    let builder = Builder::new(HostOs::MacOs);
    match builder.build() {
        Ok(_) => panic!("a request without a group was accepted"),
        Err(message) => assert_eq!(message, "Only 1 group is supported currently"),
    }
    let builder = Builder::new(HostOs::Linux);
    let counters = builder.build().unwrap();
    assert_eq!(counters.request(), None);
}

#[test]
fn a_request_is_checked_against_what_its_backend_counts() {
    let cache = CounterKind::Cache(CacheCounter {
        kind: CacheCounterKind::Hit,
        level: CacheLevelKind::Last,
        op: CacheOpKind::Read,
    });
    let mut linux = Builder::new(HostOs::Linux);
    linux.add_counter(CounterKind::Cycles);
    linux.add_counter(cache);
    assert!(linux.is_supported());
    let mut macos = Builder::new(HostOs::MacOs);
    macos.add_counter(CounterKind::Cycles);
    assert!(macos.is_supported());
    macos.add_counter(cache);
    assert!(!macos.is_supported());
}

#[test]
fn measurement_on_macos_through_the_facade() {
    let mut builder = Builder::new(HostOs::MacOs);
    four(&mut builder);
    let mut counters = builder.build().unwrap();
    let events = ["FIXED_CYCLES", "FIXED_INSTRUCTIONS", "INST_BRANCH"];
    let mut snapshots = vec![vec![10u64; 32], vec![25u64; 32]].into_iter();
    for phase in 0..3 {
        if phase == 1 {
            counters.start();
        }
        if phase == 2 {
            counters.stop();
        }
        while let Some(call) = counters.request() {
            let reply = match call {
                HostCall::KpepDbEventsCount => {
                    HostReply { status: 0, words: vec![3], bytes: vec![], names: vec![] }
                }
                HostCall::KpepDbEvents { .. } => HostReply {
                    status: 0,
                    words: vec![],
                    bytes: vec![],
                    names: events.iter().map(|e| e.to_string()).collect(),
                },
                HostCall::KpepConfigKpcClasses => {
                    HostReply { status: 0, words: vec![1], bytes: vec![], names: vec![] }
                }
                HostCall::KpepConfigKpcCount => {
                    HostReply { status: 0, words: vec![0], bytes: vec![], names: vec![] }
                }
                HostCall::KpepConfigKpcMap { registers } => HostReply {
                    status: 0,
                    words: (0..registers as u64).collect(),
                    bytes: vec![],
                    names: vec![],
                },
                HostCall::KpcGetThreadCounters { .. } => HostReply {
                    status: 0,
                    words: snapshots.next().unwrap(),
                    bytes: vec![],
                    names: vec![],
                },
                _ => HostReply::status(0),
            };
            assert_eq!(counters.resume(reply), Ok(()));
        }
    }
    let values: Vec<usize> = collect(&counters).iter().map(|v| v.value).collect();
    assert_eq!(values, vec![15, 15, 15, 15]);
    assert!(matches!(counters.backend_counters(), BackendCounters::KPerf(_)));
}

#[test]
fn a_fatal_fault_reaches_the_caller_of_the_facade() {
    let mut builder = Builder::new(HostOs::Linux);
    builder.add_counter(CounterKind::Cycles);
    let mut counters = builder.build().unwrap();
    kernel(&mut counters, &[]);
    counters.start();
    assert_eq!(
        counters.resume(HostReply::status(-1)),
        Err(Fault { fatal: true, message: "Failed to reset counters" })
    );
    assert_eq!(counters.request(), None);
}

#[test]
fn integer_codes_stand_for_the_generic_counters() {
    let arch = ProcessorFamily::AmdZen1;
    assert!(matches!(decode_counter(PMU_CYCLES, None, arch), Some(CounterKind::Cycles)));
    assert!(matches!(
        decode_counter(PMU_INSTRUCTIONS, None, arch),
        Some(CounterKind::Instructions)
    ));
    assert!(matches!(decode_counter(PMU_BRANCHES, None, arch), Some(CounterKind::Branches)));
    assert!(matches!(
        decode_counter(PMU_BRANCH_MISSES, Some("ignored"), arch),
        Some(CounterKind::BranchMisses)
    ));
    assert!(decode_counter(5, None, arch).is_none());
    assert!(decode_counter(-1, None, arch).is_none());
}

#[test]
fn the_code_of_a_catalogued_counter_needs_its_name() {
    let arch = ProcessorFamily::AmdZen1;
    assert!(decode_counter(PMU_SYSTEM, None, arch).is_none());
    assert!(decode_counter(PMU_SYSTEM, Some("HW:NO_SUCH_EVENT"), arch).is_none());
    match decode_counter(PMU_SYSTEM, Some("HW:RETIRED_UOPS"), arch) {
        Some(CounterKind::System(event)) => assert_eq!(event.encoding, 0xc1),
        _ => panic!("the event was not found"),
    }
    assert!(decode_counter(PMU_SYSTEM, Some("HW:RETIRED_UOPS"), ProcessorFamily::Unknown).is_none());
}

#[test]
fn integer_codes_stand_for_the_cache_dimensions() {
    assert_eq!(decode_level(PMU_CACHE_L1), Some(CacheLevelKind::L1));
    assert_eq!(decode_level(PMU_CACHE_L1D), Some(CacheLevelKind::L1D));
    assert_eq!(decode_level(PMU_CACHE_BPU), Some(CacheLevelKind::BPU));
    assert_eq!(decode_level(9), None);
    assert_eq!(decode_outcome(PMU_CACHE_HIT), Some(CacheCounterKind::Hit));
    assert_eq!(decode_outcome(PMU_CACHE_MISS), Some(CacheCounterKind::Miss));
    assert_eq!(decode_outcome(2), None);
    assert_eq!(decode_op(PMU_CACHE_READ), Some(CacheOpKind::Read));
    assert_eq!(decode_op(PMU_CACHE_WRITE), Some(CacheOpKind::Write));
    assert_eq!(decode_op(PMU_CACHE_PREFETCH), Some(CacheOpKind::Prefetch));
    assert_eq!(decode_op(3), None);
    assert_eq!(
        decode_cache_counter(PMU_CACHE_LAST, PMU_CACHE_MISS, PMU_CACHE_WRITE),
        Some(CacheCounter {
            kind: CacheCounterKind::Miss,
            level: CacheLevelKind::Last,
            op: CacheOpKind::Write
        })
    );
    assert_eq!(decode_cache_counter(PMU_CACHE_LAST, PMU_CACHE_MISS, 7), None);
    assert_eq!(decode_cache_counter(PMU_CACHE_LAST, 7, PMU_CACHE_READ), None);
    assert_eq!(decode_cache_counter(70, PMU_CACHE_HIT, PMU_CACHE_READ), None);
}

#[test]
fn the_entry_points_report_a_status_and_hand_out_names_and_values() {
    let arch = ProcessorFamily::Unknown;
    let mut handle = FFIBuilder { builder: Builder::new(HostOs::Linux) };
    assert_eq!(handle.add_counter(PMU_CYCLES, None, arch), STATUS_OK);
    assert_eq!(handle.add_counter(PMU_SYSTEM, Some("SW:task_clock"), arch), STATUS_OK);
    assert_eq!(handle.add_counter(PMU_SYSTEM, Some("SW:no_such_clock"), arch), STATUS_FAILED);
    assert_eq!(handle.add_counter(PMU_SYSTEM, None, arch), STATUS_FAILED);
    assert_eq!(handle.add_counter(17, None, arch), STATUS_FAILED);
    assert_eq!(
        handle.add_cache_counter(PMU_CACHE_LAST, PMU_CACHE_HIT, PMU_CACHE_READ),
        STATUS_OK
    );
    assert_eq!(handle.add_cache_counter(PMU_CACHE_LAST, PMU_CACHE_HIT, 9), STATUS_FAILED);
    assert_eq!((STATUS_OK, STATUS_FAILED), (0, 1));

    let mut handle = FFICounters { counters: handle.builder.build().unwrap() };
    assert_eq!(kernel(&mut handle.counters, &[]).len(), 6);
    assert_eq!(handle.peek_name(0), None);
    assert_eq!(handle.peek_value(0), None);
    handle.counters.start();
    kernel(&mut handle.counters, &[]);
    handle.counters.stop();
    kernel(&mut handle.counters, &group_record(4, 2, &[(7, 103), (8, 104), (9, 105)]));
    let names: Vec<Option<String>> = (0..4).map(|i| handle.peek_name(i)).collect();
    assert_eq!(
        names,
        vec![
            Some("cycles".to_string()),
            Some("SW:task_clock".to_string()),
            Some("cache_last_read_hit".to_string()),
            None
        ]
    );
    let values: Vec<Option<u64>> = (0..4).map(|i| handle.peek_value(i)).collect();
    assert_eq!(values, vec![Some(14), Some(16), Some(18), None]);
}

#[test]
fn the_facade_releases_what_the_counters_hold() {
    let mut builder = Builder::new(HostOs::Linux);
    four(&mut builder);
    let mut counters = builder.build().unwrap();
    kernel(&mut counters, &[]);
    counters.release();
    assert_eq!(
        kernel(&mut counters, &[]),
        vec![
            HostCall::Close { fd: 3 },
            HostCall::Close { fd: 4 },
            HostCall::Close { fd: 5 },
            HostCall::Close { fd: 6 },
        ]
    );
    assert!(collect(&counters).is_empty());
}

#[test]
fn a_child_is_attached_by_its_identifier() {
    for (child, pid) in [(4242u32, 4242i32), (i32::MAX as u32, i32::MAX), (u32::MAX, -1)] {
        let mut builder = Builder::new(HostOs::Linux);
        builder.attach(child);
        builder.add_counter(CounterKind::Cycles);
        let counters = builder.build().unwrap();
        match counters.request() {
            Some(HostCall::PerfEventOpen { pid: target, .. }) => assert_eq!(target, pid),
            other => panic!("not an open: {:?}", other),
        }
    }
}

#[test]
fn a_group_keeps_its_counters_in_the_order_of_adding() {
    let mut group = CountersGroup::create_from_counter(CounterKind::Branches);
    assert_eq!(group.counters.len(), 1);
    assert_eq!(group.counters[0].precision, SamplingPrecision::ArbitrarySkid);
    group.add_counter(CounterKind::Cycles);
    group.add_counter_precise(CounterKind::Instructions, SamplingPrecision::RequestNoSkid);
    let names: Vec<String> = group.counters.iter().map(|c| c.counter.to_string()).collect();
    assert_eq!(names, vec!["branches", "cycles", "instructions"]);
    assert_eq!(group.counters[1].precision, SamplingPrecision::ArbitrarySkid);
    assert_eq!(group.counters[2].precision, SamplingPrecision::RequestNoSkid);
    assert!(CountersGroup::new().counters.is_empty());
}

#[test]
fn a_backend_takes_the_groups_as_they_are_given() {
    let backend = create_backend(BackendKind::Perf, HostOs::Linux).unwrap();
    assert!(backend.is_supported(&CounterKind::Cycles));
    let groups = vec![
        CountersGroup::create_from_counter(CounterKind::Cycles),
        CountersGroup::create_from_counter(CounterKind::Instructions),
    ];
    let mut counters = backend.create_counters(None, &groups).unwrap();
    let mut group_fds = Vec::new();
    let mut fd = 10;
    while let Some(call) = counters.request() {
        let reply = match call {
            HostCall::PerfEventOpen { group_fd, .. } => {
                group_fds.push(group_fd);
                fd += 1;
                HostReply::status(fd)
            }
            _ => HostReply { status: 0, words: vec![fd as u64], bytes: vec![], names: vec![] },
        };
        assert_eq!(counters.resume(reply), Ok(()));
    }
    assert_eq!(group_fds, vec![-1, -1]);
    counters.start();
    assert_eq!(counters.request(), Some(HostCall::PerfEventReset { fd: 11, flags: 1 }));
    assert!(counters.peek(0).is_none());
    counters.release();
    assert_eq!(counters.request(), Some(HostCall::Close { fd: 11 }));

    let backend = create_backend(BackendKind::KPerf, HostOs::MacOs).unwrap();
    assert!(backend.create_counters(None, &groups).is_err());
}
