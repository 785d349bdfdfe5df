use pmu::backends::get_software_events;
use pmu::events::{
    amd_fam17h_zen1, get_hardware_events, get_processor_family, get_riscv64_family, intel_icl,
    CpuIdentity, X86VendorInfo,
};
use pmu::{
    find_event_by_name, list_events, list_events_for_backend, BackendKind, CacheCounter,
    CacheCounterKind, CacheLevelKind, CacheOpKind, CounterKind, ProcessorFamily, SystemCounter,
    SystemCounterKind,
};

fn all_families() -> Vec<ProcessorFamily> {
    vec![
        ProcessorFamily::Unknown,
        ProcessorFamily::AmdZen1,
        ProcessorFamily::AmdZen2,
        ProcessorFamily::AmdZen3,
        ProcessorFamily::AmdZen4,
        ProcessorFamily::IntelBroadwell,
        ProcessorFamily::IntelHaswell,
        ProcessorFamily::IntelSkylake,
        ProcessorFamily::IntelKabyLake,
        ProcessorFamily::IntelCometLake,
        ProcessorFamily::IntelIceLakeClient,
        ProcessorFamily::IntelIceLakeServer,
        ProcessorFamily::IntelTigerLake,
        ProcessorFamily::IntelRocketLake,
        ProcessorFamily::IntelAlderLake,
        ProcessorFamily::IntelRaptorLake,
        ProcessorFamily::SiFiveU7,
    ]
}

/// The version word with the given four fields.
fn version_word(family: u32, extended_family: u32, extended_model: u32, model: u32) -> u32 {
    (extended_family << 20) | (extended_model << 16) | (family << 8) | (model << 4)
}

#[test]
fn the_kernels_software_events_are_catalogued_with_their_numbers() {
    let events = get_software_events(BackendKind::Perf);
    let listed: Vec<(&str, u64)> = events.iter().map(|e| (e.name, e.encoding)).collect();
    assert_eq!(
        listed,
        vec![
            ("cpu_clock", 0),
            ("task_clock", 1),
            ("page_faults", 2),
            ("context_switches", 3),
            ("cpu_migrations", 4),
            ("page_faults_min", 5),
            ("page_faults_maj", 6),
            ("alignment_faults", 7),
            ("emulation_faults", 8),
            ("dummy", 9),
        ]
    );
    assert!(events.iter().all(|e| e.kind == SystemCounterKind::Software));
    assert_eq!(events[0].desc, "A high-resolution per-CPU timer");
    assert_eq!(events[9].desc, "A placeholder event");
    assert!(get_software_events(BackendKind::KPerf).is_empty());
}

#[test]
fn the_catalog_is_the_software_events_and_then_the_hardware_events() {
    let events = list_events(ProcessorFamily::AmdZen1);
    assert_eq!(events.len(), 12);
    assert_eq!(events[9].to_string(), "SW:dummy");
    assert_eq!(events[10].to_string(), "HW:RETIRED_UOPS");
    assert_eq!(events[10].encoding, 0xc1);
    assert_eq!(events[11].to_string(), "HW:MISALIGNED_LOADS");
    assert_eq!(events[11].encoding, 0x47);
    let events = list_events_for_backend(BackendKind::KPerf, ProcessorFamily::IntelTigerLake);
    let names: Vec<String> = events.iter().map(|e| e.to_string()).collect();
    assert_eq!(
        names,
        vec![
            "HW:UOPS_RETIRED.SLOTS",
            "HW:UOPS_RETIRED.TOTAL_CYCLES",
            "HW:UOPS_RETIRED.STALL_CYCLES"
        ]
    );
}

#[test]
fn the_ice_lake_encodings_are_made_of_event_mask_and_flags() {
    let events = intel_icl::get();
    assert_eq!(events[0].encoding, 0xc2 | 0x0200);
    assert_eq!(events[1].encoding, 0xc2 | 0x0200 | (1 << 23) | (0xa << 23));
    assert_eq!(events[2].encoding, 0xc2 | 0x0200 | (1 << 23) | (1 << 23));
    assert_eq!(amd_fam17h_zen1::get().len(), 2);
}

#[test]
fn unrecognized_hardware_has_no_hardware_events() {
    for arch in all_families() {
        let expected = match arch {
            ProcessorFamily::AmdZen1 => 2,
            ProcessorFamily::IntelTigerLake => 3,
            _ => 0,
        };
        assert_eq!(get_hardware_events(arch).len(), expected);
        assert_eq!(list_events(arch).len(), 10 + expected);
    }
}

#[test]
fn no_two_entries_of_a_catalog_share_kind_and_name() {
    for arch in all_families() {
        for backend in [BackendKind::Perf, BackendKind::KPerf] {
            let events = list_events_for_backend(backend, arch);
            for i in 0..events.len() {
                for j in 0..events.len() {
                    if i != j {
                        assert!(
                            events[i].kind != events[j].kind || events[i].name != events[j].name
                        );
                        assert!(events[i] != events[j]);
                    }
                }
            }
        }
    }
}

#[test]
fn every_entry_is_found_again_by_its_canonical_name() {
    for arch in all_families() {
        for event in list_events(arch) {
            let found = find_event_by_name(&event.to_string(), arch).unwrap();
            assert!(found == event);
            assert_eq!(found.encoding, event.encoding);
            assert_eq!(found.desc, event.desc);
        }
    }
}

#[test]
fn a_name_that_no_entry_bears_finds_nothing() {
    assert!(find_event_by_name("cpu_clock", ProcessorFamily::Unknown).is_none());
    assert!(find_event_by_name("HW:cpu_clock", ProcessorFamily::Unknown).is_none());
    assert!(find_event_by_name("SW:cpu_clock ", ProcessorFamily::Unknown).is_none());
    assert!(find_event_by_name("", ProcessorFamily::Unknown).is_none());
    assert!(find_event_by_name("HW:RETIRED_UOPS", ProcessorFamily::Unknown).is_none());
    assert!(find_event_by_name("HW:RETIRED_UOPS", ProcessorFamily::AmdZen1).is_some());
    assert_eq!(
        find_event_by_name("SW:page_faults", ProcessorFamily::AmdZen1).unwrap().encoding,
        2
    );
}

#[test]
fn counters_are_the_same_by_kind_and_name_alone() {
    let a = SystemCounter { kind: SystemCounterKind::Hardware, name: "X", desc: "one", encoding: 1 };
    let b = SystemCounter { kind: SystemCounterKind::Hardware, name: "X", desc: "two", encoding: 2 };
    let c = SystemCounter { kind: SystemCounterKind::Software, name: "X", desc: "one", encoding: 1 };
    let d = SystemCounter { kind: SystemCounterKind::Hardware, name: "Y", desc: "one", encoding: 1 };
    assert!(a == b);
    assert!(a != c);
    assert!(a != d);
}

#[test]
fn every_counter_has_its_name() {
    assert_eq!(CounterKind::Cycles.to_string(), "cycles");
    assert_eq!(CounterKind::Instructions.to_string(), "instructions");
    assert_eq!(CounterKind::Branches.to_string(), "branches");
    assert_eq!(CounterKind::BranchMisses.to_string(), "branch_misses");
    let cache = CacheCounter {
        kind: CacheCounterKind::Miss,
        level: CacheLevelKind::L1D,
        op: CacheOpKind::Prefetch,
    };
    assert_eq!(cache.to_string(), "cache_l1d_prefetch_miss");
    assert_eq!(CounterKind::Cache(cache).to_string(), "cache_l1d_prefetch_miss");
    let system =
        SystemCounter { kind: SystemCounterKind::Software, name: "dummy", desc: "", encoding: 9 };
    assert_eq!(system.to_string(), "SW:dummy");
    assert_eq!(CounterKind::System(system).to_string(), "SW:dummy");
    let hardware = SystemCounter { kind: SystemCounterKind::Hardware, ..system };
    assert_eq!(hardware.to_string(), "HW:dummy");
}

#[test]
fn every_cache_dimension_has_its_name() {
    let levels = [
        (CacheLevelKind::L1, "l1"),
        (CacheLevelKind::L1I, "l1i"),
        (CacheLevelKind::L1D, "l1d"),
        (CacheLevelKind::L2, "l2"),
        (CacheLevelKind::L3, "l3"),
        (CacheLevelKind::Last, "last"),
        (CacheLevelKind::DTLB, "dTLB"),
        (CacheLevelKind::ITLB, "iTLB"),
        (CacheLevelKind::BPU, "BPU"),
    ];
    for (level, name) in levels {
        assert_eq!(level.to_string(), name);
        assert_eq!(level.as_str(), name);
    }
    assert_eq!(CacheCounterKind::Hit.to_string(), "hit");
    assert_eq!(CacheCounterKind::Miss.to_string(), "miss");
    assert_eq!(CacheOpKind::Read.to_string(), "read");
    assert_eq!(CacheOpKind::Write.to_string(), "write");
    assert_eq!(CacheOpKind::Prefetch.to_string(), "prefetch");
}

#[test]
fn the_version_word_is_cut_into_its_fields() {
    // A Zen 1 part: family 0xf, extended family 0x8, extended model 0x1.
    assert!(X86VendorInfo::new(0x0081_0f10).as_host_arch() == ProcessorFamily::AmdZen1);
    // Stepping and the bits above the extended family take no part.
    assert!(X86VendorInfo::new(0xf081_0f1f).as_host_arch() == ProcessorFamily::AmdZen1);
    // Tiger Lake: family 6, extended model 8, model 0xc.
    assert!(X86VendorInfo::new(0x0008_06c1).as_host_arch() == ProcessorFamily::IntelTigerLake);
    assert_eq!(X86VendorInfo::new(0x0008_06c1).eax, 0x0008_06c1);
}

#[test]
fn every_listed_pattern_denotes_its_family() {
    let amd = [
        (0x8, vec![0x0, 0x1, 0x2], ProcessorFamily::AmdZen1),
        (0x8, vec![0x3, 0x4, 0x6, 0x7, 0x9], ProcessorFamily::AmdZen2),
        (0xa, vec![0x0, 0x2, 0x4, 0x5], ProcessorFamily::AmdZen3),
        (0xa, vec![0x1, 0x6, 0x7], ProcessorFamily::AmdZen4),
    ];
    for (extended_family, extended_models, expected) in amd {
        for extended_model in extended_models {
            for model in [0x0, 0x7, 0xf] {
                let word = version_word(0xf, extended_family, extended_model, model);
                assert!(X86VendorInfo::new(word).as_host_arch() == expected);
            }
        }
    }
    let intel = [
        (0x3, 0xc, ProcessorFamily::IntelHaswell),
        (0x4, 0x5, ProcessorFamily::IntelHaswell),
        (0x4, 0x6, ProcessorFamily::IntelHaswell),
        (0x3, 0xd, ProcessorFamily::IntelBroadwell),
        (0x4, 0x7, ProcessorFamily::IntelBroadwell),
        (0x5, 0xe, ProcessorFamily::IntelSkylake),
        (0x4, 0xe, ProcessorFamily::IntelSkylake),
        (0x8, 0xe, ProcessorFamily::IntelKabyLake),
        (0x9, 0xe, ProcessorFamily::IntelKabyLake),
        (0xa, 0x5, ProcessorFamily::IntelCometLake),
        (0x7, 0xe, ProcessorFamily::IntelIceLakeClient),
        (0x6, 0xc, ProcessorFamily::IntelIceLakeServer),
        (0x6, 0xa, ProcessorFamily::IntelIceLakeServer),
        (0x8, 0xc, ProcessorFamily::IntelTigerLake),
        (0x8, 0xd, ProcessorFamily::IntelTigerLake),
        (0xa, 0x7, ProcessorFamily::IntelRocketLake),
        (0x9, 0x7, ProcessorFamily::IntelAlderLake),
        (0x9, 0xa, ProcessorFamily::IntelAlderLake),
        (0xb, 0x7, ProcessorFamily::IntelRaptorLake),
        (0xb, 0xa, ProcessorFamily::IntelRaptorLake),
    ];
    for (extended_model, model, expected) in intel {
        let word = version_word(0x6, 0, extended_model, model);
        assert!(X86VendorInfo::new(word).as_host_arch() == expected);
    }
}

#[test]
fn every_other_pattern_is_unknown() {
    let unknown = [
        version_word(0xf, 0x8, 0x5, 0),
        version_word(0xf, 0x8, 0x8, 0),
        version_word(0xf, 0xa, 0x3, 0),
        version_word(0xf, 0x9, 0x1, 0),
        version_word(0xf, 0x0, 0x1, 0),
        version_word(0x6, 0x1, 0x8, 0xc),
        version_word(0x6, 0x0, 0x8, 0xb),
        version_word(0x6, 0x0, 0x3, 0xe),
        version_word(0x5, 0x0, 0x8, 0xc),
        version_word(0xf, 0x18, 0x1, 0),
        0,
        u32::MAX,
    ];
    for word in unknown {
        assert!(X86VendorInfo::new(word).as_host_arch() == ProcessorFamily::Unknown);
    }
}

#[test]
fn the_sifive_cores_are_known_by_their_architecture_identifier() {
    assert!(get_riscv64_family(Some("0x8000000000000007")) == ProcessorFamily::SiFiveU7);
    assert!(get_riscv64_family(Some("0x8000000000000008")) == ProcessorFamily::Unknown);
    assert!(get_riscv64_family(Some("")) == ProcessorFamily::Unknown);
    assert!(get_riscv64_family(None) == ProcessorFamily::Unknown);
}

#[test]
fn a_host_is_recognized_by_what_it_knows_of_its_processor() {
    assert!(
        get_processor_family(CpuIdentity::X86 { eax: 0x0008_06c1 })
            == ProcessorFamily::IntelTigerLake
    );
    assert!(
        get_processor_family(CpuIdentity::RiscV64 { marchid: Some("0x8000000000000007") })
            == ProcessorFamily::SiFiveU7
    );
    assert!(
        get_processor_family(CpuIdentity::RiscV64 { marchid: None }) == ProcessorFamily::Unknown
    );
    assert!(get_processor_family(CpuIdentity::Other) == ProcessorFamily::Unknown);
}
