//! Hardware events of the Intel Ice Lake core, which Tiger Lake shares.

use crate::counter::{SystemCounter, SystemCounterKind};
use vstd::prelude::*;

verus! {

/// Event select `0xc2` with unit mask `0x02`.
pub const UOPS_RETIRED_SLOTS_ENCODING: u64 = 0x0000_02c2;

/// `UOPS_RETIRED.SLOTS` with bit 23 set and the value `0xa` placed from bit 23.
pub const UOPS_RETIRED_TOTAL_CYCLES_ENCODING: u64 = 0x0580_02c2;

/// `UOPS_RETIRED.SLOTS` with bit 23 set and the value `1` placed from bit 23.
pub const UOPS_RETIRED_STALL_CYCLES_ENCODING: u64 = 0x0080_02c2;

pub open spec fn uops_retired_slots() -> SystemCounter {
    SystemCounter {
        kind: SystemCounterKind::Hardware,
        name: "UOPS_RETIRED.SLOTS",
        desc: "",
        encoding: UOPS_RETIRED_SLOTS_ENCODING,
    }
}

pub open spec fn uops_retired_total_cycles() -> SystemCounter {
    SystemCounter {
        kind: SystemCounterKind::Hardware,
        name: "UOPS_RETIRED.TOTAL_CYCLES",
        desc: "",
        encoding: UOPS_RETIRED_TOTAL_CYCLES_ENCODING,
    }
}

pub open spec fn uops_retired_stall_cycles() -> SystemCounter {
    SystemCounter {
        kind: SystemCounterKind::Hardware,
        name: "UOPS_RETIRED.STALL_CYCLES",
        desc: "",
        encoding: UOPS_RETIRED_STALL_CYCLES_ENCODING,
    }
}

pub open spec fn events() -> Seq<SystemCounter> {
    seq![uops_retired_slots(), uops_retired_total_cycles(), uops_retired_stall_cycles()]
}

pub fn get() -> (table: Vec<SystemCounter>)
    ensures
        table@ == events(),
{
    let mut table: Vec<SystemCounter> = Vec::new();
    table.push(
        SystemCounter {
            kind: SystemCounterKind::Hardware,
            name: "UOPS_RETIRED.SLOTS",
            desc: "",
            encoding: UOPS_RETIRED_SLOTS_ENCODING,
        },
    );
    table.push(
        SystemCounter {
            kind: SystemCounterKind::Hardware,
            name: "UOPS_RETIRED.TOTAL_CYCLES",
            desc: "",
            encoding: UOPS_RETIRED_TOTAL_CYCLES_ENCODING,
        },
    );
    table.push(
        SystemCounter {
            kind: SystemCounterKind::Hardware,
            name: "UOPS_RETIRED.STALL_CYCLES",
            desc: "",
            encoding: UOPS_RETIRED_STALL_CYCLES_ENCODING,
        },
    );
    assert(table@ =~= events());
    table
}

} // verus!
