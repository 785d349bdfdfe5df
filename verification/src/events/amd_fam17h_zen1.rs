//! Hardware events of AMD family 17h, first Zen generation.

use crate::counter::{SystemCounter, SystemCounterKind};
use vstd::prelude::*;

verus! {

pub open spec fn retired_uops() -> SystemCounter {
    SystemCounter {
        kind: SystemCounterKind::Hardware,
        name: "RETIRED_UOPS",
        desc: "",
        encoding: 0xc1,
    }
}

pub open spec fn misaligned_loads() -> SystemCounter {
    SystemCounter {
        kind: SystemCounterKind::Hardware,
        name: "MISALIGNED_LOADS",
        desc: "",
        encoding: 0x47,
    }
}

pub open spec fn events() -> Seq<SystemCounter> {
    seq![retired_uops(), misaligned_loads()]
}

pub fn get() -> (table: Vec<SystemCounter>)
    ensures
        table@ == events(),
{
    let mut table: Vec<SystemCounter> = Vec::new();
    table.push(
        SystemCounter {
            kind: SystemCounterKind::Hardware,
            name: "RETIRED_UOPS",
            desc: "",
            encoding: 0xc1,
        },
    );
    table.push(
        SystemCounter {
            kind: SystemCounterKind::Hardware,
            name: "MISALIGNED_LOADS",
            desc: "",
            encoding: 0x47,
        },
    );
    assert(table@ =~= events());
    table
}

} // verus!
