//! Recognition of the processor and the hardware events catalogued for it.

pub mod amd_fam17h_zen1;
pub mod intel_icl;

use crate::counter::{same_text, SystemCounter};
use vstd::prelude::*;

verus! {

/// The processor families that the catalog tells apart.
#[derive(Debug, Clone, Copy, PartialEq, Eq, Structural)]
pub enum ProcessorFamily {
    Unknown,
    AmdZen1,
    AmdZen2,
    AmdZen3,
    AmdZen4,
    IntelBroadwell,
    IntelHaswell,
    IntelSkylake,
    IntelKabyLake,
    IntelCometLake,
    IntelIceLakeClient,
    IntelIceLakeServer,
    IntelTigerLake,
    IntelRocketLake,
    IntelAlderLake,
    IntelRaptorLake,
    SiFiveU7,
}

/// The version word that an x86 processor reports about itself.
#[derive(Debug, Clone, Copy)]
pub struct X86VendorInfo {
    pub eax: u32,
}

/// The family that a combination of the four identification fields denotes.
/// Every combination that is not listed is `Unknown`.
pub open spec fn family_of_fields(
    family: u32,
    extended_family: u32,
    extended_model: u32,
    model: u32,
) -> ProcessorFamily {
    match (family, extended_family, extended_model, model) {
        (0xf, 0x8, 0x0 | 0x1 | 0x2, _) => ProcessorFamily::AmdZen1,
        (0xf, 0x8, 0x3 | 0x4 | 0x6 | 0x7 | 0x9, _) => ProcessorFamily::AmdZen2,
        (0xf, 0xa, 0x0 | 0x2 | 0x4 | 0x5, _) => ProcessorFamily::AmdZen3,
        (0xf, 0xa, 0x1 | 0x6 | 0x7, _) => ProcessorFamily::AmdZen4,
        (0x6, 0x0, 0x3, 0xc) | (0x6, 0x0, 0x4, 0x5 | 0x6) => ProcessorFamily::IntelHaswell,
        (0x6, 0x0, 0x3, 0xd) | (0x6, 0x0, 0x4, 0x7) => ProcessorFamily::IntelBroadwell,
        (0x6, 0x0, 0x5 | 0x4, 0xe) => ProcessorFamily::IntelSkylake,
        (0x6, 0x0, 0x8 | 0x9, 0xe) => ProcessorFamily::IntelKabyLake,
        (0x6, 0x0, 0xa, 0x5) => ProcessorFamily::IntelCometLake,
        (0x6, 0x0, 0x7, 0xe) => ProcessorFamily::IntelIceLakeClient,
        (0x6, 0x0, 0x6, 0xc | 0xa) => ProcessorFamily::IntelIceLakeServer,
        (0x6, 0x0, 0x8, 0xc | 0xd) => ProcessorFamily::IntelTigerLake,
        (0x6, 0x0, 0xa, 0x7) => ProcessorFamily::IntelRocketLake,
        (0x6, 0x0, 0x9, 0x7 | 0xa) => ProcessorFamily::IntelAlderLake,
        (0x6, 0x0, 0xb, 0x7 | 0xa) => ProcessorFamily::IntelRaptorLake,
        _ => ProcessorFamily::Unknown,
    }
}

impl X86VendorInfo {
    pub fn new(eax: u32) -> (info: X86VendorInfo)
        ensures
            info.eax == eax,
    {
        X86VendorInfo { eax }
    }

    /// Bits 4 to 7 of the version word.
    pub open spec fn model(self) -> u32 {
        (self.eax >> 4) & 0xf
    }

    /// Bits 8 to 11 of the version word.
    pub open spec fn family(self) -> u32 {
        (self.eax >> 8) & 0xf
    }

    /// Bits 16 to 19 of the version word.
    pub open spec fn extended_model(self) -> u32 {
        (self.eax >> 16) & 0xf
    }

    /// Bits 20 to 27 of the version word.
    pub open spec fn extended_family(self) -> u32 {
        (self.eax >> 20) & 0xff
    }

    /// The family of the processor that reported this version word.
    pub fn as_host_arch(&self) -> (arch: ProcessorFamily)
        ensures
            arch == family_of_fields(
                self.family(),
                self.extended_family(),
                self.extended_model(),
                self.model(),
            ),
    {
        let model: u32 = (self.eax >> 4) & 0xf;
        let family: u32 = (self.eax >> 8) & 0xf;
        let extended_model: u32 = (self.eax >> 16) & 0xf;
        let extended_family: u32 = (self.eax >> 20) & 0xff;

        if family == 0xf && extended_family == 0x8 {
            if extended_model == 0x0 || extended_model == 0x1 || extended_model == 0x2 {
                return ProcessorFamily::AmdZen1;
            } else if extended_model == 0x3 || extended_model == 0x4 || extended_model == 0x6
                || extended_model == 0x7 || extended_model == 0x9 {
                return ProcessorFamily::AmdZen2;
            }
        } else if family == 0xf && extended_family == 0xa {
            if extended_model == 0x0 || extended_model == 0x2 || extended_model == 0x4
                || extended_model == 0x5 {
                return ProcessorFamily::AmdZen3;
            } else if extended_model == 0x1 || extended_model == 0x6 || extended_model == 0x7 {
                return ProcessorFamily::AmdZen4;
            }
        } else if family == 0x6 && extended_family == 0 {
            if (extended_model == 0x3 && model == 0xc) || (extended_model == 0x4 && (model == 0x5
                || model == 0x6)) {
                return ProcessorFamily::IntelHaswell;
            } else if (extended_model == 0x3 && model == 0xd) || (extended_model == 0x4 && model
                == 0x7) {
                return ProcessorFamily::IntelBroadwell;
            } else if (extended_model == 0x5 && model == 0xe) || (extended_model == 0x4 && model
                == 0xe) {
                return ProcessorFamily::IntelSkylake;
            } else if (extended_model == 0x8 && model == 0xe) || (extended_model == 0x9 && model
                == 0xe) {
                return ProcessorFamily::IntelKabyLake;
            } else if extended_model == 0xa && model == 0x5 {
                return ProcessorFamily::IntelCometLake;
            } else if extended_model == 0x7 && model == 0xe {
                return ProcessorFamily::IntelIceLakeClient;
            } else if extended_model == 0x6 && (model == 0xc || model == 0xa) {
                return ProcessorFamily::IntelIceLakeServer;
            } else if extended_model == 0x8 && (model == 0xc || model == 0xd) {
                return ProcessorFamily::IntelTigerLake;
            } else if extended_model == 0xa && model == 0x7 {
                return ProcessorFamily::IntelRocketLake;
            } else if extended_model == 0x9 && (model == 0x7 || model == 0xa) {
                return ProcessorFamily::IntelAlderLake;
            } else if extended_model == 0xb && (model == 0x7 || model == 0xa) {
                return ProcessorFamily::IntelRaptorLake;
            }
        }
        ProcessorFamily::Unknown
    }
}

/// The machine architecture identifier of the SiFive 7-series cores, as the
/// kernel prints it.
pub open spec fn sifive_u7_marchid() -> Seq<char> {
    "0x8000000000000007"@
}

/// The family of a RISC-V processor, from the `marchid` entry that the kernel
/// shows for its first hart, if it shows one.
pub fn get_riscv64_family(marchid: Option<&str>) -> (arch: ProcessorFamily)
    ensures
        arch == match marchid {
            Some(text) if text@ == sifive_u7_marchid() => ProcessorFamily::SiFiveU7,
            _ => ProcessorFamily::Unknown,
        },
{
    match marchid {
        Some(text) => {
            if same_text(text, "0x8000000000000007") {
                ProcessorFamily::SiFiveU7
            } else {
                ProcessorFamily::Unknown
            }
        },
        None => ProcessorFamily::Unknown,
    }
}

/// What a host knows about its own processor.
#[derive(Debug, Clone, Copy)]
pub enum CpuIdentity<'a> {
    /// An x86 processor: the version word of its identification instruction.
    X86 { eax: u32 },
    /// A RISC-V processor: the `marchid` entry of its first hart.
    RiscV64 { marchid: Option<&'a str> },
    /// Any other processor.
    Other,
}

/// The family that an identity denotes.
pub open spec fn family_of(identity: CpuIdentity) -> ProcessorFamily {
    match identity {
        CpuIdentity::X86 { eax } => {
            let info = X86VendorInfo { eax };
            family_of_fields(
                info.family(),
                info.extended_family(),
                info.extended_model(),
                info.model(),
            )
        },
        CpuIdentity::RiscV64 { marchid } => match marchid {
            Some(text) if text@ == sifive_u7_marchid() => ProcessorFamily::SiFiveU7,
            _ => ProcessorFamily::Unknown,
        },
        CpuIdentity::Other => ProcessorFamily::Unknown,
    }
}

pub fn get_processor_family(identity: CpuIdentity) -> (arch: ProcessorFamily)
    ensures
        arch == family_of(identity),
{
    match identity {
        CpuIdentity::X86 { eax } => X86VendorInfo::new(eax).as_host_arch(),
        CpuIdentity::RiscV64 { marchid } => get_riscv64_family(marchid),
        CpuIdentity::Other => ProcessorFamily::Unknown,
    }
}

/// The hardware events catalogued for a family. A family without a table has
/// none: the generic counters remain.
pub open spec fn hardware_events(arch: ProcessorFamily) -> Seq<SystemCounter> {
    match arch {
        ProcessorFamily::AmdZen1 => amd_fam17h_zen1::events(),
        ProcessorFamily::IntelTigerLake => intel_icl::events(),
        _ => Seq::empty(),
    }
}

pub fn get_hardware_events(arch: ProcessorFamily) -> (events: Vec<SystemCounter>)
    ensures
        events@ == hardware_events(arch),
{
    match arch {
        ProcessorFamily::AmdZen1 => amd_fam17h_zen1::get(),
        ProcessorFamily::IntelTigerLake => intel_icl::get(),
        _ => Vec::new(),
    }
}

} // verus!
