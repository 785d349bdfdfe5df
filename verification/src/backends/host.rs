//! The boundary between the counter backends and the machine they run on.
//!
//! A backend performs no operation of the operating system itself. It names
//! the operation that is due as a [`HostCall`]; the host carries it out and
//! hands back a [`HostReply`]; the backend then decides what is due next.

use vstd::prelude::*;

verus! {

/// The fields of the kernel's event attribute record that a backend fills in.
/// The host sets the record's size and leaves every other field zero.
#[derive(Debug, Clone, Copy, PartialEq, Eq, Structural)]
pub struct PerfEventAttr {
    pub type_: u32,
    pub config: u64,
    pub read_format: u64,
    pub disabled: bool,
    pub exclude_kernel: bool,
    pub exclude_hv: bool,
    pub inherit: bool,
}

/// One operation of the operating system or of a system framework.
#[derive(Debug, Clone, Copy, PartialEq, Eq, Structural)]
#[allow(inconsistent_fields)]
pub enum HostCall {
    /// The `perf_event_open` system call. The reply's status is the new file
    /// descriptor.
    PerfEventOpen { attr: PerfEventAttr, pid: i32, cpu: i32, group_fd: i32, flags: u64 },
    /// The ioctl that asks for an event's kernel identifier. The reply's
    /// first word is the identifier.
    PerfEventId { fd: i32 },
    /// The ioctl that resets an event's count.
    PerfEventReset { fd: i32, flags: u32 },
    /// The ioctl that enables an event.
    PerfEventEnable { fd: i32, flags: u32 },
    /// The ioctl that disables an event.
    PerfEventDisable { fd: i32, flags: u32 },
    /// A `read` of at most `count` bytes. The reply's bytes are what was
    /// read, each 64-bit word with its lowest byte first.
    Read { fd: i32, count: usize },
    /// The `ptrace` request that lets a stopped process continue.
    PtraceCont { pid: i32 },
    /// The `close` of a file descriptor.
    Close { fd: i32 },
    /// `kpep_db_events_count` on the backend's event database. The reply's
    /// first word is the count.
    KpepDbEventsCount,
    /// `kpep_db_events`, for `count` events. The reply's names are the names
    /// of the events, in the database's order.
    KpepDbEvents { count: usize },
    /// `kpep_db_create`, for the database that the next configuration is
    /// made from.
    KpepDbCreate,
    /// `kpep_config_create`, from the database just created.
    KpepConfigCreate,
    /// `kpep_config_force_counters`.
    KpepConfigForceCounters,
    /// `kpep_config_add_event`, for the event at this position of the list
    /// that `KpepDbEvents` returned.
    KpepConfigAddEvent { event: usize },
    /// `kpep_config_kpc_classes`. The reply's first word is the class mask.
    KpepConfigKpcClasses,
    /// `kpep_config_kpc_count`. The reply's first word is the number of
    /// configuration registers.
    KpepConfigKpcCount,
    /// `kpep_config_kpc_map`, into a buffer of `registers` entries. The
    /// reply's words are the buffer.
    KpepConfigKpcMap { registers: usize },
    /// `kpep_config_kpc`, into a buffer of `registers` words. The reply's
    /// words are the buffer.
    KpepConfigKpc { registers: usize },
    /// `kpc_force_all_ctrs_set`.
    KpcForceAllCtrsSet { value: i32 },
    /// `kpc_set_config`, with the register words that the counters hold.
    KpcSetConfig { classes: u32 },
    /// `kpc_set_counting`.
    KpcSetCounting { classes: u32 },
    /// `kpc_set_thread_counting`.
    KpcSetThreadCounting { classes: u32 },
    /// `kpc_get_thread_counters`, into a buffer of `registers` words. The
    /// reply's words are the buffer.
    KpcGetThreadCounters { tid: u32, registers: u32 },
    /// `kpep_config_free`, for the configuration of the counters.
    KpepConfigFree,
    /// `kpep_db_free`, for the database that the configuration was made
    /// from.
    KpepDbFree,
}

/// What the host observed of one operation: the operation's return value,
/// and whatever it wrote for its caller.
#[derive(Debug, Clone)]
pub struct HostReply {
    pub status: i64,
    pub words: Vec<u64>,
    pub bytes: Vec<u8>,
    pub names: Vec<String>,
}

/// The mathematical content of a [`HostReply`].
pub struct Reply {
    pub status: i64,
    pub words: Seq<u64>,
    pub bytes: Seq<u8>,
    pub names: Seq<Seq<char>>,
}

impl View for HostReply {
    type V = Reply;

    open spec fn view(&self) -> Reply {
        Reply {
            status: self.status,
            words: self.words@,
            bytes: self.bytes@,
            names: self.names@.map_values(|name: String| name@),
        }
    }
}

impl HostReply {
    /// A reply that carries a return value and nothing else.
    pub fn status(status: i64) -> (reply: HostReply)
        ensures
            reply@ == (Reply {
                status,
                words: Seq::empty(),
                bytes: Seq::empty(),
                names: Seq::empty(),
            }),
    {
        let reply = HostReply {
            status,
            words: Vec::new(),
            bytes: Vec::new(),
            names: Vec::new(),
        };
        assert(reply@.names =~= Seq::empty());
        reply
    }
}

/// Why an operation of the backend could not go on.
#[derive(Debug, Clone, Copy, PartialEq, Eq)]
pub struct Fault {
    /// A fatal fault leaves the counters in a state that nothing can be said
    /// of: the process must end. Any other fault is reported to the caller.
    pub fatal: bool,
    pub message: &'static str,
}

} // verus!
