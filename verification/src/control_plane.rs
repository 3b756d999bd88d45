use vstd::prelude::*;

use crate::consts::{
    required_bytes, PROCESS_LAUNCH_CTX_WORDS, PROCESS_LIST_LIMIT, PROCESS_PRIORITY_MAX,
    USER_SPACE_BOTTOM_INCLUSIVE, USER_SPACE_TOP_EXCLUSIVE,
};
use crate::pressure::{CorePressureClass, CorePressureSnapshot, SchedulerPressureClass};
use crate::user_memory::{
    usize_words_bytes, UserMemory, SYSCALL_ERR_INVALID_ARG, SYSCALL_ERR_PERMISSION_DENIED,
    SYSCALL_ERR_USER_ACCESS_DENIED,
};

verus! {

pub fn invalid_arg() -> (r: usize)
    ensures
        r == SYSCALL_ERR_INVALID_ARG,
{
    SYSCALL_ERR_INVALID_ARG
}

pub fn user_access_denied_arg() -> (r: usize)
    ensures
        r == SYSCALL_ERR_USER_ACCESS_DENIED,
{
    SYSCALL_ERR_USER_ACCESS_DENIED
}

pub fn permission_denied_arg() -> (r: usize)
    ensures
        r == SYSCALL_ERR_PERMISSION_DENIED,
{
    SYSCALL_ERR_PERMISSION_DENIED
}

/// What writing `n` words to a user buffer of `len` bytes at `ptr` returns:
/// the byte count written, or the error of the failed check.
pub open spec fn write_words_outcome(mem: UserMemory, ptr: int, len: int, n: int) -> usize {
    if len < 8 * n {
        SYSCALL_ERR_INVALID_ARG
    } else if ptr % 8 != 0 || !mem.range_ok(ptr, 8 * n) {
        SYSCALL_ERR_USER_ACCESS_DENIED
    } else {
        (8 * n) as usize
    }
}

/// Whether that write succeeds.
pub open spec fn write_words_ok(mem: UserMemory, ptr: int, len: int, n: int) -> bool {
    len >= 8 * n && ptr % 8 == 0 && mem.range_ok(ptr, 8 * n)
}

/// Writes `words` to the user buffer and returns the byte count written,
/// or the error of the failed check.
pub fn write_user_words(mem: &mut UserMemory, ptr: usize, len: usize, words: &[usize]) -> (r: usize)
    requires
        words@.len() * 8 <= usize::MAX,
    ensures
        r == write_words_outcome(*old(mem), ptr as int, len as int, words@.len() as int),
        final(mem).base == old(mem).base,
        write_words_ok(*old(mem), ptr as int, len as int, words@.len() as int) ==> final(mem).bytes@
            == old(mem).stored(ptr as int, usize_words_bytes(words@)),
        !write_words_ok(*old(mem), ptr as int, len as int, words@.len() as int) ==> final(mem).bytes@
            == old(mem).bytes@,
{
    let required = required_bytes(words.len());
    match mem.write_words(ptr, len, words) {
        Ok(()) => required,
        Err(e) => e,
    }
}

#[inline(always)]
pub fn parse_process_priority(priority: usize) -> (r: Option<u8>)
    ensures
        priority > PROCESS_PRIORITY_MAX ==> r is None,
        priority <= PROCESS_PRIORITY_MAX ==> r == Some(priority as u8),
{
    if priority > PROCESS_PRIORITY_MAX {
        None
    } else {
        Some(priority as u8)
    }
}

pub open spec fn core_class_code(c: CorePressureClass) -> usize {
    match c {
        CorePressureClass::Nominal => 0,
        CorePressureClass::Elevated => 1,
        CorePressureClass::High => 2,
        CorePressureClass::Critical => 3,
    }
}

pub open spec fn scheduler_class_code(c: SchedulerPressureClass) -> usize {
    match c {
        SchedulerPressureClass::Nominal => 0,
        SchedulerPressureClass::Elevated => 1,
        SchedulerPressureClass::High => 2,
        SchedulerPressureClass::Critical => 3,
    }
}

pub fn encode_core_pressure_class(class: CorePressureClass) -> (r: usize)
    ensures
        r == core_class_code(class),
{
    match class {
        CorePressureClass::Nominal => 0,
        CorePressureClass::Elevated => 1,
        CorePressureClass::High => 2,
        CorePressureClass::Critical => 3,
    }
}

pub fn encode_scheduler_pressure_class(class: SchedulerPressureClass) -> (r: usize)
    ensures
        r == scheduler_class_code(class),
{
    match class {
        SchedulerPressureClass::Nominal => 0,
        SchedulerPressureClass::Elevated => 1,
        SchedulerPressureClass::High => 2,
        SchedulerPressureClass::Critical => 3,
    }
}

/// The eighteen words of a core pressure snapshot, in ABI order.
pub open spec fn pressure_words(p: CorePressureSnapshot) -> Seq<usize> {
    seq![
        p.schema_version as usize,
        p.online_cpus,
        p.runqueue_total,
        p.runqueue_max,
        p.runqueue_avg_milli,
        if p.rt_starvation_alert { 1usize } else { 0usize },
        p.rt_forced_reschedules as usize,
        p.watchdog_stall_detections as usize,
        p.net_queue_limit,
        p.net_rx_depth,
        p.net_tx_depth,
        p.net_saturation_percent,
        p.lb_imbalance_p50,
        p.lb_imbalance_p90,
        p.lb_imbalance_p99,
        p.lb_prefer_local_forced_moves as usize,
        core_class_code(p.class),
        scheduler_class_code(p.scheduler_class),
    ]
}

/// Fills the first eighteen words of `out` with the snapshot.
pub fn write_core_pressure_snapshot_words(out: &mut Vec<usize>, pressure: CorePressureSnapshot)
    requires
        old(out)@.len() >= 18,
    ensures
        final(out)@.len() == old(out)@.len(),
        forall|i: int| 0 <= i < 18 ==> final(out)@[i] == pressure_words(pressure)[i],
        forall|i: int| 18 <= i < old(out)@.len() ==> final(out)@[i] == old(out)@[i],
{
    out.set(0, pressure.schema_version as usize);
    out.set(1, pressure.online_cpus);
    out.set(2, pressure.runqueue_total);
    out.set(3, pressure.runqueue_max);
    out.set(4, pressure.runqueue_avg_milli);
    out.set(5, if pressure.rt_starvation_alert { 1 } else { 0 });
    out.set(6, pressure.rt_forced_reschedules as usize);
    out.set(7, pressure.watchdog_stall_detections as usize);
    out.set(8, pressure.net_queue_limit);
    out.set(9, pressure.net_rx_depth);
    out.set(10, pressure.net_tx_depth);
    out.set(11, pressure.net_saturation_percent);
    out.set(12, pressure.lb_imbalance_p50);
    out.set(13, pressure.lb_imbalance_p90);
    out.set(14, pressure.lb_imbalance_p99);
    out.set(15, pressure.lb_prefer_local_forced_moves as usize);
    out.set(16, encode_core_pressure_class(pressure.class));
    out.set(17, encode_scheduler_pressure_class(pressure.scheduler_class));
}

/// What a launch context names: the process and its first task, the entry
/// point, the loaded image and its mappings, and the page-table root.
#[derive(Debug, Clone, Copy, PartialEq, Eq, Structural)]
pub struct LaunchContext {
    pub process_id: usize,
    pub task_id: usize,
    pub entry: usize,
    pub image_pages: usize,
    pub image_segments: usize,
    pub mapped_regions: usize,
    pub mapped_pages: usize,
    pub cr3: usize,
}

pub open spec fn launch_words(c: LaunchContext) -> Seq<usize> {
    seq![
        c.process_id,
        c.task_id,
        c.entry,
        c.image_pages,
        c.image_segments,
        c.mapped_regions,
        c.mapped_pages,
        c.cr3,
    ]
}

/// Writes a launch context to the user buffer and returns `return_value`,
/// or the error of the failed write.
pub fn write_launch_context_response(
    mem: &mut UserMemory,
    ptr: usize,
    len: usize,
    ctx: LaunchContext,
    return_value: usize,
) -> (r: usize)
    ensures
        write_words_ok(*old(mem), ptr as int, len as int, 8) ==> r == return_value
            && final(mem).bytes@ == old(mem).stored(ptr as int, usize_words_bytes(launch_words(ctx))),
        !write_words_ok(*old(mem), ptr as int, len as int, 8) ==> r == write_words_outcome(
            *old(mem),
            ptr as int,
            len as int,
            8,
        ) && final(mem).bytes@ == old(mem).bytes@,
        final(mem).base == old(mem).base,
{
    let mut words: Vec<usize> = Vec::new();
    words.push(0);
    words.push(0);
    words.push(0);
    words.push(0);
    words.push(0);
    words.push(0);
    words.push(0);
    words.push(0);
    crate::consts::write_launch_context_words(
        &mut words,
        ctx.process_id,
        ctx.task_id,
        ctx.entry,
        ctx.image_pages,
        ctx.image_segments,
        ctx.mapped_regions,
        ctx.mapped_pages,
        ctx.cr3,
    );
    assert(words@ =~= launch_words(ctx));
    match mem.write_words(ptr, len, words.as_slice()) {
        Ok(()) => return_value,
        Err(e) => e,
    }
}

/// A mount as the VFS reports it.
#[derive(Debug, Clone, Copy)]
pub struct MountRecord {
    pub id: usize,
    pub fs_kind: usize,
    pub path_len: usize,
}

/// Fills the three words of a mount record at `base`.
pub fn write_mount_record_words(out: &mut Vec<usize>, base: usize, record: &MountRecord)
    requires
        base + 3 <= old(out)@.len(),
    ensures
        final(out)@ == old(out)@.update(base as int, record.id).update(base + 1, record.fs_kind).update(
            base + 2,
            record.path_len,
        ),
{
    let len = out.len();
    assert(base + 2 < len);
    out.set(base, record.id);
    out.set(base + 1, record.fs_kind);
    out.set(base + 2, record.path_len);
}

/// An upcall entry point must lie in user space.
pub fn upcall_entry_pc_valid(entry_pc: usize) -> (r: bool)
    ensures
        r == (USER_SPACE_BOTTOM_INCLUSIVE <= entry_pc && entry_pc < USER_SPACE_TOP_EXCLUSIVE),
{
    entry_pc >= USER_SPACE_BOTTOM_INCLUSIVE && (entry_pc as u64) < USER_SPACE_TOP_EXCLUSIVE
}

#[derive(Debug, Clone, Copy, PartialEq, Eq, Structural)]
pub enum BinarySwitch {
    Disabled,
    Enabled,
}

impl BinarySwitch {
    pub fn from_usize(value: usize) -> (r: Option<Self>)
        ensures
            value == 0 ==> r == Some(BinarySwitch::Disabled),
            value == 1 ==> r == Some(BinarySwitch::Enabled),
            value > 1 ==> r is None,
    {
        match value {
            0 => Some(BinarySwitch::Disabled),
            1 => Some(BinarySwitch::Enabled),
            _ => None,
        }
    }

    pub fn is_enabled(self) -> (r: bool)
        ensures
            r == (self == BinarySwitch::Enabled),
    {
        match self {
            BinarySwitch::Enabled => true,
            BinarySwitch::Disabled => false,
        }
    }
}

/// Processor performance states.
#[derive(Debug, Clone, Copy, PartialEq, Eq, Structural)]
pub enum PState {
    HighPerf,
    Balanced,
    PowerSave,
}

/// Processor idle states.
#[derive(Debug, Clone, Copy, PartialEq, Eq, Structural)]
pub enum CState {
    C1,
    C2,
    C3,
}

/// How the network bridge treats a full queue.
#[derive(Debug, Clone, Copy, PartialEq, Eq, Structural)]
pub enum BackpressurePolicy {
    Drop,
    Defer,
    ForcePoll,
}

#[derive(Debug, Clone, Copy, PartialEq, Eq, Structural)]
pub enum PowerOverrideMode {
    HighPerf,
    Balanced,
    PowerSave,
}

impl PowerOverrideMode {
    pub fn from_usize(value: usize) -> (r: Option<Self>)
        ensures
            value == 0 ==> r == Some(PowerOverrideMode::HighPerf),
            value == 1 ==> r == Some(PowerOverrideMode::Balanced),
            value == 2 ==> r == Some(PowerOverrideMode::PowerSave),
            value > 2 ==> r is None,
    {
        match value {
            0 => Some(PowerOverrideMode::HighPerf),
            1 => Some(PowerOverrideMode::Balanced),
            2 => Some(PowerOverrideMode::PowerSave),
            _ => None,
        }
    }

    pub fn to_kernel(self) -> (r: PState)
        ensures
            self == PowerOverrideMode::HighPerf ==> r == PState::HighPerf,
            self == PowerOverrideMode::Balanced ==> r == PState::Balanced,
            self == PowerOverrideMode::PowerSave ==> r == PState::PowerSave,
    {
        match self {
            PowerOverrideMode::HighPerf => PState::HighPerf,
            PowerOverrideMode::Balanced => PState::Balanced,
            PowerOverrideMode::PowerSave => PState::PowerSave,
        }
    }
}

#[derive(Debug, Clone, Copy, PartialEq, Eq, Structural)]
pub enum CStateOverrideMode {
    C1,
    C2,
    C3,
}

impl CStateOverrideMode {
    pub fn from_usize(value: usize) -> (r: Option<Self>)
        ensures
            value == 0 ==> r == Some(CStateOverrideMode::C1),
            value == 1 ==> r == Some(CStateOverrideMode::C2),
            value == 2 ==> r == Some(CStateOverrideMode::C3),
            value > 2 ==> r is None,
    {
        match value {
            0 => Some(CStateOverrideMode::C1),
            1 => Some(CStateOverrideMode::C2),
            2 => Some(CStateOverrideMode::C3),
            _ => None,
        }
    }

    pub fn to_kernel(self) -> (r: CState)
        ensures
            self == CStateOverrideMode::C1 ==> r == CState::C1,
            self == CStateOverrideMode::C2 ==> r == CState::C2,
            self == CStateOverrideMode::C3 ==> r == CState::C3,
    {
        match self {
            CStateOverrideMode::C1 => CState::C1,
            CStateOverrideMode::C2 => CState::C2,
            CStateOverrideMode::C3 => CState::C3,
        }
    }
}

#[derive(Debug, Clone, Copy, PartialEq, Eq, Structural)]
pub enum BackpressurePolicyMode {
    Drop,
    Defer,
    ForcePoll,
}

impl BackpressurePolicyMode {
    pub fn from_usize(value: usize) -> (r: Option<Self>)
        ensures
            value == 0 ==> r == Some(BackpressurePolicyMode::Drop),
            value == 1 ==> r == Some(BackpressurePolicyMode::Defer),
            value == 2 ==> r == Some(BackpressurePolicyMode::ForcePoll),
            value > 2 ==> r is None,
    {
        match value {
            0 => Some(BackpressurePolicyMode::Drop),
            1 => Some(BackpressurePolicyMode::Defer),
            2 => Some(BackpressurePolicyMode::ForcePoll),
            _ => None,
        }
    }

    pub fn to_network(self) -> (r: BackpressurePolicy)
        ensures
            self == BackpressurePolicyMode::Drop ==> r == BackpressurePolicy::Drop,
            self == BackpressurePolicyMode::Defer ==> r == BackpressurePolicy::Defer,
            self == BackpressurePolicyMode::ForcePoll ==> r == BackpressurePolicy::ForcePoll,
    {
        match self {
            BackpressurePolicyMode::Drop => BackpressurePolicy::Drop,
            BackpressurePolicyMode::Defer => BackpressurePolicy::Defer,
            BackpressurePolicyMode::ForcePoll => BackpressurePolicy::ForcePoll,
        }
    }
}

} // verus!
