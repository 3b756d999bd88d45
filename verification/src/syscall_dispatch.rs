use vstd::prelude::*;

use crate::nr;
use crate::stats_api::SyscallCounters;

verus! {

/// The kernel's own syscalls, one for each number of `nr`.
#[derive(Debug, Clone, Copy, PartialEq, Eq, Structural)]
pub enum NativeCall {
    Yield,
    Exit,
    Print,
    SetTls,
    GetTls,
    SetAffinity,
    GetAffinity,
    GetLaunchStats,
    GetProcessCount,
    ListProcessIds,
    SpawnProcess,
    GetProcessImageState,
    GetProcessMappingState,
    VfsMountRamfs,
    VfsListMounts,
    GetPowerStats,
    SetPowerOverride,
    ClearPowerOverride,
    GetNetworkStats,
    SetNetworkPolling,
    TerminateProcess,
    GetProcessLaunchContext,
    VfsGetMountPath,
    VfsUnmount,
    VfsGetStats,
    NetworkResetStats,
    NetworkForcePoll,
    SetCstateOverride,
    ClearCstateOverride,
    ClaimNextLaunchContext,
    AckLaunchContext,
    GetLaunchContextStage,
    TerminateTask,
    GetProcessIdByTask,
    VfsUnmountPath,
    NetworkReinitialize,
    ConsumeReadyLaunchContext,
    ExecuteReadyLaunchContext,
    FutexWait,
    FutexWake,
    UpcallRegister,
    UpcallUnregister,
    UpcallQuery,
    UpcallConsume,
    UpcallInjectVirq,
    GetAbiInfo,
    SetNetworkBackpressurePolicy,
    SetNetworkAlertThresholds,
    GetNetworkAlertReport,
    ResolvePlt,
    VfsOpen,
    VfsRead,
    VfsWrite,
    VfsClose,
    GetCrashReport,
    ListCrashEvents,
    GetCorePressureSnapshot,
    GetLotteryReplayLatest,
    SetPolicyDriftControl,
    GetPolicyDriftControl,
    GetPolicyDriftReasonText,
}

/// The number of a native syscall.
pub open spec fn native_number(c: NativeCall) -> usize {
    match c {
        NativeCall::Yield => nr::YIELD,
        NativeCall::Exit => nr::EXIT,
        NativeCall::Print => nr::PRINT,
        NativeCall::SetTls => nr::SET_TLS,
        NativeCall::GetTls => nr::GET_TLS,
        NativeCall::SetAffinity => nr::SET_AFFINITY,
        NativeCall::GetAffinity => nr::GET_AFFINITY,
        NativeCall::GetLaunchStats => nr::GET_LAUNCH_STATS,
        NativeCall::GetProcessCount => nr::GET_PROCESS_COUNT,
        NativeCall::ListProcessIds => nr::LIST_PROCESS_IDS,
        NativeCall::SpawnProcess => nr::SPAWN_PROCESS,
        NativeCall::GetProcessImageState => nr::GET_PROCESS_IMAGE_STATE,
        NativeCall::GetProcessMappingState => nr::GET_PROCESS_MAPPING_STATE,
        NativeCall::VfsMountRamfs => nr::VFS_MOUNT_RAMFS,
        NativeCall::VfsListMounts => nr::VFS_LIST_MOUNTS,
        NativeCall::GetPowerStats => nr::GET_POWER_STATS,
        NativeCall::SetPowerOverride => nr::SET_POWER_OVERRIDE,
        NativeCall::ClearPowerOverride => nr::CLEAR_POWER_OVERRIDE,
        NativeCall::GetNetworkStats => nr::GET_NETWORK_STATS,
        NativeCall::SetNetworkPolling => nr::SET_NETWORK_POLLING,
        NativeCall::TerminateProcess => nr::TERMINATE_PROCESS,
        NativeCall::GetProcessLaunchContext => nr::GET_PROCESS_LAUNCH_CONTEXT,
        NativeCall::VfsGetMountPath => nr::VFS_GET_MOUNT_PATH,
        NativeCall::VfsUnmount => nr::VFS_UNMOUNT,
        NativeCall::VfsGetStats => nr::VFS_GET_STATS,
        NativeCall::NetworkResetStats => nr::NETWORK_RESET_STATS,
        NativeCall::NetworkForcePoll => nr::NETWORK_FORCE_POLL,
        NativeCall::SetCstateOverride => nr::SET_CSTATE_OVERRIDE,
        NativeCall::ClearCstateOverride => nr::CLEAR_CSTATE_OVERRIDE,
        NativeCall::ClaimNextLaunchContext => nr::CLAIM_NEXT_LAUNCH_CONTEXT,
        NativeCall::AckLaunchContext => nr::ACK_LAUNCH_CONTEXT,
        NativeCall::GetLaunchContextStage => nr::GET_LAUNCH_CONTEXT_STAGE,
        NativeCall::TerminateTask => nr::TERMINATE_TASK,
        NativeCall::GetProcessIdByTask => nr::GET_PROCESS_ID_BY_TASK,
        NativeCall::VfsUnmountPath => nr::VFS_UNMOUNT_PATH,
        NativeCall::NetworkReinitialize => nr::NETWORK_REINITIALIZE,
        NativeCall::ConsumeReadyLaunchContext => nr::CONSUME_READY_LAUNCH_CONTEXT,
        NativeCall::ExecuteReadyLaunchContext => nr::EXECUTE_READY_LAUNCH_CONTEXT,
        NativeCall::FutexWait => nr::FUTEX_WAIT,
        NativeCall::FutexWake => nr::FUTEX_WAKE,
        NativeCall::UpcallRegister => nr::UPCALL_REGISTER,
        NativeCall::UpcallUnregister => nr::UPCALL_UNREGISTER,
        NativeCall::UpcallQuery => nr::UPCALL_QUERY,
        NativeCall::UpcallConsume => nr::UPCALL_CONSUME,
        NativeCall::UpcallInjectVirq => nr::UPCALL_INJECT_VIRQ,
        NativeCall::GetAbiInfo => nr::GET_ABI_INFO,
        NativeCall::SetNetworkBackpressurePolicy => nr::SET_NETWORK_BACKPRESSURE_POLICY,
        NativeCall::SetNetworkAlertThresholds => nr::SET_NETWORK_ALERT_THRESHOLDS,
        NativeCall::GetNetworkAlertReport => nr::GET_NETWORK_ALERT_REPORT,
        NativeCall::ResolvePlt => nr::RESOLVE_PLT,
        NativeCall::VfsOpen => nr::VFS_OPEN,
        NativeCall::VfsRead => nr::VFS_READ,
        NativeCall::VfsWrite => nr::VFS_WRITE,
        NativeCall::VfsClose => nr::VFS_CLOSE,
        NativeCall::GetCrashReport => nr::GET_CRASH_REPORT,
        NativeCall::ListCrashEvents => nr::LIST_CRASH_EVENTS,
        NativeCall::GetCorePressureSnapshot => nr::GET_CORE_PRESSURE_SNAPSHOT,
        NativeCall::GetLotteryReplayLatest => nr::GET_LOTTERY_REPLAY_LATEST,
        NativeCall::SetPolicyDriftControl => nr::SET_POLICY_DRIFT_CONTROL,
        NativeCall::GetPolicyDriftControl => nr::GET_POLICY_DRIFT_CONTROL,
        NativeCall::GetPolicyDriftReasonText => nr::GET_POLICY_DRIFT_REASON_TEXT,
    }
}

/// Distinct native calls have distinct numbers.
pub proof fn law_native_numbers_distinct(c1: NativeCall, c2: NativeCall)
    requires
        native_number(c1) == native_number(c2),
    ensures
        c1 == c2,
{
}

/// The native syscall `syscall_id` names, if any.
pub fn native_call_of(syscall_id: usize) -> (r: Option<NativeCall>)
    ensures
        r matches Some(c) ==> native_number(c) == syscall_id,
        forall|c: NativeCall| native_number(c) == syscall_id ==> r == Some(c),
{
    match syscall_id {
        0 => Some(NativeCall::Yield),
        1 => Some(NativeCall::Exit),
        2 => Some(NativeCall::Print),
        3 => Some(NativeCall::SetTls),
        4 => Some(NativeCall::GetTls),
        5 => Some(NativeCall::SetAffinity),
        6 => Some(NativeCall::GetAffinity),
        7 => Some(NativeCall::GetLaunchStats),
        8 => Some(NativeCall::GetProcessCount),
        9 => Some(NativeCall::ListProcessIds),
        10 => Some(NativeCall::SpawnProcess),
        11 => Some(NativeCall::GetProcessImageState),
        12 => Some(NativeCall::GetProcessMappingState),
        13 => Some(NativeCall::VfsMountRamfs),
        14 => Some(NativeCall::VfsListMounts),
        15 => Some(NativeCall::GetPowerStats),
        16 => Some(NativeCall::SetPowerOverride),
        17 => Some(NativeCall::ClearPowerOverride),
        18 => Some(NativeCall::GetNetworkStats),
        19 => Some(NativeCall::SetNetworkPolling),
        20 => Some(NativeCall::TerminateProcess),
        21 => Some(NativeCall::GetProcessLaunchContext),
        22 => Some(NativeCall::VfsGetMountPath),
        23 => Some(NativeCall::VfsUnmount),
        24 => Some(NativeCall::VfsGetStats),
        25 => Some(NativeCall::NetworkResetStats),
        26 => Some(NativeCall::NetworkForcePoll),
        27 => Some(NativeCall::SetCstateOverride),
        28 => Some(NativeCall::ClearCstateOverride),
        29 => Some(NativeCall::ClaimNextLaunchContext),
        30 => Some(NativeCall::AckLaunchContext),
        31 => Some(NativeCall::GetLaunchContextStage),
        32 => Some(NativeCall::TerminateTask),
        33 => Some(NativeCall::GetProcessIdByTask),
        34 => Some(NativeCall::VfsUnmountPath),
        35 => Some(NativeCall::NetworkReinitialize),
        36 => Some(NativeCall::ConsumeReadyLaunchContext),
        37 => Some(NativeCall::ExecuteReadyLaunchContext),
        38 => Some(NativeCall::FutexWait),
        39 => Some(NativeCall::FutexWake),
        40 => Some(NativeCall::UpcallRegister),
        41 => Some(NativeCall::UpcallUnregister),
        42 => Some(NativeCall::UpcallQuery),
        43 => Some(NativeCall::UpcallConsume),
        44 => Some(NativeCall::UpcallInjectVirq),
        45 => Some(NativeCall::GetAbiInfo),
        46 => Some(NativeCall::SetNetworkBackpressurePolicy),
        47 => Some(NativeCall::SetNetworkAlertThresholds),
        48 => Some(NativeCall::GetNetworkAlertReport),
        49 => Some(NativeCall::ResolvePlt),
        50 => Some(NativeCall::VfsOpen),
        51 => Some(NativeCall::VfsRead),
        52 => Some(NativeCall::VfsWrite),
        53 => Some(NativeCall::VfsClose),
        54 => Some(NativeCall::GetCrashReport),
        55 => Some(NativeCall::ListCrashEvents),
        56 => Some(NativeCall::GetCorePressureSnapshot),
        57 => Some(NativeCall::GetLotteryReplayLatest),
        58 => Some(NativeCall::SetPolicyDriftControl),
        59 => Some(NativeCall::GetPolicyDriftControl),
        60 => Some(NativeCall::GetPolicyDriftReasonText),
        _ => None,
    }
}

/// A counter bumped once, wrapping as the kernel's atomic counters do.
pub open spec fn bump(x: u64) -> u64 {
    if x == u64::MAX {
        0
    } else {
        (x + 1) as u64
    }
}

pub(crate) fn bumped(x: u64) -> (r: u64)
    ensures
        r == bump(x),
{
    if x == u64::MAX {
        0
    } else {
        x + 1
    }
}

/// The counters after native call `c` was routed: the calls whose handling
/// counts them bump their own counter; the others leave the counters alone.
pub open spec fn count_native_call(s: SyscallCounters, c: NativeCall) -> SyscallCounters {
    match c {
        NativeCall::GetPowerStats => SyscallCounters { power_stats_calls: bump(s.power_stats_calls), ..s },
        NativeCall::SetPowerOverride => SyscallCounters { power_override_set_calls: bump(s.power_override_set_calls), ..s },
        NativeCall::ClearPowerOverride => SyscallCounters { power_override_clear_calls: bump(s.power_override_clear_calls), ..s },
        NativeCall::SetCstateOverride => SyscallCounters { power_cstate_set_calls: bump(s.power_cstate_set_calls), ..s },
        NativeCall::ClearCstateOverride => SyscallCounters { power_cstate_clear_calls: bump(s.power_cstate_clear_calls), ..s },
        NativeCall::GetProcessLaunchContext => SyscallCounters { process_launch_ctx_calls: bump(s.process_launch_ctx_calls), ..s },
        NativeCall::ClaimNextLaunchContext => SyscallCounters { process_claim_ctx_calls: bump(s.process_claim_ctx_calls), ..s },
        NativeCall::AckLaunchContext => SyscallCounters { process_ack_ctx_calls: bump(s.process_ack_ctx_calls), ..s },
        NativeCall::GetLaunchContextStage => SyscallCounters { process_ctx_stage_calls: bump(s.process_ctx_stage_calls), ..s },
        NativeCall::ConsumeReadyLaunchContext => SyscallCounters { process_consume_ctx_calls: bump(s.process_consume_ctx_calls), ..s },
        NativeCall::ExecuteReadyLaunchContext => SyscallCounters { process_execute_ctx_calls: bump(s.process_execute_ctx_calls), ..s },
        NativeCall::FutexWait => SyscallCounters { futex_wait_calls: bump(s.futex_wait_calls), ..s },
        NativeCall::FutexWake => SyscallCounters { futex_wake_calls: bump(s.futex_wake_calls), ..s },
        NativeCall::UpcallRegister => SyscallCounters { upcall_register_calls: bump(s.upcall_register_calls), ..s },
        NativeCall::UpcallUnregister => SyscallCounters { upcall_unregister_calls: bump(s.upcall_unregister_calls), ..s },
        NativeCall::UpcallQuery => SyscallCounters { upcall_query_calls: bump(s.upcall_query_calls), ..s },
        NativeCall::UpcallConsume => SyscallCounters { upcall_consume_calls: bump(s.upcall_consume_calls), ..s },
        NativeCall::UpcallInjectVirq => SyscallCounters { upcall_inject_virq_calls: bump(s.upcall_inject_virq_calls), ..s },
        NativeCall::GetLaunchStats => SyscallCounters { launch_stats_calls: bump(s.launch_stats_calls), ..s },
        NativeCall::GetProcessCount => SyscallCounters { process_count_calls: bump(s.process_count_calls), ..s },
        NativeCall::ListProcessIds => SyscallCounters { process_list_calls: bump(s.process_list_calls), ..s },
        NativeCall::GetProcessImageState => SyscallCounters { process_image_state_calls: bump(s.process_image_state_calls), ..s },
        NativeCall::GetProcessMappingState => SyscallCounters { process_mapping_state_calls: bump(s.process_mapping_state_calls), ..s },
        NativeCall::GetProcessIdByTask => SyscallCounters { task_process_id_calls: bump(s.task_process_id_calls), ..s },
        NativeCall::GetNetworkStats => SyscallCounters { network_stats_calls: bump(s.network_stats_calls), ..s },
        NativeCall::SetNetworkPolling => SyscallCounters { network_poll_control_calls: bump(s.network_poll_control_calls), ..s },
        NativeCall::NetworkResetStats => SyscallCounters { network_reset_stats_calls: bump(s.network_reset_stats_calls), ..s },
        NativeCall::NetworkForcePoll => SyscallCounters { network_force_poll_calls: bump(s.network_force_poll_calls), ..s },
        NativeCall::NetworkReinitialize => SyscallCounters { network_reinit_calls: bump(s.network_reinit_calls), ..s },
        NativeCall::VfsOpen => SyscallCounters { vfs_open_calls: bump(s.vfs_open_calls), ..s },
        NativeCall::VfsRead => SyscallCounters { vfs_read_calls: bump(s.vfs_read_calls), ..s },
        NativeCall::VfsWrite => SyscallCounters { vfs_write_calls: bump(s.vfs_write_calls), ..s },
        NativeCall::VfsClose => SyscallCounters { vfs_close_calls: bump(s.vfs_close_calls), ..s },
        NativeCall::GetPolicyDriftReasonText => SyscallCounters { policy_drift_reason_text_calls: bump(s.policy_drift_reason_text_calls), ..s },
        _ => s,
    }
}

fn count_call(counters: &mut SyscallCounters, c: NativeCall)
    ensures
        *final(counters) == count_native_call(*old(counters), c),
{
    match c {
        NativeCall::GetPowerStats => counters.power_stats_calls = bumped(counters.power_stats_calls),
        NativeCall::SetPowerOverride => counters.power_override_set_calls = bumped(counters.power_override_set_calls),
        NativeCall::ClearPowerOverride => counters.power_override_clear_calls = bumped(counters.power_override_clear_calls),
        NativeCall::SetCstateOverride => counters.power_cstate_set_calls = bumped(counters.power_cstate_set_calls),
        NativeCall::ClearCstateOverride => counters.power_cstate_clear_calls = bumped(counters.power_cstate_clear_calls),
        NativeCall::GetProcessLaunchContext => counters.process_launch_ctx_calls = bumped(counters.process_launch_ctx_calls),
        NativeCall::ClaimNextLaunchContext => counters.process_claim_ctx_calls = bumped(counters.process_claim_ctx_calls),
        NativeCall::AckLaunchContext => counters.process_ack_ctx_calls = bumped(counters.process_ack_ctx_calls),
        NativeCall::GetLaunchContextStage => counters.process_ctx_stage_calls = bumped(counters.process_ctx_stage_calls),
        NativeCall::ConsumeReadyLaunchContext => counters.process_consume_ctx_calls = bumped(counters.process_consume_ctx_calls),
        NativeCall::ExecuteReadyLaunchContext => counters.process_execute_ctx_calls = bumped(counters.process_execute_ctx_calls),
        NativeCall::FutexWait => counters.futex_wait_calls = bumped(counters.futex_wait_calls),
        NativeCall::FutexWake => counters.futex_wake_calls = bumped(counters.futex_wake_calls),
        NativeCall::UpcallRegister => counters.upcall_register_calls = bumped(counters.upcall_register_calls),
        NativeCall::UpcallUnregister => counters.upcall_unregister_calls = bumped(counters.upcall_unregister_calls),
        NativeCall::UpcallQuery => counters.upcall_query_calls = bumped(counters.upcall_query_calls),
        NativeCall::UpcallConsume => counters.upcall_consume_calls = bumped(counters.upcall_consume_calls),
        NativeCall::UpcallInjectVirq => counters.upcall_inject_virq_calls = bumped(counters.upcall_inject_virq_calls),
        NativeCall::GetLaunchStats => counters.launch_stats_calls = bumped(counters.launch_stats_calls),
        NativeCall::GetProcessCount => counters.process_count_calls = bumped(counters.process_count_calls),
        NativeCall::ListProcessIds => counters.process_list_calls = bumped(counters.process_list_calls),
        NativeCall::GetProcessImageState => counters.process_image_state_calls = bumped(counters.process_image_state_calls),
        NativeCall::GetProcessMappingState => counters.process_mapping_state_calls = bumped(counters.process_mapping_state_calls),
        NativeCall::GetProcessIdByTask => counters.task_process_id_calls = bumped(counters.task_process_id_calls),
        NativeCall::GetNetworkStats => counters.network_stats_calls = bumped(counters.network_stats_calls),
        NativeCall::SetNetworkPolling => counters.network_poll_control_calls = bumped(counters.network_poll_control_calls),
        NativeCall::NetworkResetStats => counters.network_reset_stats_calls = bumped(counters.network_reset_stats_calls),
        NativeCall::NetworkForcePoll => counters.network_force_poll_calls = bumped(counters.network_force_poll_calls),
        NativeCall::NetworkReinitialize => counters.network_reinit_calls = bumped(counters.network_reinit_calls),
        NativeCall::VfsOpen => counters.vfs_open_calls = bumped(counters.vfs_open_calls),
        NativeCall::VfsRead => counters.vfs_read_calls = bumped(counters.vfs_read_calls),
        NativeCall::VfsWrite => counters.vfs_write_calls = bumped(counters.vfs_write_calls),
        NativeCall::VfsClose => counters.vfs_close_calls = bumped(counters.vfs_close_calls),
        NativeCall::GetPolicyDriftReasonText => counters.policy_drift_reason_text_calls = bumped(counters.policy_drift_reason_text_calls),
        _ => {},
    }
}

/// Entry of a syscall: counts it, and routes it to the native call its
/// number names (counting that call too); `None` hands it on to the Linux
/// dispatcher.
pub fn native_syscall_entry(counters: &mut SyscallCounters, syscall_id: usize) -> (r: Option<NativeCall>)
    ensures
        r matches Some(c) ==> native_number(c) == syscall_id,
        forall|c: NativeCall| native_number(c) == syscall_id ==> r == Some(c),
        ({
            let entered = SyscallCounters { total: bump(old(counters).total), ..*old(counters) };
            match r {
                Some(c) => *final(counters) == count_native_call(entered, c),
                None => *final(counters) == entered,
            }
        }),
{
    counters.total = bumped(counters.total);
    let call = native_call_of(syscall_id);
    if let Some(c) = call {
        count_call(counters, c);
    }
    call
}

/// A syscall that neither the kernel nor the Linux dispatcher knows:
/// counted as unknown, answered with all bits set.
pub fn unknown_syscall(counters: &mut SyscallCounters) -> (r: usize)
    ensures
        r == usize::MAX,
        *final(counters) == (SyscallCounters { unknown: bump(old(counters).unknown), ..*old(counters) }),
{
    counters.unknown = bumped(counters.unknown);
    usize::MAX
}

/// What a syscall hands back to user space: its return value, and the
/// entry point to resume at when an `execve` replaced the program (zero
/// to resume where the call was made).
#[derive(Debug, Clone, Copy, PartialEq, Eq, Structural)]
pub struct SyscallReturn {
    pub ret: usize,
    pub new_rip: usize,
}

/// Leaves a syscall with return value `ret`: takes the entry point a
/// successful `execve` left pending (zero when there is none) and clears
/// it.
pub fn syscall_return(pending_entry: &mut usize, ret: usize) -> (r: SyscallReturn)
    ensures
        r.ret == ret,
        r.new_rip == *old(pending_entry),
        *final(pending_entry) == 0,
{
    let new_rip = *pending_entry;
    *pending_entry = 0;
    SyscallReturn { ret, new_rip }
}

} // verus!
