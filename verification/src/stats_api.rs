use vstd::prelude::*;

verus! {

/// Snapshot of the syscall counters.
#[derive(Debug, Clone, Copy, Default)]
pub struct SyscallStats {
    pub total: u64,
    pub unknown: u64,
    pub invalid_args: u64,
    pub user_access_denied: u64,
    pub user_word_unaligned_denied: u64,
    pub print_calls: u64,
    pub tls_calls: u64,
    pub affinity_calls: u64,
    pub abi_info_calls: u64,
    pub launch_stats_calls: u64,
    pub process_count_calls: u64,
    pub process_list_calls: u64,
    pub process_spawn_calls: u64,
    pub process_image_state_calls: u64,
    pub process_mapping_state_calls: u64,
    pub vfs_mount_ramfs_calls: u64,
    pub vfs_mount_diskfs_calls: u64,
    pub vfs_list_mounts_calls: u64,
    pub power_stats_calls: u64,
    pub power_override_set_calls: u64,
    pub power_override_clear_calls: u64,
    pub network_stats_calls: u64,
    pub network_poll_control_calls: u64,
    pub process_terminate_calls: u64,
    pub process_launch_ctx_calls: u64,
    pub vfs_mount_path_calls: u64,
    pub vfs_unmount_calls: u64,
    pub vfs_stats_calls: u64,
    pub network_reset_stats_calls: u64,
    pub network_force_poll_calls: u64,
    pub power_cstate_set_calls: u64,
    pub power_cstate_clear_calls: u64,
    pub process_claim_ctx_calls: u64,
    pub process_ack_ctx_calls: u64,
    pub process_ctx_stage_calls: u64,
    pub task_terminate_calls: u64,
    pub task_process_id_calls: u64,
    pub vfs_unmount_path_calls: u64,
    pub network_reinit_calls: u64,
    pub process_consume_ctx_calls: u64,
    pub process_execute_ctx_calls: u64,
    pub futex_wait_calls: u64,
    pub futex_wake_calls: u64,
    pub upcall_register_calls: u64,
    pub upcall_unregister_calls: u64,
    pub upcall_query_calls: u64,
    pub upcall_consume_calls: u64,
    pub upcall_inject_virq_calls: u64,
    pub network_backpressure_policy_calls: u64,
    pub network_alert_thresholds_calls: u64,
    pub network_alert_report_calls: u64,
    pub crash_report_calls: u64,
    pub crash_events_calls: u64,
    pub core_pressure_snapshot_calls: u64,
    pub lottery_replay_latest_calls: u64,
    pub policy_drift_control_set_calls: u64,
    pub policy_drift_control_get_calls: u64,
    pub policy_drift_reason_text_calls: u64,
}

/// The live syscall counters, bumped as syscalls are handled.
#[derive(Debug, Clone, Copy)]
pub struct SyscallCounters {
    pub total: u64,
    pub unknown: u64,
    pub invalid_args: u64,
    pub user_access_denied: u64,
    pub user_word_unaligned_denied: u64,
    pub print_calls: u64,
    pub tls_calls: u64,
    pub affinity_calls: u64,
    pub abi_info_calls: u64,
    pub launch_stats_calls: u64,
    pub process_count_calls: u64,
    pub process_list_calls: u64,
    pub process_spawn_calls: u64,
    pub process_image_state_calls: u64,
    pub process_mapping_state_calls: u64,
    pub vfs_mount_ramfs_calls: u64,
    pub vfs_mount_diskfs_calls: u64,
    pub vfs_list_mounts_calls: u64,
    pub power_stats_calls: u64,
    pub power_override_set_calls: u64,
    pub power_override_clear_calls: u64,
    pub network_stats_calls: u64,
    pub network_poll_control_calls: u64,
    pub process_terminate_calls: u64,
    pub process_launch_ctx_calls: u64,
    pub vfs_mount_path_calls: u64,
    pub vfs_unmount_calls: u64,
    pub vfs_stats_calls: u64,
    pub network_reset_stats_calls: u64,
    pub network_force_poll_calls: u64,
    pub power_cstate_set_calls: u64,
    pub power_cstate_clear_calls: u64,
    pub process_claim_ctx_calls: u64,
    pub process_ack_ctx_calls: u64,
    pub process_ctx_stage_calls: u64,
    pub task_terminate_calls: u64,
    pub task_process_id_calls: u64,
    pub vfs_unmount_path_calls: u64,
    pub network_reinit_calls: u64,
    pub process_consume_ctx_calls: u64,
    pub process_execute_ctx_calls: u64,
    pub futex_wait_calls: u64,
    pub futex_wake_calls: u64,
    pub upcall_register_calls: u64,
    pub upcall_unregister_calls: u64,
    pub upcall_query_calls: u64,
    pub upcall_consume_calls: u64,
    pub upcall_inject_virq_calls: u64,
    pub network_backpressure_policy_calls: u64,
    pub network_alert_thresholds_calls: u64,
    pub network_alert_report_calls: u64,
    pub crash_report_calls: u64,
    pub crash_events_calls: u64,
    pub core_pressure_snapshot_calls: u64,
    pub lottery_replay_latest_calls: u64,
    pub policy_drift_control_set_calls: u64,
    pub policy_drift_control_get_calls: u64,
    pub policy_drift_reason_text_calls: u64,
    pub vfs_open_calls: u64,
    pub vfs_read_calls: u64,
    pub vfs_write_calls: u64,
    pub vfs_close_calls: u64,
}

impl SyscallCounters {
    pub fn new() -> (c: Self)
        ensures
            c.total == 0,
            c.unknown == 0,
            c.invalid_args == 0,
            c.user_access_denied == 0,
            c.user_word_unaligned_denied == 0,
            c.print_calls == 0,
            c.tls_calls == 0,
            c.affinity_calls == 0,
            c.abi_info_calls == 0,
            c.launch_stats_calls == 0,
            c.process_count_calls == 0,
            c.process_list_calls == 0,
            c.process_spawn_calls == 0,
            c.process_image_state_calls == 0,
            c.process_mapping_state_calls == 0,
            c.vfs_mount_ramfs_calls == 0,
            c.vfs_mount_diskfs_calls == 0,
            c.vfs_list_mounts_calls == 0,
            c.power_stats_calls == 0,
            c.power_override_set_calls == 0,
            c.power_override_clear_calls == 0,
            c.network_stats_calls == 0,
            c.network_poll_control_calls == 0,
            c.process_terminate_calls == 0,
            c.process_launch_ctx_calls == 0,
            c.vfs_mount_path_calls == 0,
            c.vfs_unmount_calls == 0,
            c.vfs_stats_calls == 0,
            c.network_reset_stats_calls == 0,
            c.network_force_poll_calls == 0,
            c.power_cstate_set_calls == 0,
            c.power_cstate_clear_calls == 0,
            c.process_claim_ctx_calls == 0,
            c.process_ack_ctx_calls == 0,
            c.process_ctx_stage_calls == 0,
            c.task_terminate_calls == 0,
            c.task_process_id_calls == 0,
            c.vfs_unmount_path_calls == 0,
            c.network_reinit_calls == 0,
            c.process_consume_ctx_calls == 0,
            c.process_execute_ctx_calls == 0,
            c.futex_wait_calls == 0,
            c.futex_wake_calls == 0,
            c.upcall_register_calls == 0,
            c.upcall_unregister_calls == 0,
            c.upcall_query_calls == 0,
            c.upcall_consume_calls == 0,
            c.upcall_inject_virq_calls == 0,
            c.network_backpressure_policy_calls == 0,
            c.network_alert_thresholds_calls == 0,
            c.network_alert_report_calls == 0,
            c.crash_report_calls == 0,
            c.crash_events_calls == 0,
            c.core_pressure_snapshot_calls == 0,
            c.lottery_replay_latest_calls == 0,
            c.policy_drift_control_set_calls == 0,
            c.policy_drift_control_get_calls == 0,
            c.policy_drift_reason_text_calls == 0,
            c.vfs_open_calls == 0,
            c.vfs_read_calls == 0,
            c.vfs_write_calls == 0,
            c.vfs_close_calls == 0,
    {
        SyscallCounters {
            total: 0,
            unknown: 0,
            invalid_args: 0,
            user_access_denied: 0,
            user_word_unaligned_denied: 0,
            print_calls: 0,
            tls_calls: 0,
            affinity_calls: 0,
            abi_info_calls: 0,
            launch_stats_calls: 0,
            process_count_calls: 0,
            process_list_calls: 0,
            process_spawn_calls: 0,
            process_image_state_calls: 0,
            process_mapping_state_calls: 0,
            vfs_mount_ramfs_calls: 0,
            vfs_mount_diskfs_calls: 0,
            vfs_list_mounts_calls: 0,
            power_stats_calls: 0,
            power_override_set_calls: 0,
            power_override_clear_calls: 0,
            network_stats_calls: 0,
            network_poll_control_calls: 0,
            process_terminate_calls: 0,
            process_launch_ctx_calls: 0,
            vfs_mount_path_calls: 0,
            vfs_unmount_calls: 0,
            vfs_stats_calls: 0,
            network_reset_stats_calls: 0,
            network_force_poll_calls: 0,
            power_cstate_set_calls: 0,
            power_cstate_clear_calls: 0,
            process_claim_ctx_calls: 0,
            process_ack_ctx_calls: 0,
            process_ctx_stage_calls: 0,
            task_terminate_calls: 0,
            task_process_id_calls: 0,
            vfs_unmount_path_calls: 0,
            network_reinit_calls: 0,
            process_consume_ctx_calls: 0,
            process_execute_ctx_calls: 0,
            futex_wait_calls: 0,
            futex_wake_calls: 0,
            upcall_register_calls: 0,
            upcall_unregister_calls: 0,
            upcall_query_calls: 0,
            upcall_consume_calls: 0,
            upcall_inject_virq_calls: 0,
            network_backpressure_policy_calls: 0,
            network_alert_thresholds_calls: 0,
            network_alert_report_calls: 0,
            crash_report_calls: 0,
            crash_events_calls: 0,
            core_pressure_snapshot_calls: 0,
            lottery_replay_latest_calls: 0,
            policy_drift_control_set_calls: 0,
            policy_drift_control_get_calls: 0,
            policy_drift_reason_text_calls: 0,
            vfs_open_calls: 0,
            vfs_read_calls: 0,
            vfs_write_calls: 0,
            vfs_close_calls: 0,
        }
    }
}

#[derive(Debug, Clone, Copy, PartialEq, Eq, Structural)]
pub enum SyscallHealthAction {
    NoAction,
    AuditUnknownSyscalls,
    TightenUserPointerValidation,
}

#[derive(Debug, Clone, Copy)]
pub struct SyscallHealthReport {
    pub total: u64,
    pub unknown_rate_per_mille: u64,
    pub invalid_arg_rate_per_mille: u64,
    pub user_access_denied_rate_per_mille: u64,
    pub control_plane_ratio_per_mille: u64,
    pub degraded: bool,
}

pub open spec fn sat_add_u64(a: int, b: int) -> int {
    if a + b > u64::MAX { u64::MAX as int } else { a + b }
}

/// `numerator` per thousand of `denominator` (the product clamped to the
/// word), or zero when there is nothing to divide by.
pub open spec fn per_mille(numerator: int, denominator: int) -> int {
    if denominator == 0 {
        0
    } else {
        (if numerator * 1000 > u64::MAX { u64::MAX as int } else { numerator * 1000 }) / denominator
    }
}

/// Calls that only read control-plane state.
pub open spec fn control_plane_calls(s: SyscallStats) -> int {
    sat_add_u64(sat_add_u64(sat_add_u64(sat_add_u64(sat_add_u64(sat_add_u64(
        s.network_stats_calls as int, s.vfs_stats_calls as int), s.power_stats_calls as int),
        s.process_count_calls as int), s.process_list_calls as int),
        s.core_pressure_snapshot_calls as int), s.lottery_replay_latest_calls as int)
}

/// The control-plane calls the live counters record, as `control_plane_calls`
/// counts them in a snapshot.
pub open spec fn counted_control_plane_calls(c: SyscallCounters) -> int {
    sat_add_u64(sat_add_u64(sat_add_u64(sat_add_u64(sat_add_u64(sat_add_u64(
        c.network_stats_calls as int, c.vfs_stats_calls as int), c.power_stats_calls as int),
        c.process_count_calls as int), c.process_list_calls as int),
        c.core_pressure_snapshot_calls as int), c.lottery_replay_latest_calls as int)
}

pub open spec fn degraded_rates(unknown: int, invalid: int, denied: int) -> bool {
    unknown > 50 || invalid > 100 || denied > 120
}

pub fn ratio_per_mille(numerator: u64, denominator: u64) -> (r: u64)
    ensures
        r as int == per_mille(numerator as int, denominator as int),
{
    if denominator == 0 {
        0
    } else {
        crate::arith::mul_sat_u64(numerator, 1000) / denominator
    }
}

/// Rates of failed and control-plane calls per thousand calls, and whether
/// the failure rates show a degraded syscall interface.
pub fn evaluate_syscall_health(stats: SyscallStats) -> (r: SyscallHealthReport)
    ensures
        r.total == stats.total,
        r.unknown_rate_per_mille as int == per_mille(stats.unknown as int, stats.total as int),
        r.invalid_arg_rate_per_mille as int == per_mille(stats.invalid_args as int, stats.total as int),
        r.user_access_denied_rate_per_mille as int == per_mille(
            stats.user_access_denied as int,
            stats.total as int,
        ),
        r.control_plane_ratio_per_mille as int == per_mille(
            control_plane_calls(stats),
            stats.total as int,
        ),
        r.degraded == degraded_rates(
            r.unknown_rate_per_mille as int,
            r.invalid_arg_rate_per_mille as int,
            r.user_access_denied_rate_per_mille as int,
        ),
{
    let control_plane_calls = stats.network_stats_calls.saturating_add(stats.vfs_stats_calls).saturating_add(
        stats.power_stats_calls,
    ).saturating_add(stats.process_count_calls).saturating_add(stats.process_list_calls).saturating_add(
        stats.core_pressure_snapshot_calls,
    ).saturating_add(stats.lottery_replay_latest_calls);

    let unknown_rate = ratio_per_mille(stats.unknown, stats.total);
    let invalid_arg_rate = ratio_per_mille(stats.invalid_args, stats.total);
    let denied_rate = ratio_per_mille(stats.user_access_denied, stats.total);
    let control_plane_ratio = ratio_per_mille(control_plane_calls, stats.total);
    let degraded = unknown_rate > 50 || invalid_arg_rate > 100 || denied_rate > 120;

    SyscallHealthReport {
        total: stats.total,
        unknown_rate_per_mille: unknown_rate,
        invalid_arg_rate_per_mille: invalid_arg_rate,
        user_access_denied_rate_per_mille: denied_rate,
        control_plane_ratio_per_mille: control_plane_ratio,
        degraded,
    }
}

pub open spec fn health_action_spec(r: SyscallHealthReport) -> SyscallHealthAction {
    if r.unknown_rate_per_mille > 50 {
        SyscallHealthAction::AuditUnknownSyscalls
    } else if r.invalid_arg_rate_per_mille > 100 || r.user_access_denied_rate_per_mille > 120 {
        SyscallHealthAction::TightenUserPointerValidation
    } else {
        SyscallHealthAction::NoAction
    }
}

/// What to do about a report: audit unknown syscalls first, then tighten
/// pointer validation.
pub fn recommended_syscall_health_action(report: SyscallHealthReport) -> (a: SyscallHealthAction)
    ensures
        a == health_action_spec(report),
{
    if report.unknown_rate_per_mille > 50 {
        return SyscallHealthAction::AuditUnknownSyscalls;
    }
    if report.invalid_arg_rate_per_mille > 100 || report.user_access_denied_rate_per_mille > 120 {
        return SyscallHealthAction::TightenUserPointerValidation;
    }
    SyscallHealthAction::NoAction
}

/// A report is degraded exactly when some action is recommended for it.
pub proof fn law_degraded_iff_action(stats: SyscallStats, report: SyscallHealthReport)
    requires
        report.degraded == degraded_rates(
            report.unknown_rate_per_mille as int,
            report.invalid_arg_rate_per_mille as int,
            report.user_access_denied_rate_per_mille as int,
        ),
    ensures
        report.degraded <==> health_action_spec(report) != SyscallHealthAction::NoAction,
{
}

/// The health of the syscall interface according to the live counters.
pub fn current_syscall_health(counters: &SyscallCounters) -> (r: SyscallHealthReport)
    ensures
        r.total == counters.total,
        r.unknown_rate_per_mille as int == per_mille(counters.unknown as int, counters.total as int),
        r.invalid_arg_rate_per_mille as int == per_mille(counters.invalid_args as int, counters.total as int),
        r.user_access_denied_rate_per_mille as int == per_mille(
            counters.user_access_denied as int,
            counters.total as int,
        ),
        r.control_plane_ratio_per_mille as int == per_mille(
            counted_control_plane_calls(*counters),
            counters.total as int,
        ),
        r.degraded == degraded_rates(
            r.unknown_rate_per_mille as int,
            r.invalid_arg_rate_per_mille as int,
            r.user_access_denied_rate_per_mille as int,
        ),
{
    evaluate_syscall_health(stats(counters))
}

/// A snapshot of the live counters.
pub fn stats(counters: &SyscallCounters) -> (s: SyscallStats)
    ensures
        s.total == counters.total,
        s.unknown == counters.unknown,
        s.invalid_args == counters.invalid_args,
        s.user_access_denied == counters.user_access_denied,
        s.user_word_unaligned_denied == counters.user_word_unaligned_denied,
        s.print_calls == counters.print_calls,
        s.tls_calls == counters.tls_calls,
        s.affinity_calls == counters.affinity_calls,
        s.abi_info_calls == counters.abi_info_calls,
        s.launch_stats_calls == counters.launch_stats_calls,
        s.process_count_calls == counters.process_count_calls,
        s.process_list_calls == counters.process_list_calls,
        s.process_spawn_calls == counters.process_spawn_calls,
        s.process_image_state_calls == counters.process_image_state_calls,
        s.process_mapping_state_calls == counters.process_mapping_state_calls,
        s.vfs_mount_ramfs_calls == counters.vfs_mount_ramfs_calls,
        s.vfs_mount_diskfs_calls == counters.vfs_mount_diskfs_calls,
        s.vfs_list_mounts_calls == counters.vfs_list_mounts_calls,
        s.power_stats_calls == counters.power_stats_calls,
        s.power_override_set_calls == counters.power_override_set_calls,
        s.power_override_clear_calls == counters.power_override_clear_calls,
        s.network_stats_calls == counters.network_stats_calls,
        s.network_poll_control_calls == counters.network_poll_control_calls,
        s.process_terminate_calls == counters.process_terminate_calls,
        s.process_launch_ctx_calls == counters.process_launch_ctx_calls,
        s.vfs_mount_path_calls == counters.vfs_mount_path_calls,
        s.vfs_unmount_calls == counters.vfs_unmount_calls,
        s.vfs_stats_calls == counters.vfs_stats_calls,
        s.network_reset_stats_calls == counters.network_reset_stats_calls,
        s.network_force_poll_calls == counters.network_force_poll_calls,
        s.power_cstate_set_calls == counters.power_cstate_set_calls,
        s.power_cstate_clear_calls == counters.power_cstate_clear_calls,
        s.process_claim_ctx_calls == counters.process_claim_ctx_calls,
        s.process_ack_ctx_calls == counters.process_ack_ctx_calls,
        s.process_ctx_stage_calls == counters.process_ctx_stage_calls,
        s.task_terminate_calls == counters.task_terminate_calls,
        s.task_process_id_calls == counters.task_process_id_calls,
        s.vfs_unmount_path_calls == counters.vfs_unmount_path_calls,
        s.network_reinit_calls == counters.network_reinit_calls,
        s.process_consume_ctx_calls == counters.process_consume_ctx_calls,
        s.process_execute_ctx_calls == counters.process_execute_ctx_calls,
        s.futex_wait_calls == counters.futex_wait_calls,
        s.futex_wake_calls == counters.futex_wake_calls,
        s.upcall_register_calls == counters.upcall_register_calls,
        s.upcall_unregister_calls == counters.upcall_unregister_calls,
        s.upcall_query_calls == counters.upcall_query_calls,
        s.upcall_consume_calls == counters.upcall_consume_calls,
        s.upcall_inject_virq_calls == counters.upcall_inject_virq_calls,
        s.network_backpressure_policy_calls == counters.network_backpressure_policy_calls,
        s.network_alert_thresholds_calls == counters.network_alert_thresholds_calls,
        s.network_alert_report_calls == counters.network_alert_report_calls,
        s.crash_report_calls == counters.crash_report_calls,
        s.crash_events_calls == counters.crash_events_calls,
        s.core_pressure_snapshot_calls == counters.core_pressure_snapshot_calls,
        s.lottery_replay_latest_calls == counters.lottery_replay_latest_calls,
        s.policy_drift_control_set_calls == counters.policy_drift_control_set_calls,
        s.policy_drift_control_get_calls == counters.policy_drift_control_get_calls,
        s.policy_drift_reason_text_calls == counters.policy_drift_reason_text_calls,
{
    SyscallStats {
            total: counters.total,
            unknown: counters.unknown,
            invalid_args: counters.invalid_args,
            user_access_denied: counters.user_access_denied,
            user_word_unaligned_denied: counters.user_word_unaligned_denied,
            print_calls: counters.print_calls,
            tls_calls: counters.tls_calls,
            affinity_calls: counters.affinity_calls,
            abi_info_calls: counters.abi_info_calls,
            launch_stats_calls: counters.launch_stats_calls,
            process_count_calls: counters.process_count_calls,
            process_list_calls: counters.process_list_calls,
            process_spawn_calls: counters.process_spawn_calls,
            process_image_state_calls: counters.process_image_state_calls,
            process_mapping_state_calls: counters.process_mapping_state_calls,
            vfs_mount_ramfs_calls: counters.vfs_mount_ramfs_calls,
            vfs_mount_diskfs_calls: counters.vfs_mount_diskfs_calls,
            vfs_list_mounts_calls: counters.vfs_list_mounts_calls,
            power_stats_calls: counters.power_stats_calls,
            power_override_set_calls: counters.power_override_set_calls,
            power_override_clear_calls: counters.power_override_clear_calls,
            network_stats_calls: counters.network_stats_calls,
            network_poll_control_calls: counters.network_poll_control_calls,
            process_terminate_calls: counters.process_terminate_calls,
            process_launch_ctx_calls: counters.process_launch_ctx_calls,
            vfs_mount_path_calls: counters.vfs_mount_path_calls,
            vfs_unmount_calls: counters.vfs_unmount_calls,
            vfs_stats_calls: counters.vfs_stats_calls,
            network_reset_stats_calls: counters.network_reset_stats_calls,
            network_force_poll_calls: counters.network_force_poll_calls,
            power_cstate_set_calls: counters.power_cstate_set_calls,
            power_cstate_clear_calls: counters.power_cstate_clear_calls,
            process_claim_ctx_calls: counters.process_claim_ctx_calls,
            process_ack_ctx_calls: counters.process_ack_ctx_calls,
            process_ctx_stage_calls: counters.process_ctx_stage_calls,
            task_terminate_calls: counters.task_terminate_calls,
            task_process_id_calls: counters.task_process_id_calls,
            vfs_unmount_path_calls: counters.vfs_unmount_path_calls,
            network_reinit_calls: counters.network_reinit_calls,
            process_consume_ctx_calls: counters.process_consume_ctx_calls,
            process_execute_ctx_calls: counters.process_execute_ctx_calls,
            futex_wait_calls: counters.futex_wait_calls,
            futex_wake_calls: counters.futex_wake_calls,
            upcall_register_calls: counters.upcall_register_calls,
            upcall_unregister_calls: counters.upcall_unregister_calls,
            upcall_query_calls: counters.upcall_query_calls,
            upcall_consume_calls: counters.upcall_consume_calls,
            upcall_inject_virq_calls: counters.upcall_inject_virq_calls,
            network_backpressure_policy_calls: counters.network_backpressure_policy_calls,
            network_alert_thresholds_calls: counters.network_alert_thresholds_calls,
            network_alert_report_calls: counters.network_alert_report_calls,
            crash_report_calls: counters.crash_report_calls,
            crash_events_calls: counters.crash_events_calls,
            core_pressure_snapshot_calls: counters.core_pressure_snapshot_calls,
            lottery_replay_latest_calls: counters.lottery_replay_latest_calls,
            policy_drift_control_set_calls: counters.policy_drift_control_set_calls,
            policy_drift_control_get_calls: counters.policy_drift_control_get_calls,
            policy_drift_reason_text_calls: counters.policy_drift_reason_text_calls
    }
}

} // verus!
