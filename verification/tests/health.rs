use lib::stats_api::{
    current_syscall_health, evaluate_syscall_health, ratio_per_mille, recommended_syscall_health_action, stats,
    SyscallCounters, SyscallHealthAction, SyscallStats,
};

#[test]
fn syscall_health_detects_unknown_spike() {
    let mut s = SyscallStats::default();
    s.total = 1000;
    s.unknown = 90;
    let report = evaluate_syscall_health(s);
    assert!(report.degraded);
    assert_eq!(recommended_syscall_health_action(report), SyscallHealthAction::AuditUnknownSyscalls);
}

#[test]
fn syscall_health_prefers_pointer_validation_on_access_denials() {
    let mut s = SyscallStats::default();
    s.total = 1000;
    s.user_access_denied = 300;
    let report = evaluate_syscall_health(s);
    assert_eq!(
        recommended_syscall_health_action(report),
        SyscallHealthAction::TightenUserPointerValidation
    );
}

#[test]
fn healthy_interface_needs_no_action() {
    let mut s = SyscallStats::default();
    s.total = 1000;
    s.unknown = 50;
    s.invalid_args = 100;
    s.user_access_denied = 120;
    s.network_stats_calls = 10;
    s.process_list_calls = 5;
    let report = evaluate_syscall_health(s);
    assert_eq!(report.unknown_rate_per_mille, 50);
    assert_eq!(report.control_plane_ratio_per_mille, 15);
    assert!(!report.degraded);
    assert_eq!(recommended_syscall_health_action(report), SyscallHealthAction::NoAction);
}

#[test]
fn degraded_exactly_when_action_recommended() {
    for (unknown, invalid, denied) in [(0u64, 0u64, 0u64), (51, 0, 0), (0, 101, 0), (0, 0, 121), (40, 90, 110)] {
        let mut s = SyscallStats::default();
        s.total = 1000;
        s.unknown = unknown;
        s.invalid_args = invalid;
        s.user_access_denied = denied;
        let report = evaluate_syscall_health(s);
        assert_eq!(report.degraded, recommended_syscall_health_action(report) != SyscallHealthAction::NoAction);
    }
}

#[test]
fn ratio_per_mille_edges() {
    assert_eq!(ratio_per_mille(5, 0), 0);
    assert_eq!(ratio_per_mille(1, 3), 333);
    assert_eq!(ratio_per_mille(u64::MAX, u64::MAX), 1);
}

#[test]
fn counters_start_at_zero_and_snapshot_copies_them() {
    let mut c = SyscallCounters::new();
    assert_eq!(stats(&c).total, 0);
    c.total = 200;
    c.unknown = 20;
    c.futex_wait_calls = 4;
    let s = stats(&c);
    assert_eq!(s.total, 200);
    assert_eq!(s.futex_wait_calls, 4);
    c.network_stats_calls = 10;
    c.power_stats_calls = 30;
    let r = current_syscall_health(&c);
    assert_eq!(r.unknown_rate_per_mille, 100);
    assert_eq!(r.control_plane_ratio_per_mille, 200);
    assert!(r.degraded);
}
