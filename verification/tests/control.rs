use lib::consts::{required_bytes, write_launch_context_words, USER_SPACE_BOTTOM_INCLUSIVE};
use lib::control_plane::{
    encode_core_pressure_class, encode_scheduler_pressure_class, invalid_arg, parse_process_priority,
    permission_denied_arg, upcall_entry_pc_valid, user_access_denied_arg, write_core_pressure_snapshot_words,
    write_launch_context_response, write_mount_record_words, write_user_words, BackpressurePolicy,
    BackpressurePolicyMode, BinarySwitch, CState, CStateOverrideMode, LaunchContext, MountRecord, PState,
    PowerOverrideMode,
};
use lib::control_plane_ops::{
    ack_outcome, override_outcome, sys_ack_launch_context, sys_claim_next_launch_context,
    sys_clear_cstate_override, sys_clear_power_override, sys_consume_ready_launch_context,
    sys_execute_ready_launch_context, sys_get_launch_context_stage, sys_get_launch_stats,
    sys_get_network_stats, sys_get_power_stats, sys_get_process_count, sys_get_process_id_by_task,
    sys_get_process_image_state, sys_get_process_launch_context, sys_get_process_mapping_state,
    sys_list_process_ids, sys_network_force_poll, sys_network_reinitialize, sys_network_reset_stats,
    sys_set_cstate_override, sys_set_network_polling, sys_set_power_override, NetworkBridgeStats, PowerStats,
};
use lib::pressure::{CorePressureClass, CorePressureSnapshot, SchedulerPressureClass};
use lib::user_memory::{
    UserMemory, SYSCALL_ERR_INVALID_ARG, SYSCALL_ERR_PERMISSION_DENIED, SYSCALL_ERR_USER_ACCESS_DENIED,
};

const BASE: usize = 0x10000;

fn mem() -> UserMemory {
    UserMemory::new(BASE, 512)
}

fn words_at(m: &UserMemory, ptr: usize, n: usize) -> Vec<u64> {
    (0..n).map(|i| m.read_u64(ptr + 8 * i).unwrap()).collect()
}

fn ctx() -> LaunchContext {
    LaunchContext {
        process_id: 7,
        task_id: 11,
        entry: 0x40_1000,
        image_pages: 3,
        image_segments: 2,
        mapped_regions: 4,
        mapped_pages: 9,
        cr3: 0x1234_000,
    }
}

#[test]
fn error_codes_are_the_top_of_usize() {
    assert_eq!(invalid_arg(), usize::MAX);
    assert_eq!(user_access_denied_arg(), usize::MAX - 1);
    assert_eq!(permission_denied_arg(), usize::MAX - 2);
    assert_eq!(SYSCALL_ERR_PERMISSION_DENIED, usize::MAX - 2);
}

#[test]
fn required_bytes_counts_words() {
    assert_eq!(required_bytes(0), 0);
    assert_eq!(required_bytes(8), 64);
}

#[test]
fn write_user_words_checks_length_then_access() {
    let mut m = mem();
    assert_eq!(write_user_words(&mut m, BASE, 15, &[1, 2]), SYSCALL_ERR_INVALID_ARG);
    assert_eq!(write_user_words(&mut m, BASE + 4, 16, &[1, 2]), SYSCALL_ERR_USER_ACCESS_DENIED);
    assert_eq!(write_user_words(&mut m, BASE + 512 - 8, 16, &[1, 2]), SYSCALL_ERR_USER_ACCESS_DENIED);
    assert_eq!(words_at(&m, BASE, 2), vec![0, 0]);
    assert_eq!(write_user_words(&mut m, BASE + 8, 16, &[5, 6]), 16);
    assert_eq!(words_at(&m, BASE, 3), vec![0, 5, 6]);
}

#[test]
fn process_priority_is_a_byte() {
    assert_eq!(parse_process_priority(0), Some(0));
    assert_eq!(parse_process_priority(255), Some(255));
    assert_eq!(parse_process_priority(256), None);
}

#[test]
fn pressure_classes_encode_in_order() {
    assert_eq!(encode_core_pressure_class(CorePressureClass::Nominal), 0);
    assert_eq!(encode_core_pressure_class(CorePressureClass::Elevated), 1);
    assert_eq!(encode_core_pressure_class(CorePressureClass::High), 2);
    assert_eq!(encode_core_pressure_class(CorePressureClass::Critical), 3);
    assert_eq!(encode_scheduler_pressure_class(SchedulerPressureClass::Nominal), 0);
    assert_eq!(encode_scheduler_pressure_class(SchedulerPressureClass::Critical), 3);
}

#[test]
fn pressure_snapshot_words_follow_the_abi_order() {
    let snap = CorePressureSnapshot {
        schema_version: 2,
        online_cpus: 4,
        runqueue_total: 10,
        runqueue_max: 5,
        runqueue_avg_milli: 2500,
        rt_starvation_alert: true,
        rt_forced_reschedules: 6,
        watchdog_stall_detections: 7,
        net_queue_limit: 100,
        net_rx_depth: 20,
        net_tx_depth: 30,
        net_saturation_percent: 50,
        lb_imbalance_p50: 1,
        lb_imbalance_p90: 2,
        lb_imbalance_p99: 3,
        lb_prefer_local_forced_moves: 8,
        class: CorePressureClass::High,
        scheduler_class: SchedulerPressureClass::Elevated,
    };
    let mut out = vec![99usize; 20];
    write_core_pressure_snapshot_words(&mut out, snap);
    assert_eq!(
        out,
        vec![2, 4, 10, 5, 2500, 1, 6, 7, 100, 20, 30, 50, 1, 2, 3, 8, 2, 1, 99, 99]
    );
}

#[test]
fn launch_context_words_fill_the_first_eight() {
    let mut out = vec![0usize; 9];
    write_launch_context_words(&mut out, 1, 2, 3, 4, 5, 6, 7, 8);
    assert_eq!(out, vec![1, 2, 3, 4, 5, 6, 7, 8, 0]);
}

#[test]
fn launch_context_response_returns_the_given_value() {
    let mut m = mem();
    assert_eq!(write_launch_context_response(&mut m, BASE, 64, ctx(), 42), 42);
    assert_eq!(words_at(&m, BASE, 8), vec![7, 11, 0x40_1000, 3, 2, 4, 9, 0x1234_000]);
    let mut m2 = mem();
    assert_eq!(write_launch_context_response(&mut m2, BASE, 63, ctx(), 42), SYSCALL_ERR_INVALID_ARG);
}

#[test]
fn mount_record_words_land_at_base() {
    let mut out = vec![0usize; 6];
    write_mount_record_words(&mut out, 3, &MountRecord { id: 1, fs_kind: 2, path_len: 5 });
    assert_eq!(out, vec![0, 0, 0, 1, 2, 5]);
}

#[test]
fn upcall_entry_must_lie_in_user_space() {
    assert!(!upcall_entry_pc_valid(0));
    assert!(!upcall_entry_pc_valid(USER_SPACE_BOTTOM_INCLUSIVE - 1));
    assert!(upcall_entry_pc_valid(USER_SPACE_BOTTOM_INCLUSIVE));
    assert!(upcall_entry_pc_valid(0x0000_7fff_ffff_ffff));
    assert!(!upcall_entry_pc_valid(0x0000_8000_0000_0000));
}

#[test]
fn switches_and_modes_decode() {
    assert_eq!(BinarySwitch::from_usize(0), Some(BinarySwitch::Disabled));
    assert_eq!(BinarySwitch::from_usize(1), Some(BinarySwitch::Enabled));
    assert_eq!(BinarySwitch::from_usize(2), None);
    assert!(BinarySwitch::Enabled.is_enabled());
    assert!(!BinarySwitch::Disabled.is_enabled());
    assert_eq!(PowerOverrideMode::from_usize(2).map(|m| m.to_kernel()), Some(PState::PowerSave));
    assert_eq!(PowerOverrideMode::from_usize(3), None);
    assert_eq!(CStateOverrideMode::from_usize(1).map(|m| m.to_kernel()), Some(CState::C2));
    assert_eq!(CStateOverrideMode::from_usize(9), None);
    assert_eq!(BackpressurePolicyMode::from_usize(0).map(|m| m.to_network()), Some(BackpressurePolicy::Drop));
    assert_eq!(BackpressurePolicyMode::from_usize(2).map(|m| m.to_network()), Some(BackpressurePolicy::ForcePoll));
    assert_eq!(BackpressurePolicyMode::from_usize(3), None);
}

fn power() -> PowerStats {
    PowerStats {
        idle_calls: 1,
        c1_entries: 2,
        c2_entries: 3,
        c3_entries: 4,
        pstate_switches: 5,
        current_pstate: PState::Balanced,
        policy_override_active: true,
        policy_override_set_calls: 6,
        policy_override_clear_calls: 7,
        cstate_override_active: false,
        cstate_override_set_calls: 8,
        cstate_override_clear_calls: 9,
        acpi_profile_loaded: true,
        policy_guard_hits: 10,
        runqueue_clamp_events: 11,
        failsafe_idle_fallbacks: 12,
        override_rejects_no_acpi: 13,
    }
}

#[test]
fn power_stats_are_copied_in_abi_order() {
    let mut m = mem();
    assert_eq!(sys_get_power_stats(&mut m, BASE, 17 * 8, Ok(()), &power()), 136);
    assert_eq!(
        words_at(&m, BASE, 17),
        vec![1, 2, 3, 4, 5, 1, 1, 6, 7, 0, 8, 9, 1, 10, 11, 12, 13]
    );
}

#[test]
fn power_stats_refused_access_returns_the_error_untouched() {
    let mut m = mem();
    assert_eq!(sys_get_power_stats(&mut m, BASE, 17 * 8, Err(SYSCALL_ERR_PERMISSION_DENIED), &power()), SYSCALL_ERR_PERMISSION_DENIED);
    assert_eq!(words_at(&m, BASE, 2), vec![0, 0]);
    assert_eq!(sys_get_power_stats(&mut m, BASE, 16 * 8, Ok(()), &power()), SYSCALL_ERR_INVALID_ARG);
}

#[test]
fn power_overrides_decode_modes() {
    assert_eq!(sys_set_power_override(0, Ok(())), Ok(PState::HighPerf));
    assert_eq!(sys_set_power_override(1, Ok(())), Ok(PState::Balanced));
    assert_eq!(sys_set_power_override(2, Ok(())), Ok(PState::PowerSave));
    assert_eq!(sys_set_power_override(3, Ok(())), Err(SYSCALL_ERR_INVALID_ARG));
    assert_eq!(sys_set_power_override(0, Err(5)), Err(5));
    assert_eq!(override_outcome(true), 0);
    assert_eq!(override_outcome(false), SYSCALL_ERR_INVALID_ARG);
    assert_eq!(sys_clear_power_override(Ok(())), 0);
    assert_eq!(sys_clear_power_override(Err(4)), 4);
    assert_eq!(sys_set_cstate_override(2, Ok(())), Ok(CState::C3));
    assert_eq!(sys_set_cstate_override(3, Ok(())), Err(SYSCALL_ERR_INVALID_ARG));
    assert_eq!(sys_set_cstate_override(1, Err(6)), Err(6));
    assert_eq!(sys_clear_cstate_override(Ok(())), 0);
    assert_eq!(sys_clear_cstate_override(Err(6)), 6);
}

#[test]
fn network_controls() {
    let stats = NetworkBridgeStats {
        smoltcp_bridge_inits: 1,
        smoltcp_polls: 2,
        smoltcp_rx_frames: 3,
        smoltcp_tx_frames: 4,
        smoltcp_runtime_ready: true,
        smoltcp_runtime_poll_enabled: false,
        smoltcp_init_errors: 5,
        smoltcp_poll_errors: 6,
        smoltcp_poll_skips: 7,
        smoltcp_runtime_control_updates: 8,
    };
    let mut m = mem();
    assert_eq!(sys_get_network_stats(&mut m, BASE, 80, Ok(()), &stats), 80);
    assert_eq!(words_at(&m, BASE, 10), vec![1, 2, 3, 4, 1, 0, 5, 6, 7, 8]);
    assert_eq!(sys_get_network_stats(&mut m, BASE, 80, Err(3), &stats), 3);
    assert_eq!(sys_set_network_polling(1, Ok(())), Ok(true));
    assert_eq!(sys_set_network_polling(0, Ok(())), Ok(false));
    assert_eq!(sys_set_network_polling(2, Ok(())), Err(SYSCALL_ERR_INVALID_ARG));
    assert_eq!(sys_set_network_polling(1, Err(9)), Err(9));
    assert_eq!(sys_network_reset_stats(Ok(())), 0);
    assert_eq!(sys_network_reset_stats(Err(9)), 9);
    assert_eq!(sys_network_force_poll(Ok(()), true), 1);
    assert_eq!(sys_network_force_poll(Ok(()), false), 0);
    assert_eq!(sys_network_force_poll(Err(2), true), 2);
    assert_eq!(sys_network_reinitialize(Ok(()), true), 0);
    assert_eq!(sys_network_reinitialize(Ok(()), false), SYSCALL_ERR_INVALID_ARG);
    assert_eq!(sys_network_reinitialize(Err(2), true), 2);
}

#[test]
fn launch_context_queries() {
    let mut m = mem();
    assert_eq!(sys_get_process_launch_context(&mut m, BASE, 64, None), SYSCALL_ERR_INVALID_ARG);
    assert_eq!(sys_get_process_launch_context(&mut m, BASE, 64, Some(ctx())), 64);
    assert_eq!(words_at(&m, BASE, 1), vec![7]);
    let mut m2 = mem();
    assert_eq!(sys_claim_next_launch_context(&mut m2, BASE, 64, None), 0);
    assert_eq!(sys_claim_next_launch_context(&mut m2, BASE, 64, Some(ctx())), 7);
    assert_eq!(words_at(&m2, BASE + 8, 1), vec![11]);
    assert_eq!(sys_consume_ready_launch_context(&mut m2, BASE + 64, 64, Some(ctx())), 7);
    assert_eq!(sys_consume_ready_launch_context(&mut m2, BASE + 1, 64, Some(ctx())), SYSCALL_ERR_USER_ACCESS_DENIED);
    assert_eq!(sys_consume_ready_launch_context(&mut m2, BASE, 64, None), 0);
    assert_eq!(sys_ack_launch_context(0), Ok(false));
    assert_eq!(sys_ack_launch_context(1), Ok(true));
    assert_eq!(sys_ack_launch_context(2), Err(SYSCALL_ERR_INVALID_ARG));
    assert_eq!(ack_outcome(true), 0);
    assert_eq!(ack_outcome(false), SYSCALL_ERR_INVALID_ARG);
    assert_eq!(sys_get_launch_context_stage(Some(3)), 3);
    assert_eq!(sys_get_launch_context_stage(None), usize::MAX);
    assert_eq!(sys_execute_ready_launch_context(Some(ctx())), 7);
    assert_eq!(sys_execute_ready_launch_context(None), 0);
}

#[test]
fn process_queries() {
    assert_eq!(sys_get_process_count(5), 5);
    assert_eq!(sys_get_process_id_by_task(Some(9)), 9);
    assert_eq!(sys_get_process_id_by_task(None), usize::MAX);
    let mut m = mem();
    assert_eq!(sys_get_process_image_state(&mut m, BASE, 24, Some((0x40_0000, 4, 2))), 24);
    assert_eq!(words_at(&m, BASE, 3), vec![0x40_0000, 4, 2]);
    assert_eq!(sys_get_process_image_state(&mut m, BASE, 24, None), SYSCALL_ERR_INVALID_ARG);
    assert_eq!(sys_get_process_image_state(&mut m, BASE, 23, Some((1, 1, 1))), SYSCALL_ERR_INVALID_ARG);
    assert_eq!(sys_get_process_mapping_state(&mut m, BASE + 32, 16, Some((3, 12))), 16);
    assert_eq!(words_at(&m, BASE + 32, 2), vec![3, 12]);
    assert_eq!(sys_get_process_mapping_state(&mut m, BASE, 16, None), SYSCALL_ERR_INVALID_ARG);
}

#[test]
fn list_process_ids_truncates_to_the_buffer() {
    let pids: Vec<usize> = vec![1, 2, 3, 4, 5];
    let mut m = mem();
    assert_eq!(sys_list_process_ids(&mut m, BASE, 7, &pids), SYSCALL_ERR_INVALID_ARG);
    assert_eq!(sys_list_process_ids(&mut m, BASE, 24, &pids), 3);
    assert_eq!(words_at(&m, BASE, 4), vec![1, 2, 3, 0]);
    assert_eq!(sys_list_process_ids(&mut m, BASE + 64, 100, &pids), 5);
    assert_eq!(words_at(&m, BASE + 64, 5), vec![1, 2, 3, 4, 5]);
    let many: Vec<usize> = (1..=70).collect();
    let mut big = UserMemory::new(BASE, 1024);
    assert_eq!(sys_list_process_ids(&mut big, BASE, 1024, &many), 64);
    assert_eq!(big.read_u64(BASE + 63 * 8), Some(64));
    assert_eq!(big.read_u64(BASE + 64 * 8), Some(0));
}

#[test]
fn launch_stats_are_copied_whole() {
    let stats: Vec<usize> = (100..125).collect();
    let mut m = mem();
    assert_eq!(sys_get_launch_stats(&mut m, BASE, 200, &stats), 200);
    assert_eq!(words_at(&m, BASE, 25), (100u64..125).collect::<Vec<u64>>());
    assert_eq!(sys_get_launch_stats(&mut m, BASE, 199, &stats), SYSCALL_ERR_INVALID_ARG);
}
