use lib::startup::{
    diagnostics, mark_service_failed, mark_stage, service_handles, spawn_init_services, stage_from_u64, stage_to_u64,
    InitService, ServiceHandle, ServiceManager, ServiceState, StartupStage, StartupTracker,
};
use lib::task::TaskId;

#[test]
fn startup_stage_ordering_violation_is_recorded() {
    let mut t = StartupTracker::new();
    mark_stage(&mut t, StartupStage::DriversInit);
    mark_stage(&mut t, StartupStage::HeapInit);
    let d = diagnostics(&t);
    assert!(d.transitions >= 2);
    assert!(d.ordering_violations >= 1);
    assert_eq!(d.transitions, 2);
    assert_eq!(d.ordering_violations, 1);
    assert_eq!(d.last_stage, StartupStage::HeapInit);
}

#[test]
fn startup_in_order_has_no_violations() {
    let mut t = StartupTracker::new();
    mark_stage(&mut t, StartupStage::BootStart);
    mark_stage(&mut t, StartupStage::HeapInit);
    mark_stage(&mut t, StartupStage::HeapInit);
    mark_stage(&mut t, StartupStage::MainLoopEntered);
    let d = diagnostics(&t);
    assert_eq!(d.transitions, 4);
    assert_eq!(d.ordering_violations, 0);
    assert_eq!(d.last_stage, StartupStage::MainLoopEntered);
}

#[test]
fn stage_codes_round_trip() {
    for raw in 0u8..13 {
        let s = StartupStage::from_u8(raw).unwrap();
        assert_eq!(s.to_u8(), raw);
        assert_eq!(stage_from_u64(raw as u64), s);
        assert_eq!(stage_to_u64(s), raw as u64);
    }
    assert!(StartupStage::from_u8(13).is_none());
    assert_eq!(stage_from_u64(1000), StartupStage::BootStart);
    assert_eq!(StartupStage::IommuAttached.to_u8(), 7);
}

#[test]
fn service_state_codes() {
    assert_eq!(ServiceState::from_u8(0), ServiceState::Stopped);
    assert_eq!(ServiceState::from_u8(2), ServiceState::Running);
    assert_eq!(ServiceState::from_u8(9), ServiceState::Failed);
    assert_eq!(ServiceState::Starting.to_u8(), 1);
}

#[test]
fn service_handle_transitions() {
    let mut h = ServiceHandle::new(InitService::Telemetry, TaskId(7), "t");
    assert_eq!(h.state(), ServiceState::Running);
    h.mark_failed();
    assert_eq!(h.state(), ServiceState::Failed);
    h.mark_stopped();
    assert_eq!(h.state(), ServiceState::Stopped);
    assert_eq!(h.task_id, TaskId(7));
}

#[test]
fn init_services_spawn_once_in_order() {
    let mut m = ServiceManager::new();
    let entries = [10u64, 20, 30, 40, 50];
    let tasks = spawn_init_services(&mut m, &entries);
    assert_eq!(tasks.len(), 5);
    assert_eq!(tasks[0].task_id, TaskId(0x8000));
    assert_eq!(tasks[0].priority, 200);
    assert_eq!(tasks[0].entry, 10);
    assert_eq!(tasks[4].task_id, TaskId(0x8004));
    assert_eq!(tasks[4].priority, 64);
    assert_eq!(tasks[3].priority, 160);
    let again = spawn_init_services(&mut m, &entries);
    assert!(again.is_empty());
    let handles = service_handles(&m);
    assert_eq!(handles.len(), 5);
    assert_eq!(handles[0].0, InitService::Watchdog);
    assert_eq!(handles[1].2, "kthread/jcommit");
    assert_eq!(handles[2].3, ServiceState::Running);
}

#[test]
fn marking_a_service_failed_touches_only_it() {
    let mut m = ServiceManager::new();
    spawn_init_services(&mut m, &[1, 2, 3, 4, 5]);
    mark_service_failed(&mut m, InitService::NetworkPoll);
    let handles = service_handles(&m);
    assert_eq!(handles[3].3, ServiceState::Failed);
    assert_eq!(handles[2].3, ServiceState::Running);
    assert_eq!(handles[4].3, ServiceState::Running);
    let mut empty = ServiceManager::new();
    mark_service_failed(&mut empty, InitService::Watchdog);
    assert!(service_handles(&empty).is_empty());
}
