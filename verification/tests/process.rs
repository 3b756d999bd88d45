use lib::process_registry::{copy_task_ids, ProcessRecord, ProcessRegistry};
use lib::process_types::{ProcessLifecycleState, RuntimeLifecycleHooks};
use lib::task::{ProcessId, TaskId};

#[test]
fn registry_register_lookup_unregister() {
    let mut reg = ProcessRegistry::new();
    assert_eq!(reg.process_count(), 0);
    let copy = reg.register_process(ProcessRecord { id: ProcessId(7), threads: vec![TaskId(70), TaskId(71)] });
    assert_eq!(copy.id, ProcessId(7));
    assert_eq!(copy.threads, vec![TaskId(70), TaskId(71)]);
    reg.register_process(ProcessRecord { id: ProcessId(3), threads: vec![] });
    assert_eq!(reg.process_count(), 2);
    assert_eq!(reg.total_process_count(), 2);
    assert_eq!(reg.all_pids(), vec![ProcessId(3), ProcessId(7)]);
    assert_eq!(reg.threads_of(ProcessId(7)), vec![TaskId(70), TaskId(71)]);
    assert!(reg.threads_of(ProcessId(9)).is_empty());
    assert_eq!(reg.get_process(ProcessId(3)).unwrap().id, ProcessId(3));
    let removed = reg.unregister_process(ProcessId(7)).unwrap();
    assert_eq!(removed.threads.len(), 2);
    assert!(reg.get_process(ProcessId(7)).is_none());
    assert!(reg.unregister_process(ProcessId(7)).is_none());
    assert_eq!(reg.process_count(), 1);
    assert_eq!(reg.total_process_count(), 2);
}

#[test]
fn registering_twice_replaces_the_record() {
    let mut reg = ProcessRegistry::new();
    reg.register_process(ProcessRecord { id: ProcessId(1), threads: vec![TaskId(1)] });
    reg.register_process(ProcessRecord { id: ProcessId(1), threads: vec![TaskId(2)] });
    assert_eq!(reg.process_count(), 1);
    assert_eq!(reg.threads_of(ProcessId(1)), vec![TaskId(2)]);
}

#[test]
fn task_id_copy_is_exact() {
    let v = vec![TaskId(4), TaskId(4), TaskId(1)];
    assert_eq!(copy_task_ids(&v), v);
}

#[test]
fn lifecycle_state_codes() {
    assert_eq!(ProcessLifecycleState::from_u8(2), Some(ProcessLifecycleState::Running));
    assert_eq!(ProcessLifecycleState::from_u8(4), None);
    assert_eq!(ProcessLifecycleState::from_raw(200), ProcessLifecycleState::Created);
    assert_eq!(ProcessLifecycleState::Exited.to_u8(), 3);
}

#[test]
fn init_calls_skip_zero_and_keep_order() {
    let hooks = RuntimeLifecycleHooks {
        preinit_array: vec![1, 0, 2],
        init: Some(3),
        init_array: vec![0, 4, 5],
        deferred_fini: vec![],
        fini_array: vec![],
        fini: None,
    };
    assert_eq!(hooks.ordered_init_calls(), vec![1, 2, 3, 4, 5]);
    let no_init = RuntimeLifecycleHooks { init: Some(0), ..hooks.clone() };
    assert_eq!(no_init.ordered_init_calls(), vec![1, 2, 4, 5]);
}

#[test]
fn fini_calls_deferred_then_reversed_array_then_fini_without_duplicates() {
    let hooks = RuntimeLifecycleHooks {
        preinit_array: vec![],
        init: None,
        init_array: vec![],
        deferred_fini: vec![9, 0, 8, 9],
        fini_array: vec![1, 2, 8, 3],
        fini: Some(2),
    };
    assert_eq!(hooks.ordered_fini_calls(), vec![9, 8, 3, 2, 1]);
    let with_new_fini = RuntimeLifecycleHooks { fini: Some(7), ..hooks.clone() };
    assert_eq!(with_new_fini.ordered_fini_calls(), vec![9, 8, 3, 2, 1, 7]);
    assert!(RuntimeLifecycleHooks::default().ordered_fini_calls().is_empty());
}
