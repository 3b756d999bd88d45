use lib::ipc_control::{
    futex_key_from_ptr_or_hint, futex_wait_result_code, inject_outcome, register_upcall_with_owner_guard,
    sys_futex_wait, sys_futex_wake, sys_upcall_consume, sys_upcall_inject_virtual_irq, sys_upcall_query,
    sys_upcall_register, sys_upcall_unregister, FutexWaitRequest, FutexWaitResult, FutexWakeRequest,
    UpcallDelivery, UpcallEntry, UpcallRegistry, VirtualIrqRequest, FUTEX_WAIT_VALUE_MISMATCH,
};
use lib::task::ProcessId;
use lib::user_memory::{
    UserMemory, SYSCALL_ERR_INVALID_ARG, SYSCALL_ERR_PERMISSION_DENIED, SYSCALL_ERR_USER_ACCESS_DENIED,
};

const BASE: usize = 0x10000;

#[test]
fn upcall_owner_guard_rejects_cross_process_overwrite_and_rolls_back() {
    let mut reg = UpcallRegistry::new();
    let irq = 0x61u8;
    let pid_a = ProcessId(10_001);
    let pid_b = ProcessId(10_002);
    assert_eq!(register_upcall_with_owner_guard(&mut reg, irq, pid_a, 0x4000, 0x11, 0), Ok(()));
    let denied = register_upcall_with_owner_guard(&mut reg, irq, pid_b, 0x5000, 0x22, 0);
    assert_eq!(denied, Err(SYSCALL_ERR_PERMISSION_DENIED));
    let owner = reg.resolve(irq).expect("upcall entry should still belong to original owner after rollback");
    assert_eq!(owner.process_id, pid_a);
    assert_eq!(owner.entry_pc, 0x4000);
    assert_eq!(owner.user_ctx, 0x11);
    assert!(reg.unregister_for_process(irq, pid_a));
}

#[test]
fn upcall_owner_guard_rejects_same_process_overwrite_and_rolls_back() {
    let mut reg = UpcallRegistry::new();
    let irq = 0x62u8;
    let pid = ProcessId(10_003);
    assert_eq!(register_upcall_with_owner_guard(&mut reg, irq, pid, 0x7000, 0x33, 0), Ok(()));
    let denied = register_upcall_with_owner_guard(&mut reg, irq, pid, 0x8000, 0x44, 0);
    assert_eq!(denied, Err(SYSCALL_ERR_INVALID_ARG));
    let owner = reg.resolve(irq).expect("upcall entry should remain original when same owner attempts overwrite");
    assert_eq!(owner.process_id, pid);
    assert_eq!(owner.entry_pc, 0x7000);
    assert_eq!(owner.user_ctx, 0x33);
}

#[test]
fn registry_replace_and_unregister_by_owner_only() {
    let mut reg = UpcallRegistry::new();
    let e = UpcallEntry { process_id: ProcessId(1), entry_pc: 0x1000, user_ctx: 0, flags: 0 };
    assert_eq!(reg.register(5, e), None);
    assert_eq!(reg.register(5, e), Some(e));
    assert!(!reg.unregister_for_process(5, ProcessId(2)));
    assert!(reg.resolve(5).is_some());
    assert!(reg.unregister_for_process(5, ProcessId(1)));
    assert!(reg.resolve(5).is_none());
}

#[test]
fn futex_key_uses_hint_when_given() {
    assert_eq!(futex_key_from_ptr_or_hint(0x1000, 0), 0x1000);
    assert_eq!(futex_key_from_ptr_or_hint(0x1000, 7), 7);
}

#[test]
fn futex_wait_reads_the_word_and_checks_arguments() {
    let mut m = UserMemory::new(BASE, 64);
    assert!(m.write_u32(BASE, 42));
    assert_eq!(
        sys_futex_wait(&m, BASE, 42, 0, Ok(())),
        Ok(FutexWaitRequest { key: BASE as u64, observed: 42, expected: 42 })
    );
    assert_eq!(sys_futex_wait(&m, BASE, 1 << 33, 0, Ok(())), Err(SYSCALL_ERR_INVALID_ARG));
    assert_eq!(sys_futex_wait(&m, BASE + 62, 1, 0, Ok(())), Err(SYSCALL_ERR_USER_ACCESS_DENIED));
    assert_eq!(sys_futex_wait(&m, BASE, 1, 0, Err(SYSCALL_ERR_PERMISSION_DENIED)), Err(SYSCALL_ERR_PERMISSION_DENIED));
    assert_eq!(futex_wait_result_code(FutexWaitResult::Enqueued), 0);
    assert_eq!(futex_wait_result_code(FutexWaitResult::ValueMismatch), FUTEX_WAIT_VALUE_MISMATCH);
}

#[test]
fn futex_wake_checks_arguments() {
    let m = UserMemory::new(BASE, 64);
    assert_eq!(sys_futex_wake(&m, BASE, 3, 9, Ok(())), Ok(FutexWakeRequest { key: 9, max_wake: 3 }));
    assert_eq!(sys_futex_wake(&m, BASE, 0, 0, Ok(())), Err(0));
    assert_eq!(sys_futex_wake(&m, 0, 1, 0, Ok(())), Err(SYSCALL_ERR_USER_ACCESS_DENIED));
}

#[test]
fn upcall_syscalls_register_query_unregister() {
    let mut reg = UpcallRegistry::new();
    let mut m = UserMemory::new(BASE, 128);
    assert_eq!(sys_upcall_register(&mut reg, 300, 0x4000, 0, 0, Ok(()), Some(1)), SYSCALL_ERR_INVALID_ARG);
    assert_eq!(sys_upcall_register(&mut reg, 3, 0x10, 0, 0, Ok(()), Some(1)), SYSCALL_ERR_INVALID_ARG);
    assert_eq!(sys_upcall_register(&mut reg, 3, 0x4000, 0, 0, Ok(()), None), SYSCALL_ERR_INVALID_ARG);
    assert_eq!(sys_upcall_register(&mut reg, 3, 0x4000, 9, 2, Ok(()), Some(1)), 0);
    assert_eq!(sys_upcall_register(&mut reg, 3, 0x5000, 9, 2, Ok(()), Some(2)), SYSCALL_ERR_PERMISSION_DENIED);
    assert_eq!(sys_upcall_query(&mut m, &reg, 3, BASE, 32, Ok(()), Some(1)), 32);
    assert_eq!(m.read_u64(BASE), Some(1));
    assert_eq!(m.read_u64(BASE + 8), Some(0x4000));
    assert_eq!(m.read_u64(BASE + 16), Some(9));
    assert_eq!(m.read_u64(BASE + 24), Some(2));
    assert_eq!(sys_upcall_query(&mut m, &reg, 3, BASE, 16, Ok(()), Some(1)), SYSCALL_ERR_INVALID_ARG);
    assert_eq!(sys_upcall_query(&mut m, &reg, 3, BASE + 4, 32, Ok(()), Some(1)), SYSCALL_ERR_USER_ACCESS_DENIED);
    assert_eq!(sys_upcall_query(&mut m, &reg, 3, BASE, 32, Ok(()), Some(2)), SYSCALL_ERR_INVALID_ARG);
    assert_eq!(sys_upcall_query(&mut m, &reg, 4, BASE, 32, Ok(()), Some(1)), 0);
    assert_eq!(sys_upcall_unregister(&mut reg, 3, Ok(()), Some(2)), SYSCALL_ERR_INVALID_ARG);
    assert_eq!(sys_upcall_unregister(&mut reg, 3, Ok(()), Some(1)), 0);
    assert!(reg.resolve(3).is_none());
}

#[test]
fn upcall_consume_and_virtual_irq() {
    let mut m = UserMemory::new(BASE, 128);
    let d = UpcallDelivery { irq: 7, process_id: ProcessId(3), entry_pc: 0x4000, user_ctx: 5, flags: 1 };
    assert_eq!(sys_upcall_consume(&mut m, BASE, 40, Ok(()), Some(3), Some(d)), 40);
    assert_eq!(m.read_u64(BASE), Some(7));
    assert_eq!(m.read_u64(BASE + 32), Some(1));
    assert_eq!(sys_upcall_consume(&mut m, BASE, 40, Ok(()), Some(3), None), 0);
    assert_eq!(sys_upcall_consume(&mut m, BASE, 40, Ok(()), None, Some(d)), SYSCALL_ERR_INVALID_ARG);
    assert_eq!(
        sys_upcall_inject_virtual_irq(7, 5, 1, Ok(()), Some(3)),
        Ok(VirtualIrqRequest { process_id: ProcessId(3), irq: 7, user_ctx: 5, flags: 1 })
    );
    assert_eq!(sys_upcall_inject_virtual_irq(256, 5, 1, Ok(()), Some(3)), Err(SYSCALL_ERR_INVALID_ARG));
    assert_eq!(inject_outcome(true), 0);
    assert_eq!(inject_outcome(false), SYSCALL_ERR_INVALID_ARG);
}
