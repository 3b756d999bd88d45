use lib::clone_ns::{
    clone3_finish, clone_finish, decode_clone3_flags, decode_setns_fd, decode_setns_type, decode_unshare_flags,
    fork_outcome, namespace_clone_flags, read_clone_args, setns_outcome, sys_linux_clone, sys_linux_clone3,
    sys_linux_fork, sys_linux_setns, sys_linux_unshare, unshare_outcome, validate_clone_flags, NamespaceError, CLONE_FILES, CLONE_FS,
    CLONE_NEWCGROUP, CLONE_NEWNET, CLONE_NEWNS, CLONE_NEWPID, CLONE_NEWUSER, CLONE_NEWUTS, CLONE_PIDFD,
    CLONE_THREAD, CLONE_VM,
};
use lib::errno::{linux_errno, EAGAIN, EBADF, EFAULT, EINVAL, EOVERFLOW, ESRCH};
use lib::user_memory::UserMemory;

const BASE: usize = 0x10000;

#[test]
fn clone_rejects_thread_or_vm_flags() {
    assert_eq!(validate_clone_flags(CLONE_THREAD).unwrap_err(), linux_errno(EINVAL));
    assert_eq!(validate_clone_flags(CLONE_VM).unwrap_err(), linux_errno(EINVAL));
}

#[test]
fn clone_namespace_mask_keeps_supported_bits_only() {
    let flags = CLONE_NEWPID | CLONE_NEWUSER | CLONE_FILES;
    assert_eq!(validate_clone_flags(flags).unwrap(), CLONE_NEWPID | CLONE_NEWUSER);
}

#[test]
fn clone_namespace_mask_returns_zero_for_non_namespace_flags() {
    assert_eq!(namespace_clone_flags(CLONE_FILES | CLONE_FS), 0);
    assert_eq!(validate_clone_flags(CLONE_FILES).unwrap(), 0);
}

#[test]
fn unshare_rejects_flags_that_overflow_u32() {
    assert_eq!(decode_unshare_flags(usize::MAX).unwrap_err(), linux_errno(EINVAL));
}

#[test]
fn setns_argument_decoders_reject_overflow() {
    assert_eq!(decode_setns_fd(usize::MAX).unwrap_err(), linux_errno(EBADF));
    assert_eq!(decode_setns_type(usize::MAX).unwrap_err(), linux_errno(EINVAL));
}

#[test]
fn clone3_rejects_exit_signal_out_of_range() {
    assert_eq!(decode_clone3_flags(0, 0x1ff).unwrap_err(), linux_errno(EINVAL));
    assert_eq!(decode_clone3_flags(CLONE_NEWPID as u64, 17), Ok(CLONE_NEWPID | 17));
}

#[test]
fn setns_argument_decoders_accept_i32_u32_boundaries() {
    assert_eq!(decode_setns_fd(i32::MAX as usize).unwrap(), i32::MAX);
    assert_eq!(decode_setns_type(u32::MAX as usize).unwrap(), u32::MAX);
}

#[test]
fn namespace_clone_flags_ignore_non_namespace_bits() {
    let flags = CLONE_NEWNET | CLONE_NEWUTS | CLONE_FS | CLONE_FILES;
    assert_eq!(namespace_clone_flags(flags), CLONE_NEWNET | CLONE_NEWUTS);
}

#[test]
fn decode_unshare_flags_accepts_valid_u32_boundary() {
    assert_eq!(decode_unshare_flags(u32::MAX as usize).unwrap(), u32::MAX);
}

#[test]
fn validate_clone_flags_accepts_namespace_only_requests() {
    let flags = CLONE_NEWPID | CLONE_NEWNS | CLONE_NEWCGROUP;
    assert_eq!(validate_clone_flags(flags).unwrap(), CLONE_NEWPID | CLONE_NEWNS | CLONE_NEWCGROUP);
}

#[test]
fn validate_clone_flags_rejects_mixed_thread_and_namespace_requests() {
    assert_eq!(validate_clone_flags(CLONE_THREAD | CLONE_NEWNET).unwrap_err(), linux_errno(EINVAL));
}

#[test]
fn unshare_and_setns_need_a_process_and_map_errors() {
    assert_eq!(sys_linux_unshare(CLONE_NEWNS, false), Err(linux_errno(ESRCH)));
    assert_eq!(sys_linux_unshare(CLONE_NEWNS, true), Ok(CLONE_NEWNS as u32));
    assert_eq!(sys_linux_setns(3, 0, false), Err(linux_errno(ESRCH)));
    assert_eq!(sys_linux_setns(3, CLONE_NEWNET, true), Ok((3, CLONE_NEWNET as u32)));
    assert_eq!(unshare_outcome(Ok(())), 0);
    assert_eq!(unshare_outcome(Err(NamespaceError::Overflow)), linux_errno(EOVERFLOW));
    assert_eq!(unshare_outcome(Err(NamespaceError::BadDescriptor)), linux_errno(EINVAL));
    assert_eq!(setns_outcome(Err(NamespaceError::BadDescriptor)), linux_errno(EBADF));
    assert_eq!(setns_outcome(Err(NamespaceError::Overflow)), linux_errno(EOVERFLOW));
    assert_eq!(setns_outcome(Err(NamespaceError::Invalid)), linux_errno(EINVAL));
    assert_eq!(fork_outcome(Ok(42)), 42);
    assert_eq!(fork_outcome(Err(11)), linux_errno(11));
}

fn put_u64(mem: &mut UserMemory, addr: usize, v: u64) {
    assert!(mem.write_u64(addr, v));
}

#[test]
fn clone3_reads_args_and_zero_extends_short_structures() {
    let mut mem = UserMemory::new(BASE, 256);
    put_u64(&mut mem, BASE, CLONE_NEWPID as u64);
    put_u64(&mut mem, BASE + 32, 17);
    put_u64(&mut mem, BASE + 64, 0xFFFF);
    let args = read_clone_args(&mem, BASE, 64).unwrap();
    assert_eq!(args.flags, CLONE_NEWPID as u64);
    assert_eq!(args.exit_signal, 17);
    assert_eq!(args.set_tid, 0);
    let req = sys_linux_clone3(&mem, BASE, 64).unwrap();
    assert_eq!(req.flags, CLONE_NEWPID | 17);
    assert_eq!(sys_linux_clone3(&mem, BASE, 72), Err(linux_errno(EINVAL)));
    assert_eq!(sys_linux_clone3(&mem, 0, 64), Err(linux_errno(EFAULT)));
    assert_eq!(sys_linux_clone3(&mem, BASE, 63), Err(linux_errno(EINVAL)));
    assert_eq!(sys_linux_clone3(&mem, BASE + 250, 64), Err(linux_errno(EFAULT)));
}

#[test]
fn clone3_finish_and_clone_finish() {
    let mut mem = UserMemory::new(BASE, 256);
    put_u64(&mut mem, BASE, CLONE_PIDFD as u64);
    put_u64(&mut mem, BASE + 8, (BASE + 128) as u64);
    let req = sys_linux_clone3(&mem, BASE, 64).unwrap();
    // The pidfd slot is a 4-byte int: a word does not fit in it.
    assert_eq!(clone3_finish(&mut mem, &req, 50, 7), linux_errno(EFAULT));
    assert_eq!(clone3_finish(&mut mem, &req, linux_errno(11), 7), linux_errno(11));
    let plain = sys_linux_clone3(&UserMemory::new(BASE, 256), BASE, 64).unwrap();
    assert_eq!(clone3_finish(&mut mem, &plain, 50, 7), 50);
    assert_eq!(clone_finish(&mut mem, BASE + 64, 99, true), 99);
    assert_eq!(mem.read_u64(BASE + 64), Some(99));
    assert_eq!(clone_finish(&mut mem, 0, 5, false), linux_errno(EINVAL));
}

#[test]
fn fork_without_backend_is_eagain() {
    assert_eq!(sys_linux_fork(None), linux_errno(EAGAIN));
    assert_eq!(sys_linux_fork(Some(Ok(42))), 42);
    assert_eq!(sys_linux_fork(Some(Err(12))), linux_errno(12));
}

#[test]
fn clone_refuses_threads_before_forking() {
    let mut m = UserMemory::new(BASE, 64);
    assert_eq!(sys_linux_clone(&mut m, CLONE_THREAD, 0, Ok(5), true), linux_errno(EINVAL));
    assert_eq!(sys_linux_clone(&mut m, CLONE_VM | CLONE_FILES, 0, Ok(5), true), linux_errno(EINVAL));
}

#[test]
fn clone_reports_child_and_stores_parent_tid() {
    let mut m = UserMemory::new(BASE, 64);
    assert_eq!(sys_linux_clone(&mut m, CLONE_FILES, BASE + 8, Ok(77), false), 77);
    assert_eq!(m.read_u64(BASE + 8), Some(77));
    assert_eq!(sys_linux_clone(&mut m, CLONE_FILES, 0, Err(11), false), linux_errno(11));
}

#[test]
fn clone_with_namespaces_needs_them_granted() {
    let mut m = UserMemory::new(BASE, 64);
    assert_eq!(sys_linux_clone(&mut m, CLONE_NEWPID, 0, Ok(9), false), linux_errno(EINVAL));
    assert_eq!(sys_linux_clone(&mut m, CLONE_NEWPID, 0, Ok(9), true), 9);
}
