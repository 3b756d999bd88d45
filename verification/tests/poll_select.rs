use lib::errno::{linux_errno, EFAULT, EINVAL, EOVERFLOW};
use lib::poll_select::{
    apply_synthetic_revents, build_fd_set_compat, build_poll_request, clamp_fdset_nfds, collect_fd_set_compat,
    linux_poll_fd_limit, linux_unblockable_signal_mask, parse_sigmask, poll_complete, poll_entry_ptr,
    poll_timeout_ms_to_retries, poll_timeout_to_retries, read_fd_set_compat, read_poll_fds_from_user,
    sanitize_wait_sigmask, sys_linux_poll, sys_linux_ppoll, timeout_ns_to_retries, timeout_ptr_to_retries,
    write_fd_set_compat, LinuxFdSetCompat, LinuxPollFdCompat, PollPlan, PosixPollFd, LINUX_FD_SETSIZE_COMPAT,
};
use lib::user_memory::UserMemory;

const BASE: usize = 0x10000;
const SLICE_NS: u128 = 1_000_000;
const BLOCKING: usize = 500;
const KILL_BIT: u64 = 1 << 8;
const STOP_BIT: u64 = 1 << 18;

fn mem() -> UserMemory {
    UserMemory::new(BASE, 512)
}

fn put_pollfd(m: &mut UserMemory, at: usize, fd: i32, events: i16) {
    let w = (fd as u32 as u64) | ((events as u16 as u64) << 32);
    assert!(m.write_u64(at, w));
}

#[test]
fn ppoll_invalid_timeout_pointer_returns_efault() {
    let m = mem();
    assert!(matches!(
        sys_linux_ppoll(&m, 0, 0, 1, 0, 0, BLOCKING, SLICE_NS, 64),
        Err(e) if e == linux_errno(EFAULT)
    ));
}

#[test]
fn ppoll_invalid_sigmask_pointer_returns_efault() {
    let m = mem();
    assert!(matches!(
        sys_linux_ppoll(&m, 0, 0, 0, 1, 8, BLOCKING, SLICE_NS, 64),
        Err(e) if e == linux_errno(EFAULT)
    ));
}

#[test]
fn ppoll_rejects_invalid_sigset_size() {
    let m = mem();
    assert!(matches!(
        sys_linux_ppoll(&m, 0, 0, 0, BASE, 4, BLOCKING, SLICE_NS, 64),
        Err(e) if e == linux_errno(EINVAL)
    ));
}

#[test]
fn ppoll_sigmask_sanitizes_unblockable_signals() {
    let mut m = mem();
    let keep_bit = 1u64 << 3;
    assert!(m.write_u64(BASE, KILL_BIT | STOP_BIT | keep_bit));
    assert_eq!(parse_sigmask(&m, BASE, 8), Ok(Some(keep_bit)));
    assert_eq!(parse_sigmask(&m, 0, 8), Ok(None));
    let r = sys_linux_ppoll(&m, 0, 0, 0, BASE, 8, BLOCKING, SLICE_NS, 64).unwrap();
    assert_eq!(r.0, Some(keep_bit));
    assert!(matches!(r.1, PollPlan::Return(0, true)));
}

#[test]
fn ppoll_rejects_negative_timeout_nsec() {
    let mut m = mem();
    assert!(m.write_u64(BASE, 0));
    assert!(m.write_u64(BASE + 8, (-1i64) as u64));
    assert!(matches!(
        sys_linux_ppoll(&m, 0, 0, BASE, 0, 0, BLOCKING, SLICE_NS, 64),
        Err(e) if e == linux_errno(EINVAL)
    ));
}

#[test]
fn timeout_pointer_rounds_up_to_time_slices() {
    let mut m = mem();
    assert!(m.write_u64(BASE, 1));
    assert!(m.write_u64(BASE + 8, 1));
    assert_eq!(timeout_ptr_to_retries(&m, BASE, BLOCKING, SLICE_NS), Ok(1001));
    assert_eq!(timeout_ptr_to_retries(&m, 0, BLOCKING, SLICE_NS), Ok(BLOCKING));
    assert!(m.write_u64(BASE + 8, 1_000_000_000));
    assert_eq!(timeout_ptr_to_retries(&m, BASE, BLOCKING, SLICE_NS), Err(linux_errno(EINVAL)));
}

#[test]
fn poll_rejects_nfds_over_limit() {
    let m = mem();
    let limit = linux_poll_fd_limit(0);
    assert!(matches!(
        sys_linux_poll(&m, 0, limit + 1, 0, BLOCKING, limit),
        PollPlan::Return(e, false) if e == linux_errno(EINVAL)
    ));
}

#[test]
fn poll_fd_limit_is_clamped() {
    assert_eq!(linux_poll_fd_limit(0), 64);
    assert_eq!(linux_poll_fd_limit(100), 100);
    assert_eq!(linux_poll_fd_limit(100_000), 8192);
}

#[test]
fn poll_timeout_retries_mode_passthroughs_timeout() {
    assert_eq!(poll_timeout_to_retries(13, BLOCKING), 13);
}

#[test]
fn poll_timeout_retries_mode_max_maps_to_blocking_retries() {
    assert_eq!(poll_timeout_to_retries(usize::MAX, BLOCKING), BLOCKING);
}

#[test]
fn poll_timeout_ms_zero_maps_to_zero_retries() {
    assert_eq!(poll_timeout_ms_to_retries(0, BLOCKING, SLICE_NS), 0);
}

#[test]
fn poll_timeout_ms_max_maps_to_blocking_retries() {
    assert_eq!(poll_timeout_ms_to_retries(usize::MAX, BLOCKING, SLICE_NS), BLOCKING);
}

#[test]
fn poll_timeout_ms_uses_tick_based_round_up() {
    let timeout_ms = 7usize;
    let expected = timeout_ns_to_retries(timeout_ms as u128 * 1_000_000, 3_000_000);
    assert_eq!(poll_timeout_ms_to_retries(timeout_ms, BLOCKING, 3_000_000), expected);
    assert_eq!(expected, 3);
    assert_eq!(timeout_ns_to_retries(5, 0), 5);
}

#[test]
fn collect_fd_set_caps_nfds_to_fdset_size() {
    let set = LinuxFdSetCompat { fds_bits: [u64::MAX; LINUX_FD_SETSIZE_COMPAT / 64] };
    let collected = collect_fd_set_compat(&set, LINUX_FD_SETSIZE_COMPAT + 256);
    assert_eq!(collected.len(), LINUX_FD_SETSIZE_COMPAT);
    assert_eq!(collected.first().copied(), Some(0));
    assert_eq!(collected.last().copied(), Some((LINUX_FD_SETSIZE_COMPAT - 1) as u32));
    assert_eq!(clamp_fdset_nfds(5), 5);
}

#[test]
fn build_fd_set_ignores_entries_beyond_capped_nfds() {
    let out = build_fd_set_compat(&[0, 63, 64, (LINUX_FD_SETSIZE_COMPAT - 1) as u32], 64);
    assert_eq!(out.fds_bits[0], (1u64 << 0) | (1u64 << 63));
    assert_eq!(out.fds_bits[1], 0);
}

#[test]
fn fd_set_round_trips_through_user_memory() {
    let mut m = mem();
    assert_eq!(write_fd_set_compat(&mut m, BASE, &[1, 5, 70, 900], 100), Ok(()));
    assert_eq!(read_fd_set_compat(&m, BASE, 100), Ok(vec![1, 5, 70]));
    assert_eq!(read_fd_set_compat(&m, BASE + 400, 100), Err(linux_errno(EFAULT)));
    assert_eq!(write_fd_set_compat(&mut m, 0, &[1], 100), Err(linux_errno(EFAULT)));
}

#[test]
fn sanitize_wait_sigmask_clears_unblockable_bits() {
    let keep_bit = 1u64 << 2;
    let sanitized = sanitize_wait_sigmask(KILL_BIT | STOP_BIT | keep_bit);
    assert_eq!(sanitized & KILL_BIT, 0);
    assert_eq!(sanitized & STOP_BIT, 0);
    assert_ne!(sanitized & keep_bit, 0);
    assert_eq!(linux_unblockable_signal_mask(), KILL_BIT | STOP_BIT);
}

#[test]
fn poll_entry_pointer_overflow() {
    assert_eq!(poll_entry_ptr(BASE, 2, 8), Ok(BASE + 16));
    assert_eq!(poll_entry_ptr(usize::MAX - 4, 1, 8), Err(linux_errno(EOVERFLOW)));
}

#[test]
fn poll_reads_request_and_writes_back_revents() {
    let mut m = mem();
    put_pollfd(&mut m, BASE, 3, 0x1);
    put_pollfd(&mut m, BASE + 8, -1, 0x4);
    put_pollfd(&mut m, BASE + 16, 7, 0x5 | 0x100);
    let in_fds = read_poll_fds_from_user(&m, BASE, 3).unwrap();
    assert_eq!(in_fds[0], LinuxPollFdCompat { fd: 3, events: 1, revents: 0 });
    let req = build_poll_request(&in_fds);
    assert_eq!(req[1], PosixPollFd { fd: 0, events: 0, revents: 0 });
    assert_eq!(req[2], PosixPollFd { fd: 7, events: 0x5, revents: 0 });
    let plan = sys_linux_poll(&m, BASE, 3, 0, BLOCKING, 64);
    let (plan_in, plan_req) = match plan {
        PollPlan::Poll(a, b) => (a, b),
        PollPlan::Return(..) => panic!("expected a poll"),
    };
    assert_eq!(plan_in, in_fds);
    let mut results = plan_req.clone();
    results[0].revents = 0x1;
    let syn = [0u16, 0x4, 0x4];
    let mut merged = results.clone();
    assert_eq!(apply_synthetic_revents(&plan_in, &mut merged, &syn), 1);
    assert_eq!(merged[1].revents, 0);
    assert_eq!(merged[2].revents, 0x4);
    let r = poll_complete(&mut m, BASE, &plan_in, results, Ok(1), &syn);
    assert_eq!(r, 2);
    let back = read_poll_fds_from_user(&m, BASE, 3).unwrap();
    assert_eq!(back[0].revents, 0x1);
    assert_eq!(back[1].revents, 0);
    assert_eq!(back[2].revents, 0x4);
    assert_eq!(back[2].fd, 7);
    assert_eq!(poll_complete(&mut m, BASE, &plan_in, plan_req, Err(9), &syn), linux_errno(9));
}

#[test]
fn poll_without_descriptors_reports_whether_it_would_wait() {
    let m = mem();
    assert!(matches!(sys_linux_poll(&m, 0, 0, 0, BLOCKING, 64), PollPlan::Return(0, false)));
    assert!(matches!(sys_linux_poll(&m, 0, 0, 5, BLOCKING, 64), PollPlan::Return(0, true)));
    assert!(matches!(
        sys_linux_poll(&m, BASE + 500, 4, 5, BLOCKING, 64),
        PollPlan::Return(e, false) if e == linux_errno(EFAULT)
    ));
}

#[test]
fn invalid_user_pointers_return_efault_for_helpers() {
    let m = mem();
    let bad_ptr = 0x1usize;
    assert_eq!(parse_sigmask(&m, bad_ptr, 8), Err(linux_errno(EFAULT)));
    assert_eq!(timeout_ptr_to_retries(&m, bad_ptr, BLOCKING, SLICE_NS), Err(linux_errno(EFAULT)));
}

#[test]
fn epoll_pwait_sigmask_sanitizes_unblockable_signals() {
    let mut m = mem();
    let keep_bit = 1u64 << 5;
    assert!(m.write_u64(BASE, KILL_BIT | STOP_BIT | keep_bit));
    assert_eq!(parse_sigmask(&m, BASE, 8), Ok(Some(keep_bit)));
}

#[test]
fn timeout_ns_to_retries_rounds_up_by_tick() {
    let timeout_ns = 7_500_000u128;
    let tick_ns = SLICE_NS;
    let expected = ((timeout_ns + tick_ns - 1) / tick_ns) as usize;
    assert_eq!(timeout_ns_to_retries(timeout_ns, SLICE_NS), expected);
    assert_eq!(expected, 8);
}

#[test]
fn timeout_arg_max_maps_to_blocking_retries() {
    assert_eq!(poll_timeout_to_retries(usize::MAX, BLOCKING), BLOCKING);
}
