use lib::display_bridge::{
    read_unix_sockaddr_bytes, sys_linux_accept, AcceptPlan, UserspaceDisplayBridgeState, POLL_IN, POLL_OUT,
    SOCK_CLOEXEC, SOCK_NONBLOCK,
};
use lib::errno::{linux_errno, EAFNOSUPPORT, EAGAIN, EBADF, EFAULT, EINVAL, ENOTTY};
use lib::net_msg::{
    accept_complete, linux_shim_msg_iovec_cap_bytes, read_linux_iovec_compat, read_linux_msghdr_compat,
    read_sockaddr_in, read_sockaddr_in_compat, recvmsg_complete, sys_linux_ioctl, sys_linux_recvmsg,
    sys_linux_sendmsg, sys_linux_shutdown, validate_iov_len, write_linux_msghdr_flags_compat,
    write_linux_msghdr_namelen_compat, write_recvmsg_result_metadata, write_sockaddr_in, write_sockaddr_in_compat,
    write_socketpair_fds,
    PosixSocketAddrV4, RecvPlan, SendPlan, ShutdownHow, AF_INET, AF_UNIX, FIONBIO,
};
use lib::net_socket::{
    accept_socket_with_flags, sys_linux_bind, sys_linux_connect, sys_linux_listen, sys_linux_socket,
    sys_linux_socketpair,
};
use lib::user_memory::UserMemory;

const BASE: usize = 0x10000;
const LIMIT: usize = 1 << 20;

fn mem() -> UserMemory {
    UserMemory::new(BASE, 1024)
}

fn put_msghdr(m: &mut UserMemory, at: usize, name: usize, namelen: u32, iov: usize, iovlen: usize) {
    assert!(m.write_u64(at, name as u64));
    assert!(m.write_u32(at + 8, namelen));
    assert!(m.write_u64(at + 16, iov as u64));
    assert!(m.write_u64(at + 24, iovlen as u64));
    assert!(m.write_u64(at + 32, 0));
    assert!(m.write_u64(at + 40, 0));
    assert!(m.write_u32(at + 48, 0));
}

fn put_iovec(m: &mut UserMemory, at: usize, base: usize, len: usize) {
    assert!(m.write_u64(at, base as u64));
    assert!(m.write_u64(at + 8, len as u64));
}

fn put_sockaddr_in(m: &mut UserMemory, at: usize, family: u16, port: u16, addr: [u8; 4]) {
    let mut raw = vec![0u8; 16];
    raw[..2].copy_from_slice(&family.to_le_bytes());
    raw[2..4].copy_from_slice(&port.to_be_bytes());
    raw[4..8].copy_from_slice(&addr);
    assert!(m.write_bytes(at, &raw));
}

fn put_sockaddr_un(m: &mut UserMemory, at: usize, path: &[u8]) -> usize {
    let mut raw = vec![0u8; 2 + path.len()];
    raw[..2].copy_from_slice(&AF_UNIX.to_le_bytes());
    raw[2..].copy_from_slice(path);
    assert!(m.write_bytes(at, &raw));
    raw.len()
}

#[test]
fn sendmsg_invalid_msghdr_pointer_returns_efault() {
    assert!(matches!(sys_linux_sendmsg(&mem(), 0, Ok(()), LIMIT), SendPlan::Return(e) if e == linux_errno(EFAULT)));
}

#[test]
fn recvmsg_invalid_msghdr_pointer_returns_efault() {
    assert!(matches!(sys_linux_recvmsg(&mem(), 0, Ok(()), LIMIT), RecvPlan::Return(e) if e == linux_errno(EFAULT)));
}

#[test]
fn sendmsg_rejects_invalid_high_iovec_count_pointer_payload() {
    assert!(matches!(sys_linux_sendmsg(&mem(), 1, Ok(()), LIMIT), SendPlan::Return(e) if e == linux_errno(EFAULT)));
}

#[test]
fn sendmsg_zero_iov_returns_zero() {
    let mut m = mem();
    put_msghdr(&mut m, BASE, 0, 0, 0, 0);
    assert!(matches!(sys_linux_sendmsg(&m, BASE, Ok(()), LIMIT), SendPlan::Return(0)));
}

#[test]
fn recvmsg_zero_iov_returns_zero() {
    let mut m = mem();
    put_msghdr(&mut m, BASE, 0, 0, 0, 0);
    assert!(matches!(sys_linux_recvmsg(&m, BASE, Ok(()), LIMIT), RecvPlan::Return(0)));
}

#[test]
fn sendmsg_rejects_excessive_iov_count_without_touching_iov_memory() {
    let mut m = mem();
    put_msghdr(&mut m, BASE, 0, 0, 0, 1025);
    assert!(matches!(sys_linux_sendmsg(&m, BASE, Ok(()), LIMIT), SendPlan::Return(e) if e == linux_errno(EINVAL)));
}

#[test]
fn recvmsg_rejects_excessive_iov_count_without_touching_iov_memory() {
    let mut m = mem();
    put_msghdr(&mut m, BASE, 0, 0, 0, 1025);
    assert!(matches!(sys_linux_recvmsg(&m, BASE, Ok(()), LIMIT), RecvPlan::Return(e) if e == linux_errno(EINVAL)));
}

#[test]
fn sendmsg_nonzero_iov_with_null_iovec_pointer_returns_efault() {
    let mut m = mem();
    put_msghdr(&mut m, BASE, 0, 0, 0, 1);
    assert!(matches!(sys_linux_sendmsg(&m, BASE, Ok(()), LIMIT), SendPlan::Return(e) if e == linux_errno(EFAULT)));
}

#[test]
fn recvmsg_nonzero_iov_with_null_iovec_pointer_returns_efault() {
    let mut m = mem();
    put_msghdr(&mut m, BASE, 0, 0, 0, 1);
    assert!(matches!(sys_linux_recvmsg(&m, BASE, Ok(()), LIMIT), RecvPlan::Return(e) if e == linux_errno(EFAULT)));
}

#[test]
fn sendmsg_flag_errors_come_first() {
    assert!(matches!(sys_linux_sendmsg(&mem(), 0, Err(77), LIMIT), SendPlan::Return(77)));
    assert!(matches!(sys_linux_recvmsg(&mem(), 0, Err(77), LIMIT), RecvPlan::Return(77)));
}

#[test]
fn sendmsg_gathers_iovecs_and_reads_the_destination() {
    let mut m = mem();
    assert!(m.write_bytes(BASE + 512, b"pingpong"));
    put_iovec(&mut m, BASE + 64, BASE + 512, 4);
    put_iovec(&mut m, BASE + 80, BASE + 600, 0);
    put_iovec(&mut m, BASE + 96, BASE + 516, 4);
    put_sockaddr_in(&mut m, BASE + 256, AF_INET, 8080, [10, 0, 0, 1]);
    put_msghdr(&mut m, BASE, BASE + 256, 16, BASE + 64, 3);
    match sys_linux_sendmsg(&m, BASE, Ok(()), LIMIT) {
        SendPlan::Send(payload, Some(addr)) => {
            assert_eq!(payload, b"pingpong".to_vec());
            assert_eq!(addr, PosixSocketAddrV4 { addr: [10, 0, 0, 1], port: 8080 });
        },
        _ => panic!("expected a send"),
    }
    assert!(matches!(sys_linux_sendmsg(&m, BASE, Ok(()), 7), SendPlan::Return(e) if e == linux_errno(EINVAL)));
}

#[test]
fn socketpair_sendmsg_recvmsg_roundtrip_succeeds() {
    let mut m = mem();
    put_iovec(&mut m, BASE + 64, BASE + 512, 3);
    put_iovec(&mut m, BASE + 80, BASE + 600, 8);
    put_msghdr(&mut m, BASE, BASE + 256, 16, BASE + 64, 2);
    let (name_ptr, iovs) = match sys_linux_recvmsg(&m, BASE, Ok(()), LIMIT) {
        RecvPlan::Receive(np, v) => (np, v),
        RecvPlan::Return(_) => panic!("expected a receive"),
    };
    assert_eq!(name_ptr, BASE + 256);
    assert_eq!(iovs, vec![(BASE + 512, 3), (BASE + 600, 8)]);
    let from = PosixSocketAddrV4 { addr: [127, 0, 0, 1], port: 4242 };
    let r = recvmsg_complete(&mut m, BASE, name_ptr, &iovs, Ok((b"ping!".to_vec(), from)));
    assert_eq!(r, 5);
    assert_eq!(m.read_bytes(BASE + 512, 3), Some(b"pin".to_vec()));
    assert_eq!(m.read_bytes(BASE + 600, 2), Some(b"g!".to_vec()));
    assert_eq!(read_sockaddr_in(&m, BASE + 256, 16), Ok(from));
    assert_eq!(m.read_u32(BASE + 8), Some(16));
    assert_eq!(m.read_u32(BASE + 48), Some(0));
    assert_eq!(recvmsg_complete(&mut m, BASE, name_ptr, &iovs, Err(11)), linux_errno(11));
}

#[test]
fn read_sockaddr_in_rejects_short_length() {
    assert_eq!(read_sockaddr_in(&mem(), 0, 15), Err(linux_errno(EINVAL)));
}

#[test]
fn read_sockaddr_in_invalid_pointer_returns_efault() {
    assert_eq!(read_sockaddr_in(&mem(), 0, 16), Err(linux_errno(EFAULT)));
}

#[test]
fn read_sockaddr_in_rejects_non_inet_family() {
    let mut m = mem();
    put_sockaddr_in(&mut m, BASE, AF_UNIX, 8080, [127, 0, 0, 1]);
    assert_eq!(read_sockaddr_in(&m, BASE, 16), Err(linux_errno(EINVAL)));
}

#[test]
fn write_sockaddr_in_invalid_length_pointer_returns_efault() {
    let mut m = mem();
    let addr = PosixSocketAddrV4 { addr: [127, 0, 0, 1], port: 8080 };
    assert_eq!(write_sockaddr_in(&mut m, 0, 0, addr), linux_errno(EFAULT));
}

#[test]
fn write_sockaddr_in_rejects_too_small_caller_buffer() {
    let mut m = mem();
    assert!(m.write_u32(BASE + 32, 15));
    let addr = PosixSocketAddrV4 { addr: [127, 0, 0, 1], port: 8080 };
    assert_eq!(write_sockaddr_in(&mut m, BASE, BASE + 32, addr), linux_errno(EINVAL));
}

#[test]
fn write_sockaddr_in_successfully_writes_addr_and_updates_length() {
    let mut m = mem();
    assert!(m.write_u32(BASE + 32, 64));
    let addr = PosixSocketAddrV4 { addr: [127, 0, 0, 1], port: 8080 };
    assert_eq!(write_sockaddr_in(&mut m, BASE, BASE + 32, addr), 0);
    assert_eq!(m.read_u32(BASE + 32), Some(16));
    let raw = m.read_bytes(BASE, 8).unwrap();
    assert_eq!(u16::from_le_bytes([raw[0], raw[1]]), AF_INET);
    assert_eq!(&raw[4..8], &[127, 0, 0, 1]);
    assert_eq!(u16::from_be_bytes([raw[2], raw[3]]), 8080);
}

#[test]
fn read_linux_msghdr_compat_invalid_pointer_returns_efault() {
    assert_eq!(read_linux_msghdr_compat(&mem(), 0), Err(linux_errno(EFAULT)));
}

#[test]
fn read_linux_iovec_compat_invalid_pointer_returns_efault() {
    assert_eq!(read_linux_iovec_compat(&mem(), 0), Err(linux_errno(EFAULT)));
}

#[test]
fn write_linux_msghdr_helpers_invalid_pointer_return_efault() {
    let mut m = mem();
    assert_eq!(write_linux_msghdr_namelen_compat(&mut m, 0, 16), Err(linux_errno(EFAULT)));
    assert_eq!(write_linux_msghdr_flags_compat(&mut m, 0, 0), Err(linux_errno(EFAULT)));
}

#[test]
fn recvmsg_metadata_writer_invalid_pointer_returns_efault() {
    let mut m = mem();
    assert_eq!(write_recvmsg_result_metadata(&mut m, 0, 16, 0), Err(linux_errno(EFAULT)));
}

#[test]
fn read_sockaddr_in_compat_rejects_non_inet_family() {
    let mut m = mem();
    put_sockaddr_in(&mut m, BASE, AF_UNIX, 8080, [127, 0, 0, 1]);
    assert_eq!(read_sockaddr_in_compat(&m, BASE, 16), Err(linux_errno(EINVAL)));
}

#[test]
fn read_sockaddr_in_compat_rejects_short_length() {
    assert_eq!(read_sockaddr_in_compat(&mem(), 0, 15), Err(linux_errno(EINVAL)));
}

#[test]
fn write_sockaddr_in_compat_invalid_pointer_returns_efault() {
    let mut m = mem();
    let addr = PosixSocketAddrV4 { addr: [127, 0, 0, 1], port: 8080 };
    assert_eq!(write_sockaddr_in_compat(&mut m, 0, addr), linux_errno(EFAULT));
}

#[test]
fn ioctl_iov_limits_and_shutdown() {
    assert_eq!(sys_linux_ioctl(3, FIONBIO, 0), 0);
    assert_eq!(sys_linux_ioctl(3, 0x5401, 0), linux_errno(ENOTTY));
    assert_eq!(validate_iov_len(1024), Ok(()));
    assert_eq!(validate_iov_len(1025), Err(linux_errno(EINVAL)));
    assert_eq!(linux_shim_msg_iovec_cap_bytes(0), 4096);
    assert_eq!(linux_shim_msg_iovec_cap_bytes(1 << 20), 1 << 20);
    assert_eq!(linux_shim_msg_iovec_cap_bytes(usize::MAX), 16 * 1024 * 1024);
    assert_eq!(sys_linux_shutdown(2), Ok(ShutdownHow::Both));
}

#[test]
fn shutdown_rejects_invalid_how() {
    assert_eq!(sys_linux_shutdown(3), Err(linux_errno(EINVAL)));
}

#[test]
fn socket_creation_without_network_layer() {
    assert_eq!(sys_linux_socket(2, 1, 0, None), linux_errno(EAFNOSUPPORT));
    assert_eq!(sys_linux_socket(2, 1, 0, Some(Ok(5))), 5);
    assert_eq!(sys_linux_socket(2, 1, 0, Some(Err(97))), linux_errno(97));
}

#[test]
fn connect_invalid_sockaddr_pointer_returns_efault() {
    let m = mem();
    let mut st = UserspaceDisplayBridgeState::new();
    assert_eq!(sys_linux_connect(&m, &mut st, 3, 0, 16, None, Some(Ok(()))), linux_errno(EFAULT));
}

#[test]
fn bind_short_sockaddr_returns_einval() {
    let m = mem();
    let mut st = UserspaceDisplayBridgeState::new();
    assert_eq!(sys_linux_bind(&m, &mut st, 3, BASE, 2, None, Some(Ok(()))), linux_errno(EINVAL));
}

#[test]
fn connect_short_sockaddr_returns_einval() {
    let m = mem();
    let mut st = UserspaceDisplayBridgeState::new();
    assert_eq!(sys_linux_connect(&m, &mut st, 3, BASE, 8, None, Some(Ok(()))), linux_errno(EINVAL));
}

#[test]
fn socket_calls_without_network_layer_are_ebadf() {
    let m = mem();
    let mut st = UserspaceDisplayBridgeState::new();
    assert_eq!(sys_linux_connect(&m, &mut st, 3, BASE, 16, None, None), linux_errno(EBADF));
    assert_eq!(sys_linux_listen(&mut st, 3, 16, None), linux_errno(EBADF));
}

#[test]
fn connect_inet_reports_network_layer_result() {
    let mut m = mem();
    put_sockaddr_in(&mut m, BASE, AF_INET, 80, [1, 2, 3, 4]);
    let mut st = UserspaceDisplayBridgeState::new();
    assert_eq!(sys_linux_connect(&m, &mut st, 3, BASE, 16, None, Some(Ok(()))), 0);
    assert_eq!(sys_linux_connect(&m, &mut st, 3, BASE, 16, None, Some(Err(111))), linux_errno(111));
    assert!(!st.userspace_display_fd_is_bound(3));
}

#[test]
fn listen_passthrough_preserves_backend_error_contract() {
    let mut st = UserspaceDisplayBridgeState::new();
    assert_eq!(sys_linux_listen(&mut st, 3, 16, Some(Err(95))), linux_errno(95));
    assert_eq!(sys_linux_listen(&mut st, 3, 16, Some(Ok(()))), 0);
}

#[test]
fn accept_rejects_invalid_flags_before_touching_socket_state() {
    let mut st = UserspaceDisplayBridgeState::new();
    assert_eq!(sys_linux_accept(&mut st, 3, SOCK_NONBLOCK | 0x4000), AcceptPlan::Return(linux_errno(EINVAL)));
    assert_eq!(sys_linux_accept(&mut st, 3, SOCK_NONBLOCK | SOCK_CLOEXEC), AcceptPlan::Accept);
    assert_eq!(accept_socket_with_flags(3, 0, Err(22)), Err(linux_errno(22)));
    assert_eq!(accept_socket_with_flags(3, 0, Ok(9)), Ok(9));
}

#[test]
fn accept_writes_peer_address() {
    let mut m = mem();
    assert!(m.write_u32(BASE + 32, 16));
    let peer = PosixSocketAddrV4 { addr: [9, 9, 9, 9], port: 1 };
    assert_eq!(accept_complete(&mut m, BASE, BASE + 32, 12, Some(peer)), 12);
    assert_eq!(read_sockaddr_in(&m, BASE, 16), Ok(peer));
    assert_eq!(accept_complete(&mut m, 0, 0, 12, Some(peer)), 12);
    assert_eq!(accept_complete(&mut m, BASE, BASE + 2000, 12, Some(peer)), linux_errno(EFAULT));
}

#[test]
fn socketpair_invalid_output_pointer_returns_efault() {
    let mut m = mem();
    assert_eq!(sys_linux_socketpair(&mut m, 1, 1, 0, 0, Some(Ok((3, 4)))), linux_errno(EFAULT));
}

#[test]
fn socketpair_successfully_writes_two_fds() {
    let mut m = mem();
    assert_eq!(sys_linux_socketpair(&mut m, 1, 1, 0, BASE, Some(Ok((3, 4)))), 0);
    assert_eq!(m.read_u64(BASE), Some(3));
    assert_eq!(m.read_u64(BASE + 8), Some(4));
    assert_eq!(sys_linux_socketpair(&mut m, 1, 1, 0, BASE, None), linux_errno(EAFNOSUPPORT));
}

#[test]
fn userspace_display_bridge_accepts_wayland_sockaddr_un() {
    let mut m = mem();
    let len = put_sockaddr_un(&mut m, BASE, b"/run/user/1000/wayland-0\0");
    let mut st = UserspaceDisplayBridgeState::new();
    let ep = Some("/run/user/1000/wayland-0".to_string());
    assert_eq!(sys_linux_connect(&m, &mut st, 73, BASE, len, ep, Some(Ok(()))), 0);
    assert!(st.userspace_display_fd_is_bound(73));
}

#[test]
fn userspace_display_bridge_rejects_non_display_unix_target() {
    let mut m = mem();
    let len = put_sockaddr_un(&mut m, BASE, b"/tmp/not-a-display\0");
    let mut st = UserspaceDisplayBridgeState::new();
    assert_eq!(sys_linux_connect(&m, &mut st, 74, BASE, len, None, Some(Ok(()))), linux_errno(EAFNOSUPPORT));
    assert!(!st.userspace_display_fd_is_bound(74));
}

#[test]
fn userspace_display_bind_bridge_marks_fd_and_listen_succeeds() {
    let mut m = mem();
    let len = put_sockaddr_un(&mut m, BASE, b"/tmp/.X11-unix/X2\0");
    let mut st = UserspaceDisplayBridgeState::new();
    let ep = Some("/tmp/.X11-unix/X2".to_string());
    assert_eq!(sys_linux_bind(&m, &mut st, 77, BASE, len, ep, Some(Ok(()))), 0);
    assert!(st.userspace_display_fd_is_bound(77));
    assert_eq!(sys_linux_listen(&mut st, 77, 64, Some(Err(95))), 0);
}

#[test]
fn userspace_display_accept_bridge_reports_eagain_without_pending_client() {
    let mut m = mem();
    let len = put_sockaddr_un(&mut m, BASE, b"/tmp/.X11-unix/X3\0");
    let mut st = UserspaceDisplayBridgeState::new();
    sys_linux_bind(&m, &mut st, 79, BASE, len, Some("/tmp/.X11-unix/X3".to_string()), Some(Ok(())));
    assert_eq!(sys_linux_accept(&mut st, 79, 0), AcceptPlan::Return(linux_errno(EAGAIN)));
}

#[test]
fn userspace_display_poll_and_epoll_helpers_expose_write_readiness() {
    let mut m = mem();
    let len = put_sockaddr_un(&mut m, BASE, b"/tmp/.X11-unix/X4\0");
    let mut st = UserspaceDisplayBridgeState::new();
    sys_linux_connect(&m, &mut st, 81, BASE, len, Some("/tmp/.X11-unix/X4".to_string()), Some(Ok(())));
    assert_eq!(st.userspace_display_poll_revents(81, POLL_OUT), POLL_OUT);
    assert_eq!(st.userspace_display_poll_revents(81, POLL_IN), 0);
    assert_eq!(st.userspace_display_epoll_revents(81, 4), 4);
    assert_eq!(st.userspace_display_poll_revents(82, POLL_OUT), 0);
}

#[test]
fn userspace_display_connect_enqueues_pending_accept_and_sets_pollin() {
    let mut m = mem();
    let len = put_sockaddr_un(&mut m, BASE, b"/tmp/.X11-unix/X7\0");
    let ep = || Some("/tmp/.X11-unix/X7".to_string());
    let mut st = UserspaceDisplayBridgeState::new();
    assert_eq!(sys_linux_bind(&m, &mut st, 90, BASE, len, ep(), Some(Ok(()))), 0);
    assert_eq!(sys_linux_listen(&mut st, 90, 16, Some(Ok(()))), 0);
    assert_eq!(sys_linux_connect(&m, &mut st, 91, BASE, len, ep(), Some(Ok(()))), 0);
    assert!(st.userspace_display_pending_accepts(90) > 0);
    assert_eq!(st.userspace_display_poll_revents(90, POLL_IN), POLL_IN);
    assert_eq!(sys_linux_accept(&mut st, 90, 0), AcceptPlan::CreateBridgeSocket);
    assert_eq!(st.userspace_display_pending_accepts(90), 0);
    assert_eq!(sys_linux_accept(&mut st, 90, 0), AcceptPlan::Return(linux_errno(EAGAIN)));
}

#[test]
fn unix_sockaddr_reader_pads_and_filters() {
    let mut m = mem();
    let len = put_sockaddr_un(&mut m, BASE, b"/x\0");
    let raw = read_unix_sockaddr_bytes(&m, BASE, len).unwrap().unwrap();
    assert_eq!(raw.len(), 110);
    assert_eq!(&raw[2..4], b"/x");
    assert_eq!(read_unix_sockaddr_bytes(&m, BASE, 2), Ok(None));
    put_sockaddr_in(&mut m, BASE + 128, AF_INET, 1, [1, 1, 1, 1]);
    assert_eq!(read_unix_sockaddr_bytes(&m, BASE + 128, 16), Ok(None));
    assert_eq!(read_unix_sockaddr_bytes(&m, BASE + 1020, 16), Err(linux_errno(EFAULT)));
}

#[test]
fn accept_helper_rejects_invalid_flags_before_backend_lookup() {
    let mut st = UserspaceDisplayBridgeState::new();
    assert_eq!(sys_linux_accept(&mut st, 0, SOCK_NONBLOCK | 0x4000), AcceptPlan::Return(linux_errno(EINVAL)));
    assert_eq!(accept_socket_with_flags(0, SOCK_NONBLOCK | 0x4000, Err(EINVAL)), Err(linux_errno(EINVAL)));
}

#[test]
fn socketpair_writer_reports_efault_for_invalid_output_pointer() {
    let mut m = mem();
    assert_eq!(write_socketpair_fds(&mut m, 0, 1, 2), Err(linux_errno(EFAULT)));
}

#[test]
fn recvmsg_writes_name_length_and_clears_flags_when_name_buffer_present() {
    let mut m = mem();
    put_iovec(&mut m, BASE + 64, BASE + 512, 8);
    put_msghdr(&mut m, BASE, BASE + 256, 32, BASE + 64, 1);
    assert!(m.write_u32(BASE + 48, 0x40));
    let (name_ptr, iovs) = match sys_linux_recvmsg(&m, BASE, Ok(()), LIMIT) {
        RecvPlan::Receive(np, v) => (np, v),
        RecvPlan::Return(_) => panic!("expected a receive"),
    };
    let from = PosixSocketAddrV4 { addr: [127, 0, 0, 1], port: 9 };
    assert_eq!(recvmsg_complete(&mut m, BASE, name_ptr, &iovs, Ok((b"ok".to_vec(), from))), 2);
    assert_eq!(m.read_bytes(BASE + 512, 2), Some(b"ok".to_vec()));
    let (_, name_len, _, _) = read_linux_msghdr_compat(&m, BASE).unwrap();
    assert_eq!(name_len, 16);
    assert_eq!(m.read_u32(BASE + 48), Some(0));
}
