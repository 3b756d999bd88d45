use lib::errno::{linux_errno, ENOSYS, EPERM};
use lib::linux_dispatch::{linux_call_of, linux_shim_route, LinuxCall, ShimArgs, ShimRoute};
use lib::linux_sysno;
use lib::nr;
use lib::stats_api::SyscallCounters;
use lib::exec::execve_commit;
use lib::syscall_dispatch::{
    native_call_of, native_syscall_entry, syscall_return, unknown_syscall, NativeCall, SyscallReturn,
};

fn args() -> ShimArgs {
    ShimArgs { a1: 11, a2: 22, a3: 33, a4: 44, a5: 55, a6: 66 }
}

#[test]
fn native_numbers_route_to_their_calls() {
    assert_eq!(native_call_of(nr::YIELD), Some(NativeCall::Yield));
    assert_eq!(native_call_of(nr::GET_ABI_INFO), Some(NativeCall::GetAbiInfo));
    assert_eq!(native_call_of(nr::GET_POLICY_DRIFT_REASON_TEXT), Some(NativeCall::GetPolicyDriftReasonText));
    assert_eq!(native_call_of(61), None);
    assert_eq!(native_call_of(linux_sysno::GETTID), None);
}

#[test]
fn native_entry_counts_the_syscall_and_the_call() {
    let mut c = SyscallCounters::new();
    assert_eq!(native_syscall_entry(&mut c, nr::GET_POWER_STATS), Some(NativeCall::GetPowerStats));
    assert_eq!(c.total, 1);
    assert_eq!(c.power_stats_calls, 1);
    assert_eq!(native_syscall_entry(&mut c, nr::VFS_OPEN), Some(NativeCall::VfsOpen));
    assert_eq!(c.vfs_open_calls, 1);
    assert_eq!(native_syscall_entry(&mut c, nr::YIELD), Some(NativeCall::Yield));
    assert_eq!(c.total, 3);
    assert_eq!(native_syscall_entry(&mut c, 5000), None);
    assert_eq!(c.total, 4);
    assert_eq!(c.unknown, 0);
    assert_eq!(unknown_syscall(&mut c), usize::MAX);
    assert_eq!(c.unknown, 1);
    assert_eq!(c.power_stats_calls, 1);
}

#[test]
fn linux_route_sends_syscalls_to_their_handlers() {
    assert_eq!(linux_shim_route(linux_sysno::READ, args()), ShimRoute::Call(LinuxCall::Read, args()));
    assert_eq!(linux_shim_route(linux_sysno::SOCKET, args()), ShimRoute::Call(LinuxCall::Socket, args()));
    assert_eq!(linux_shim_route(linux_sysno::EXIT_GROUP, args()), ShimRoute::Call(LinuxCall::Exit, args()));
    assert_eq!(linux_shim_route(linux_sysno::VFORK, args()), ShimRoute::Call(LinuxCall::Fork, args()));
    assert_eq!(linux_call_of(linux_sysno::EPOLL_PWAIT2), Some(LinuxCall::EpollPwait2));
    assert_eq!(linux_call_of(linux_sysno::BRK), None);
}

#[test]
fn linux_route_adapts_older_calls() {
    assert_eq!(
        linux_shim_route(linux_sysno::NANOSLEEP, args()),
        ShimRoute::Call(LinuxCall::ClockNanosleep, ShimArgs { a1: 0, a2: 0, a3: 11, a4: 22, a5: 0, a6: 0 })
    );
    assert_eq!(
        linux_shim_route(linux_sysno::PIPE, args()),
        ShimRoute::Call(LinuxCall::Pipe, ShimArgs { a2: 0, ..args() })
    );
    assert_eq!(
        linux_shim_route(linux_sysno::EPOLL_WAIT, args()),
        ShimRoute::Call(LinuxCall::EpollPwait, ShimArgs { a5: 0, a6: 0, ..args() })
    );
    assert_eq!(
        linux_shim_route(linux_sysno::ACCEPT, args()),
        ShimRoute::Call(LinuxCall::Accept, ShimArgs { a4: 0, ..args() })
    );
    assert_eq!(linux_shim_route(linux_sysno::ACCEPT4, args()), ShimRoute::Call(LinuxCall::Accept, args()));
}

#[test]
fn linux_route_answers_brk_and_unknown_calls() {
    assert_eq!(linux_shim_route(linux_sysno::BRK, args()), ShimRoute::Return(11));
    assert_eq!(linux_shim_route(169, args()), ShimRoute::Return(linux_errno(EPERM)));
    assert_eq!(linux_shim_route(101, args()), ShimRoute::Return(linux_errno(EPERM)));
    assert_eq!(linux_shim_route(10_438, args()), ShimRoute::Return(linux_errno(ENOSYS)));
}

#[test]
fn syscall_return_hands_back_and_clears_the_pending_entry() {
    let mut pending = 0usize;
    assert_eq!(syscall_return(&mut pending, 7), SyscallReturn { ret: 7, new_rip: 0 });
    assert_eq!(execve_commit(&mut pending, Some(0x40_1000)), 0);
    assert_eq!(pending, 0x40_1000);
    assert_eq!(syscall_return(&mut pending, 0), SyscallReturn { ret: 0, new_rip: 0x40_1000 });
    assert_eq!(pending, 0);
    assert_eq!(syscall_return(&mut pending, 3), SyscallReturn { ret: 3, new_rip: 0 });
}

#[test]
fn execve_commit_without_a_process_leaves_the_entry() {
    let mut pending = 0x5000usize;
    assert_eq!(execve_commit(&mut pending, None), 0);
    assert_eq!(pending, 0x5000);
}
