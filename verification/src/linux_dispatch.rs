use vstd::prelude::*;

use crate::errno::{errno_word, EPERM, ENOSYS};
use crate::linux_shim::{is_privileged_syscall, linux_unknown_syscall_errno};
use crate::linux_sysno as sysno;

verus! {

/// The handlers of the Linux syscalls the shim implements.
#[derive(Debug, Clone, Copy, PartialEq, Eq, Structural)]
pub enum LinuxCall {
    Socket,
    Connect,
    Bind,
    Listen,
    Accept,
    Sendto,
    Recvfrom,
    Shutdown,
    Getsockname,
    Getpeername,
    Setsockopt,
    Getsockopt,
    Socketpair,
    SchedYield,
    Exit,
    Read,
    Write,
    Close,
    Lseek,
    Getpid,
    Getppid,
    Gettid,
    SetTidAddress,
    ArchPrctl,
    Futex,
    Tgkill,
    Kill,
    ClockGettime,
    ClockNanosleep,
    Mmap,
    Mprotect,
    Munmap,
    RtSigaction,
    RtSigprocmask,
    Ioctl,
    Sendmsg,
    Recvmsg,
    Clone,
    Clone3,
    Fork,
    Execve,
    Execveat,
    Openat,
    Openat2,
    Mkdirat,
    Unlinkat,
    Linkat,
    Symlinkat,
    Renameat,
    Renameat2,
    Readlinkat,
    Fstat,
    Newfstatat,
    Statx,
    Chmod,
    Fchmod,
    Chown,
    Fchown,
    Fchownat,
    Fchmodat,
    Statfs,
    Fstatfs,
    Pipe,
    Dup,
    Dup2,
    Dup3,
    Fcntl,
    Getdents64,
    Getcwd,
    Uname,
    Getuid,
    Getgid,
    Geteuid,
    Getegid,
    Getpgrp,
    Getpgid,
    Setpgid,
    Setsid,
    Getrlimit,
    Setrlimit,
    Prlimit64,
    Wait4,
    Waitid,
    Madvise,
    Mlock,
    Munlock,
    Mlockall,
    Munlockall,
    EpollCreate1,
    EpollCtl,
    EpollPwait,
    EpollCreate,
    Poll,
    Ppoll,
    Select,
    Pselect6,
    Eventfd,
    Eventfd2,
    TimerfdCreate,
    TimerfdSettime,
    TimerfdGettime,
    Signalfd,
    Signalfd4,
    InotifyInit,
    InotifyInit1,
    InotifyAddWatch,
    InotifyRmWatch,
    MemfdCreate,
    Fsync,
    Fdatasync,
    Sync,
    Syncfs,
    Ftruncate,
    Futimesat,
    Utimensat,
    SetRobustList,
    GetRobustList,
    RtSigreturn,
    Sigaltstack,
    RtSigpending,
    Gettimeofday,
    Time,
    Umask,
    Access,
    Faccessat,
    Faccessat2,
    Getcpu,
    Prctl,
    SchedGetscheduler,
    SchedSetscheduler,
    SchedGetparam,
    SchedSetparam,
    SchedGetaffinity,
    SchedSetaffinity,
    SchedGetPriorityMax,
    SchedGetPriorityMin,
    Unshare,
    Setns,
    Sysinfo,
    Membarrier,
    Getrandom,
    Rseq,
    Bpf,
    IoUringSetup,
    IoUringEnter,
    IoUringRegister,
    LandlockCreateRuleset,
    LandlockAddRule,
    LandlockRestrictSelf,
    FanotifyInit,
    FanotifyMark,
    FutexWaitv,
    CloseRange,
    PidfdOpen,
    PidfdGetfd,
    PidfdSendSignal,
    Mremap,
    EpollPwait2,
}

/// The syscall number a handler serves.
pub open spec fn linux_call_number(c: LinuxCall) -> usize {
    match c {
        LinuxCall::Socket => sysno::SOCKET,
        LinuxCall::Connect => sysno::CONNECT,
        LinuxCall::Bind => sysno::BIND,
        LinuxCall::Listen => sysno::LISTEN,
        LinuxCall::Accept => sysno::ACCEPT4,
        LinuxCall::Sendto => sysno::SENDTO,
        LinuxCall::Recvfrom => sysno::RECVFROM,
        LinuxCall::Shutdown => sysno::SHUTDOWN,
        LinuxCall::Getsockname => sysno::GETSOCKNAME,
        LinuxCall::Getpeername => sysno::GETPEERNAME,
        LinuxCall::Setsockopt => sysno::SETSOCKOPT,
        LinuxCall::Getsockopt => sysno::GETSOCKOPT,
        LinuxCall::Socketpair => sysno::SOCKETPAIR,
        LinuxCall::SchedYield => sysno::SCHED_YIELD,
        LinuxCall::Exit => sysno::EXIT,
        LinuxCall::Read => sysno::READ,
        LinuxCall::Write => sysno::WRITE,
        LinuxCall::Close => sysno::CLOSE,
        LinuxCall::Lseek => sysno::LSEEK,
        LinuxCall::Getpid => sysno::GETPID,
        LinuxCall::Getppid => sysno::GETPPID,
        LinuxCall::Gettid => sysno::GETTID,
        LinuxCall::SetTidAddress => sysno::SET_TID_ADDRESS,
        LinuxCall::ArchPrctl => sysno::ARCH_PRCTL,
        LinuxCall::Futex => sysno::FUTEX,
        LinuxCall::Tgkill => sysno::TGKILL,
        LinuxCall::Kill => sysno::KILL,
        LinuxCall::ClockGettime => sysno::CLOCK_GETTIME,
        LinuxCall::ClockNanosleep => sysno::CLOCK_NANOSLEEP,
        LinuxCall::Mmap => sysno::MMAP,
        LinuxCall::Mprotect => sysno::MPROTECT,
        LinuxCall::Munmap => sysno::MUNMAP,
        LinuxCall::RtSigaction => sysno::RT_SIGACTION,
        LinuxCall::RtSigprocmask => sysno::RT_SIGPROCMASK,
        LinuxCall::Ioctl => sysno::IOCTL,
        LinuxCall::Sendmsg => sysno::SENDMSG,
        LinuxCall::Recvmsg => sysno::RECVMSG,
        LinuxCall::Clone => sysno::CLONE,
        LinuxCall::Clone3 => sysno::CLONE3,
        LinuxCall::Fork => sysno::FORK,
        LinuxCall::Execve => sysno::EXECVE,
        LinuxCall::Execveat => sysno::EXECVEAT,
        LinuxCall::Openat => sysno::OPENAT,
        LinuxCall::Openat2 => sysno::OPENAT2,
        LinuxCall::Mkdirat => sysno::MKDIRAT,
        LinuxCall::Unlinkat => sysno::UNLINKAT,
        LinuxCall::Linkat => sysno::LINKAT,
        LinuxCall::Symlinkat => sysno::SYMLINKAT,
        LinuxCall::Renameat => sysno::RENAMEAT,
        LinuxCall::Renameat2 => sysno::RENAMEAT2,
        LinuxCall::Readlinkat => sysno::READLINKAT,
        LinuxCall::Fstat => sysno::FSTAT,
        LinuxCall::Newfstatat => sysno::NEWFSTATAT,
        LinuxCall::Statx => sysno::STATX,
        LinuxCall::Chmod => sysno::CHMOD,
        LinuxCall::Fchmod => sysno::FCHMOD,
        LinuxCall::Chown => sysno::CHOWN,
        LinuxCall::Fchown => sysno::FCHOWN,
        LinuxCall::Fchownat => sysno::FCHOWNAT,
        LinuxCall::Fchmodat => sysno::FCHMODAT,
        LinuxCall::Statfs => sysno::STATFS,
        LinuxCall::Fstatfs => sysno::FSTATFS,
        LinuxCall::Pipe => sysno::PIPE2,
        LinuxCall::Dup => sysno::DUP,
        LinuxCall::Dup2 => sysno::DUP2,
        LinuxCall::Dup3 => sysno::DUP3,
        LinuxCall::Fcntl => sysno::FCNTL,
        LinuxCall::Getdents64 => sysno::GETDENTS64,
        LinuxCall::Getcwd => sysno::GETCWD,
        LinuxCall::Uname => sysno::UNAME,
        LinuxCall::Getuid => sysno::GETUID,
        LinuxCall::Getgid => sysno::GETGID,
        LinuxCall::Geteuid => sysno::GETEUID,
        LinuxCall::Getegid => sysno::GETEGID,
        LinuxCall::Getpgrp => sysno::GETPGRP,
        LinuxCall::Getpgid => sysno::GETPGID,
        LinuxCall::Setpgid => sysno::SETPGID,
        LinuxCall::Setsid => sysno::SETSID,
        LinuxCall::Getrlimit => sysno::GETRLIMIT,
        LinuxCall::Setrlimit => sysno::SETRLIMIT,
        LinuxCall::Prlimit64 => sysno::PRLIMIT64,
        LinuxCall::Wait4 => sysno::WAIT4,
        LinuxCall::Waitid => sysno::WAITID,
        LinuxCall::Madvise => sysno::MADVISE,
        LinuxCall::Mlock => sysno::MLOCK,
        LinuxCall::Munlock => sysno::MUNLOCK,
        LinuxCall::Mlockall => sysno::MLOCKALL,
        LinuxCall::Munlockall => sysno::MUNLOCKALL,
        LinuxCall::EpollCreate1 => sysno::EPOLL_CREATE1,
        LinuxCall::EpollCtl => sysno::EPOLL_CTL,
        LinuxCall::EpollPwait => sysno::EPOLL_PWAIT,
        LinuxCall::EpollCreate => sysno::EPOLL_CREATE,
        LinuxCall::Poll => sysno::POLL,
        LinuxCall::Ppoll => sysno::PPOLL,
        LinuxCall::Select => sysno::SELECT,
        LinuxCall::Pselect6 => sysno::PSELECT6,
        LinuxCall::Eventfd => sysno::EVENTFD,
        LinuxCall::Eventfd2 => sysno::EVENTFD2,
        LinuxCall::TimerfdCreate => sysno::TIMERFD_CREATE,
        LinuxCall::TimerfdSettime => sysno::TIMERFD_SETTIME,
        LinuxCall::TimerfdGettime => sysno::TIMERFD_GETTIME,
        LinuxCall::Signalfd => sysno::SIGNALFD,
        LinuxCall::Signalfd4 => sysno::SIGNALFD4,
        LinuxCall::InotifyInit => sysno::INOTIFY_INIT,
        LinuxCall::InotifyInit1 => sysno::INOTIFY_INIT1,
        LinuxCall::InotifyAddWatch => sysno::INOTIFY_ADD_WATCH,
        LinuxCall::InotifyRmWatch => sysno::INOTIFY_RM_WATCH,
        LinuxCall::MemfdCreate => sysno::MEMFD_CREATE,
        LinuxCall::Fsync => sysno::FSYNC,
        LinuxCall::Fdatasync => sysno::FDATASYNC,
        LinuxCall::Sync => sysno::SYNC,
        LinuxCall::Syncfs => sysno::SYNCFS,
        LinuxCall::Ftruncate => sysno::FTRUNCATE,
        LinuxCall::Futimesat => sysno::FUTIMESAT,
        LinuxCall::Utimensat => sysno::UTIMENSAT,
        LinuxCall::SetRobustList => sysno::SET_ROBUST_LIST,
        LinuxCall::GetRobustList => sysno::GET_ROBUST_LIST,
        LinuxCall::RtSigreturn => sysno::RT_SIGRETURN,
        LinuxCall::Sigaltstack => sysno::SIGALTSTACK,
        LinuxCall::RtSigpending => sysno::RT_SIGPENDING,
        LinuxCall::Gettimeofday => sysno::GETTIMEOFDAY,
        LinuxCall::Time => sysno::TIME,
        LinuxCall::Umask => sysno::UMASK,
        LinuxCall::Access => sysno::ACCESS,
        LinuxCall::Faccessat => sysno::FACCESSAT,
        LinuxCall::Faccessat2 => sysno::FACCESSAT2,
        LinuxCall::Getcpu => sysno::GETCPU,
        LinuxCall::Prctl => sysno::PRCTL,
        LinuxCall::SchedGetscheduler => sysno::SCHED_GETSCHEDULER,
        LinuxCall::SchedSetscheduler => sysno::SCHED_SETSCHEDULER,
        LinuxCall::SchedGetparam => sysno::SCHED_GETPARAM,
        LinuxCall::SchedSetparam => sysno::SCHED_SETPARAM,
        LinuxCall::SchedGetaffinity => sysno::SCHED_GETAFFINITY,
        LinuxCall::SchedSetaffinity => sysno::SCHED_SETAFFINITY,
        LinuxCall::SchedGetPriorityMax => sysno::SCHED_GET_PRIORITY_MAX,
        LinuxCall::SchedGetPriorityMin => sysno::SCHED_GET_PRIORITY_MIN,
        LinuxCall::Unshare => sysno::UNSHARE,
        LinuxCall::Setns => sysno::SETNS,
        LinuxCall::Sysinfo => sysno::SYSINFO,
        LinuxCall::Membarrier => sysno::MEMBARRIER,
        LinuxCall::Getrandom => sysno::GETRANDOM,
        LinuxCall::Rseq => sysno::RSEQ,
        LinuxCall::Bpf => sysno::BPF,
        LinuxCall::IoUringSetup => sysno::IO_URING_SETUP,
        LinuxCall::IoUringEnter => sysno::IO_URING_ENTER,
        LinuxCall::IoUringRegister => sysno::IO_URING_REGISTER,
        LinuxCall::LandlockCreateRuleset => sysno::LANDLOCK_CREATE_RULESET,
        LinuxCall::LandlockAddRule => sysno::LANDLOCK_ADD_RULE,
        LinuxCall::LandlockRestrictSelf => sysno::LANDLOCK_RESTRICT_SELF,
        LinuxCall::FanotifyInit => sysno::FANOTIFY_INIT,
        LinuxCall::FanotifyMark => sysno::FANOTIFY_MARK,
        LinuxCall::FutexWaitv => sysno::FUTEX_WAITV,
        LinuxCall::CloseRange => sysno::CLOSE_RANGE,
        LinuxCall::PidfdOpen => sysno::PIDFD_OPEN,
        LinuxCall::PidfdGetfd => sysno::PIDFD_GETFD,
        LinuxCall::PidfdSendSignal => sysno::PIDFD_SEND_SIGNAL,
        LinuxCall::Mremap => sysno::MREMAP,
        LinuxCall::EpollPwait2 => sysno::EPOLL_PWAIT2,
    }
}

/// The older number a handler also serves, with adapted arguments.
pub open spec fn linux_call_alias(c: LinuxCall) -> Option<usize> {
    match c {
        LinuxCall::Accept => Some(sysno::ACCEPT),
        LinuxCall::Exit => Some(sysno::EXIT_GROUP),
        LinuxCall::ClockNanosleep => Some(sysno::NANOSLEEP),
        LinuxCall::Fork => Some(sysno::VFORK),
        LinuxCall::Pipe => Some(sysno::PIPE),
        LinuxCall::EpollPwait => Some(sysno::EPOLL_WAIT),
        _ => None,
    }
}

/// Whether handler `c` serves syscall `syscall_id`.
pub open spec fn handles(c: LinuxCall, syscall_id: usize) -> bool {
    linux_call_number(c) == syscall_id || linux_call_alias(c) == Some(syscall_id)
}

/// Each Linux syscall number is served by at most one handler.
pub proof fn law_one_handler_per_syscall(c1: LinuxCall, c2: LinuxCall, syscall_id: usize)
    requires
        handles(c1, syscall_id),
        handles(c2, syscall_id),
    ensures
        c1 == c2,
{
}

/// Every handler serves the number that the Linux x86-64 syscall table gives
/// its call (`getpid` 39, `getppid` 110, `read` 0, `write` 1, and so on), and
/// the handlers that also take an older call serve that call's x86-64
/// number: `accept` 43, `exit_group` 231, `nanosleep` 35, `vfork` 58,
/// `pipe` 22, `epoll_wait` 232.
pub proof fn law_linux_call_numbers_follow_x86_64_table()
    ensures
        linux_call_number(LinuxCall::Socket) == 41,
        linux_call_number(LinuxCall::Connect) == 42,
        linux_call_number(LinuxCall::Bind) == 49,
        linux_call_number(LinuxCall::Listen) == 50,
        linux_call_number(LinuxCall::Accept) == 288,
        linux_call_number(LinuxCall::Sendto) == 44,
        linux_call_number(LinuxCall::Recvfrom) == 45,
        linux_call_number(LinuxCall::Shutdown) == 48,
        linux_call_number(LinuxCall::Getsockname) == 51,
        linux_call_number(LinuxCall::Getpeername) == 52,
        linux_call_number(LinuxCall::Setsockopt) == 54,
        linux_call_number(LinuxCall::Getsockopt) == 55,
        linux_call_number(LinuxCall::Socketpair) == 53,
        linux_call_number(LinuxCall::SchedYield) == 24,
        linux_call_number(LinuxCall::Exit) == 60,
        linux_call_number(LinuxCall::Read) == 0,
        linux_call_number(LinuxCall::Write) == 1,
        linux_call_number(LinuxCall::Close) == 3,
        linux_call_number(LinuxCall::Lseek) == 8,
        linux_call_number(LinuxCall::Getpid) == 39,
        linux_call_number(LinuxCall::Getppid) == 110,
        linux_call_number(LinuxCall::Gettid) == 186,
        linux_call_number(LinuxCall::SetTidAddress) == 218,
        linux_call_number(LinuxCall::ArchPrctl) == 158,
        linux_call_number(LinuxCall::Futex) == 202,
        linux_call_number(LinuxCall::Tgkill) == 234,
        linux_call_number(LinuxCall::Kill) == 62,
        linux_call_number(LinuxCall::ClockGettime) == 228,
        linux_call_number(LinuxCall::ClockNanosleep) == 230,
        linux_call_number(LinuxCall::Mmap) == 9,
        linux_call_number(LinuxCall::Mprotect) == 10,
        linux_call_number(LinuxCall::Munmap) == 11,
        linux_call_number(LinuxCall::RtSigaction) == 13,
        linux_call_number(LinuxCall::RtSigprocmask) == 14,
        linux_call_number(LinuxCall::Ioctl) == 16,
        linux_call_number(LinuxCall::Sendmsg) == 46,
        linux_call_number(LinuxCall::Recvmsg) == 47,
        linux_call_number(LinuxCall::Clone) == 56,
        linux_call_number(LinuxCall::Clone3) == 435,
        linux_call_number(LinuxCall::Fork) == 57,
        linux_call_number(LinuxCall::Execve) == 59,
        linux_call_number(LinuxCall::Execveat) == 322,
        linux_call_number(LinuxCall::Openat) == 257,
        linux_call_number(LinuxCall::Openat2) == 437,
        linux_call_number(LinuxCall::Mkdirat) == 258,
        linux_call_number(LinuxCall::Unlinkat) == 263,
        linux_call_number(LinuxCall::Linkat) == 265,
        linux_call_number(LinuxCall::Symlinkat) == 266,
        linux_call_number(LinuxCall::Renameat) == 264,
        linux_call_number(LinuxCall::Renameat2) == 316,
        linux_call_number(LinuxCall::Readlinkat) == 267,
        linux_call_number(LinuxCall::Fstat) == 5,
        linux_call_number(LinuxCall::Newfstatat) == 262,
        linux_call_number(LinuxCall::Statx) == 332,
        linux_call_number(LinuxCall::Chmod) == 90,
        linux_call_number(LinuxCall::Fchmod) == 91,
        linux_call_number(LinuxCall::Chown) == 92,
        linux_call_number(LinuxCall::Fchown) == 93,
        linux_call_number(LinuxCall::Fchownat) == 260,
        linux_call_number(LinuxCall::Fchmodat) == 268,
        linux_call_number(LinuxCall::Statfs) == 137,
        linux_call_number(LinuxCall::Fstatfs) == 138,
        linux_call_number(LinuxCall::Pipe) == 293,
        linux_call_number(LinuxCall::Dup) == 32,
        linux_call_number(LinuxCall::Dup2) == 33,
        linux_call_number(LinuxCall::Dup3) == 292,
        linux_call_number(LinuxCall::Fcntl) == 72,
        linux_call_number(LinuxCall::Getdents64) == 217,
        linux_call_number(LinuxCall::Getcwd) == 79,
        linux_call_number(LinuxCall::Uname) == 63,
        linux_call_number(LinuxCall::Getuid) == 102,
        linux_call_number(LinuxCall::Getgid) == 104,
        linux_call_number(LinuxCall::Geteuid) == 107,
        linux_call_number(LinuxCall::Getegid) == 108,
        linux_call_number(LinuxCall::Getpgrp) == 111,
        linux_call_number(LinuxCall::Getpgid) == 121,
        linux_call_number(LinuxCall::Setpgid) == 109,
        linux_call_number(LinuxCall::Setsid) == 112,
        linux_call_number(LinuxCall::Getrlimit) == 97,
        linux_call_number(LinuxCall::Setrlimit) == 160,
        linux_call_number(LinuxCall::Prlimit64) == 302,
        linux_call_number(LinuxCall::Wait4) == 61,
        linux_call_number(LinuxCall::Waitid) == 247,
        linux_call_number(LinuxCall::Madvise) == 28,
        linux_call_number(LinuxCall::Mlock) == 149,
        linux_call_number(LinuxCall::Munlock) == 150,
        linux_call_number(LinuxCall::Mlockall) == 151,
        linux_call_number(LinuxCall::Munlockall) == 152,
        linux_call_number(LinuxCall::EpollCreate1) == 291,
        linux_call_number(LinuxCall::EpollCtl) == 233,
        linux_call_number(LinuxCall::EpollPwait) == 281,
        linux_call_number(LinuxCall::EpollCreate) == 213,
        linux_call_number(LinuxCall::Poll) == 7,
        linux_call_number(LinuxCall::Ppoll) == 271,
        linux_call_number(LinuxCall::Select) == 23,
        linux_call_number(LinuxCall::Pselect6) == 270,
        linux_call_number(LinuxCall::Eventfd) == 284,
        linux_call_number(LinuxCall::Eventfd2) == 290,
        linux_call_number(LinuxCall::TimerfdCreate) == 283,
        linux_call_number(LinuxCall::TimerfdSettime) == 286,
        linux_call_number(LinuxCall::TimerfdGettime) == 287,
        linux_call_number(LinuxCall::Signalfd) == 282,
        linux_call_number(LinuxCall::Signalfd4) == 289,
        linux_call_number(LinuxCall::InotifyInit) == 253,
        linux_call_number(LinuxCall::InotifyInit1) == 294,
        linux_call_number(LinuxCall::InotifyAddWatch) == 254,
        linux_call_number(LinuxCall::InotifyRmWatch) == 255,
        linux_call_number(LinuxCall::MemfdCreate) == 319,
        linux_call_number(LinuxCall::Fsync) == 74,
        linux_call_number(LinuxCall::Fdatasync) == 75,
        linux_call_number(LinuxCall::Sync) == 162,
        linux_call_number(LinuxCall::Syncfs) == 306,
        linux_call_number(LinuxCall::Ftruncate) == 77,
        linux_call_number(LinuxCall::Futimesat) == 261,
        linux_call_number(LinuxCall::Utimensat) == 280,
        linux_call_number(LinuxCall::SetRobustList) == 273,
        linux_call_number(LinuxCall::GetRobustList) == 274,
        linux_call_number(LinuxCall::RtSigreturn) == 15,
        linux_call_number(LinuxCall::Sigaltstack) == 131,
        linux_call_number(LinuxCall::RtSigpending) == 127,
        linux_call_number(LinuxCall::Gettimeofday) == 96,
        linux_call_number(LinuxCall::Time) == 201,
        linux_call_number(LinuxCall::Umask) == 95,
        linux_call_number(LinuxCall::Access) == 21,
        linux_call_number(LinuxCall::Faccessat) == 269,
        linux_call_number(LinuxCall::Faccessat2) == 439,
        linux_call_number(LinuxCall::Getcpu) == 309,
        linux_call_number(LinuxCall::Prctl) == 157,
        linux_call_number(LinuxCall::SchedGetscheduler) == 145,
        linux_call_number(LinuxCall::SchedSetscheduler) == 144,
        linux_call_number(LinuxCall::SchedGetparam) == 143,
        linux_call_number(LinuxCall::SchedSetparam) == 142,
        linux_call_number(LinuxCall::SchedGetaffinity) == 204,
        linux_call_number(LinuxCall::SchedSetaffinity) == 203,
        linux_call_number(LinuxCall::SchedGetPriorityMax) == 146,
        linux_call_number(LinuxCall::SchedGetPriorityMin) == 147,
        linux_call_number(LinuxCall::Unshare) == 272,
        linux_call_number(LinuxCall::Setns) == 308,
        linux_call_number(LinuxCall::Sysinfo) == 99,
        linux_call_number(LinuxCall::Membarrier) == 324,
        linux_call_number(LinuxCall::Getrandom) == 318,
        linux_call_number(LinuxCall::Rseq) == 334,
        linux_call_number(LinuxCall::Bpf) == 321,
        linux_call_number(LinuxCall::IoUringSetup) == 425,
        linux_call_number(LinuxCall::IoUringEnter) == 426,
        linux_call_number(LinuxCall::IoUringRegister) == 427,
        linux_call_number(LinuxCall::LandlockCreateRuleset) == 444,
        linux_call_number(LinuxCall::LandlockAddRule) == 445,
        linux_call_number(LinuxCall::LandlockRestrictSelf) == 446,
        linux_call_number(LinuxCall::FanotifyInit) == 300,
        linux_call_number(LinuxCall::FanotifyMark) == 301,
        linux_call_number(LinuxCall::FutexWaitv) == 449,
        linux_call_number(LinuxCall::CloseRange) == 436,
        linux_call_number(LinuxCall::PidfdOpen) == 434,
        linux_call_number(LinuxCall::PidfdGetfd) == 438,
        linux_call_number(LinuxCall::PidfdSendSignal) == 424,
        linux_call_number(LinuxCall::Mremap) == 25,
        linux_call_number(LinuxCall::EpollPwait2) == 441,
        linux_call_alias(LinuxCall::Accept) == Some(43usize),
        linux_call_alias(LinuxCall::Exit) == Some(231usize),
        linux_call_alias(LinuxCall::ClockNanosleep) == Some(35usize),
        linux_call_alias(LinuxCall::Fork) == Some(58usize),
        linux_call_alias(LinuxCall::Pipe) == Some(22usize),
        linux_call_alias(LinuxCall::EpollPwait) == Some(232usize),
{
}

/// The six argument registers of a syscall.
#[derive(Debug, Clone, Copy, PartialEq, Eq, Structural)]
pub struct ShimArgs {
    pub a1: usize,
    pub a2: usize,
    pub a3: usize,
    pub a4: usize,
    pub a5: usize,
    pub a6: usize,
}

/// The arguments a handler gets: the older numbers pass theirs on in the
/// newer call's shape (`nanosleep` as a relative `clock_nanosleep` on clock
/// zero, `pipe` as `pipe2` without flags, `epoll_wait` as `epoll_pwait`
/// without a mask, `accept` as `accept4` without flags).
pub open spec fn shim_call_args(syscall_id: usize, a: ShimArgs) -> ShimArgs {
    if syscall_id == sysno::NANOSLEEP {
        ShimArgs { a1: 0, a2: 0, a3: a.a1, a4: a.a2, a5: 0, a6: 0 }
    } else if syscall_id == sysno::PIPE {
        ShimArgs { a2: 0, ..a }
    } else if syscall_id == sysno::EPOLL_WAIT {
        ShimArgs { a5: 0, a6: 0, ..a }
    } else if syscall_id == sysno::ACCEPT {
        ShimArgs { a4: 0, ..a }
    } else {
        a
    }
}

/// What the shim answers for a Linux syscall it does not implement.
pub open spec fn linux_unknown_answer(syscall_id: usize) -> usize {
    if is_privileged_syscall(syscall_id) {
        errno_word(EPERM)
    } else {
        errno_word(ENOSYS)
    }
}

/// How the shim answers a Linux syscall.
#[derive(Debug, Clone, Copy, PartialEq, Eq, Structural)]
pub enum ShimRoute {
    /// Answer this value at once.
    Return(usize),
    /// Call this handler with these arguments.
    Call(LinuxCall, ShimArgs),
}

/// The handler serving `syscall_id`, if any.
pub fn linux_call_of(syscall_id: usize) -> (r: Option<LinuxCall>)
    ensures
        r matches Some(c) ==> handles(c, syscall_id),
        forall|c: LinuxCall| handles(c, syscall_id) ==> r == Some(c),
{
    match syscall_id {
        41 => Some(LinuxCall::Socket),
        42 => Some(LinuxCall::Connect),
        49 => Some(LinuxCall::Bind),
        50 => Some(LinuxCall::Listen),
        288 => Some(LinuxCall::Accept),
        43 => Some(LinuxCall::Accept),
        44 => Some(LinuxCall::Sendto),
        45 => Some(LinuxCall::Recvfrom),
        48 => Some(LinuxCall::Shutdown),
        51 => Some(LinuxCall::Getsockname),
        52 => Some(LinuxCall::Getpeername),
        54 => Some(LinuxCall::Setsockopt),
        55 => Some(LinuxCall::Getsockopt),
        53 => Some(LinuxCall::Socketpair),
        24 => Some(LinuxCall::SchedYield),
        60 => Some(LinuxCall::Exit),
        231 => Some(LinuxCall::Exit),
        0 => Some(LinuxCall::Read),
        1 => Some(LinuxCall::Write),
        3 => Some(LinuxCall::Close),
        8 => Some(LinuxCall::Lseek),
        39 => Some(LinuxCall::Getpid),
        110 => Some(LinuxCall::Getppid),
        186 => Some(LinuxCall::Gettid),
        218 => Some(LinuxCall::SetTidAddress),
        158 => Some(LinuxCall::ArchPrctl),
        202 => Some(LinuxCall::Futex),
        234 => Some(LinuxCall::Tgkill),
        62 => Some(LinuxCall::Kill),
        228 => Some(LinuxCall::ClockGettime),
        230 => Some(LinuxCall::ClockNanosleep),
        35 => Some(LinuxCall::ClockNanosleep),
        9 => Some(LinuxCall::Mmap),
        10 => Some(LinuxCall::Mprotect),
        11 => Some(LinuxCall::Munmap),
        13 => Some(LinuxCall::RtSigaction),
        14 => Some(LinuxCall::RtSigprocmask),
        16 => Some(LinuxCall::Ioctl),
        46 => Some(LinuxCall::Sendmsg),
        47 => Some(LinuxCall::Recvmsg),
        56 => Some(LinuxCall::Clone),
        435 => Some(LinuxCall::Clone3),
        57 => Some(LinuxCall::Fork),
        58 => Some(LinuxCall::Fork),
        59 => Some(LinuxCall::Execve),
        322 => Some(LinuxCall::Execveat),
        257 => Some(LinuxCall::Openat),
        437 => Some(LinuxCall::Openat2),
        258 => Some(LinuxCall::Mkdirat),
        263 => Some(LinuxCall::Unlinkat),
        265 => Some(LinuxCall::Linkat),
        266 => Some(LinuxCall::Symlinkat),
        264 => Some(LinuxCall::Renameat),
        316 => Some(LinuxCall::Renameat2),
        267 => Some(LinuxCall::Readlinkat),
        5 => Some(LinuxCall::Fstat),
        262 => Some(LinuxCall::Newfstatat),
        332 => Some(LinuxCall::Statx),
        90 => Some(LinuxCall::Chmod),
        91 => Some(LinuxCall::Fchmod),
        92 => Some(LinuxCall::Chown),
        93 => Some(LinuxCall::Fchown),
        260 => Some(LinuxCall::Fchownat),
        268 => Some(LinuxCall::Fchmodat),
        137 => Some(LinuxCall::Statfs),
        138 => Some(LinuxCall::Fstatfs),
        293 => Some(LinuxCall::Pipe),
        22 => Some(LinuxCall::Pipe),
        32 => Some(LinuxCall::Dup),
        33 => Some(LinuxCall::Dup2),
        292 => Some(LinuxCall::Dup3),
        72 => Some(LinuxCall::Fcntl),
        217 => Some(LinuxCall::Getdents64),
        79 => Some(LinuxCall::Getcwd),
        63 => Some(LinuxCall::Uname),
        102 => Some(LinuxCall::Getuid),
        104 => Some(LinuxCall::Getgid),
        107 => Some(LinuxCall::Geteuid),
        108 => Some(LinuxCall::Getegid),
        111 => Some(LinuxCall::Getpgrp),
        121 => Some(LinuxCall::Getpgid),
        109 => Some(LinuxCall::Setpgid),
        112 => Some(LinuxCall::Setsid),
        97 => Some(LinuxCall::Getrlimit),
        160 => Some(LinuxCall::Setrlimit),
        302 => Some(LinuxCall::Prlimit64),
        61 => Some(LinuxCall::Wait4),
        247 => Some(LinuxCall::Waitid),
        28 => Some(LinuxCall::Madvise),
        149 => Some(LinuxCall::Mlock),
        150 => Some(LinuxCall::Munlock),
        151 => Some(LinuxCall::Mlockall),
        152 => Some(LinuxCall::Munlockall),
        291 => Some(LinuxCall::EpollCreate1),
        233 => Some(LinuxCall::EpollCtl),
        281 => Some(LinuxCall::EpollPwait),
        232 => Some(LinuxCall::EpollPwait),
        213 => Some(LinuxCall::EpollCreate),
        7 => Some(LinuxCall::Poll),
        271 => Some(LinuxCall::Ppoll),
        23 => Some(LinuxCall::Select),
        270 => Some(LinuxCall::Pselect6),
        284 => Some(LinuxCall::Eventfd),
        290 => Some(LinuxCall::Eventfd2),
        283 => Some(LinuxCall::TimerfdCreate),
        286 => Some(LinuxCall::TimerfdSettime),
        287 => Some(LinuxCall::TimerfdGettime),
        282 => Some(LinuxCall::Signalfd),
        289 => Some(LinuxCall::Signalfd4),
        253 => Some(LinuxCall::InotifyInit),
        294 => Some(LinuxCall::InotifyInit1),
        254 => Some(LinuxCall::InotifyAddWatch),
        255 => Some(LinuxCall::InotifyRmWatch),
        319 => Some(LinuxCall::MemfdCreate),
        74 => Some(LinuxCall::Fsync),
        75 => Some(LinuxCall::Fdatasync),
        162 => Some(LinuxCall::Sync),
        306 => Some(LinuxCall::Syncfs),
        77 => Some(LinuxCall::Ftruncate),
        261 => Some(LinuxCall::Futimesat),
        280 => Some(LinuxCall::Utimensat),
        273 => Some(LinuxCall::SetRobustList),
        274 => Some(LinuxCall::GetRobustList),
        15 => Some(LinuxCall::RtSigreturn),
        131 => Some(LinuxCall::Sigaltstack),
        127 => Some(LinuxCall::RtSigpending),
        96 => Some(LinuxCall::Gettimeofday),
        201 => Some(LinuxCall::Time),
        95 => Some(LinuxCall::Umask),
        21 => Some(LinuxCall::Access),
        269 => Some(LinuxCall::Faccessat),
        439 => Some(LinuxCall::Faccessat2),
        309 => Some(LinuxCall::Getcpu),
        157 => Some(LinuxCall::Prctl),
        145 => Some(LinuxCall::SchedGetscheduler),
        144 => Some(LinuxCall::SchedSetscheduler),
        143 => Some(LinuxCall::SchedGetparam),
        142 => Some(LinuxCall::SchedSetparam),
        204 => Some(LinuxCall::SchedGetaffinity),
        203 => Some(LinuxCall::SchedSetaffinity),
        146 => Some(LinuxCall::SchedGetPriorityMax),
        147 => Some(LinuxCall::SchedGetPriorityMin),
        272 => Some(LinuxCall::Unshare),
        308 => Some(LinuxCall::Setns),
        99 => Some(LinuxCall::Sysinfo),
        324 => Some(LinuxCall::Membarrier),
        318 => Some(LinuxCall::Getrandom),
        334 => Some(LinuxCall::Rseq),
        321 => Some(LinuxCall::Bpf),
        425 => Some(LinuxCall::IoUringSetup),
        426 => Some(LinuxCall::IoUringEnter),
        427 => Some(LinuxCall::IoUringRegister),
        444 => Some(LinuxCall::LandlockCreateRuleset),
        445 => Some(LinuxCall::LandlockAddRule),
        446 => Some(LinuxCall::LandlockRestrictSelf),
        300 => Some(LinuxCall::FanotifyInit),
        301 => Some(LinuxCall::FanotifyMark),
        449 => Some(LinuxCall::FutexWaitv),
        436 => Some(LinuxCall::CloseRange),
        434 => Some(LinuxCall::PidfdOpen),
        438 => Some(LinuxCall::PidfdGetfd),
        424 => Some(LinuxCall::PidfdSendSignal),
        25 => Some(LinuxCall::Mremap),
        441 => Some(LinuxCall::EpollPwait2),
        _ => None,
    }
}

fn adapt_args(syscall_id: usize, a: ShimArgs) -> (r: ShimArgs)
    ensures
        r == shim_call_args(syscall_id, a),
{
    if syscall_id == sysno::NANOSLEEP {
        ShimArgs { a1: 0, a2: 0, a3: a.a1, a4: a.a2, a5: 0, a6: 0 }
    } else if syscall_id == sysno::PIPE {
        ShimArgs { a2: 0, ..a }
    } else if syscall_id == sysno::EPOLL_WAIT {
        ShimArgs { a5: 0, a6: 0, ..a }
    } else if syscall_id == sysno::ACCEPT {
        ShimArgs { a4: 0, ..a }
    } else {
        a
    }
}

/// Routes a Linux syscall: `brk` reports the requested break back; a
/// number some handler serves goes to that handler with its arguments;
/// any other is answered as unknown.
pub fn linux_shim_route(syscall_id: usize, args: ShimArgs) -> (r: ShimRoute)
    ensures
        syscall_id == sysno::BRK ==> r == ShimRoute::Return(args.a1),
        forall|c: LinuxCall| #[trigger]
            handles(c, syscall_id) ==> r == ShimRoute::Call(c, shim_call_args(syscall_id, args)),
        syscall_id != sysno::BRK && (forall|c: LinuxCall| !#[trigger] handles(c, syscall_id)) ==> r
            == ShimRoute::Return(linux_unknown_answer(syscall_id)),
{
    if syscall_id == sysno::BRK {
        return ShimRoute::Return(args.a1);
    }
    match linux_call_of(syscall_id) {
        Some(c) => ShimRoute::Call(c, adapt_args(syscall_id, args)),
        None => ShimRoute::Return(linux_unknown_syscall_errno(syscall_id)),
    }
}

} // verus!
