use vstd::prelude::*;

verus! {

pub const READ: usize = 0;
pub const WRITE: usize = 1;
pub const CLOSE: usize = 3;
pub const FSTAT: usize = 5;
pub const POLL: usize = 7;
pub const LSEEK: usize = 8;
pub const MMAP: usize = 9;
pub const MPROTECT: usize = 10;
pub const MUNMAP: usize = 11;
pub const BRK: usize = 12;
pub const RT_SIGACTION: usize = 13;
pub const RT_SIGPROCMASK: usize = 14;
pub const RT_SIGRETURN: usize = 15;
pub const IOCTL: usize = 16;
pub const ACCESS: usize = 21;
pub const PIPE: usize = 22;
pub const SELECT: usize = 23;
pub const SCHED_YIELD: usize = 24;
pub const MREMAP: usize = 25;
pub const MADVISE: usize = 28;
pub const DUP: usize = 32;
pub const DUP2: usize = 33;
pub const NANOSLEEP: usize = 35;
pub const GETPID: usize = 39;
pub const SOCKET: usize = 41;
pub const CONNECT: usize = 42;
pub const ACCEPT: usize = 43;
pub const SENDTO: usize = 44;
pub const RECVFROM: usize = 45;
pub const SENDMSG: usize = 46;
pub const RECVMSG: usize = 47;
pub const SHUTDOWN: usize = 48;
pub const BIND: usize = 49;
pub const LISTEN: usize = 50;
pub const GETSOCKNAME: usize = 51;
pub const GETPEERNAME: usize = 52;
pub const SOCKETPAIR: usize = 53;
pub const SETSOCKOPT: usize = 54;
pub const GETSOCKOPT: usize = 55;
pub const CLONE: usize = 56;
pub const FORK: usize = 57;
pub const VFORK: usize = 58;
pub const EXECVE: usize = 59;
pub const EXIT: usize = 60;
pub const WAIT4: usize = 61;
pub const KILL: usize = 62;
pub const UNAME: usize = 63;
pub const FCNTL: usize = 72;
pub const FSYNC: usize = 74;
pub const FDATASYNC: usize = 75;
pub const FTRUNCATE: usize = 77;
pub const GETCWD: usize = 79;
pub const CHMOD: usize = 90;
pub const FCHMOD: usize = 91;
pub const CHOWN: usize = 92;
pub const FCHOWN: usize = 93;
pub const UMASK: usize = 95;
pub const GETTIMEOFDAY: usize = 96;
pub const GETRLIMIT: usize = 97;
pub const SYSINFO: usize = 99;
pub const GETUID: usize = 102;
pub const GETGID: usize = 104;
pub const GETEUID: usize = 107;
pub const GETEGID: usize = 108;
pub const SETPGID: usize = 109;
pub const GETPPID: usize = 110;
pub const GETPGRP: usize = 111;
pub const SETSID: usize = 112;
pub const GETPGID: usize = 121;
pub const RT_SIGPENDING: usize = 127;
pub const SIGALTSTACK: usize = 131;
pub const STATFS: usize = 137;
pub const FSTATFS: usize = 138;
pub const SCHED_SETPARAM: usize = 142;
pub const SCHED_GETPARAM: usize = 143;
pub const SCHED_SETSCHEDULER: usize = 144;
pub const SCHED_GETSCHEDULER: usize = 145;
pub const SCHED_GET_PRIORITY_MAX: usize = 146;
pub const SCHED_GET_PRIORITY_MIN: usize = 147;
pub const MLOCK: usize = 149;
pub const MUNLOCK: usize = 150;
pub const MLOCKALL: usize = 151;
pub const MUNLOCKALL: usize = 152;
pub const PRCTL: usize = 157;
pub const ARCH_PRCTL: usize = 158;
pub const SETRLIMIT: usize = 160;
pub const SYNC: usize = 162;
pub const GETTID: usize = 186;
pub const TIME: usize = 201;
pub const FUTEX: usize = 202;
pub const SCHED_SETAFFINITY: usize = 203;
pub const SCHED_GETAFFINITY: usize = 204;
pub const EPOLL_CREATE: usize = 213;
pub const GETDENTS64: usize = 217;
pub const SET_TID_ADDRESS: usize = 218;
pub const CLOCK_GETTIME: usize = 228;
pub const CLOCK_NANOSLEEP: usize = 230;
pub const EXIT_GROUP: usize = 231;
pub const EPOLL_WAIT: usize = 232;
pub const EPOLL_CTL: usize = 233;
pub const TGKILL: usize = 234;
pub const WAITID: usize = 247;
pub const INOTIFY_INIT: usize = 253;
pub const INOTIFY_ADD_WATCH: usize = 254;
pub const INOTIFY_RM_WATCH: usize = 255;
pub const OPENAT: usize = 257;
pub const MKDIRAT: usize = 258;
pub const FCHOWNAT: usize = 260;
pub const FUTIMESAT: usize = 261;
pub const NEWFSTATAT: usize = 262;
pub const UNLINKAT: usize = 263;
pub const RENAMEAT: usize = 264;
pub const LINKAT: usize = 265;
pub const SYMLINKAT: usize = 266;
pub const READLINKAT: usize = 267;
pub const FCHMODAT: usize = 268;
pub const FACCESSAT: usize = 269;
pub const PSELECT6: usize = 270;
pub const PPOLL: usize = 271;
pub const UNSHARE: usize = 272;
pub const SET_ROBUST_LIST: usize = 273;
pub const GET_ROBUST_LIST: usize = 274;
pub const UTIMENSAT: usize = 280;
pub const EPOLL_PWAIT: usize = 281;
pub const SIGNALFD: usize = 282;
pub const TIMERFD_CREATE: usize = 283;
pub const EVENTFD: usize = 284;
pub const TIMERFD_SETTIME: usize = 286;
pub const TIMERFD_GETTIME: usize = 287;
pub const ACCEPT4: usize = 288;
pub const SIGNALFD4: usize = 289;
pub const EVENTFD2: usize = 290;
pub const EPOLL_CREATE1: usize = 291;
pub const DUP3: usize = 292;
pub const PIPE2: usize = 293;
pub const INOTIFY_INIT1: usize = 294;
pub const FANOTIFY_INIT: usize = 300;
pub const FANOTIFY_MARK: usize = 301;
pub const PRLIMIT64: usize = 302;
pub const SYNCFS: usize = 306;
pub const SETNS: usize = 308;
pub const GETCPU: usize = 309;
pub const RENAMEAT2: usize = 316;
pub const GETRANDOM: usize = 318;
pub const MEMFD_CREATE: usize = 319;
pub const BPF: usize = 321;
pub const EXECVEAT: usize = 322;
pub const MEMBARRIER: usize = 324;
pub const STATX: usize = 332;
pub const RSEQ: usize = 334;
pub const PIDFD_SEND_SIGNAL: usize = 424;
pub const IO_URING_SETUP: usize = 425;
pub const IO_URING_ENTER: usize = 426;
pub const IO_URING_REGISTER: usize = 427;
pub const PIDFD_OPEN: usize = 434;
pub const CLONE3: usize = 435;
pub const CLOSE_RANGE: usize = 436;
pub const OPENAT2: usize = 437;
pub const PIDFD_GETFD: usize = 438;
pub const FACCESSAT2: usize = 439;
pub const EPOLL_PWAIT2: usize = 441;
pub const LANDLOCK_CREATE_RULESET: usize = 444;
pub const LANDLOCK_ADD_RULE: usize = 445;
pub const LANDLOCK_RESTRICT_SELF: usize = 446;
pub const FUTEX_WAITV: usize = 449;

} // verus!
