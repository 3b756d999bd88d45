use vstd::prelude::*;

use crate::consts::{STDERR_FD, STDOUT_FD};
use crate::errno::{errno_word, linux_errno, EACCES, EAGAIN, EFAULT, EINVAL, ENOSYS, EPERM};
use crate::ipc_control::FUTEX_WAIT_VALUE_MISMATCH;
use crate::stats_api::SyscallCounters;
use crate::syscall_dispatch::{bump, bumped};
use crate::user_memory::{
    usize_words_bytes, UserMemory, SYSCALL_ERR_INVALID_ARG, SYSCALL_ERR_PERMISSION_DENIED,
    SYSCALL_ERR_USER_ACCESS_DENIED,
};

verus! {

/// `arch_prctl` code: set the FS base.
pub const ARCH_SET_FS: usize = 0x1002;

/// `arch_prctl` code: read the FS base.
pub const ARCH_GET_FS: usize = 0x1003;

/// The command bits of a futex operation.
pub const LINUX_FUTEX_CMD_MASK: usize = 0x7f;

/// Linux syscall numbers of the privileged kernel-control calls.
pub const LINUX_NR_PTRACE: usize = 101;

pub const LINUX_NR_MOUNT: usize = 165;

pub const LINUX_NR_UMOUNT2: usize = 166;

pub const LINUX_NR_SWAPON: usize = 167;

pub const LINUX_NR_SWAPOFF: usize = 168;

pub const LINUX_NR_REBOOT: usize = 169;

pub const LINUX_NR_INIT_MODULE: usize = 175;

pub const LINUX_NR_DELETE_MODULE: usize = 176;

pub const LINUX_NR_KEXEC_LOAD: usize = 246;

pub const LINUX_NR_FINIT_MODULE: usize = 313;

pub const LINUX_NR_KEXEC_FILE_LOAD: usize = 320;

pub const LINUX_NR_MOVE_MOUNT: usize = 429;

pub const LINUX_NR_FSMOUNT: usize = 432;

pub const LINUX_NR_MOUNT_SETATTR: usize = 442;

/// Standard output and standard error.
pub fn is_stdio_fd(fd: usize) -> (r: bool)
    ensures
        r == (fd == STDOUT_FD || fd == STDERR_FD),
{
    fd == STDOUT_FD || fd == STDERR_FD
}

/// Whether a syscall number is one of the privileged kernel-control calls.
pub open spec fn is_privileged_syscall(id: usize) -> bool {
    id == LINUX_NR_PTRACE || id == LINUX_NR_MOUNT || id == LINUX_NR_UMOUNT2 || id == LINUX_NR_SWAPON
        || id == LINUX_NR_SWAPOFF || id == LINUX_NR_REBOOT || id == LINUX_NR_INIT_MODULE || id
        == LINUX_NR_DELETE_MODULE || id == LINUX_NR_KEXEC_LOAD || id == LINUX_NR_FINIT_MODULE || id
        == LINUX_NR_KEXEC_FILE_LOAD || id == LINUX_NR_MOVE_MOUNT || id == LINUX_NR_FSMOUNT || id
        == LINUX_NR_MOUNT_SETATTR
}

/// The answer to a Linux syscall the shim does not implement: privileged
/// kernel-control calls look permission-gated (`EPERM`), the rest missing
/// (`ENOSYS`).
pub fn linux_unknown_syscall_errno(syscall_id: usize) -> (r: usize)
    ensures
        is_privileged_syscall(syscall_id) ==> r == errno_word(EPERM),
        !is_privileged_syscall(syscall_id) ==> r == errno_word(ENOSYS),
{
    let privileged = syscall_id == LINUX_NR_PTRACE || syscall_id == LINUX_NR_MOUNT || syscall_id
        == LINUX_NR_UMOUNT2 || syscall_id == LINUX_NR_SWAPON || syscall_id == LINUX_NR_SWAPOFF
        || syscall_id == LINUX_NR_REBOOT || syscall_id == LINUX_NR_INIT_MODULE || syscall_id
        == LINUX_NR_DELETE_MODULE || syscall_id == LINUX_NR_KEXEC_LOAD || syscall_id
        == LINUX_NR_FINIT_MODULE || syscall_id == LINUX_NR_KEXEC_FILE_LOAD || syscall_id
        == LINUX_NR_MOVE_MOUNT || syscall_id == LINUX_NR_FSMOUNT || syscall_id
        == LINUX_NR_MOUNT_SETATTR;
    if privileged {
        linux_errno(EPERM)
    } else {
        linux_errno(ENOSYS)
    }
}

/// `arch_prctl` for the FS base.  `set_tls_ret` is what setting the base
/// returned (asked only for `ARCH_SET_FS`); `current_tls` is the base
/// `ARCH_GET_FS` reports, stored as one aligned word at `addr`.
pub fn sys_linux_arch_prctl(
    mem: &mut UserMemory,
    code: usize,
    addr: usize,
    current_tls: usize,
    set_tls_ret: usize,
) -> (r: usize)
    ensures
        final(mem).base == old(mem).base,
        code == ARCH_SET_FS ==> *final(mem) == *old(mem) && r == (if set_tls_ret == 0 {
            0
        } else {
            errno_word(EINVAL)
        }),
        code == ARCH_GET_FS && addr % 8 == 0 && old(mem).range_ok(addr as int, 8) ==> r == 0 && final(mem).bytes@ == old(mem).stored(addr as int, usize_words_bytes(seq![current_tls])),
        code == ARCH_GET_FS && !(addr % 8 == 0 && old(mem).range_ok(addr as int, 8)) ==> r
            == errno_word(EACCES) && final(mem).bytes@ == old(mem).bytes@,
        code != ARCH_SET_FS && code != ARCH_GET_FS ==> r == errno_word(EINVAL) && *final(mem) == *old(mem),
{
    if code == ARCH_SET_FS {
        if set_tls_ret == 0 {
            0
        } else {
            linux_errno(EINVAL)
        }
    } else if code == ARCH_GET_FS {
        let mut one: Vec<usize> = Vec::new();
        one.push(current_tls);
        assert(one@ =~= seq![current_tls]);
        match mem.write_words(addr, 8, one.as_slice()) {
            Ok(()) => 0,
            Err(_) => linux_errno(EACCES),
        }
    } else {
        linux_errno(EINVAL)
    }
}

/// The Linux value of what the native futex wait returned.
pub open spec fn futex_wait_errno(inner: usize) -> usize {
    if inner == 0 {
        0
    } else if inner == FUTEX_WAIT_VALUE_MISMATCH {
        errno_word(EAGAIN)
    } else if inner == SYSCALL_ERR_USER_ACCESS_DENIED {
        errno_word(EFAULT)
    } else if inner == SYSCALL_ERR_PERMISSION_DENIED {
        errno_word(crate::errno::EPERM)
    } else {
        errno_word(EINVAL)
    }
}

/// The Linux value of what the native futex wake returned.
pub open spec fn futex_wake_errno(inner: usize) -> usize {
    if inner == SYSCALL_ERR_USER_ACCESS_DENIED {
        errno_word(EFAULT)
    } else if inner == SYSCALL_ERR_PERMISSION_DENIED {
        errno_word(crate::errno::EPERM)
    } else if inner == SYSCALL_ERR_INVALID_ARG {
        errno_word(EINVAL)
    } else {
        inner
    }
}

/// Linux `futex`: `FUTEX_WAIT` and `FUTEX_WAKE` go to the native futex
/// calls (counted as such), whose return value `inner` is mapped to a Linux result;
/// other commands are `EINVAL` and count nothing.
pub fn sys_linux_futex(counters: &mut SyscallCounters, op: usize, inner: usize) -> (r: usize)
    ensures
        op & LINUX_FUTEX_CMD_MASK == 0 ==> r == futex_wait_errno(inner) && *final(counters)
            == (SyscallCounters { futex_wait_calls: bump(old(counters).futex_wait_calls), ..*old(counters) }),
        op & LINUX_FUTEX_CMD_MASK == 1 ==> r == futex_wake_errno(inner) && *final(counters)
            == (SyscallCounters { futex_wake_calls: bump(old(counters).futex_wake_calls), ..*old(counters) }),
        op & LINUX_FUTEX_CMD_MASK > 1 ==> r == errno_word(EINVAL) && *final(counters) == *old(counters),
{
    let cmd = op & LINUX_FUTEX_CMD_MASK;
    if cmd == 0 {
        counters.futex_wait_calls = bumped(counters.futex_wait_calls);
    } else if cmd == 1 {
        counters.futex_wake_calls = bumped(counters.futex_wake_calls);
    }
    if cmd == 0 {
        if inner == 0 {
            0
        } else if inner == FUTEX_WAIT_VALUE_MISMATCH {
            linux_errno(EAGAIN)
        } else if inner == SYSCALL_ERR_USER_ACCESS_DENIED {
            linux_errno(EFAULT)
        } else if inner == SYSCALL_ERR_PERMISSION_DENIED {
            linux_errno(crate::errno::EPERM)
        } else {
            linux_errno(EINVAL)
        }
    } else if cmd == 1 {
        if inner == SYSCALL_ERR_USER_ACCESS_DENIED {
            linux_errno(EFAULT)
        } else if inner == SYSCALL_ERR_PERMISSION_DENIED {
            linux_errno(crate::errno::EPERM)
        } else if inner == SYSCALL_ERR_INVALID_ARG {
            linux_errno(EINVAL)
        } else {
            inner
        }
    } else {
        linux_errno(EINVAL)
    }
}

} // verus!
