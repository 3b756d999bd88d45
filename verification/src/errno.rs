use vstd::prelude::*;

verus! {

pub const EPERM: i32 = 1;
pub const ENOENT: i32 = 2;
pub const ESRCH: i32 = 3;
pub const EBADF: i32 = 9;
pub const EAGAIN: i32 = 11;
pub const ENOMEM: i32 = 12;
pub const EACCES: i32 = 13;
pub const EFAULT: i32 = 14;
pub const EXDEV: i32 = 18;
pub const EINVAL: i32 = 22;
pub const ENOTTY: i32 = 25;
pub const ERANGE: i32 = 34;
pub const ENOSYS: i32 = 38;
pub const ENOEXEC: i32 = 8;
pub const E2BIG: i32 = 7;
pub const EOVERFLOW: i32 = 75;
pub const EAFNOSUPPORT: i32 = 97;

/// The value of the return register for a Linux error: the two's complement
/// negation of `errno` in a machine word.
pub open spec fn errno_ret(errno: int) -> int {
    if errno > 0 {
        usize::MAX as int + 1 - errno
    } else {
        -errno
    }
}

/// `errno_ret` as a machine word.
pub open spec fn errno_word(errno: i32) -> usize {
    errno_ret(errno as int) as usize
}

/// Encodes `errno` as the negated value that the Linux ABI returns.
pub fn linux_errno(errno: i32) -> (r: usize)
    ensures
        r as int == errno_ret(errno as int),
        r == errno_word(errno),
{
    if errno > 0 {
        usize::MAX - (errno as usize) + 1
    } else if errno == 0 {
        0
    } else {
        (-(errno as i64)) as usize
    }
}

} // verus!
