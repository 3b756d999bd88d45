use vstd::prelude::*;

use crate::errno::{errno_word, linux_errno, EFAULT, EINVAL, ENOSYS, ESRCH};
use crate::user_memory::{u32_from_le, u32_le_bytes, u64_from_le, UserMemory};
use crate::user_string::{
    c_string_compat_outcome, read_user_c_string_compat, string_from_utf8_lossy, string_result_view, utf8_lossy,
};
use vstd::utf8::{decode_utf8, encode_utf8, valid_utf8};

verus! {

/// Size of a `struct itimerspec`.
pub const ITIMERSPEC_BYTES: usize = 32;

/// `TFD_TIMER_ABSTIME`, the one `timerfd_settime` flag.
pub const TFD_TIMER_ABSTIME: usize = 0x1;

/// `TFD_CLOEXEC`.
pub const TFD_CLOEXEC: usize = 0x0008_0000;

/// `TFD_NONBLOCK`.
pub const TFD_NONBLOCK: usize = 0x0000_0800;

/// The highest clock `timerfd_create` accepts (`CLOCK_MONOTONIC`).
pub const CLOCK_MONOTONIC: usize = 1;

/// `IN_NONBLOCK | IN_CLOEXEC`.
pub const INOTIFY_INIT_FLAGS: usize = 0x0008_0800;

pub const MFD_CLOEXEC: usize = 0x1;

pub const MFD_ALLOW_SEALING: usize = 0x2;

pub const MFD_HUGETLB: usize = 0x4;

pub const MFD_NOEXEC_SEAL: usize = 0x8;

pub const MFD_EXEC: usize = 0x10;

/// The huge page size field of `memfd_create`'s flags.
pub const MFD_HUGE_MASK: usize = 0xfc00_0000;

/// The `membarrier` commands this kernel supports.
pub const MEMBARRIER_SUPPORTED: usize = 0x3f;

/// Loads a `u64` from user memory.
pub fn read_u64_from_user(mem: &UserMemory, ptr: usize) -> (r: Result<u64, usize>)
    ensures
        r is Ok <==> mem.range_ok(ptr as int, 8),
        r matches Ok(v) ==> v == u64_from_le(mem.bytes_at(ptr as int, 8)),
        r is Err ==> r == Err::<u64, usize>(errno_word(EFAULT)),
{
    match mem.read_u64(ptr) {
        Some(v) => Ok(v),
        None => Err(linux_errno(EFAULT)),
    }
}

/// Zero-fills the `struct itimerspec` at `ptr`; `0` or `EFAULT`.
pub fn write_zero_itimerspec(mem: &mut UserMemory, ptr: usize) -> (r: usize)
    ensures
        final(mem).base == old(mem).base,
        old(mem).range_ok(ptr as int, 32) ==> r == 0 && final(mem).bytes@ == old(mem).stored(
            ptr as int,
            Seq::new(32, |i: int| 0u8),
        ),
        !old(mem).range_ok(ptr as int, 32) ==> r == errno_word(EFAULT) && final(mem).bytes@ == old(mem).bytes@,
{
    let mut zero: Vec<u8> = Vec::new();
    let mut i: usize = 0;
    while i < ITIMERSPEC_BYTES
        invariant
            i <= 32,
            zero@ == Seq::new(i as nat, |k: int| 0u8),
        decreases 32 - i,
    {
        zero.push(0u8);
        i = i + 1;
    }
    if mem.write_bytes(ptr, zero.as_slice()) {
        0
    } else {
        linux_errno(EFAULT)
    }
}

/// Checks a `timerfd_create` call; on success tells whether the new
/// descriptor is to be made non-blocking.
pub fn sys_linux_timerfd_create(clockid: usize, flags: usize) -> (r: Result<bool, usize>)
    ensures
        flags & !(TFD_TIMER_ABSTIME | TFD_CLOEXEC | TFD_NONBLOCK) != 0 ==> r == Err::<bool, usize>(
            errno_word(EINVAL),
        ),
        flags & !(TFD_TIMER_ABSTIME | TFD_CLOEXEC | TFD_NONBLOCK) == 0 && clockid > CLOCK_MONOTONIC
            ==> r == Err::<bool, usize>(errno_word(EINVAL)),
        flags & !(TFD_TIMER_ABSTIME | TFD_CLOEXEC | TFD_NONBLOCK) == 0 && clockid <= CLOCK_MONOTONIC
            ==> r == Ok::<bool, usize>(flags & TFD_NONBLOCK != 0),
{
    let allowed_flags = TFD_TIMER_ABSTIME | TFD_CLOEXEC | TFD_NONBLOCK;
    if (flags & !allowed_flags) != 0 {
        return Err(linux_errno(EINVAL));
    }
    if clockid > CLOCK_MONOTONIC {
        return Err(linux_errno(EINVAL));
    }
    Ok((flags & TFD_NONBLOCK) != 0)
}

/// `timerfd_settime`: the new value must be readable; the old value, when
/// asked for, is reported as a disarmed timer.
pub fn sys_linux_timerfd_settime(
    mem: &mut UserMemory,
    fd: usize,
    flags: usize,
    new_value_ptr: usize,
    old_value_ptr: usize,
) -> (r: usize)
    ensures
        final(mem).base == old(mem).base,
        flags & !TFD_TIMER_ABSTIME != 0 ==> r == errno_word(EINVAL) && *final(mem) == *old(mem),
        flags & !TFD_TIMER_ABSTIME == 0 && (new_value_ptr == 0 || !old(mem).range_ok(
            new_value_ptr as int,
            32,
        )) ==> r == errno_word(EFAULT) && *final(mem) == *old(mem),
        flags & !TFD_TIMER_ABSTIME == 0 && new_value_ptr != 0 && old(mem).range_ok(
            new_value_ptr as int,
            32,
        ) && old_value_ptr == 0 ==> r == 0 && *final(mem) == *old(mem),
        flags & !TFD_TIMER_ABSTIME == 0 && new_value_ptr != 0 && old(mem).range_ok(
            new_value_ptr as int,
            32,
        ) && old_value_ptr != 0 ==> {
            &&& old(mem).range_ok(old_value_ptr as int, 32) ==> r == 0 && final(mem).bytes@ == old(mem).stored(old_value_ptr as int, Seq::new(32, |i: int| 0u8))
            &&& !old(mem).range_ok(old_value_ptr as int, 32) ==> r == errno_word(EFAULT) && final(mem).bytes@ == old(mem).bytes@
        },
{
    let _ = fd;
    if (flags & !TFD_TIMER_ABSTIME) != 0 {
        return linux_errno(EINVAL);
    }
    if new_value_ptr == 0 {
        return linux_errno(EFAULT);
    }
    if !mem.range_valid(new_value_ptr, ITIMERSPEC_BYTES) {
        return linux_errno(EFAULT);
    }
    if old_value_ptr != 0 {
        let rc = write_zero_itimerspec(mem, old_value_ptr);
        if rc != 0 {
            return rc;
        }
    }
    0
}

/// `timerfd_gettime`: reports a disarmed timer.
pub fn sys_linux_timerfd_gettime(mem: &mut UserMemory, fd: usize, curr_value_ptr: usize) -> (r: usize)
    ensures
        final(mem).base == old(mem).base,
        curr_value_ptr == 0 ==> r == errno_word(EFAULT) && *final(mem) == *old(mem),
        curr_value_ptr != 0 && old(mem).range_ok(curr_value_ptr as int, 32) ==> r == 0 && final(mem).bytes@ == old(mem).stored(curr_value_ptr as int, Seq::new(32, |i: int| 0u8)),
        curr_value_ptr != 0 && !old(mem).range_ok(curr_value_ptr as int, 32) ==> r == errno_word(
            EFAULT,
        ) && final(mem).bytes@ == old(mem).bytes@,
{
    let _ = fd;
    if curr_value_ptr == 0 {
        return linux_errno(EFAULT);
    }
    write_zero_itimerspec(mem, curr_value_ptr)
}

/// A `signalfd` call that passed the checks: the signal mask, the flags
/// and the descriptor to reconfigure (`None` creates a new one).
#[derive(Debug, Clone, Copy, PartialEq, Eq, Structural)]
pub struct SignalfdRequest {
    pub mask: u64,
    pub flags: i32,
    pub reconfigure: Option<u32>,
}

/// `signalfd4`: checks the mask size and reads the mask; a non-negative
/// descriptor is reconfigured, a negative one asks for a new descriptor.
pub fn sys_linux_signalfd4(mem: &UserMemory, fd: usize, mask_ptr: usize, sizemask: usize, flags: usize) -> (r:
    Result<SignalfdRequest, usize>)
    ensures
        sizemask != 8 ==> r == Err::<SignalfdRequest, usize>(errno_word(EINVAL)),
        sizemask == 8 && !mem.range_ok(mask_ptr as int, 8) ==> r == Err::<SignalfdRequest, usize>(
            errno_word(EFAULT),
        ),
        sizemask == 8 && mem.range_ok(mask_ptr as int, 8) ==> r == Ok::<SignalfdRequest, usize>(
            SignalfdRequest {
                mask: u64_from_le(mem.bytes_at(mask_ptr as int, 8)),
                flags: flags as i32,
                reconfigure: if fd as i32 >= 0 { Some(fd as i32 as u32) } else { None },
            },
        ),
{
    if sizemask != 8 {
        return Err(linux_errno(EINVAL));
    }
    let mask = match read_u64_from_user(mem, mask_ptr) {
        Ok(v) => v,
        Err(e) => return Err(e),
    };
    let raw_fd = fd as i32;
    let reconfigure = if raw_fd >= 0 {
        Some(raw_fd as u32)
    } else {
        None
    };
    Ok(SignalfdRequest { mask, flags: flags as i32, reconfigure })
}

/// `signalfd` is `signalfd4` without flags.
pub fn sys_linux_signalfd(mem: &UserMemory, fd: usize, mask_ptr: usize, sizemask: usize) -> (r: Result<
    SignalfdRequest,
    usize,
>)
    ensures
        sizemask != 8 ==> r == Err::<SignalfdRequest, usize>(errno_word(EINVAL)),
        sizemask == 8 && !mem.range_ok(mask_ptr as int, 8) ==> r == Err::<SignalfdRequest, usize>(
            errno_word(EFAULT),
        ),
        sizemask == 8 && mem.range_ok(mask_ptr as int, 8) ==> r == Ok::<SignalfdRequest, usize>(
            SignalfdRequest {
                mask: u64_from_le(mem.bytes_at(mask_ptr as int, 8)),
                flags: 0,
                reconfigure: if fd as i32 >= 0 { Some(fd as i32 as u32) } else { None },
            },
        ),
{
    sys_linux_signalfd4(mem, fd, mask_ptr, sizemask, 0)
}

/// `inotify_init1`: only `IN_NONBLOCK` and `IN_CLOEXEC` are accepted.
pub fn sys_linux_inotify_init1(flags: usize) -> (r: Result<i32, usize>)
    ensures
        flags & !INOTIFY_INIT_FLAGS != 0 ==> r == Err::<i32, usize>(errno_word(EINVAL)),
        flags & !INOTIFY_INIT_FLAGS == 0 ==> r == Ok::<i32, usize>(flags as i32),
{
    if (flags & !INOTIFY_INIT_FLAGS) != 0 {
        return Err(linux_errno(EINVAL));
    }
    Ok(flags as i32)
}

/// `inotify_init` is `inotify_init1` without flags.
pub fn sys_linux_inotify_init() -> (r: Result<i32, usize>)
    ensures
        r == Ok::<i32, usize>(0),
{
    let r = sys_linux_inotify_init1(0);
    assert(0usize & !INOTIFY_INIT_FLAGS == 0) by (bit_vector);
    r
}

/// `inotify_add_watch`: reads the path (of fewer than `max_path_len`
/// bytes) to watch.
pub fn sys_linux_inotify_add_watch(mem: &UserMemory, path_ptr: usize, max_path_len: usize) -> (r: Result<
    String,
    usize,
>)
    ensures
        string_result_view(r) == c_string_compat_outcome(*mem, path_ptr, max_path_len),
{
    read_user_c_string_compat(mem, path_ptr, max_path_len)
}

/// The flags `memfd_create` knows.
pub open spec fn memfd_known_flags() -> usize {
    MFD_CLOEXEC | MFD_ALLOW_SEALING | MFD_HUGETLB | MFD_NOEXEC_SEAL | MFD_EXEC | MFD_HUGE_MASK
}

/// `memfd_create`: checks the flags and gives the name of the new file:
/// the caller's (under 255 bytes) or `memfd` when there is none or it is
/// empty.
pub fn sys_linux_memfd_create(mem: &UserMemory, name_ptr: usize, flags: usize) -> (r: Result<String, usize>)
    ensures
        flags & !memfd_known_flags() != 0 ==> r == Err::<String, usize>(errno_word(EINVAL)),
        flags & !memfd_known_flags() == 0 && flags & MFD_EXEC != 0 && flags & MFD_NOEXEC_SEAL != 0
            ==> r == Err::<String, usize>(errno_word(EINVAL)),
        flags & !memfd_known_flags() == 0 && !(flags & MFD_EXEC != 0 && flags & MFD_NOEXEC_SEAL != 0)
            ==> {
            &&& name_ptr == 0 ==> (r matches Ok(s) && s@ == "memfd"@)
            &&& name_ptr != 0 ==> match c_string_compat_outcome(*mem, name_ptr, 255) {
                Err(e) => r == Err::<String, usize>(e),
                Ok(chars) => if chars.len() == 0 {
                    r matches Ok(s) && s@ == "memfd"@
                } else {
                    r matches Ok(s) && s@ == chars
                },
            }
        },
{
    let known_flags = MFD_CLOEXEC | MFD_ALLOW_SEALING | MFD_HUGETLB | MFD_NOEXEC_SEAL | MFD_EXEC
        | MFD_HUGE_MASK;
    if (flags & !known_flags) != 0 {
        return Err(linux_errno(EINVAL));
    }
    if (flags & MFD_EXEC) != 0 && (flags & MFD_NOEXEC_SEAL) != 0 {
        return Err(linux_errno(EINVAL));
    }
    if name_ptr == 0 {
        return Ok("memfd".to_owned());
    }
    match read_user_c_string_compat(mem, name_ptr, 255) {
        Ok(v) => {
            if v.as_str().is_empty() {
                Ok("memfd".to_owned())
            } else {
                Ok(v)
            }
        },
        Err(e) => Err(e),
    }
}

/// `membarrier`: the query command lists the supported commands; a
/// supported command succeeds at once.
pub fn sys_linux_membarrier(cmd: usize, flags: usize, cpu_id: usize) -> (r: usize)
    ensures
        cmd == 0 ==> r == MEMBARRIER_SUPPORTED,
        cmd != 0 && cmd & MEMBARRIER_SUPPORTED != 0 ==> r == 0,
        cmd != 0 && cmd & MEMBARRIER_SUPPORTED == 0 ==> r == errno_word(EINVAL),
{
    let _ = (flags, cpu_id);
    if cmd == 0 {
        return MEMBARRIER_SUPPORTED;
    }
    if (cmd & MEMBARRIER_SUPPORTED) != 0 {
        return 0;
    }
    linux_errno(EINVAL)
}

/// `rseq`: accepts a registration of at least 32 accessible bytes.
pub fn sys_linux_rseq(mem: &UserMemory, rseq_ptr: usize, rseq_len: usize, flags: usize, sig: usize) -> (r:
    usize)
    ensures
        flags != 0 ==> r == errno_word(EINVAL),
        flags == 0 && (rseq_ptr == 0 || rseq_len < 32) ==> r == errno_word(EINVAL),
        flags == 0 && rseq_ptr != 0 && rseq_len >= 32 && !mem.range_ok(rseq_ptr as int, rseq_len as int)
            ==> r == errno_word(EFAULT),
        flags == 0 && rseq_ptr != 0 && rseq_len >= 32 && mem.range_ok(rseq_ptr as int, rseq_len as int)
            ==> r == 0,
{
    let _ = sig;
    if flags != 0 {
        return linux_errno(EINVAL);
    }
    if rseq_ptr == 0 || rseq_len < 32 {
        return linux_errno(EINVAL);
    }
    if !mem.range_valid(rseq_ptr, rseq_len) {
        return linux_errno(EFAULT);
    }
    0
}

pub const PR_SET_PDEATHSIG: usize = 1;

pub const PR_GET_PDEATHSIG: usize = 2;

pub const PR_GET_DUMPABLE: usize = 3;

pub const PR_SET_DUMPABLE: usize = 4;

pub const PR_GET_KEEPCAPS: usize = 7;

pub const PR_SET_KEEPCAPS: usize = 8;

pub const PR_SET_NAME: usize = 15;

pub const PR_GET_NAME: usize = 16;

pub const PR_GET_SECCOMP: usize = 21;

pub const PR_SET_SECCOMP: usize = 22;

pub const PR_CAPBSET_READ: usize = 23;

pub const PR_CAPBSET_DROP: usize = 24;

pub const PR_SET_NO_NEW_PRIVS: usize = 38;

pub const PR_GET_NO_NEW_PRIVS: usize = 39;

/// The bytes of a task name up to the first NUL of the 16-byte field.
pub open spec fn name_field_prefix(field: Seq<u8>) -> Seq<u8>
    decreases field.len(),
{
    if field.len() == 0 {
        field
    } else if name_field_prefix(field.drop_last()).len() < field.len() - 1 {
        name_field_prefix(field.drop_last())
    } else if field.last() == 0 {
        field.drop_last()
    } else {
        field
    }
}

/// The 16-byte field `PR_GET_NAME` writes: the first 15 bytes of the name
/// at most, then zeros.
pub open spec fn name_field_bytes(name: Seq<u8>) -> Seq<u8> {
    let n = if name.len() < 15 { name.len() } else { 15 };
    name.take(n as int) + Seq::new((16 - n) as nat, |i: int| 0u8)
}

/// The answer of `prctl` for the options that need no state.
pub open spec fn prctl_fixed_answer(option: usize, arg2: usize) -> usize {
    if option == PR_SET_PDEATHSIG || option == PR_SET_DUMPABLE || option == PR_SET_KEEPCAPS
        || option == PR_GET_SECCOMP || option == PR_CAPBSET_READ || option == PR_CAPBSET_DROP
        || option == PR_SET_NO_NEW_PRIVS || option == PR_GET_NO_NEW_PRIVS {
        0
    } else if option == PR_GET_DUMPABLE || option == PR_GET_KEEPCAPS {
        1
    } else if option == PR_SET_SECCOMP {
        if arg2 <= 2 {
            0
        } else {
            errno_word(EINVAL)
        }
    } else {
        errno_word(EINVAL)
    }
}

/// Copies the 16-byte name field from user memory.
fn read_name_field(mem: &UserMemory, ptr: usize) -> (r: Option<Vec<u8>>)
    ensures
        r is Some <==> mem.range_ok(ptr as int, 16),
        r matches Some(v) ==> v@ == mem.bytes_at(ptr as int, 16),
{
    mem.read_bytes(ptr, 16)
}

/// The bytes of `field` before its first NUL.
fn field_before_nul(field: &Vec<u8>) -> (r: Vec<u8>)
    ensures
        r@ == name_field_prefix(field@),
{
    let mut out: Vec<u8> = Vec::new();
    let mut i: usize = 0;
    let mut stopped = false;
    while i < field.len()
        invariant
            i <= field@.len(),
            !stopped ==> out@ == field@.take(i as int) && name_field_prefix(field@.take(i as int))
                == field@.take(i as int),
            stopped ==> out@ == name_field_prefix(field@.take(i as int)),
            stopped ==> out@.len() < i,
        decreases field@.len() - i,
    {
        proof {
            assert(field@.take(i + 1).drop_last() =~= field@.take(i as int));
            assert(field@.take(i + 1).last() == field@[i as int]);
        }
        if !stopped {
            if field[i] == 0 {
                stopped = true;
            } else {
                out.push(field[i]);
            }
        }
        i = i + 1;
    }
    assert(field@.take(field@.len() as int) =~= field@);
    out
}

/// `prctl` for the current task, whose name is `task_name` (`None` when
/// there is no current task).
pub fn sys_linux_prctl(mem: &mut UserMemory, task_name: &mut Option<String>, option: usize, arg2: usize) -> (r:
    usize)
    ensures
        final(mem).base == old(mem).base,
        option != PR_SET_NAME && option != PR_GET_NAME && option != PR_GET_PDEATHSIG ==> r
            == prctl_fixed_answer(option, arg2) && *final(mem) == *old(mem) && *final(task_name)
            == *old(task_name),
        option == PR_SET_NAME ==> *final(mem) == *old(mem),
        option == PR_SET_NAME && (arg2 == 0) ==> r == errno_word(EINVAL) && *final(task_name) == *old(task_name),
        option == PR_SET_NAME && arg2 != 0 && !old(mem).range_ok(arg2 as int, 16) ==> r == errno_word(
            EFAULT,
        ) && *final(task_name) == *old(task_name),
        option == PR_SET_NAME && arg2 != 0 && old(mem).range_ok(arg2 as int, 16) && (*old(task_name))
            is None ==> r == errno_word(ESRCH) && *final(task_name) == *old(task_name),
        option == PR_SET_NAME && arg2 != 0 && old(mem).range_ok(arg2 as int, 16) && (*old(task_name))
            is Some ==> r == 0 && (*final(task_name)) is Some && final(task_name).unwrap()@ == utf8_lossy(
            name_field_prefix(old(mem).bytes_at(arg2 as int, 16)),
        ) && (valid_utf8(
            name_field_prefix(old(mem).bytes_at(arg2 as int, 16)),
        ) ==> final(task_name).unwrap()@ == decode_utf8(
            name_field_prefix(old(mem).bytes_at(arg2 as int, 16)),
        )),
        option == PR_GET_NAME ==> *final(task_name) == *old(task_name),
        option == PR_GET_NAME && arg2 == 0 ==> r == errno_word(EINVAL) && *final(mem) == *old(mem),
        option == PR_GET_NAME && arg2 != 0 ==> {
            let name = match *old(task_name) {
                Some(s) => encode_utf8(s@),
                None => encode_utf8("task"@),
            };
            &&& old(mem).range_ok(arg2 as int, 16) ==> r == 0 && final(mem).bytes@ == old(mem).stored(
                arg2 as int,
                name_field_bytes(name),
            )
            &&& !old(mem).range_ok(arg2 as int, 16) ==> r == errno_word(EFAULT) && final(mem).bytes@
                == old(mem).bytes@
        },
        option == PR_GET_PDEATHSIG ==> *final(task_name) == *old(task_name),
        option == PR_GET_PDEATHSIG && arg2 == 0 ==> r == 0 && *final(mem) == *old(mem),
        option == PR_GET_PDEATHSIG && arg2 != 0 && old(mem).range_ok(arg2 as int, 4) ==> r == 0
            && final(mem).bytes@ == old(mem).stored(arg2 as int, u32_le_bytes(0)),
        option == PR_GET_PDEATHSIG && arg2 != 0 && !old(mem).range_ok(arg2 as int, 4) ==> r
            == errno_word(EFAULT) && final(mem).bytes@ == old(mem).bytes@,
{
    if option == PR_SET_NAME {
        if arg2 == 0 {
            return linux_errno(EINVAL);
        }
        let field = match read_name_field(mem, arg2) {
            Some(v) => v,
            None => return linux_errno(EFAULT),
        };
        let prefix = field_before_nul(&field);
        let new_name = string_from_utf8_lossy(prefix.as_slice());
        match task_name {
            Some(_) => {
                *task_name = Some(new_name);
                0
            },
            None => linux_errno(ESRCH),
        }
    } else if option == PR_GET_NAME {
        if arg2 == 0 {
            return linux_errno(EINVAL);
        }
        let src: &[u8] = match task_name {
            Some(s) => s.as_str().as_bytes(),
            None => "task".as_bytes(),
        };
        let len = if src.len() < 15 {
            src.len()
        } else {
            15
        };
        let mut buf: Vec<u8> = Vec::new();
        let mut i: usize = 0;
        while i < 16
            invariant
                i <= 16,
                len <= 15,
                len <= src@.len(),
                buf@.len() == i,
                forall|k: int| 0 <= k < i ==> buf@[k] == (if k < len { src@[k] } else { 0u8 }),
            decreases 16 - i,
        {
            if i < len {
                buf.push(src[i]);
            } else {
                buf.push(0u8);
            }
            i = i + 1;
        }
        assert(buf@ =~= name_field_bytes(src@));
        if mem.write_bytes(arg2, buf.as_slice()) {
            0
        } else {
            linux_errno(EFAULT)
        }
    } else if option == PR_GET_PDEATHSIG {
        if arg2 != 0 {
            if !mem.write_u32(arg2, 0) {
                return linux_errno(EFAULT);
            }
        }
        0
    } else if option == PR_SET_PDEATHSIG || option == PR_SET_DUMPABLE || option == PR_SET_KEEPCAPS
        || option == PR_GET_SECCOMP || option == PR_CAPBSET_READ || option == PR_CAPBSET_DROP
        || option == PR_SET_NO_NEW_PRIVS || option == PR_GET_NO_NEW_PRIVS {
        0
    } else if option == PR_GET_DUMPABLE || option == PR_GET_KEEPCAPS {
        1
    } else if option == PR_SET_SECCOMP {
        if arg2 <= 2 {
            0
        } else {
            linux_errno(EINVAL)
        }
    } else {
        linux_errno(EINVAL)
    }
}

/// `sched_getparam`: stores the priority the process layer reported (or
/// returns its error).
pub fn sys_linux_sched_getparam(mem: &mut UserMemory, param_ptr: usize, priority: Result<usize, i32>) -> (r:
    usize)
    ensures
        final(mem).base == old(mem).base,
        priority matches Err(code) ==> r == errno_word(code) && *final(mem) == *old(mem),
        priority matches Ok(p) ==> {
            &&& old(mem).range_ok(param_ptr as int, 4) ==> r == 0 && final(mem).bytes@ == old(mem).stored(param_ptr as int, u32_le_bytes(p as i32 as u32))
            &&& !old(mem).range_ok(param_ptr as int, 4) ==> r == errno_word(EFAULT) && final(mem).bytes@ == old(mem).bytes@
        },
{
    let p = match priority {
        Ok(v) => v,
        Err(code) => return linux_errno(code),
    };
    if mem.write_u32(param_ptr, p as i32 as u32) {
        0
    } else {
        linux_errno(EFAULT)
    }
}

/// Loads the `sched_param` priority.
fn read_sched_priority(mem: &UserMemory, param_ptr: usize) -> (r: Result<i32, usize>)
    ensures
        r is Ok <==> mem.range_ok(param_ptr as int, 4),
        r matches Ok(p) ==> p == u32_from_le(mem.bytes_at(param_ptr as int, 4)) as i32,
        r is Err ==> r == Err::<i32, usize>(errno_word(EFAULT)),
{
    match mem.read_u32(param_ptr) {
        Some(w) => Ok(w as i32),
        None => Err(linux_errno(EFAULT)),
    }
}

/// `sched_setparam`: reads the priority to hand to the process layer.
pub fn sys_linux_sched_setparam(mem: &UserMemory, param_ptr: usize) -> (r: Result<i32, usize>)
    ensures
        r is Ok <==> mem.range_ok(param_ptr as int, 4),
        r matches Ok(p) ==> p == u32_from_le(mem.bytes_at(param_ptr as int, 4)) as i32,
        r is Err ==> r == Err::<i32, usize>(errno_word(EFAULT)),
{
    read_sched_priority(mem, param_ptr)
}

/// `sched_setscheduler`: reads the priority to hand to the process layer
/// with the policy.
pub fn sys_linux_sched_setscheduler(mem: &UserMemory, policy: usize, param_ptr: usize) -> (r: Result<
    (i32, i32),
    usize,
>)
    ensures
        r is Ok <==> mem.range_ok(param_ptr as int, 4),
        r matches Ok((pol, p)) ==> pol == policy as i32 && p == u32_from_le(
            mem.bytes_at(param_ptr as int, 4),
        ) as i32,
        r is Err ==> r == Err::<(i32, i32), usize>(errno_word(EFAULT)),
{
    match read_sched_priority(mem, param_ptr) {
        Ok(p) => Ok((policy as i32, p)),
        Err(e) => Err(e),
    }
}

/// The affinity mask `sched_getaffinity` reports: CPUs 0 to 7, in a mask
/// of `size` bytes.
pub open spec fn affinity_bytes(size: nat) -> Seq<u8> {
    Seq::new(size, |i: int| if i == 0 { 0xffu8 } else { 0u8 })
}

/// `sched_getaffinity`: stores the mask in at most 128 bytes and returns
/// its size.
pub fn sys_linux_sched_getaffinity(mem: &mut UserMemory, pid: usize, cpusetsize: usize, mask_ptr: usize) -> (r:
    usize)
    ensures
        final(mem).base == old(mem).base,
        ({
            let size = if cpusetsize < 128 { cpusetsize } else { 128 };
            &&& old(mem).range_ok(mask_ptr as int, size as int) ==> r == size && final(mem).bytes@
                == old(mem).stored(mask_ptr as int, affinity_bytes(size as nat))
            &&& !old(mem).range_ok(mask_ptr as int, size as int) ==> r == errno_word(EFAULT) && final(mem).bytes@ == old(mem).bytes@
        }),
{
    let _ = pid;
    let size = if cpusetsize < 128 {
        cpusetsize
    } else {
        128
    };
    let mut buf: Vec<u8> = Vec::new();
    let mut i: usize = 0;
    while i < size
        invariant
            i <= size,
            buf@ == affinity_bytes(i as nat),
        decreases size - i,
    {
        if i == 0 {
            buf.push(0xffu8);
        } else {
            buf.push(0u8);
        }
        assert(buf@ =~= affinity_bytes((i + 1) as nat));
        i = i + 1;
    }
    if mem.write_bytes(mask_ptr, buf.as_slice()) {
        size
    } else {
        linux_errno(EFAULT)
    }
}

/// The return word of a call that only a backend implements: `ENOSYS`
/// without one, else the descriptor or error it reports.
pub open spec fn backend_fd_or_enosys(backend: Option<Result<u32, i32>>) -> usize {
    match backend {
        None => errno_word(ENOSYS),
        Some(Ok(fd)) => fd as usize,
        Some(Err(e)) => errno_word(e),
    }
}

/// `eventfd`: the I/O backend creates the descriptor.
pub fn sys_linux_eventfd(initval: usize, flags: usize, backend: Option<Result<u32, i32>>) -> (r: usize)
    ensures
        r == backend_fd_or_enosys(backend),
{
    match backend {
        None => linux_errno(ENOSYS),
        Some(Ok(fd)) => fd as usize,
        Some(Err(e)) => linux_errno(e),
    }
}

/// `eventfd2`, the same call.
pub fn sys_linux_eventfd2(initval: usize, flags: usize, backend: Option<Result<u32, i32>>) -> (r: usize)
    ensures
        r == backend_fd_or_enosys(backend),
{
    sys_linux_eventfd(initval, flags, backend)
}

/// `inotify_rm_watch`: `ENOSYS` without a file backend, else its result.
pub fn sys_linux_inotify_rm_watch(fd: usize, wd: usize, backend: Option<Result<(), i32>>) -> (r: usize)
    ensures
        r == (match backend {
            None => errno_word(ENOSYS),
            Some(Ok(())) => 0,
            Some(Err(e)) => errno_word(e),
        }),
{
    match backend {
        None => linux_errno(ENOSYS),
        Some(Ok(())) => 0,
        Some(Err(e)) => linux_errno(e),
    }
}

/// `sched_getscheduler`: `SCHED_OTHER` (0) without a process backend.
pub fn sys_linux_sched_getscheduler(pid: usize, backend: Option<Result<u32, i32>>) -> (r: usize)
    ensures
        r == (match backend {
            None => 0,
            Some(Ok(p)) => p as usize,
            Some(Err(e)) => errno_word(e),
        }),
{
    match backend {
        None => 0,
        Some(Ok(p)) => p as usize,
        Some(Err(e)) => linux_errno(e),
    }
}

/// `sched_setaffinity` is accepted and has no effect.
pub fn sys_linux_sched_setaffinity(pid: usize, cpusetsize: usize, mask_ptr: usize) -> (r: usize)
    ensures
        r == 0,
{
    0
}

} // verus!
