use vstd::prelude::*;

use crate::errno::{errno_word, linux_errno, EBADF, EFAULT, EINVAL, EOVERFLOW};
use crate::user_memory::{u64_from_le, usize_words_bytes, UserMemory};

verus! {

pub const CLONE_VM: usize = 0x0000_0100;

pub const CLONE_FS: usize = 0x0000_0200;

pub const CLONE_FILES: usize = 0x0000_0400;

pub const CLONE_SIGHAND: usize = 0x0000_0800;

pub const CLONE_PIDFD: usize = 0x0000_1000;

pub const CLONE_THREAD: usize = 0x0001_0000;

pub const CLONE_NEWNS: usize = 0x0002_0000;

pub const CLONE_NEWCGROUP: usize = 0x0200_0000;

pub const CLONE_NEWUTS: usize = 0x0400_0000;

pub const CLONE_NEWIPC: usize = 0x0800_0000;

pub const CLONE_NEWUSER: usize = 0x1000_0000;

pub const CLONE_NEWPID: usize = 0x2000_0000;

pub const CLONE_NEWNET: usize = 0x4000_0000;

/// The namespace flags a clone may carry.
pub const CLONE_NAMESPACE_MASK: usize = 0x7e02_0000;

/// The smallest `struct clone_args` accepted.
pub const CLONE3_MIN_SIZE: usize = 64;

/// The size of the `struct clone_args` this kernel knows.
pub const CLONE3_ARGS_SIZE: usize = 88;

/// Combines `clone3`'s flags and exit signal into `clone`'s flag word; the
/// signal must fit in the low byte.
pub fn decode_clone3_flags(raw_flags: u64, exit_signal: u64) -> (r: Result<usize, usize>)
    ensures
        (raw_flags > usize::MAX || exit_signal > 0xff) ==> r == Err::<usize, usize>(errno_word(EINVAL)),
        !(raw_flags > usize::MAX || exit_signal > 0xff) ==> r == Ok::<usize, usize>(
            (raw_flags as usize) | (exit_signal as usize),
        ),
{
    if raw_flags > usize::MAX as u64 {
        return Err(linux_errno(EINVAL));
    }
    if exit_signal > usize::MAX as u64 {
        return Err(linux_errno(EINVAL));
    }
    let flags = raw_flags as usize;
    let sig = exit_signal as usize;
    if sig > 0xff {
        return Err(linux_errno(EINVAL));
    }
    Ok(flags | sig)
}

/// The namespace bits of a clone flag word.
pub fn namespace_clone_flags(flags: usize) -> (r: usize)
    ensures
        r == flags & (CLONE_NEWPID | CLONE_NEWNET | CLONE_NEWNS | CLONE_NEWIPC | CLONE_NEWUTS
            | CLONE_NEWUSER | CLONE_NEWCGROUP),
{
    flags & (CLONE_NEWPID | CLONE_NEWNET | CLONE_NEWNS | CLONE_NEWIPC | CLONE_NEWUTS | CLONE_NEWUSER
        | CLONE_NEWCGROUP)
}

/// Threads and shared address spaces cannot be cloned; otherwise gives the
/// namespace bits to unshare in the child.
pub fn validate_clone_flags(flags: usize) -> (r: Result<usize, usize>)
    ensures
        flags & (CLONE_THREAD | CLONE_VM) != 0 ==> r == Err::<usize, usize>(errno_word(EINVAL)),
        flags & (CLONE_THREAD | CLONE_VM) == 0 ==> r == Ok::<usize, usize>(
            flags & (CLONE_NEWPID | CLONE_NEWNET | CLONE_NEWNS | CLONE_NEWIPC | CLONE_NEWUTS
                | CLONE_NEWUSER | CLONE_NEWCGROUP),
        ),
{
    if (flags & (CLONE_THREAD | CLONE_VM)) != 0 {
        return Err(linux_errno(EINVAL));
    }
    Ok(namespace_clone_flags(flags))
}

/// `unshare` takes a 32-bit flag word.
pub fn decode_unshare_flags(flags: usize) -> (r: Result<u32, usize>)
    ensures
        flags <= u32::MAX ==> r == Ok::<u32, usize>(flags as u32),
        flags > u32::MAX ==> r == Err::<u32, usize>(errno_word(EINVAL)),
{
    if flags > u32::MAX as usize {
        return Err(linux_errno(EINVAL));
    }
    Ok(flags as u32)
}

/// `setns` takes a non-negative 32-bit descriptor.
pub fn decode_setns_fd(fd: usize) -> (r: Result<i32, usize>)
    ensures
        fd <= i32::MAX ==> r == Ok::<i32, usize>(fd as i32),
        fd > i32::MAX ==> r == Err::<i32, usize>(errno_word(EBADF)),
{
    if fd > i32::MAX as usize {
        return Err(linux_errno(EBADF));
    }
    Ok(fd as i32)
}

/// `setns` takes a 32-bit namespace type.
pub fn decode_setns_type(nstype: usize) -> (r: Result<u32, usize>)
    ensures
        nstype <= u32::MAX ==> r == Ok::<u32, usize>(nstype as u32),
        nstype > u32::MAX ==> r == Err::<u32, usize>(errno_word(EINVAL)),
{
    if nstype > u32::MAX as usize {
        return Err(linux_errno(EINVAL));
    }
    Ok(nstype as u32)
}

/// Why the namespace layer refused a change.
#[derive(Debug, Clone, Copy, PartialEq, Eq, Structural)]
pub enum NamespaceError {
    Invalid,
    Overflow,
    BadDescriptor,
    Other,
}

/// `unshare`: the flag word to hand to the namespace layer for the
/// calling process (`has_process` is whether there is one).
pub fn sys_linux_unshare(flags: usize, has_process: bool) -> (r: Result<u32, usize>)
    ensures
        !has_process ==> r == Err::<u32, usize>(errno_word(crate::errno::ESRCH)),
        has_process && flags > u32::MAX ==> r == Err::<u32, usize>(errno_word(EINVAL)),
        has_process && flags <= u32::MAX ==> r == Ok::<u32, usize>(flags as u32),
{
    if !has_process {
        return Err(linux_errno(crate::errno::ESRCH));
    }
    decode_unshare_flags(flags)
}

/// The return value of `unshare` for the namespace layer's answer.
pub fn unshare_outcome(res: Result<(), NamespaceError>) -> (r: usize)
    ensures
        res is Ok ==> r == 0,
        res == Err::<(), NamespaceError>(NamespaceError::Overflow) ==> r == errno_word(EOVERFLOW),
        res matches Err(e) && e != NamespaceError::Overflow ==> r == errno_word(EINVAL),
{
    match res {
        Ok(()) => 0,
        Err(NamespaceError::Overflow) => linux_errno(EOVERFLOW),
        Err(_) => linux_errno(EINVAL),
    }
}

/// `setns`: the descriptor and type to hand to the namespace layer.
pub fn sys_linux_setns(fd: usize, nstype: usize, has_process: bool) -> (r: Result<(i32, u32), usize>)
    ensures
        !has_process ==> r == Err::<(i32, u32), usize>(errno_word(crate::errno::ESRCH)),
        has_process && fd > i32::MAX ==> r == Err::<(i32, u32), usize>(errno_word(EBADF)),
        has_process && fd <= i32::MAX && nstype > u32::MAX ==> r == Err::<(i32, u32), usize>(
            errno_word(EINVAL),
        ),
        has_process && fd <= i32::MAX && nstype <= u32::MAX ==> r == Ok::<(i32, u32), usize>(
            (fd as i32, nstype as u32),
        ),
{
    if !has_process {
        return Err(linux_errno(crate::errno::ESRCH));
    }
    let nsfd = match decode_setns_fd(fd) {
        Ok(v) => v,
        Err(e) => return Err(e),
    };
    let ty = match decode_setns_type(nstype) {
        Ok(v) => v,
        Err(e) => return Err(e),
    };
    Ok((nsfd, ty))
}

/// The return value of `setns` for the namespace layer's answer.
pub fn setns_outcome(res: Result<(), NamespaceError>) -> (r: usize)
    ensures
        res is Ok ==> r == 0,
        res == Err::<(), NamespaceError>(NamespaceError::BadDescriptor) ==> r == errno_word(EBADF),
        res == Err::<(), NamespaceError>(NamespaceError::Overflow) ==> r == errno_word(EOVERFLOW),
        res matches Err(e) && e != NamespaceError::Overflow && e != NamespaceError::BadDescriptor
            ==> r == errno_word(EINVAL),
{
    match res {
        Ok(()) => 0,
        Err(NamespaceError::BadDescriptor) => linux_errno(EBADF),
        Err(NamespaceError::Overflow) => linux_errno(EOVERFLOW),
        Err(_) => linux_errno(EINVAL),
    }
}

/// The return value of `fork` for the process layer's answer: the child's
/// id, or the errno it gave.
pub fn fork_outcome(res: Result<usize, i32>) -> (r: usize)
    ensures
        res matches Ok(pid) ==> r == pid,
        res matches Err(code) ==> r == errno_word(code),
{
    match res {
        Ok(pid) => pid,
        Err(code) => linux_errno(code),
    }
}

/// The fields of `struct clone_args`.
#[derive(Debug, Clone, Copy, PartialEq, Eq, Structural)]
pub struct LinuxCloneArgsCompat {
    pub flags: u64,
    pub pidfd: u64,
    pub child_tid: u64,
    pub parent_tid: u64,
    pub exit_signal: u64,
    pub stack: u64,
    pub stack_size: u64,
    pub tls: u64,
    pub set_tid: u64,
    pub set_tid_size: u64,
    pub cgroup: u64,
}

/// The 88 bytes a `clone_args` is decoded from: the `size` bytes the
/// caller gave, zero-filled.
pub open spec fn clone_args_image(mem: UserMemory, ptr: int, size: int) -> Seq<u8> {
    mem.bytes_at(ptr, size) + Seq::new((88 - size) as nat, |i: int| 0u8)
}

/// The little-endian `u64` at byte `off` of `img`.
pub open spec fn le_u64_at(img: Seq<u8>, off: int) -> u64 {
    u64_from_le(img.subrange(off, off + 8))
}

/// The `clone_args` decoded from an image.
pub open spec fn clone_args_from(img: Seq<u8>) -> LinuxCloneArgsCompat {
    LinuxCloneArgsCompat {
        flags: le_u64_at(img, 0),
        pidfd: le_u64_at(img, 8),
        child_tid: le_u64_at(img, 16),
        parent_tid: le_u64_at(img, 24),
        exit_signal: le_u64_at(img, 32),
        stack: le_u64_at(img, 40),
        stack_size: le_u64_at(img, 48),
        tls: le_u64_at(img, 56),
        set_tid: le_u64_at(img, 64),
        set_tid_size: le_u64_at(img, 72),
        cgroup: le_u64_at(img, 80),
    }
}

fn decode_u64_at(v: &Vec<u8>, off: usize) -> (r: u64)
    requires
        off + 8 <= v@.len(),
        v@.len() == 88,
    ensures
        r == le_u64_at(v@, off as int),
{
    (v[off] as u64) | ((v[off + 1] as u64) << 8u64) | ((v[off + 2] as u64) << 16u64) | ((v[off
        + 3] as u64) << 24u64) | ((v[off + 4] as u64) << 32u64) | ((v[off + 5] as u64) << 40u64) | ((
    v[off + 6] as u64) << 48u64) | ((v[off + 7] as u64) << 56u64)
}

/// Reads the first `size` bytes of a `clone_args` and zero-fills the rest.
pub fn read_clone_args(mem: &UserMemory, ptr: usize, size: usize) -> (r: Result<LinuxCloneArgsCompat, usize>)
    requires
        size <= CLONE3_ARGS_SIZE,
    ensures
        r is Ok <==> mem.range_ok(ptr as int, size as int),
        r matches Ok(a) ==> a == clone_args_from(clone_args_image(*mem, ptr as int, size as int)),
        r is Err ==> r == Err::<LinuxCloneArgsCompat, usize>(errno_word(EFAULT)),
{
    let mut img = match mem.read_bytes(ptr, size) {
        Some(b) => b,
        None => return Err(linux_errno(EFAULT)),
    };
    let ghost head = img@;
    let mut i = size;
    while i < CLONE3_ARGS_SIZE
        invariant
            size <= i <= 88,
            img@ == head + Seq::new((i - size) as nat, |k: int| 0u8),
        decreases 88 - i,
    {
        img.push(0u8);
        assert(img@ =~= head + Seq::new((i + 1 - size) as nat, |k: int| 0u8));
        i = i + 1;
    }
    assert(img@ =~= clone_args_image(*mem, ptr as int, size as int));
    Ok(
        LinuxCloneArgsCompat {
            flags: decode_u64_at(&img, 0),
            pidfd: decode_u64_at(&img, 8),
            child_tid: decode_u64_at(&img, 16),
            parent_tid: decode_u64_at(&img, 24),
            exit_signal: decode_u64_at(&img, 32),
            stack: decode_u64_at(&img, 40),
            stack_size: decode_u64_at(&img, 48),
            tls: decode_u64_at(&img, 56),
            set_tid: decode_u64_at(&img, 64),
            set_tid_size: decode_u64_at(&img, 72),
            cgroup: decode_u64_at(&img, 80),
        },
    )
}

proof fn lemma_clone_image_word(mem: UserMemory, ptr: int, size: int, off: int)
    requires
        0 <= size <= 88,
        mem.range_ok(ptr, size),
        0 <= off <= 80,
    ensures
        off + 8 <= size ==> le_u64_at(clone_args_image(mem, ptr, size), off) == u64_from_le(
            mem.bytes_at(ptr + off, 8),
        ),
        size <= off ==> le_u64_at(clone_args_image(mem, ptr, size), off) == 0,
{
    let img = clone_args_image(mem, ptr, size);
    if off + 8 <= size {
        assert(img.subrange(off, off + 8) =~= mem.bytes_at(ptr + off, 8));
    }
    if size <= off {
        let w = img.subrange(off, off + 8);
        assert(w =~= Seq::new(8, |k: int| 0u8));
        let z: u64 = 0u8 as u64;
        assert(z | (z << 8u64) | (z << 16u64) | (z << 24u64) | (z << 32u64) | (z << 40u64) | (z
            << 48u64) | (z << 56u64) == 0) by (bit_vector)
            requires
                z == 0,
        ;
    }
}

/// A `struct clone_args` is read as the Linux ABI lays it out, each field a
/// little-endian word at its own offset of user memory: `flags` at 0,
/// `pidfd` at 8, `child_tid` at 16, `parent_tid` at 24, `exit_signal` at 32,
/// `stack` at 40, `stack_size` at 48, `tls` at 56, `set_tid` at 64,
/// `set_tid_size` at 72 and `cgroup` at 80. A field that lies wholly past
/// the size the caller gave is zero.
pub proof fn law_clone_args_field_offsets(mem: UserMemory, ptr: int, size: int)
    requires
        0 <= size <= 88,
        mem.range_ok(ptr, size),
    ensures
        0 + 8 <= size ==> clone_args_from(clone_args_image(mem, ptr, size)).flags == u64_from_le(
            mem.bytes_at(ptr + 0, 8),
        ),
        8 + 8 <= size ==> clone_args_from(clone_args_image(mem, ptr, size)).pidfd == u64_from_le(
            mem.bytes_at(ptr + 8, 8),
        ),
        16 + 8 <= size ==> clone_args_from(clone_args_image(mem, ptr, size)).child_tid == u64_from_le(
            mem.bytes_at(ptr + 16, 8),
        ),
        24 + 8 <= size ==> clone_args_from(clone_args_image(mem, ptr, size)).parent_tid == u64_from_le(
            mem.bytes_at(ptr + 24, 8),
        ),
        32 + 8 <= size ==> clone_args_from(clone_args_image(mem, ptr, size)).exit_signal == u64_from_le(
            mem.bytes_at(ptr + 32, 8),
        ),
        40 + 8 <= size ==> clone_args_from(clone_args_image(mem, ptr, size)).stack == u64_from_le(
            mem.bytes_at(ptr + 40, 8),
        ),
        48 + 8 <= size ==> clone_args_from(clone_args_image(mem, ptr, size)).stack_size == u64_from_le(
            mem.bytes_at(ptr + 48, 8),
        ),
        56 + 8 <= size ==> clone_args_from(clone_args_image(mem, ptr, size)).tls == u64_from_le(
            mem.bytes_at(ptr + 56, 8),
        ),
        64 + 8 <= size ==> clone_args_from(clone_args_image(mem, ptr, size)).set_tid == u64_from_le(
            mem.bytes_at(ptr + 64, 8),
        ),
        72 + 8 <= size ==> clone_args_from(clone_args_image(mem, ptr, size)).set_tid_size == u64_from_le(
            mem.bytes_at(ptr + 72, 8),
        ),
        80 + 8 <= size ==> clone_args_from(clone_args_image(mem, ptr, size)).cgroup == u64_from_le(
            mem.bytes_at(ptr + 80, 8),
        ),
        size <= 0 ==> clone_args_from(clone_args_image(mem, ptr, size)).flags == 0,
        size <= 8 ==> clone_args_from(clone_args_image(mem, ptr, size)).pidfd == 0,
        size <= 16 ==> clone_args_from(clone_args_image(mem, ptr, size)).child_tid == 0,
        size <= 24 ==> clone_args_from(clone_args_image(mem, ptr, size)).parent_tid == 0,
        size <= 32 ==> clone_args_from(clone_args_image(mem, ptr, size)).exit_signal == 0,
        size <= 40 ==> clone_args_from(clone_args_image(mem, ptr, size)).stack == 0,
        size <= 48 ==> clone_args_from(clone_args_image(mem, ptr, size)).stack_size == 0,
        size <= 56 ==> clone_args_from(clone_args_image(mem, ptr, size)).tls == 0,
        size <= 64 ==> clone_args_from(clone_args_image(mem, ptr, size)).set_tid == 0,
        size <= 72 ==> clone_args_from(clone_args_image(mem, ptr, size)).set_tid_size == 0,
        size <= 80 ==> clone_args_from(clone_args_image(mem, ptr, size)).cgroup == 0,
{
    lemma_clone_image_word(mem, ptr, size, 0);
    lemma_clone_image_word(mem, ptr, size, 8);
    lemma_clone_image_word(mem, ptr, size, 16);
    lemma_clone_image_word(mem, ptr, size, 24);
    lemma_clone_image_word(mem, ptr, size, 32);
    lemma_clone_image_word(mem, ptr, size, 40);
    lemma_clone_image_word(mem, ptr, size, 48);
    lemma_clone_image_word(mem, ptr, size, 56);
    lemma_clone_image_word(mem, ptr, size, 64);
    lemma_clone_image_word(mem, ptr, size, 72);
    lemma_clone_image_word(mem, ptr, size, 80);
}

/// A `clone3` call that passed the checks: the arguments and the flag
/// word to clone with.
#[derive(Debug, Clone, Copy, PartialEq, Eq, Structural)]
pub struct Clone3Request {
    pub args: LinuxCloneArgsCompat,
    pub flags: usize,
}

/// Checks a `clone3` call and reads its arguments; the child is then
/// cloned with `flags`, and `clone3_finish` completes the call.
pub fn sys_linux_clone3(mem: &UserMemory, args_ptr: usize, size: usize) -> (r: Result<Clone3Request, usize>)
    ensures
        args_ptr == 0 ==> r == Err::<Clone3Request, usize>(errno_word(EFAULT)),
        args_ptr != 0 && (size < 64 || size > 88) ==> r == Err::<Clone3Request, usize>(
            errno_word(EINVAL),
        ),
        args_ptr != 0 && 64 <= size <= 88 && !mem.range_ok(args_ptr as int, size as int) ==> r
            == Err::<Clone3Request, usize>(errno_word(EFAULT)),
        args_ptr != 0 && 64 <= size <= 88 && mem.range_ok(args_ptr as int, size as int) ==> {
            let a = clone_args_from(clone_args_image(*mem, args_ptr as int, size as int));
            &&& (a.set_tid != 0 || a.set_tid_size != 0 || a.cgroup != 0) ==> r == Err::<
                Clone3Request,
                usize,
            >(errno_word(EINVAL))
            &&& !(a.set_tid != 0 || a.set_tid_size != 0 || a.cgroup != 0) && (a.flags > usize::MAX
                || a.exit_signal > 0xff) ==> r == Err::<Clone3Request, usize>(errno_word(EINVAL))
            &&& !(a.set_tid != 0 || a.set_tid_size != 0 || a.cgroup != 0) && !(a.flags > usize::MAX
                || a.exit_signal > 0xff) ==> r == Ok::<Clone3Request, usize>(
                Clone3Request { args: a, flags: (a.flags as usize) | (a.exit_signal as usize) },
            )
        },
{
    if args_ptr == 0 {
        return Err(linux_errno(EFAULT));
    }
    if size < CLONE3_MIN_SIZE || size > CLONE3_ARGS_SIZE {
        return Err(linux_errno(EINVAL));
    }
    let args = match read_clone_args(mem, args_ptr, size) {
        Ok(a) => a,
        Err(e) => return Err(e),
    };
    if args.set_tid != 0 || args.set_tid_size != 0 || args.cgroup != 0 {
        return Err(linux_errno(EINVAL));
    }
    let flags = match decode_clone3_flags(args.flags, args.exit_signal) {
        Ok(v) => v,
        Err(e) => return Err(e),
    };
    Ok(Clone3Request { args, flags })
}

/// The lowest return value that encodes an errno.
pub const MAX_ERRNO_RET: usize = usize::MAX - 4094;

/// Whether `clone3` must open a pidfd for the child.
pub open spec fn clone3_wants_pidfd(req: Clone3Request) -> bool {
    req.flags & CLONE_PIDFD != 0 && req.args.pidfd != 0
}

/// Completes `clone3` once the child exists: `child_pid` is what the
/// clone returned and `pidfd` what opening a pidfd for the child returned
/// (consulted only when `CLONE_PIDFD` and a pidfd pointer were given).
/// The pidfd is stored at the pointer as one word on behalf of a four-byte
/// buffer.
pub fn clone3_finish(mem: &mut UserMemory, req: &Clone3Request, child_pid: usize, pidfd: usize) -> (r:
    usize)
    ensures
        final(mem).base == old(mem).base,
        child_pid >= MAX_ERRNO_RET ==> r == child_pid && *final(mem) == *old(mem),
        child_pid < MAX_ERRNO_RET && !clone3_wants_pidfd(*req) ==> r == child_pid && *final(mem)
            == *old(mem),
        child_pid < MAX_ERRNO_RET && clone3_wants_pidfd(*req) && pidfd >= MAX_ERRNO_RET ==> r == pidfd
            && *final(mem) == *old(mem),
        child_pid < MAX_ERRNO_RET && clone3_wants_pidfd(*req) && pidfd < MAX_ERRNO_RET ==> r
            == errno_word(EFAULT) && final(mem).bytes@ == old(mem).bytes@,
{
    if child_pid >= MAX_ERRNO_RET {
        return child_pid;
    }
    if (req.flags & CLONE_PIDFD) != 0 && req.args.pidfd != 0 {
        if pidfd >= MAX_ERRNO_RET {
            return pidfd;
        }
        let mut one: Vec<usize> = Vec::new();
        one.push(pidfd);
        if mem.write_words(req.args.pidfd as usize, 4, one.as_slice()).is_err() {
            return linux_errno(EFAULT);
        }
    }
    child_pid
}

/// Completes `clone` once the child exists: unless the namespace layer
/// refused the child's namespaces (`namespaces_ok`), stores the child's id
/// at `parent_tidptr` when it is set (a failed store is ignored) and
/// returns it.
pub fn clone_finish(mem: &mut UserMemory, parent_tidptr: usize, child_pid: usize, namespaces_ok: bool) -> (r:
    usize)
    ensures
        final(mem).base == old(mem).base,
        !namespaces_ok ==> r == errno_word(EINVAL) && *final(mem) == *old(mem),
        namespaces_ok ==> r == child_pid,
        namespaces_ok && parent_tidptr == 0 ==> *final(mem) == *old(mem),
        namespaces_ok && parent_tidptr != 0 && parent_tidptr % 8 == 0 && old(mem).range_ok(
            parent_tidptr as int,
            8,
        ) ==> final(mem).bytes@ == old(mem).stored(parent_tidptr as int, usize_words_bytes(seq![child_pid])),
        namespaces_ok && parent_tidptr != 0 && !(parent_tidptr % 8 == 0 && old(mem).range_ok(
            parent_tidptr as int,
            8,
        )) ==> final(mem).bytes@ == old(mem).bytes@,
{
    if !namespaces_ok {
        return linux_errno(EINVAL);
    }
    if parent_tidptr != 0 {
        let mut one: Vec<usize> = Vec::new();
        one.push(child_pid);
        assert(one@ =~= seq![child_pid]);
        let _ = mem.write_words(parent_tidptr, 8, one.as_slice());
    }
    child_pid
}

/// `fork`: the child's pid or the error the process backend reports;
/// `EAGAIN` when no process backend is built in.
pub fn sys_linux_fork(forked: Option<Result<usize, i32>>) -> (r: usize)
    ensures
        r == (match forked {
            None => errno_word(crate::errno::EAGAIN),
            Some(Ok(pid)) => pid,
            Some(Err(code)) => errno_word(code),
        }),
{
    match forked {
        None => linux_errno(crate::errno::EAGAIN),
        Some(res) => fork_outcome(res),
    }
}

/// `clone` as a fork: thread and shared-memory clones are refused before
/// anything happens; otherwise `forked` is the backend's fork, and
/// `namespaces_ok` whether the child got the new namespaces the flags ask
/// for (asked only when they ask for some).
pub fn sys_linux_clone(
    mem: &mut UserMemory,
    flags: usize,
    parent_tidptr: usize,
    forked: Result<usize, i32>,
    namespaces_ok: bool,
) -> (r: usize)
    ensures
        final(mem).base == old(mem).base,
        flags & (CLONE_THREAD | CLONE_VM) != 0 ==> r == errno_word(EINVAL) && *final(mem) == *old(mem),
        flags & (CLONE_THREAD | CLONE_VM) == 0 ==> match forked {
            Err(code) => r == errno_word(code) && *final(mem) == *old(mem),
            Ok(child) => {
                let ok = flags & (CLONE_NEWPID | CLONE_NEWNET | CLONE_NEWNS | CLONE_NEWIPC | CLONE_NEWUTS
                    | CLONE_NEWUSER | CLONE_NEWCGROUP) == 0 || namespaces_ok;
                &&& !ok ==> r == errno_word(EINVAL) && *final(mem) == *old(mem)
                &&& ok ==> r == child
                &&& ok && parent_tidptr == 0 ==> *final(mem) == *old(mem)
                &&& ok && parent_tidptr != 0 && parent_tidptr % 8 == 0 && old(mem).range_ok(
                    parent_tidptr as int,
                    8,
                ) ==> final(mem).bytes@ == old(mem).stored(
                    parent_tidptr as int,
                    usize_words_bytes(seq![child]),
                )
                &&& ok && parent_tidptr != 0 && !(parent_tidptr % 8 == 0 && old(mem).range_ok(
                    parent_tidptr as int,
                    8,
                )) ==> final(mem).bytes@ == old(mem).bytes@
            },
        },
{
    let ns_flags = match validate_clone_flags(flags) {
        Ok(v) => v,
        Err(err) => return err,
    };
    let child = match forked {
        Ok(pid) => pid,
        Err(code) => return linux_errno(code),
    };
    clone_finish(mem, parent_tidptr, child, ns_flags == 0 || namespaces_ok)
}

} // verus!
