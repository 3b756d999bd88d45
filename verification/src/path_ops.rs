use vstd::prelude::*;

use crate::errno::{errno_word, linux_errno, EBADF, EFAULT, EINVAL, ENOENT, EXDEV};
use crate::fd_io::take_prefix;
use crate::user_memory::{u64_from_le, UserMemory};
use crate::user_string::{c_string_outcome, read_user_c_string, read_user_c_string_allow_empty, string_result_view};

verus! {

/// `AT_FDCWD`: a path relative to the working directory.
pub const AT_FDCWD: isize = -100;

pub const AT_SYMLINK_NOFOLLOW: usize = 0x100;

pub const AT_EACCESS: usize = 0x200;

pub const AT_REMOVEDIR: usize = 0x200;

pub const AT_SYMLINK_FOLLOW: usize = 0x400;

pub const AT_EMPTY_PATH: usize = 0x1000;

pub const O_CREAT: usize = 0o100;

pub const O_TRUNC: usize = 0o1000;

pub const O_APPEND: usize = 0o2000;

/// The `resolve` flags of `openat2` that are known.
pub const RESOLVE_ALLOWED_MASK: u64 = 0x3f;

/// Size of `struct open_how`.
pub const OPEN_HOW_BYTES: usize = 24;

/// What a path is relative to.
#[derive(PartialEq, Eq, Structural, Clone, Copy, Debug)]
pub enum PathBase {
    /// An absolute path.
    Root,
    /// The working directory.
    Cwd,
    /// The directory open as this descriptor.
    Dir(u32),
}

/// The base of a path given `dirfd`: absolute paths ignore it; a negative
/// descriptor other than `AT_FDCWD` (or one too large) is `EBADF`.
pub open spec fn path_base(dirfd: isize, absolute: bool) -> Result<PathBase, usize> {
    if absolute {
        Ok(PathBase::Root)
    } else if dirfd == AT_FDCWD {
        Ok(PathBase::Cwd)
    } else if dirfd < 0 || dirfd > u32::MAX {
        Err(errno_word(EBADF))
    } else {
        Ok(PathBase::Dir(dirfd as u32))
    }
}

/// The path read at `path_ptr` and what it is relative to, or the error.
pub open spec fn path_at_outcome(
    mem: UserMemory,
    max_path_len: usize,
    dirfd: isize,
    path_ptr: usize,
    allow_empty: bool,
) -> Result<(Seq<char>, PathBase), usize> {
    match c_string_outcome(mem, path_ptr, max_path_len, allow_empty) {
        Err(e) => Err(e),
        Ok(p) => match path_base(dirfd, mem.bytes@[path_ptr - mem.base] == 47u8) {
            Err(e) => Err(e),
            Ok(b) => Ok((p, b)),
        },
    }
}

/// The view of a resolved path.
pub open spec fn path_at_view(r: Result<(String, PathBase), usize>) -> Result<(Seq<char>, PathBase), usize> {
    match r {
        Ok((p, b)) => Ok((p@, b)),
        Err(e) => Err(e),
    }
}

/// Reads the path at `path_ptr` (an empty one only if `allow_empty`) and
/// works out what it is relative to.
pub fn resolve_path_at(
    mem: &UserMemory,
    max_path_len: usize,
    dirfd: isize,
    path_ptr: usize,
    allow_empty: bool,
) -> (r: Result<(String, PathBase), usize>)
    ensures
        path_at_view(r) == path_at_outcome(*mem, max_path_len, dirfd, path_ptr, allow_empty),
{
    let read = if allow_empty {
        read_user_c_string_allow_empty(mem, path_ptr, max_path_len)
    } else {
        read_user_c_string(mem, path_ptr, max_path_len)
    };
    let path = match read {
        Err(e) => {
            return Err(e);
        },
        Ok(p) => p,
    };
    proof {
        crate::user_string::lemma_c_string_readable(*mem, path_ptr, max_path_len, allow_empty);
    }
    let first = match mem.read_u8(path_ptr) {
        Some(b) => b,
        None => 0,
    };
    let absolute = first == 47u8;
    if absolute {
        Ok((path, PathBase::Root))
    } else if dirfd == AT_FDCWD {
        Ok((path, PathBase::Cwd))
    } else if dirfd < 0 || (dirfd as usize) > (u32::MAX as usize) {
        Err(linux_errno(EBADF))
    } else {
        Ok((path, PathBase::Dir(dirfd as u32)))
    }
}

/// An `open` the file backend is to carry out.
pub struct OpenRequest {
    pub path: String,
    pub base: PathBase,
    /// `O_CREAT`: create the file if it is missing.
    pub create: bool,
    /// `O_TRUNC`: empty the file once open.
    pub truncate: bool,
    /// `O_APPEND`: writes go to the end.
    pub append: bool,
}

/// `openat` up to the file backend: the path and the open mode.
pub fn sys_linux_openat(
    mem: &UserMemory,
    max_path_len: usize,
    dirfd: isize,
    pathname_ptr: usize,
    flags: usize,
    mode: usize,
) -> (r: Result<OpenRequest, usize>)
    ensures
        match path_at_outcome(*mem, max_path_len, dirfd, pathname_ptr, false) {
            Err(e) => r == Err::<OpenRequest, usize>(e),
            Ok((p, b)) => r matches Ok(req) && req.path@ == p && req.base == b && req.create == (flags
                & O_CREAT != 0) && req.truncate == (flags & O_TRUNC != 0) && req.append == (flags
                & O_APPEND != 0),
        },
{
    let (path, base) = match resolve_path_at(mem, max_path_len, dirfd, pathname_ptr, false) {
        Err(e) => {
            return Err(e);
        },
        Ok(v) => v,
    };
    Ok(
        OpenRequest {
            path,
            base,
            create: flags & O_CREAT != 0,
            truncate: flags & O_TRUNC != 0,
            append: flags & O_APPEND != 0,
        },
    )
}

/// The end of `openat` once the backend opened (`opened`) and, for
/// `O_TRUNC`, truncated (`truncated`) the file: the descriptor, or the
/// error.  The second value says whether the descriptor must be closed
/// again (the truncation failed).
pub fn openat_finish(req: &OpenRequest, opened: Result<u32, i32>, truncated: Result<(), i32>) -> (r: (
    usize,
    bool,
))
    ensures
        r == (match opened {
            Err(e) => (errno_word(e), false),
            Ok(fd) => if req.truncate && truncated is Err {
                (errno_word(truncated->Err_0), true)
            } else {
                (fd as usize, false)
            },
        }),
{
    match opened {
        Err(e) => (linux_errno(e), false),
        Ok(fd) => {
            if req.truncate {
                if let Err(e) = truncated {
                    return (linux_errno(e), true);
                }
            }
            (fd as usize, false)
        },
    }
}

/// `openat2` up to `openat`: checks the `open_how` size and pointer, reads
/// the structure, checks its `resolve` flags, and gives its `flags` and
/// `mode`.
pub fn sys_linux_openat2(mem: &UserMemory, how_ptr: usize, size: usize) -> (r: Result<(u64, u64), usize>)
    ensures
        how_ptr == 0 ==> r == Err::<(u64, u64), usize>(errno_word(EFAULT)),
        how_ptr != 0 && (size < OPEN_HOW_BYTES || size > 4096) ==> r == Err::<(u64, u64), usize>(
            errno_word(EINVAL),
        ),
        how_ptr != 0 && OPEN_HOW_BYTES <= size <= 4096 ==> {
            if !mem.range_ok(how_ptr as int, 24) {
                r == Err::<(u64, u64), usize>(errno_word(EFAULT))
            } else {
                let b = mem.bytes_at(how_ptr as int, 24);
                let resolve = u64_from_le(b.subrange(16, 24));
                if resolve & !RESOLVE_ALLOWED_MASK != 0 {
                    r == Err::<(u64, u64), usize>(errno_word(EINVAL))
                } else {
                    r == Ok::<(u64, u64), usize>(
                        (u64_from_le(b.subrange(0, 8)), u64_from_le(b.subrange(8, 16))),
                    )
                }
            }
        },
{
    if how_ptr == 0 {
        return Err(linux_errno(EFAULT));
    }
    if size < OPEN_HOW_BYTES || size > 4096 {
        return Err(linux_errno(EINVAL));
    }
    if !mem.range_valid(how_ptr, OPEN_HOW_BYTES) {
        return Err(linux_errno(EFAULT));
    }
    let flags = mem.read_u64(how_ptr).unwrap();
    let m = mem.read_u64(how_ptr + 8).unwrap();
    let resolve = mem.read_u64(how_ptr + 16).unwrap();
    proof {
        let b = mem.bytes_at(how_ptr as int, 24);
        assert(mem.bytes_at(how_ptr as int, 8) =~= b.subrange(0, 8));
        assert(mem.bytes_at(how_ptr + 8, 8) =~= b.subrange(8, 16));
        assert(mem.bytes_at(how_ptr + 16, 8) =~= b.subrange(16, 24));
    }
    if resolve & !RESOLVE_ALLOWED_MASK != 0 {
        return Err(linux_errno(EINVAL));
    }
    Ok((flags, m))
}

/// The return word of an access check: 0 when the path exists, `ENOENT`
/// when it does not, or the backend's error.
pub open spec fn access_status_of(res: Result<bool, i32>) -> usize {
    match res {
        Ok(true) => 0,
        Ok(false) => errno_word(ENOENT),
        Err(e) => errno_word(e),
    }
}

/// Maps the backend's answer to an access check.
pub fn access_status(res: Result<bool, i32>) -> (r: usize)
    ensures
        r == access_status_of(res),
{
    match res {
        Ok(true) => 0,
        Ok(false) => linux_errno(ENOENT),
        Err(e) => linux_errno(e),
    }
}

/// The return word of a path operation the backend carried out.
pub fn unit_status(res: Result<(), i32>) -> (r: usize)
    ensures
        r == (match res {
            Ok(()) => 0,
            Err(e) => errno_word(e),
        }),
{
    match res {
        Ok(()) => 0,
        Err(e) => linux_errno(e),
    }
}

/// `access` up to the backend: the path, relative to the working
/// directory's file system.
pub fn sys_linux_access(mem: &UserMemory, max_path_len: usize, path_ptr: usize, mode: usize) -> (r: Result<
    String,
    usize,
>)
    ensures
        string_result_view(r) == c_string_outcome(*mem, path_ptr, max_path_len, false),
{
    read_user_c_string(mem, path_ptr, max_path_len)
}

/// `faccessat` up to the backend: unknown flags are `EINVAL`; an empty
/// path is accepted with `AT_EMPTY_PATH`.
pub fn sys_linux_faccessat(
    mem: &UserMemory,
    max_path_len: usize,
    dirfd: isize,
    path_ptr: usize,
    mode: usize,
    flags: usize,
) -> (r: Result<(String, PathBase), usize>)
    ensures
        flags & !(AT_EACCESS | AT_SYMLINK_NOFOLLOW | AT_EMPTY_PATH) != 0 ==> r == Err::<
            (String, PathBase),
            usize,
        >(errno_word(EINVAL)),
        flags & !(AT_EACCESS | AT_SYMLINK_NOFOLLOW | AT_EMPTY_PATH) == 0 ==> path_at_view(r)
            == path_at_outcome(*mem, max_path_len, dirfd, path_ptr, flags & AT_EMPTY_PATH != 0),
{
    if flags & !(AT_EACCESS | AT_SYMLINK_NOFOLLOW | AT_EMPTY_PATH) != 0 {
        return Err(linux_errno(EINVAL));
    }
    resolve_path_at(mem, max_path_len, dirfd, path_ptr, flags & AT_EMPTY_PATH != 0)
}

/// `faccessat2`, the same call.
pub fn sys_linux_faccessat2(
    mem: &UserMemory,
    max_path_len: usize,
    dirfd: isize,
    path_ptr: usize,
    mode: usize,
    flags: usize,
) -> (r: Result<(String, PathBase), usize>)
    ensures
        flags & !(AT_EACCESS | AT_SYMLINK_NOFOLLOW | AT_EMPTY_PATH) != 0 ==> r == Err::<
            (String, PathBase),
            usize,
        >(errno_word(EINVAL)),
        flags & !(AT_EACCESS | AT_SYMLINK_NOFOLLOW | AT_EMPTY_PATH) == 0 ==> path_at_view(r)
            == path_at_outcome(*mem, max_path_len, dirfd, path_ptr, flags & AT_EMPTY_PATH != 0),
{
    sys_linux_faccessat(mem, max_path_len, dirfd, path_ptr, mode, flags)
}

/// `mkdirat` up to the backend.
pub fn sys_linux_mkdirat(mem: &UserMemory, max_path_len: usize, dirfd: isize, path_ptr: usize, mode: usize) -> (r:
    Result<(String, PathBase), usize>)
    ensures
        path_at_view(r) == path_at_outcome(*mem, max_path_len, dirfd, path_ptr, false),
{
    resolve_path_at(mem, max_path_len, dirfd, path_ptr, false)
}

/// `unlinkat` up to the backend: only `AT_REMOVEDIR` is known; the third
/// value says whether a directory is removed.
pub fn sys_linux_unlinkat(mem: &UserMemory, max_path_len: usize, dirfd: isize, path_ptr: usize, flags: usize) -> (r:
    Result<(String, PathBase, bool), usize>)
    ensures
        flags & !AT_REMOVEDIR != 0 ==> r == Err::<(String, PathBase, bool), usize>(errno_word(EINVAL)),
        flags & !AT_REMOVEDIR == 0 ==> match path_at_outcome(*mem, max_path_len, dirfd, path_ptr, false) {
            Err(e) => r == Err::<(String, PathBase, bool), usize>(e),
            Ok((p, b)) => r matches Ok((path, base, rmdir)) && path@ == p && base == b && rmdir == (flags
                & AT_REMOVEDIR != 0),
        },
{
    if flags & !AT_REMOVEDIR != 0 {
        return Err(linux_errno(EINVAL));
    }
    match resolve_path_at(mem, max_path_len, dirfd, path_ptr, false) {
        Err(e) => Err(e),
        Ok((path, base)) => Ok((path, base, flags & AT_REMOVEDIR != 0)),
    }
}

/// The two paths of a `linkat` or `renameat`.
pub open spec fn two_paths_outcome(
    mem: UserMemory,
    max_path_len: usize,
    olddirfd: isize,
    oldpath_ptr: usize,
    newdirfd: isize,
    newpath_ptr: usize,
) -> Result<((Seq<char>, PathBase), (Seq<char>, PathBase)), usize> {
    match path_at_outcome(mem, max_path_len, olddirfd, oldpath_ptr, false) {
        Err(e) => Err(e),
        Ok(o) => match path_at_outcome(mem, max_path_len, newdirfd, newpath_ptr, false) {
            Err(e) => Err(e),
            Ok(n) => Ok((o, n)),
        },
    }
}

/// The view of two resolved paths.
pub open spec fn two_paths_view(r: Result<((String, PathBase), (String, PathBase)), usize>) -> Result<
    ((Seq<char>, PathBase), (Seq<char>, PathBase)),
    usize,
> {
    match r {
        Ok(((op, ob), (np, nb))) => Ok(((op@, ob), (np@, nb))),
        Err(e) => Err(e),
    }
}

fn resolve_two_paths(
    mem: &UserMemory,
    max_path_len: usize,
    olddirfd: isize,
    oldpath_ptr: usize,
    newdirfd: isize,
    newpath_ptr: usize,
) -> (r: Result<((String, PathBase), (String, PathBase)), usize>)
    ensures
        two_paths_view(r) == two_paths_outcome(
            *mem,
            max_path_len,
            olddirfd,
            oldpath_ptr,
            newdirfd,
            newpath_ptr,
        ),
{
    let o = match resolve_path_at(mem, max_path_len, olddirfd, oldpath_ptr, false) {
        Err(e) => {
            return Err(e);
        },
        Ok(v) => v,
    };
    let n = match resolve_path_at(mem, max_path_len, newdirfd, newpath_ptr, false) {
        Err(e) => {
            return Err(e);
        },
        Ok(v) => v,
    };
    Ok((o, n))
}

/// `linkat` up to the backend: only `AT_SYMLINK_FOLLOW` is known.
pub fn sys_linux_linkat(
    mem: &UserMemory,
    max_path_len: usize,
    olddirfd: isize,
    oldpath_ptr: usize,
    newdirfd: isize,
    newpath_ptr: usize,
    flags: usize,
) -> (r: Result<((String, PathBase), (String, PathBase)), usize>)
    ensures
        flags & !AT_SYMLINK_FOLLOW != 0 ==> r == Err::<((String, PathBase), (String, PathBase)), usize>(
            errno_word(EINVAL),
        ),
        flags & !AT_SYMLINK_FOLLOW == 0 ==> two_paths_view(r) == two_paths_outcome(
            *mem,
            max_path_len,
            olddirfd,
            oldpath_ptr,
            newdirfd,
            newpath_ptr,
        ),
{
    if flags & !AT_SYMLINK_FOLLOW != 0 {
        return Err(linux_errno(EINVAL));
    }
    resolve_two_paths(mem, max_path_len, olddirfd, oldpath_ptr, newdirfd, newpath_ptr)
}

/// `renameat` up to the backend.
pub fn sys_linux_renameat(
    mem: &UserMemory,
    max_path_len: usize,
    olddirfd: isize,
    oldpath_ptr: usize,
    newdirfd: isize,
    newpath_ptr: usize,
) -> (r: Result<((String, PathBase), (String, PathBase)), usize>)
    ensures
        two_paths_view(r) == two_paths_outcome(
            *mem,
            max_path_len,
            olddirfd,
            oldpath_ptr,
            newdirfd,
            newpath_ptr,
        ),
{
    resolve_two_paths(mem, max_path_len, olddirfd, oldpath_ptr, newdirfd, newpath_ptr)
}

/// `renameat2`: only the classic rename (no flags) is supported.
pub fn sys_linux_renameat2(
    mem: &UserMemory,
    max_path_len: usize,
    olddirfd: isize,
    oldpath_ptr: usize,
    newdirfd: isize,
    newpath_ptr: usize,
    flags: usize,
) -> (r: Result<((String, PathBase), (String, PathBase)), usize>)
    ensures
        flags != 0 ==> r == Err::<((String, PathBase), (String, PathBase)), usize>(errno_word(EINVAL)),
        flags == 0 ==> two_paths_view(r) == two_paths_outcome(
            *mem,
            max_path_len,
            olddirfd,
            oldpath_ptr,
            newdirfd,
            newpath_ptr,
        ),
{
    if flags != 0 {
        return Err(linux_errno(EINVAL));
    }
    sys_linux_renameat(mem, max_path_len, olddirfd, oldpath_ptr, newdirfd, newpath_ptr)
}

/// Links and renames stay within one file system: `EXDEV` otherwise.
pub fn same_file_system(old_fs_id: u32, new_fs_id: u32) -> (r: Result<(), usize>)
    ensures
        r == (if old_fs_id == new_fs_id {
            Ok::<(), usize>(())
        } else {
            Err(errno_word(EXDEV))
        }),
{
    if old_fs_id != new_fs_id {
        return Err(linux_errno(EXDEV));
    }
    Ok(())
}

/// `symlinkat` up to the backend: the target (read as a path, not
/// resolved) and the link's path.
pub fn sys_linux_symlinkat(
    mem: &UserMemory,
    max_path_len: usize,
    target_ptr: usize,
    newdirfd: isize,
    linkpath_ptr: usize,
) -> (r: Result<(String, (String, PathBase)), usize>)
    ensures
        match c_string_outcome(*mem, target_ptr, max_path_len, false) {
            Err(e) => r == Err::<(String, (String, PathBase)), usize>(e),
            Ok(t) => match path_at_outcome(*mem, max_path_len, newdirfd, linkpath_ptr, false) {
                Err(e) => r == Err::<(String, (String, PathBase)), usize>(e),
                Ok((p, b)) => r matches Ok((target, (link, base))) && target@ == t && link@ == p && base
                    == b,
            },
        },
{
    let target = match read_user_c_string(mem, target_ptr, max_path_len) {
        Err(e) => {
            return Err(e);
        },
        Ok(t) => t,
    };
    match resolve_path_at(mem, max_path_len, newdirfd, linkpath_ptr, false) {
        Err(e) => Err(e),
        Ok(link) => Ok((target, link)),
    }
}

/// The end of `readlinkat`: the link's target, cut to `buf_size` bytes, is
/// written at `buf_ptr` (no NUL) and its length returned.
pub fn readlinkat_finish(mem: &mut UserMemory, buf_ptr: usize, buf_size: usize, target: Result<Vec<u8>, i32>) -> (r:
    usize)
    ensures
        final(mem).base == old(mem).base,
        match target {
            Err(e) => r == errno_word(e) && final(mem).bytes@ == old(mem).bytes@,
            Ok(t) => {
                let out = take_prefix(t@, buf_size as int);
                &&& old(mem).range_ok(buf_ptr as int, out.len() as int) ==> r == out.len()
                    && final(mem).bytes@ == old(mem).stored(buf_ptr as int, out)
                &&& !old(mem).range_ok(buf_ptr as int, out.len() as int) ==> r == errno_word(EFAULT)
                    && final(mem).bytes@ == old(mem).bytes@
            },
        },
{
    let t = match target {
        Err(e) => {
            return linux_errno(e);
        },
        Ok(t) => t,
    };
    let n: usize = if t.len() <= buf_size {
        t.len()
    } else {
        buf_size
    };
    let mut out: Vec<u8> = Vec::new();
    let mut i: usize = 0;
    while i < n
        invariant
            i <= n,
            n <= t@.len(),
            out@ == t@.subrange(0, i as int),
        decreases n - i,
    {
        out.push(t[i]);
        i = i + 1;
    }
    assert(out@ =~= take_prefix(t@, buf_size as int));
    if mem.write_bytes(buf_ptr, out.as_slice()) {
        n
    } else {
        linux_errno(EFAULT)
    }
}

/// `readlinkat` up to the backend: the link's path.
pub fn sys_linux_readlinkat(mem: &UserMemory, max_path_len: usize, dirfd: isize, path_ptr: usize) -> (r: Result<
    (String, PathBase),
    usize,
>)
    ensures
        path_at_view(r) == path_at_outcome(*mem, max_path_len, dirfd, path_ptr, false),
{
    resolve_path_at(mem, max_path_len, dirfd, path_ptr, false)
}

} // verus!
