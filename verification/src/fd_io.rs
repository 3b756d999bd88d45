use vstd::prelude::*;

use crate::consts::{MAX_PRINT_LEN, SEEK_CUR, SEEK_END, SEEK_SET, STDERR_FD, STDIN_FD, STDOUT_FD};
use crate::dir_info::GetdentsCursors;
use crate::errno::{errno_word, linux_errno, EBADF, EFAULT, EINVAL};
use crate::linux_shim::is_stdio_fd;
use crate::user_memory::UserMemory;
use crate::user_string::string_from_utf8;
use vstd::utf8::{decode_utf8, valid_utf8};

verus! {

/// `d` cut to at most `len` bytes.
pub open spec fn take_prefix(d: Seq<u8>, len: int) -> Seq<u8> {
    if d.len() <= len {
        d
    } else {
        d.subrange(0, len)
    }
}

/// A backend's read into the user buffer `[ptr, ptr + len)`: `EFAULT` when
/// the buffer cannot be written, else the bytes it produced (cut to the
/// buffer) land at `ptr` and their count is returned, or its error.  The
/// pair is the return word and the memory afterwards.
pub open spec fn backend_read(mem: UserMemory, ptr: usize, len: usize, res: Result<Vec<u8>, i32>) -> (
    usize,
    Seq<u8>,
) {
    if !mem.range_ok(ptr as int, len as int) {
        (errno_word(EFAULT), mem.bytes@)
    } else {
        match res {
            Ok(d) => (take_prefix(d@, len as int).len() as usize, mem.stored(ptr as int, take_prefix(d@, len as int))),
            Err(e) => (errno_word(e), mem.bytes@),
        }
    }
}

/// The result of `read(fd, ptr, len)` given what the file backend (`fs`)
/// and the socket backend (`net`) produce for it; `None` for a backend that
/// is not built in.  A file error `EBADF` hands the descriptor on to the
/// socket backend.
pub open spec fn read_outcome(
    mem: UserMemory,
    fd: usize,
    ptr: usize,
    len: usize,
    fs: Option<Result<Vec<u8>, i32>>,
    net: Option<Result<Vec<u8>, i32>>,
) -> (usize, Seq<u8>) {
    if len == 0 {
        (0, mem.bytes@)
    } else if fd == STDOUT_FD || fd == STDERR_FD {
        (errno_word(EBADF), mem.bytes@)
    } else if fs is Some && fd == STDIN_FD {
        (0, mem.bytes@)
    } else if fs is Some && backend_read(mem, ptr, len, fs->0).0 != errno_word(EBADF) {
        backend_read(mem, ptr, len, fs->0)
    } else {
        match net {
            Some(res) => backend_read(mem, ptr, len, res),
            None => (errno_word(EBADF), mem.bytes@),
        }
    }
}

/// Copies at most `len` bytes of `data` to `ptr`; the buffer was checked.
fn deliver_prefix(mem: &mut UserMemory, ptr: usize, len: usize, data: &Vec<u8>) -> (n: usize)
    requires
        old(mem).range_ok(ptr as int, len as int),
    ensures
        n == take_prefix(data@, len as int).len(),
        final(mem).base == old(mem).base,
        final(mem).bytes@ == old(mem).stored(ptr as int, take_prefix(data@, len as int)),
{
    let n: usize = if data.len() <= len {
        data.len()
    } else {
        len
    };
    let mut buf: Vec<u8> = Vec::new();
    let mut i: usize = 0;
    while i < n
        invariant
            i <= n,
            n <= data@.len(),
            buf@ == data@.subrange(0, i as int),
        decreases n - i,
    {
        buf.push(data[i]);
        i = i + 1;
    }
    assert(buf@ =~= take_prefix(data@, len as int));
    let ok = mem.write_bytes(ptr, buf.as_slice());
    n
}

fn read_from_backend(mem: &mut UserMemory, ptr: usize, len: usize, res: &Result<Vec<u8>, i32>) -> (r:
    usize)
    ensures
        final(mem).base == old(mem).base,
        (r, final(mem).bytes@) == backend_read(*old(mem), ptr, len, *res),
{
    if !mem.range_valid(ptr, len) {
        return linux_errno(EFAULT);
    }
    match res {
        Ok(d) => deliver_prefix(mem, ptr, len, d),
        Err(e) => linux_errno(*e),
    }
}

/// `read`.
pub fn sys_linux_read(
    mem: &mut UserMemory,
    fd: usize,
    ptr: usize,
    len: usize,
    fs: Option<Result<Vec<u8>, i32>>,
    net: Option<Result<Vec<u8>, i32>>,
) -> (r: usize)
    ensures
        final(mem).base == old(mem).base,
        (r, final(mem).bytes@) == read_outcome(*old(mem), fd, ptr, len, fs, net),
{
    if len == 0 {
        return 0;
    }
    if is_stdio_fd(fd) {
        return linux_errno(EBADF);
    }
    if let Some(res) = &fs {
        if fd == STDIN_FD {
            return 0;
        }
        let ghost before = *mem;
        let fs_result = read_from_backend(mem, ptr, len, res);
        if fs_result != linux_errno(EBADF) {
            return fs_result;
        }
    }
    match &net {
        Some(res) => read_from_backend(mem, ptr, len, res),
        None => linux_errno(EBADF),
    }
}

/// A backend's write of the user buffer `[ptr, ptr + len)`: `EFAULT` when
/// the buffer cannot be read, else the count the backend reported, or its
/// error.
pub open spec fn backend_write(mem: UserMemory, ptr: usize, len: usize, res: Result<usize, i32>) -> usize {
    if !mem.range_ok(ptr as int, len as int) {
        errno_word(EFAULT)
    } else {
        match res {
            Ok(n) => n,
            Err(e) => errno_word(e),
        }
    }
}

/// The bytes of a console write: at most `MAX_PRINT_LEN` of them.
pub open spec fn console_len(len: usize) -> usize {
    if len <= MAX_PRINT_LEN {
        len
    } else {
        MAX_PRINT_LEN
    }
}

/// The result of `write(fd, ptr, len)`.  Standard output and error go to the
/// kernel console, which takes valid UTF-8 only; other descriptors go to the
/// file backend, then (on `EBADF`) to the socket backend.
pub open spec fn write_outcome(
    mem: UserMemory,
    fd: usize,
    ptr: usize,
    len: usize,
    fs: Option<Result<usize, i32>>,
    net: Option<Result<usize, i32>>,
) -> usize {
    if len == 0 {
        0
    } else if !(fd == STDOUT_FD || fd == STDERR_FD) {
        if fs is Some && backend_write(mem, ptr, len, fs->0) != errno_word(EBADF) {
            backend_write(mem, ptr, len, fs->0)
        } else {
            match net {
                Some(res) => backend_write(mem, ptr, len, res),
                None => errno_word(EBADF),
            }
        }
    } else if !mem.range_ok(ptr as int, console_len(len) as int) {
        errno_word(EFAULT)
    } else if valid_utf8(mem.bytes_at(ptr as int, console_len(len) as int)) {
        console_len(len)
    } else {
        errno_word(EINVAL)
    }
}

fn write_to_backend(mem: &UserMemory, ptr: usize, len: usize, res: &Result<usize, i32>) -> (r: usize)
    ensures
        r == backend_write(*mem, ptr, len, *res),
{
    if !mem.range_valid(ptr, len) {
        return linux_errno(EFAULT);
    }
    match res {
        Ok(n) => *n,
        Err(e) => linux_errno(*e),
    }
}

/// Whether `write(fd, ptr, len)` shows text on the kernel console: a
/// non-empty, readable, valid UTF-8 write to standard output or error.
pub open spec fn console_shows(mem: UserMemory, fd: usize, ptr: usize, len: usize) -> bool {
    &&& len != 0
    &&& (fd == STDOUT_FD || fd == STDERR_FD)
    &&& mem.range_ok(ptr as int, console_len(len) as int)
    &&& valid_utf8(mem.bytes_at(ptr as int, console_len(len) as int))
}

/// `write`: the value to return, and the text the console is to show
/// (the first `console_len(len)` bytes at `ptr`), if any.
pub fn sys_linux_write(
    mem: &UserMemory,
    fd: usize,
    ptr: usize,
    len: usize,
    fs: Option<Result<usize, i32>>,
    net: Option<Result<usize, i32>>,
) -> (r: (usize, Option<String>))
    ensures
        r.0 == write_outcome(*mem, fd, ptr, len, fs, net),
        r.1 is Some <==> console_shows(*mem, fd, ptr, len),
        r.1 matches Some(text) ==> text@ == decode_utf8(mem.bytes_at(ptr as int, console_len(len) as int)),
{
    if len == 0 {
        return (0, None);
    }
    if !is_stdio_fd(fd) {
        if let Some(res) = &fs {
            let fs_result = write_to_backend(mem, ptr, len, res);
            if fs_result != linux_errno(EBADF) {
                return (fs_result, None);
            }
        }
        return match &net {
            Some(res) => (write_to_backend(mem, ptr, len, res), None),
            None => (linux_errno(EBADF), None),
        };
    }
    let n: usize = if len <= MAX_PRINT_LEN {
        len
    } else {
        MAX_PRINT_LEN
    };
    match mem.read_bytes(ptr, n) {
        None => (linux_errno(EFAULT), None),
        Some(bytes) => {
            match string_from_utf8(bytes) {
                Some(text) => (n, Some(text)),
                None => (linux_errno(EINVAL), None),
            }
        },
    }
}

/// The result of `close(fd)`, and whether the descriptor was released.
pub open spec fn close_outcome(fd: usize, fs: Option<Result<(), i32>>, net: Option<Result<(), i32>>) -> (
    usize,
    bool,
) {
    let fs_passes = match fs {
        None => true,
        Some(Ok(())) => false,
        Some(Err(e)) => e == EBADF,
    };
    if fd <= STDERR_FD {
        (0, false)
    } else if !fs_passes {
        match fs {
            Some(Err(e)) => (errno_word(e), false),
            _ => (0, true),
        }
    } else {
        match net {
            None => (errno_word(EBADF), false),
            Some(Ok(())) => (0, true),
            Some(Err(e)) => (errno_word(e), false),
        }
    }
}

/// `close`: the file backend is asked first, then the socket backend; a
/// released descriptor loses its directory-listing cursor.
pub fn sys_linux_close(
    cursors: &mut GetdentsCursors,
    fd: usize,
    fs: Option<Result<(), i32>>,
    net: Option<Result<(), i32>>,
) -> (r: usize)
    ensures
        r == close_outcome(fd, fs, net).0,
        close_outcome(fd, fs, net).1 ==> final(cursors).cursors() == old(cursors).cursors().remove(
            fd as u32,
        ),
        !close_outcome(fd, fs, net).1 ==> final(cursors).cursors() == old(cursors).cursors(),
{
    if fd <= STDERR_FD {
        return 0;
    }
    match fs {
        Some(Ok(())) => {
            cursors.clear_getdents_cursor(fd as u32);
            return 0;
        },
        Some(Err(e)) => {
            if e != EBADF {
                return linux_errno(e);
            }
        },
        None => {},
    }
    match net {
        Some(Ok(())) => {
            cursors.clear_getdents_cursor(fd as u32);
            0
        },
        Some(Err(e)) => {
            if e != EBADF {
                linux_errno(e)
            } else {
                linux_errno(EBADF)
            }
        },
        None => linux_errno(EBADF),
    }
}

/// The origin of an `lseek`.
#[derive(PartialEq, Eq, Structural, Clone, Copy, Debug)]
pub enum SeekWhence {
    Start,
    Current,
    End,
}

/// Decodes `whence`.
pub fn decode_seek_whence(whence: usize) -> (r: Option<SeekWhence>)
    ensures
        r == (if whence == SEEK_SET {
            Some(SeekWhence::Start)
        } else if whence == SEEK_CUR {
            Some(SeekWhence::Current)
        } else if whence == SEEK_END {
            Some(SeekWhence::End)
        } else {
            None
        }),
{
    if whence == SEEK_SET {
        Some(SeekWhence::Start)
    } else if whence == SEEK_CUR {
        Some(SeekWhence::Current)
    } else if whence == SEEK_END {
        Some(SeekWhence::End)
    } else {
        None
    }
}

/// `lseek`: `EBADF` without a file backend, `EINVAL` for an unknown
/// `whence`, else the new position the backend reports or its error.
pub fn sys_linux_lseek(fd: usize, offset: i64, whence: usize, fs: Option<Result<u64, i32>>) -> (r: usize)
    ensures
        r == (match fs {
            None => errno_word(EBADF),
            Some(res) => if whence > SEEK_END {
                errno_word(EINVAL)
            } else {
                match res {
                    Ok(pos) => pos as usize,
                    Err(e) => errno_word(e),
                }
            },
        }),
{
    match fs {
        None => linux_errno(EBADF),
        Some(res) => {
            if decode_seek_whence(whence).is_none() {
                return linux_errno(EINVAL);
            }
            match res {
                Ok(pos) => pos as usize,
                Err(e) => linux_errno(e),
            }
        },
    }
}

} // verus!
