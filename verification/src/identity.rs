use vstd::prelude::*;

use crate::errno::{errno_word, linux_errno};

verus! {

/// The file-creation mask reported when no process backend keeps one.
pub const DEFAULT_UMASK: usize = 0o022;

/// The value of an identity query: what the process backend reports, or 0
/// (root) when none is built in.
pub open spec fn id_or_root(backend: Option<u32>) -> usize {
    match backend {
        Some(v) => v as usize,
        None => 0,
    }
}

fn id_word(backend: Option<u32>) -> (r: usize)
    ensures
        r == id_or_root(backend),
{
    match backend {
        Some(v) => v as usize,
        None => 0,
    }
}

/// `getuid`.
pub fn sys_linux_getuid(backend: Option<u32>) -> (r: usize)
    ensures
        r == id_or_root(backend),
{
    id_word(backend)
}

/// `getgid`.
pub fn sys_linux_getgid(backend: Option<u32>) -> (r: usize)
    ensures
        r == id_or_root(backend),
{
    id_word(backend)
}

/// `geteuid`.
pub fn sys_linux_geteuid(backend: Option<u32>) -> (r: usize)
    ensures
        r == id_or_root(backend),
{
    id_word(backend)
}

/// `getegid`.
pub fn sys_linux_getegid(backend: Option<u32>) -> (r: usize)
    ensures
        r == id_or_root(backend),
{
    id_word(backend)
}

/// `getpgrp`: without a process backend every process leads its own group,
/// whose id is the caller's pid.
pub fn sys_linux_getpgrp(backend: Option<usize>, pid: usize) -> (r: usize)
    ensures
        r == (match backend {
            Some(v) => v,
            None => pid,
        }),
{
    match backend {
        Some(v) => v,
        None => pid,
    }
}

/// The return word of a query whose backend answers with a value or an
/// error, and which falls back to `fallback` without a backend.
pub open spec fn value_or_errno(backend: Option<Result<usize, i32>>, fallback: usize) -> usize {
    match backend {
        Some(Ok(v)) => v,
        Some(Err(e)) => errno_word(e),
        None => fallback,
    }
}

fn value_word(backend: Option<Result<usize, i32>>, fallback: usize) -> (r: usize)
    ensures
        r == value_or_errno(backend, fallback),
{
    match backend {
        Some(Ok(v)) => v,
        Some(Err(e)) => linux_errno(e),
        None => fallback,
    }
}

/// `getpgid(pid)`; `own_pid` is the caller's pid.
pub fn sys_linux_getpgid(pid: usize, backend: Option<Result<usize, i32>>, own_pid: usize) -> (r: usize)
    ensures
        r == value_or_errno(backend, own_pid),
{
    value_word(backend, own_pid)
}

/// `setpgid(pid, pgid)`: accepted without a process backend.
pub fn sys_linux_setpgid(pid: usize, pgid: usize, backend: Option<Result<(), i32>>) -> (r: usize)
    ensures
        r == (match backend {
            Some(Err(e)) => errno_word(e),
            _ => 0,
        }),
{
    match backend {
        Some(Err(e)) => linux_errno(e),
        _ => 0,
    }
}

/// `setsid`: the new session id, the caller's pid without a backend.
pub fn sys_linux_setsid(backend: Option<Result<usize, i32>>, own_pid: usize) -> (r: usize)
    ensures
        r == value_or_errno(backend, own_pid),
{
    value_word(backend, own_pid)
}

/// `umask(new_mask)`: the previous mask the backend reports, or the default
/// mask without one.
pub fn sys_linux_umask(new_mask: usize, backend: Option<u32>) -> (r: usize)
    ensures
        r == (match backend {
            Some(old_mask) => old_mask as usize,
            None => DEFAULT_UMASK,
        }),
{
    match backend {
        Some(old_mask) => old_mask as usize,
        None => DEFAULT_UMASK,
    }
}

} // verus!
