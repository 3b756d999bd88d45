use vstd::prelude::*;

use crate::errno::{errno_word, linux_errno, EFAULT, EINVAL, ESRCH};
use crate::frame::SyscallFrame;
use crate::user_memory::{
    u32_from_le, u32_le_bytes, u64_from_le, u64_le_bytes, u64_to_le_bytes, UserMemory,
};

verus! {

/// `how` for `rt_sigprocmask`: add the given signals to the mask.
pub const SIG_BLOCK: i32 = 0;

/// `how` for `rt_sigprocmask`: remove the given signals from the mask.
pub const SIG_UNBLOCK: i32 = 1;

/// `how` for `rt_sigprocmask`: replace the mask.
pub const SIG_SETMASK: i32 = 2;

pub const SIGKILL: i32 = 9;

pub const SIGSTOP: i32 = 19;

/// `ss_flags` bit: the alternate signal stack is disabled.
pub const SS_DISABLE: i32 = 2;

/// Size of a signal set in the Linux ABI.
pub const SIGNAL_SET_LEN: usize = 8;

/// Size of a `struct sigaction` as the kernel reads and writes it.
pub const SIGACTION_BYTES: usize = 32;

/// Size of a `stack_t`.
pub const SIGALTSTACK_BYTES: usize = 24;

/// Size of the `ucontext` that `rt_sigreturn` reads.
pub const UCONTEXT_BYTES: usize = 304;

/// The kernel's `struct sigaction` on x86_64.
#[derive(Debug, Clone, Copy, PartialEq, Eq, Structural)]
pub struct LinuxKSigActionCompat {
    pub sa_handler: u64,
    pub sa_flags: u64,
    pub sa_restorer: u64,
    pub sa_mask: u64,
}

/// `stack_t`: the alternate signal stack.
#[derive(Debug, Clone, Copy, PartialEq, Eq, Structural)]
pub struct LinuxSigaltstackCompat {
    pub ss_sp: u64,
    pub ss_flags: i32,
    pub ss_size: u64,
}

/// The registers of `ucontext.uc_mcontext` that `rt_sigreturn` restores.
#[derive(Debug, Clone, Copy, PartialEq, Eq, Structural)]
pub struct LinuxMContextCompat {
    pub r12: u64,
    pub r13: u64,
    pub r14: u64,
    pub r15: u64,
    pub rdi: u64,
    pub rsi: u64,
    pub rbp: u64,
    pub rbx: u64,
    pub rdx: u64,
    pub rax: u64,
    pub rip: u64,
    pub eflags: u64,
}

/// What `rt_sigreturn` takes from a `ucontext`: the saved registers and
/// the signal mask to restore.
#[derive(Debug, Clone, Copy, PartialEq, Eq, Structural)]
pub struct LinuxUContextCompat {
    pub mcontext: LinuxMContextCompat,
    pub sigmask: u64,
}

/// The signal state of the current task that the shim reads and changes.
#[derive(Debug, Clone, Copy, PartialEq, Eq, Structural)]
pub struct SignalTaskState {
    pub signal_mask: u64,
    pub signal_stack: Option<LinuxSigaltstackCompat>,
    pub pending_signals: u64,
}

/// How a `sa_handler` word is interpreted.
#[derive(Debug, Clone, Copy, PartialEq, Eq, Structural)]
pub enum SignalHandlerKind {
    Default,
    Ignore,
    Handler(u64),
}

/// `0` is the default action, `1` ignores the signal, anything else is the
/// address of a handler.
pub fn decode_sa_handler(raw: u64) -> (r: SignalHandlerKind)
    ensures
        raw == 0 ==> r == SignalHandlerKind::Default,
        raw == 1 ==> r == SignalHandlerKind::Ignore,
        raw > 1 ==> r == SignalHandlerKind::Handler(raw),
{
    if raw == 0 {
        SignalHandlerKind::Default
    } else if raw == 1 {
        SignalHandlerKind::Ignore
    } else {
        SignalHandlerKind::Handler(raw)
    }
}

/// A signal number in `1..=64` and a signal set of eight bytes.
pub fn validate_sigaction_args(signum: usize, sigsetsize: usize) -> (r: Result<(), usize>)
    ensures
        r is Ok <==> (sigsetsize == 8 && 1 <= signum <= 64),
        r is Err ==> r == Err::<(), usize>(errno_word(EINVAL)),
{
    if sigsetsize != 8 {
        return Err(linux_errno(EINVAL));
    }
    if signum == 0 || signum > 64 {
        return Err(linux_errno(EINVAL));
    }
    Ok(())
}

/// Accepts `SIG_BLOCK`, `SIG_UNBLOCK` and `SIG_SETMASK`.
pub fn decode_sigprocmask_how(how: usize) -> (r: Result<i32, usize>)
    ensures
        how <= 2 ==> r == Ok::<i32, usize>(how as i32),
        how > 2 ==> r == Err::<i32, usize>(errno_word(EINVAL)),
{
    if how <= 2 {
        Ok(how as i32)
    } else {
        Err(linux_errno(EINVAL))
    }
}

/// Only eight-byte signal sets are accepted.
pub fn validate_linux_sigset_size(sigsetsize: usize) -> (r: Result<(), usize>)
    ensures
        sigsetsize == SIGNAL_SET_LEN ==> r is Ok,
        sigsetsize != SIGNAL_SET_LEN ==> r == Err::<(), usize>(errno_word(EINVAL)),
{
    if sigsetsize != SIGNAL_SET_LEN {
        return Err(linux_errno(EINVAL));
    }
    Ok(())
}

/// A null pointer asks for no copy.
pub fn should_write_signal_set(ptr: usize) -> (r: bool)
    ensures
        r == (ptr != 0),
{
    ptr != 0
}

/// Stores a signal set at `ptr`.
pub fn write_signal_set(mem: &mut UserMemory, ptr: usize, value: u64) -> (r: Result<(), usize>)
    ensures
        final(mem).base == old(mem).base,
        r is Ok <==> old(mem).range_ok(ptr as int, 8),
        r is Ok ==> final(mem).bytes@ == old(mem).stored(ptr as int, u64_le_bytes(value)),
        r is Err ==> r == Err::<(), usize>(errno_word(EFAULT)) && final(mem).bytes@ == old(mem).bytes@,
{
    if mem.write_u64(ptr, value) {
        Ok(())
    } else {
        Err(linux_errno(EFAULT))
    }
}

/// Loads a signal set from `ptr`.
pub fn read_signal_set(mem: &UserMemory, ptr: usize) -> (r: Result<u64, usize>)
    ensures
        r is Ok <==> mem.range_ok(ptr as int, 8),
        r matches Ok(v) ==> v == u64_from_le(mem.bytes_at(ptr as int, 8)),
        r is Err ==> r == Err::<u64, usize>(errno_word(EFAULT)),
{
    match mem.read_u64(ptr) {
        Some(v) => Ok(v),
        None => Err(linux_errno(EFAULT)),
    }
}

/// Only `SS_DISABLE` may be set, and an enabled stack needs a size.
pub fn validate_sigaltstack_flags_and_size(value: &LinuxSigaltstackCompat) -> (r: Result<(), usize>)
    ensures
        r is Ok <==> ((value.ss_flags & !SS_DISABLE) == 0 && ((value.ss_flags & SS_DISABLE) != 0
            || value.ss_size != 0)),
        r is Err ==> r == Err::<(), usize>(errno_word(EINVAL)),
{
    if (value.ss_flags & !SS_DISABLE) != 0 {
        return Err(linux_errno(EINVAL));
    }
    if (value.ss_flags & SS_DISABLE) == 0 && value.ss_size == 0 {
        return Err(linux_errno(EINVAL));
    }
    Ok(())
}

/// The bytes of a `struct sigaction`.
pub open spec fn sigaction_bytes(a: LinuxKSigActionCompat) -> Seq<u8> {
    u64_le_bytes(a.sa_handler) + u64_le_bytes(a.sa_flags) + u64_le_bytes(a.sa_restorer)
        + u64_le_bytes(a.sa_mask)
}

/// The `struct sigaction` stored at `ptr`.
pub open spec fn sigaction_at(mem: UserMemory, ptr: int) -> LinuxKSigActionCompat {
    LinuxKSigActionCompat {
        sa_handler: u64_from_le(mem.bytes_at(ptr, 8)),
        sa_flags: u64_from_le(mem.bytes_at(ptr + 8, 8)),
        sa_restorer: u64_from_le(mem.bytes_at(ptr + 16, 8)),
        sa_mask: u64_from_le(mem.bytes_at(ptr + 24, 8)),
    }
}

/// The all-zero `struct sigaction`.
pub open spec fn zero_sigaction() -> LinuxKSigActionCompat {
    LinuxKSigActionCompat { sa_handler: 0, sa_flags: 0, sa_restorer: 0, sa_mask: 0 }
}

/// Zero-fills the 32-byte `struct sigaction` at `oldact`.
pub fn write_zeroed_sigaction(mem: &mut UserMemory, oldact: usize) -> (r: Result<(), usize>)
    ensures
        final(mem).base == old(mem).base,
        r is Ok <==> old(mem).range_ok(oldact as int, 32),
        r is Ok ==> final(mem).bytes@ == old(mem).stored(
            oldact as int,
            Seq::new(32, |i: int| 0u8),
        ),
        r is Err ==> r == Err::<(), usize>(errno_word(EFAULT)) && final(mem).bytes@ == old(mem).bytes@,
{
    let mut zero: Vec<u8> = Vec::new();
    let mut i: usize = 0;
    while i < SIGACTION_BYTES
        invariant
            i <= 32,
            zero@ == Seq::new(i as nat, |k: int| 0u8),
        decreases 32 - i,
    {
        zero.push(0u8);
        i = i + 1;
    }
    if mem.write_bytes(oldact, zero.as_slice()) {
        Ok(())
    } else {
        Err(linux_errno(EFAULT))
    }
}

/// Stores a `struct sigaction` at `ptr`.
pub fn write_sigaction(mem: &mut UserMemory, ptr: usize, value: &LinuxKSigActionCompat) -> (r: Result<
    (),
    usize,
>)
    ensures
        final(mem).base == old(mem).base,
        r is Ok <==> old(mem).range_ok(ptr as int, 32),
        r is Ok ==> final(mem).bytes@ == old(mem).stored(ptr as int, sigaction_bytes(*value)),
        r is Err ==> r == Err::<(), usize>(errno_word(EFAULT)) && final(mem).bytes@ == old(mem).bytes@,
{
    let mut buf = u64_to_le_bytes(value.sa_handler);
    let b1 = u64_to_le_bytes(value.sa_flags);
    let b2 = u64_to_le_bytes(value.sa_restorer);
    let b3 = u64_to_le_bytes(value.sa_mask);
    buf.extend_from_slice(b1.as_slice());
    buf.extend_from_slice(b2.as_slice());
    buf.extend_from_slice(b3.as_slice());
    assert(buf@ =~= sigaction_bytes(*value));
    if mem.write_bytes(ptr, buf.as_slice()) {
        Ok(())
    } else {
        Err(linux_errno(EFAULT))
    }
}

/// Loads a `struct sigaction` from `ptr`.
pub fn read_sigaction(mem: &UserMemory, ptr: usize) -> (r: Result<LinuxKSigActionCompat, usize>)
    ensures
        r is Ok <==> mem.range_ok(ptr as int, 32),
        r matches Ok(a) ==> a == sigaction_at(*mem, ptr as int),
        r is Err ==> r == Err::<LinuxKSigActionCompat, usize>(errno_word(EFAULT)),
{
    if !mem.range_valid(ptr, SIGACTION_BYTES) {
        return Err(linux_errno(EFAULT));
    }
    let h = mem.read_u64(ptr);
    let f = mem.read_u64(ptr + 8);
    let rs = mem.read_u64(ptr + 16);
    let m = mem.read_u64(ptr + 24);
    match (h, f, rs, m) {
        (Some(h), Some(f), Some(rs), Some(m)) => Ok(
            LinuxKSigActionCompat { sa_handler: h, sa_flags: f, sa_restorer: rs, sa_mask: m },
        ),
        _ => Err(linux_errno(EFAULT)),
    }
}

/// The bytes of a `stack_t`; the four padding bytes after `ss_flags` are
/// written as zero.
pub open spec fn sigaltstack_bytes(s: LinuxSigaltstackCompat) -> Seq<u8> {
    u64_le_bytes(s.ss_sp) + u32_le_bytes(s.ss_flags as u32) + seq![0u8, 0u8, 0u8, 0u8]
        + u64_le_bytes(s.ss_size)
}

/// The `stack_t` stored at `ptr`.
pub open spec fn sigaltstack_at(mem: UserMemory, ptr: int) -> LinuxSigaltstackCompat {
    LinuxSigaltstackCompat {
        ss_sp: u64_from_le(mem.bytes_at(ptr, 8)),
        ss_flags: u32_from_le(mem.bytes_at(ptr + 8, 4)) as i32,
        ss_size: u64_from_le(mem.bytes_at(ptr + 16, 8)),
    }
}

/// Stores a `stack_t` at `ptr`.
pub fn write_sigaltstack(mem: &mut UserMemory, ptr: usize, value: &LinuxSigaltstackCompat) -> (r:
    Result<(), usize>)
    ensures
        final(mem).base == old(mem).base,
        r is Ok <==> old(mem).range_ok(ptr as int, 24),
        r is Ok ==> final(mem).bytes@ == old(mem).stored(ptr as int, sigaltstack_bytes(*value)),
        r is Err ==> r == Err::<(), usize>(errno_word(EFAULT)) && final(mem).bytes@ == old(mem).bytes@,
{
    let mut buf = u64_to_le_bytes(value.ss_sp);
    let w = value.ss_flags as u32;
    buf.push((w & 0xff) as u8);
    buf.push(((w >> 8u32) & 0xff) as u8);
    buf.push(((w >> 16u32) & 0xff) as u8);
    buf.push(((w >> 24u32) & 0xff) as u8);
    buf.push(0u8);
    buf.push(0u8);
    buf.push(0u8);
    buf.push(0u8);
    let tail = u64_to_le_bytes(value.ss_size);
    buf.extend_from_slice(tail.as_slice());
    assert(buf@ =~= sigaltstack_bytes(*value));
    if mem.write_bytes(ptr, buf.as_slice()) {
        Ok(())
    } else {
        Err(linux_errno(EFAULT))
    }
}

/// Loads a `stack_t` from `ptr`.
pub fn read_sigaltstack(mem: &UserMemory, ptr: usize) -> (r: Result<LinuxSigaltstackCompat, usize>)
    ensures
        r is Ok <==> mem.range_ok(ptr as int, 24),
        r matches Ok(s) ==> s == sigaltstack_at(*mem, ptr as int),
        r is Err ==> r == Err::<LinuxSigaltstackCompat, usize>(errno_word(EFAULT)),
{
    if !mem.range_valid(ptr, SIGALTSTACK_BYTES) {
        return Err(linux_errno(EFAULT));
    }
    let sp = mem.read_u64(ptr);
    let fl = mem.read_u32(ptr + 8);
    let sz = mem.read_u64(ptr + 16);
    match (sp, fl, sz) {
        (Some(sp), Some(fl), Some(sz)) => Ok(
            LinuxSigaltstackCompat { ss_sp: sp, ss_flags: fl as i32, ss_size: sz },
        ),
        _ => Err(linux_errno(EFAULT)),
    }
}

/// The `u64` at byte offset `off` of the `ucontext` at `ptr`.
pub open spec fn uc_word(mem: UserMemory, ptr: int, off: int) -> u64 {
    u64_from_le(mem.bytes_at(ptr + off, 8))
}

/// The part of the `ucontext` at `ptr` that `rt_sigreturn` uses.
#[verifier::opaque]
pub open spec fn ucontext_at(mem: UserMemory, ptr: int) -> LinuxUContextCompat {
    LinuxUContextCompat {
        mcontext: LinuxMContextCompat {
            r12: uc_word(mem, ptr, 72),
            r13: uc_word(mem, ptr, 80),
            r14: uc_word(mem, ptr, 88),
            r15: uc_word(mem, ptr, 96),
            rdi: uc_word(mem, ptr, 104),
            rsi: uc_word(mem, ptr, 112),
            rbp: uc_word(mem, ptr, 120),
            rbx: uc_word(mem, ptr, 128),
            rdx: uc_word(mem, ptr, 136),
            rax: uc_word(mem, ptr, 144),
            rip: uc_word(mem, ptr, 168),
            eflags: uc_word(mem, ptr, 176),
        },
        sigmask: uc_word(mem, ptr, 296),
    }
}

/// One `u64` of a `ucontext` whose whole range was checked.
fn uc_read(mem: &UserMemory, ptr: usize, off: usize) -> (w: u64)
    requires
        mem.range_ok(ptr as int, 304),
        off + 8 <= 304,
    ensures
        w == uc_word(*mem, ptr as int, off as int),
{
    match mem.read_u64(ptr + off) {
        Some(w) => w,
        None => 0,
    }
}

/// Loads the saved registers and signal mask of the `ucontext` at `ptr`.
pub fn read_ucontext(mem: &UserMemory, ptr: usize) -> (r: Result<LinuxUContextCompat, usize>)
    ensures
        r is Ok <==> mem.range_ok(ptr as int, 304),
        r matches Ok(u) ==> u == ucontext_at(*mem, ptr as int),
        r is Err ==> r == Err::<LinuxUContextCompat, usize>(errno_word(EFAULT)),
{
    if !mem.range_valid(ptr, UCONTEXT_BYTES) {
        return Err(linux_errno(EFAULT));
    }
    proof {
        reveal(ucontext_at);
    }
    let mcontext = LinuxMContextCompat {
        r12: uc_read(mem, ptr, 72),
        r13: uc_read(mem, ptr, 80),
        r14: uc_read(mem, ptr, 88),
        r15: uc_read(mem, ptr, 96),
        rdi: uc_read(mem, ptr, 104),
        rsi: uc_read(mem, ptr, 112),
        rbp: uc_read(mem, ptr, 120),
        rbx: uc_read(mem, ptr, 128),
        rdx: uc_read(mem, ptr, 136),
        rax: uc_read(mem, ptr, 144),
        rip: uc_read(mem, ptr, 168),
        eflags: uc_read(mem, ptr, 176),
    };
    Ok(LinuxUContextCompat { mcontext, sigmask: uc_read(mem, ptr, 296) })
}

/// The frame after the registers of `m` are restored into it.
pub open spec fn restored_frame(f: SyscallFrame, m: LinuxMContextCompat) -> SyscallFrame {
    SyscallFrame {
        r15: m.r15,
        r14: m.r14,
        r13: m.r13,
        r12: m.r12,
        rbp: m.rbp,
        rbx: m.rbx,
        rflags: m.eflags,
        rax: m.rax,
        rdx: m.rdx,
        rsi: m.rsi,
        rdi: m.rdi,
        rip: m.rip,
    }
}

/// The address `rt_sigreturn` falls back to: eight bytes past `rsi`,
/// saturating.
pub open spec fn sigreturn_fallback(rsi: u64) -> int {
    if rsi as usize as int + 8 > usize::MAX { usize::MAX as int } else { rsi as usize as int + 8 }
}

/// Returns from a signal handler: restores the registers saved in the
/// `ucontext` that `rsi` points at (or, failing that, eight bytes past
/// it).  Gives the value to return (the restored `rax`, or `EFAULT`) and
/// the signal mask to reinstate.
pub fn sys_linux_rt_sigreturn_shim(mem: &UserMemory, frame: &mut SyscallFrame) -> (r: (
    usize,
    Option<u64>,
))
    ensures
        mem.range_ok(old(frame).rsi as usize as int, 304) ==> {
            let u = ucontext_at(*mem, old(frame).rsi as usize as int);
            &&& *final(frame) == restored_frame(*old(frame), u.mcontext)
            &&& r == (u.mcontext.rax as usize, Some(u.sigmask))
        },
        !mem.range_ok(old(frame).rsi as usize as int, 304) && mem.range_ok(
            sigreturn_fallback(old(frame).rsi),
            304,
        ) ==> {
            let u = ucontext_at(*mem, sigreturn_fallback(old(frame).rsi));
            &&& *final(frame) == restored_frame(*old(frame), u.mcontext)
            &&& r == (u.mcontext.rax as usize, Some(u.sigmask))
        },
        !mem.range_ok(old(frame).rsi as usize as int, 304) && !mem.range_ok(
            sigreturn_fallback(old(frame).rsi),
            304,
        ) ==> *final(frame) == *old(frame) && r == (errno_word(EFAULT), None::<u64>),
{
    let rsi = frame.rsi as usize;
    let uctx = match read_ucontext(mem, rsi) {
        Ok(v) => v,
        Err(_) => {
            let alt = rsi.saturating_add(8);
            match read_ucontext(mem, alt) {
                Ok(v) => v,
                Err(err) => return (err, None),
            }
        },
    };
    restore_registers(frame, &uctx.mcontext);
    (frame.rax as usize, Some(uctx.sigmask))
}

/// Copies the saved registers of `m` into the frame.
fn restore_registers(frame: &mut SyscallFrame, m: &LinuxMContextCompat)
    ensures
        *final(frame) == restored_frame(*old(frame), *m),
{
    frame.r15 = m.r15;
    frame.r14 = m.r14;
    frame.r13 = m.r13;
    frame.r12 = m.r12;
    frame.rbp = m.rbp;
    frame.rbx = m.rbx;
    frame.rflags = m.eflags;
    frame.rax = m.rax;
    frame.rdx = m.rdx;
    frame.rsi = m.rsi;
    frame.rdi = m.rdi;
    frame.rip = m.rip;
}

/// The mask after `rt_sigprocmask` applies `new_mask` with `how`.
pub open spec fn updated_mask(how: i32, old_mask: u64, new_mask: u64) -> u64 {
    if how == SIG_BLOCK {
        old_mask | new_mask
    } else if how == SIG_UNBLOCK {
        old_mask & !new_mask
    } else {
        new_mask
    }
}

/// `rt_sigprocmask` for the current task (`None` when there is none).
pub fn sys_linux_rt_sigprocmask_shim(
    mem: &mut UserMemory,
    task: &mut Option<SignalTaskState>,
    how: usize,
    set: usize,
    oldset: usize,
    sigsetsize: usize,
) -> (r: usize)
    ensures
        final(mem).base == old(mem).base,
        sigsetsize != 8 ==> r == errno_word(EINVAL) && *final(mem) == *old(mem) && *final(task)
            == *old(task),
        sigsetsize == 8 && how > 2 ==> r == errno_word(EINVAL) && *final(mem) == *old(mem)
            && *final(task) == *old(task),
        sigsetsize == 8 && how <= 2 && (*old(task)) is None ==> r == errno_word(ESRCH) && *final(mem)
            == *old(mem) && *final(task) == *old(task),
        *old(task) matches Some(t) ==> (sigsetsize == 8 && how <= 2 ==> {
            let wrote_ok = oldset == 0 || old(mem).range_ok(oldset as int, 8);
            let after_old = if oldset != 0 && wrote_ok {
                old(mem).stored(oldset as int, u64_le_bytes(t.signal_mask))
            } else {
                old(mem).bytes@
            };
            &&& final(mem).bytes@ == after_old
            &&& !wrote_ok ==> r == errno_word(EFAULT) && *final(task) == *old(task)
            &&& wrote_ok && set == 0 ==> r == 0 && *final(task) == *old(task)
            &&& wrote_ok && set != 0 && !old(mem).range_ok(set as int, 8) ==> r == errno_word(EFAULT)
                && *final(task) == *old(task)
            &&& wrote_ok && set != 0 && old(mem).range_ok(set as int, 8) ==> {
                let new_mask = u64_from_le(final(mem).bytes_at(set as int, 8));
                r == 0 && *final(task) == Some(
                    SignalTaskState {
                        signal_mask: updated_mask(how as i32, t.signal_mask, new_mask),
                        ..t
                    },
                )
            }
        }),
{
    if let Err(err) = validate_linux_sigset_size(sigsetsize) {
        return err;
    }
    let how = match decode_sigprocmask_how(how) {
        Ok(v) => v,
        Err(err) => return err,
    };
    let mut t = match *task {
        Some(t) => t,
        None => return linux_errno(ESRCH),
    };
    let old_mask = t.signal_mask;
    if should_write_signal_set(oldset) {
        if let Err(err) = write_signal_set(mem, oldset, old_mask) {
            return err;
        }
    }
    if set != 0 {
        let new_mask = match read_signal_set(mem, set) {
            Ok(v) => v,
            Err(err) => return err,
        };
        t.signal_mask = if how == SIG_BLOCK {
            old_mask | new_mask
        } else if how == SIG_UNBLOCK {
            old_mask & !new_mask
        } else {
            new_mask
        };
        *task = Some(t);
    }
    0
}

/// What `sigaltstack` reports for the task's current stack.
pub open spec fn reported_altstack(s: Option<LinuxSigaltstackCompat>) -> LinuxSigaltstackCompat {
    match s {
        Some(ss) => ss,
        None => LinuxSigaltstackCompat { ss_sp: 0, ss_flags: SS_DISABLE, ss_size: 0 },
    }
}

/// `sigaltstack` for the current task (`None` when there is none).
pub fn sys_linux_sigaltstack_shim(
    mem: &mut UserMemory,
    task: &mut Option<SignalTaskState>,
    ss_ptr: usize,
    old_ss_ptr: usize,
) -> (r: usize)
    ensures
        final(mem).base == old(mem).base,
        (*old(task)) is None ==> r == errno_word(ESRCH) && *final(mem) == *old(mem) && *final(task)
            == *old(task),
        *old(task) matches Some(t) ==> {
            let wrote_ok = old_ss_ptr == 0 || old(mem).range_ok(old_ss_ptr as int, 24);
            let after_old = if old_ss_ptr != 0 && wrote_ok {
                old(mem).stored(old_ss_ptr as int, sigaltstack_bytes(reported_altstack(t.signal_stack)))
            } else {
                old(mem).bytes@
            };
            let ns = sigaltstack_at(*final(mem), ss_ptr as int);
            &&& final(mem).bytes@ == after_old
            &&& !wrote_ok ==> r == errno_word(EFAULT) && *final(task) == *old(task)
            &&& wrote_ok && ss_ptr == 0 ==> r == 0 && *final(task) == *old(task)
            &&& wrote_ok && ss_ptr != 0 && !old(mem).range_ok(ss_ptr as int, 24) ==> r == errno_word(
                EFAULT,
            ) && *final(task) == *old(task)
            &&& wrote_ok && ss_ptr != 0 && old(mem).range_ok(ss_ptr as int, 24) ==> {
                let valid = (ns.ss_flags & !SS_DISABLE) == 0 && ((ns.ss_flags & SS_DISABLE) != 0
                    || ns.ss_size != 0);
                &&& !valid ==> r == errno_word(EINVAL) && *final(task) == *old(task)
                &&& valid ==> r == 0 && *final(task) == Some(
                    SignalTaskState {
                        signal_stack: if (ns.ss_flags & SS_DISABLE) != 0 {
                            None
                        } else {
                            Some(ns)
                        },
                        ..t
                    },
                )
            }
        },
{
    let mut t = match *task {
        Some(t) => t,
        None => return linux_errno(ESRCH),
    };
    if old_ss_ptr != 0 {
        let current = match t.signal_stack {
            Some(ss) => ss,
            None => LinuxSigaltstackCompat { ss_sp: 0, ss_flags: SS_DISABLE, ss_size: 0 },
        };
        if let Err(err) = write_sigaltstack(mem, old_ss_ptr, &current) {
            return err;
        }
    }
    if ss_ptr != 0 {
        let new_ss = match read_sigaltstack(mem, ss_ptr) {
            Ok(v) => v,
            Err(err) => return err,
        };
        if let Err(err) = validate_sigaltstack_flags_and_size(&new_ss) {
            return err;
        }
        t.signal_stack = if (new_ss.ss_flags & SS_DISABLE) != 0 {
            None
        } else {
            Some(new_ss)
        };
        *task = Some(t);
    }
    0
}

/// `rt_sigpending`: copies the pending set (or the error of looking it
/// up) to `set_ptr`.
pub fn sys_linux_rt_sigpending_shim(
    mem: &mut UserMemory,
    set_ptr: usize,
    sigsetsize: usize,
    pending: Result<u64, usize>,
) -> (r: usize)
    ensures
        final(mem).base == old(mem).base,
        sigsetsize != 8 ==> r == errno_word(EINVAL) && *final(mem) == *old(mem),
        sigsetsize == 8 && set_ptr == 0 ==> r == 0 && *final(mem) == *old(mem),
        pending matches Err(e) ==> (sigsetsize == 8 && set_ptr != 0 ==> r == e && *final(mem)
            == *old(mem)),
        pending matches Ok(p) ==> (sigsetsize == 8 && set_ptr != 0 ==> {
            &&& old(mem).range_ok(set_ptr as int, 8) ==> r == 0 && final(mem).bytes@ == old(mem).stored(set_ptr as int, u64_le_bytes(p))
            &&& !old(mem).range_ok(set_ptr as int, 8) ==> r == errno_word(EFAULT) && final(mem).bytes@ == old(mem).bytes@
        }),
{
    if let Err(err) = validate_linux_sigset_size(sigsetsize) {
        return err;
    }
    if !should_write_signal_set(set_ptr) {
        return 0;
    }
    let p = match pending {
        Ok(p) => p,
        Err(err) => return err,
    };
    match write_signal_set(mem, set_ptr, p) {
        Ok(()) => 0,
        Err(err) => err,
    }
}

/// `rt_sigaction`: checks the arguments, reports the previous action
/// (`previous`, `None` for the default) at `oldact`, and reads the new one
/// from `act`.  `Err` holds the value to return at once; `Ok(Some(a))`
/// the action to install, after which `sigaction_install_outcome` gives
/// the return value; `Ok(None)` returns `0`.
pub fn sys_linux_rt_sigaction_shim(
    mem: &mut UserMemory,
    signum: usize,
    act: usize,
    oldact: usize,
    sigsetsize: usize,
    previous: Option<LinuxKSigActionCompat>,
) -> (r: Result<Option<LinuxKSigActionCompat>, usize>)
    ensures
        final(mem).base == old(mem).base,
        !(sigsetsize == 8 && 1 <= signum <= 64) ==> r == Err::<Option<LinuxKSigActionCompat>, usize>(
            errno_word(EINVAL),
        ) && *final(mem) == *old(mem),
        sigsetsize == 8 && (signum == 9 || signum == 19) ==> r == Err::<
            Option<LinuxKSigActionCompat>,
            usize,
        >(errno_word(EINVAL)) && *final(mem) == *old(mem),
        sigsetsize == 8 && 1 <= signum <= 64 && signum != 9 && signum != 19 ==> {
            let prev = match previous {
                Some(a) => a,
                None => zero_sigaction(),
            };
            let wrote_ok = oldact == 0 || old(mem).range_ok(oldact as int, 32);
            let after_old = if oldact != 0 && wrote_ok {
                old(mem).stored(oldact as int, sigaction_bytes(prev))
            } else {
                old(mem).bytes@
            };
            &&& final(mem).bytes@ == after_old
            &&& !wrote_ok ==> r == Err::<Option<LinuxKSigActionCompat>, usize>(errno_word(EFAULT))
            &&& wrote_ok && act == 0 ==> r == Ok::<Option<LinuxKSigActionCompat>, usize>(None)
            &&& wrote_ok && act != 0 && !old(mem).range_ok(act as int, 32) ==> r == Err::<
                Option<LinuxKSigActionCompat>,
                usize,
            >(errno_word(EFAULT))
            &&& wrote_ok && act != 0 && old(mem).range_ok(act as int, 32) ==> r == Ok::<
                Option<LinuxKSigActionCompat>,
                usize,
            >(Some(sigaction_at(*final(mem), act as int)))
        },
{
    if let Err(err) = validate_sigaction_args(signum, sigsetsize) {
        return Err(err);
    }
    let sig = signum as i32;
    if sig == SIGKILL || sig == SIGSTOP {
        return Err(linux_errno(EINVAL));
    }
    if oldact != 0 {
        let prev = match previous {
            Some(a) => a,
            None => LinuxKSigActionCompat { sa_handler: 0, sa_flags: 0, sa_restorer: 0, sa_mask: 0 },
        };
        if let Err(err) = write_sigaction(mem, oldact, &prev) {
            return Err(err);
        }
    }
    if act != 0 {
        return match read_sigaction(mem, act) {
            Ok(a) => Ok(Some(a)),
            Err(err) => Err(err),
        };
    }
    Ok(None)
}

/// The return value of `rt_sigaction` once the signal layer accepted or
/// refused the new action.
pub fn sigaction_install_outcome(installed: bool) -> (r: usize)
    ensures
        installed ==> r == 0,
        !installed ==> r == errno_word(EINVAL),
{
    if installed {
        0
    } else {
        linux_errno(EINVAL)
    }
}

/// The bytes at `ptr..ptr + n` of memory that holds `data` stored at
/// `ptr`, from offset `k`.
proof fn lemma_stored_slice(before: UserMemory, after: UserMemory, ptr: int, data: Seq<u8>, k: int, n: int)
    requires
        before.range_ok(ptr, data.len() as int),
        after.base == before.base,
        after.bytes@ == before.stored(ptr, data),
        0 <= k,
        0 <= n,
        k + n <= data.len(),
    ensures
        after.bytes_at(ptr + k, n) == data.subrange(k, k + n),
{
    crate::user_memory::law_read_after_write(before, ptr, data);
    let whole = after.bytes@.subrange(ptr - before.base, ptr - before.base + data.len());
    assert(after.bytes_at(ptr + k, n) =~= whole.subrange(k, k + n));
}

/// A signal set written by `write_signal_set` reads back unchanged with
/// `read_signal_set`.
pub proof fn law_signal_set_roundtrip(before: UserMemory, after: UserMemory, ptr: int, value: u64)
    requires
        before.range_ok(ptr, 8),
        after.base == before.base,
        after.bytes@ == before.stored(ptr, u64_le_bytes(value)),
    ensures
        after.range_ok(ptr, 8),
        u64_from_le(after.bytes_at(ptr, 8)) == value,
{
    crate::user_memory::law_read_after_write(before, ptr, u64_le_bytes(value));
    lemma_stored_slice(before, after, ptr, u64_le_bytes(value), 0, 8);
    assert(u64_le_bytes(value).subrange(0, 8) =~= u64_le_bytes(value));
    crate::user_memory::lemma_u64_roundtrip(value);
}

/// A `struct sigaction` written by `write_sigaction` reads back unchanged
/// with `read_sigaction`.
pub proof fn law_sigaction_roundtrip(before: UserMemory, after: UserMemory, ptr: int, value: LinuxKSigActionCompat)
    requires
        before.range_ok(ptr, 32),
        after.base == before.base,
        after.bytes@ == before.stored(ptr, sigaction_bytes(value)),
    ensures
        after.range_ok(ptr, 32),
        sigaction_at(after, ptr) == value,
{
    let d = sigaction_bytes(value);
    crate::user_memory::law_read_after_write(before, ptr, d);
    lemma_stored_slice(before, after, ptr, d, 0, 8);
    lemma_stored_slice(before, after, ptr, d, 8, 8);
    lemma_stored_slice(before, after, ptr, d, 16, 8);
    lemma_stored_slice(before, after, ptr, d, 24, 8);
    assert(d.subrange(0, 8) =~= u64_le_bytes(value.sa_handler));
    assert(d.subrange(8, 16) =~= u64_le_bytes(value.sa_flags));
    assert(d.subrange(16, 24) =~= u64_le_bytes(value.sa_restorer));
    assert(d.subrange(24, 32) =~= u64_le_bytes(value.sa_mask));
    crate::user_memory::lemma_u64_roundtrip(value.sa_handler);
    crate::user_memory::lemma_u64_roundtrip(value.sa_flags);
    crate::user_memory::lemma_u64_roundtrip(value.sa_restorer);
    crate::user_memory::lemma_u64_roundtrip(value.sa_mask);
}

/// `write_sigaction` lays a `struct sigaction` out as the x86-64 Linux ABI
/// does: the handler's little-endian word at offset 0, the flags at 8, the
/// restorer at 16 and the signal mask at 24.
pub proof fn law_sigaction_write_layout(before: UserMemory, after: UserMemory, ptr: int, value: LinuxKSigActionCompat)
    requires
        before.range_ok(ptr, 32),
        after.base == before.base,
        after.bytes@ == before.stored(ptr, sigaction_bytes(value)),
    ensures
        sigaction_bytes(value).len() == 32,
        after.bytes_at(ptr, 8) == u64_le_bytes(value.sa_handler),
        after.bytes_at(ptr + 8, 8) == u64_le_bytes(value.sa_flags),
        after.bytes_at(ptr + 16, 8) == u64_le_bytes(value.sa_restorer),
        after.bytes_at(ptr + 24, 8) == u64_le_bytes(value.sa_mask),
{
    let d = sigaction_bytes(value);
    lemma_stored_slice(before, after, ptr, d, 0, 8);
    lemma_stored_slice(before, after, ptr, d, 8, 8);
    lemma_stored_slice(before, after, ptr, d, 16, 8);
    lemma_stored_slice(before, after, ptr, d, 24, 8);
    assert(d.subrange(0, 8) =~= u64_le_bytes(value.sa_handler));
    assert(d.subrange(8, 16) =~= u64_le_bytes(value.sa_flags));
    assert(d.subrange(16, 24) =~= u64_le_bytes(value.sa_restorer));
    assert(d.subrange(24, 32) =~= u64_le_bytes(value.sa_mask));
}

/// `read_sigaction` takes a `struct sigaction` from the x86-64 Linux ABI
/// layout: memory that holds the words `handler`, `flags`, `restorer` and
/// `mask`, little-endian at offsets 0, 8, 16 and 24, reads as exactly that
/// action.
pub proof fn law_sigaction_read_layout(mem: UserMemory, ptr: int, handler: u64, flags: u64, restorer: u64, mask: u64)
    requires
        mem.range_ok(ptr, 32),
        mem.bytes_at(ptr, 8) == u64_le_bytes(handler),
        mem.bytes_at(ptr + 8, 8) == u64_le_bytes(flags),
        mem.bytes_at(ptr + 16, 8) == u64_le_bytes(restorer),
        mem.bytes_at(ptr + 24, 8) == u64_le_bytes(mask),
    ensures
        sigaction_at(mem, ptr) == (LinuxKSigActionCompat {
            sa_handler: handler,
            sa_flags: flags,
            sa_restorer: restorer,
            sa_mask: mask,
        }),
{
    crate::user_memory::lemma_u64_roundtrip(handler);
    crate::user_memory::lemma_u64_roundtrip(flags);
    crate::user_memory::lemma_u64_roundtrip(restorer);
    crate::user_memory::lemma_u64_roundtrip(mask);
}

/// A `stack_t` written by `write_sigaltstack` reads back unchanged with
/// `read_sigaltstack`.
pub proof fn law_sigaltstack_roundtrip(before: UserMemory, after: UserMemory, ptr: int, value: LinuxSigaltstackCompat)
    requires
        before.range_ok(ptr, 24),
        after.base == before.base,
        after.bytes@ == before.stored(ptr, sigaltstack_bytes(value)),
    ensures
        after.range_ok(ptr, 24),
        sigaltstack_at(after, ptr) == value,
{
    let d = sigaltstack_bytes(value);
    crate::user_memory::law_read_after_write(before, ptr, d);
    lemma_stored_slice(before, after, ptr, d, 0, 8);
    lemma_stored_slice(before, after, ptr, d, 8, 4);
    lemma_stored_slice(before, after, ptr, d, 16, 8);
    assert(d.subrange(0, 8) =~= u64_le_bytes(value.ss_sp));
    assert(d.subrange(8, 12) =~= u32_le_bytes(value.ss_flags as u32));
    assert(d.subrange(16, 24) =~= u64_le_bytes(value.ss_size));
    crate::user_memory::lemma_u64_roundtrip(value.ss_sp);
    crate::user_memory::lemma_u64_roundtrip(value.ss_size);
    crate::user_memory::lemma_u32_roundtrip(value.ss_flags as u32);
    let f = value.ss_flags;
    assert((f as u32) as i32 == f) by (bit_vector);
}

} // verus!
