use vstd::prelude::*;

use std::collections::BTreeMap;

use crate::control_plane::{
    invalid_arg, permission_denied_arg, upcall_entry_pc_valid, user_access_denied_arg,
    write_user_words, write_words_ok, write_words_outcome,
};
use crate::task::ProcessId;
use crate::user_memory::{
    u32_from_le, usize_words_bytes, UserMemory, SYSCALL_ERR_INVALID_ARG,
    SYSCALL_ERR_PERMISSION_DENIED, SYSCALL_ERR_USER_ACCESS_DENIED,
};

verus! {

broadcast use vstd::std_specs::btree::group_btree_axioms;

/// Size of a futex word in user memory.
pub const FUTEX_WORD_BYTES: usize = 4;

/// What `sys_futex_wait` returns when the word no longer holds the
/// expected value.
pub const FUTEX_WAIT_VALUE_MISMATCH: usize = 1;

/// The key a futex is queued under: the caller's hint, or the word's
/// address when the hint is zero.
#[inline(always)]
pub fn futex_key_from_ptr_or_hint(ptr: usize, key_hint: usize) -> (r: u64)
    ensures
        key_hint == 0 ==> r == ptr as u64,
        key_hint != 0 ==> r == key_hint as u64,
{
    if key_hint == 0 {
        ptr as u64
    } else {
        key_hint as u64
    }
}

/// A wait that passed the checks: the queue key, the value read from the
/// futex word and the value the caller expects there.
#[derive(Debug, Clone, Copy, PartialEq, Eq, Structural)]
pub struct FutexWaitRequest {
    pub key: u64,
    pub observed: u32,
    pub expected: u32,
}

/// How the futex table answered a wait.
#[derive(Debug, Clone, Copy, PartialEq, Eq, Structural)]
pub enum FutexWaitResult {
    Enqueued,
    ValueMismatch,
}

/// Checks a futex wait and reads the futex word.  `Err` holds the value to
/// return at once; `Ok` the request to hand to the futex table.
pub fn sys_futex_wait(
    mem: &UserMemory,
    user_word_ptr: usize,
    expected: usize,
    key_hint: usize,
    access: Result<(), usize>,
) -> (r: Result<FutexWaitRequest, usize>)
    ensures
        access matches Err(e) ==> r == Err::<FutexWaitRequest, usize>(e),
        access is Ok && expected > u32::MAX ==> r == Err::<FutexWaitRequest, usize>(
            SYSCALL_ERR_INVALID_ARG,
        ),
        access is Ok && expected <= u32::MAX && !mem.range_ok(user_word_ptr as int, 4) ==> r
            == Err::<FutexWaitRequest, usize>(SYSCALL_ERR_USER_ACCESS_DENIED),
        access is Ok && expected <= u32::MAX && mem.range_ok(user_word_ptr as int, 4) ==> r
            == Ok::<FutexWaitRequest, usize>(
            FutexWaitRequest {
                key: if key_hint == 0 { user_word_ptr as u64 } else { key_hint as u64 },
                observed: u32_from_le(mem.bytes_at(user_word_ptr as int, 4)),
                expected: expected as u32,
            },
        ),
{
    if let Err(err) = access {
        return Err(err);
    }
    if expected > u32::MAX as usize {
        return Err(invalid_arg());
    }
    match mem.read_u32(user_word_ptr) {
        None => Err(user_access_denied_arg()),
        Some(observed) => {
            let key = futex_key_from_ptr_or_hint(user_word_ptr, key_hint);
            Ok(FutexWaitRequest { key, observed, expected: expected as u32 })
        },
    }
}

/// The value `sys_futex_wait` returns for the futex table's answer.
pub fn futex_wait_result_code(res: FutexWaitResult) -> (r: usize)
    ensures
        res == FutexWaitResult::Enqueued ==> r == 0,
        res == FutexWaitResult::ValueMismatch ==> r == FUTEX_WAIT_VALUE_MISMATCH,
{
    match res {
        FutexWaitResult::Enqueued => 0,
        FutexWaitResult::ValueMismatch => FUTEX_WAIT_VALUE_MISMATCH,
    }
}

/// A wake that passed the checks: the queue key and how many to wake.
#[derive(Debug, Clone, Copy, PartialEq, Eq, Structural)]
pub struct FutexWakeRequest {
    pub key: u64,
    pub max_wake: usize,
}

/// Checks a futex wake.  `Err` holds the value to return at once (`0` when
/// nothing is to be woken); `Ok` the request for the futex table, which
/// returns the number of tasks it woke.
pub fn sys_futex_wake(
    mem: &UserMemory,
    user_word_ptr: usize,
    max_wake: usize,
    key_hint: usize,
    access: Result<(), usize>,
) -> (r: Result<FutexWakeRequest, usize>)
    ensures
        access matches Err(e) ==> r == Err::<FutexWakeRequest, usize>(e),
        access is Ok && max_wake == 0 ==> r == Err::<FutexWakeRequest, usize>(0),
        access is Ok && max_wake != 0 && !mem.range_ok(user_word_ptr as int, 4) ==> r == Err::<
            FutexWakeRequest,
            usize,
        >(SYSCALL_ERR_USER_ACCESS_DENIED),
        access is Ok && max_wake != 0 && mem.range_ok(user_word_ptr as int, 4) ==> r == Ok::<
            FutexWakeRequest,
            usize,
        >(
            FutexWakeRequest {
                key: if key_hint == 0 { user_word_ptr as u64 } else { key_hint as u64 },
                max_wake,
            },
        ),
{
    if let Err(err) = access {
        return Err(err);
    }
    if max_wake == 0 {
        return Err(0);
    }
    if !mem.range_valid(user_word_ptr, FUTEX_WORD_BYTES) {
        return Err(user_access_denied_arg());
    }
    let key = futex_key_from_ptr_or_hint(user_word_ptr, key_hint);
    Ok(FutexWakeRequest { key, max_wake })
}

/// A registered upcall handler for an interrupt line.
#[derive(Debug, Clone, Copy, PartialEq, Eq, Structural)]
pub struct UpcallEntry {
    pub process_id: ProcessId,
    pub entry_pc: u64,
    pub user_ctx: u64,
    pub flags: u32,
}

/// A delivered upcall, as handed to its process.
#[derive(Debug, Clone, Copy, PartialEq, Eq, Structural)]
pub struct UpcallDelivery {
    pub irq: u8,
    pub process_id: ProcessId,
    pub entry_pc: u64,
    pub user_ctx: u64,
    pub flags: u32,
}

/// The upcall handlers, one per interrupt line.
pub struct UpcallRegistry {
    table: BTreeMap<u8, UpcallEntry>,
}

impl UpcallRegistry {
    /// The handlers, by interrupt line.
    pub closed spec fn entries(&self) -> Map<u8, UpcallEntry> {
        self.table@
    }

    pub fn new() -> (r: Self)
        ensures
            r.entries() == Map::<u8, UpcallEntry>::empty(),
    {
        UpcallRegistry { table: BTreeMap::new() }
    }

    /// Installs a handler for `irq` and hands back the one it replaced.
    pub fn register(&mut self, irq: u8, entry: UpcallEntry) -> (replaced: Option<UpcallEntry>)
        ensures
            final(self).entries() == old(self).entries().insert(irq, entry),
            replaced is Some <==> old(self).entries().contains_key(irq),
            replaced matches Some(e) ==> e == old(self).entries()[irq],
    {
        self.table.insert(irq, entry)
    }

    /// The handler of `irq`, if any.
    pub fn resolve(&self, irq: u8) -> (r: Option<UpcallEntry>)
        ensures
            r is Some <==> self.entries().contains_key(irq),
            r matches Some(e) ==> e == self.entries()[irq],
    {
        match self.table.get(&irq) {
            Some(e) => Some(*e),
            None => None,
        }
    }

    /// Removes the handler of `irq` if `pid` owns it; reports whether it did.
    pub fn unregister_for_process(&mut self, irq: u8, pid: ProcessId) -> (removed: bool)
        ensures
            removed <==> (old(self).entries().contains_key(irq) && old(self).entries()[irq].process_id
                == pid),
            removed ==> final(self).entries() == old(self).entries().remove(irq),
            !removed ==> final(self).entries() == old(self).entries(),
    {
        match self.table.get(&irq) {
            Some(e) => {
                if e.process_id.0 == pid.0 {
                    let _ = self.table.remove(&irq);
                    true
                } else {
                    false
                }
            },
            None => false,
        }
    }
}

/// Installs `pid`'s handler for `irq` unless a handler is already there.
/// A handler of another process answers `PERMISSION_DENIED`, one of the
/// same process `INVALID_ARG`; either way the table is left as it was.
pub fn register_upcall_with_owner_guard(
    reg: &mut UpcallRegistry,
    irq: u8,
    pid: ProcessId,
    entry_pc: u64,
    user_ctx: u64,
    flags: u32,
) -> (r: Result<(), usize>)
    ensures
        !old(reg).entries().contains_key(irq) ==> r is Ok && final(reg).entries()
            == old(reg).entries().insert(
            irq,
            UpcallEntry { process_id: pid, entry_pc, user_ctx, flags },
        ),
        old(reg).entries().contains_key(irq) ==> final(reg).entries() == old(reg).entries(),
        old(reg).entries().contains_key(irq) && old(reg).entries()[irq].process_id != pid ==> r
            == Err::<(), usize>(SYSCALL_ERR_PERMISSION_DENIED),
        old(reg).entries().contains_key(irq) && old(reg).entries()[irq].process_id == pid ==> r
            == Err::<(), usize>(SYSCALL_ERR_INVALID_ARG),
{
    let replaced = reg.register(irq, UpcallEntry { process_id: pid, entry_pc, user_ctx, flags });
    if let Some(prev) = replaced {
        let _ = reg.register(irq, prev);
        assert(reg.entries() =~= old(reg).entries());
        if prev.process_id.0 != pid.0 {
            return Err(permission_denied_arg());
        }
        return Err(invalid_arg());
    }
    Ok(())
}

/// Registers an upcall handler for the calling process.  `pid` is the
/// calling process, if the task belongs to one.
pub fn sys_upcall_register(
    reg: &mut UpcallRegistry,
    irq: usize,
    entry_pc: usize,
    user_ctx: usize,
    flags: usize,
    access: Result<(), usize>,
    pid: Option<usize>,
) -> (r: usize)
    ensures
        access matches Err(e) ==> r == e,
        access is Ok && (irq > u8::MAX || flags > u32::MAX || !(0x1000 <= entry_pc < 0x0000_8000_0000_0000)
            || pid is None) ==> r == SYSCALL_ERR_INVALID_ARG,
        !(access is Ok && irq <= u8::MAX && flags <= u32::MAX && 0x1000 <= entry_pc
            < 0x0000_8000_0000_0000 && pid is Some && !old(reg).entries().contains_key(irq as u8))
            ==> final(reg).entries() == old(reg).entries(),
        pid matches Some(p) ==> (access is Ok && irq <= u8::MAX && flags <= u32::MAX && 0x1000
            <= entry_pc < 0x0000_8000_0000_0000 ==> {
            let k = irq as u8;
            if !old(reg).entries().contains_key(k) {
                r == 0 && final(reg).entries() == old(reg).entries().insert(
                    k,
                    UpcallEntry {
                        process_id: ProcessId(p),
                        entry_pc: entry_pc as u64,
                        user_ctx: user_ctx as u64,
                        flags: flags as u32,
                    },
                )
            } else if old(reg).entries()[k].process_id != ProcessId(p) {
                r == SYSCALL_ERR_PERMISSION_DENIED
            } else {
                r == SYSCALL_ERR_INVALID_ARG
            }
        }),
{
    if let Err(err) = access {
        return err;
    }
    if irq > u8::MAX as usize {
        return invalid_arg();
    }
    if flags > u32::MAX as usize {
        return invalid_arg();
    }
    if !upcall_entry_pc_valid(entry_pc) {
        return invalid_arg();
    }
    let process_id = match pid {
        Some(p) => p,
        None => return invalid_arg(),
    };
    match register_upcall_with_owner_guard(
        reg,
        irq as u8,
        ProcessId(process_id),
        entry_pc as u64,
        user_ctx as u64,
        flags as u32,
    ) {
        Ok(()) => 0,
        Err(err) => err,
    }
}

/// Removes the calling process's handler for `irq`.
pub fn sys_upcall_unregister(
    reg: &mut UpcallRegistry,
    irq: usize,
    access: Result<(), usize>,
    pid: Option<usize>,
) -> (r: usize)
    ensures
        access matches Err(e) ==> r == e && final(reg).entries() == old(reg).entries(),
        access is Ok && (irq > u8::MAX || pid is None) ==> r == SYSCALL_ERR_INVALID_ARG
            && final(reg).entries() == old(reg).entries(),
        pid matches Some(p) ==> (access is Ok && irq <= u8::MAX ==> {
            let k = irq as u8;
            if old(reg).entries().contains_key(k) && old(reg).entries()[k].process_id == ProcessId(
                p,
            ) {
                r == 0 && final(reg).entries() == old(reg).entries().remove(k)
            } else {
                r == SYSCALL_ERR_INVALID_ARG && final(reg).entries() == old(reg).entries()
            }
        }),
{
    if let Err(err) = access {
        return err;
    }
    if irq > u8::MAX as usize {
        return invalid_arg();
    }
    let process_id = match pid {
        Some(p) => p,
        None => return invalid_arg(),
    };
    if reg.unregister_for_process(irq as u8, ProcessId(process_id)) {
        0
    } else {
        invalid_arg()
    }
}

/// The words `sys_upcall_query` writes for a handler.
pub open spec fn upcall_query_words(e: UpcallEntry) -> Seq<usize> {
    seq![e.process_id.0, e.entry_pc as usize, e.user_ctx as usize, e.flags as usize]
}

/// Writes the calling process's handler for `irq` to the user buffer;
/// `0` when no handler is installed.
pub fn sys_upcall_query(
    mem: &mut UserMemory,
    reg: &UpcallRegistry,
    irq: usize,
    ptr: usize,
    len: usize,
    access: Result<(), usize>,
    pid: Option<usize>,
) -> (r: usize)
    ensures
        final(mem).base == old(mem).base,
        access matches Err(e) ==> r == e && *final(mem) == *old(mem),
        access is Ok && (irq > u8::MAX || pid is None) ==> r == SYSCALL_ERR_INVALID_ARG
            && *final(mem) == *old(mem),
        access is Ok && irq <= u8::MAX && pid is Some && !reg.entries().contains_key(irq as u8) ==> r
            == 0 && *final(mem) == *old(mem),
        pid matches Some(p) ==> (access is Ok && irq <= u8::MAX && reg.entries().contains_key(
            irq as u8,
        ) && reg.entries()[irq as u8].process_id != ProcessId(p) ==> r == SYSCALL_ERR_INVALID_ARG
            && *final(mem) == *old(mem)),
        pid matches Some(p) ==> (access is Ok && irq <= u8::MAX && reg.entries().contains_key(
            irq as u8,
        ) && reg.entries()[irq as u8].process_id == ProcessId(p) ==> {
            &&& r == write_words_outcome(*old(mem), ptr as int, len as int, 4)
            &&& write_words_ok(*old(mem), ptr as int, len as int, 4) ==> final(mem).bytes@
                == old(mem).stored(
                ptr as int,
                usize_words_bytes(upcall_query_words(reg.entries()[irq as u8])),
            )
            &&& !write_words_ok(*old(mem), ptr as int, len as int, 4) ==> final(mem).bytes@
                == old(mem).bytes@
        }),
{
    if let Err(err) = access {
        return err;
    }
    if irq > u8::MAX as usize {
        return invalid_arg();
    }
    let process_id = match pid {
        Some(p) => p,
        None => return invalid_arg(),
    };
    let entry = match reg.resolve(irq as u8) {
        Some(e) => e,
        None => return 0,
    };
    if entry.process_id.0 != process_id {
        return invalid_arg();
    }
    let mut w: Vec<usize> = Vec::new();
    w.push(entry.process_id.0);
    w.push(entry.entry_pc as usize);
    w.push(entry.user_ctx as usize);
    w.push(entry.flags as usize);
    assert(w@ =~= upcall_query_words(entry));
    write_user_words(mem, ptr, len, w.as_slice())
}

/// The words `sys_upcall_consume` writes for a delivery.
pub open spec fn upcall_delivery_words(d: UpcallDelivery) -> Seq<usize> {
    seq![d.irq as usize, d.process_id.0, d.entry_pc as usize, d.user_ctx as usize, d.flags as usize]
}

/// Writes the calling process's next pending upcall to the user buffer.
/// `delivery` is what the dispatcher handed out for the process (`None`
/// when nothing is pending, which returns `0`).
pub fn sys_upcall_consume(
    mem: &mut UserMemory,
    ptr: usize,
    len: usize,
    access: Result<(), usize>,
    pid: Option<usize>,
    delivery: Option<UpcallDelivery>,
) -> (r: usize)
    ensures
        final(mem).base == old(mem).base,
        access matches Err(e) ==> r == e && *final(mem) == *old(mem),
        access is Ok && pid is None ==> r == SYSCALL_ERR_INVALID_ARG && *final(mem) == *old(mem),
        access is Ok && pid is Some && delivery is None ==> r == 0 && *final(mem) == *old(mem),
        delivery matches Some(d) ==> (access is Ok && pid is Some ==> {
            &&& r == write_words_outcome(*old(mem), ptr as int, len as int, 5)
            &&& write_words_ok(*old(mem), ptr as int, len as int, 5) ==> final(mem).bytes@
                == old(mem).stored(ptr as int, usize_words_bytes(upcall_delivery_words(d)))
            &&& !write_words_ok(*old(mem), ptr as int, len as int, 5) ==> final(mem).bytes@
                == old(mem).bytes@
        }),
{
    if let Err(err) = access {
        return err;
    }
    if pid.is_none() {
        return invalid_arg();
    }
    let d = match delivery {
        Some(d) => d,
        None => return 0,
    };
    let mut w: Vec<usize> = Vec::new();
    w.push(d.irq as usize);
    w.push(d.process_id.0);
    w.push(d.entry_pc as usize);
    w.push(d.user_ctx as usize);
    w.push(d.flags as usize);
    assert(w@ =~= upcall_delivery_words(d));
    write_user_words(mem, ptr, len, w.as_slice())
}

/// A virtual interrupt to inject for a process.
#[derive(Debug, Clone, Copy, PartialEq, Eq, Structural)]
pub struct VirtualIrqRequest {
    pub process_id: ProcessId,
    pub irq: u8,
    pub user_ctx: u64,
    pub flags: u32,
}

/// Checks a virtual interrupt injection.  `Err` holds the value to return
/// at once; `Ok` the request for the dispatcher, whose verdict
/// `inject_outcome` turns into the return value.
pub fn sys_upcall_inject_virtual_irq(
    irq: usize,
    user_ctx: usize,
    flags: usize,
    access: Result<(), usize>,
    pid: Option<usize>,
) -> (r: Result<VirtualIrqRequest, usize>)
    ensures
        access matches Err(e) ==> r == Err::<VirtualIrqRequest, usize>(e),
        access is Ok && (irq > u8::MAX || flags > u32::MAX || pid is None) ==> r == Err::<
            VirtualIrqRequest,
            usize,
        >(SYSCALL_ERR_INVALID_ARG),
        pid matches Some(p) ==> (access is Ok && irq <= u8::MAX && flags <= u32::MAX ==> r == Ok::<
            VirtualIrqRequest,
            usize,
        >(
            VirtualIrqRequest {
                process_id: ProcessId(p),
                irq: irq as u8,
                user_ctx: user_ctx as u64,
                flags: flags as u32,
            },
        )),
{
    if let Err(err) = access {
        return Err(err);
    }
    if irq > u8::MAX as usize || flags > u32::MAX as usize {
        return Err(invalid_arg());
    }
    match pid {
        Some(p) => Ok(
            VirtualIrqRequest {
                process_id: ProcessId(p),
                irq: irq as u8,
                user_ctx: user_ctx as u64,
                flags: flags as u32,
            },
        ),
        None => Err(invalid_arg()),
    }
}

/// The value returned for the dispatcher's verdict on an injection.
pub fn inject_outcome(injected: bool) -> (r: usize)
    ensures
        injected ==> r == 0,
        !injected ==> r == SYSCALL_ERR_INVALID_ARG,
{
    if injected {
        0
    } else {
        invalid_arg()
    }
}

} // verus!
