use vstd::prelude::*;

use crate::consts::PAGE_SIZE;
use crate::errno::{errno_word, linux_errno, EBADF, EINVAL, ENOMEM};
use crate::process_types::MappingRecord;

verus! {

/// `MAP_FIXED`.
pub const MAP_FIXED: usize = 0x10;

/// `MAP_ANONYMOUS`.
pub const MAP_ANONYMOUS: usize = 0x20;

/// `MCL_CURRENT`.
pub const MCL_CURRENT: u32 = 1;

/// `MCL_FUTURE`.
pub const MCL_FUTURE: u32 = 2;

/// `MCL_ONFAULT`.
pub const MCL_ONFAULT: u32 = 4;

/// The map id derived from an address when no mapping record names one:
/// the low 32 bits of the address.
pub fn fallback_map_id_from_addr(addr: usize) -> (r: u32)
    ensures
        r == (addr as int) % 0x1_0000_0000int,
{
    assert((addr as u32) == (addr as u64) % 0x1_0000_0000u64) by (bit_vector);
    #[verifier::truncate]
    (addr as u32)
}

/// The map id of the mapping at `addr`: the id of the current process's
/// mapping record that covers it (`recorded`), else the address fallback.
pub fn resolve_map_id_from_addr(addr: usize, recorded: Option<u32>) -> (r: u32)
    ensures
        r == (match recorded {
            Some(id) => id,
            None => ((addr as int) % 0x1_0000_0000int) as u32,
        }),
{
    match recorded {
        Some(id) => id,
        None => fallback_map_id_from_addr(addr),
    }
}

/// Rejects a zero address or a zero length.
pub fn validate_nonzero_mapping_range(addr: usize, len: usize) -> (r: Result<(), usize>)
    ensures
        r == (if addr == 0 || len == 0 {
            Err::<(), usize>(errno_word(EINVAL))
        } else {
            Ok(())
        }),
{
    if addr == 0 || len == 0 {
        return Err(linux_errno(EINVAL));
    }
    Ok(())
}

/// Validates the range of an `mprotect` or `madvise` request.
pub fn validate_protection_request(addr: usize, len: usize) -> (r: Result<(), usize>)
    ensures
        r == (if addr == 0 || len == 0 {
            Err::<(), usize>(errno_word(EINVAL))
        } else {
            Ok(())
        }),
{
    validate_nonzero_mapping_range(addr, len)
}

/// Rejects an empty mapping.
pub fn validate_mmap_len(len: usize) -> (r: Result<(), usize>)
    ensures
        r == (if len == 0 {
            Err::<(), usize>(errno_word(EINVAL))
        } else {
            Ok(())
        }),
{
    if len == 0 {
        return Err(linux_errno(EINVAL));
    }
    Ok(())
}

/// Whether `flags` ask for a mapping at exactly the given address.
pub fn is_map_fixed(flags: usize) -> (r: bool)
    ensures
        r == (flags & MAP_FIXED != 0),
{
    flags & MAP_FIXED != 0
}

/// Validates an `mremap` request: addresses and sizes must be nonzero, and
/// neither flags nor a target address are supported.
pub fn validate_mremap_request(
    old_addr: usize,
    old_size: usize,
    new_size: usize,
    flags: usize,
    new_addr: usize,
) -> (r: Result<(), usize>)
    ensures
        r == (if old_addr == 0 || old_size == 0 || new_size == 0 || flags != 0 || new_addr != 0 {
            Err::<(), usize>(errno_word(EINVAL))
        } else {
            Ok(())
        }),
{
    if old_addr == 0 || old_size == 0 || new_size == 0 {
        return Err(linux_errno(EINVAL));
    }
    if flags != 0 || new_addr != 0 {
        return Err(linux_errno(EINVAL));
    }
    Ok(())
}

/// The `mlockall` flag sets that are accepted: only known bits, and at least
/// one of `MCL_CURRENT` and `MCL_FUTURE`.
pub open spec fn mlockall_flags_ok(flags: usize) -> bool {
    &&& flags & !((MCL_CURRENT | MCL_FUTURE | MCL_ONFAULT) as usize) == 0
    &&& flags & ((MCL_CURRENT | MCL_FUTURE) as usize) != 0
}

/// Decodes the flags of `mlockall`.
pub fn decode_mlockall_flags(flags: usize) -> (r: Result<u32, usize>)
    ensures
        mlockall_flags_ok(flags) ==> r == Ok::<u32, usize>(flags as u32),
        !mlockall_flags_ok(flags) ==> r == Err::<u32, usize>(errno_word(EINVAL)),
{
    if flags & !((MCL_CURRENT | MCL_FUTURE | MCL_ONFAULT) as usize) != 0 {
        return Err(linux_errno(EINVAL));
    }
    if flags & ((MCL_CURRENT | MCL_FUTURE) as usize) == 0 {
        return Err(linux_errno(EINVAL));
    }
    Ok(flags as u32)
}

/// The return word of a mapping operation on a valid request: success when
/// no mapping backend is built in (`None`), else what the backend reported.
pub open spec fn backend_status(backend: Option<Result<(), i32>>) -> usize {
    match backend {
        None => 0,
        Some(Ok(())) => 0,
        Some(Err(e)) => errno_word(e),
    }
}

fn status_of(backend: Option<Result<(), i32>>) -> (r: usize)
    ensures
        r == backend_status(backend),
{
    match backend {
        None => 0,
        Some(Ok(())) => 0,
        Some(Err(e)) => linux_errno(e),
    }
}

/// The result of `mmap`.  A zero length, or a fixed mapping at address zero
/// or at an address that is not page aligned, is `EINVAL`.  A file mapping
/// with a negative descriptor is `EBADF` when a backend exists.  Otherwise
/// `backend` is what the memory-mapping backend made of the request: `None`
/// when none is built in (`ENOMEM`), else the placed address or its error.
pub open spec fn mmap_result(
    addr: usize,
    len: usize,
    flags: usize,
    fd: usize,
    backend: Option<Result<usize, i32>>,
) -> usize {
    if len == 0 {
        errno_word(EINVAL)
    } else if flags & MAP_FIXED != 0 && (addr == 0 || addr % PAGE_SIZE != 0) {
        errno_word(EINVAL)
    } else {
        match backend {
            None => errno_word(ENOMEM),
            Some(res) => if flags & MAP_ANONYMOUS == 0 && fd > isize::MAX {
                errno_word(EBADF)
            } else {
                match res {
                    Ok(start) => start,
                    Err(e) => errno_word(e),
                }
            },
        }
    }
}

/// What `mmap` asks of the memory-mapping backend.
#[derive(Debug, Clone, Copy, PartialEq, Eq, Structural)]
pub enum MmapRequest {
    /// An anonymous mapping of `len` bytes.
    Anonymous { addr: usize, len: usize, prot: u32, flags: u32 },
    /// A mapping of `len` bytes of the file open as `fd`, from `offset`.
    File { addr: usize, fd: u32, offset: usize, len: usize, prot: u32, flags: u32 },
}

/// The request `mmap` hands to the backend, or the error it answers at
/// once: a zero length, or a fixed mapping at address zero or at an
/// address that is not page aligned, is `EINVAL`; a file mapping with a
/// negative descriptor is `EBADF`.
pub fn mmap_request(addr: usize, len: usize, prot: usize, flags: usize, fd: usize, offset: usize) -> (r:
    Result<MmapRequest, usize>)
    ensures
        len == 0 ==> r == Err::<MmapRequest, usize>(errno_word(EINVAL)),
        len != 0 && flags & MAP_FIXED != 0 && (addr == 0 || addr % PAGE_SIZE != 0) ==> r == Err::<
            MmapRequest,
            usize,
        >(errno_word(EINVAL)),
        len != 0 && !(flags & MAP_FIXED != 0 && (addr == 0 || addr % PAGE_SIZE != 0)) ==> {
            &&& flags & MAP_ANONYMOUS != 0 ==> r == Ok::<MmapRequest, usize>(
                MmapRequest::Anonymous { addr, len, prot: prot as u32, flags: flags as u32 },
            )
            &&& flags & MAP_ANONYMOUS == 0 && fd > isize::MAX ==> r == Err::<MmapRequest, usize>(
                errno_word(EBADF),
            )
            &&& flags & MAP_ANONYMOUS == 0 && fd <= isize::MAX ==> r == Ok::<MmapRequest, usize>(
                MmapRequest::File {
                    addr,
                    fd: fd as u32,
                    offset,
                    len,
                    prot: prot as u32,
                    flags: flags as u32,
                },
            )
        },
{
    if let Err(err) = validate_mmap_len(len) {
        return Err(err);
    }
    if is_map_fixed(flags) {
        if let Err(err) = validate_nonzero_mapping_range(addr, len) {
            return Err(err);
        }
        if (addr & (PAGE_SIZE - 1)) != 0 {
            assert(addr & 4095 != 0 ==> addr % 4096 != 0) by (bit_vector);
            return Err(linux_errno(EINVAL));
        }
        assert(addr & 4095 == 0 ==> addr % 4096 == 0) by (bit_vector);
    }
    if flags & MAP_ANONYMOUS != 0 {
        return Ok(MmapRequest::Anonymous { addr, len, prot: prot as u32, flags: flags as u32 });
    }
    if fd > isize::MAX as usize {
        return Err(linux_errno(EBADF));
    }
    Ok(MmapRequest::File { addr, fd: fd as u32, offset, len, prot: prot as u32, flags: flags as u32 })
}

/// `mmap`: validates the request and reports the backend's outcome.
pub fn sys_linux_mmap(
    addr: usize,
    len: usize,
    prot: usize,
    flags: usize,
    fd: usize,
    offset: usize,
    backend: Option<Result<usize, i32>>,
) -> (r: usize)
    ensures
        r == mmap_result(addr, len, flags, fd, backend),
{
    if let Err(err) = validate_mmap_len(len) {
        return err;
    }
    if is_map_fixed(flags) {
        if let Err(err) = validate_nonzero_mapping_range(addr, len) {
            return err;
        }
        if (addr & (PAGE_SIZE - 1)) != 0 {
            assert(addr & 4095 != 0 ==> addr % 4096 != 0) by (bit_vector);
            return linux_errno(EINVAL);
        }
        assert(addr & 4095 == 0 ==> addr % 4096 == 0) by (bit_vector);
    }
    match backend {
        None => linux_errno(ENOMEM),
        Some(res) => {
            if flags & MAP_ANONYMOUS == 0 && fd > isize::MAX as usize {
                return linux_errno(EBADF);
            }
            match res {
                Ok(start) => start,
                Err(e) => linux_errno(e),
            }
        },
    }
}

/// `munmap`.
pub fn sys_linux_munmap(addr: usize, len: usize, backend: Option<Result<(), i32>>) -> (r: usize)
    ensures
        r == (if addr == 0 || len == 0 {
            errno_word(EINVAL)
        } else {
            backend_status(backend)
        }),
{
    if let Err(err) = validate_nonzero_mapping_range(addr, len) {
        return err;
    }
    status_of(backend)
}

/// `mprotect`.
pub fn sys_linux_mprotect(addr: usize, len: usize, prot: usize, backend: Option<Result<(), i32>>) -> (r:
    usize)
    ensures
        r == (if addr == 0 || len == 0 {
            errno_word(EINVAL)
        } else {
            backend_status(backend)
        }),
{
    if let Err(err) = validate_protection_request(addr, len) {
        return err;
    }
    status_of(backend)
}

/// `madvise`.
pub fn sys_linux_madvise(addr: usize, len: usize, advice: usize, backend: Option<Result<(), i32>>) -> (r:
    usize)
    ensures
        r == (if addr == 0 || len == 0 {
            errno_word(EINVAL)
        } else {
            backend_status(backend)
        }),
{
    if let Err(err) = validate_protection_request(addr, len) {
        return err;
    }
    status_of(backend)
}

/// `mremap`: on a valid request, the old address when no backend is built
/// in, else the backend's new address or its error.
pub fn sys_linux_mremap(
    old_addr: usize,
    old_size: usize,
    new_size: usize,
    flags: usize,
    new_addr: usize,
    backend: Option<Result<usize, i32>>,
) -> (r: usize)
    ensures
        r == (if old_addr == 0 || old_size == 0 || new_size == 0 || flags != 0 || new_addr != 0 {
            errno_word(EINVAL)
        } else {
            match backend {
                None => old_addr,
                Some(Ok(a)) => a,
                Some(Err(e)) => errno_word(e),
            }
        }),
{
    if let Err(err) = validate_mremap_request(old_addr, old_size, new_size, flags, new_addr) {
        return err;
    }
    match backend {
        None => old_addr,
        Some(Ok(a)) => a,
        Some(Err(e)) => linux_errno(e),
    }
}

/// `mlock`.
pub fn sys_linux_mlock(addr: usize, len: usize, backend: Option<Result<(), i32>>) -> (r: usize)
    ensures
        r == (if addr == 0 || len == 0 {
            errno_word(EINVAL)
        } else {
            backend_status(backend)
        }),
{
    if let Err(err) = validate_nonzero_mapping_range(addr, len) {
        return err;
    }
    status_of(backend)
}

/// `munlock`.
pub fn sys_linux_munlock(addr: usize, len: usize, backend: Option<Result<(), i32>>) -> (r: usize)
    ensures
        r == (if addr == 0 || len == 0 {
            errno_word(EINVAL)
        } else {
            backend_status(backend)
        }),
{
    if let Err(err) = validate_nonzero_mapping_range(addr, len) {
        return err;
    }
    status_of(backend)
}

/// `mlockall`: the flags are always validated.
pub fn sys_linux_mlockall(flags: usize, backend: Option<Result<(), i32>>) -> (r: usize)
    ensures
        r == (if !mlockall_flags_ok(flags) {
            errno_word(EINVAL)
        } else {
            backend_status(backend)
        }),
{
    match decode_mlockall_flags(flags) {
        Err(err) => err,
        Ok(_) => status_of(backend),
    }
}

/// `munlockall` always succeeds.
pub fn sys_linux_munlockall() -> (r: usize)
    ensures
        r == 0,
{
    0
}

/// `MREMAP_FIXED`.
pub const MREMAP_FIXED: usize = 2;

/// `start + len` in 64 bits, wrapping as the kernel's address arithmetic
/// does.
pub open spec fn end_of(start: u64, len: u64) -> u64 {
    if start + len > u64::MAX {
        (start + len - 0x1_0000_0000_0000_0000int) as u64
    } else {
        (start + len) as u64
    }
}

fn end_after(start: u64, len: u64) -> (r: u64)
    ensures
        r == end_of(start, len),
{
    if len > u64::MAX - start {
        len - (u64::MAX - start) - 1
    } else {
        start + len
    }
}

/// What becomes of a mapping the backend just made for `mmap`.
#[derive(Debug, Clone, Copy, PartialEq, Eq, Structural)]
pub enum MmapPlacement {
    /// Record `record` for the process (after dropping the mappings that
    /// overlap its range, when `evict_overlaps`) and return `ret`.
    Register { record: MappingRecord, evict_overlaps: bool, ret: usize },
    /// There is no process to record it for, or no free address: return
    /// the mapping id.
    Unrecorded(usize),
    /// Return this error; nothing is recorded.
    Fail(usize),
    /// The memory charge was refused: the mappings overlapping `record`'s
    /// range are dropped all the same (when `evict_overlaps`), but
    /// `record` is not kept: its mapping is unmapped and `ret` (`ENOMEM`)
    /// returned.
    Undo { record: MappingRecord, evict_overlaps: bool, ret: usize },
}

/// The placement of the fresh mapping `map_id` of `len` bytes asked for at
/// `requested_addr`.  `has_process` says whether the calling process is
/// known; `rounded_len` is the length rounded to pages (or its error);
/// `allocated` the free address the process found for it (asked only for
/// a mapping that is not fixed); `charged` whether the memory charge of
/// the process's group went through.  A fixed mapping goes at the
/// requested address, evicting what it overlaps; another at the address
/// found.
pub fn mmap_placement(
    map_id: u32,
    requested_addr: usize,
    len: usize,
    prot: u32,
    flags: u32,
    has_process: bool,
    rounded_len: Result<u64, usize>,
    allocated: Option<u64>,
    charged: bool,
) -> (r: MmapPlacement)
    ensures
        !has_process ==> r == MmapPlacement::Unrecorded(map_id as usize),
        has_process ==> match rounded_len {
            Err(e) => r == MmapPlacement::Fail(e),
            Ok(rl) => {
                let fixed = flags as usize & MAP_FIXED != 0;
                if !fixed && allocated is None {
                    r == MmapPlacement::Unrecorded(map_id as usize)
                } else {
                    let start: u64 = if fixed { requested_addr as u64 } else { allocated->0 };
                    let record = MappingRecord { map_id, start, end: end_of(start, rl), prot, flags };
                    if charged {
                        r == MmapPlacement::Register { record, evict_overlaps: fixed, ret: start as usize }
                    } else {
                        r == MmapPlacement::Undo { record, evict_overlaps: fixed, ret: errno_word(ENOMEM) }
                    }
                }
            },
        },
{
    if !has_process {
        return MmapPlacement::Unrecorded(map_id as usize);
    }
    let rl = match rounded_len {
        Ok(v) => v,
        Err(e) => return MmapPlacement::Fail(e),
    };
    let fixed = is_map_fixed(flags as usize);
    let start: u64 = if fixed {
        requested_addr as u64
    } else {
        match allocated {
            Some(a) => a,
            None => return MmapPlacement::Unrecorded(map_id as usize),
        }
    };
    let end = end_after(start, rl);
    let record = MappingRecord { map_id, start, end, prot, flags };
    if !charged {
        return MmapPlacement::Undo { record, evict_overlaps: fixed, ret: linux_errno(ENOMEM) };
    }
    MmapPlacement::Register { record, evict_overlaps: fixed, ret: start as usize }
}

/// What becomes of the process's record of a mapping the backend just
/// resized for `mremap`.
#[derive(Debug, Clone, Copy, PartialEq, Eq, Structural)]
pub enum MremapRecordUpdate {
    /// The process keeps no record of it: return the old address.
    Unrecorded(usize),
    /// The record was taken out and the rounded length failed: return the
    /// error, the record staying out.
    Dropped(usize),
    /// Record `record` instead (after dropping the other mappings that
    /// overlap its range, when `evict_overlaps`) and return `ret`.
    Update { record: MappingRecord, evict_overlaps: bool, ret: usize },
}

/// The record update of `mremap`: `record` is the process's record of the
/// mapping (taken out of its table; `None` when there is no process or no
/// record) and `rounded_len` the new length rounded to pages.  With
/// `MREMAP_FIXED` the mapping moves to `new_addr`, evicting the others it
/// overlaps; otherwise it keeps its start.  It ends `rounded_len` bytes
/// after its start.
pub fn mremap_record_update(
    old_addr: usize,
    flags: usize,
    new_addr: usize,
    record: Option<MappingRecord>,
    rounded_len: Result<u64, usize>,
) -> (r: MremapRecordUpdate)
    ensures
        record is None ==> r == MremapRecordUpdate::Unrecorded(old_addr),
        record matches Some(rec) ==> match rounded_len {
            Err(e) => r == MremapRecordUpdate::Dropped(e),
            Ok(rl) => {
                let fixed = flags & MREMAP_FIXED != 0;
                let start: u64 = if fixed { new_addr as u64 } else { rec.start };
                r == MremapRecordUpdate::Update {
                    record: MappingRecord { start, end: end_of(start, rl), ..rec },
                    evict_overlaps: fixed,
                    ret: start as usize,
                }
            },
        },
{
    let rec = match record {
        Some(r) => r,
        None => return MremapRecordUpdate::Unrecorded(old_addr),
    };
    let rl = match rounded_len {
        Ok(v) => v,
        Err(e) => return MremapRecordUpdate::Dropped(e),
    };
    let fixed = flags & MREMAP_FIXED != 0;
    let start: u64 = if fixed {
        new_addr as u64
    } else {
        rec.start
    };
    let end = end_after(start, rl);
    MremapRecordUpdate::Update {
        record: MappingRecord { map_id: rec.map_id, start, end, prot: rec.prot, flags: rec.flags },
        evict_overlaps: fixed,
        ret: start as usize,
    }
}

/// After a successful `munmap` of `len` bytes, the bytes to give back to
/// the process's memory group: the size of the record taken out for the
/// mapping (`removed`), else `len`; nothing is given back for zero.
pub fn munmap_uncharge(removed: Option<MappingRecord>, len: usize) -> (r: u64)
    ensures
        r == (match removed {
            Some(rec) => if rec.end >= rec.start { (rec.end - rec.start) as u64 } else { 0u64 },
            None => len as u64,
        }),
{
    match removed {
        Some(rec) => rec.end.saturating_sub(rec.start),
        None => len as u64,
    }
}

} // verus!
