use vstd::prelude::*;

verus! {

/// One past the highest user address (kept as `u64`: the value does not fit
/// a 32-bit word).
pub const USER_SPACE_TOP_EXCLUSIVE: u64 = 0x0000_8000_0000_0000;
pub const USER_SPACE_BOTTOM_INCLUSIVE: usize = 0x1000;
pub const PROCESS_PRIORITY_MAX: usize = 255;
pub const PAGE_SIZE: usize = 4096;
pub const STDIN_FD: usize = 0;
pub const STDOUT_FD: usize = 1;
pub const STDERR_FD: usize = 2;
pub const SEEK_SET: usize = 0;
pub const SEEK_CUR: usize = 1;
pub const SEEK_END: usize = 2;
pub const FUTEX_WAIT_OP: usize = 0;
pub const FUTEX_WAKE_OP: usize = 1;

/// Bytes in one word of the user ABI.
pub const WORD_BYTES: usize = 8;

pub const MAX_PRINT_LEN: usize = 4096;
pub const USER_CSTRING_MAX_LEN: usize = 4096;
pub const MOUNT_RECORD_WORDS: usize = 3;
pub const PROCESS_LIST_LIMIT: usize = 64;
pub const PROCESS_LAUNCH_CTX_WORDS: usize = 8;
pub const UPCALL_QUERY_WORDS: usize = 4;
pub const UPCALL_DELIVERY_WORDS: usize = 5;
pub const SYSCALL_ABI_INFO_WORDS: usize = 7;
pub const SYSCALL_ABI_MAGIC: usize = 0x48594241;
pub const SYSCALL_ABI_VERSION_MAJOR: usize = 1;
pub const SYSCALL_ABI_VERSION_MINOR: usize = 0;
pub const SYSCALL_ABI_VERSION_PATCH: usize = 0;
pub const SYSCALL_ABI_MIN_COMPAT_MAJOR: usize = 1;
pub const SYSCALL_ABI_FLAG_STABLE: usize = 1;
pub const CRASH_REPORT_WORDS: usize = 10;
pub const CRASH_EVENT_WORDS: usize = 8;
pub const CORE_PRESSURE_SNAPSHOT_WORDS: usize = 18;
pub const LOTTERY_REPLAY_LATEST_WORDS: usize = 5;

/// Bytes taken by `words` machine words of the user ABI.
pub fn required_bytes(words: usize) -> (r: usize)
    requires
        words * WORD_BYTES <= usize::MAX,
    ensures
        r == words * WORD_BYTES,
{
    words * WORD_BYTES
}

/// Fills the eight words of a launch-context record.  `out` must have
/// room for them.
pub fn write_launch_context_words(
    out: &mut Vec<usize>,
    process_id: usize,
    task_id: usize,
    entry: usize,
    image_pages: usize,
    image_segments: usize,
    mapped_regions: usize,
    mapped_pages: usize,
    cr3: usize,
)
    requires
        old(out)@.len() >= PROCESS_LAUNCH_CTX_WORDS,
    ensures
        final(out)@ == old(out)@.update(0, process_id).update(1, task_id).update(2, entry).update(
            3,
            image_pages,
        ).update(4, image_segments).update(5, mapped_regions).update(6, mapped_pages).update(7, cr3),
{
    out.set(0, process_id);
    out.set(1, task_id);
    out.set(2, entry);
    out.set(3, image_pages);
    out.set(4, image_segments);
    out.set(5, mapped_regions);
    out.set(6, mapped_pages);
    out.set(7, cr3);
}

} // verus!
