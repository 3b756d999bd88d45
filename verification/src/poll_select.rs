use vstd::prelude::*;

use crate::errno::{errno_word, linux_errno, EFAULT, EINVAL, EOVERFLOW};
use crate::user_memory::{u64_from_le, u64_le_bytes, u64_to_le_bytes, UserMemory};

verus! {

/// Descriptors an `fd_set` can hold.
pub const LINUX_FD_SETSIZE_COMPAT: usize = 1024;

/// Size of an `fd_set`.
pub const FD_SET_BYTES: usize = 128;

/// Size of a `struct pollfd`.
pub const POLLFD_BYTES: usize = 8;

/// The poll events the network layer knows: `POLLIN`, `POLLPRI`,
/// `POLLOUT`, `POLLERR`, `POLLHUP` and `POLLNVAL`.
pub const POSIX_POLL_EVENTS_MASK: u16 = 0x3f;

/// `min(nfds, FD_SETSIZE)`.
pub fn clamp_fdset_nfds(nfds: usize) -> (r: usize)
    ensures
        r == (if nfds < 1024 { nfds } else { 1024 }),
{
    if nfds < LINUX_FD_SETSIZE_COMPAT {
        nfds
    } else {
        LINUX_FD_SETSIZE_COMPAT
    }
}

/// The bits of `SIGKILL` and `SIGSTOP` in a signal mask.
pub fn linux_unblockable_signal_mask() -> (r: u64)
    ensures
        r == (1u64 << 8u64) | (1u64 << 18u64),
{
    let sigkill_bit = 1u64 << 8u64;
    let sigstop_bit = 1u64 << 18u64;
    sigkill_bit | sigstop_bit
}

/// A wait mask cannot block `SIGKILL` or `SIGSTOP`.
pub fn sanitize_wait_sigmask(mask: u64) -> (r: u64)
    ensures
        r == mask & !((1u64 << 8u64) | (1u64 << 18u64)),
{
    mask & !linux_unblockable_signal_mask()
}

/// The number of descriptors `poll` accepts: the loopback queue limit,
/// clamped to `64..=8192`.
pub fn linux_poll_fd_limit(queue_limit: usize) -> (r: usize)
    ensures
        r == (if queue_limit < 64 { 64 } else if queue_limit > 8192 { 8192 } else { queue_limit }),
{
    if queue_limit < 64 {
        64
    } else if queue_limit > 8192 {
        8192
    } else {
        queue_limit
    }
}

/// The scheduler ticks a wait of `total_ns` lasts, rounded up, for a tick of
/// `time_slice_ns` (at least one nanosecond).
pub open spec fn retries_for_ns(total_ns: u128, time_slice_ns: u128) -> usize {
    let tick = if time_slice_ns == 0 { 1 } else { time_slice_ns as int };
    if total_ns == 0 {
        0
    } else {
        ((total_ns + tick - 1) / tick) as usize
    }
}

/// Converts a timeout to scheduler ticks, rounding up.
pub fn timeout_ns_to_retries(total_ns: u128, time_slice_ns: u128) -> (r: usize)
    requires
        total_ns + (if time_slice_ns == 0 { 1 } else { time_slice_ns as int }) - 1 <= u128::MAX,
    ensures
        r == retries_for_ns(total_ns, time_slice_ns),
{
    if total_ns == 0 {
        return 0;
    }
    let tick_ns = if time_slice_ns > 1 {
        time_slice_ns
    } else {
        1u128
    };
    ((total_ns + (tick_ns - 1)) / tick_ns) as usize
}

/// `poll`'s timeout in the default build, where it counts scheduler
/// retries: `usize::MAX` blocks.
pub fn poll_timeout_to_retries(timeout: usize, blocking_retries: usize) -> (r: usize)
    ensures
        timeout == usize::MAX ==> r == blocking_retries,
        timeout != usize::MAX ==> r == timeout,
{
    if timeout == usize::MAX {
        blocking_retries
    } else {
        timeout
    }
}

/// `poll`'s timeout in the build where it counts milliseconds.
pub fn poll_timeout_ms_to_retries(timeout: usize, blocking_retries: usize, time_slice_ns: u128) -> (r:
    usize)
    requires
        time_slice_ns <= u64::MAX,
    ensures
        timeout == usize::MAX ==> r == blocking_retries,
        timeout != usize::MAX ==> r == retries_for_ns((timeout * 1_000_000) as u128, time_slice_ns),
{
    if timeout == usize::MAX {
        return blocking_retries;
    }
    let timeout_ns = (timeout as u128) * 1_000_000u128;
    timeout_ns_to_retries(timeout_ns, time_slice_ns)
}

/// An `fd_set`: one bit per descriptor, 64 to a word.
#[derive(Clone, Copy)]
pub struct LinuxFdSetCompat {
    pub fds_bits: [u64; 16],
}

/// Whether descriptor `fd` (below 1024) is in the set.
pub open spec fn fd_in_set(bits: Seq<u64>, fd: int) -> bool {
    bits[fd / 64] & (1u64 << ((fd % 64) as u64)) != 0
}

/// The descriptors below `n` that are in the set, in increasing order.
pub open spec fn set_members(bits: Seq<u64>, n: nat) -> Seq<u32>
    decreases n,
{
    if n == 0 {
        Seq::empty()
    } else if fd_in_set(bits, n - 1) {
        set_members(bits, (n - 1) as nat).push((n - 1) as u32)
    } else {
        set_members(bits, (n - 1) as nat)
    }
}

/// `set_members` lists, in increasing order, exactly the members below `n`.
pub proof fn lemma_set_members(bits: Seq<u64>, n: nat)
    requires
        n <= 1024,
    ensures
        forall|x: u32| #[trigger] set_members(bits, n).contains(x) <==> (x < n && fd_in_set(bits, x as int)),
        forall|i: int, j: int|
            0 <= i < j < set_members(bits, n).len() ==> set_members(bits, n)[i] < set_members(bits, n)[j],
        forall|i: int| 0 <= i < set_members(bits, n).len() ==> set_members(bits, n)[i] < n,
    decreases n,
{
    if n > 0 {
        let m = (n - 1) as nat;
        lemma_set_members(bits, m);
        let prev = set_members(bits, m);
        if fd_in_set(bits, m as int) {
            let cur = prev.push(m as u32);
            assert forall|x: u32| #[trigger] cur.contains(x) <==> (x < n && fd_in_set(bits, x as int)) by {
                if cur.contains(x) {
                    let k = choose|k: int| 0 <= k < cur.len() && cur[k] == x;
                    if k < prev.len() {
                        assert(prev.contains(x));
                    }
                }
                if x < n && fd_in_set(bits, x as int) {
                    if x == m as u32 {
                        assert(cur[prev.len() as int] == x);
                    } else {
                        assert(prev.contains(x));
                        let k = choose|k: int| 0 <= k < prev.len() && prev[k] == x;
                        assert(cur[k] == x);
                    }
                }
            }
        }
    }
}

/// Collecting an `fd_set` built from `fds` gives back the descriptors of
/// `fds` below both bounds, in increasing order and each once.
pub proof fn law_fd_set_build_collect(fds: Seq<u32>, nfds: usize, bits: Seq<u64>, collect_nfds: usize)
    requires
        bits.len() == 16,
        forall|fd: int|
            0 <= fd < 1024 ==> (#[trigger] fd_in_set(bits, fd) <==> (fd < (if nfds < 1024 {
                nfds
            } else {
                1024
            }) && fds.contains(fd as u32))),
    ensures
        ({
            let out = set_members(bits, (if collect_nfds < 1024 { collect_nfds } else { 1024 }) as nat);
            &&& forall|x: u32| #[trigger] out.contains(x) <==> (x < nfds && x < collect_nfds && x < 1024
                && fds.contains(x))
            &&& forall|i: int, j: int| 0 <= i < j < out.len() ==> out[i] < out[j]
        }),
{
    let k = (if collect_nfds < 1024 { collect_nfds } else { 1024 }) as nat;
    lemma_set_members(bits, k);
    let out = set_members(bits, k);
    assert forall|x: u32| #[trigger] out.contains(x) <==> (x < nfds && x < collect_nfds && x < 1024
        && fds.contains(x)) by {
        if x < 1024 {
            assert(fd_in_set(bits, x as int) <==> (x < (if nfds < 1024 { nfds } else { 1024 })
                && fds.contains(x as int as u32)));
        }
    }
}

/// The descriptors of the set below `min(nfds, 1024)`, in increasing order.
pub fn collect_fd_set_compat(set: &LinuxFdSetCompat, nfds: usize) -> (r: Vec<u32>)
    ensures
        r@ == set_members(set.fds_bits@, (if nfds < 1024 { nfds } else { 1024 }) as nat),
{
    let capped_nfds = clamp_fdset_nfds(nfds);
    let mut out: Vec<u32> = Vec::new();
    let mut fd: usize = 0;
    while fd < capped_nfds
        invariant
            capped_nfds <= 1024,
            fd <= capped_nfds,
            out@ == set_members(set.fds_bits@, fd as nat),
        decreases capped_nfds - fd,
    {
        let word = fd / 64;
        let bit = (fd % 64) as u64;
        if (set.fds_bits[word] & (1u64 << bit)) != 0 {
            out.push(fd as u32);
        }
        fd = fd + 1;
    }
    out
}

proof fn lemma_or_bit(x: u64, b: u64, c: u64)
    requires
        b < 64,
        c < 64,
    ensures
        ((x | (1u64 << b)) & (1u64 << c) != 0) == ((x & (1u64 << c) != 0) || b == c),
{
    assert(((x | (1u64 << b)) & (1u64 << c) != 0) == ((x & (1u64 << c) != 0) || b == c))
        by (bit_vector)
        requires
            b < 64,
            c < 64,
    ;
}

proof fn lemma_zero_bit(c: u64)
    requires
        c < 64,
    ensures
        (0u64 & (1u64 << c)) == 0,
{
    assert((0u64 & (1u64 << c)) == 0) by (bit_vector);
}

/// The `fd_set` holding the descriptors of `fds` below `min(nfds, 1024)`.
pub fn build_fd_set_compat(fds: &[u32], nfds: usize) -> (r: LinuxFdSetCompat)
    ensures
        forall|fd: int|
            0 <= fd < 1024 ==> (#[trigger] fd_in_set(r.fds_bits@, fd) <==> (fd < (if nfds < 1024 {
                nfds
            } else {
                1024
            }) && fds@.contains(fd as u32))),
{
    let capped_nfds = clamp_fdset_nfds(nfds);
    let mut out = LinuxFdSetCompat { fds_bits: [0u64; 16] };
    proof {
        assert forall|fd: int| 0 <= fd < 1024 implies !#[trigger] fd_in_set(out.fds_bits@, fd) by {
            lemma_zero_bit((fd % 64) as u64);
        }
    }
    let mut i: usize = 0;
    while i < fds.len()
        invariant
            capped_nfds <= 1024,
            capped_nfds == (if nfds < 1024 { nfds } else { 1024 }),
            i <= fds@.len(),
            out.fds_bits@.len() == 16,
            forall|fd: int|
                0 <= fd < 1024 ==> (#[trigger] fd_in_set(out.fds_bits@, fd) <==> (fd < capped_nfds
                    && fds@.subrange(0, i as int).contains(fd as u32))),
        decreases fds@.len() - i,
    {
        let idx = fds[i] as usize;
        let ghost prev = out.fds_bits@;
        if idx < capped_nfds {
            let word = idx / 64;
            let bit = (idx % 64) as u64;
            let newword = out.fds_bits[word] | (1u64 << bit);
            out.fds_bits[word] = newword;
            proof {
                assert(out.fds_bits@ =~= prev.update(word as int, newword));
                assert forall|fd: int| 0 <= fd < 1024 implies (#[trigger] fd_in_set(
                    out.fds_bits@,
                    fd,
                ) <==> (fd < capped_nfds && fds@.subrange(0, i + 1).contains(fd as u32))) by {
                    assert(fds@.subrange(0, i + 1) =~= fds@.subrange(0, i as int).push(fds@[i as int]));
                    assert(fd_in_set(prev, fd) <==> (fd < capped_nfds && fds@.subrange(
                        0,
                        i as int,
                    ).contains(fd as u32)));
                    let c = (fd % 64) as u64;
                    if fd / 64 == word as int {
                        lemma_or_bit(prev[word as int], bit, c);
                        assert(out.fds_bits@[fd / 64] == newword);
                        assert((bit == c) == (fd == idx));
                        assert(fd_in_set(out.fds_bits@, fd) == (fd_in_set(prev, fd) || fd == idx));
                    } else {
                        assert(out.fds_bits@[fd / 64] == prev[fd / 64]);
                        assert(fd != idx);
                    }
                    if fd == idx {
                        assert(fds@.subrange(0, i + 1)[i as int] == fd as u32);
                    }
                    if fds@.subrange(0, i as int).contains(fd as u32) {
                        let j = choose|j: int|
                            0 <= j < i && #[trigger] fds@.subrange(0, i as int)[j] == fd as u32;
                        assert(fds@.subrange(0, i + 1)[j] == fd as u32);
                    }
                    if fds@.subrange(0, i + 1).contains(fd as u32) && fd != idx {
                        let j = choose|j: int|
                            0 <= j < i + 1 && #[trigger] fds@.subrange(0, i + 1)[j] == fd as u32;
                        assert(j != i);
                        assert(fds@.subrange(0, i as int)[j] == fd as u32);
                    }
                }
            }
        } else {
            proof {
                assert forall|fd: int| 0 <= fd < 1024 implies (#[trigger] fd_in_set(
                    out.fds_bits@,
                    fd,
                ) <==> (fd < capped_nfds && fds@.subrange(0, i + 1).contains(fd as u32))) by {
                    assert(fds@.subrange(0, i + 1) =~= fds@.subrange(0, i as int).push(fds@[i as int]));
                    if fds@.subrange(0, i + 1).contains(fd as u32) && fd < capped_nfds {
                        let j = choose|j: int|
                            0 <= j < i + 1 && #[trigger] fds@.subrange(0, i + 1)[j] == fd as u32;
                        if j == i {
                            assert(fd as u32 == fds@[i as int]);
                            assert(fd == idx);
                        }
                        assert(fds@.subrange(0, i as int)[j] == fd as u32);
                    }
                }
            }
        }
        i = i + 1;
    }
    assert(fds@.subrange(0, fds@.len() as int) =~= fds@);
    out
}

/// The `fd_set` stored at `ptr`.
pub open spec fn fd_set_at(mem: UserMemory, ptr: int) -> Seq<u64> {
    Seq::new(16, |w: int| u64_from_le(mem.bytes_at(ptr + 8 * w, 8)))
}

/// The bytes of an `fd_set`.
pub open spec fn fd_set_bytes(bits: Seq<u64>) -> Seq<u8>
    decreases bits.len(),
{
    if bits.len() == 0 {
        Seq::empty()
    } else {
        fd_set_bytes(bits.drop_last()) + u64_le_bytes(bits.last())
    }
}

/// Loads an `fd_set` from user memory.
pub fn read_fd_set(mem: &UserMemory, ptr: usize) -> (r: Result<LinuxFdSetCompat, usize>)
    ensures
        r is Ok <==> mem.range_ok(ptr as int, 128),
        r matches Ok(s) ==> s.fds_bits@ == fd_set_at(*mem, ptr as int),
        r is Err ==> r == Err::<LinuxFdSetCompat, usize>(errno_word(EFAULT)),
{
    if !mem.range_valid(ptr, FD_SET_BYTES) {
        return Err(linux_errno(EFAULT));
    }
    let mut out = LinuxFdSetCompat { fds_bits: [0u64; 16] };
    let mut w: usize = 0;
    while w < 16
        invariant
            w <= 16,
            mem.range_ok(ptr as int, 128),
            out.fds_bits@.len() == 16,
            forall|k: int| 0 <= k < w ==> out.fds_bits@[k] == u64_from_le(mem.bytes_at(ptr + 8 * k, 8)),
        decreases 16 - w,
    {
        let v = match mem.read_u64(ptr + 8 * w) {
            Some(v) => v,
            None => 0,
        };
        out.fds_bits[w] = v;
        w = w + 1;
    }
    assert(out.fds_bits@ =~= fd_set_at(*mem, ptr as int));
    Ok(out)
}

/// Loads an `fd_set` and gives its descriptors below `min(nfds, 1024)`.
pub fn read_fd_set_compat(mem: &UserMemory, ptr: usize, nfds: usize) -> (r: Result<Vec<u32>, usize>)
    ensures
        r is Ok <==> mem.range_ok(ptr as int, 128),
        r matches Ok(v) ==> v@ == set_members(
            fd_set_at(*mem, ptr as int),
            (if nfds < 1024 { nfds } else { 1024 }) as nat,
        ),
        r is Err ==> r == Err::<Vec<u32>, usize>(errno_word(EFAULT)),
{
    let set = match read_fd_set(mem, ptr) {
        Ok(s) => s,
        Err(e) => return Err(e),
    };
    Ok(collect_fd_set_compat(&set, nfds))
}

/// Stores the `fd_set` of `fds` below `min(nfds, 1024)` at `ptr`.
pub fn write_fd_set_compat(mem: &mut UserMemory, ptr: usize, fds: &[u32], nfds: usize) -> (r: Result<
    (),
    usize,
>)
    ensures
        final(mem).base == old(mem).base,
        r is Ok <==> old(mem).range_ok(ptr as int, 128),
        r is Err ==> r == Err::<(), usize>(errno_word(EFAULT)) && final(mem).bytes@ == old(mem).bytes@,
        r is Ok ==> exists|bits: Seq<u64>|
            #![trigger fd_set_bytes(bits)]
            bits.len() == 16 && final(mem).bytes@ == old(mem).stored(ptr as int, fd_set_bytes(bits))
                && forall|fd: int|
                0 <= fd < 1024 ==> (#[trigger] fd_in_set(bits, fd) <==> (fd < (if nfds < 1024 {
                    nfds
                } else {
                    1024
                }) && fds@.contains(fd as u32))),
{
    let set = build_fd_set_compat(fds, nfds);
    let mut buf: Vec<u8> = Vec::new();
    let mut w: usize = 0;
    assert(set.fds_bits@.subrange(0, 0) =~= Seq::<u64>::empty());
    while w < 16
        invariant
            w <= 16,
            set.fds_bits@.len() == 16,
            buf@ == fd_set_bytes(set.fds_bits@.subrange(0, w as int)),
        decreases 16 - w,
    {
        let b = u64_to_le_bytes(set.fds_bits[w]);
        buf.extend_from_slice(b.as_slice());
        assert(set.fds_bits@.subrange(0, w + 1).drop_last() =~= set.fds_bits@.subrange(0, w as int));
        w = w + 1;
    }
    assert(set.fds_bits@.subrange(0, 16) =~= set.fds_bits@);
    proof {
        lemma_fd_set_bytes_len(set.fds_bits@);
    }
    if mem.write_bytes(ptr, buf.as_slice()) {
        Ok(())
    } else {
        Err(linux_errno(EFAULT))
    }
}

proof fn lemma_fd_set_bytes_len(bits: Seq<u64>)
    ensures
        fd_set_bytes(bits).len() == 8 * bits.len(),
    decreases bits.len(),
{
    if bits.len() > 0 {
        lemma_fd_set_bytes_len(bits.drop_last());
    }
}

/// A `struct pollfd`.
#[derive(Debug, Clone, Copy, PartialEq, Eq, Structural)]
pub struct LinuxPollFdCompat {
    pub fd: i32,
    pub events: i16,
    pub revents: i16,
}

/// A descriptor and events as the network layer polls them.
#[derive(Debug, Clone, Copy, PartialEq, Eq, Structural)]
pub struct PosixPollFd {
    pub fd: u32,
    pub events: u16,
    pub revents: u16,
}

/// Reads the signal mask argument of `ppoll`/`pselect6`: none for a null
/// pointer, otherwise a `u64` with `SIGKILL` and `SIGSTOP` cleared.
pub fn parse_sigmask(mem: &UserMemory, sigmask_ptr: usize, sigset_size: usize) -> (r: Result<
    Option<u64>,
    usize,
>)
    ensures
        sigmask_ptr == 0 ==> r == Ok::<Option<u64>, usize>(None),
        sigmask_ptr != 0 && sigset_size != 8 ==> r == Err::<Option<u64>, usize>(errno_word(EINVAL)),
        sigmask_ptr != 0 && sigset_size == 8 && !mem.range_ok(sigmask_ptr as int, 8) ==> r == Err::<
            Option<u64>,
            usize,
        >(errno_word(EFAULT)),
        sigmask_ptr != 0 && sigset_size == 8 && mem.range_ok(sigmask_ptr as int, 8) ==> r == Ok::<
            Option<u64>,
            usize,
        >(
            Some(
                u64_from_le(mem.bytes_at(sigmask_ptr as int, 8)) & !((1u64 << 8u64) | (1u64
                    << 18u64)),
            ),
        ),
{
    if sigmask_ptr == 0 {
        return Ok(None);
    }
    if sigset_size != 8 {
        return Err(linux_errno(EINVAL));
    }
    let mask = match mem.read_u64(sigmask_ptr) {
        Some(m) => m,
        None => return Err(linux_errno(EFAULT)),
    };
    Ok(Some(sanitize_wait_sigmask(mask)))
}

/// What `ppoll`'s timeout pointer gives: the blocking retries for a null
/// pointer, the ticks of the `timespec` otherwise.
pub open spec fn timeout_ptr_outcome(
    mem: UserMemory,
    timeout_ptr: usize,
    blocking_retries: usize,
    time_slice_ns: u128,
) -> Result<usize, usize> {
    if timeout_ptr == 0 {
        Ok(blocking_retries)
    } else if !mem.range_ok(timeout_ptr as int, 16) {
        Err(errno_word(EFAULT))
    } else {
        let sec = u64_from_le(mem.bytes_at(timeout_ptr as int, 8)) as i64;
        let nsec = u64_from_le(mem.bytes_at(timeout_ptr + 8, 8)) as i64;
        if sec < 0 || nsec < 0 || nsec >= 1_000_000_000 {
            Err(errno_word(EINVAL))
        } else {
            Ok(retries_for_ns((sec * 1_000_000_000 + nsec) as u128, time_slice_ns))
        }
    }
}

/// Reads `ppoll`'s `timespec` timeout and converts it to ticks.
pub fn timeout_ptr_to_retries(
    mem: &UserMemory,
    timeout_ptr: usize,
    blocking_retries: usize,
    time_slice_ns: u128,
) -> (r: Result<usize, usize>)
    requires
        time_slice_ns <= u64::MAX,
    ensures
        r == timeout_ptr_outcome(*mem, timeout_ptr, blocking_retries, time_slice_ns),
{
    if timeout_ptr == 0 {
        return Ok(blocking_retries);
    }
    if !mem.range_valid(timeout_ptr, 16) {
        return Err(linux_errno(EFAULT));
    }
    let sec = match mem.read_u64(timeout_ptr) {
        Some(v) => v as i64,
        None => return Err(linux_errno(EFAULT)),
    };
    let nsec = match mem.read_u64(timeout_ptr + 8) {
        Some(v) => v as i64,
        None => return Err(linux_errno(EFAULT)),
    };
    if sec < 0 || nsec < 0 || nsec >= 1_000_000_000 {
        return Err(linux_errno(EINVAL));
    }
    let total_ns = (sec as u128) * 1_000_000_000u128 + (nsec as u128);
    Ok(timeout_ns_to_retries(total_ns, time_slice_ns))
}

/// The address of entry `index` of an array of `item_sz`-byte items; an
/// address past the end of memory is `EOVERFLOW`.
pub fn poll_entry_ptr(fds_ptr: usize, index: usize, item_sz: usize) -> (r: Result<usize, usize>)
    ensures
        ({
            let off = if index * item_sz > usize::MAX { usize::MAX as int } else { index * item_sz };
            &&& fds_ptr + off <= usize::MAX ==> r == Ok::<usize, usize>((fds_ptr + off) as usize)
            &&& fds_ptr + off > usize::MAX ==> r == Err::<usize, usize>(errno_word(EOVERFLOW))
        }),
{
    let off = match index.checked_mul(item_sz) {
        Some(o) => o,
        None => usize::MAX,
    };
    match fds_ptr.checked_add(off) {
        Some(p) => Ok(p),
        None => Err(linux_errno(EOVERFLOW)),
    }
}

/// The `struct pollfd` stored at `ptr`.
pub open spec fn pollfd_at(mem: UserMemory, ptr: int) -> LinuxPollFdCompat {
    let w = u64_from_le(mem.bytes_at(ptr, 8));
    LinuxPollFdCompat {
        fd: (w & 0xffff_ffff) as u32 as i32,
        events: ((w >> 32u64) & 0xffff) as u16 as i16,
        revents: ((w >> 48u64) & 0xffff) as u16 as i16,
    }
}

/// Reads `nfds` `struct pollfd` entries.
pub fn read_poll_fds_from_user(mem: &UserMemory, fds_ptr: usize, nfds: usize) -> (r: Result<
    Vec<LinuxPollFdCompat>,
    usize,
>)
    ensures
        r matches Ok(v) ==> v@.len() == nfds && forall|i: int|
            0 <= i < nfds ==> #[trigger] v@[i] == pollfd_at(*mem, fds_ptr + 8 * i),
        r matches Ok(_) ==> nfds == 0 || mem.range_ok(fds_ptr as int, (8 * nfds) as int),
        r is Err ==> r == Err::<Vec<LinuxPollFdCompat>, usize>(errno_word(EFAULT)) && nfds > 0
            && !mem.range_ok(fds_ptr as int, (8 * nfds) as int),
{
    let mut in_fds: Vec<LinuxPollFdCompat> = Vec::new();
    let mut i: usize = 0;
    while i < nfds
        invariant
            i <= nfds,
            in_fds@.len() == i,
            forall|k: int| 0 <= k < i ==> #[trigger] in_fds@[k] == pollfd_at(*mem, fds_ptr + 8 * k),
            i > 0 ==> mem.range_ok(fds_ptr as int, (8 * i) as int),
        decreases nfds - i,
    {
        let entry_ptr = match poll_entry_ptr(fds_ptr, i, POLLFD_BYTES) {
            Ok(p) => p,
            Err(e) => {
                proof {
                    if i > 0 {
                        assert(fds_ptr + 8 * i <= usize::MAX);
                    }
                    assert(false);
                }
                return Err(e);
            },
        };
        let w = match mem.read_u64(entry_ptr) {
            Some(w) => w,
            None => return Err(linux_errno(EFAULT)),
        };
        let entry = LinuxPollFdCompat {
            fd: (w & 0xffff_ffff) as u32 as i32,
            events: ((w >> 32u64) & 0xffff) as u16 as i16,
            revents: ((w >> 48u64) & 0xffff) as u16 as i16,
        };
        in_fds.push(entry);
        i = i + 1;
    }
    Ok(in_fds)
}

/// The network layer's view of a `pollfd`: negative descriptors poll
/// nothing; unknown event bits are dropped.
pub open spec fn poll_request_of(p: LinuxPollFdCompat) -> PosixPollFd {
    if p.fd < 0 {
        PosixPollFd { fd: 0, events: 0, revents: 0 }
    } else {
        PosixPollFd { fd: p.fd as u32, events: (p.events as u16) & POSIX_POLL_EVENTS_MASK, revents: 0 }
    }
}

/// Builds the request for the network layer's poll.
pub fn build_poll_request(in_fds: &[LinuxPollFdCompat]) -> (r: Vec<PosixPollFd>)
    ensures
        r@.len() == in_fds@.len(),
        forall|i: int| 0 <= i < in_fds@.len() ==> #[trigger] r@[i] == poll_request_of(in_fds@[i]),
{
    let mut out: Vec<PosixPollFd> = Vec::new();
    let mut i: usize = 0;
    while i < in_fds.len()
        invariant
            i <= in_fds@.len(),
            out@.len() == i,
            forall|k: int| 0 <= k < i ==> #[trigger] out@[k] == poll_request_of(in_fds@[k]),
        decreases in_fds@.len() - i,
    {
        let p = in_fds[i];
        if p.fd < 0 {
            out.push(PosixPollFd { fd: 0, events: 0, revents: 0 });
        } else {
            out.push(
                PosixPollFd {
                    fd: p.fd as u32,
                    events: (p.events as u16) & POSIX_POLL_EVENTS_MASK,
                    revents: 0,
                },
            );
        }
        i = i + 1;
    }
    out
}

/// The revents after the synthetic events `syn` of entry `i` are merged
/// in.
pub open spec fn merged_revents(in_fd: LinuxPollFdCompat, revents: u16, syn: u16) -> u16 {
    if in_fd.fd < 0 || syn == 0 {
        revents
    } else {
        revents | (syn & POSIX_POLL_EVENTS_MASK)
    }
}

/// Whether merging made an entry ready that the network layer left idle.
pub open spec fn newly_ready(in_fd: LinuxPollFdCompat, revents: u16, syn: u16) -> bool {
    in_fd.fd >= 0 && syn != 0 && revents == 0 && merged_revents(in_fd, revents, syn) != 0
}

/// How many of the first `n` entries merging made ready.
pub open spec fn newly_ready_count(
    in_fds: Seq<LinuxPollFdCompat>,
    revents: Seq<u16>,
    syn: Seq<u16>,
    n: nat,
) -> nat
    decreases n,
{
    if n == 0 {
        0
    } else {
        newly_ready_count(in_fds, revents, syn, (n - 1) as nat) + if newly_ready(
            in_fds[n - 1],
            revents[n - 1],
            syn[n - 1],
        ) {
            1nat
        } else {
            0nat
        }
    }
}

/// The poll entry after the synthetic events `syn` are merged in.
pub open spec fn merged_entry(in_fd: LinuxPollFdCompat, p: PosixPollFd, syn: u16) -> PosixPollFd {
    PosixPollFd { revents: merged_revents(in_fd, p.revents, syn), ..p }
}

/// `n`, saturated to a word.
pub open spec fn saturate(n: nat) -> usize {
    if n > usize::MAX {
        usize::MAX
    } else {
        n as usize
    }
}

/// The revents of poll entries.
pub open spec fn revents_of(p: Seq<PosixPollFd>) -> Seq<u16> {
    p.map_values(|x: PosixPollFd| x.revents)
}

/// Merges the events of descriptors the network layer does not serve
/// (display bridge sockets, timer descriptors), `syn[i]` for entry `i`,
/// into the poll results, and counts the entries that became ready.
pub fn apply_synthetic_revents(
    in_fds: &[LinuxPollFdCompat],
    poll_fds: &mut Vec<PosixPollFd>,
    syn: &[u16],
) -> (r: usize)
    requires
        old(poll_fds)@.len() == in_fds@.len(),
        syn@.len() == in_fds@.len(),
    ensures
        final(poll_fds)@.len() == old(poll_fds)@.len(),
        forall|i: int|
            0 <= i < in_fds@.len() ==> #[trigger] final(poll_fds)@[i] == merged_entry(
                in_fds@[i],
                old(poll_fds)@[i],
                syn@[i],
            ),
        r == saturate(newly_ready_count(in_fds@, revents_of(old(poll_fds)@), syn@, in_fds@.len())),
{
    let ghost orig = poll_fds@;
    let ghost rev = revents_of(orig);
    let mut synthetic_ready: usize = 0;
    let mut i: usize = 0;
    while i < in_fds.len()
        invariant
            i <= in_fds@.len(),
            orig.len() == in_fds@.len(),
            syn@.len() == in_fds@.len(),
            rev == revents_of(orig),
            poll_fds@.len() == orig.len(),
            forall|k: int|
                0 <= k < i ==> #[trigger] poll_fds@[k] == merged_entry(in_fds@[k], orig[k], syn@[k]),
            forall|k: int| i <= k < orig.len() ==> #[trigger] poll_fds@[k] == orig[k],
            synthetic_ready == saturate(newly_ready_count(in_fds@, rev, syn@, i as nat)),
        decreases in_fds@.len() - i,
    {
        let p = in_fds[i];
        let s = syn[i];
        let cur = poll_fds[i];
        assert(rev[i as int] == cur.revents);
        if p.fd >= 0 && s != 0 {
            let was_empty = cur.revents == 0;
            let merged = cur.revents | (s & POSIX_POLL_EVENTS_MASK);
            poll_fds.set(i, PosixPollFd { revents: merged, ..cur });
            if was_empty && merged != 0 {
                synthetic_ready = synthetic_ready.saturating_add(1);
            }
        }
        i = i + 1;
    }
    synthetic_ready
}

/// The bytes of a `struct pollfd`.
pub open spec fn pollfd_bytes(p: LinuxPollFdCompat) -> Seq<u8> {
    u64_le_bytes(
        ((p.fd as u32) as u64) | (((p.events as u16) as u64) << 32u64) | (((p.revents as u16) as u64)
            << 48u64),
    )
}

/// The words of the `pollfd` entries written back with the results.
pub open spec fn poll_results_bytes(
    in_fds: Seq<LinuxPollFdCompat>,
    poll_fds: Seq<PosixPollFd>,
    n: nat,
) -> Seq<u8>
    decreases n,
{
    if n == 0 {
        Seq::empty()
    } else {
        poll_results_bytes(in_fds, poll_fds, (n - 1) as nat) + pollfd_bytes(
            LinuxPollFdCompat {
                revents: poll_fds[n - 1].revents as i16,
                ..in_fds[n - 1]
            },
        )
    }
}

proof fn lemma_poll_results_bytes_len(in_fds: Seq<LinuxPollFdCompat>, poll_fds: Seq<PosixPollFd>, n: nat)
    ensures
        poll_results_bytes(in_fds, poll_fds, n).len() == 8 * n,
    decreases n,
{
    if n > 0 {
        lemma_poll_results_bytes_len(in_fds, poll_fds, (n - 1) as nat);
    }
}

proof fn lemma_store_append(b: Seq<u8>, base: int, p: int, x: Seq<u8>, y: Seq<u8>)
    requires
        base <= p,
        p + x.len() + y.len() <= base + b.len(),
    ensures
        crate::user_memory::store_seq(crate::user_memory::store_seq(b, base, p, x), base, p + x.len(), y)
            == crate::user_memory::store_seq(b, base, p, x + y),
{
    let m = crate::user_memory::store_seq(b, base, p, x);
    assert(crate::user_memory::store_seq(m, base, p + x.len(), y) =~= crate::user_memory::store_seq(
        b,
        base,
        p,
        x + y,
    ));
}

/// How many leading entries of an array of `n` `struct pollfd` at `ptr`
/// can be written: the largest `k <= n` whose `8 * k` bytes are
/// accessible (zero when none is).
pub open spec fn pollfd_writable_prefix(mem: UserMemory, ptr: int, n: nat) -> nat
    decreases n,
{
    if n == 0 {
        0
    } else if mem.range_ok(ptr, (8 * n) as int) {
        n
    } else {
        pollfd_writable_prefix(mem, ptr, (n - 1) as nat)
    }
}

/// When entry `i` cannot be written but the ones before it could, the
/// writable prefix of any longer array is `i`.
proof fn lemma_pollfd_writable_prefix(mem: UserMemory, ptr: int, i: nat, n: nat)
    requires
        i <= n,
        i == 0 || mem.range_ok(ptr, (8 * i) as int),
        ptr + 8 * i <= usize::MAX,
        !mem.range_ok(ptr + 8 * i, 8),
    ensures
        pollfd_writable_prefix(mem, ptr, n) == i,
    decreases n,
{
    if n > i {
        assert(!mem.range_ok(ptr, (8 * n) as int));
        lemma_pollfd_writable_prefix(mem, ptr, i, (n - 1) as nat);
    } else if n > 0 {
        assert(mem.range_ok(ptr, (8 * n) as int));
    }
}

/// Writes the entries back with the network layer's revents.
pub fn write_poll_fds_to_user(
    mem: &mut UserMemory,
    fds_ptr: usize,
    in_fds: &[LinuxPollFdCompat],
    poll_fds: &[PosixPollFd],
) -> (r: Result<(), usize>)
    requires
        poll_fds@.len() == in_fds@.len(),
    ensures
        final(mem).base == old(mem).base,
        r is Ok <==> (in_fds@.len() == 0 || old(mem).range_ok(fds_ptr as int, (8 * in_fds@.len()) as int)),
        r is Ok ==> final(mem).bytes@ == old(mem).stored(
            fds_ptr as int,
            poll_results_bytes(in_fds@, poll_fds@, in_fds@.len()),
        ),
        r is Err ==> r == Err::<(), usize>(errno_word(EFAULT)) && final(mem).bytes@ == old(mem).stored(
            fds_ptr as int,
            poll_results_bytes(
                in_fds@,
                poll_fds@,
                pollfd_writable_prefix(*old(mem), fds_ptr as int, in_fds@.len()),
            ),
        ),
{
    let n = in_fds.len();
    let ghost orig = mem.bytes@;
    let mut i: usize = 0;
    while i < n
        invariant
            n == in_fds@.len(),
            n == poll_fds@.len(),
            i <= n,
            mem.base == old(mem).base,
            i > 0 ==> old(mem).range_ok(fds_ptr as int, (8 * i) as int),
            i > 0 ==> mem.bytes@ == old(mem).stored(
                fds_ptr as int,
                poll_results_bytes(in_fds@, poll_fds@, i as nat),
            ),
            i == 0 ==> mem.bytes@ == orig,
            orig == old(mem).bytes@,
        decreases n - i,
    {
        let entry_ptr = match poll_entry_ptr(fds_ptr, i, POLLFD_BYTES) {
            Ok(p) => p,
            Err(e) => {
                proof {
                    if i > 0 {
                        assert(fds_ptr + 8 * i <= usize::MAX);
                    }
                    assert(false);
                }
                return Err(e);
            },
        };
        let p = in_fds[i];
        let out = LinuxPollFdCompat { fd: p.fd, events: p.events, revents: poll_fds[i].revents as i16 };
        let word = ((out.fd as u32) as u64) | (((out.events as u16) as u64) << 32u64) | (((
        out.revents as u16) as u64) << 48u64);
        let ghost before = mem.bytes@;
        proof {
            lemma_poll_results_bytes_len(in_fds@, poll_fds@, i as nat);
        }
        if !mem.write_u64(entry_ptr, word) {
            proof {
                if old(mem).range_ok(fds_ptr as int, (8 * n) as int) {
                    assert(old(mem).range_ok(entry_ptr as int, 8));
                }
                assert(!old(mem).range_ok(entry_ptr as int, 8));
                lemma_pollfd_writable_prefix(*old(mem), fds_ptr as int, i as nat, n as nat);
                if i == 0 {
                    assert(poll_results_bytes(in_fds@, poll_fds@, 0) =~= Seq::<u8>::empty());
                    assert(old(mem).stored(fds_ptr as int, Seq::<u8>::empty()) =~= orig);
                }
            }
            return Err(linux_errno(EFAULT));
        }
        proof {
            if i > 0 {
                lemma_store_append(
                    orig,
                    old(mem).base as int,
                    fds_ptr as int,
                    poll_results_bytes(in_fds@, poll_fds@, i as nat),
                    u64_le_bytes(word),
                );
            } else {
                assert(poll_results_bytes(in_fds@, poll_fds@, 1) =~= Seq::<u8>::empty() + u64_le_bytes(
                    word,
                ));
                assert(Seq::<u8>::empty() + u64_le_bytes(word) =~= u64_le_bytes(word));
            }
        }
        i = i + 1;
    }
    Ok(())
}

/// What `poll` does next.
pub enum PollPlan {
    /// Return this value at once, yielding the processor first when the
    /// flag is set.
    Return(usize, bool),
    /// Poll these entries with this request to the network layer.
    Poll(Vec<LinuxPollFdCompat>, Vec<PosixPollFd>),
}

/// What starting a `poll` of `nfds` entries at `fds_ptr` for `retries`
/// ticks leads to: too many entries is `EINVAL`; none returns at once
/// (yielding first when a wait was asked for); unreadable entries are
/// `EFAULT`; otherwise the entries as read and the network layer's request.
pub open spec fn poll_plan_valid(
    mem: UserMemory,
    fds_ptr: usize,
    nfds: usize,
    retries: usize,
    fd_limit: usize,
    r: PollPlan,
) -> bool {
    &&& nfds > fd_limit ==> r == PollPlan::Return(errno_word(EINVAL), false)
    &&& nfds <= fd_limit && nfds == 0 ==> r == PollPlan::Return(0, retries != 0)
    &&& nfds <= fd_limit && nfds > 0 && !mem.range_ok(fds_ptr as int, (8 * nfds) as int) ==> r
        == PollPlan::Return(errno_word(EFAULT), false)
    &&& nfds <= fd_limit && nfds > 0 && mem.range_ok(fds_ptr as int, (8 * nfds) as int) ==> (r matches PollPlan::Poll(
        in_fds,
        req,
    ) && in_fds@.len() == nfds && req@.len() == nfds && forall|i: int|
        0 <= i < nfds ==> #[trigger] in_fds@[i] == pollfd_at(mem, fds_ptr + 8 * i) && req@[i]
            == poll_request_of(in_fds@[i]))
}

/// Starts a `poll` of `nfds` entries at `fds_ptr` for `retries` ticks:
/// too many entries is `EINVAL`, none returns `0` (after yielding when a
/// wait was asked for), otherwise the entries are read and the network
/// layer's request built.
pub fn sys_linux_poll_with_retries(mem: &UserMemory, fds_ptr: usize, nfds: usize, retries: usize, fd_limit: usize) -> (r:
    PollPlan)
    ensures
        poll_plan_valid(*mem, fds_ptr, nfds, retries, fd_limit, r),
{
    if nfds > fd_limit {
        return PollPlan::Return(linux_errno(EINVAL), false);
    }
    if nfds == 0 {
        return PollPlan::Return(0, retries != 0);
    }
    let in_fds = match read_poll_fds_from_user(mem, fds_ptr, nfds) {
        Ok(v) => v,
        Err(e) => return PollPlan::Return(e, false),
    };
    let req = build_poll_request(in_fds.as_slice());
    PollPlan::Poll(in_fds, req)
}

/// `poll`: the timeout becomes ticks, then as `sys_linux_poll_with_retries`.
pub fn sys_linux_poll(
    mem: &UserMemory,
    fds_ptr: usize,
    nfds: usize,
    timeout: usize,
    blocking_retries: usize,
    fd_limit: usize,
) -> (r: PollPlan)
    ensures
        poll_plan_valid(
            *mem,
            fds_ptr,
            nfds,
            if timeout == usize::MAX { blocking_retries } else { timeout },
            fd_limit,
            r,
        ),
{
    let retries = poll_timeout_to_retries(timeout, blocking_retries);
    sys_linux_poll_with_retries(mem, fds_ptr, nfds, retries, fd_limit)
}

/// Finishes a `poll` once the network layer answered (`ready`, with the
/// revents in `poll_fds`): merges the synthetic events `syn`, writes the
/// revents back and returns the number of ready entries.
pub fn poll_complete(
    mem: &mut UserMemory,
    fds_ptr: usize,
    in_fds: &[LinuxPollFdCompat],
    poll_fds: Vec<PosixPollFd>,
    ready: Result<usize, i32>,
    syn: &[u16],
) -> (r: usize)
    requires
        poll_fds@.len() == in_fds@.len(),
        syn@.len() == in_fds@.len(),
    ensures
        final(mem).base == old(mem).base,
        ready matches Err(code) ==> r == errno_word(code) && *final(mem) == *old(mem),
        ready matches Ok(n) ==> ({
            let merged = Seq::new(
                in_fds@.len(),
                |i: int| merged_entry(in_fds@[i], poll_fds@[i], syn@[i]),
            );
            let extra = saturate(newly_ready_count(in_fds@, revents_of(poll_fds@), syn@, in_fds@.len()));
            let total = if n + extra > usize::MAX { usize::MAX } else { (n + extra) as usize };
            &&& (in_fds@.len() == 0 || old(mem).range_ok(fds_ptr as int, (8 * in_fds@.len()) as int))
                ==> r == total && final(mem).bytes@ == old(mem).stored(
                fds_ptr as int,
                poll_results_bytes(in_fds@, merged, in_fds@.len()),
            )
            &&& !(in_fds@.len() == 0 || old(mem).range_ok(fds_ptr as int, (8 * in_fds@.len()) as int))
                ==> r == errno_word(EFAULT) && final(mem).bytes@ == old(mem).stored(
                fds_ptr as int,
                poll_results_bytes(
                    in_fds@,
                    merged,
                    pollfd_writable_prefix(*old(mem), fds_ptr as int, in_fds@.len()),
                ),
            )
        }),
{
    let n = match ready {
        Ok(v) => v,
        Err(code) => return linux_errno(code),
    };
    let mut fds = poll_fds;
    let extra = apply_synthetic_revents(in_fds, &mut fds, syn);
    let total = n.saturating_add(extra);
    proof {
        let merged = Seq::new(in_fds@.len(), |i: int| merged_entry(in_fds@[i], poll_fds@[i], syn@[i]));
        assert(fds@ =~= merged);
    }
    match write_poll_fds_to_user(mem, fds_ptr, in_fds, fds.as_slice()) {
        Ok(()) => total,
        Err(e) => e,
    }
}

/// Starts a `ppoll`: reads the signal mask to wait under and the timeout,
/// then as `sys_linux_poll_with_retries`.
pub fn sys_linux_ppoll(
    mem: &UserMemory,
    fds_ptr: usize,
    nfds: usize,
    timeout_ptr: usize,
    sigmask_ptr: usize,
    sigset_size: usize,
    blocking_retries: usize,
    time_slice_ns: u128,
    fd_limit: usize,
) -> (r: Result<(Option<u64>, PollPlan), usize>)
    requires
        time_slice_ns <= u64::MAX,
    ensures
        sigmask_ptr != 0 && sigset_size != 8 ==> r == Err::<(Option<u64>, PollPlan), usize>(
            errno_word(EINVAL),
        ),
        sigmask_ptr != 0 && sigset_size == 8 && !mem.range_ok(sigmask_ptr as int, 8) ==> r == Err::<
            (Option<u64>, PollPlan),
            usize,
        >(errno_word(EFAULT)),
        (sigmask_ptr == 0 || (sigset_size == 8 && mem.range_ok(sigmask_ptr as int, 8))) ==> (
        timeout_ptr_outcome(*mem, timeout_ptr, blocking_retries, time_slice_ns) matches Err(e) ==> r
            == Err::<(Option<u64>, PollPlan), usize>(e)),
        (sigmask_ptr == 0 || (sigset_size == 8 && mem.range_ok(sigmask_ptr as int, 8))) ==> (
        timeout_ptr_outcome(*mem, timeout_ptr, blocking_retries, time_slice_ns) is Ok ==> r is Ok),
        r matches Ok((_, plan)) ==> (timeout_ptr_outcome(*mem, timeout_ptr, blocking_retries, time_slice_ns) matches Ok(
            retries,
        ) && poll_plan_valid(*mem, fds_ptr, nfds, retries, fd_limit, plan)),
        r matches Ok((mask, _)) ==> (sigmask_ptr == 0 ==> mask is None) && (sigmask_ptr != 0
            ==> mask == Some(
            u64_from_le(mem.bytes_at(sigmask_ptr as int, 8)) & !((1u64 << 8u64) | (1u64 << 18u64)),
        )),
{
    let mask = match parse_sigmask(mem, sigmask_ptr, sigset_size) {
        Ok(m) => m,
        Err(e) => return Err(e),
    };
    let retries = match timeout_ptr_to_retries(mem, timeout_ptr, blocking_retries, time_slice_ns) {
        Ok(r) => r,
        Err(e) => return Err(e),
    };
    Ok((mask, sys_linux_poll_with_retries(mem, fds_ptr, nfds, retries, fd_limit)))
}

} // verus!
