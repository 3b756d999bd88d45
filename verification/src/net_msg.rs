use vstd::prelude::*;

use crate::errno::{errno_word, linux_errno, EFAULT, EINVAL, ENOTTY, EOVERFLOW};
use crate::user_memory::{
    store_seq, u32_from_le, u32_le_bytes, u64_from_le, usize_words_bytes, UserMemory,
};

verus! {

/// `AF_UNIX`.
pub const AF_UNIX: u16 = 1;

/// `AF_INET`.
pub const AF_INET: u16 = 2;

/// Size of a `struct sockaddr_in`.
pub const SOCKADDR_IN_BYTES: usize = 16;

/// Size of a `struct msghdr`.
pub const LINUX_MSGHDR_COMPAT_SIZE: usize = 56;

/// Size of a `struct iovec`.
pub const LINUX_IOVEC_COMPAT_SIZE: usize = 16;

/// The most `iovec` entries one message may have.
pub const IOV_MAX: usize = 1024;

/// `FIONBIO`, the one `ioctl` the shim accepts.
pub const FIONBIO: usize = 0x5421;

/// An IPv4 socket address.
#[derive(Debug, Clone, Copy, PartialEq, Eq)]
pub struct PosixSocketAddrV4 {
    pub addr: [u8; 4],
    pub port: u16,
}

/// `ioctl`: `FIONBIO` is accepted and does nothing; anything else is
/// `ENOTTY`.
pub fn sys_linux_ioctl(fd: usize, cmd: usize, arg: usize) -> (r: usize)
    ensures
        cmd == FIONBIO ==> r == 0,
        cmd != FIONBIO ==> r == errno_word(ENOTTY),
{
    let _ = (fd, arg);
    if cmd == FIONBIO {
        0
    } else {
        linux_errno(ENOTTY)
    }
}

/// The limit on the bytes one message's `iovec`s may cover: the largest
/// boot image, clamped to `4096..=16 MiB`.
pub fn linux_shim_msg_iovec_cap_bytes(max_boot_image_bytes: usize) -> (r: usize)
    ensures
        r == (if max_boot_image_bytes < 4096 {
            4096usize
        } else if max_boot_image_bytes > 16 * 1024 * 1024 {
            16777216usize
        } else {
            max_boot_image_bytes
        }),
{
    if max_boot_image_bytes < 4096 {
        4096
    } else if max_boot_image_bytes > 16 * 1024 * 1024 {
        16 * 1024 * 1024
    } else {
        max_boot_image_bytes
    }
}

/// A message may have at most `IOV_MAX` `iovec`s.
pub fn validate_iov_len(iov_len: usize) -> (r: Result<(), usize>)
    ensures
        iov_len <= IOV_MAX ==> r is Ok,
        iov_len > IOV_MAX ==> r == Err::<(), usize>(errno_word(EINVAL)),
{
    if iov_len > IOV_MAX {
        Err(linux_errno(EINVAL))
    } else {
        Ok(())
    }
}

/// The `u32` at `ptr`.
pub open spec fn u32_at(mem: UserMemory, ptr: int) -> u32 {
    u32_from_le(mem.bytes_at(ptr, 4))
}

/// The `u64` at `ptr`, as a word.
pub open spec fn word_at(mem: UserMemory, ptr: int) -> usize {
    u64_from_le(mem.bytes_at(ptr, 8)) as usize
}

/// Reads a `struct msghdr`: name pointer and length, `iovec` pointer and
/// count.
pub fn read_linux_msghdr_compat(mem: &UserMemory, msg: usize) -> (r: Result<(usize, usize, usize, usize), usize>)
    ensures
        r is Ok <==> mem.range_ok(msg as int, 56),
        r matches Ok(h) ==> h == (
            word_at(*mem, msg as int),
            u32_at(*mem, msg + 8) as usize,
            word_at(*mem, msg + 16),
            word_at(*mem, msg + 24),
        ),
        r is Err ==> r == Err::<(usize, usize, usize, usize), usize>(errno_word(EFAULT)),
{
    if !mem.range_valid(msg, LINUX_MSGHDR_COMPAT_SIZE) {
        return Err(linux_errno(EFAULT));
    }
    let name_ptr = match mem.read_u64(msg) {
        Some(v) => v as usize,
        None => return Err(linux_errno(EFAULT)),
    };
    let name_len = match mem.read_u32(msg + 8) {
        Some(v) => v as usize,
        None => return Err(linux_errno(EFAULT)),
    };
    let iov_ptr = match mem.read_u64(msg + 16) {
        Some(v) => v as usize,
        None => return Err(linux_errno(EFAULT)),
    };
    let iov_len = match mem.read_u64(msg + 24) {
        Some(v) => v as usize,
        None => return Err(linux_errno(EFAULT)),
    };
    Ok((name_ptr, name_len, iov_ptr, iov_len))
}

/// Reads a `struct iovec`: base and length.
pub fn read_linux_iovec_compat(mem: &UserMemory, ptr: usize) -> (r: Result<(usize, usize), usize>)
    ensures
        r is Ok <==> mem.range_ok(ptr as int, 16),
        r matches Ok(v) ==> v == (word_at(*mem, ptr as int), word_at(*mem, ptr + 8)),
        r is Err ==> r == Err::<(usize, usize), usize>(errno_word(EFAULT)),
{
    if !mem.range_valid(ptr, LINUX_IOVEC_COMPAT_SIZE) {
        return Err(linux_errno(EFAULT));
    }
    let base = match mem.read_u64(ptr) {
        Some(v) => v as usize,
        None => return Err(linux_errno(EFAULT)),
    };
    let len = match mem.read_u64(ptr + 8) {
        Some(v) => v as usize,
        None => return Err(linux_errno(EFAULT)),
    };
    Ok((base, len))
}

/// `a + b`, saturated to a word.
pub open spec fn sat_add(a: int, b: int) -> int {
    if a + b > usize::MAX {
        usize::MAX as int
    } else {
        a + b
    }
}

/// The address of `iovec` `i`, or `None` when it lies past the end of
/// memory.
pub open spec fn iovec_entry_addr(iov_ptr: usize, i: int) -> Option<int> {
    let off = if i * 16 > usize::MAX { usize::MAX as int } else { i * 16 };
    if iov_ptr + off > usize::MAX {
        None
    } else {
        Some(iov_ptr + off)
    }
}

/// The payload `sendmsg` gathers from `iovec` `i` on, having gathered
/// `total` bytes before.
pub open spec fn gather_outcome(
    mem: UserMemory,
    iov_ptr: usize,
    i: nat,
    n: usize,
    total: int,
    limit: usize,
) -> Result<Seq<u8>, usize>
    decreases n - i,
{
    if i >= n {
        Ok(Seq::empty())
    } else {
        match iovec_entry_addr(iov_ptr, i as int) {
            None => Err(errno_word(EOVERFLOW)),
            Some(a) => if !mem.range_ok(a, 16) {
                Err(errno_word(EFAULT))
            } else {
                let base = word_at(mem, a);
                let len = word_at(mem, a + 8);
                if len == 0 {
                    gather_outcome(mem, iov_ptr, i + 1, n, total, limit)
                } else {
                    let t = sat_add(total, len as int);
                    if t > limit {
                        Err(errno_word(EINVAL))
                    } else if !mem.range_ok(base as int, len as int) {
                        Err(errno_word(EFAULT))
                    } else {
                        match gather_outcome(mem, iov_ptr, i + 1, n, t, limit) {
                            Ok(rest) => Ok(mem.bytes_at(base as int, len as int) + rest),
                            Err(e) => Err(e),
                        }
                    }
                }
            },
        }
    }
}

/// Puts `prefix` before the bytes of `rest`, or passes its error on.
pub open spec fn prepend_bytes(prefix: Seq<u8>, rest: Result<Seq<u8>, usize>) -> Result<Seq<u8>, usize> {
    match rest {
        Ok(v) => Ok(prefix + v),
        Err(e) => Err(e),
    }
}

/// The address of `iovec` `i`.
fn iovec_entry_ptr(iov_ptr: usize, i: usize) -> (r: Option<usize>)
    ensures
        r matches Some(a) ==> iovec_entry_addr(iov_ptr, i as int) == Some(a as int),
        r is None ==> iovec_entry_addr(iov_ptr, i as int) is None,
{
    let off = match i.checked_mul(LINUX_IOVEC_COMPAT_SIZE) {
        Some(o) => o,
        None => usize::MAX,
    };
    iov_ptr.checked_add(off)
}

/// Gathers the payload of `iov_len` `iovec`s at `iov_ptr`.
fn gather_iovecs(mem: &UserMemory, iov_ptr: usize, iov_len: usize, limit: usize) -> (r: Result<Vec<u8>, usize>)
    ensures
        r matches Ok(v) ==> gather_outcome(*mem, iov_ptr, 0, iov_len, 0, limit) == Ok::<Seq<u8>, usize>(v@),
        r matches Err(e) ==> gather_outcome(*mem, iov_ptr, 0, iov_len, 0, limit) == Err::<Seq<u8>, usize>(e),
{
    let mut payload: Vec<u8> = Vec::new();
    let mut total: usize = 0;
    let mut i: usize = 0;
    assert(payload@ + Seq::<u8>::empty() =~= payload@);
    while i < iov_len
        invariant
            i <= iov_len,
            total <= limit,
            gather_outcome(*mem, iov_ptr, 0, iov_len, 0, limit) == prepend_bytes(
                payload@,
                gather_outcome(*mem, iov_ptr, i as nat, iov_len, total as int, limit),
            ),
        decreases iov_len - i,
    {
        let entry_ptr = match iovec_entry_ptr(iov_ptr, i) {
            Some(p) => p,
            None => return Err(linux_errno(EOVERFLOW)),
        };
        let (base, len) = match read_linux_iovec_compat(mem, entry_ptr) {
            Ok(v) => v,
            Err(e) => return Err(e),
        };
        if len != 0 {
            let t = total.saturating_add(len);
            if t > limit {
                return Err(linux_errno(EINVAL));
            }
            let chunk = match mem.read_bytes(base, len) {
                Some(c) => c,
                None => return Err(linux_errno(EFAULT)),
            };
            let ghost before = payload@;
            let mut c = chunk;
            payload.append(&mut c);
            proof {
                let rest = gather_outcome(*mem, iov_ptr, (i + 1) as nat, iov_len, t as int, limit);
                match rest {
                    Ok(v) => {
                        assert(before + (mem.bytes_at(base as int, len as int) + v) =~= payload@ + v);
                    },
                    Err(_) => {},
                }
            }
            total = t;
        }
        i = i + 1;
    }
    Ok(payload)
}

/// What `sendmsg` does next.
pub enum SendPlan {
    /// Return this value at once.
    Return(usize),
    /// Send the payload (to the address, when one was named).
    Send(Vec<u8>, Option<PosixSocketAddrV4>),
}

/// The IPv4 address a `sockaddr_in` at `ptr` names, or why it does not.
pub open spec fn sockaddr_in_outcome(mem: UserMemory, ptr: usize, len: usize) -> Result<PosixSocketAddrV4, usize> {
    if len < 16 {
        Err(errno_word(EINVAL))
    } else if !mem.range_ok(ptr as int, 16) {
        Err(errno_word(EFAULT))
    } else {
        let b = mem.bytes_at(ptr as int, 16);
        if (b[0] as u16) | ((b[1] as u16) << 8u16) != AF_INET {
            Err(errno_word(EINVAL))
        } else {
            Ok(
                PosixSocketAddrV4 {
                    addr: [b[4], b[5], b[6], b[7]],
                    port: ((b[2] as u16) << 8u16) | (b[3] as u16),
                },
            )
        }
    }
}

/// Reads a `sockaddr_in` of `len` bytes: it must be long enough and of the
/// `AF_INET` family.  The port is stored big-endian.
pub fn read_sockaddr_in(mem: &UserMemory, ptr: usize, len: usize) -> (r: Result<PosixSocketAddrV4, usize>)
    ensures
        r == sockaddr_in_outcome(*mem, ptr, len),
{
    if len < SOCKADDR_IN_BYTES {
        return Err(linux_errno(EINVAL));
    }
    let b = match mem.read_bytes(ptr, SOCKADDR_IN_BYTES) {
        Some(b) => b,
        None => return Err(linux_errno(EFAULT)),
    };
    let family = (b[0] as u16) | ((b[1] as u16) << 8u16);
    if family != AF_INET {
        return Err(linux_errno(EINVAL));
    }
    Ok(PosixSocketAddrV4 { addr: [b[4], b[5], b[6], b[7]], port: ((b[2] as u16) << 8u16) | (b[3] as u16) })
}

/// `read_sockaddr_in` as the message calls use it.
pub fn read_sockaddr_in_compat(mem: &UserMemory, ptr: usize, len: usize) -> (r: Result<PosixSocketAddrV4, usize>)
    ensures
        r == sockaddr_in_outcome(*mem, ptr, len),
{
    read_sockaddr_in(mem, ptr, len)
}

/// `sendmsg`: checks the flags (`flags_check` is their verdict), reads
/// the header, gathers the payload from the `iovec`s (at most
/// `iovec_limit` bytes) and reads the destination when one is named.
pub fn sys_linux_sendmsg(
    mem: &UserMemory,
    msg: usize,
    flags_check: Result<(), usize>,
    iovec_limit: usize,
) -> (r: SendPlan)
    ensures
        flags_check matches Err(e) ==> r == SendPlan::Return(e),
        flags_check is Ok && !mem.range_ok(msg as int, 56) ==> r == SendPlan::Return(errno_word(EFAULT)),
        flags_check is Ok && mem.range_ok(msg as int, 56) ==> ({
            let name_ptr = word_at(*mem, msg as int);
            let name_len = u32_at(*mem, msg + 8) as usize;
            let iov_ptr = word_at(*mem, msg + 16);
            let iov_len = word_at(*mem, msg + 24);
            &&& iov_len == 0 ==> r == SendPlan::Return(0)
            &&& iov_len > IOV_MAX ==> r == SendPlan::Return(errno_word(EINVAL))
            &&& 0 < iov_len <= IOV_MAX ==> match gather_outcome(*mem, iov_ptr, 0, iov_len, 0, iovec_limit) {
                Err(e) => r == SendPlan::Return(e),
                Ok(p) => if name_ptr == 0 {
                    r matches SendPlan::Send(q, None) && q@ == p
                } else {
                    match sockaddr_in_outcome(*mem, name_ptr, name_len) {
                        Err(e) => r == SendPlan::Return(e),
                        Ok(a) => r matches SendPlan::Send(q, Some(b)) && q@ == p && b == a,
                    }
                },
            }
        }),
{
    if let Err(err) = flags_check {
        return SendPlan::Return(err);
    }
    let (name_ptr, name_len, iov_ptr, iov_len) = match read_linux_msghdr_compat(mem, msg) {
        Ok(v) => v,
        Err(e) => return SendPlan::Return(e),
    };
    if iov_len == 0 {
        return SendPlan::Return(0);
    }
    if let Err(err) = validate_iov_len(iov_len) {
        return SendPlan::Return(err);
    }
    let payload = match gather_iovecs(mem, iov_ptr, iov_len, iovec_limit) {
        Ok(p) => p,
        Err(e) => return SendPlan::Return(e),
    };
    if name_ptr == 0 {
        SendPlan::Send(payload, None)
    } else {
        match read_sockaddr_in_compat(mem, name_ptr, name_len) {
            Ok(a) => SendPlan::Send(payload, Some(a)),
            Err(e) => SendPlan::Return(e),
        }
    }
}

/// The `iovec`s `recvmsg` collects from entry `i` on, having counted
/// `total` bytes of room before.
pub open spec fn collect_outcome(
    mem: UserMemory,
    iov_ptr: usize,
    i: nat,
    n: usize,
    total: int,
    limit: usize,
) -> Result<(Seq<(usize, usize)>, int), usize>
    decreases n - i,
{
    if i >= n {
        Ok((Seq::empty(), total))
    } else {
        match iovec_entry_addr(iov_ptr, i as int) {
            None => Err(errno_word(EOVERFLOW)),
            Some(a) => if !mem.range_ok(a, 16) {
                Err(errno_word(EFAULT))
            } else {
                let base = word_at(mem, a);
                let len = word_at(mem, a + 8);
                let t = sat_add(total, len as int);
                if t > limit {
                    Err(errno_word(EINVAL))
                } else {
                    match collect_outcome(mem, iov_ptr, i + 1, n, t, limit) {
                        Ok((rest, fin)) => Ok((seq![(base, len)] + rest, fin)),
                        Err(e) => Err(e),
                    }
                }
            },
        }
    }
}

/// What `recvmsg` does next.
pub enum RecvPlan {
    /// Return this value at once.
    Return(usize),
    /// Receive a packet into these `(base, len)` buffers; the name
    /// pointer of the header is kept for the sender's address.
    Receive(usize, Vec<(usize, usize)>),
}

/// `recvmsg`, up to the receive: checks the flags, reads the header and
/// collects the `iovec`s (at most `iovec_limit` bytes of room; no room
/// returns `0`).
#[verifier::loop_isolation(false)]
pub fn sys_linux_recvmsg(
    mem: &UserMemory,
    msg: usize,
    flags_check: Result<(), usize>,
    iovec_limit: usize,
) -> (r: RecvPlan)
    ensures
        flags_check matches Err(e) ==> r == RecvPlan::Return(e),
        flags_check is Ok && !mem.range_ok(msg as int, 56) ==> r == RecvPlan::Return(errno_word(EFAULT)),
        flags_check is Ok && mem.range_ok(msg as int, 56) ==> ({
            let name_ptr = word_at(*mem, msg as int);
            let iov_ptr = word_at(*mem, msg + 16);
            let iov_len = word_at(*mem, msg + 24);
            &&& iov_len == 0 ==> r == RecvPlan::Return(0)
            &&& iov_len > IOV_MAX ==> r == RecvPlan::Return(errno_word(EINVAL))
            &&& 0 < iov_len <= IOV_MAX ==> match collect_outcome(*mem, iov_ptr, 0, iov_len, 0, iovec_limit) {
                Err(e) => r == RecvPlan::Return(e),
                Ok((iovs, total)) => if total == 0 {
                    r == RecvPlan::Return(0)
                } else {
                    r matches RecvPlan::Receive(np, v) && np == name_ptr && v@ == iovs
                },
            }
        }),
{
    if let Err(err) = flags_check {
        return RecvPlan::Return(err);
    }
    let (name_ptr, _name_len, iov_ptr, iov_len) = match read_linux_msghdr_compat(mem, msg) {
        Ok(v) => v,
        Err(e) => return RecvPlan::Return(e),
    };
    if iov_len == 0 {
        return RecvPlan::Return(0);
    }
    if let Err(err) = validate_iov_len(iov_len) {
        return RecvPlan::Return(err);
    }
    let mut iovs: Vec<(usize, usize)> = Vec::new();
    let mut total_cap: usize = 0;
    let mut i: usize = 0;
    let ghost whole = collect_outcome(*mem, iov_ptr, 0, iov_len, 0, iovec_limit);
    assert(iovs@ + Seq::<(usize, usize)>::empty() =~= iovs@);
    while i < iov_len
        invariant
            i <= iov_len,
            total_cap <= iovec_limit,
            whole == collect_outcome(*mem, iov_ptr, 0, iov_len, 0, iovec_limit),
            whole == match collect_outcome(*mem, iov_ptr, i as nat, iov_len, total_cap as int, iovec_limit) {
                Ok((rest, fin)) => Ok::<(Seq<(usize, usize)>, int), usize>((iovs@ + rest, fin)),
                Err(e) => Err::<(Seq<(usize, usize)>, int), usize>(e),
            },
        decreases iov_len - i,
    {
        let entry_ptr = match iovec_entry_ptr(iov_ptr, i) {
            Some(p) => p,
            None => return RecvPlan::Return(linux_errno(EOVERFLOW)),
        };
        let (base, len) = match read_linux_iovec_compat(mem, entry_ptr) {
            Ok(v) => v,
            Err(e) => return RecvPlan::Return(e),
        };
        let t = total_cap.saturating_add(len);
        if t > iovec_limit {
            return RecvPlan::Return(linux_errno(EINVAL));
        }
        proof {
            match collect_outcome(*mem, iov_ptr, (i + 1) as nat, iov_len, t as int, iovec_limit) {
                Ok((rest, fin)) => {
                    assert(iovs@ + (seq![(base, len)] + rest) =~= iovs@.push((base, len)) + rest);
                },
                Err(_) => {},
            }
        }
        iovs.push((base, len));
        total_cap = t;
        i = i + 1;
    }
    assert(iovs@ + Seq::<(usize, usize)>::empty() =~= iovs@);
    if total_cap == 0 {
        return RecvPlan::Return(0);
    }
    RecvPlan::Receive(name_ptr, iovs)
}

/// The memory after the payload from byte `copied` on is spread over the
/// buffers from `i` on, with how many bytes were copied in all, or
/// `EFAULT` when a buffer cannot take its part.
pub open spec fn scatter_outcome(
    m: UserMemory,
    bytes: Seq<u8>,
    iovs: Seq<(usize, usize)>,
    payload: Seq<u8>,
    i: nat,
    copied: int,
) -> Result<(Seq<u8>, int), usize>
    decreases iovs.len() - i,
{
    if i >= iovs.len() || copied >= payload.len() {
        Ok((bytes, copied))
    } else {
        let base = iovs[i as int].0;
        let len = iovs[i as int].1;
        if len == 0 {
            scatter_outcome(m, bytes, iovs, payload, i + 1, copied)
        } else {
            let take = if len < payload.len() - copied { len as int } else { payload.len() - copied };
            if !m.range_ok(base as int, take) {
                Err(errno_word(EFAULT))
            } else {
                scatter_outcome(
                    m,
                    store_seq(bytes, m.base as int, base as int, payload.subrange(copied, copied + take)),
                    iovs,
                    payload,
                    i + 1,
                    copied + take,
                )
            }
        }
    }
}

/// Spreads a received payload over the buffers; gives the byte count.
fn scatter_payload(mem: &mut UserMemory, iovs: &Vec<(usize, usize)>, payload: &Vec<u8>) -> (r: Result<
    usize,
    usize,
>)
    ensures
        final(mem).base == old(mem).base,
        final(mem).bytes@.len() == old(mem).bytes@.len(),
        ({
            let want = scatter_outcome(*old(mem), old(mem).bytes@, iovs@, payload@, 0, 0);
            &&& r matches Ok(n) ==> want == Ok::<(Seq<u8>, int), usize>((final(mem).bytes@, n as int))
            &&& r matches Err(e) ==> want == Err::<(Seq<u8>, int), usize>(e)
        }),
{
    let ghost m0 = *mem;
    let plen = payload.len();
    let mut copied: usize = 0;
    let mut i: usize = 0;
    while i < iovs.len() && copied < plen
        invariant
            i <= iovs@.len(),
            plen == payload@.len(),
            copied <= plen,
            m0 == *old(mem),
            mem.base == m0.base,
            mem.bytes@.len() == m0.bytes@.len(),
            scatter_outcome(m0, m0.bytes@, iovs@, payload@, 0, 0) == scatter_outcome(
                m0,
                mem.bytes@,
                iovs@,
                payload@,
                i as nat,
                copied as int,
            ),
        decreases iovs@.len() - i,
    {
        let (base, len) = iovs[i];
        if len != 0 {
            let take = if len < plen - copied {
                len
            } else {
                plen - copied
            };
            let mut chunk: Vec<u8> = Vec::new();
            let mut k: usize = 0;
            while k < take
                invariant
                    k <= take,
                    plen == payload@.len(),
                    copied + take <= plen,
                    chunk@ == payload@.subrange(copied as int, copied + k),
                decreases take - k,
            {
                chunk.push(payload[copied + k]);
                assert(chunk@ =~= payload@.subrange(copied as int, copied + k + 1));
                k = k + 1;
            }
            let ghost before = mem.bytes@;
            if !mem.write_bytes(base, chunk.as_slice()) {
                return Err(linux_errno(EFAULT));
            }
            assert(mem.bytes@ == store_seq(before, m0.base as int, base as int, chunk@));
            copied = copied + take;
        }
        i = i + 1;
    }
    Ok(copied)
}

/// The bytes of a `sockaddr_in` for an address.
pub open spec fn sockaddr_in_bytes(a: PosixSocketAddrV4) -> Seq<u8> {
    seq![
        AF_INET as u8,
        0u8,
        (a.port >> 8u16) as u8,
        (a.port & 0xff) as u8,
        a.addr[0],
        a.addr[1],
        a.addr[2],
        a.addr[3],
        0u8,
        0u8,
        0u8,
        0u8,
        0u8,
        0u8,
        0u8,
        0u8,
    ]
}

/// Builds the bytes of a `sockaddr_in`.
fn encode_sockaddr_in(a: &PosixSocketAddrV4) -> (r: Vec<u8>)
    ensures
        r@ == sockaddr_in_bytes(*a),
{
    let mut v: Vec<u8> = Vec::new();
    v.push(AF_INET as u8);
    v.push(0u8);
    v.push((a.port >> 8u16) as u8);
    v.push((a.port & 0xff) as u8);
    v.push(a.addr[0]);
    v.push(a.addr[1]);
    v.push(a.addr[2]);
    v.push(a.addr[3]);
    v.push(0u8);
    v.push(0u8);
    v.push(0u8);
    v.push(0u8);
    v.push(0u8);
    v.push(0u8);
    v.push(0u8);
    v.push(0u8);
    assert(v@ =~= sockaddr_in_bytes(*a));
    v
}

/// Stores a `sockaddr_in` at `ptr`; `0` or `EFAULT`.
pub fn write_sockaddr_in_compat(mem: &mut UserMemory, ptr: usize, addr: PosixSocketAddrV4) -> (r: usize)
    ensures
        final(mem).base == old(mem).base,
        old(mem).range_ok(ptr as int, 16) ==> r == 0 && final(mem).bytes@ == old(mem).stored(
            ptr as int,
            sockaddr_in_bytes(addr),
        ),
        !old(mem).range_ok(ptr as int, 16) ==> r == errno_word(EFAULT) && final(mem).bytes@ == old(mem).bytes@,
{
    let b = encode_sockaddr_in(&addr);
    if mem.write_bytes(ptr, b.as_slice()) {
        0
    } else {
        linux_errno(EFAULT)
    }
}

/// Stores the name length of a `msghdr`.
pub fn write_linux_msghdr_namelen_compat(mem: &mut UserMemory, msg: usize, name_len: u32) -> (r: Result<
    (),
    usize,
>)
    requires
        msg + 8 <= usize::MAX,
    ensures
        final(mem).base == old(mem).base,
        r is Ok <==> old(mem).range_ok(msg + 8, 4),
        r is Ok ==> final(mem).bytes@ == old(mem).stored(msg + 8, u32_le_bytes(name_len)),
        r is Err ==> r == Err::<(), usize>(errno_word(EFAULT)) && final(mem).bytes@ == old(mem).bytes@,
{
    if mem.write_u32(msg + 8, name_len) {
        Ok(())
    } else {
        Err(linux_errno(EFAULT))
    }
}

/// Stores the flags of a `msghdr`.
pub fn write_linux_msghdr_flags_compat(mem: &mut UserMemory, msg: usize, out_flags: i32) -> (r: Result<
    (),
    usize,
>)
    requires
        msg + 48 <= usize::MAX,
    ensures
        final(mem).base == old(mem).base,
        r is Ok <==> old(mem).range_ok(msg + 48, 4),
        r is Ok ==> final(mem).bytes@ == old(mem).stored(msg + 48, u32_le_bytes(out_flags as u32)),
        r is Err ==> r == Err::<(), usize>(errno_word(EFAULT)) && final(mem).bytes@ == old(mem).bytes@,
{
    if mem.write_u32(msg + 48, out_flags as u32) {
        Ok(())
    } else {
        Err(linux_errno(EFAULT))
    }
}

/// Stores the name length and the flags of a `msghdr`.
pub fn write_recvmsg_result_metadata(mem: &mut UserMemory, msg: usize, name_len: u32, out_flags: i32) -> (r:
    Result<(), usize>)
    requires
        msg + 48 <= usize::MAX,
    ensures
        final(mem).base == old(mem).base,
        !old(mem).range_ok(msg + 8, 4) ==> r == Err::<(), usize>(errno_word(EFAULT)) && final(mem).bytes@ == old(mem).bytes@,
        old(mem).range_ok(msg + 8, 4) ==> {
            let m1 = store_seq(old(mem).bytes@, old(mem).base as int, msg + 8, u32_le_bytes(name_len));
            &&& old(mem).range_ok(msg + 48, 4) ==> r is Ok && final(mem).bytes@ == store_seq(
                m1,
                old(mem).base as int,
                msg + 48,
                u32_le_bytes(out_flags as u32),
            )
            &&& !old(mem).range_ok(msg + 48, 4) ==> r == Err::<(), usize>(errno_word(EFAULT)) && final(mem).bytes@ == m1
        },
{
    write_linux_msghdr_namelen_compat(mem, msg, name_len)?;
    write_linux_msghdr_flags_compat(mem, msg, out_flags)
}

/// Finishes `recvmsg` once the network layer answered with a packet (its
/// payload and sender) or an errno: spreads the payload over the buffers,
/// stores the sender's address when the header names a buffer for it, and
/// the name length and (zero) flags; returns the bytes copied.
pub fn recvmsg_complete(
    mem: &mut UserMemory,
    msg: usize,
    name_ptr: usize,
    iovs: &Vec<(usize, usize)>,
    packet: Result<(Vec<u8>, PosixSocketAddrV4), i32>,
) -> (r: usize)
    requires
        msg + 48 <= usize::MAX,
    ensures
        final(mem).base == old(mem).base,
        packet matches Err(code) ==> r == errno_word(code) && *final(mem) == *old(mem),
        packet matches Ok((payload, from)) ==> match scatter_outcome(*old(mem), old(mem).bytes@, iovs@, payload@, 0, 0) {
            Err(e) => r == e,
            Ok((b1, n)) => if name_ptr != 0 && !old(mem).range_ok(name_ptr as int, 16) {
                r == errno_word(EFAULT) && final(mem).bytes@ == b1
            } else {
                let b2 = if name_ptr != 0 {
                    store_seq(b1, old(mem).base as int, name_ptr as int, sockaddr_in_bytes(from))
                } else {
                    b1
                };
                let nl: u32 = if name_ptr != 0 { 16 } else { 0 };
                if !old(mem).range_ok(msg + 8, 4) {
                    r == errno_word(EFAULT) && final(mem).bytes@ == b2
                } else {
                    let b3 = store_seq(b2, old(mem).base as int, msg + 8, u32_le_bytes(nl));
                    if !old(mem).range_ok(msg + 48, 4) {
                        r == errno_word(EFAULT) && final(mem).bytes@ == b3
                    } else {
                        r == n && final(mem).bytes@ == store_seq(
                            b3,
                            old(mem).base as int,
                            msg + 48,
                            u32_le_bytes(0),
                        )
                    }
                }
            },
        },
{
    let (payload, from) = match packet {
        Ok(p) => p,
        Err(code) => return linux_errno(code),
    };
    let copied = match scatter_payload(mem, iovs, &payload) {
        Ok(n) => n,
        Err(e) => return e,
    };
    if name_ptr != 0 {
        let wrote = write_sockaddr_in_compat(mem, name_ptr, from);
        if wrote != 0 {
            return wrote;
        }
        if let Err(err) = write_recvmsg_result_metadata(mem, msg, 16, 0) {
            return err;
        }
    } else {
        if let Err(err) = write_recvmsg_result_metadata(mem, msg, 0, 0) {
            return err;
        }
    }
    copied
}

/// Stores the two descriptors of a socket pair as two aligned words.
pub fn write_socketpair_fds(mem: &mut UserMemory, sv_ptr: usize, fd0: u32, fd1: u32) -> (r: Result<
    (),
    usize,
>)
    ensures
        final(mem).base == old(mem).base,
        r is Ok <==> (sv_ptr % 8 == 0 && old(mem).range_ok(sv_ptr as int, 16)),
        r is Ok ==> final(mem).bytes@ == old(mem).stored(
            sv_ptr as int,
            usize_words_bytes(seq![fd0 as usize, fd1 as usize]),
        ),
        r is Err ==> r == Err::<(), usize>(errno_word(EFAULT)) && final(mem).bytes@ == old(mem).bytes@,
{
    let mut w: Vec<usize> = Vec::new();
    w.push(fd0 as usize);
    w.push(fd1 as usize);
    assert(w@ =~= seq![fd0 as usize, fd1 as usize]);
    match mem.write_words(sv_ptr, 16, w.as_slice()) {
        Ok(()) => Ok(()),
        Err(_) => Err(linux_errno(EFAULT)),
    }
}

/// How a socket is shut down.
#[derive(Debug, Clone, Copy, PartialEq, Eq, Structural)]
pub enum ShutdownHow {
    Read,
    Write,
    Both,
}

/// `shutdown`: `SHUT_RD`, `SHUT_WR` or `SHUT_RDWR`.
pub fn sys_linux_shutdown(how: usize) -> (r: Result<ShutdownHow, usize>)
    ensures
        how as i32 == 0 ==> r == Ok::<ShutdownHow, usize>(ShutdownHow::Read),
        how as i32 == 1 ==> r == Ok::<ShutdownHow, usize>(ShutdownHow::Write),
        how as i32 == 2 ==> r == Ok::<ShutdownHow, usize>(ShutdownHow::Both),
        !(0 <= how as i32 <= 2) ==> r == Err::<ShutdownHow, usize>(errno_word(EINVAL)),
{
    let h = how as i32;
    if h == 0 {
        Ok(ShutdownHow::Read)
    } else if h == 1 {
        Ok(ShutdownHow::Write)
    } else if h == 2 {
        Ok(ShutdownHow::Both)
    } else {
        Err(linux_errno(EINVAL))
    }
}

/// Loads the `socklen_t` at `len_ptr`.
pub fn read_sockaddr_len(mem: &UserMemory, len_ptr: usize) -> (r: Result<usize, usize>)
    ensures
        r is Ok <==> mem.range_ok(len_ptr as int, 4),
        r matches Ok(n) ==> n == u32_at(*mem, len_ptr as int) as usize,
        r is Err ==> r == Err::<usize, usize>(errno_word(EFAULT)),
{
    match mem.read_u32(len_ptr) {
        Some(v) => Ok(v as usize),
        None => Err(linux_errno(EFAULT)),
    }
}

/// Stores a `socklen_t` at `len_ptr`; `0` or `EFAULT`.
pub fn write_sockaddr_len(mem: &mut UserMemory, len_ptr: usize, len: u32) -> (r: usize)
    ensures
        final(mem).base == old(mem).base,
        old(mem).range_ok(len_ptr as int, 4) ==> r == 0 && final(mem).bytes@ == old(mem).stored(
            len_ptr as int,
            u32_le_bytes(len),
        ),
        !old(mem).range_ok(len_ptr as int, 4) ==> r == errno_word(EFAULT) && final(mem).bytes@ == old(mem).bytes@,
{
    if mem.write_u32(len_ptr, len) {
        0
    } else {
        linux_errno(EFAULT)
    }
}

/// What `write_sockaddr_in` returns.
pub open spec fn sockaddr_store_ret(mem: UserMemory, ptr: usize, len_ptr: usize) -> usize {
    if !mem.range_ok(len_ptr as int, 4) {
        errno_word(EFAULT)
    } else if u32_at(mem, len_ptr as int) < 16 {
        errno_word(EINVAL)
    } else if !mem.range_ok(ptr as int, 16) {
        errno_word(EFAULT)
    } else {
        0
    }
}

/// Stores an IPv4 address for a caller whose buffer length is at
/// `len_ptr`: the buffer must hold a `sockaddr_in`; the length is then set
/// to its size.
pub fn write_sockaddr_in(mem: &mut UserMemory, ptr: usize, len_ptr: usize, addr: PosixSocketAddrV4) -> (r:
    usize)
    ensures
        final(mem).base == old(mem).base,
        r == sockaddr_store_ret(*old(mem), ptr, len_ptr),
        !old(mem).range_ok(len_ptr as int, 4) ==> r == errno_word(EFAULT) && *final(mem) == *old(mem),
        old(mem).range_ok(len_ptr as int, 4) && u32_at(*old(mem), len_ptr as int) < 16 ==> r
            == errno_word(EINVAL) && *final(mem) == *old(mem),
        old(mem).range_ok(len_ptr as int, 4) && u32_at(*old(mem), len_ptr as int) >= 16 ==> {
            &&& !old(mem).range_ok(ptr as int, 16) ==> r == errno_word(EFAULT) && final(mem).bytes@
                == old(mem).bytes@
            &&& old(mem).range_ok(ptr as int, 16) ==> r == 0 && final(mem).bytes@ == store_seq(
                old(mem).stored(ptr as int, sockaddr_in_bytes(addr)),
                old(mem).base as int,
                len_ptr as int,
                u32_le_bytes(16),
            )
        },
{
    let given_len = match read_sockaddr_len(mem, len_ptr) {
        Ok(n) => n,
        Err(e) => return e,
    };
    if given_len < SOCKADDR_IN_BYTES {
        return linux_errno(EINVAL);
    }
    let rc = write_sockaddr_in_compat(mem, ptr, addr);
    if rc != 0 {
        return rc;
    }
    write_sockaddr_len(mem, len_ptr, 16)
}

/// Finishes `accept` once the network layer gave the new descriptor: when
/// both pointers are set and the peer's address is known, it is stored for
/// the caller (a failure to store is returned).
pub fn accept_complete(
    mem: &mut UserMemory,
    addr_ptr: usize,
    len_ptr: usize,
    new_fd: u32,
    peer: Option<PosixSocketAddrV4>,
) -> (r: usize)
    ensures
        final(mem).base == old(mem).base,
        (addr_ptr == 0 || len_ptr == 0 || peer is None) ==> r == new_fd as usize && *final(mem) == *old(mem),
        (addr_ptr != 0 && len_ptr != 0 && peer is Some) ==> r == (if sockaddr_store_ret(
            *old(mem),
            addr_ptr,
            len_ptr,
        ) == 0 {
            new_fd as usize
        } else {
            sockaddr_store_ret(*old(mem), addr_ptr, len_ptr)
        }),
{
    if addr_ptr != 0 && len_ptr != 0 {
        if let Some(p) = peer {
            let wr = write_sockaddr_in(mem, addr_ptr, len_ptr, p);
            if wr != 0 {
                return wr;
            }
        }
    }
    new_fd as usize
}

} // verus!
