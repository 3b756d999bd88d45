use vstd::prelude::*;

use std::collections::BTreeMap;

use crate::errno::{errno_word, linux_errno, EBADF, EFAULT, EINVAL, ERANGE};
use crate::fd_io::take_prefix;
use crate::user_memory::{u64_le_bytes, u64_to_le_bytes, UserMemory};

verus! {

broadcast use vstd::std_specs::btree::group_btree_axioms;

/// Where the next `getdents64` call on each directory descriptor resumes.
pub struct GetdentsCursors {
    cursors: BTreeMap<u32, usize>,
}

impl GetdentsCursors {
    /// The resume index of each descriptor that has one.
    pub closed spec fn cursors(&self) -> Map<u32, usize> {
        self.cursors@
    }

    pub fn new() -> (t: Self)
        ensures
            t.cursors() == Map::<u32, usize>::empty(),
    {
        GetdentsCursors { cursors: BTreeMap::new() }
    }

    /// Forgets the cursor of `fd`.
    pub fn clear_getdents_cursor(&mut self, fd: u32)
        ensures
            final(self).cursors() == old(self).cursors().remove(fd),
    {
        let _ = self.cursors.remove(&fd);
    }

    /// The resume index of `fd`, zero for one without a cursor.
    pub open spec fn cursor_of(&self, fd: u32) -> usize {
        if self.cursors().contains_key(fd) {
            self.cursors()[fd]
        } else {
            0
        }
    }

    fn cursor_or_zero(&self, fd: u32) -> (r: usize)
        ensures
            r == self.cursor_of(fd),
    {
        match self.cursors.get(&fd) {
            Some(c) => *c,
            None => 0,
        }
    }

    fn set_cursor(&mut self, fd: u32, idx: usize)
        ensures
            final(self).cursors() == old(self).cursors().insert(fd, idx),
    {
        let _ = self.cursors.insert(fd, idx);
    }
}

/// The fixed part of a `linux_dirent64` record: inode, offset, record
/// length and type.
pub const DIRENT64_FIXED: usize = 19;

/// The length of the record of a name of `n` bytes: the fixed part, the
/// name and its NUL, rounded up to eight bytes.
pub open spec fn dirent_reclen(n: nat) -> nat {
    ((DIRENT64_FIXED + n + 1 + 7) / 8 * 8) as nat
}

/// Little-endian bytes of a `u16`.
pub open spec fn u16_le_bytes(v: u16) -> Seq<u8> {
    seq![(v % 256) as u8, (v / 256) as u8]
}

/// The record of entry `idx` named `name`: inode 1, offset `idx + 1`, its
/// length, type 0, the name, then zeros (the NUL and the padding).
pub open spec fn dirent_record(name: Seq<u8>, idx: int) -> Seq<u8> {
    let reclen = dirent_reclen(name.len());
    u64_le_bytes(1) + u64_le_bytes((idx + 1) as u64) + u16_le_bytes((reclen % 65536) as u16) + seq![0u8]
        + name + Seq::new((reclen - DIRENT64_FIXED - name.len()) as nat, |i: int| 0u8)
}

/// The records of the entries from `idx` on that fit in `room` bytes, one
/// after another, stopping at the first that does not fit; and the index
/// of that first entry left out.
pub open spec fn dirent_fill(entries: Seq<Seq<u8>>, idx: int, room: int) -> (int, Seq<u8>)
    decreases entries.len() - idx,
{
    if idx < 0 || idx >= entries.len() {
        (idx, Seq::empty())
    } else if dirent_reclen(entries[idx].len()) > room {
        (idx, Seq::empty())
    } else {
        let rest = dirent_fill(entries, idx + 1, room - dirent_reclen(entries[idx].len()));
        (rest.0, dirent_record(entries[idx], idx) + rest.1)
    }
}

pub proof fn lemma_dirent_fill_len(entries: Seq<Seq<u8>>, idx: int, room: int)
    requires
        room >= 0,
    ensures
        dirent_fill(entries, idx, room).1.len() <= room,
        idx >= 0 ==> idx <= dirent_fill(entries, idx, room).0,
        idx >= 0 ==> dirent_fill(entries, idx, room).0 <= entries.len() || idx > entries.len(),
    decreases entries.len() - idx,
{
    if idx >= 0 && idx < entries.len() && dirent_reclen(entries[idx].len()) <= room {
        lemma_dirent_fill_len(entries, idx + 1, room - dirent_reclen(entries[idx].len()));
        let reclen = dirent_reclen(entries[idx].len());
        assert(dirent_record(entries[idx], idx).len() == reclen);
    }
}

/// The records of entries `lo..hi`, one after another.
pub open spec fn dirent_records(entries: Seq<Seq<u8>>, lo: int, hi: int) -> Seq<u8>
    decreases hi - lo,
{
    if lo >= hi {
        Seq::empty()
    } else {
        dirent_record(entries[lo], lo) + dirent_records(entries, lo + 1, hi)
    }
}

/// One `getdents64` call hands out the records of a run of consecutive
/// entries from where its cursor stands: all that fit in the room, up to
/// the first that does not; it makes progress whenever the next record
/// fits at all.
pub proof fn law_getdents_fill_is_consecutive(entries: Seq<Seq<u8>>, idx: int, room: int)
    requires
        0 <= idx <= entries.len(),
        room >= 0,
    ensures
        ({
            let (next, out) = dirent_fill(entries, idx, room);
            &&& idx <= next <= entries.len()
            &&& out == dirent_records(entries, idx, next)
            &&& out.len() <= room
            &&& next < entries.len() ==> dirent_reclen(entries[next].len()) > room - out.len()
            &&& idx < entries.len() && dirent_reclen(entries[idx].len()) <= room ==> next > idx
        }),
    decreases entries.len() - idx,
{
    lemma_dirent_fill_len(entries, idx, room);
    if idx < entries.len() && dirent_reclen(entries[idx].len()) <= room {
        let r = dirent_reclen(entries[idx].len());
        law_getdents_fill_is_consecutive(entries, idx + 1, room - r);
        assert(dirent_record(entries[idx], idx).len() == r);
    }
}

/// The records successive calls hand out join up: those of entries
/// `a..b` followed by those of `b..c` are those of `a..c`.
pub proof fn law_getdents_calls_concatenate(entries: Seq<Seq<u8>>, a: int, b: int, c: int)
    requires
        a <= b <= c,
    ensures
        dirent_records(entries, a, b) + dirent_records(entries, b, c) == dirent_records(entries, a, c),
    decreases b - a,
{
    if a < b {
        law_getdents_calls_concatenate(entries, a + 1, b, c);
        assert(dirent_record(entries[a], a) + dirent_records(entries, a + 1, b) + dirent_records(entries, b, c)
            =~= dirent_record(entries[a], a) + (dirent_records(entries, a + 1, b) + dirent_records(
            entries,
            b,
            c,
        )));
    } else {
        assert(Seq::<u8>::empty() + dirent_records(entries, b, c) =~= dirent_records(entries, b, c));
    }
}

/// The view of the directory listing a file backend gives: each name's
/// bytes.
pub open spec fn names_view(entries: Seq<Vec<u8>>) -> Seq<Seq<u8>> {
    entries.map_values(|v: Vec<u8>| v@)
}

/// The result of `getdents64(fd, dirp, count)`, the memory and the cursors
/// afterwards, given the listing of the directory (`None` without a file
/// backend).  A listing that is used up ends the cursor and returns 0;
/// otherwise the records that fit in `count` bytes are written at `dirp`
/// and the cursor moves past them.
pub open spec fn getdents64_outcome(
    mem: UserMemory,
    cursors: Map<u32, usize>,
    fd: usize,
    dirp: usize,
    count: usize,
    listing: Option<Result<Vec<Vec<u8>>, i32>>,
) -> (usize, Seq<u8>, Map<u32, usize>) {
    if count < DIRENT64_FIXED {
        (errno_word(EINVAL), mem.bytes@, cursors)
    } else {
        match listing {
            None => (errno_word(EBADF), mem.bytes@, cursors),
            Some(Err(e)) => if fd > u32::MAX {
                (errno_word(EBADF), mem.bytes@, cursors)
            } else {
                (errno_word(e), mem.bytes@, cursors)
            },
            Some(Ok(entries)) => {
                let key = fd as u32;
                let start: int = if cursors.contains_key(key) {
                    cursors[key] as int
                } else {
                    0
                };
                let names = names_view(entries@);
                if fd > u32::MAX {
                    (errno_word(EBADF), mem.bytes@, cursors)
                } else if start >= names.len() {
                    (0, mem.bytes@, cursors.remove(key))
                } else if !mem.range_ok(dirp as int, count as int) {
                    (errno_word(EFAULT), mem.bytes@, cursors.insert(key, start as usize))
                } else {
                    let fill = dirent_fill(names, start, count as int);
                    (
                        fill.1.len() as usize,
                        mem.stored(dirp as int, fill.1),
                        cursors.insert(key, fill.0 as usize),
                    )
                }
            },
        }
    }
}

fn push_u16_le(buf: &mut Vec<u8>, v: u16)
    ensures
        final(buf)@ == old(buf)@ + u16_le_bytes(v),
{
    buf.push((v % 256) as u8);
    buf.push((v / 256) as u8);
}

fn push_u64_le(buf: &mut Vec<u8>, v: u64)
    ensures
        final(buf)@ == old(buf)@ + u64_le_bytes(v),
{
    let mut b = u64_to_le_bytes(v);
    buf.append(&mut b);
}

/// Appends the record of entry `idx`.
fn push_dirent_record(buf: &mut Vec<u8>, name: &Vec<u8>, idx: usize, reclen: usize)
    requires
        idx < usize::MAX,
        reclen == dirent_reclen(name@.len()),
    ensures
        final(buf)@ == old(buf)@ + dirent_record(name@, idx as int),
{
    push_u64_le(buf, 1);
    push_u64_le(buf, (idx + 1) as u64);
    push_u16_le(buf, (reclen % 65536) as u16);
    buf.push(0u8);
    let mut i: usize = 0;
    let ghost base = buf@;
    while i < name.len()
        invariant
            i <= name@.len(),
            buf@ == base + name@.subrange(0, i as int),
        decreases name@.len() - i,
    {
        buf.push(name[i]);
        i = i + 1;
    }
    let pad = reclen - DIRENT64_FIXED - name.len();
    let ghost base2 = buf@;
    let mut j: usize = 0;
    while j < pad
        invariant
            j <= pad,
            buf@ == base2 + Seq::new(j as nat, |k: int| 0u8),
        decreases pad - j,
    {
        buf.push(0u8);
        j = j + 1;
        assert(buf@ =~= base2 + Seq::new(j as nat, |k: int| 0u8));
    }
    assert(name@.subrange(0, name@.len() as int) =~= name@);
    assert(buf@ =~= old(buf)@ + dirent_record(name@, idx as int));
}

/// Packs the records of the entries from `start` on that fit in `count`
/// bytes; returns them and the index of the first entry left out.
fn pack_dirents(entries: &Vec<Vec<u8>>, start: usize, count: usize) -> (r: (Vec<u8>, usize))
    requires
        start <= entries@.len(),
        count <= usize::MAX - 64,
    ensures
        dirent_fill(names_view(entries@), start as int, count as int) == (r.1 as int, r.0@),
{
    let ghost names = names_view(entries@);
    let mut buf: Vec<u8> = Vec::new();
    let mut idx = start;
    let mut written: usize = 0;
    let mut done = false;
    proof {
        lemma_dirent_fill_len(names, start as int, count as int);
    }
    while idx < entries.len() && !done
        invariant
            start <= idx <= entries@.len(),
            written == buf@.len(),
            written <= count,
            count <= usize::MAX - 64,
            names == names_view(entries@),
            done ==> dirent_fill(names, idx as int, count - written) == (idx as int, Seq::<u8>::empty()),
            dirent_fill(names, start as int, count as int) == (
                dirent_fill(names, idx as int, count - written).0,
                buf@ + dirent_fill(names, idx as int, count - written).1,
            ),
        decreases entries@.len() - idx + (if done { 0int } else { 1int }),
    {
        let name = &entries[idx];
        assert(names[idx as int] == name@);
        if name.len() > count - written {
            done = true;
        } else {
            let reclen = (DIRENT64_FIXED + name.len() + 1 + 7) / 8 * 8;
            if reclen > count - written {
                done = true;
            } else {
                push_dirent_record(&mut buf, name, idx, reclen);
                proof {
                    assert(dirent_record(name@, idx as int).len() == reclen);
                    let f1 = dirent_fill(names, idx as int, count - written);
                    let f2 = dirent_fill(names, idx + 1, count - written - reclen);
                    assert(f1.0 == f2.0);
                    assert(f1.1 == dirent_record(name@, idx as int) + f2.1);
                    assert(buf@ + f2.1 =~= (buf@.subrange(0, written as int)) + f1.1) by {
                        assert(buf@.subrange(0, written as int) + dirent_record(name@, idx as int) =~= buf@);
                    }
                }
                written = written + reclen;
                idx = idx + 1;
            }
        }
    }
    (buf, idx)
}

/// `getdents64`.
pub fn sys_linux_getdents64(
    mem: &mut UserMemory,
    cursors: &mut GetdentsCursors,
    fd: usize,
    dirp: usize,
    count: usize,
    listing: Option<Result<Vec<Vec<u8>>, i32>>,
) -> (r: usize)
    ensures
        final(mem).base == old(mem).base,
        (r, final(mem).bytes@, final(cursors).cursors()) == getdents64_outcome(
            *old(mem),
            old(cursors).cursors(),
            fd,
            dirp,
            count,
            listing,
        ),
{
    if count < DIRENT64_FIXED {
        return linux_errno(EINVAL);
    }
    let entries = match listing {
        None => {
            return linux_errno(EBADF);
        },
        Some(Err(e)) => {
            if fd > (u32::MAX as usize) {
                return linux_errno(EBADF);
            }
            return linux_errno(e);
        },
        Some(Ok(entries)) => entries,
    };
    if fd > (u32::MAX as usize) {
        return linux_errno(EBADF);
    }
    let key = fd as u32;
    let start = cursors.cursor_or_zero(key);
    if start >= entries.len() {
        cursors.clear_getdents_cursor(key);
        return 0;
    }
    cursors.set_cursor(key, start);
    if !mem.range_valid(dirp, count) {
        return linux_errno(EFAULT);
    }
    let (buf, next) = pack_dirents(&entries, start, count);
    proof {
        lemma_dirent_fill_len(names_view(entries@), start as int, count as int);
    }
    let ok = mem.write_bytes(dirp, buf.as_slice());
    cursors.set_cursor(key, next);
    buf.len()
}

/// The result of `getcwd(buf, size)` and the memory afterwards, given the
/// working directory the file backend reports (`None` without one, where
/// the directory is `/`).  The path and its NUL are written at `buf`, and
/// `buf` is returned.
pub open spec fn getcwd_outcome(mem: UserMemory, buf: usize, size: usize, cwd: Option<Result<Vec<u8>, i32>>) -> (
    usize,
    Seq<u8>,
) {
    match cwd {
        Some(Err(e)) => (errno_word(e), mem.bytes@),
        _ => {
            let path: Seq<u8> = match cwd {
                Some(Ok(p)) => p@,
                _ => seq![47u8],
            };
            if path.len() + 1 > size {
                (errno_word(ERANGE), mem.bytes@)
            } else if !mem.range_ok(buf as int, (path.len() + 1) as int) {
                (errno_word(EFAULT), mem.bytes@)
            } else {
                (buf, mem.stored(buf as int, path.push(0u8)))
            }
        },
    }
}

/// `getcwd`.
pub fn sys_linux_getcwd(mem: &mut UserMemory, buf: usize, size: usize, cwd: Option<Result<Vec<u8>, i32>>) -> (r:
    usize)
    ensures
        final(mem).base == old(mem).base,
        (r, final(mem).bytes@) == getcwd_outcome(*old(mem), buf, size, cwd),
{
    let mut path: Vec<u8> = match cwd {
        Some(Err(e)) => {
            return linux_errno(e);
        },
        Some(Ok(p)) => p,
        None => {
            let mut root: Vec<u8> = Vec::new();
            root.push(47u8);
            root
        },
    };
    if path.len() >= size {
        return linux_errno(ERANGE);
    }
    path.push(0u8);
    if mem.write_bytes(buf, path.as_slice()) {
        buf
    } else {
        linux_errno(EFAULT)
    }
}

/// The bytes of one 65-byte `utsname` field holding `v`, cut to 64 bytes.
pub open spec fn uts_field(v: Seq<u8>) -> Seq<u8> {
    take_prefix(v, 64) + Seq::new((65 - take_prefix(v, 64).len()) as nat, |i: int| 0u8)
}

/// `HyperCore`.
pub open spec fn uts_sysname() -> Seq<u8> {
    seq![72u8, 121u8, 112u8, 101u8, 114u8, 67u8, 111u8, 114u8, 101u8]
}

/// `hypercore`.
pub open spec fn uts_nodename() -> Seq<u8> {
    seq![104u8, 121u8, 112u8, 101u8, 114u8, 99u8, 111u8, 114u8, 101u8]
}

/// `0.2.0`.
pub open spec fn uts_release() -> Seq<u8> {
    seq![48u8, 46u8, 50u8, 46u8, 48u8]
}

/// `#1 SMP`.
pub open spec fn uts_version() -> Seq<u8> {
    seq![35u8, 49u8, 32u8, 83u8, 77u8, 80u8]
}

/// `(none)`.
pub open spec fn uts_domainname() -> Seq<u8> {
    seq![40u8, 110u8, 111u8, 110u8, 101u8, 41u8]
}

/// The `struct utsname` the kernel reports, with `machine` naming the
/// architecture it was built for.
pub open spec fn uname_image(machine: Seq<u8>) -> Seq<u8> {
    uts_field(uts_sysname()) + uts_field(uts_nodename()) + uts_field(uts_release()) + uts_field(
        uts_version(),
    ) + uts_field(machine) + uts_field(uts_domainname())
}

/// Size of `struct utsname`.
pub const UTSNAME_BYTES: usize = 390;

fn push_uts_field(buf: &mut Vec<u8>, v: &Vec<u8>)
    ensures
        final(buf)@ == old(buf)@ + uts_field(v@),
{
    let n: usize = if v.len() <= 64 {
        v.len()
    } else {
        64
    };
    let ghost base = buf@;
    let mut i: usize = 0;
    while i < n
        invariant
            i <= n,
            n <= 64,
            n <= v@.len(),
            buf@ == base + v@.subrange(0, i as int),
        decreases n - i,
    {
        buf.push(v[i]);
        i = i + 1;
    }
    let ghost mid = buf@;
    let mut j: usize = n;
    while j < 65
        invariant
            n <= j <= 65,
            buf@ == mid + Seq::new((j - n) as nat, |k: int| 0u8),
        decreases 65 - j,
    {
        buf.push(0u8);
        j = j + 1;
        assert(buf@ =~= mid + Seq::new((j - n) as nat, |k: int| 0u8));
    }
    assert(v@.subrange(0, n as int) =~= take_prefix(v@, 64));
    assert(buf@ =~= old(buf)@ + uts_field(v@));
}

/// `uname`: writes the kernel's identity at `buf`; `machine` is the
/// architecture name the kernel was built for.
pub fn sys_linux_uname(mem: &mut UserMemory, buf: usize, machine: &Vec<u8>) -> (r: usize)
    ensures
        final(mem).base == old(mem).base,
        old(mem).range_ok(buf as int, UTSNAME_BYTES as int) ==> r == 0 && final(mem).bytes@ == old(
            mem,
        ).stored(buf as int, uname_image(machine@)),
        !old(mem).range_ok(buf as int, UTSNAME_BYTES as int) ==> r == errno_word(EFAULT)
            && final(mem).bytes@ == old(mem).bytes@,
{
    let mut image: Vec<u8> = Vec::new();
    let sysname: Vec<u8> = vec![72u8, 121u8, 112u8, 101u8, 114u8, 67u8, 111u8, 114u8, 101u8];
    let nodename: Vec<u8> = vec![104u8, 121u8, 112u8, 101u8, 114u8, 99u8, 111u8, 114u8, 101u8];
    let release: Vec<u8> = vec![48u8, 46u8, 50u8, 46u8, 48u8];
    let version: Vec<u8> = vec![35u8, 49u8, 32u8, 83u8, 77u8, 80u8];
    let domain: Vec<u8> = vec![40u8, 110u8, 111u8, 110u8, 101u8, 41u8];
    push_uts_field(&mut image, &sysname);
    push_uts_field(&mut image, &nodename);
    push_uts_field(&mut image, &release);
    push_uts_field(&mut image, &version);
    push_uts_field(&mut image, machine);
    push_uts_field(&mut image, &domain);
    assert(image@ =~= uname_image(machine@));
    if mem.write_bytes(buf, image.as_slice()) {
        0
    } else {
        linux_errno(EFAULT)
    }
}

} // verus!
