use vstd::prelude::*;

use crate::consts::{USER_SPACE_BOTTOM_INCLUSIVE, USER_SPACE_TOP_EXCLUSIVE, WORD_BYTES};

verus! {

/// Kernel-native error returned for malformed syscall arguments (`!0`).
pub const SYSCALL_ERR_INVALID_ARG: usize = usize::MAX;

/// Kernel-native error returned when a user pointer cannot be accessed (`!1`).
pub const SYSCALL_ERR_USER_ACCESS_DENIED: usize = usize::MAX - 1;

/// Kernel-native error returned when the caller lacks a capability (`!2`).
pub const SYSCALL_ERR_PERMISSION_DENIED: usize = usize::MAX - 2;

/// A model of one process's user address space: a single mapped region of
/// bytes starting at `base`.  Every access made by the syscall layer goes
/// through this type, so the validity checks on user pointers are explicit.
pub struct UserMemory {
    pub base: usize,
    pub bytes: Vec<u8>,
}

/// Little-endian decoding of eight bytes into a `u64`.
pub open spec fn u64_from_le(b: Seq<u8>) -> u64 {
    (b[0] as u64) | ((b[1] as u64) << 8u64) | ((b[2] as u64) << 16u64) | ((b[3] as u64) << 24u64)
        | ((b[4] as u64) << 32u64) | ((b[5] as u64) << 40u64) | ((b[6] as u64) << 48u64) | ((
    b[7] as u64) << 56u64)
}

/// Little-endian encoding of a `u64` into eight bytes.
pub open spec fn u64_le_bytes(w: u64) -> Seq<u8> {
    seq![
        (w & 0xff) as u8,
        ((w >> 8u64) & 0xff) as u8,
        ((w >> 16u64) & 0xff) as u8,
        ((w >> 24u64) & 0xff) as u8,
        ((w >> 32u64) & 0xff) as u8,
        ((w >> 40u64) & 0xff) as u8,
        ((w >> 48u64) & 0xff) as u8,
        ((w >> 56u64) & 0xff) as u8,
    ]
}

/// Little-endian decoding of four bytes into a `u32`.
pub open spec fn u32_from_le(b: Seq<u8>) -> u32 {
    (b[0] as u32) | ((b[1] as u32) << 8u32) | ((b[2] as u32) << 16u32) | ((b[3] as u32) << 24u32)
}

/// Little-endian encoding of a `u32` into four bytes.
pub open spec fn u32_le_bytes(w: u32) -> Seq<u8> {
    seq![
        (w & 0xff) as u8,
        ((w >> 8u32) & 0xff) as u8,
        ((w >> 16u32) & 0xff) as u8,
        ((w >> 24u32) & 0xff) as u8,
    ]
}

/// The concatenation of the little-endian encodings of a sequence of words.
pub open spec fn words_le_bytes(words: Seq<u64>) -> Seq<u8>
    decreases words.len(),
{
    if words.len() == 0 {
        Seq::empty()
    } else {
        words_le_bytes(words.drop_last()) + u64_le_bytes(words.last())
    }
}

pub proof fn lemma_words_le_bytes_len(words: Seq<u64>)
    ensures
        words_le_bytes(words).len() == 8 * words.len(),
    decreases words.len(),
{
    if words.len() > 0 {
        lemma_words_le_bytes_len(words.drop_last());
    }
}

/// Decoding the encoding of a word gives the word back.
pub proof fn lemma_u64_roundtrip(w: u64)
    ensures
        u64_from_le(u64_le_bytes(w)) == w,
{
    let b = u64_le_bytes(w);
    assert(b[0] == (w & 0xff) as u8);
    assert(((w & 0xff) as u8 as u64) | ((((w >> 8u64) & 0xff) as u8 as u64) << 8u64) | ((((w
        >> 16u64) & 0xff) as u8 as u64) << 16u64) | ((((w >> 24u64) & 0xff) as u8 as u64)
        << 24u64) | ((((w >> 32u64) & 0xff) as u8 as u64) << 32u64) | ((((w >> 40u64) & 0xff)
        as u8 as u64) << 40u64) | ((((w >> 48u64) & 0xff) as u8 as u64) << 48u64) | ((((w
        >> 56u64) & 0xff) as u8 as u64) << 56u64) == w) by (bit_vector);
}

/// Decoding the encoding of a 32-bit word gives the word back.
pub proof fn lemma_u32_roundtrip(w: u32)
    ensures
        u32_from_le(u32_le_bytes(w)) == w,
{
    assert(((w & 0xff) as u8 as u32) | ((((w >> 8u32) & 0xff) as u8 as u32) << 8u32) | ((((w
        >> 16u32) & 0xff) as u8 as u32) << 16u32) | ((((w >> 24u32) & 0xff) as u8 as u32)
        << 24u32) == w) by (bit_vector);
}

/// The contents `bytes` of a region that starts at address `base`, after
/// `data` is stored at address `ptr`; storing nothing changes nothing.
pub open spec fn store_seq(bytes: Seq<u8>, base: int, ptr: int, data: Seq<u8>) -> Seq<u8> {
    if data.len() == 0 {
        bytes
    } else {
        let off = ptr - base;
        bytes.subrange(0, off) + data + bytes.subrange(off + data.len(), bytes.len() as int)
    }
}

/// Storing `y` right below a stored `x` is storing `y + x`.
pub proof fn lemma_store_adjacent(b: Seq<u8>, base: int, p: int, x: Seq<u8>, q: int, y: Seq<u8>)
    requires
        q + y.len() == p,
        y.len() > 0 ==> base <= q,
        y.len() > 0 ==> p <= base + b.len(),
        x.len() > 0 ==> base <= p,
        x.len() > 0 ==> p + x.len() <= base + b.len(),
    ensures
        store_seq(store_seq(b, base, p, x), base, q, y) == store_seq(b, base, q, y + x),
        store_seq(b, base, p, x).len() == b.len(),
{
    if x.len() == 0 {
        assert(y + x =~= y);
    } else if y.len() == 0 {
        assert(y + x =~= x);
    } else {
        let m = store_seq(b, base, p, x);
        assert(store_seq(m, base, q, y) =~= store_seq(b, base, q, y + x));
    }
}

/// `a` and `b` have the same length and agree at every address outside
/// `[lo, hi)` of a region that starts at `base`.
pub open spec fn same_outside(a: Seq<u8>, b: Seq<u8>, base: int, lo: int, hi: int) -> bool {
    &&& a.len() == b.len()
    &&& forall|i: int| 0 <= i < a.len() && !(lo <= base + i < hi) ==> #[trigger] a[i] == b[i]
}

/// Storing `d` at `p` changes nothing outside `[p, p + |d|)`.
pub proof fn lemma_store_frame(b: Seq<u8>, base: int, p: int, d: Seq<u8>)
    requires
        d.len() > 0 ==> base <= p && p + d.len() <= base + b.len(),
    ensures
        same_outside(store_seq(b, base, p, d), b, base, p, p + d.len()),
{
    let r = store_seq(b, base, p, d);
    if d.len() > 0 {
        assert forall|i: int| 0 <= i < r.len() && !(p <= base + i < p + d.len()) implies #[trigger] r[i]
            == b[i] by {
            if i < p - base {
            } else {
                assert(i >= p - base + d.len());
            }
        }
    }
}

/// What a store leaves behind: the stored bytes read back at `ptr`, and
/// every other byte of the region as it was.
pub proof fn law_read_after_write(mem: UserMemory, ptr: int, data: Seq<u8>)
    requires
        mem.range_ok(ptr, data.len() as int),
    ensures
        mem.stored(ptr, data).len() == mem.bytes@.len(),
        mem.stored(ptr, data).subrange(ptr - mem.base, ptr - mem.base + data.len()) == data,
        same_outside(mem.stored(ptr, data), mem.bytes@, mem.base as int, ptr, ptr + data.len()),
{
    lemma_store_frame(mem.bytes@, mem.base as int, ptr, data);
    if data.len() > 0 {
        assert(mem.stored(ptr, data).subrange(ptr - mem.base, ptr - mem.base + data.len()) =~= data);
    } else {
        assert(mem.stored(ptr, data).subrange(ptr - mem.base, ptr - mem.base + data.len()) =~= data);
    }
}

/// The encoding of a word in front of a sequence of words.
pub proof fn lemma_words_le_bytes_prepend(w: u64, s: Seq<u64>)
    ensures
        words_le_bytes(seq![w] + s) == u64_le_bytes(w) + words_le_bytes(s),
    decreases s.len(),
{
    if s.len() == 0 {
        assert((seq![w] + s).drop_last() =~= Seq::<u64>::empty());
        assert(words_le_bytes(Seq::<u64>::empty()) + u64_le_bytes(w) =~= u64_le_bytes(w));
        assert(u64_le_bytes(w) + words_le_bytes(s) =~= u64_le_bytes(w));
    } else {
        lemma_words_le_bytes_prepend(w, s.drop_last());
        assert((seq![w] + s).drop_last() =~= seq![w] + s.drop_last());
        assert((seq![w] + s).last() == s.last());
        assert(u64_le_bytes(w) + words_le_bytes(s.drop_last()) + u64_le_bytes(s.last()) =~= u64_le_bytes(w) + (
        words_le_bytes(s.drop_last()) + u64_le_bytes(s.last())));
    }
}

/// The little-endian bytes of a sequence of machine words.
pub open spec fn usize_words_bytes(words: Seq<usize>) -> Seq<u8> {
    words_le_bytes(words.map_values(|w: usize| w as u64))
}

/// Encodes one `u64` as its eight little-endian bytes.
pub fn u64_to_le_bytes(w: u64) -> (v: Vec<u8>)
    ensures
        v@ == u64_le_bytes(w),
{
    let mut buf: Vec<u8> = Vec::new();
    buf.push((w & 0xff) as u8);
    buf.push(((w >> 8u64) & 0xff) as u8);
    buf.push(((w >> 16u64) & 0xff) as u8);
    buf.push(((w >> 24u64) & 0xff) as u8);
    buf.push(((w >> 32u64) & 0xff) as u8);
    buf.push(((w >> 40u64) & 0xff) as u8);
    buf.push(((w >> 48u64) & 0xff) as u8);
    buf.push(((w >> 56u64) & 0xff) as u8);
    assert(buf@ =~= u64_le_bytes(w));
    buf
}

/// Encodes machine words as consecutive little-endian `u64` values.
pub fn encode_words(words: &[usize]) -> (v: Vec<u8>)
    ensures
        v@ == usize_words_bytes(words@),
        v@.len() == 8 * words@.len(),
{
    let mut out: Vec<u8> = Vec::new();
    let mut i: usize = 0;
    while i < words.len()
        invariant
            i <= words@.len(),
            out@ == usize_words_bytes(words@.take(i as int)),
        decreases words@.len() - i,
    {
        let b = u64_to_le_bytes(words[i] as u64);
        out.extend_from_slice(b.as_slice());
        proof {
            let t = words@.take(i + 1).map_values(|w: usize| w as u64);
            assert(t.drop_last() =~= words@.take(i as int).map_values(|w: usize| w as u64));
            assert(t.last() == words@[i as int] as u64);
        }
        i = i + 1;
    }
    assert(words@.take(words@.len() as int) =~= words@);
    proof {
        lemma_words_le_bytes_len(words@.map_values(|w: usize| w as u64));
    }
    out
}

impl UserMemory {
    /// `[ptr, ptr + len)` lies inside user space and inside the mapped region.
    pub open spec fn range_ok(&self, ptr: int, len: int) -> bool {
        &&& 0 <= len
        &&& ptr + len <= usize::MAX
        &&& USER_SPACE_BOTTOM_INCLUSIVE <= ptr
        &&& ptr + len <= USER_SPACE_TOP_EXCLUSIVE
        &&& self.base <= ptr
        &&& ptr + len <= self.base + self.bytes@.len()
    }

    /// The bytes of `[ptr, ptr + len)`.
    pub open spec fn bytes_at(&self, ptr: int, len: int) -> Seq<u8> {
        self.bytes@.subrange(ptr - self.base, ptr - self.base + len)
    }

    /// The memory after `data` is stored at `ptr`.
    pub open spec fn stored(&self, ptr: int, data: Seq<u8>) -> Seq<u8> {
        store_seq(self.bytes@, self.base as int, ptr, data)
    }

    /// A zero-filled region of `size` bytes at `base`.
    pub fn new(base: usize, size: usize) -> (m: Self)
        ensures
            m.base == base,
            m.bytes@ == Seq::new(size as nat, |i: int| 0u8),
    {
        let mut bytes: Vec<u8> = Vec::new();
        let mut i: usize = 0;
        while i < size
            invariant
                i <= size,
                bytes@ == Seq::new(i as nat, |k: int| 0u8),
            decreases size - i,
        {
            bytes.push(0u8);
            i = i + 1;
        }
        UserMemory { base, bytes }
    }

    /// Whether `[ptr, ptr + len)` can be accessed.
    pub fn range_valid(&self, ptr: usize, len: usize) -> (r: bool)
        ensures
            r == self.range_ok(ptr as int, len as int),
    {
        if ptr < USER_SPACE_BOTTOM_INCLUSIVE || ptr < self.base || len > usize::MAX - ptr {
            return false;
        }
        let off = ptr - self.base;
        if off > self.bytes.len() {
            return false;
        }
        if len > self.bytes.len() - off {
            return false;
        }
        if (len as u64) > USER_SPACE_TOP_EXCLUSIVE || (ptr as u64) > USER_SPACE_TOP_EXCLUSIVE - (len as u64) {
            return false;
        }
        true
    }

    /// Copies `[ptr, ptr + len)` out of user memory.
    pub fn read_bytes(&self, ptr: usize, len: usize) -> (r: Option<Vec<u8>>)
        ensures
            r is Some <==> self.range_ok(ptr as int, len as int),
            r matches Some(v) ==> v@ == self.bytes_at(ptr as int, len as int),
    {
        if !self.range_valid(ptr, len) {
            return None;
        }
        let off = ptr - self.base;
        let mut out: Vec<u8> = Vec::new();
        let mut i: usize = 0;
        while i < len
            invariant
                i <= len,
                off + len <= self.bytes@.len(),
                off + len <= usize::MAX,
                off == ptr - self.base,
                out@ == self.bytes@.subrange(off as int, off + i),
            decreases len - i,
        {
            out.push(self.bytes[off + i]);
            i = i + 1;
        }
        Some(out)
    }

    /// Reads one byte.
    pub fn read_u8(&self, ptr: usize) -> (r: Option<u8>)
        ensures
            r is Some <==> self.range_ok(ptr as int, 1),
            r matches Some(b) ==> b == self.bytes@[ptr - self.base],
    {
        if !self.range_valid(ptr, 1) {
            return None;
        }
        Some(self.bytes[ptr - self.base])
    }

    /// Stores `data` at `ptr`; memory is unchanged when the range is invalid.
    pub fn write_bytes(&mut self, ptr: usize, data: &[u8]) -> (ok: bool)
        ensures
            ok <==> old(self).range_ok(ptr as int, data@.len() as int),
            final(self).base == old(self).base,
            ok ==> final(self).bytes@ == old(self).stored(ptr as int, data@),
            !ok ==> final(self).bytes@ == old(self).bytes@,
    {
        if !self.range_valid(ptr, data.len()) {
            return false;
        }
        let off = ptr - self.base;
        let ghost orig = self.bytes@;
        let mut i: usize = 0;
        while i < data.len()
            invariant
                i <= data@.len(),
                off + data@.len() <= orig.len(),
                off + data@.len() <= usize::MAX,
                off == ptr - self.base,
                self.base == old(self).base,
                orig == old(self).bytes@,
                self.bytes@.len() == orig.len(),
                forall|k: int| 0 <= k < off ==> self.bytes@[k] == orig[k],
                forall|k: int| off <= k < off + i ==> self.bytes@[k] == data@[k - off],
                forall|k: int| off + i <= k < orig.len() ==> self.bytes@[k] == orig[k],
            decreases data@.len() - i,
        {
            self.bytes.set(off + i, data[i]);
            i = i + 1;
        }
        assert(self.bytes@ =~= old(self).stored(ptr as int, data@));
        true
    }

    /// Reads a little-endian `u64`.
    pub fn read_u64(&self, ptr: usize) -> (r: Option<u64>)
        ensures
            r is Some <==> self.range_ok(ptr as int, 8),
            r matches Some(w) ==> w == u64_from_le(self.bytes_at(ptr as int, 8)),
    {
        match self.read_bytes(ptr, 8) {
            None => None,
            Some(b) => Some(
                (b[0] as u64) | ((b[1] as u64) << 8u64) | ((b[2] as u64) << 16u64) | ((
                b[3] as u64) << 24u64) | ((b[4] as u64) << 32u64) | ((b[5] as u64) << 40u64)
                    | ((b[6] as u64) << 48u64) | ((b[7] as u64) << 56u64),
            ),
        }
    }

    /// Reads a little-endian `u32`.
    pub fn read_u32(&self, ptr: usize) -> (r: Option<u32>)
        ensures
            r is Some <==> self.range_ok(ptr as int, 4),
            r matches Some(w) ==> w == u32_from_le(self.bytes_at(ptr as int, 4)),
    {
        match self.read_bytes(ptr, 4) {
            None => None,
            Some(b) => Some(
                (b[0] as u32) | ((b[1] as u32) << 8u32) | ((b[2] as u32) << 16u32) | ((
                b[3] as u32) << 24u32),
            ),
        }
    }

    /// Stores a little-endian `u64`.
    pub fn write_u64(&mut self, ptr: usize, w: u64) -> (ok: bool)
        ensures
            ok <==> old(self).range_ok(ptr as int, 8),
            final(self).base == old(self).base,
            ok ==> final(self).bytes@ == old(self).stored(ptr as int, u64_le_bytes(w)),
            !ok ==> final(self).bytes@ == old(self).bytes@,
    {
        let mut buf: Vec<u8> = Vec::new();
        buf.push((w & 0xff) as u8);
        buf.push(((w >> 8u64) & 0xff) as u8);
        buf.push(((w >> 16u64) & 0xff) as u8);
        buf.push(((w >> 24u64) & 0xff) as u8);
        buf.push(((w >> 32u64) & 0xff) as u8);
        buf.push(((w >> 40u64) & 0xff) as u8);
        buf.push(((w >> 48u64) & 0xff) as u8);
        buf.push(((w >> 56u64) & 0xff) as u8);
        assert(buf@ =~= u64_le_bytes(w));
        self.write_bytes(ptr, buf.as_slice())
    }

    /// Stores `words` as `u64` values at `ptr` on behalf of a caller that
    /// offered a buffer of `len` bytes.  A buffer too short for the words is
    /// an invalid argument; a misaligned or inaccessible one is a denied
    /// user access.  Nothing is written on error.
    pub fn write_words(&mut self, ptr: usize, len: usize, words: &[usize]) -> (r: Result<(), usize>)
        ensures
            final(self).base == old(self).base,
            len < 8 * words@.len() ==> r == Err::<(), usize>(SYSCALL_ERR_INVALID_ARG),
            len >= 8 * words@.len() && (ptr % 8 != 0 || !old(self).range_ok(ptr as int, 8 * words@.len() as int))
                ==> r == Err::<(), usize>(SYSCALL_ERR_USER_ACCESS_DENIED),
            r is Ok <==> (len >= 8 * words@.len() && ptr % 8 == 0 && old(self).range_ok(ptr as int, 8 * words@.len() as int)),
            r is Ok ==> final(self).bytes@ == old(self).stored(ptr as int, usize_words_bytes(words@)),
            r is Err ==> final(self).bytes@ == old(self).bytes@,
    {
        let n = words.len();
        if n > len / 8 {
            return Err(SYSCALL_ERR_INVALID_ARG);
        }
        if ptr % 8 != 0 {
            return Err(SYSCALL_ERR_USER_ACCESS_DENIED);
        }
        let buf = encode_words(words);
        if self.write_bytes(ptr, buf.as_slice()) {
            Ok(())
        } else {
            Err(SYSCALL_ERR_USER_ACCESS_DENIED)
        }
    }

    /// Stores a little-endian `u32`.
    pub fn write_u32(&mut self, ptr: usize, w: u32) -> (ok: bool)
        ensures
            ok <==> old(self).range_ok(ptr as int, 4),
            final(self).base == old(self).base,
            ok ==> final(self).bytes@ == old(self).stored(ptr as int, u32_le_bytes(w)),
            !ok ==> final(self).bytes@ == old(self).bytes@,
    {
        let mut buf: Vec<u8> = Vec::new();
        buf.push((w & 0xff) as u8);
        buf.push(((w >> 8u32) & 0xff) as u8);
        buf.push(((w >> 16u32) & 0xff) as u8);
        buf.push(((w >> 24u32) & 0xff) as u8);
        assert(buf@ =~= u32_le_bytes(w));
        self.write_bytes(ptr, buf.as_slice())
    }
}

} // verus!
