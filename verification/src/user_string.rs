use vstd::prelude::*;

use crate::consts::{USER_SPACE_BOTTOM_INCLUSIVE, USER_SPACE_TOP_EXCLUSIVE};
use crate::errno::{errno_word, linux_errno, E2BIG, EFAULT, EINVAL};
use crate::user_memory::{u64_from_le, UserMemory, SYSCALL_ERR_USER_ACCESS_DENIED};
use vstd::utf8::{decode_utf8, valid_utf8};

verus! {

/// `String::from_utf8`: the string when `bytes` are valid UTF-8, as std
/// documents it; its characters are the ones the bytes encode.
#[verifier::external_body]
pub(crate) fn string_from_utf8(bytes: Vec<u8>) -> (r: Option<String>)
    ensures
        r is Some <==> valid_utf8(bytes@),
        r matches Some(s) ==> s@ == decode_utf8(bytes@),
{
    String::from_utf8(bytes).ok()
}

/// The characters `String::from_utf8_lossy` makes of `bytes`.
pub uninterp spec fn utf8_lossy(bytes: Seq<u8>) -> Seq<char>;

/// `String::from_utf8_lossy(..).into_owned()`: a function of the bytes
/// alone (`utf8_lossy`), which for valid UTF-8 is the string the bytes
/// encode, as std documents it.  What invalid sequences become
/// (replacement characters) is not spelled out.
#[verifier::external_body]
pub(crate) fn string_from_utf8_lossy(bytes: &[u8]) -> (r: String)
    ensures
        r@ == utf8_lossy(bytes@),
        valid_utf8(bytes@) ==> r@ == decode_utf8(bytes@),
{
    String::from_utf8_lossy(bytes).into_owned()
}

/// Reading a string stops at `a`: the byte cannot be read, or it is NUL.
pub open spec fn stops_at(mem: UserMemory, a: int) -> bool {
    !mem.range_ok(a, 1) || mem.bytes@[a - mem.base] == 0
}

/// How many of the first `n` bytes from `ptr` are readable and not NUL
/// before the first one that stops the read.
pub open spec fn run_len(mem: UserMemory, ptr: int, n: nat) -> nat
    decreases n,
{
    if n == 0 {
        0
    } else {
        let p = run_len(mem, ptr, (n - 1) as nat);
        if p < n - 1 || stops_at(mem, ptr + n - 1) {
            p
        } else {
            n
        }
    }
}

pub proof fn lemma_run_len_bound(mem: UserMemory, ptr: int, n: nat)
    ensures
        run_len(mem, ptr, n) <= n,
        run_len(mem, ptr, n) == n ==> forall|a: int| ptr <= a < ptr + n ==> !stops_at(mem, a),
        run_len(mem, ptr, n) < n ==> stops_at(mem, ptr + run_len(mem, ptr, n)),
        forall|a: int| ptr <= a < ptr + run_len(mem, ptr, n) ==> !stops_at(mem, a),
    decreases n,
{
    if n > 0 {
        lemma_run_len_bound(mem, ptr, (n - 1) as nat);
    }
}

/// Once the run ends before `n`, scanning further does not change it.
pub proof fn lemma_run_len_stable(mem: UserMemory, ptr: int, n: nat, m: nat)
    requires
        run_len(mem, ptr, n) < n,
        n <= m,
    ensures
        run_len(mem, ptr, m) == run_len(mem, ptr, n),
    decreases m - n,
{
    if m > n {
        lemma_run_len_stable(mem, ptr, n, (m - 1) as nat);
        lemma_run_len_bound(mem, ptr, (m - 1) as nat);
    }
}

/// What reading a NUL-terminated string of at most `max_len` bytes from
/// `ptr` gives: the characters, or the errno word of the failure.  An
/// empty string is refused unless `allow_empty`.
pub open spec fn c_string_outcome(mem: UserMemory, ptr: usize, max_len: usize, allow_empty: bool) -> Result<
    Seq<char>,
    usize,
> {
    if ptr < USER_SPACE_BOTTOM_INCLUSIVE || ptr >= USER_SPACE_TOP_EXCLUSIVE || max_len == 0 {
        Err(errno_word(EFAULT))
    } else {
        let k = run_len(mem, ptr as int, max_len as nat);
        if k == max_len {
            Err(errno_word(EINVAL))
        } else if !mem.range_ok(ptr + k, 1) {
            Err(errno_word(EFAULT))
        } else if k == 0 && !allow_empty {
            Err(errno_word(EINVAL))
        } else if valid_utf8(mem.bytes_at(ptr as int, k as int)) {
            Ok(decode_utf8(mem.bytes_at(ptr as int, k as int)))
        } else {
            Err(errno_word(EINVAL))
        }
    }
}

/// A non-empty valid encoding decodes to a non-empty string.
pub proof fn lemma_decode_utf8_nonempty(bytes: Seq<u8>)
    requires
        valid_utf8(bytes),
        bytes.len() > 0,
    ensures
        decode_utf8(bytes).len() > 0,
{
    assert(decode_utf8(bytes) == seq![vstd::utf8::decode_first_scalar(bytes) as char] + decode_utf8(
        vstd::utf8::pop_first_scalar(bytes),
    ));
}

/// A string read without `allow_empty` is not empty.
pub proof fn law_c_string_is_nonempty(mem: UserMemory, ptr: usize, max_len: usize)
    ensures
        c_string_outcome(mem, ptr, max_len, false) matches Ok(chars) ==> chars.len() > 0,
{
    if c_string_outcome(mem, ptr, max_len, false) is Ok {
        let k = run_len(mem, ptr as int, max_len as nat);
        lemma_run_len_bound(mem, ptr as int, max_len as nat);
        assert(k > 0);
        assert(!stops_at(mem, ptr as int));
        assert(mem.bytes_at(ptr as int, k as int).len() == k);
        lemma_decode_utf8_nonempty(mem.bytes_at(ptr as int, k as int));
    }
}

/// A string that was read starts at a readable byte.
pub proof fn lemma_c_string_readable(mem: UserMemory, ptr: usize, max_len: usize, allow_empty: bool)
    ensures
        c_string_outcome(mem, ptr, max_len, allow_empty) is Ok ==> mem.range_ok(ptr as int, 1),
{
    if c_string_outcome(mem, ptr, max_len, allow_empty) is Ok {
        let k = run_len(mem, ptr as int, max_len as nat);
        lemma_run_len_bound(mem, ptr as int, max_len as nat);
        if k > 0 {
            assert(!stops_at(mem, ptr as int));
        }
    }
}

/// Over memory that holds `bytes` (no NUL among them) at `ptr`, the run
/// from `ptr` covers the first `k` of them.
proof fn lemma_run_len_over(after: UserMemory, ptr: int, bytes: Seq<u8>, k: nat)
    requires
        k <= bytes.len(),
        after.range_ok(ptr, bytes.len() as int),
        after.bytes_at(ptr, bytes.len() as int) == bytes,
        forall|i: int| 0 <= i < bytes.len() ==> bytes[i] != 0,
    ensures
        run_len(after, ptr, k) == k,
    decreases k,
{
    if k > 0 {
        lemma_run_len_over(after, ptr, bytes, (k - 1) as nat);
        let a = ptr + k - 1;
        assert(after.bytes@[a - after.base] == bytes[k - 1]);
        assert(!stops_at(after, a));
    }
}

/// A NUL-terminated string stored in user memory reads back: once
/// `bytes` (valid UTF-8 with no NUL, shorter than `max_len`) and a NUL are
/// stored at `ptr`, reading a string there gives the characters the bytes
/// encode.
pub proof fn law_c_string_roundtrip(
    before: UserMemory,
    after: UserMemory,
    ptr: usize,
    max_len: usize,
    bytes: Seq<u8>,
    allow_empty: bool,
)
    requires
        before.range_ok(ptr as int, (bytes.len() + 1) as int),
        forall|i: int| 0 <= i < bytes.len() ==> bytes[i] != 0,
        bytes.len() < max_len,
        valid_utf8(bytes),
        allow_empty || bytes.len() > 0,
        after.base == before.base,
        after.bytes@ == before.stored(ptr as int, bytes.push(0u8)),
    ensures
        c_string_outcome(after, ptr, max_len, allow_empty) == Ok::<Seq<char>, usize>(decode_utf8(bytes)),
{
    let d = bytes.push(0u8);
    crate::user_memory::law_read_after_write(before, ptr as int, d);
    let n = bytes.len();
    assert(after.range_ok(ptr as int, n as int));
    assert(after.bytes_at(ptr as int, n as int) =~= bytes) by {
        assert(after.bytes_at(ptr as int, (n + 1) as int) =~= d);
    }
    lemma_run_len_over(after, ptr as int, bytes, n);
    assert(after.bytes@[ptr + n - after.base] == 0u8) by {
        assert(after.bytes_at(ptr as int, (n + 1) as int) =~= d);
        assert(d[n as int] == 0u8);
    }
    assert(stops_at(after, ptr + n));
    assert(run_len(after, ptr as int, (n + 1) as nat) == n);
    lemma_run_len_stable(after, ptr as int, (n + 1) as nat, max_len as nat);
}

/// The view of a string result.
pub open spec fn string_result_view(r: Result<String, usize>) -> Result<Seq<char>, usize> {
    match r {
        Ok(s) => Ok(s@),
        Err(e) => Err(e),
    }
}

/// What scanning for a NUL within `max_len` bytes from `ptr` finds: the
/// bytes before it, or the errno word of the failure.
pub open spec fn nul_scan_outcome(mem: UserMemory, ptr: usize, max_len: usize) -> Result<Seq<u8>, usize> {
    let k = run_len(mem, ptr as int, max_len as nat);
    if k == max_len {
        Err(errno_word(EINVAL))
    } else if !mem.range_ok(ptr + k, 1) {
        Err(errno_word(EFAULT))
    } else {
        Ok(mem.bytes_at(ptr as int, k as int))
    }
}

/// Reads bytes from `ptr` up to a NUL that comes within `max_len` bytes.
fn scan_nul_terminated(mem: &UserMemory, ptr: usize, max_len: usize) -> (r: Result<Vec<u8>, usize>)
    ensures
        r matches Ok(v) ==> nul_scan_outcome(*mem, ptr, max_len) == Ok::<Seq<u8>, usize>(v@),
        r matches Err(e) ==> nul_scan_outcome(*mem, ptr, max_len) == Err::<Seq<u8>, usize>(e),
{
    let mut out: Vec<u8> = Vec::new();
    let mut i: usize = 0;
    while i < max_len
        invariant
            i <= max_len,
            run_len(*mem, ptr as int, i as nat) == i,
            i > 0 ==> mem.range_ok(ptr as int, i as int),
            i > 0 ==> out@ == mem.bytes_at(ptr as int, i as int),
            i == 0 ==> out@ == Seq::<u8>::empty(),
        decreases max_len - i,
    {
        proof {
            lemma_run_len_bound(*mem, ptr as int, i as nat);
        }
        let addr = match ptr.checked_add(i) {
            Some(a) => a,
            None => {
                proof {
                    assert(stops_at(*mem, ptr + i));
                    assert(run_len(*mem, ptr as int, (i + 1) as nat) == i);
                    lemma_run_len_stable(*mem, ptr as int, (i + 1) as nat, max_len as nat);
                }
                return Err(linux_errno(EFAULT));
            },
        };
        let b = match mem.read_u8(addr) {
            Some(b) => b,
            None => {
                proof {
                    assert(stops_at(*mem, ptr + i));
                    assert(run_len(*mem, ptr as int, (i + 1) as nat) == i);
                    lemma_run_len_stable(*mem, ptr as int, (i + 1) as nat, max_len as nat);
                }
                return Err(linux_errno(EFAULT));
            },
        };
        if b == 0 {
            proof {
                assert(stops_at(*mem, ptr + i));
                assert(run_len(*mem, ptr as int, (i + 1) as nat) == i);
                lemma_run_len_stable(*mem, ptr as int, (i + 1) as nat, max_len as nat);
                assert(out@ =~= mem.bytes_at(ptr as int, i as int));
            }
            return Ok(out);
        }
        proof {
            assert(!stops_at(*mem, ptr + i));
            assert(mem.range_ok(ptr as int, i + 1));
            assert(mem.bytes_at(ptr as int, i + 1) =~= out@.push(b));
        }
        out.push(b);
        i = i + 1;
    }
    Err(linux_errno(EINVAL))
}

fn read_c_string_common(mem: &UserMemory, ptr: usize, max_len: usize, allow_empty: bool) -> (r: Result<
    String,
    usize,
>)
    ensures
        string_result_view(r) == c_string_outcome(*mem, ptr, max_len, allow_empty),
{
    if ptr < USER_SPACE_BOTTOM_INCLUSIVE || (ptr as u64) >= USER_SPACE_TOP_EXCLUSIVE || max_len == 0 {
        return Err(linux_errno(EFAULT));
    }
    let bytes = match scan_nul_terminated(mem, ptr, max_len) {
        Ok(b) => b,
        Err(e) => return Err(e),
    };
    proof {
        let k = run_len(*mem, ptr as int, max_len as nat);
        lemma_run_len_bound(*mem, ptr as int, max_len as nat);
        if k > 0 {
            assert(!stops_at(*mem, ptr as int));
        }
    }
    if bytes.len() == 0 && !allow_empty {
        return Err(linux_errno(EINVAL));
    }
    match string_from_utf8(bytes) {
        Some(s) => Ok(s),
        None => Err(linux_errno(EINVAL)),
    }
}

/// What `read_user_c_string_compat` gives: a possibly empty string of
/// fewer than `max_len` bytes; a null pointer is a fault.
pub open spec fn c_string_compat_outcome(mem: UserMemory, ptr: usize, max_len: usize) -> Result<
    Seq<char>,
    usize,
> {
    if ptr == 0 || max_len == 0 {
        Err(errno_word(EFAULT))
    } else {
        match nul_scan_outcome(mem, ptr, max_len) {
            Err(e) => Err(e),
            Ok(b) => if valid_utf8(b) {
                Ok(decode_utf8(b))
            } else {
                Err(errno_word(EINVAL))
            },
        }
    }
}

/// Reads a NUL-terminated UTF-8 string (possibly empty) of fewer than
/// `max_len` bytes; only the readability of each byte is checked.
pub fn read_user_c_string_compat(mem: &UserMemory, ptr: usize, max_len: usize) -> (r: Result<String, usize>)
    ensures
        string_result_view(r) == c_string_compat_outcome(*mem, ptr, max_len),
{
    if ptr == 0 || max_len == 0 {
        return Err(linux_errno(EFAULT));
    }
    let bytes = match scan_nul_terminated(mem, ptr, max_len) {
        Ok(b) => b,
        Err(e) => return Err(e),
    };
    match string_from_utf8(bytes) {
        Some(s) => Ok(s),
        None => Err(linux_errno(EINVAL)),
    }
}

/// Reads a non-empty NUL-terminated UTF-8 string of fewer than `max_len`
/// bytes from user memory.
pub fn read_user_c_string(mem: &UserMemory, ptr: usize, max_len: usize) -> (r: Result<String, usize>)
    ensures
        string_result_view(r) == c_string_outcome(*mem, ptr, max_len, false),
{
    read_c_string_common(mem, ptr, max_len, false)
}

/// Like `read_user_c_string`, but an empty string is accepted.
pub fn read_user_c_string_allow_empty(mem: &UserMemory, ptr: usize, max_len: usize) -> (r: Result<
    String,
    usize,
>)
    ensures
        string_result_view(r) == c_string_outcome(*mem, ptr, max_len, true),
{
    read_c_string_common(mem, ptr, max_len, true)
}

/// Reads a path argument of at most `max_path_len` bytes.
pub fn read_user_path_like_string(mem: &UserMemory, ptr: usize, max_path_len: usize) -> (r: Result<
    String,
    usize,
>)
    ensures
        string_result_view(r) == c_string_outcome(*mem, ptr, max_path_len, false),
{
    read_user_c_string(mem, ptr, max_path_len)
}

/// Reads one machine word from user memory.
pub fn read_user_usize_word(mem: &UserMemory, ptr: usize) -> (r: Result<usize, usize>)
    ensures
        r is Ok <==> mem.range_ok(ptr as int, 8),
        r matches Ok(w) ==> w == u64_from_le(mem.bytes_at(ptr as int, 8)) as usize,
        r is Err ==> r == Err::<usize, usize>(SYSCALL_ERR_USER_ACCESS_DENIED),
{
    match mem.read_u64(ptr) {
        Some(w) => Ok(w as usize),
        None => Err(SYSCALL_ERR_USER_ACCESS_DENIED),
    }
}

/// Puts `prefix` before the strings of `rest`, or passes its error on.
pub open spec fn prepend_strings(prefix: Seq<Seq<char>>, rest: Result<Seq<Seq<char>>, usize>) -> Result<
    Seq<Seq<char>>,
    usize,
> {
    match rest {
        Ok(v) => Ok(prefix + v),
        Err(e) => Err(e),
    }
}

/// What reading the NULL-terminated array of string pointers at `ptr`
/// gives from entry `i` on.
pub open spec fn c_string_array_from(
    mem: UserMemory,
    ptr: usize,
    i: nat,
    max_items: usize,
    max_item_len: usize,
) -> Result<Seq<Seq<char>>, usize>
    decreases max_items - i,
{
    if i >= max_items {
        Err(errno_word(E2BIG))
    } else if i * 8 > usize::MAX || ptr + i * 8 > usize::MAX {
        Err(errno_word(EFAULT))
    } else if !mem.range_ok(ptr + i * 8, 8) {
        Err(SYSCALL_ERR_USER_ACCESS_DENIED)
    } else {
        let w = u64_from_le(mem.bytes_at(ptr + i * 8, 8)) as usize;
        if w == 0 {
            Ok(Seq::empty())
        } else {
            match c_string_outcome(mem, w, max_item_len, false) {
                Err(e) => Err(e),
                Ok(s) => prepend_strings(
                    seq![s],
                    c_string_array_from(mem, ptr, i + 1, max_items, max_item_len),
                ),
            }
        }
    }
}

/// What `read_user_c_string_array` gives.
pub open spec fn c_string_array_outcome(
    mem: UserMemory,
    ptr: usize,
    max_items: usize,
    max_item_len: usize,
) -> Result<Seq<Seq<char>>, usize> {
    if ptr == 0 {
        Ok(Seq::empty())
    } else if max_items == 0 || max_item_len == 0 {
        Err(errno_word(EINVAL))
    } else {
        c_string_array_from(mem, ptr, 0, max_items, max_item_len)
    }
}

/// The views of a list of strings.
pub open spec fn strings_view(v: Seq<String>) -> Seq<Seq<char>> {
    v.map_values(|s: String| s@)
}

/// The view of an array result.
pub open spec fn string_array_result_view(r: Result<Vec<String>, usize>) -> Result<
    Seq<Seq<char>>,
    usize,
> {
    match r {
        Ok(v) => Ok(strings_view(v@)),
        Err(e) => Err(e),
    }
}

/// Reads a NULL-terminated array of at most `max_items` string pointers
/// (an `argv` or `envp`); a null `ptr` is the empty array.
pub fn read_user_c_string_array(
    mem: &UserMemory,
    ptr: usize,
    max_items: usize,
    max_item_len: usize,
) -> (r: Result<Vec<String>, usize>)
    ensures
        string_array_result_view(r) == c_string_array_outcome(*mem, ptr, max_items, max_item_len),
{
    if ptr == 0 {
        let v: Vec<String> = Vec::new();
        assert(strings_view(v@) =~= Seq::<Seq<char>>::empty());
        return Ok(v);
    }
    if max_items == 0 || max_item_len == 0 {
        return Err(linux_errno(EINVAL));
    }
    let mut out: Vec<String> = Vec::new();
    let stride: usize = 8;
    let mut i: usize = 0;
    assert(strings_view(out@) =~= Seq::<Seq<char>>::empty());
    while i < max_items
        invariant
            i <= max_items,
            stride == 8,
            ptr != 0,
            max_items > 0,
            max_item_len > 0,
            c_string_array_from(*mem, ptr, 0, max_items, max_item_len) == prepend_strings(
                strings_view(out@),
                c_string_array_from(*mem, ptr, i as nat, max_items, max_item_len),
            ),
        decreases max_items - i,
    {
        let off = match i.checked_mul(stride) {
            Some(o) => o,
            None => return Err(linux_errno(EFAULT)),
        };
        let word_ptr = match ptr.checked_add(off) {
            Some(p) => p,
            None => return Err(linux_errno(EFAULT)),
        };
        let word = match read_user_usize_word(mem, word_ptr) {
            Ok(w) => w,
            Err(e) => return Err(e),
        };
        if word == 0 {
            assert(strings_view(out@) + Seq::<Seq<char>>::empty() =~= strings_view(out@));
            return Ok(out);
        }
        let s = match read_user_c_string(mem, word, max_item_len) {
            Ok(s) => s,
            Err(e) => return Err(e),
        };
        proof {
            let rest = c_string_array_from(*mem, ptr, (i + 1) as nat, max_items, max_item_len);
            assert(strings_view(out@.push(s)) =~= strings_view(out@) + seq![s@]);
            match rest {
                Ok(v) => {
                    assert(strings_view(out@) + (seq![s@] + v) =~= strings_view(out@.push(s)) + v);
                },
                Err(_) => {},
            }
        }
        out.push(s);
        i = i + 1;
    }
    Err(linux_errno(E2BIG))
}

} // verus!
