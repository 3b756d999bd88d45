use vstd::prelude::*;

use crate::errno::{errno_word, linux_errno, EFAULT, EINVAL};
use crate::user_memory::{
    lemma_store_adjacent, lemma_store_frame, lemma_words_le_bytes_prepend, same_outside, store_seq,
    u64_le_bytes, usize_words_bytes, words_le_bytes, UserMemory,
};
use vstd::utf8::encode_utf8;

verus! {

/// Auxiliary vector keys.
pub const EXECVE_AUXV_AT_NULL: usize = 0;

pub const EXECVE_AUXV_AT_PHDR: usize = 3;

pub const EXECVE_AUXV_AT_PHENT: usize = 4;

pub const EXECVE_AUXV_AT_PHNUM: usize = 5;

pub const EXECVE_AUXV_AT_PAGESZ: usize = 6;

pub const EXECVE_AUXV_AT_BASE: usize = 7;

pub const EXECVE_AUXV_AT_FLAGS: usize = 8;

pub const EXECVE_AUXV_AT_ENTRY: usize = 9;

pub const EXECVE_AUXV_AT_UID: usize = 11;

pub const EXECVE_AUXV_AT_EUID: usize = 12;

pub const EXECVE_AUXV_AT_GID: usize = 13;

pub const EXECVE_AUXV_AT_EGID: usize = 14;

pub const EXECVE_AUXV_AT_PLATFORM: usize = 15;

pub const EXECVE_AUXV_AT_HWCAP: usize = 16;

pub const EXECVE_AUXV_AT_CLKTCK: usize = 17;

pub const EXECVE_AUXV_AT_SECURE: usize = 23;

pub const EXECVE_AUXV_AT_RANDOM: usize = 25;

pub const EXECVE_AUXV_AT_HWCAP2: usize = 26;

pub const EXECVE_AUXV_AT_EXECFN: usize = 31;

pub const EXECVE_AUXV_AT_SYSINFO_EHDR: usize = 33;

/// Size of a stack word.
pub const EXECVE_WORD_BYTES: u64 = 8;

/// The value of an auxiliary vector entry: a word, or a string or bytes
/// that are copied onto the stack and replaced by their address.
#[derive(Clone, Copy)]
pub enum ExecveAuxValue<'a> {
    Word(usize),
    CString(&'a str),
    Bytes(&'a [u8]),
}

/// One auxiliary vector entry.
#[derive(Clone, Copy)]
pub struct ExecveAuxEntry<'a> {
    pub key: usize,
    pub value: ExecveAuxValue<'a>,
}

/// The bytes of a C string: the UTF-8 encoding and a NUL.
pub open spec fn cstr_bytes(chars: Seq<char>) -> Seq<u8> {
    encode_utf8(chars).push(0u8)
}

/// What an auxiliary value copies onto the stack: nothing for a word.
pub open spec fn aux_pushed(v: ExecveAuxValue) -> Seq<Seq<u8>> {
    match v {
        ExecveAuxValue::Word(_) => Seq::empty(),
        ExecveAuxValue::CString(s) => seq![cstr_bytes(s@)],
        ExecveAuxValue::Bytes(b) => seq![b@],
    }
}

/// The copies made by the first `t` steps over the auxiliary entries,
/// which go from the last entry to the first.
pub open spec fn aux_items(aux: Seq<ExecveAuxEntry>, t: nat) -> Seq<Seq<u8>>
    decreases t,
{
    if t == 0 || t > aux.len() {
        Seq::empty()
    } else {
        aux_items(aux, (t - 1) as nat) + aux_pushed(aux[aux.len() - t].value)
    }
}

/// The C strings of the last `t` elements of `v`, last element first.
pub open spec fn rev_cstrs(v: Seq<String>, t: nat) -> Seq<Seq<u8>> {
    Seq::new(t, |i: int| cstr_bytes(v[v.len() - 1 - i]@))
}

/// Everything copied onto the stack, in the order it is copied: the
/// arguments from the last, the environment from the last, then the
/// auxiliary strings and bytes from the last entry.
pub open spec fn string_pushes(argv: Seq<String>, envp: Seq<String>, aux: Seq<ExecveAuxEntry>) -> Seq<
    Seq<u8>,
> {
    rev_cstrs(argv, argv.len()) + rev_cstrs(envp, envp.len()) + aux_items(aux, aux.len())
}

/// The total length of a list of byte strings.
pub open spec fn bytes_total(l: Seq<Seq<u8>>) -> nat
    decreases l.len(),
{
    if l.len() == 0 {
        0
    } else {
        bytes_total(l.drop_last()) + l.last().len()
    }
}

/// The stack image of byte strings pushed downward in the order of `l`:
/// the last one pushed comes first.
pub open spec fn rev_concat(l: Seq<Seq<u8>>) -> Seq<u8>
    decreases l.len(),
{
    if l.len() == 0 {
        Seq::empty()
    } else {
        l.last() + rev_concat(l.drop_last())
    }
}

pub proof fn lemma_rev_concat_len(l: Seq<Seq<u8>>)
    ensures
        rev_concat(l).len() == bytes_total(l),
    decreases l.len(),
{
    if l.len() > 0 {
        lemma_rev_concat_len(l.drop_last());
    }
}

pub proof fn lemma_bytes_total_concat(p: Seq<Seq<u8>>, q: Seq<Seq<u8>>)
    ensures
        bytes_total(p + q) == bytes_total(p) + bytes_total(q),
    decreases q.len(),
{
    if q.len() == 0 {
        assert(p + q =~= p);
    } else {
        lemma_bytes_total_concat(p, q.drop_last());
        assert((p + q).drop_last() =~= p + q.drop_last());
    }
}

pub proof fn lemma_bytes_total_push(p: Seq<Seq<u8>>, x: Seq<u8>)
    ensures
        bytes_total(p.push(x)) == bytes_total(p) + x.len(),
        rev_concat(p.push(x)) == x + rev_concat(p),
{
    assert(p.push(x).drop_last() =~= p);
}

pub proof fn lemma_aux_items_grow(aux: Seq<ExecveAuxEntry>, t: nat, u: nat)
    requires
        t <= u <= aux.len(),
    ensures
        bytes_total(aux_items(aux, t)) <= bytes_total(aux_items(aux, u)),
    decreases u - t,
{
    if t < u {
        lemma_aux_items_grow(aux, t, (u - 1) as nat);
        lemma_bytes_total_concat(aux_items(aux, (u - 1) as nat), aux_pushed(aux[aux.len() - u].value));
    }
}

pub proof fn lemma_rev_cstrs_step(v: Seq<String>, t: nat)
    requires
        t < v.len(),
    ensures
        rev_cstrs(v, t + 1) == rev_cstrs(v, t).push(cstr_bytes(v[v.len() - 1 - t]@)),
        bytes_total(rev_cstrs(v, t)) <= bytes_total(rev_cstrs(v, v.len())),
{
    assert(rev_cstrs(v, t + 1) =~= rev_cstrs(v, t).push(cstr_bytes(v[v.len() - 1 - t]@)));
    lemma_rev_cstrs_le(v, t);
}

pub proof fn lemma_rev_cstrs_le(v: Seq<String>, t: nat)
    requires
        t <= v.len(),
    ensures
        bytes_total(rev_cstrs(v, t)) <= bytes_total(rev_cstrs(v, v.len())),
{
    let whole = rev_cstrs(v, v.len());
    assert(whole =~= rev_cstrs(v, t) + whole.subrange(t as int, v.len() as int));
    lemma_bytes_total_concat(rev_cstrs(v, t), whole.subrange(t as int, v.len() as int));
}

/// The number of bytes `prepare_execve_user_stack` needs: the copied
/// strings and bytes, the argument, environment and auxiliary tables with
/// their terminators and the argument count, and up to seven bytes of
/// alignment.
pub open spec fn execve_required_total(argv: Seq<String>, envp: Seq<String>, aux: Seq<ExecveAuxEntry>) -> int {
    (bytes_total(string_pushes(argv, envp, aux)) + 8 * (argv.len() + envp.len() + 2 * aux.len() + 5)
        + 7) as int
}

/// The bytes one C string of `s` takes.
fn cstr_len(s: &str) -> (r: Option<usize>)
    ensures
        r is Some <==> encode_utf8(s@).len() + 1 <= usize::MAX,
        r matches Some(n) ==> n == cstr_bytes(s@).len(),
{
    s.as_bytes().len().checked_add(1)
}

/// Adds the C string lengths of the elements of `v`, last element first,
/// to `acc`.
fn add_rev_cstr_lens(v: &[String], acc: usize, Ghost(before): Ghost<Seq<Seq<u8>>>) -> (r: Option<usize>)
    requires
        acc == bytes_total(before),
    ensures
        r is Some <==> bytes_total(before + rev_cstrs(v@, v@.len())) <= usize::MAX,
        r matches Some(n) ==> n == bytes_total(before + rev_cstrs(v@, v@.len())),
{
    let mut acc = acc;
    let mut t: usize = 0;
    let n = v.len();
    proof {
        assert(before + rev_cstrs(v@, 0) =~= before);
    }
    while t < n
        invariant
            n == v@.len(),
            t <= n,
            acc == bytes_total(before + rev_cstrs(v@, t as nat)),
        decreases n - t,
    {
        proof {
            lemma_rev_cstrs_step(v@, t as nat);
            assert(before + rev_cstrs(v@, (t + 1) as nat) =~= (before + rev_cstrs(v@, t as nat)).push(
                cstr_bytes(v@[n - 1 - t]@),
            ));
            lemma_bytes_total_push(before + rev_cstrs(v@, t as nat), cstr_bytes(v@[n - 1 - t]@));
            lemma_bytes_total_concat(before, rev_cstrs(v@, (t + 1) as nat));
            lemma_bytes_total_concat(before, rev_cstrs(v@, n as nat));
            lemma_rev_cstrs_le(v@, (t + 1) as nat);
        }
        let s = v[n - 1 - t].as_str();
        let len = match cstr_len(s) {
            Some(l) => l,
            None => return None,
        };
        acc = match acc.checked_add(len) {
            Some(a) => a,
            None => return None,
        };
        t = t + 1;
    }
    Some(acc)
}

/// The bytes the auxiliary strings and bytes take.
fn aux_string_bytes(auxv: &[ExecveAuxEntry], acc: usize, Ghost(before): Ghost<Seq<Seq<u8>>>) -> (r:
    Option<usize>)
    requires
        acc == bytes_total(before),
    ensures
        r is Some <==> bytes_total(before + aux_items(auxv@, auxv@.len())) <= usize::MAX,
        r matches Some(n) ==> n == bytes_total(before + aux_items(auxv@, auxv@.len())),
{
    let mut acc = acc;
    let mut t: usize = 0;
    let k = auxv.len();
    proof {
        assert(before + aux_items(auxv@, 0) =~= before);
    }
    while t < k
        invariant
            k == auxv@.len(),
            t <= k,
            acc == bytes_total(before + aux_items(auxv@, t as nat)),
        decreases k - t,
    {
        let entry = auxv[k - 1 - t];
        proof {
            let cur = before + aux_items(auxv@, t as nat);
            let item = aux_pushed(entry.value);
            assert(before + aux_items(auxv@, (t + 1) as nat) =~= cur + item);
            lemma_bytes_total_concat(cur, item);
            lemma_bytes_total_concat(before, aux_items(auxv@, (t + 1) as nat));
            lemma_bytes_total_concat(before, aux_items(auxv@, k as nat));
            lemma_aux_items_grow(auxv@, (t + 1) as nat, k as nat);
            if item.len() == 1 {
                assert(item =~= Seq::<Seq<u8>>::empty().push(item[0]));
                lemma_bytes_total_push(Seq::<Seq<u8>>::empty(), item[0]);
            }
        }
        match entry.value {
            ExecveAuxValue::Word(_) => {
                assert(bytes_total(Seq::<Seq<u8>>::empty()) == 0);
            },
            ExecveAuxValue::CString(s) => {
                let len = match cstr_len(s) {
                    Some(l) => l,
                    None => return None,
                };
                acc = match acc.checked_add(len) {
                    Some(a) => a,
                    None => return None,
                };
            },
            ExecveAuxValue::Bytes(b) => {
                acc = match acc.checked_add(b.len()) {
                    Some(a) => a,
                    None => return None,
                };
            },
        }
        t = t + 1;
    }
    Some(acc)
}

/// The stack bytes `prepare_execve_user_stack` needs, or `None` when the
/// count does not fit in a word.
pub fn execve_stack_required_bytes(argv: &[String], envp: &[String], auxv_entries: &[ExecveAuxEntry]) -> (r:
    Option<usize>)
    ensures
        r is Some <==> execve_required_total(argv@, envp@, auxv_entries@) <= usize::MAX,
        r matches Some(n) ==> n == execve_required_total(argv@, envp@, auxv_entries@),
{
    let ghost a = rev_cstrs(argv@, argv@.len());
    let ghost e = rev_cstrs(envp@, envp@.len());
    let ghost x = aux_items(auxv_entries@, auxv_entries@.len());
    let ghost total = execve_required_total(argv@, envp@, auxv_entries@);
    proof {
        assert(Seq::<Seq<u8>>::empty() + a =~= a);
        lemma_bytes_total_concat(a, e);
        lemma_bytes_total_concat(a + e, x);
        assert(string_pushes(argv@, envp@, auxv_entries@) == a + e + x);
    }
    let argv_bytes = match add_rev_cstr_lens(argv, 0, Ghost(Seq::empty())) {
        Some(v) => v,
        None => return None,
    };
    let strings_bytes = match add_rev_cstr_lens(envp, argv_bytes, Ghost(a)) {
        Some(v) => v,
        None => return None,
    };
    let aux_bytes = match aux_string_bytes(auxv_entries, strings_bytes, Ghost(a + e)) {
        Some(v) => v,
        None => return None,
    };
    let aux_words = match auxv_entries.len().checked_mul(2) {
        Some(w) => match w.checked_add(2) {
            Some(w2) => w2,
            None => return None,
        },
        None => return None,
    };
    let pointer_words = match argv.len().checked_add(1) {
        Some(p) => match p.checked_add(envp.len()) {
            Some(p) => match p.checked_add(1) {
                Some(p) => match p.checked_add(aux_words) {
                    Some(p) => match p.checked_add(1) {
                        Some(p) => p,
                        None => return None,
                    },
                    None => return None,
                },
                None => return None,
            },
            None => return None,
        },
        None => return None,
    };
    let pointer_bytes = match pointer_words.checked_mul(8) {
        Some(b) => b,
        None => return None,
    };
    match aux_bytes.checked_add(pointer_bytes) {
        Some(t) => t.checked_add(7),
        None => None,
    }
}

/// Refuses an auxiliary vector that holds the terminator key itself.
pub fn validate_execve_auxv_entries(auxv_entries: &[ExecveAuxEntry]) -> (r: Result<(), usize>)
    ensures
        r is Ok <==> forall|i: int| 0 <= i < auxv_entries@.len() ==> auxv_entries@[i].key
            != EXECVE_AUXV_AT_NULL,
        r is Err ==> r == Err::<(), usize>(errno_word(EINVAL)),
{
    let mut i: usize = 0;
    while i < auxv_entries.len()
        invariant
            i <= auxv_entries@.len(),
            forall|j: int| 0 <= j < i ==> auxv_entries@[j].key != EXECVE_AUXV_AT_NULL,
        decreases auxv_entries@.len() - i,
    {
        if auxv_entries[i].key == EXECVE_AUXV_AT_NULL {
            return Err(linux_errno(EINVAL));
        }
        i = i + 1;
    }
    Ok(())
}

/// Pushes one word: moves `sp` down by `word_size` and stores `value`
/// there.  An `sp` below `word_size` is refused, and so is a misaligned or
/// inaccessible slot.
pub fn push_execve_user_word(mem: &mut UserMemory, sp: &mut u64, word_size: u64, value: usize) -> (r:
    Result<(), usize>)
    ensures
        final(mem).base == old(mem).base,
        *old(sp) < word_size ==> r == Err::<(), usize>(errno_word(EINVAL)) && *final(sp) == *old(sp)
            && final(mem).bytes@ == old(mem).bytes@,
        *old(sp) >= word_size ==> *final(sp) == *old(sp) - word_size,
        *old(sp) >= word_size ==> {
            let p = (*final(sp)) as usize as int;
            &&& (p % 8 == 0 && old(mem).range_ok(p, 8)) ==> r is Ok && final(mem).bytes@ == old(mem).stored(p, u64_le_bytes(value as u64))
            &&& !(p % 8 == 0 && old(mem).range_ok(p, 8)) ==> r == Err::<(), usize>(errno_word(EFAULT))
                && final(mem).bytes@ == old(mem).bytes@
        },
{
    let next = match sp.checked_sub(word_size) {
        Some(n) => n,
        None => return Err(linux_errno(EINVAL)),
    };
    *sp = next;
    let mut one: Vec<usize> = Vec::new();
    one.push(value);
    proof {
        let s = one@.map_values(|w: usize| w as u64);
        assert(s.drop_last() =~= Seq::<u64>::empty());
        assert(words_le_bytes(Seq::<u64>::empty()) + u64_le_bytes(value as u64) =~= u64_le_bytes(
            value as u64,
        ));
        assert(usize_words_bytes(one@) == u64_le_bytes(value as u64));
    }
    match mem.write_words(next as usize, 8, one.as_slice()) {
        Ok(()) => Ok(()),
        Err(_) => Err(linux_errno(EFAULT)),
    }
}

/// Pushes a C string: moves `sp` down by its length plus one and stores
/// the bytes and a NUL there; gives the string's address.
pub fn push_execve_user_c_string(mem: &mut UserMemory, sp: &mut u64, value: &str) -> (r: Result<
    usize,
    usize,
>)
    requires
        encode_utf8(value@).len() + 1 <= usize::MAX,
    ensures
        final(mem).base == old(mem).base,
        ({
            let len = cstr_bytes(value@).len();
            &&& *old(sp) < len ==> r == Err::<usize, usize>(errno_word(EINVAL)) && *final(sp)
                == *old(sp) && final(mem).bytes@ == old(mem).bytes@
            &&& *old(sp) >= len ==> *final(sp) == *old(sp) - len
            &&& *old(sp) >= len ==> {
                let p = (*final(sp)) as usize as int;
                &&& old(mem).range_ok(p, len as int) ==> r == Ok::<usize, usize>(p as usize) && final(mem).bytes@ == old(mem).stored(p, cstr_bytes(value@))
                &&& !old(mem).range_ok(p, len as int) ==> r == Err::<usize, usize>(errno_word(EFAULT))
                    && final(mem).bytes@ == old(mem).bytes@
            }
        }),
{
    let bytes = value.as_bytes();
    let len = bytes.len().saturating_add(1);
    let next = match sp.checked_sub(len as u64) {
        Some(n) => n,
        None => return Err(linux_errno(EINVAL)),
    };
    *sp = next;
    let mut buf: Vec<u8> = Vec::new();
    buf.extend_from_slice(bytes);
    buf.push(0u8);
    assert(buf@ =~= cstr_bytes(value@));
    if mem.write_bytes(next as usize, buf.as_slice()) {
        Ok(next as usize)
    } else {
        Err(linux_errno(EFAULT))
    }
}

/// Pushes raw bytes: moves `sp` down by their length and stores them
/// there; gives their address.
pub fn push_execve_user_bytes(mem: &mut UserMemory, sp: &mut u64, value: &[u8]) -> (r: Result<
    usize,
    usize,
>)
    ensures
        final(mem).base == old(mem).base,
        *old(sp) < value@.len() ==> r == Err::<usize, usize>(errno_word(EINVAL)) && *final(sp)
            == *old(sp) && final(mem).bytes@ == old(mem).bytes@,
        *old(sp) >= value@.len() ==> *final(sp) == *old(sp) - value@.len(),
        *old(sp) >= value@.len() ==> {
            let p = (*final(sp)) as usize as int;
            &&& old(mem).range_ok(p, value@.len() as int) ==> r == Ok::<usize, usize>(p as usize)
                && final(mem).bytes@ == old(mem).stored(p, value@)
            &&& !old(mem).range_ok(p, value@.len() as int) ==> r == Err::<usize, usize>(
                errno_word(EFAULT),
            ) && final(mem).bytes@ == old(mem).bytes@
        },
{
    let len = value.len();
    let next = match sp.checked_sub(len as u64) {
        Some(n) => n,
        None => return Err(linux_errno(EINVAL)),
    };
    *sp = next;
    if mem.write_bytes(next as usize, value) {
        Ok(next as usize)
    } else {
        Err(linux_errno(EFAULT))
    }
}

/// The memory `mem` after the byte strings `pushed` were laid down from
/// `top` on the memory `orig`, with the stack pointer at `sp`.
pub open spec fn strings_state(mem: UserMemory, orig: UserMemory, top: int, sp: int, pushed: Seq<Seq<u8>>) -> bool {
    &&& mem.base == orig.base
    &&& sp == top - bytes_total(pushed)
    &&& mem.bytes@ == store_seq(orig.bytes@, orig.base as int, sp, rev_concat(pushed))
    &&& bytes_total(pushed) > 0 ==> orig.base <= sp && top <= orig.base + orig.bytes@.len()
}

/// Laying down one more byte string that was stored at `q`.
proof fn lemma_strings_state_push(
    orig: UserMemory,
    top: int,
    sp: int,
    pushed: Seq<Seq<u8>>,
    m1: Seq<u8>,
    q: int,
    item: Seq<u8>,
    m2: Seq<u8>,
)
    requires
        sp == top - bytes_total(pushed),
        m1 == store_seq(orig.bytes@, orig.base as int, sp, rev_concat(pushed)),
        bytes_total(pushed) > 0 ==> orig.base <= sp && top <= orig.base + orig.bytes@.len(),
        q + item.len() == sp,
        orig.base <= q,
        q + item.len() <= orig.base + orig.bytes@.len(),
        m2 == store_seq(m1, orig.base as int, q, item),
    ensures
        q == top - bytes_total(pushed.push(item)),
        m2 == store_seq(orig.bytes@, orig.base as int, q, rev_concat(pushed.push(item))),
        bytes_total(pushed.push(item)) > 0 ==> orig.base <= q && top <= orig.base
            + orig.bytes@.len(),
{
    lemma_rev_concat_len(pushed);
    lemma_bytes_total_push(pushed, item);
    lemma_store_adjacent(orig.bytes@, orig.base as int, sp, rev_concat(pushed), q, item);
}

/// The state before anything is laid down.
proof fn lemma_strings_state_empty(orig: UserMemory, top: int)
    ensures
        strings_state(orig, orig, top, top, Seq::empty()),
{
    assert(rev_concat(Seq::<Seq<u8>>::empty()) =~= Seq::<u8>::empty());
}

/// What the laid-down strings leave alone.
proof fn lemma_strings_state_frame(mem: UserMemory, orig: UserMemory, top: int, sp: int, pushed: Seq<Seq<u8>>)
    requires
        strings_state(mem, orig, top, sp, pushed),
    ensures
        same_outside(mem.bytes@, orig.bytes@, orig.base as int, sp, top),
{
    lemma_rev_concat_len(pushed);
    lemma_store_frame(orig.bytes@, orig.base as int, sp, rev_concat(pushed));
}

/// Pushes the C strings of `v`, last element first, and gives the
/// address of each in the order pushed.
fn push_rev_c_strings(
    mem: &mut UserMemory,
    sp: &mut u64,
    v: &[String],
    Ghost(orig): Ghost<UserMemory>,
    Ghost(start): Ghost<int>,
    Ghost(top): Ghost<int>,
    Ghost(before): Ghost<Seq<Seq<u8>>>,
) -> (r: Result<Vec<usize>, usize>)
    requires
        strings_state(*old(mem), orig, top, *old(sp) as int, before),
        0 <= start,
        start + bytes_total(before + rev_cstrs(v@, v@.len())) <= top,
        top <= usize::MAX,
    ensures
        final(mem).base == orig.base,
        r matches Ok(ptrs) ==> {
            &&& strings_state(*final(mem), orig, top, *final(sp) as int, before + rev_cstrs(v@, v@.len()))
            &&& ptrs@ == Seq::new(
                v@.len(),
                |j: int| (top - bytes_total(before + rev_cstrs(v@, (j + 1) as nat))) as usize,
            )
        },
        r matches Err(e) ==> e == errno_word(EFAULT) && !orig.range_ok(start, top - start)
            && same_outside(final(mem).bytes@, orig.bytes@, orig.base as int, start, top),
{
    let n = v.len();
    let mut ptrs: Vec<usize> = Vec::new();
    let mut t: usize = 0;
    assert(before + rev_cstrs(v@, 0) =~= before);
    while t < n
        invariant
            n == v@.len(),
            t <= n,
            0 <= start,
            top <= usize::MAX,
            start + bytes_total(before + rev_cstrs(v@, n as nat)) <= top,
            strings_state(*mem, orig, top, *sp as int, before + rev_cstrs(v@, t as nat)),
            ptrs@ == Seq::new(
                t as nat,
                |j: int| (top - bytes_total(before + rev_cstrs(v@, (j + 1) as nat))) as usize,
            ),
        decreases n - t,
    {
        let ghost pushed = before + rev_cstrs(v@, t as nat);
        let ghost item = cstr_bytes(v@[n - 1 - t]@);
        let ghost m1 = mem.bytes@;
        let ghost sp0 = *sp as int;
        proof {
            lemma_rev_cstrs_step(v@, t as nat);
            lemma_rev_cstrs_le(v@, (t + 1) as nat);
            assert(before + rev_cstrs(v@, (t + 1) as nat) =~= pushed.push(item));
            lemma_bytes_total_push(pushed, item);
            lemma_bytes_total_concat(before, rev_cstrs(v@, (t + 1) as nat));
            lemma_bytes_total_concat(before, rev_cstrs(v@, n as nat));
            lemma_strings_state_frame(*mem, orig, top, sp0, pushed);
        }
        let s = v[n - 1 - t].as_str();
        let res = push_execve_user_c_string(mem, sp, s);
        match res {
            Ok(p) => {
                proof {
                    lemma_strings_state_push(orig, top, sp0, pushed, m1, *sp as int, item, mem.bytes@);
                }
                ptrs.push(p);
                assert(ptrs@ =~= Seq::new(
                    (t + 1) as nat,
                    |j: int| (top - bytes_total(before + rev_cstrs(v@, (j + 1) as nat))) as usize,
                ));
                t = t + 1;
            },
            Err(e) => {
                return Err(e);
            },
        }
    }
    Ok(ptrs)
}

/// The word that stands for auxiliary entry `i` on the stack: its value,
/// or the address its string or bytes were copied to (they were laid down
/// after `prefix`).
pub open spec fn aux_word_value(top: int, prefix: Seq<Seq<u8>>, aux: Seq<ExecveAuxEntry>, i: int) -> usize {
    match aux[i].value {
        ExecveAuxValue::Word(w) => w,
        _ => (top - bytes_total(prefix + aux_items(aux, (aux.len() - i) as nat))) as usize,
    }
}

/// Copies the strings and bytes of the auxiliary entries onto the stack,
/// last entry first, and gives `(key, word)` for each in that order.
fn push_aux_values(
    mem: &mut UserMemory,
    sp: &mut u64,
    auxv: &[ExecveAuxEntry],
    Ghost(orig): Ghost<UserMemory>,
    Ghost(start): Ghost<int>,
    Ghost(top): Ghost<int>,
    Ghost(before): Ghost<Seq<Seq<u8>>>,
) -> (r: Result<Vec<(usize, usize)>, usize>)
    requires
        strings_state(*old(mem), orig, top, *old(sp) as int, before),
        0 <= start,
        start + bytes_total(before + aux_items(auxv@, auxv@.len())) <= top,
        top <= usize::MAX,
    ensures
        final(mem).base == orig.base,
        r matches Ok(res) ==> {
            &&& strings_state(*final(mem), orig, top, *final(sp) as int, before + aux_items(auxv@, auxv@.len()))
            &&& res@ == Seq::new(
                auxv@.len(),
                |t: int|
                    (
                        auxv@[auxv@.len() - 1 - t].key,
                        aux_word_value(top, before, auxv@, auxv@.len() - 1 - t),
                    ),
            )
        },
        r matches Err(e) ==> e == errno_word(EFAULT) && !orig.range_ok(start, top - start)
            && same_outside(final(mem).bytes@, orig.bytes@, orig.base as int, start, top),
{
    let k = auxv.len();
    let mut res: Vec<(usize, usize)> = Vec::new();
    let mut t: usize = 0;
    assert(before + aux_items(auxv@, 0) =~= before);
    while t < k
        invariant
            k == auxv@.len(),
            t <= k,
            0 <= start,
            top <= usize::MAX,
            start + bytes_total(before + aux_items(auxv@, k as nat)) <= top,
            strings_state(*mem, orig, top, *sp as int, before + aux_items(auxv@, t as nat)),
            res@ == Seq::new(
                t as nat,
                |j: int| (auxv@[k - 1 - j].key, aux_word_value(top, before, auxv@, k - 1 - j)),
            ),
        decreases k - t,
    {
        let entry = auxv[k - 1 - t];
        let ghost pushed = before + aux_items(auxv@, t as nat);
        let ghost items = aux_pushed(entry.value);
        let ghost m1 = mem.bytes@;
        let ghost sp0 = *sp as int;
        proof {
            assert(before + aux_items(auxv@, (t + 1) as nat) =~= pushed + items);
            lemma_bytes_total_concat(pushed, items);
            lemma_bytes_total_concat(before, aux_items(auxv@, (t + 1) as nat));
            lemma_bytes_total_concat(before, aux_items(auxv@, k as nat));
            lemma_aux_items_grow(auxv@, (t + 1) as nat, k as nat);
            lemma_strings_state_frame(*mem, orig, top, sp0, pushed);
            assert((k - 1 - t) as int == k - 1 - t);
            assert((k - (k - 1 - t)) as nat == (t + 1) as nat);
        }
        let value: usize = match entry.value {
            ExecveAuxValue::Word(w) => {
                assert(items =~= Seq::<Seq<u8>>::empty());
                assert(pushed + items =~= pushed);
                w
            },
            ExecveAuxValue::CString(s) => {
                proof {
                    assert(items =~= seq![cstr_bytes(s@)]);
                    assert(pushed + items =~= pushed.push(cstr_bytes(s@)));
                    lemma_bytes_total_push(pushed, cstr_bytes(s@));
                }
                match push_execve_user_c_string(mem, sp, s) {
                    Ok(p) => {
                        proof {
                            lemma_strings_state_push(
                                orig,
                                top,
                                sp0,
                                pushed,
                                m1,
                                *sp as int,
                                cstr_bytes(s@),
                                mem.bytes@,
                            );
                        }
                        p
                    },
                    Err(e) => return Err(e),
                }
            },
            ExecveAuxValue::Bytes(b) => {
                proof {
                    assert(items =~= seq![b@]);
                    assert(pushed + items =~= pushed.push(b@));
                    lemma_bytes_total_push(pushed, b@);
                }
                match push_execve_user_bytes(mem, sp, b) {
                    Ok(p) => {
                        proof {
                            lemma_strings_state_push(
                                orig,
                                top,
                                sp0,
                                pushed,
                                m1,
                                *sp as int,
                                b@,
                                mem.bytes@,
                            );
                        }
                        p
                    },
                    Err(e) => return Err(e),
                }
            },
        };
        res.push((entry.key, value));
        assert(res@ =~= Seq::new(
            (t + 1) as nat,
            |j: int| (auxv@[k - 1 - j].key, aux_word_value(top, before, auxv@, k - 1 - j)),
        ));
        t = t + 1;
    }
    Ok(res)
}

/// The memory `mem` after the words `words` were laid down below `al` on
/// the memory `m1`, with the stack pointer at `sp`.
pub open spec fn words_state(mem: UserMemory, m1: UserMemory, al: int, sp: int, words: Seq<usize>) -> bool {
    &&& mem.base == m1.base
    &&& sp == al - 8 * words.len()
    &&& mem.bytes@ == store_seq(m1.bytes@, m1.base as int, sp, usize_words_bytes(words))
    &&& words.len() > 0 ==> m1.base <= sp && al <= m1.base + m1.bytes@.len()
}

proof fn lemma_usize_words_bytes_prepend(w: usize, words: Seq<usize>)
    ensures
        usize_words_bytes(seq![w] + words) == u64_le_bytes(w as u64) + usize_words_bytes(words),
        usize_words_bytes(words).len() == 8 * words.len(),
{
    let f = |x: usize| x as u64;
    assert((seq![w] + words).map_values(f) =~= seq![w as u64] + words.map_values(f));
    lemma_words_le_bytes_prepend(w as u64, words.map_values(f));
    crate::user_memory::lemma_words_le_bytes_len(words.map_values(f));
}

/// Pushes the words of `table`, last word first, so that the table lies
/// in order from the final stack pointer up.
fn push_table_words(
    mem: &mut UserMemory,
    sp: &mut u64,
    table: &Vec<usize>,
    Ghost(orig): Ghost<UserMemory>,
    Ghost(m1): Ghost<UserMemory>,
    Ghost(start): Ghost<int>,
    Ghost(top): Ghost<int>,
) -> (r: Result<(), usize>)
    requires
        *old(mem) == m1,
        m1.base == orig.base,
        m1.bytes@.len() == orig.bytes@.len(),
        *old(sp) as int % 8 == 0,
        0 <= start,
        start + 8 * table@.len() <= *old(sp),
        *old(sp) <= top <= usize::MAX,
    ensures
        final(mem).base == orig.base,
        r is Ok ==> *final(sp) == *old(sp) - 8 * table@.len() && final(mem).bytes@ == store_seq(
            m1.bytes@,
            m1.base as int,
            *final(sp) as int,
            usize_words_bytes(table@),
        ),
        r is Ok ==> same_outside(final(mem).bytes@, m1.bytes@, m1.base as int, start, top),
        r matches Err(e) ==> e == errno_word(EFAULT) && !orig.range_ok(start, top - start)
            && same_outside(final(mem).bytes@, m1.bytes@, m1.base as int, start, top),
{
    let ghost al = *sp as int;
    let mut j = table.len();
    proof {
        assert(table@.subrange(j as int, j as int) =~= Seq::<usize>::empty());
        assert(usize_words_bytes(Seq::<usize>::empty()) =~= Seq::<u8>::empty());
    }
    while j > 0
        invariant
            j <= table@.len(),
            m1.base == orig.base,
            m1.bytes@.len() == orig.bytes@.len(),
            al % 8 == 0,
            0 <= start,
            start + 8 * table@.len() <= al,
            al <= top <= usize::MAX,
            words_state(*mem, m1, al, *sp as int, table@.subrange(j as int, table@.len() as int)),
        decreases j,
    {
        let ghost words = table@.subrange(j as int, table@.len() as int);
        let ghost mb = mem.bytes@;
        let ghost sp0 = *sp as int;
        proof {
            lemma_usize_words_bytes_prepend(table@[j - 1], words);
            assert(table@.subrange(j - 1, table@.len() as int) =~= seq![table@[j - 1]] + words);
            lemma_store_frame(m1.bytes@, m1.base as int, sp0, usize_words_bytes(words));
            assert((sp0 - 8) % 8 == 0);
        }
        j = j - 1;
        match push_execve_user_word(mem, sp, 8, table[j]) {
            Ok(()) => {
                proof {
                    lemma_store_adjacent(
                        m1.bytes@,
                        m1.base as int,
                        sp0,
                        usize_words_bytes(words),
                        *sp as int,
                        u64_le_bytes(table@[j as int] as u64),
                    );
                }
            },
            Err(e) => {
                return Err(e);
            },
        }
    }
    proof {
        assert(table@.subrange(0, table@.len() as int) =~= table@);
        lemma_usize_words_bytes_prepend(0, table@);
        lemma_store_frame(m1.bytes@, m1.base as int, *sp as int, usize_words_bytes(table@));
    }
    Ok(())
}

/// The words `prepare_execve_user_stack` lays down, from the final stack
/// pointer up: the argument count; each auxiliary entry's key and word;
/// the auxiliary terminator (key and value) and the environment
/// terminator; the environment addresses, last variable first; the
/// argument terminator; the argument addresses, last argument first.
pub open spec fn execve_word_table(top: int, argv: Seq<String>, envp: Seq<String>, aux: Seq<ExecveAuxEntry>) -> Seq<
    usize,
> {
    let n = argv.len();
    let m = envp.len();
    let k = aux.len();
    let a = rev_cstrs(argv, n);
    let e = rev_cstrs(envp, m);
    seq![n as usize] + Seq::new(
        2 * k,
        |j: int|
            if j % 2 == 0 {
                aux[j / 2].key
            } else {
                aux_word_value(top, a + e, aux, j / 2)
            },
    ) + seq![EXECVE_AUXV_AT_NULL, 0usize, 0usize] + Seq::new(
        m,
        |j: int| (top - bytes_total(a + rev_cstrs(envp, (j + 1) as nat))) as usize,
    ) + seq![0usize] + Seq::new(n, |j: int| (top - bytes_total(rev_cstrs(argv, (j + 1) as nat))) as usize)
}

/// Lays the words of the table out in a vector.
fn build_execve_word_table(
    argc: usize,
    arg_ptrs: &Vec<usize>,
    env_ptrs: &Vec<usize>,
    resolved: &Vec<(usize, usize)>,
) -> (t: Vec<usize>)
    ensures
        t@ == seq![argc] + Seq::new(
            2 * resolved@.len(),
            |j: int|
                if j % 2 == 0 {
                    resolved@[resolved@.len() - 1 - j / 2].0
                } else {
                    resolved@[resolved@.len() - 1 - j / 2].1
                },
        ) + seq![EXECVE_AUXV_AT_NULL, 0usize, 0usize] + env_ptrs@ + seq![0usize] + arg_ptrs@,
{
    let k = resolved.len();
    let mut t: Vec<usize> = Vec::new();
    t.push(argc);
    let mut i: usize = 0;
    while i < k
        invariant
            k == resolved@.len(),
            i <= k,
            t@ == seq![argc] + Seq::new(
                2 * i as nat,
                |j: int|
                    if j % 2 == 0 {
                        resolved@[k - 1 - j / 2].0
                    } else {
                        resolved@[k - 1 - j / 2].1
                    },
            ),
        decreases k - i,
    {
        let (key, value) = resolved[k - 1 - i];
        t.push(key);
        t.push(value);
        assert(t@ =~= seq![argc] + Seq::new(
            2 * (i + 1) as nat,
            |j: int|
                if j % 2 == 0 {
                    resolved@[k - 1 - j / 2].0
                } else {
                    resolved@[k - 1 - j / 2].1
                },
        ));
        i = i + 1;
    }
    let ghost head = t@;
    t.push(EXECVE_AUXV_AT_NULL);
    t.push(0);
    t.push(0);
    let mut e: usize = 0;
    let ghost head2 = t@;
    assert(head2 =~= head + seq![EXECVE_AUXV_AT_NULL, 0usize, 0usize]);
    while e < env_ptrs.len()
        invariant
            e <= env_ptrs@.len(),
            t@ == head2 + env_ptrs@.subrange(0, e as int),
        decreases env_ptrs@.len() - e,
    {
        t.push(env_ptrs[e]);
        assert(t@ =~= head2 + env_ptrs@.subrange(0, e + 1));
        e = e + 1;
    }
    t.push(0);
    let ghost head3 = t@;
    assert(head3 =~= head2 + env_ptrs@ + seq![0usize]);
    let mut a: usize = 0;
    while a < arg_ptrs.len()
        invariant
            a <= arg_ptrs@.len(),
            t@ == head3 + arg_ptrs@.subrange(0, a as int),
        decreases arg_ptrs@.len() - a,
    {
        t.push(arg_ptrs[a]);
        assert(t@ =~= head3 + arg_ptrs@.subrange(0, a + 1));
        a = a + 1;
    }
    assert(t@ =~= head3 + arg_ptrs@);
    t
}

/// The lowest address of the copied strings, for a stack whose top is `top`.
pub open spec fn execve_strings_low(top: int, argv: Seq<String>, envp: Seq<String>, aux: Seq<ExecveAuxEntry>) -> int {
    top - bytes_total(string_pushes(argv, envp, aux))
}

/// The final stack pointer: the strings' low end rounded down to a word,
/// minus the word table.
pub open spec fn execve_stack_pointer(top: int, argv: Seq<String>, envp: Seq<String>, aux: Seq<ExecveAuxEntry>) -> int {
    let lo = execve_strings_low(top, argv, envp, aux);
    lo - lo % 8 - 8 * (argv.len() + envp.len() + 2 * aux.len() + 5)
}

/// The parameters pass every check before anything is written.
pub open spec fn execve_stack_args_ok(
    stack_start: u64,
    stack_size: u64,
    argv: Seq<String>,
    envp: Seq<String>,
    aux: Seq<ExecveAuxEntry>,
) -> bool {
    &&& forall|i: int| 0 <= i < aux.len() ==> aux[i].key != EXECVE_AUXV_AT_NULL
    &&& execve_required_total(argv, envp, aux) <= usize::MAX
    &&& execve_required_total(argv, envp, aux) <= stack_size
    &&& stack_start + stack_size <= usize::MAX
}

/// Builds the initial user stack of a new program in
/// `[stack_start, stack_start + stack_size)`: the argument, environment and
/// auxiliary strings and bytes at the top, then, from the returned stack
/// pointer up, the table of `execve_word_table`.
pub fn prepare_execve_user_stack(
    mem: &mut UserMemory,
    stack_start: u64,
    stack_size: u64,
    argv: &[String],
    envp: &[String],
    auxv_entries: &[ExecveAuxEntry],
) -> (r: Result<u64, usize>)
    ensures
        final(mem).base == old(mem).base,
        same_outside(
            final(mem).bytes@,
            old(mem).bytes@,
            old(mem).base as int,
            stack_start as int,
            stack_start + stack_size,
        ),
        !(forall|i: int| 0 <= i < auxv_entries@.len() ==> auxv_entries@[i].key != EXECVE_AUXV_AT_NULL)
            ==> r == Err::<u64, usize>(errno_word(EINVAL)) && *final(mem) == *old(mem),
        (forall|i: int| 0 <= i < auxv_entries@.len() ==> auxv_entries@[i].key != EXECVE_AUXV_AT_NULL)
            && (execve_required_total(argv@, envp@, auxv_entries@) > usize::MAX || execve_required_total(
            argv@,
            envp@,
            auxv_entries@,
        ) > stack_size || stack_start + stack_size > u64::MAX) ==> r == Err::<u64, usize>(
            errno_word(EINVAL),
        ) && *final(mem) == *old(mem),
        (forall|i: int| 0 <= i < auxv_entries@.len() ==> auxv_entries@[i].key != EXECVE_AUXV_AT_NULL)
            && execve_required_total(argv@, envp@, auxv_entries@) <= usize::MAX
            && execve_required_total(argv@, envp@, auxv_entries@) <= stack_size && stack_start
            + stack_size <= u64::MAX && stack_start + stack_size > usize::MAX ==> r == Err::<u64, usize>(
            errno_word(EFAULT),
        ) && *final(mem) == *old(mem),
        execve_stack_args_ok(stack_start, stack_size, argv@, envp@, auxv_entries@) && old(mem).range_ok(
            stack_start as int,
            stack_size as int,
        ) ==> r is Ok,
        r matches Err(e) ==> (execve_stack_args_ok(stack_start, stack_size, argv@, envp@, auxv_entries@)
            ==> e == errno_word(EFAULT) && !old(mem).range_ok(stack_start as int, stack_size as int)),
        r matches Ok(sp) ==> {
            let top = stack_start + stack_size;
            &&& execve_stack_args_ok(stack_start, stack_size, argv@, envp@, auxv_entries@)
            &&& sp == execve_stack_pointer(top, argv@, envp@, auxv_entries@)
            &&& final(mem).bytes@ == store_seq(
                store_seq(
                    old(mem).bytes@,
                    old(mem).base as int,
                    execve_strings_low(top, argv@, envp@, auxv_entries@),
                    rev_concat(string_pushes(argv@, envp@, auxv_entries@)),
                ),
                old(mem).base as int,
                sp as int,
                usize_words_bytes(execve_word_table(top, argv@, envp@, auxv_entries@)),
            )
        },
{
    let ghost orig = *mem;
    if let Err(e) = validate_execve_auxv_entries(auxv_entries) {
        return Err(e);
    }
    let required = match execve_stack_required_bytes(argv, envp, auxv_entries) {
        Some(r) => r,
        None => return Err(linux_errno(EINVAL)),
    };
    if required as u64 > stack_size {
        return Err(linux_errno(EINVAL));
    }
    let word_size: u64 = EXECVE_WORD_BYTES;
    let top = match stack_start.checked_add(stack_size) {
        Some(t) => t,
        None => return Err(linux_errno(EINVAL)),
    };
    if top > usize::MAX as u64 {
        return Err(linux_errno(EFAULT));
    }
    let ghost start = stack_start as int;
    let ghost topi = top as int;
    let ghost a = rev_cstrs(argv@, argv@.len());
    let ghost e = rev_cstrs(envp@, envp@.len());
    let ghost x = aux_items(auxv_entries@, auxv_entries@.len());
    proof {
        lemma_strings_state_empty(orig, topi);
        assert(Seq::<Seq<u8>>::empty() + a =~= a);
        lemma_bytes_total_concat(a, e);
        lemma_bytes_total_concat(a + e, x);
        assert(string_pushes(argv@, envp@, auxv_entries@) == a + e + x);
    }
    let mut sp = top;
    let arg_ptrs = match push_rev_c_strings(
        mem,
        &mut sp,
        argv,
        Ghost(orig),
        Ghost(start),
        Ghost(topi),
        Ghost(Seq::empty()),
    ) {
        Ok(p) => p,
        Err(err) => return Err(err),
    };
    let env_ptrs = match push_rev_c_strings(
        mem,
        &mut sp,
        envp,
        Ghost(orig),
        Ghost(start),
        Ghost(topi),
        Ghost(a),
    ) {
        Ok(p) => p,
        Err(err) => return Err(err),
    };
    let resolved = match push_aux_values(
        mem,
        &mut sp,
        auxv_entries,
        Ghost(orig),
        Ghost(start),
        Ghost(topi),
        Ghost(a + e),
    ) {
        Ok(v) => v,
        Err(err) => return Err(err),
    };
    let ghost lo = sp as int;
    proof {
        lemma_strings_state_frame(*mem, orig, topi, lo, a + e + x);
        assert(sp & !7u64 == sp - sp % 8) by (bit_vector);
    }
    sp = sp & !(word_size - 1);
    let table = build_execve_word_table(argv.len(), &arg_ptrs, &env_ptrs, &resolved);
    proof {
        let want = execve_word_table(topi, argv@, envp@, auxv_entries@);
        assert forall|j: int| 0 <= j < argv@.len() implies arg_ptrs@[j] == (topi - bytes_total(
            rev_cstrs(argv@, (j + 1) as nat),
        )) as usize by {
            assert(Seq::<Seq<u8>>::empty() + rev_cstrs(argv@, (j + 1) as nat) =~= rev_cstrs(
                argv@,
                (j + 1) as nat,
            ));
        }
        assert(table@ =~= want);
    }
    let ghost m1 = *mem;
    match push_table_words(mem, &mut sp, &table, Ghost(orig), Ghost(m1), Ghost(start), Ghost(topi)) {
        Ok(()) => Ok(sp),
        Err(err) => Err(err),
    }
}

/// Word indexes, from the final stack pointer, of the first auxiliary key,
/// of the environment terminator and of the first argument's address.
pub open spec fn layout_indexes(argv_len: int, envp_len: int, auxv_len: int) -> (int, int, int) {
    let envp_null_index = 1 + auxv_len * 2 + 2;
    let argv_null_index = envp_null_index + envp_len + 1;
    (1, envp_null_index, argv_null_index + argv_len)
}

/// Where `prepare_execve_user_stack` puts the first auxiliary entry, the
/// environment terminator and the address of `argv[0]`, in words from the
/// returned stack pointer.
pub fn execve_stack_layout_indexes(argv_len: usize, envp_len: usize, auxv_len: usize) -> (r: (
    usize,
    usize,
    usize,
))
    requires
        argv_len + envp_len + 2 * auxv_len + 4 <= usize::MAX,
    ensures
        (r.0 as int, r.1 as int, r.2 as int) == layout_indexes(
            argv_len as int,
            envp_len as int,
            auxv_len as int,
        ),
{
    let aux_entry_index: usize = 1;
    let envp_null_index = aux_entry_index + (auxv_len * 2) + 2;
    let argv_null_index = envp_null_index + envp_len + 1;
    let first_argv_index = argv_null_index + argv_len;
    (aux_entry_index, envp_null_index, first_argv_index)
}

/// The word indexes of the addresses of `argv[argv_index]` and
/// `envp[envp_index]` (clamped at the ends of the tables).
pub fn execve_stack_pointer_indexes(
    argv_len: usize,
    envp_len: usize,
    auxv_len: usize,
    argv_index: usize,
    envp_index: usize,
) -> (r: (usize, usize))
    requires
        argv_len + envp_len + 2 * auxv_len + 4 <= usize::MAX,
    ensures
        ({
            let (_, en, fa) = layout_indexes(argv_len as int, envp_len as int, auxv_len as int);
            &&& r.0 == (if argv_index <= fa { fa - argv_index } else { 0 })
            &&& r.1 == en + (if envp_index <= envp_len { envp_len - envp_index } else { 0 })
        }),
{
    let (_, envp_null_index, first_argv_index) = execve_stack_layout_indexes(
        argv_len,
        envp_len,
        auxv_len,
    );
    let env_index = envp_null_index + envp_len.saturating_sub(envp_index);
    let arg_index = first_argv_index.saturating_sub(argv_index);
    (arg_index, env_index)
}

/// The indexes of `execve_stack_layout_indexes` find in the word table
/// what the table promises: the argument count at the stack pointer, the
/// auxiliary entries in order from index 1, the terminators, and the
/// address of `envp[j]` and `argv[i]` at the positions the pointer indexes
/// give.
#[verifier::rlimit(50)]
pub proof fn law_execve_layout_matches_table(
    top: int,
    argv: Seq<String>,
    envp: Seq<String>,
    aux: Seq<ExecveAuxEntry>,
)
    ensures
        ({
            let t = execve_word_table(top, argv, envp, aux);
            let (ae, en, fa) = layout_indexes(argv.len() as int, envp.len() as int, aux.len() as int);
            let n = argv.len() as int;
            let m = envp.len() as int;
            &&& t.len() == fa + 1
            &&& t[0] == n as usize
            &&& forall|i: int| 0 <= i < aux.len() ==> t[ae + 2 * i] == aux[i].key && t[ae + 2 * i + 1]
                == aux_word_value(top, rev_cstrs(argv, argv.len()) + rev_cstrs(envp, envp.len()), aux, i)
            &&& t[en - 2] == EXECVE_AUXV_AT_NULL && t[en - 1] == 0 && t[en] == 0
            &&& t[fa - n] == 0
            &&& forall|p: int| en < p <= en + m ==> #[trigger] t[p] == (top - bytes_total(
                rev_cstrs(argv, argv.len()) + rev_cstrs(envp, (p - en) as nat),
            )) as usize
            &&& forall|p: int| fa - n < p <= fa ==> #[trigger] t[p] == (top - bytes_total(
                rev_cstrs(argv, (p - (fa - n)) as nat),
            )) as usize
        }),
{
    let t = execve_word_table(top, argv, envp, aux);
    let n = argv.len() as int;
    let m = envp.len() as int;
    let k = aux.len() as int;
    let a = rev_cstrs(argv, argv.len());
    let e = rev_cstrs(envp, envp.len());
    let pairs = Seq::new(
        (2 * k) as nat,
        |j: int|
            if j % 2 == 0 {
                aux[j / 2].key
            } else {
                aux_word_value(top, a + e, aux, j / 2)
            },
    );
    let envs = Seq::new(m as nat, |j: int| (top - bytes_total(a + rev_cstrs(envp, (j + 1) as nat))) as usize);
    let args = Seq::new(n as nat, |j: int| (top - bytes_total(rev_cstrs(argv, (j + 1) as nat))) as usize);
    let p1 = seq![n as usize] + pairs;
    let p2 = p1 + seq![EXECVE_AUXV_AT_NULL, 0usize, 0usize];
    let p3 = p2 + envs;
    let p4 = p3 + seq![0usize];
    assert(t == p4 + args);
    assert(p1.len() == 1 + 2 * k);
    assert(p2.len() == 1 + 2 * k + 3);
    assert(p3.len() == 1 + 2 * k + 3 + m);
    assert(p4.len() == 1 + 2 * k + 3 + m + 1);
    assert forall|i: int| 0 <= i < aux.len() implies t[1 + 2 * i] == aux[i].key && t[1 + 2 * i + 1]
        == aux_word_value(top, a + e, aux, i) by {
        assert(t[1 + 2 * i] == pairs[2 * i]);
        assert(t[1 + 2 * i + 1] == pairs[2 * i + 1]);
        assert((2 * i) / 2 == i);
        assert((2 * i + 1) / 2 == i);
        assert((2 * i) % 2 == 0);
        assert((2 * i + 1) % 2 == 1);
    }
    let en = 1 + 2 * k + 2;
    assert forall|p: int| en < p <= en + m implies #[trigger] t[p] == (top - bytes_total(
        a + rev_cstrs(envp, (p - en) as nat),
    )) as usize by {
        assert(t[p] == envs[p - en - 1]);
    }
    let fa = en + m + 1 + n;
    assert forall|p: int| fa - n < p <= fa implies #[trigger] t[p] == (top - bytes_total(
        rev_cstrs(argv, (p - (fa - n)) as nat),
    )) as usize by {
        assert(t[p] == args[p - (fa - n) - 1]);
    }
}

} // verus!
