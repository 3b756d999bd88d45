use vstd::prelude::*;

use crate::consts::USER_CSTRING_MAX_LEN;
use crate::errno::{errno_word, linux_errno, EBADF, EFAULT, EINVAL, ENOENT, ENOEXEC};
use crate::exec_stack::{
    execve_required_total, execve_stack_args_ok, execve_stack_pointer, execve_strings_low, execve_word_table, EXECVE_AUXV_AT_NULL,
    prepare_execve_user_stack, rev_concat, string_pushes, ExecveAuxEntry, ExecveAuxValue, EXECVE_AUXV_AT_BASE, EXECVE_AUXV_AT_CLKTCK, EXECVE_AUXV_AT_EGID,
    EXECVE_AUXV_AT_ENTRY, EXECVE_AUXV_AT_EUID, EXECVE_AUXV_AT_EXECFN, EXECVE_AUXV_AT_FLAGS,
    EXECVE_AUXV_AT_GID, EXECVE_AUXV_AT_HWCAP, EXECVE_AUXV_AT_HWCAP2, EXECVE_AUXV_AT_PAGESZ,
    EXECVE_AUXV_AT_PHDR, EXECVE_AUXV_AT_PHENT, EXECVE_AUXV_AT_PHNUM, EXECVE_AUXV_AT_PLATFORM,
    EXECVE_AUXV_AT_RANDOM, EXECVE_AUXV_AT_SECURE, EXECVE_AUXV_AT_SYSINFO_EHDR, EXECVE_AUXV_AT_UID,
};
use crate::user_memory::{same_outside, store_seq, u64_le_bytes, u64_to_le_bytes, usize_words_bytes, UserMemory};
use vstd::utf8::encode_utf8;
use crate::user_string::{
    c_string_array_outcome, c_string_outcome, read_user_c_string, read_user_c_string_allow_empty, read_user_c_string_array,
    string_array_result_view, string_result_view, strings_view,
};

verus! {

/// The most argument or environment strings `execve` reads.
pub const EXECVE_MAX_VECTOR_ITEMS: usize = 256;

/// The stack size of a new program.
pub const EXECVE_STACK_BYTES: u64 = 8192;

/// `dirfd` that stands for the working directory.
pub const LINUX_AT_FDCWD: isize = -100;

/// `*at` flag: an empty path names `dirfd` itself.
pub const AT_EMPTY_PATH: usize = 0x1000;

/// `*at` flag: do not follow a final symbolic link.
pub const AT_SYMLINK_NOFOLLOW: usize = 0x100;

/// A program needs an entry point.
pub fn validate_exec_entry_point(entry_val: usize) -> (r: Result<(), usize>)
    ensures
        entry_val == 0 ==> r == Err::<(), usize>(errno_word(ENOEXEC)),
        entry_val != 0 ==> r is Ok,
{
    if entry_val == 0 {
        return Err(linux_errno(ENOEXEC));
    }
    Ok(())
}

/// The program header triple, when all three are set and an entry is 16 to
/// 4096 bytes long.
pub fn sanitized_phdr_aux_values(phdr_addr: usize, phent_size: usize, phnum: usize) -> (r: Option<
    (usize, usize, usize),
>)
    ensures
        (phdr_addr != 0 && 16 <= phent_size <= 4096 && phnum != 0) ==> r == Some(
            (phdr_addr, phent_size, phnum),
        ),
        !(phdr_addr != 0 && 16 <= phent_size <= 4096 && phnum != 0) ==> r is None,
{
    if phdr_addr == 0 || phent_size == 0 || phnum == 0 {
        return None;
    }
    if !(16 <= phent_size && phent_size <= 4096) {
        return None;
    }
    Some((phdr_addr, phent_size, phnum))
}

/// What the loaded image tells the auxiliary vector.
#[derive(Debug, Clone, Copy, PartialEq, Eq, Structural)]
pub struct ExecAuxState {
    pub entry: usize,
    pub base: usize,
    pub phdr_addr: usize,
    pub phent_size: usize,
    pub phnum: usize,
    pub vdso_base: usize,
}

/// The credentials of the calling process.
#[derive(Debug, Clone, Copy, PartialEq, Eq, Structural)]
pub struct ExecCredentials {
    pub uid: usize,
    pub euid: usize,
    pub gid: usize,
    pub egid: usize,
}

/// `AT_SECURE`: set when the effective ids differ from the real ones.
pub fn execve_secure(cred: &ExecCredentials) -> (r: usize)
    ensures
        r == (if cred.uid != cred.euid || cred.gid != cred.egid { 1usize } else { 0usize }),
{
    if cred.uid != cred.euid || cred.gid != cred.egid {
        1
    } else {
        0
    }
}

/// `x` rotated left by 17 bits.
pub open spec fn rotl17(x: u64) -> u64 {
    (x << 17u64) | (x >> 47u64)
}

/// The sixteen `AT_RANDOM` bytes: the time stamp, then the time stamp
/// rotated left by 17 bits mixed with the entry and base addresses, both
/// little-endian.
pub open spec fn at_random_bytes(tsc: u64, entry: usize, base: usize) -> Seq<u8> {
    u64_le_bytes(tsc) + u64_le_bytes(rotl17(tsc) ^ (entry as u64) ^ (base as u64))
}

/// Builds the `AT_RANDOM` bytes.
pub fn execve_at_random(tsc: u64, entry: usize, base: usize) -> (r: Vec<u8>)
    ensures
        r@ == at_random_bytes(tsc, entry, base),
{
    let mut out = u64_to_le_bytes(tsc);
    let mixed = ((tsc << 17u64) | (tsc >> 47u64)) ^ (entry as u64) ^ (base as u64);
    let tail = u64_to_le_bytes(mixed);
    out.extend_from_slice(tail.as_slice());
    out
}

/// The auxiliary vector of a new program, in order.
pub open spec fn execve_auxv_spec<'a>(
    st: ExecAuxState,
    cred: ExecCredentials,
    hwcap: usize,
    hwcap2: usize,
    platform: &'a str,
    at_random: &'a [u8],
    execfn: &'a str,
) -> Seq<ExecveAuxEntry<'a>> {
    let secure: usize = if cred.uid != cred.euid || cred.gid != cred.egid { 1 } else { 0 };
    let head = seq![
        ExecveAuxEntry { key: EXECVE_AUXV_AT_ENTRY, value: ExecveAuxValue::Word(st.entry) },
        ExecveAuxEntry { key: EXECVE_AUXV_AT_PAGESZ, value: ExecveAuxValue::Word(4096) },
        ExecveAuxEntry { key: EXECVE_AUXV_AT_BASE, value: ExecveAuxValue::Word(st.base) },
        ExecveAuxEntry { key: EXECVE_AUXV_AT_FLAGS, value: ExecveAuxValue::Word(0) },
        ExecveAuxEntry { key: EXECVE_AUXV_AT_UID, value: ExecveAuxValue::Word(cred.uid) },
        ExecveAuxEntry { key: EXECVE_AUXV_AT_EUID, value: ExecveAuxValue::Word(cred.euid) },
        ExecveAuxEntry { key: EXECVE_AUXV_AT_GID, value: ExecveAuxValue::Word(cred.gid) },
        ExecveAuxEntry { key: EXECVE_AUXV_AT_EGID, value: ExecveAuxValue::Word(cred.egid) },
        ExecveAuxEntry { key: EXECVE_AUXV_AT_SECURE, value: ExecveAuxValue::Word(secure) },
        ExecveAuxEntry { key: EXECVE_AUXV_AT_HWCAP, value: ExecveAuxValue::Word(hwcap) },
        ExecveAuxEntry { key: EXECVE_AUXV_AT_CLKTCK, value: ExecveAuxValue::Word(100) },
        ExecveAuxEntry { key: EXECVE_AUXV_AT_PLATFORM, value: ExecveAuxValue::CString(platform) },
        ExecveAuxEntry { key: EXECVE_AUXV_AT_RANDOM, value: ExecveAuxValue::Bytes(at_random) },
        ExecveAuxEntry { key: EXECVE_AUXV_AT_HWCAP2, value: ExecveAuxValue::Word(hwcap2) },
    ];
    let ph = if st.phdr_addr != 0 && 16 <= st.phent_size <= 4096 && st.phnum != 0 {
        seq![
            ExecveAuxEntry { key: EXECVE_AUXV_AT_PHDR, value: ExecveAuxValue::Word(st.phdr_addr) },
            ExecveAuxEntry { key: EXECVE_AUXV_AT_PHENT, value: ExecveAuxValue::Word(st.phent_size) },
            ExecveAuxEntry { key: EXECVE_AUXV_AT_PHNUM, value: ExecveAuxValue::Word(st.phnum) },
        ]
    } else {
        Seq::empty()
    };
    head + ph + seq![
        ExecveAuxEntry { key: EXECVE_AUXV_AT_EXECFN, value: ExecveAuxValue::CString(execfn) },
        ExecveAuxEntry { key: EXECVE_AUXV_AT_SYSINFO_EHDR, value: ExecveAuxValue::Word(st.vdso_base) },
    ]
}

/// Builds the auxiliary vector of a new program: entry, page size, base,
/// flags, credentials, `AT_SECURE`, hardware capabilities, clock tick,
/// platform, random bytes, the program headers when they are sane, the
/// executable's name and the vDSO.
pub fn execve_auxv_entries<'a>(
    st: &ExecAuxState,
    cred: &ExecCredentials,
    hwcap: usize,
    hwcap2: usize,
    platform: &'a str,
    at_random: &'a [u8],
    execfn: &'a str,
) -> (r: Vec<ExecveAuxEntry<'a>>)
    ensures
        r@ == execve_auxv_spec(*st, *cred, hwcap, hwcap2, platform, at_random, execfn),
{
    let secure = execve_secure(cred);
    let phdr_aux = sanitized_phdr_aux_values(st.phdr_addr, st.phent_size, st.phnum);
    let mut v: Vec<ExecveAuxEntry<'a>> = Vec::new();
    v.push(ExecveAuxEntry { key: EXECVE_AUXV_AT_ENTRY, value: ExecveAuxValue::Word(st.entry) });
    v.push(ExecveAuxEntry { key: EXECVE_AUXV_AT_PAGESZ, value: ExecveAuxValue::Word(4096) });
    v.push(ExecveAuxEntry { key: EXECVE_AUXV_AT_BASE, value: ExecveAuxValue::Word(st.base) });
    v.push(ExecveAuxEntry { key: EXECVE_AUXV_AT_FLAGS, value: ExecveAuxValue::Word(0) });
    v.push(ExecveAuxEntry { key: EXECVE_AUXV_AT_UID, value: ExecveAuxValue::Word(cred.uid) });
    v.push(ExecveAuxEntry { key: EXECVE_AUXV_AT_EUID, value: ExecveAuxValue::Word(cred.euid) });
    v.push(ExecveAuxEntry { key: EXECVE_AUXV_AT_GID, value: ExecveAuxValue::Word(cred.gid) });
    v.push(ExecveAuxEntry { key: EXECVE_AUXV_AT_EGID, value: ExecveAuxValue::Word(cred.egid) });
    v.push(ExecveAuxEntry { key: EXECVE_AUXV_AT_SECURE, value: ExecveAuxValue::Word(secure) });
    v.push(ExecveAuxEntry { key: EXECVE_AUXV_AT_HWCAP, value: ExecveAuxValue::Word(hwcap) });
    v.push(ExecveAuxEntry { key: EXECVE_AUXV_AT_CLKTCK, value: ExecveAuxValue::Word(100) });
    v.push(ExecveAuxEntry { key: EXECVE_AUXV_AT_PLATFORM, value: ExecveAuxValue::CString(platform) });
    v.push(ExecveAuxEntry { key: EXECVE_AUXV_AT_RANDOM, value: ExecveAuxValue::Bytes(at_random) });
    v.push(ExecveAuxEntry { key: EXECVE_AUXV_AT_HWCAP2, value: ExecveAuxValue::Word(hwcap2) });
    if let Some((phdr_addr, phent_size, phnum)) = phdr_aux {
        v.push(ExecveAuxEntry { key: EXECVE_AUXV_AT_PHDR, value: ExecveAuxValue::Word(phdr_addr) });
        v.push(ExecveAuxEntry { key: EXECVE_AUXV_AT_PHENT, value: ExecveAuxValue::Word(phent_size) });
        v.push(ExecveAuxEntry { key: EXECVE_AUXV_AT_PHNUM, value: ExecveAuxValue::Word(phnum) });
    }
    v.push(ExecveAuxEntry { key: EXECVE_AUXV_AT_EXECFN, value: ExecveAuxValue::CString(execfn) });
    v.push(
        ExecveAuxEntry { key: EXECVE_AUXV_AT_SYSINFO_EHDR, value: ExecveAuxValue::Word(st.vdso_base) },
    );
    assert(v@ =~= execve_auxv_spec(*st, *cred, hwcap, hwcap2, platform, at_random, execfn));
    v
}

/// The user stack of a program `execve` just loaded: checks its entry
/// point, builds its auxiliary vector (with `at_random` as the `AT_RANDOM`
/// bytes) and lays out the arguments, environment and auxiliary vector in
/// `[stack_start, stack_start + stack_size)`; gives the new stack pointer.
#[verifier::rlimit(30)]
pub fn execve_build_user_stack(
    mem: &mut UserMemory,
    stack_start: u64,
    stack_size: u64,
    argv: &[String],
    envp: &[String],
    st: &ExecAuxState,
    cred: &ExecCredentials,
    hwcap: usize,
    hwcap2: usize,
    platform: &str,
    at_random: &[u8],
    execfn: &str,
) -> (r: Result<u64, usize>)
    ensures
        final(mem).base == old(mem).base,
        st.entry == 0 ==> r == Err::<u64, usize>(errno_word(ENOEXEC)) && *final(mem) == *old(mem),
        st.entry != 0 ==> {
            let aux = execve_auxv_spec(*st, *cred, hwcap, hwcap2, platform, at_random, execfn);
            let top = stack_start + stack_size;
            &&& same_outside(
                final(mem).bytes@,
                old(mem).bytes@,
                old(mem).base as int,
                stack_start as int,
                stack_start + stack_size,
            )
            &&& (execve_required_total(argv@, envp@, aux) > usize::MAX || execve_required_total(
                argv@,
                envp@,
                aux,
            ) > stack_size || top > u64::MAX) ==> r == Err::<u64, usize>(errno_word(EINVAL))
                && *final(mem) == *old(mem)
            &&& execve_required_total(argv@, envp@, aux) <= usize::MAX && execve_required_total(
                argv@,
                envp@,
                aux,
            ) <= stack_size && top <= u64::MAX && top > usize::MAX ==> r == Err::<u64, usize>(
                errno_word(EFAULT),
            ) && *final(mem) == *old(mem)
            &&& execve_stack_args_ok(stack_start, stack_size, argv@, envp@, aux) && old(mem).range_ok(
                stack_start as int,
                stack_size as int,
            ) ==> r is Ok
            &&& r matches Err(e) ==> (execve_stack_args_ok(stack_start, stack_size, argv@, envp@, aux)
                ==> e == errno_word(EFAULT))
            &&& r matches Ok(sp) ==> sp == execve_stack_pointer(top, argv@, envp@, aux)
                && final(mem).bytes@ == store_seq(
                store_seq(
                    old(mem).bytes@,
                    old(mem).base as int,
                    execve_strings_low(top, argv@, envp@, aux),
                    rev_concat(string_pushes(argv@, envp@, aux)),
                ),
                old(mem).base as int,
                sp as int,
                usize_words_bytes(execve_word_table(top, argv@, envp@, aux)),
            )
        },
{
    if let Err(e) = validate_exec_entry_point(st.entry) {
        return Err(e);
    }
    let auxv = execve_auxv_entries(st, cred, hwcap, hwcap2, platform, at_random, execfn);
    let ghost aux = auxv@;
    proof {
        assert forall|i: int| 0 <= i < aux.len() implies aux[i].key != EXECVE_AUXV_AT_NULL by {
            assert(aux[i].key != 0);
        }
    }
    prepare_execve_user_stack(mem, stack_start, stack_size, argv, envp, auxv.as_slice())
}

/// `execve` up to loading the program: reads the path.
pub fn sys_linux_execve(mem: &UserMemory, path_ptr: usize) -> (r: Result<String, usize>)
    ensures
        string_result_view(r) == c_string_outcome(*mem, path_ptr, USER_CSTRING_MAX_LEN, false),
{
    read_user_c_string(mem, path_ptr, USER_CSTRING_MAX_LEN)
}

/// Reads the argument and environment vectors of `execve`, at most
/// `EXECVE_MAX_VECTOR_ITEMS` strings of fewer than `USER_CSTRING_MAX_LEN`
/// bytes each.
pub fn read_execve_vectors(mem: &UserMemory, argv_ptr: usize, envp_ptr: usize) -> (r: Result<
    (Vec<String>, Vec<String>),
    usize,
>)
    ensures
        c_string_array_outcome(*mem, argv_ptr, 256, 4096) matches Err(e) ==> r == Err::<
            (Vec<String>, Vec<String>),
            usize,
        >(e),
        c_string_array_outcome(*mem, envp_ptr, 256, 4096) matches Err(e) ==> (c_string_array_outcome(
            *mem,
            argv_ptr,
            256,
            4096,
        ) is Ok ==> r == Err::<(Vec<String>, Vec<String>), usize>(e)),
        r matches Ok((a, e)) ==> Ok::<Seq<Seq<char>>, usize>(strings_view(a@))
            == c_string_array_outcome(*mem, argv_ptr, 256, 4096) && Ok::<Seq<Seq<char>>, usize>(
            strings_view(e@),
        ) == c_string_array_outcome(*mem, envp_ptr, 256, 4096),
        (c_string_array_outcome(*mem, argv_ptr, 256, 4096) is Ok && c_string_array_outcome(
            *mem,
            envp_ptr,
            256,
            4096,
        ) is Ok) ==> r is Ok,
{
    let argv = read_user_c_string_array(mem, argv_ptr, EXECVE_MAX_VECTOR_ITEMS, USER_CSTRING_MAX_LEN);
    let argv = match argv {
        Ok(v) => v,
        Err(e) => return Err(e),
    };
    let envp = read_user_c_string_array(mem, envp_ptr, EXECVE_MAX_VECTOR_ITEMS, USER_CSTRING_MAX_LEN);
    let envp = match envp {
        Ok(v) => v,
        Err(e) => return Err(e),
    };
    Ok((argv, envp))
}

/// The program `execveat` names.
#[derive(Debug)]
pub enum ExecveatTarget {
    /// The path itself (absolute, or relative to the working directory).
    Path(String),
    /// The file open at this descriptor (`AT_EMPTY_PATH`).
    OpenFile(u32),
    /// The path relative to the directory open at the descriptor.
    InDirectory(u32, String),
}

/// Whether `s` starts with `/`.
fn starts_with_slash(s: &str) -> (r: bool)
    ensures
        r == (encode_utf8(s@).len() > 0 && encode_utf8(s@)[0] == 0x2fu8),
{
    let b = s.as_bytes();
    b.len() > 0 && b[0] == 0x2fu8
}

/// Works out what `execveat(dirfd, path, flags)` runs.  An empty path
/// needs `AT_EMPTY_PATH` and an open descriptor; a relative path with a
/// descriptor other than `AT_FDCWD` needs it to be open.
pub fn resolve_execveat_path(dirfd: isize, path: &str, flags: usize) -> (r: Result<ExecveatTarget, usize>)
    ensures
        path@.len() == 0 && flags & AT_EMPTY_PATH == 0 ==> (r matches Err(e) && e == errno_word(ENOENT)),
        path@.len() == 0 && flags & AT_EMPTY_PATH != 0 && dirfd < 0 ==> (r matches Err(e) && e
            == errno_word(EBADF)),
        path@.len() == 0 && flags & AT_EMPTY_PATH != 0 && dirfd >= 0 ==> (r matches Ok(
            ExecveatTarget::OpenFile(fd),
        ) && fd == dirfd as u32),
        path@.len() != 0 && ((encode_utf8(path@).len() > 0 && encode_utf8(path@)[0] == 0x2fu8) || dirfd
            == LINUX_AT_FDCWD) ==> (r matches Ok(ExecveatTarget::Path(p)) && p@ == path@),
        path@.len() != 0 && !((encode_utf8(path@).len() > 0 && encode_utf8(path@)[0] == 0x2fu8) || dirfd
            == LINUX_AT_FDCWD) && dirfd < 0 ==> (r matches Err(e) && e == errno_word(EBADF)),
        path@.len() != 0 && !((encode_utf8(path@).len() > 0 && encode_utf8(path@)[0] == 0x2fu8) || dirfd
            == LINUX_AT_FDCWD) && dirfd >= 0 ==> (r matches Ok(ExecveatTarget::InDirectory(fd, p)) && fd
            == dirfd as u32 && p@ == path@),
{
    if path.is_empty() {
        if (flags & AT_EMPTY_PATH) == 0 {
            return Err(linux_errno(ENOENT));
        }
        if dirfd < 0 {
            return Err(linux_errno(EBADF));
        }
        return Ok(ExecveatTarget::OpenFile(dirfd as u32));
    }
    if starts_with_slash(path) || dirfd == LINUX_AT_FDCWD {
        return Ok(ExecveatTarget::Path(path.to_owned()));
    }
    if dirfd < 0 {
        return Err(linux_errno(EBADF));
    }
    Ok(ExecveatTarget::InDirectory(dirfd as u32, path.to_owned()))
}

/// `execveat`: checks the flags, reads the path and works out the program.
pub fn sys_linux_execveat(mem: &UserMemory, dirfd: isize, path_ptr: usize, flags: usize) -> (r: Result<
    ExecveatTarget,
    usize,
>)
    ensures
        flags & !(AT_EMPTY_PATH | AT_SYMLINK_NOFOLLOW) != 0 ==> (r matches Err(e) && e == errno_word(
            EINVAL,
        )),
        flags & !(AT_EMPTY_PATH | AT_SYMLINK_NOFOLLOW) == 0 ==> (c_string_outcome(
            *mem,
            path_ptr,
            USER_CSTRING_MAX_LEN,
            true,
        ) matches Err(e) ==> (r matches Err(e2) && e2 == e)),
        flags & !(AT_EMPTY_PATH | AT_SYMLINK_NOFOLLOW) == 0 ==> (c_string_outcome(
            *mem,
            path_ptr,
            USER_CSTRING_MAX_LEN,
            true,
        ) matches Ok(chars) ==> {
            let abs = encode_utf8_first_is_slash(chars);
            &&& chars.len() == 0 && flags & AT_EMPTY_PATH == 0 ==> (r matches Err(e) && e == errno_word(
                ENOENT,
            ))
            &&& chars.len() == 0 && flags & AT_EMPTY_PATH != 0 && dirfd < 0 ==> (r matches Err(e) && e
                == errno_word(EBADF))
            &&& chars.len() == 0 && flags & AT_EMPTY_PATH != 0 && dirfd >= 0 ==> (r matches Ok(
                ExecveatTarget::OpenFile(fd),
            ) && fd == dirfd as u32)
            &&& chars.len() != 0 && (abs || dirfd == LINUX_AT_FDCWD) ==> (r matches Ok(
                ExecveatTarget::Path(p),
            ) && p@ == chars)
            &&& chars.len() != 0 && !(abs || dirfd == LINUX_AT_FDCWD) && dirfd < 0 ==> (r matches Err(e)
                && e == errno_word(EBADF))
            &&& chars.len() != 0 && !(abs || dirfd == LINUX_AT_FDCWD) && dirfd >= 0 ==> (r matches Ok(
                ExecveatTarget::InDirectory(fd, p),
            ) && fd == dirfd as u32 && p@ == chars)
        }),
{
    if (flags & !(AT_EMPTY_PATH | AT_SYMLINK_NOFOLLOW)) != 0 {
        return Err(linux_errno(EINVAL));
    }
    let path = match read_user_c_string_allow_empty(mem, path_ptr, USER_CSTRING_MAX_LEN) {
        Ok(p) => p,
        Err(e) => return Err(e),
    };
    let s = path.as_str();
    proof {
        assert(string_result_view(Ok::<String, usize>(path)) == Ok::<Seq<char>, usize>(s@));
    }
    resolve_execveat_path(dirfd, s, flags)
}

/// Whether the UTF-8 encoding of `chars` starts with `/`.
pub open spec fn encode_utf8_first_is_slash(chars: Seq<char>) -> bool {
    encode_utf8(chars).len() > 0 && encode_utf8(chars)[0] == 0x2fu8
}

/// The auxiliary vector built for a new program is one the stack builder
/// accepts: it never holds the terminator key, starts with the entry point
/// and ends with the vDSO, with the program headers only when they are sane.
pub proof fn law_execve_auxv_is_well_formed(
    st: ExecAuxState,
    cred: ExecCredentials,
    hwcap: usize,
    hwcap2: usize,
    platform: &str,
    at_random: &[u8],
    execfn: &str,
)
    ensures
        ({
            let aux = execve_auxv_spec(st, cred, hwcap, hwcap2, platform, at_random, execfn);
            let sane = st.phdr_addr != 0 && 16 <= st.phent_size <= 4096 && st.phnum != 0;
            &&& forall|i: int| 0 <= i < aux.len() ==> aux[i].key != EXECVE_AUXV_AT_NULL
            &&& aux.len() == if sane { 19int } else { 16int }
            &&& aux[0].key == EXECVE_AUXV_AT_ENTRY && aux[0].value == ExecveAuxValue::Word(st.entry)
            &&& aux[aux.len() - 1].key == EXECVE_AUXV_AT_SYSINFO_EHDR
        }),
{
    let aux = execve_auxv_spec(st, cred, hwcap, hwcap2, platform, at_random, execfn);
    assert forall|i: int| 0 <= i < aux.len() implies aux[i].key != EXECVE_AUXV_AT_NULL by {
        assert(aux[i].key != 0);
    }
}

/// The auxiliary vector gives each credential under its own key: exactly
/// one entry carries each of `AT_UID` (11), `AT_EUID` (12), `AT_GID` (13)
/// and `AT_EGID` (14), and it holds the real user id, the effective user
/// id, the real group id and the effective group id respectively.
pub proof fn law_execve_auxv_credentials(
    st: ExecAuxState,
    cred: ExecCredentials,
    hwcap: usize,
    hwcap2: usize,
    platform: &str,
    at_random: &[u8],
    execfn: &str,
)
    ensures
        ({
            let aux = execve_auxv_spec(st, cred, hwcap, hwcap2, platform, at_random, execfn);
            &&& forall|i: int| 0 <= i < aux.len() && aux[i].key == 11 ==> aux[i].value == ExecveAuxValue::Word(cred.uid)
            &&& forall|i: int| 0 <= i < aux.len() && aux[i].key == 12 ==> aux[i].value == ExecveAuxValue::Word(cred.euid)
            &&& forall|i: int| 0 <= i < aux.len() && aux[i].key == 13 ==> aux[i].value == ExecveAuxValue::Word(cred.gid)
            &&& forall|i: int| 0 <= i < aux.len() && aux[i].key == 14 ==> aux[i].value == ExecveAuxValue::Word(cred.egid)
            &&& exists|i: int| 0 <= i < aux.len() && aux[i].key == 11
            &&& exists|i: int| 0 <= i < aux.len() && aux[i].key == 12
            &&& exists|i: int| 0 <= i < aux.len() && aux[i].key == 13
            &&& exists|i: int| 0 <= i < aux.len() && aux[i].key == 14
            &&& forall|i: int, j: int| 0 <= i < j < aux.len() && 11 <= aux[i].key <= 14 ==> aux[i].key != aux[j].key
        }),
{
    let aux = execve_auxv_spec(st, cred, hwcap, hwcap2, platform, at_random, execfn);
    let sane = st.phdr_addr != 0 && 16 <= st.phent_size <= 4096 && st.phnum != 0;
    assert(aux.len() == if sane { 19int } else { 16int });
    assert(aux[4].key == 11 && aux[5].key == 12 && aux[6].key == 13 && aux[7].key == 14);
    assert forall|i: int| 0 <= i < aux.len() && 11 <= aux[i].key <= 14 implies 4 <= i <= 7 && aux[i].key == i + 7 by {
        if i > 7 {
            assert(aux[i].key != 11 && aux[i].key != 12 && aux[i].key != 13 && aux[i].key != 14);
        }
    }
}

/// Ends a successful `execve`: the effective entry point of the calling
/// process (`None` when the process could not be found) is left pending
/// for the return to user space, which jumps there; `execve` returns zero
/// either way.
pub fn execve_commit(pending_entry: &mut usize, effective_entry: Option<usize>) -> (r: usize)
    ensures
        r == 0,
        effective_entry matches Some(e) ==> *final(pending_entry) == e,
        effective_entry is None ==> *final(pending_entry) == *old(pending_entry),
{
    if let Some(e) = effective_entry {
        *pending_entry = e;
    }
    0
}

} // verus!
