use lib::errno::{linux_errno, EBADF, EFAULT, EINVAL, ENOENT, ENOEXEC};
use lib::exec::{
    execve_at_random, execve_auxv_entries, execve_build_user_stack, execve_secure, read_execve_vectors, resolve_execveat_path,
    sanitized_phdr_aux_values, sys_linux_execve, sys_linux_execveat, validate_exec_entry_point, ExecAuxState, ExecCredentials,
    ExecveatTarget, AT_EMPTY_PATH, LINUX_AT_FDCWD,
};
use lib::exec_stack::{execve_stack_layout_indexes, ExecveAuxValue, EXECVE_AUXV_AT_ENTRY, EXECVE_AUXV_AT_EXECFN, EXECVE_AUXV_AT_PHDR, EXECVE_AUXV_AT_SECURE};
use lib::user_memory::UserMemory;

const BASE: usize = 0x10000;

fn mem_with(at: usize, bytes: &[u8]) -> UserMemory {
    let mut m = UserMemory::new(BASE, 512);
    assert!(m.write_bytes(at, bytes));
    m
}

#[test]
fn sys_linux_execve_invalid_path_pointer_returns_efault_or_enosys() {
    let m = UserMemory::new(BASE, 64);
    let rc = sys_linux_execveat(&m, LINUX_AT_FDCWD, 0, 0);
    assert!(matches!(rc, Err(e) if e == linux_errno(EFAULT)));
}

#[test]
fn sys_linux_execveat_rejects_unknown_flags() {
    let m = mem_with(BASE, b"/bin/true\0");
    let rc = sys_linux_execveat(&m, LINUX_AT_FDCWD, BASE, 0x4000);
    assert!(matches!(rc, Err(e) if e == linux_errno(EINVAL)));
}

#[test]
fn sys_linux_execveat_empty_path_without_flag_fails() {
    let m = mem_with(BASE, b"\0");
    let rc = sys_linux_execveat(&m, LINUX_AT_FDCWD, BASE, 0);
    assert!(matches!(rc, Err(e) if e == linux_errno(ENOENT)));
}

#[test]
fn sys_linux_execveat_empty_path_with_flag_uses_dirfd() {
    let m = mem_with(BASE, b"\0");
    assert!(matches!(sys_linux_execveat(&m, 5, BASE, AT_EMPTY_PATH), Ok(ExecveatTarget::OpenFile(5))));
    assert!(matches!(sys_linux_execveat(&m, -5, BASE, AT_EMPTY_PATH), Err(e) if e == linux_errno(EBADF)));
}

#[test]
fn sys_linux_execveat_relative_path_invalid_dirfd_returns_ebadf() {
    let m = mem_with(BASE, b"bin/true\0");
    let rc = sys_linux_execveat(&m, -5, BASE, 0);
    assert!(matches!(rc, Err(e) if e == linux_errno(EBADF)));
}

#[test]
fn execveat_resolution_of_absolute_and_relative_paths() {
    assert!(matches!(resolve_execveat_path(3, "/bin/true", 0), Ok(ExecveatTarget::Path(p)) if p == "/bin/true"));
    assert!(matches!(resolve_execveat_path(LINUX_AT_FDCWD, "true", 0), Ok(ExecveatTarget::Path(p)) if p == "true"));
    assert!(
        matches!(resolve_execveat_path(4, "true", 0), Ok(ExecveatTarget::InDirectory(4, p)) if p == "true")
    );
}

#[test]
fn validate_exec_entry_point_rejects_zero_entry() {
    assert_eq!(validate_exec_entry_point(0), Err(linux_errno(ENOEXEC)));
    assert_eq!(validate_exec_entry_point(0x1000), Ok(()));
}

#[test]
fn sanitized_phdr_aux_values_accepts_only_sane_tuple() {
    assert_eq!(sanitized_phdr_aux_values(0, 56, 9), None);
    assert_eq!(sanitized_phdr_aux_values(0x4000, 0, 9), None);
    assert_eq!(sanitized_phdr_aux_values(0x4000, 8, 9), None);
    assert_eq!(sanitized_phdr_aux_values(0x4000, 8192, 9), None);
    assert_eq!(sanitized_phdr_aux_values(0x4000, 56, 0), None);
    assert_eq!(sanitized_phdr_aux_values(0x4000, 56, 9), Some((0x4000, 56, 9)));
}

#[test]
fn secure_mode_follows_credentials() {
    assert_eq!(execve_secure(&ExecCredentials { uid: 1, euid: 1, gid: 2, egid: 2 }), 0);
    assert_eq!(execve_secure(&ExecCredentials { uid: 1, euid: 0, gid: 2, egid: 2 }), 1);
    assert_eq!(execve_secure(&ExecCredentials { uid: 1, euid: 1, gid: 2, egid: 3 }), 1);
}

#[test]
fn at_random_mixes_time_stamp_entry_and_base() {
    let r = execve_at_random(1, 0, 0);
    assert_eq!(r.len(), 16);
    assert_eq!(&r[..8], &[1, 0, 0, 0, 0, 0, 0, 0]);
    assert_eq!(&r[8..], &(1u64 << 17).to_le_bytes());
    let r2 = execve_at_random(0, 0x10, 0x01);
    assert_eq!(&r2[8..], &0x11u64.to_le_bytes());
}

#[test]
fn auxv_entries_layout() {
    let st = ExecAuxState { entry: 0x401000, base: 0, phdr_addr: 0x400040, phent_size: 56, phnum: 9, vdso_base: 0x7000 };
    let cred = ExecCredentials { uid: 0, euid: 0, gid: 0, egid: 0 };
    let rnd = [7u8; 16];
    let v = execve_auxv_entries(&st, &cred, 1, 2, "x86_64", &rnd, "/bin/app");
    assert_eq!(v.len(), 19);
    assert_eq!(v[0].key, EXECVE_AUXV_AT_ENTRY);
    assert!(matches!(v[0].value, ExecveAuxValue::Word(0x401000)));
    assert_eq!(v[8].key, EXECVE_AUXV_AT_SECURE);
    assert!(matches!(v[8].value, ExecveAuxValue::Word(0)));
    assert_eq!(v[14].key, EXECVE_AUXV_AT_PHDR);
    assert_eq!(v[17].key, EXECVE_AUXV_AT_EXECFN);
    assert!(matches!(v[17].value, ExecveAuxValue::CString("/bin/app")));
    let insane = ExecAuxState { phent_size: 8, ..st };
    assert_eq!(execve_auxv_entries(&insane, &cred, 1, 2, "x86_64", &rnd, "/bin/app").len(), 16);
}

#[test]
fn execve_vectors_are_read_from_pointer_arrays() {
    let mut m = UserMemory::new(BASE, 512);
    assert!(m.write_bytes(BASE + 256, b"prog\0arg\0K=V\0"));
    assert!(m.write_u64(BASE, (BASE + 256) as u64));
    assert!(m.write_u64(BASE + 8, (BASE + 261) as u64));
    assert!(m.write_u64(BASE + 16, 0));
    assert!(m.write_u64(BASE + 32, (BASE + 265) as u64));
    assert!(m.write_u64(BASE + 40, 0));
    let (argv, envp) = read_execve_vectors(&m, BASE, BASE + 32).unwrap();
    assert_eq!(argv, vec!["prog".to_string(), "arg".to_string()]);
    assert_eq!(envp, vec!["K=V".to_string()]);
    let (none_a, none_e) = read_execve_vectors(&m, 0, 0).unwrap();
    assert!(none_a.is_empty() && none_e.is_empty());
}

fn aux_state(entry: usize) -> ExecAuxState {
    ExecAuxState { entry, base: 0, phdr_addr: 0x400040, phent_size: 56, phnum: 9, vdso_base: 0x7000 }
}

#[test]
fn execve_reads_the_path_first() {
    let m = mem_with(BASE, b"/bin/true\0");
    assert_eq!(sys_linux_execve(&m, BASE), Ok("/bin/true".to_string()));
    assert_eq!(sys_linux_execve(&m, 0), Err(linux_errno(EFAULT)));
    let empty = mem_with(BASE, b"\0");
    assert_eq!(sys_linux_execve(&empty, BASE), Err(linux_errno(EINVAL)));
}

#[test]
fn execve_stack_build_refuses_a_zero_entry() {
    let mut m = UserMemory::new(BASE, 4096);
    let cred = ExecCredentials { uid: 0, euid: 0, gid: 0, egid: 0 };
    let argv = vec!["prog".to_string()];
    let rc = execve_build_user_stack(
        &mut m, BASE as u64, 4096, &argv, &[], &aux_state(0), &cred, 0, 0, "x86_64", &[1u8; 16], "prog",
    );
    assert_eq!(rc, Err(linux_errno(ENOEXEC)));
}

#[test]
fn execve_stack_build_places_argc_and_argv() {
    let mut m = UserMemory::new(BASE, 4096);
    let cred = ExecCredentials { uid: 0, euid: 0, gid: 0, egid: 0 };
    let argv = vec!["prog".to_string(), "-x".to_string()];
    let envp = vec!["A=1".to_string()];
    let sp = execve_build_user_stack(
        &mut m, BASE as u64, 4096, &argv, &envp, &aux_state(0x401000), &cred, 0, 0, "x86_64", &[1u8; 16], "prog",
    )
    .unwrap();
    assert_eq!(sp % 8, 0);
    assert!(sp >= BASE as u64 && sp < (BASE + 4096) as u64);
    assert_eq!(m.read_u64(sp as usize), Some(2));
    let auxc = execve_auxv_entries(&aux_state(0x401000), &cred, 0, 0, "x86_64", &[1u8; 16], "prog").len();
    let (aux_index, _, first_argv_index) = execve_stack_layout_indexes(2, 1, auxc);
    let argv0 = m.read_u64(sp as usize + 8 * first_argv_index).unwrap() as usize;
    assert_eq!(m.read_bytes(argv0, 5), Some(b"prog\0".to_vec()));
    assert_eq!(m.read_u64(sp as usize + 8 * aux_index + 8), Some(0x401000));
}

#[test]
fn execve_stack_build_fails_on_a_tiny_stack() {
    let mut m = UserMemory::new(BASE, 4096);
    let cred = ExecCredentials { uid: 0, euid: 0, gid: 0, egid: 0 };
    let argv = vec!["prog".to_string()];
    let rc = execve_build_user_stack(
        &mut m, BASE as u64, 64, &argv, &[], &aux_state(0x401000), &cred, 0, 0, "x86_64", &[1u8; 16], "prog",
    );
    assert!(rc.is_err());
    assert_eq!(m.read_u64(BASE), Some(0));
}
