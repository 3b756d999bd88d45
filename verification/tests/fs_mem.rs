use lib::dir_info::{
    sys_linux_getcwd, sys_linux_getdents64, sys_linux_uname, GetdentsCursors, UTSNAME_BYTES,
};
use lib::errno::{linux_errno, EBADF, EFAULT, EINVAL, ENOENT, ENOMEM, ERANGE, EXDEV};
use lib::fd_io::{
    decode_seek_whence, sys_linux_close, sys_linux_lseek, sys_linux_read, sys_linux_write, SeekWhence,
};
use lib::identity::{
    sys_linux_getegid, sys_linux_geteuid, sys_linux_getgid, sys_linux_getpgid, sys_linux_getpgrp,
    sys_linux_getuid, sys_linux_setpgid, sys_linux_setsid, sys_linux_umask, DEFAULT_UMASK,
};
use lib::memory_ops::{
    mmap_placement, mmap_request, munmap_uncharge, mremap_record_update, MmapPlacement, MmapRequest, MremapRecordUpdate,
    MREMAP_FIXED, decode_mlockall_flags, fallback_map_id_from_addr, is_map_fixed, resolve_map_id_from_addr, sys_linux_madvise,
    sys_linux_mlock, sys_linux_mlockall, sys_linux_mmap, sys_linux_mprotect, sys_linux_mremap, sys_linux_munlock,
    sys_linux_munlockall, sys_linux_munmap, validate_nonzero_mapping_range, MAP_ANONYMOUS, MAP_FIXED, MCL_CURRENT,
    MCL_FUTURE,
};
use lib::path_ops::{
    access_status, openat_finish, same_file_system, sys_linux_faccessat, sys_linux_linkat, sys_linux_mkdirat,
    sys_linux_openat, sys_linux_openat2, sys_linux_readlinkat, sys_linux_renameat, sys_linux_renameat2,
    sys_linux_symlinkat, sys_linux_unlinkat, readlinkat_finish, unit_status, PathBase, AT_EMPTY_PATH, AT_FDCWD,
    AT_REMOVEDIR, O_CREAT, O_TRUNC,
};
use lib::process_types::MappingRecord;
use lib::user_memory::UserMemory;

const BASE: usize = 0x10000;
const MAX_PATH: usize = 4096;

fn mem() -> UserMemory {
    UserMemory::new(BASE, 1024)
}

fn with_str(at: usize, s: &[u8]) -> UserMemory {
    let mut m = mem();
    assert!(m.write_bytes(at, s));
    m
}

#[test]
fn lock_ops_share_mapping_range_validator_contract() {
    assert_eq!(validate_nonzero_mapping_range(0, 4096), Err(linux_errno(EINVAL)));
    assert_eq!(validate_nonzero_mapping_range(4096, 0), Err(linux_errno(EINVAL)));
    assert_eq!(validate_nonzero_mapping_range(4096, 4096), Ok(()));
}

#[test]
fn mlock_rejects_zero_addr_or_len() {
    assert_eq!(sys_linux_mlock(0, 4096, None), linux_errno(EINVAL));
    assert_eq!(sys_linux_mlock(4096, 0, None), linux_errno(EINVAL));
}

#[test]
fn munlock_rejects_zero_addr_or_len() {
    assert_eq!(sys_linux_munlock(0, 4096, None), linux_errno(EINVAL));
    assert_eq!(sys_linux_munlock(4096, 0, None), linux_errno(EINVAL));
}

#[test]
fn mlockall_rejects_invalid_flag_sets() {
    assert_eq!(sys_linux_mlockall(0, None), linux_errno(EINVAL));
    assert_eq!(sys_linux_mlockall(usize::MAX, None), linux_errno(EINVAL));
    assert_eq!(sys_linux_mlockall(4, None), linux_errno(EINVAL));
}

#[test]
fn mlockall_flag_decoder_accepts_supported_combinations() {
    assert_eq!(decode_mlockall_flags(MCL_CURRENT as usize), Ok(MCL_CURRENT));
    assert_eq!(decode_mlockall_flags((MCL_CURRENT | MCL_FUTURE) as usize), Ok(MCL_CURRENT | MCL_FUTURE));
    assert_eq!(decode_mlockall_flags(6), Ok(6));
}

#[test]
fn mlock_family_uses_soft_success_without_noop_feature() {
    assert_eq!(sys_linux_mlock(0x1000, 0x1000, None), 0);
    assert_eq!(sys_linux_munlock(0x1000, 0x1000, None), 0);
    assert_eq!(sys_linux_mlockall(MCL_CURRENT as usize, None), 0);
    assert_eq!(sys_linux_munlockall(), 0);
    assert_eq!(sys_linux_mlock(0x1000, 0x1000, Some(Err(12))), linux_errno(12));
}

#[test]
fn mlock_family_returns_success_when_noop_feature_is_enabled() {
    assert_eq!(sys_linux_mlock(0x1000, 0x1000, None), 0);
    assert_eq!(sys_linux_munlock(0x1000, 0x1000, None), 0);
    assert_eq!(sys_linux_mlockall(MCL_CURRENT as usize, None), 0);
    assert_eq!(sys_linux_munlockall(), 0);
}

#[test]
fn mmap_rejects_zero_length() {
    assert_eq!(sys_linux_mmap(0, 0, 0, 0, 0, 0, None), linux_errno(EINVAL));
}

#[test]
fn mmap_fixed_needs_an_aligned_nonzero_address() {
    assert!(is_map_fixed(MAP_FIXED));
    assert_eq!(sys_linux_mmap(0, 4096, 3, MAP_FIXED | MAP_ANONYMOUS, 0, 0, Some(Ok(1))), linux_errno(EINVAL));
    assert_eq!(sys_linux_mmap(0x1001, 4096, 3, MAP_FIXED | MAP_ANONYMOUS, 0, 0, Some(Ok(1))), linux_errno(EINVAL));
    assert_eq!(sys_linux_mmap(0x2000, 4096, 3, MAP_FIXED | MAP_ANONYMOUS, 0, 0, Some(Ok(0x2000))), 0x2000);
}

#[test]
fn mmap_without_backend_is_enomem_and_files_need_a_descriptor() {
    assert_eq!(sys_linux_mmap(0, 4096, 3, MAP_ANONYMOUS, 0, 0, None), linux_errno(ENOMEM));
    assert_eq!(sys_linux_mmap(0, 4096, 3, 0, usize::MAX, 0, Some(Ok(0x7000))), linux_errno(EBADF));
    assert_eq!(sys_linux_mmap(0, 4096, 3, 0, 3, 0, Some(Ok(0x7000))), 0x7000);
    assert_eq!(sys_linux_mmap(0, 4096, 3, 0, 3, 0, Some(Err(19))), linux_errno(19));
}

#[test]
fn memory_ops_reject_zero_addresses() {
    assert_eq!(sys_linux_munmap(0, 4096, None), linux_errno(EINVAL));
    assert_eq!(sys_linux_munmap(4096, 0, None), linux_errno(EINVAL));
    assert_eq!(sys_linux_mprotect(0, 4096, 0, None), linux_errno(EINVAL));
    assert_eq!(sys_linux_mprotect(4096, 0, 0, None), linux_errno(EINVAL));
    assert_eq!(sys_linux_madvise(0, 4096, 0, None), linux_errno(EINVAL));
    assert_eq!(sys_linux_madvise(4096, 0, 0, None), linux_errno(EINVAL));
    assert_eq!(sys_linux_munmap(4096, 4096, None), 0);
}

#[test]
fn mremap_rejects_zero_sizes_and_addresses() {
    assert_eq!(sys_linux_mremap(0, 4096, 8192, 0, 0, None), linux_errno(EINVAL));
    assert_eq!(sys_linux_mremap(4096, 0, 8192, 0, 0, None), linux_errno(EINVAL));
    assert_eq!(sys_linux_mremap(4096, 4096, 0, 0, 0, None), linux_errno(EINVAL));
}

#[test]
fn mremap_rejects_nonzero_flags_or_new_addr() {
    assert_eq!(sys_linux_mremap(4096, 4096, 8192, 1, 0, None), linux_errno(EINVAL));
    assert_eq!(sys_linux_mremap(4096, 4096, 8192, 0, 0x2000, None), linux_errno(EINVAL));
    assert_eq!(sys_linux_mremap(4096, 4096, 8192, 0, 0, None), 4096);
    assert_eq!(sys_linux_mremap(4096, 4096, 8192, 0, 0, Some(Ok(0x9000))), 0x9000);
}

#[test]
fn fallback_map_id_preserves_low_u32_bits_of_address() {
    assert_eq!(fallback_map_id_from_addr(0x1234usize), 0x1234);
    assert_eq!(fallback_map_id_from_addr(usize::MAX), u32::MAX);
}

#[test]
fn resolve_map_id_falls_back_to_address_without_process_context() {
    assert_eq!(resolve_map_id_from_addr(0x4321usize, None), 0x4321);
    assert_eq!(resolve_map_id_from_addr(0x4321usize, Some(9)), 9);
}

#[test]
fn stdout_write_invalid_ptr_returns_efault() {
    let m = mem();
    assert_eq!(sys_linux_write(&m, 1, 0, 1, None, None).0, linux_errno(EFAULT));
}

#[test]
fn non_stdio_write_unknown_fd_returns_ebadf_when_backends_exist() {
    let m = with_str(BASE, b"x");
    assert_eq!(sys_linux_write(&m, usize::MAX, BASE, 1, Some(Err(9)), Some(Err(9))).0, linux_errno(EBADF));
    assert_eq!(sys_linux_write(&m, usize::MAX, BASE, 1, None, None).0, linux_errno(EBADF));
}

#[test]
fn write_routes_to_console_file_or_socket() {
    let m = with_str(BASE, b"hello\xff");
    assert_eq!(sys_linux_write(&m, 1, BASE, 5, None, None), (5, Some("hello".to_string())));
    assert_eq!(sys_linux_write(&m, 2, BASE, 6, None, None).0, linux_errno(EINVAL));
    assert_eq!(sys_linux_write(&m, 1, BASE, 0, None, None), (0, None));
    assert_eq!(sys_linux_write(&m, 2, BASE, 6, None, None).1, None);
    assert_eq!(sys_linux_write(&m, 5, BASE, 5, Some(Ok(5)), None).1, None);
    assert_eq!(sys_linux_write(&m, 5, BASE, 5, Some(Ok(5)), None).0, 5);
    assert_eq!(sys_linux_write(&m, 5, BASE, 5, Some(Err(9)), Some(Ok(4))).0, 4);
    assert_eq!(sys_linux_write(&m, 5, BASE, 5, Some(Err(28)), Some(Ok(4))).0, linux_errno(28));
}

#[test]
fn read_routes_to_file_then_socket() {
    let mut m = mem();
    assert_eq!(sys_linux_read(&mut m, 1, BASE, 8, None, None), linux_errno(EBADF));
    assert_eq!(sys_linux_read(&mut m, 0, BASE, 8, Some(Ok(vec![1])), None), 0);
    assert_eq!(sys_linux_read(&mut m, 5, BASE, 0, None, None), 0);
    assert_eq!(sys_linux_read(&mut m, 5, BASE, 4, Some(Ok(b"abcdef".to_vec())), None), 4);
    assert_eq!(m.read_bytes(BASE, 4), Some(b"abcd".to_vec()));
    assert_eq!(sys_linux_read(&mut m, 5, BASE + 16, 8, Some(Err(9)), Some(Ok(b"xy".to_vec()))), 2);
    assert_eq!(m.read_bytes(BASE + 16, 2), Some(b"xy".to_vec()));
    assert_eq!(sys_linux_read(&mut m, 5, 0, 8, Some(Ok(vec![1])), None), linux_errno(EFAULT));
    assert_eq!(sys_linux_read(&mut m, 5, BASE, 8, None, None), linux_errno(EBADF));
}

#[test]
fn close_and_lseek() {
    let mut cursors = GetdentsCursors::new();
    assert_eq!(sys_linux_close(&mut cursors, 2, None, None), 0);
    assert_eq!(sys_linux_close(&mut cursors, 5, None, None), linux_errno(EBADF));
    assert_eq!(sys_linux_close(&mut cursors, 5, Some(Err(9)), Some(Ok(()))), 0);
    assert_eq!(sys_linux_close(&mut cursors, 5, Some(Err(5)), Some(Ok(()))), linux_errno(5));
    assert_eq!(sys_linux_lseek(3, 0, 0, None), linux_errno(EBADF));
    assert_eq!(sys_linux_lseek(3, 0, 3, Some(Ok(10))), linux_errno(EINVAL));
    assert_eq!(sys_linux_lseek(3, 0, 2, Some(Ok(10))), 10);
    assert_eq!(decode_seek_whence(1), Some(SeekWhence::Current));
}

fn dirent_fields(m: &UserMemory, at: usize) -> (u64, u64, u16, u8) {
    let ino = m.read_u64(at).unwrap();
    let off = m.read_u64(at + 8).unwrap();
    let rec = m.read_bytes(at + 16, 3).unwrap();
    (ino, off, u16::from_le_bytes([rec[0], rec[1]]), rec[2])
}

#[test]
fn getdents64_packs_records_and_resumes() {
    let mut m = mem();
    let mut cursors = GetdentsCursors::new();
    let listing = || Some(Ok(vec![b"a".to_vec(), b"longer-name".to_vec(), b"z".to_vec()]));
    assert_eq!(sys_linux_getdents64(&mut m, &mut cursors, 3, BASE, 18, listing()), linux_errno(EINVAL));
    // "a": 19 + 1 + 1 = 21 -> 24; "longer-name": 19 + 11 + 1 = 31 -> 32.
    let n = sys_linux_getdents64(&mut m, &mut cursors, 3, BASE, 60, listing());
    assert_eq!(n, 56);
    assert_eq!(dirent_fields(&m, BASE), (1, 1, 24, 0));
    assert_eq!(m.read_bytes(BASE + 19, 2), Some(vec![b'a', 0]));
    assert_eq!(dirent_fields(&m, BASE + 24), (1, 2, 32, 0));
    assert_eq!(m.read_bytes(BASE + 24 + 19, 12), Some(b"longer-name\0".to_vec()));
    let n2 = sys_linux_getdents64(&mut m, &mut cursors, 3, BASE, 60, listing());
    assert_eq!(n2, 24);
    assert_eq!(dirent_fields(&m, BASE), (1, 3, 24, 0));
    assert_eq!(sys_linux_getdents64(&mut m, &mut cursors, 3, BASE, 60, listing()), 0);
    // The cursor was dropped: the listing starts again.
    assert_eq!(sys_linux_getdents64(&mut m, &mut cursors, 3, BASE, 60, listing()), 56);
    assert_eq!(sys_linux_close(&mut cursors, 3, Some(Ok(())), None), 0);
    assert_eq!(sys_linux_getdents64(&mut m, &mut cursors, 3, BASE, 24, listing()), 24);
}

#[test]
fn getdents64_errors() {
    let mut m = mem();
    let mut cursors = GetdentsCursors::new();
    assert_eq!(sys_linux_getdents64(&mut m, &mut cursors, 3, BASE, 64, None), linux_errno(EBADF));
    assert_eq!(sys_linux_getdents64(&mut m, &mut cursors, 3, BASE, 64, Some(Err(20))), linux_errno(20));
    let listing = Some(Ok(vec![b"a".to_vec()]));
    assert_eq!(sys_linux_getdents64(&mut m, &mut cursors, 1 << 40, BASE, 64, listing.clone()), linux_errno(EBADF));
    assert_eq!(sys_linux_getdents64(&mut m, &mut cursors, 3, BASE + 1000, 64, listing.clone()), linux_errno(EFAULT));
    assert_eq!(sys_linux_getdents64(&mut m, &mut cursors, 3, BASE, 20, listing), 0);
}

#[test]
fn getcwd_writes_path_and_nul() {
    let mut m = mem();
    assert_eq!(sys_linux_getcwd(&mut m, BASE, 1, None), linux_errno(ERANGE));
    assert_eq!(sys_linux_getcwd(&mut m, BASE, 2, None), BASE);
    assert_eq!(m.read_bytes(BASE, 2), Some(b"/\0".to_vec()));
    assert_eq!(sys_linux_getcwd(&mut m, BASE, 64, Some(Ok(b"/home/user".to_vec()))), BASE);
    assert_eq!(m.read_bytes(BASE, 11), Some(b"/home/user\0".to_vec()));
    assert_eq!(sys_linux_getcwd(&mut m, BASE, 10, Some(Ok(b"/home/user".to_vec()))), linux_errno(ERANGE));
    assert_eq!(sys_linux_getcwd(&mut m, 0, 64, None), linux_errno(EFAULT));
    assert_eq!(sys_linux_getcwd(&mut m, BASE, 64, Some(Err(2))), linux_errno(2));
}

#[test]
fn uname_fills_the_fields() {
    let mut m = mem();
    for b in m.bytes.iter_mut() {
        *b = 0xAA;
    }
    assert_eq!(sys_linux_uname(&mut m, BASE, &b"x86_64".to_vec()), 0);
    let img = m.read_bytes(BASE, UTSNAME_BYTES).unwrap();
    assert_eq!(&img[0..10], b"HyperCore\0");
    assert_eq!(&img[65..75], b"hypercore\0");
    assert_eq!(&img[130..136], b"0.2.0\0");
    assert_eq!(&img[195..202], b"#1 SMP\0");
    assert_eq!(&img[260..267], b"x86_64\0");
    assert_eq!(&img[325..332], b"(none)\0");
    assert!(img[332..390].iter().all(|b| *b == 0));
    assert_eq!(m.bytes[390], 0xAA);
    assert_eq!(sys_linux_uname(&mut m, BASE + 800, &b"x86_64".to_vec()), linux_errno(EFAULT));
}

#[test]
fn identity_queries_fall_back_without_process_backend() {
    assert_eq!(sys_linux_getuid(None), 0);
    assert_eq!(sys_linux_getgid(Some(5)), 5);
    assert_eq!(sys_linux_geteuid(None), 0);
    assert_eq!(sys_linux_getegid(Some(7)), 7);
    assert_eq!(sys_linux_getpgrp(None, 42), 42);
    assert_eq!(sys_linux_getpgid(0, None, 42), 42);
    assert_eq!(sys_linux_getpgid(0, Some(Err(3)), 42), linux_errno(3));
    assert_eq!(sys_linux_setpgid(0, 0, None), 0);
    assert_eq!(sys_linux_setpgid(0, 0, Some(Err(1))), linux_errno(1));
    assert_eq!(sys_linux_setsid(Some(Ok(9)), 42), 9);
    assert_eq!(sys_linux_umask(0o077, None), DEFAULT_UMASK);
    assert_eq!(sys_linux_umask(0o077, Some(0o022)), 0o022);
}

#[test]
fn openat_invalid_path_pointer_returns_efault() {
    assert!(matches!(sys_linux_openat(&mem(), MAX_PATH, AT_FDCWD, 0, 0, 0), Err(e) if e == linux_errno(EFAULT)));
}

#[test]
fn openat_invalid_dirfd_returns_ebadf_for_relative_paths() {
    let m = with_str(BASE, b"relative\0");
    assert!(matches!(sys_linux_openat(&m, MAX_PATH, -2, BASE, 0, 0), Err(e) if e == linux_errno(EBADF)));
}

#[test]
fn openat_decodes_path_base_and_mode() {
    let m = with_str(BASE, b"/etc/hosts\0rel\0");
    let req = sys_linux_openat(&m, MAX_PATH, -2, BASE, O_CREAT | O_TRUNC, 0).unwrap();
    assert_eq!(req.path, "/etc/hosts");
    assert_eq!(req.base, PathBase::Root);
    assert!(req.create && req.truncate && !req.append);
    let rel = sys_linux_openat(&m, MAX_PATH, AT_FDCWD, BASE + 11, 0, 0).unwrap();
    assert_eq!(rel.base, PathBase::Cwd);
    let dir = sys_linux_openat(&m, MAX_PATH, 4, BASE + 11, 0, 0).unwrap();
    assert_eq!(dir.base, PathBase::Dir(4));
    assert_eq!(openat_finish(&req, Ok(7), Ok(())), (7, false));
    assert_eq!(openat_finish(&req, Ok(7), Err(27)), (linux_errno(27), true));
    assert_eq!(openat_finish(&rel, Ok(7), Err(27)), (7, false));
    assert_eq!(openat_finish(&req, Err(2), Ok(())), (linux_errno(ENOENT), false));
}

#[test]
fn openat2_checks_how() {
    let mut m = mem();
    assert_eq!(sys_linux_openat2(&m, 0, 24), Err(linux_errno(EFAULT)));
    assert_eq!(sys_linux_openat2(&m, BASE, 23), Err(linux_errno(EINVAL)));
    assert_eq!(sys_linux_openat2(&m, BASE, 4097), Err(linux_errno(EINVAL)));
    assert!(m.write_u64(BASE, O_CREAT as u64));
    assert!(m.write_u64(BASE + 8, 0o644));
    assert!(m.write_u64(BASE + 16, 0x8));
    assert_eq!(sys_linux_openat2(&m, BASE, 24), Ok((O_CREAT as u64, 0o644)));
    assert!(m.write_u64(BASE + 16, 0x40));
    assert_eq!(sys_linux_openat2(&m, BASE, 24), Err(linux_errno(EINVAL)));
    assert_eq!(sys_linux_openat2(&m, BASE + 1010, 24), Err(linux_errno(EFAULT)));
}

#[test]
fn faccessat_invalid_path_pointer_returns_efault() {
    assert!(matches!(sys_linux_faccessat(&mem(), MAX_PATH, AT_FDCWD, 0, 0, 0), Err(e) if e == linux_errno(EFAULT)));
}

#[test]
fn faccessat_rejects_unknown_flags() {
    let m = with_str(BASE, b"/tmp\0");
    assert!(matches!(sys_linux_faccessat(&m, MAX_PATH, AT_FDCWD, BASE, 0, 0x8000), Err(e) if e == linux_errno(EINVAL)));
}

#[test]
fn faccessat_empty_path_without_fd_returns_ebadf() {
    let m = with_str(BASE, b"\0");
    assert!(matches!(
        sys_linux_faccessat(&m, MAX_PATH, -2, BASE, 0, AT_EMPTY_PATH),
        Err(e) if e == linux_errno(EBADF)
    ));
}

#[test]
fn faccessat_empty_path_uses_dirfd_context() {
    let m = with_str(BASE, b"\0");
    let (path, base) = sys_linux_faccessat(&m, MAX_PATH, 5, BASE, 0, AT_EMPTY_PATH).unwrap();
    assert_eq!(path, "");
    assert_eq!(base, PathBase::Dir(5));
    assert!(matches!(sys_linux_faccessat(&m, MAX_PATH, 5, BASE, 0, 0), Err(e) if e == linux_errno(EINVAL)));
    assert_eq!(access_status(Ok(true)), 0);
    assert_eq!(access_status(Ok(false)), linux_errno(ENOENT));
    assert_eq!(access_status(Err(13)), linux_errno(13));
}

#[test]
fn mkdirat_invalid_path_pointer_returns_efault() {
    assert!(matches!(sys_linux_mkdirat(&mem(), MAX_PATH, AT_FDCWD, 0, 0o755), Err(e) if e == linux_errno(EFAULT)));
}

#[test]
fn unlinkat_invalid_path_pointer_returns_efault() {
    assert!(matches!(sys_linux_unlinkat(&mem(), MAX_PATH, AT_FDCWD, 0, 0), Err(e) if e == linux_errno(EFAULT)));
}

#[test]
fn unlinkat_flags() {
    let m = with_str(BASE, b"/d\0");
    assert!(matches!(sys_linux_unlinkat(&m, MAX_PATH, AT_FDCWD, BASE, 1), Err(e) if e == linux_errno(EINVAL)));
    let (_, _, rmdir) = sys_linux_unlinkat(&m, MAX_PATH, AT_FDCWD, BASE, AT_REMOVEDIR).unwrap();
    assert!(rmdir);
    assert_eq!(unit_status(Ok(())), 0);
    assert_eq!(unit_status(Err(39)), linux_errno(39));
}

#[test]
fn linkat_invalid_oldpath_pointer_returns_efault() {
    let m = with_str(BASE, b"/tmp_new\0");
    assert!(matches!(sys_linux_linkat(&m, MAX_PATH, AT_FDCWD, 0, AT_FDCWD, BASE, 0), Err(e) if e == linux_errno(EFAULT)));
    assert!(matches!(sys_linux_linkat(&m, MAX_PATH, AT_FDCWD, BASE, AT_FDCWD, BASE, 1), Err(e) if e == linux_errno(EINVAL)));
    assert_eq!(same_file_system(1, 1), Ok(()));
    assert_eq!(same_file_system(1, 2), Err(linux_errno(EXDEV)));
}

#[test]
fn symlinkat_invalid_target_pointer_returns_efault() {
    let m = with_str(BASE, b"/tmp_link\0");
    assert!(matches!(sys_linux_symlinkat(&m, MAX_PATH, 0, AT_FDCWD, BASE), Err(e) if e == linux_errno(EFAULT)));
    let (target, (link, base)) = sys_linux_symlinkat(&m, MAX_PATH, BASE, AT_FDCWD, BASE).unwrap();
    assert_eq!(target, "/tmp_link");
    assert_eq!(link, "/tmp_link");
    assert_eq!(base, PathBase::Root);
}

#[test]
fn renameat_invalid_path_pointer_returns_efault() {
    let m = with_str(BASE, b"/tmp\0");
    assert!(matches!(sys_linux_renameat(&m, MAX_PATH, AT_FDCWD, 0, AT_FDCWD, BASE), Err(e) if e == linux_errno(EFAULT)));
}

#[test]
fn renameat2_rejects_nonzero_flags_in_minimal_mode() {
    let m = with_str(BASE, b"/old\0/new\0");
    assert!(matches!(
        sys_linux_renameat2(&m, MAX_PATH, AT_FDCWD, BASE, AT_FDCWD, BASE + 5, 1),
        Err(e) if e == linux_errno(EINVAL)
    ));
    let ((old, _), (new, _)) = sys_linux_renameat2(&m, MAX_PATH, AT_FDCWD, BASE, AT_FDCWD, BASE + 5, 0).unwrap();
    assert_eq!(old, "/old");
    assert_eq!(new, "/new");
}

#[test]
fn readlinkat_invalid_buffer_pointer_returns_efault() {
    let mut m = with_str(BASE, b"/ln\0");
    assert!(sys_linux_readlinkat(&m, MAX_PATH, AT_FDCWD, BASE).is_ok());
    assert_eq!(readlinkat_finish(&mut m, 0x1, 8, Ok(b"/target".to_vec())), linux_errno(EFAULT));
}

#[test]
fn readlinkat_truncates_to_caller_buffer_length() {
    let mut m = mem();
    assert_eq!(readlinkat_finish(&mut m, BASE + 64, 4, Ok(b"/long-target".to_vec())), 4);
    assert_eq!(m.read_bytes(BASE + 64, 5), Some(b"/lon\0".to_vec()));
    assert_eq!(readlinkat_finish(&mut m, BASE + 64, 4, Err(22)), linux_errno(22));
}

#[test]
fn mmap_request_fixes_what_the_backend_is_asked() {
    assert_eq!(mmap_request(0, 0, 3, MAP_ANONYMOUS, 0, 0), Err(linux_errno(EINVAL)));
    assert_eq!(mmap_request(0x1001, 4096, 3, MAP_FIXED | MAP_ANONYMOUS, 0, 0), Err(linux_errno(EINVAL)));
    assert_eq!(
        mmap_request(0, 8192, 3, MAP_ANONYMOUS | 0x2, usize::MAX, 0),
        Ok(MmapRequest::Anonymous { addr: 0, len: 8192, prot: 3, flags: (MAP_ANONYMOUS | 0x2) as u32 })
    );
    assert_eq!(mmap_request(0, 4096, 1, 0x2, usize::MAX, 0), Err(linux_errno(EBADF)));
    assert_eq!(
        mmap_request(0x4000, 4096, 1, MAP_FIXED | 0x2, 5, 8192),
        Ok(MmapRequest::File { addr: 0x4000, fd: 5, offset: 8192, len: 4096, prot: 1, flags: (MAP_FIXED | 0x2) as u32 })
    );
}

fn rec(map_id: u32, start: u64, end: u64) -> MappingRecord {
    MappingRecord { map_id, start, end, prot: 3, flags: 0x22 }
}

#[test]
fn mmap_placement_records_fixed_and_allocated_mappings() {
    let fixed = (MAP_FIXED | MAP_ANONYMOUS) as u32;
    assert_eq!(mmap_placement(4, 0x8000, 100, 3, fixed, false, Ok(4096), None, true), MmapPlacement::Unrecorded(4));
    assert_eq!(mmap_placement(4, 0x8000, 100, 3, fixed, true, Err(12), None, true), MmapPlacement::Fail(12));
    assert_eq!(
        mmap_placement(4, 0x8000, 100, 3, fixed, true, Ok(4096), None, true),
        MmapPlacement::Register {
            record: MappingRecord { map_id: 4, start: 0x8000, end: 0x9000, prot: 3, flags: fixed },
            evict_overlaps: true,
            ret: 0x8000,
        }
    );
    let anon = MAP_ANONYMOUS as u32;
    assert_eq!(mmap_placement(5, 0, 100, 3, anon, true, Ok(4096), None, true), MmapPlacement::Unrecorded(5));
    assert_eq!(
        mmap_placement(5, 0, 100, 3, anon, true, Ok(8192), Some(0x20000), true),
        MmapPlacement::Register {
            record: MappingRecord { map_id: 5, start: 0x20000, end: 0x22000, prot: 3, flags: anon },
            evict_overlaps: false,
            ret: 0x20000,
        }
    );
    assert_eq!(
        mmap_placement(5, 0, 100, 3, anon, true, Ok(8192), Some(0x20000), false),
        MmapPlacement::Undo {
            record: MappingRecord { map_id: 5, start: 0x20000, end: 0x22000, prot: 3, flags: anon },
            evict_overlaps: false,
            ret: linux_errno(ENOMEM),
        }
    );
}

#[test]
fn mremap_record_update_resizes_or_moves_the_record() {
    assert_eq!(mremap_record_update(0x9000, 0, 0, None, Ok(4096)), MremapRecordUpdate::Unrecorded(0x9000));
    assert_eq!(mremap_record_update(0x9000, 0, 0, Some(rec(2, 0x9000, 0xa000)), Err(22)), MremapRecordUpdate::Dropped(22));
    assert_eq!(
        mremap_record_update(0x9000, 0, 0, Some(rec(2, 0x9000, 0xa000)), Ok(8192)),
        MremapRecordUpdate::Update { record: rec(2, 0x9000, 0xb000), evict_overlaps: false, ret: 0x9000 }
    );
    assert_eq!(
        mremap_record_update(0x9000, MREMAP_FIXED, 0x40000, Some(rec(2, 0x9000, 0xa000)), Ok(4096)),
        MremapRecordUpdate::Update { record: rec(2, 0x40000, 0x41000), evict_overlaps: true, ret: 0x40000 }
    );
}

#[test]
fn munmap_gives_back_the_recorded_size() {
    assert_eq!(munmap_uncharge(Some(rec(1, 0x1000, 0x3000)), 100), 0x2000);
    assert_eq!(munmap_uncharge(Some(rec(1, 0x3000, 0x1000)), 100), 0);
    assert_eq!(munmap_uncharge(None, 4096), 4096);
}
