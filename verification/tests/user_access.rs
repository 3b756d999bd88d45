use lib::arith::{mul_sat_u128, mul_sat_u64, mul_sat_usize};
use lib::errno::{linux_errno, E2BIG, EFAULT, EINVAL};
use lib::user_memory::{encode_words, u64_to_le_bytes, UserMemory, SYSCALL_ERR_INVALID_ARG, SYSCALL_ERR_USER_ACCESS_DENIED};
use lib::user_string::{
    read_user_c_string, read_user_c_string_allow_empty, read_user_c_string_array, read_user_c_string_compat,
    read_user_path_like_string, read_user_usize_word,
};

const BASE: usize = 0x10000;

fn mem_with(at: usize, bytes: &[u8]) -> UserMemory {
    let mut m = UserMemory::new(BASE, 256);
    assert!(m.write_bytes(at, bytes));
    m
}

#[test]
fn saturating_products_clamp_at_the_maximum() {
    assert_eq!(mul_sat_usize(6, 7), 42);
    assert_eq!(mul_sat_usize(usize::MAX, 2), usize::MAX);
    assert_eq!(mul_sat_u64(1 << 32, 1 << 32), u64::MAX);
    assert_eq!(mul_sat_u64(1 << 31, 2), 1 << 32);
    assert_eq!(mul_sat_u128(u128::MAX / 2, 3), u128::MAX);
    assert_eq!(mul_sat_u128(0, u128::MAX), 0);
}

#[test]
fn little_endian_encodings() {
    assert_eq!(u64_to_le_bytes(0x0102_0304_0506_0708), vec![8, 7, 6, 5, 4, 3, 2, 1]);
    assert_eq!(encode_words(&[1, 0x100]), vec![1, 0, 0, 0, 0, 0, 0, 0, 0, 1, 0, 0, 0, 0, 0, 0]);
    assert!(encode_words(&[]).is_empty());
}

#[test]
fn range_validity_follows_region_and_user_space() {
    let m = UserMemory::new(BASE, 256);
    assert!(m.range_valid(BASE, 256));
    assert!(m.range_valid(BASE + 255, 1));
    assert!(!m.range_valid(BASE + 255, 2));
    assert!(!m.range_valid(BASE - 1, 1));
    assert!(!m.range_valid(usize::MAX, 2));
    let low = UserMemory::new(0, 0x2000);
    assert!(!low.range_valid(0x800, 8));
    assert!(low.range_valid(0x1000, 8));
}

#[test]
fn read_after_write_gives_back_the_bytes() {
    let mut m = UserMemory::new(BASE, 64);
    assert!(m.write_bytes(BASE + 3, &[9, 8, 7]));
    assert_eq!(m.read_bytes(BASE + 3, 3), Some(vec![9, 8, 7]));
    assert!(m.write_u64(BASE + 16, 0xdead_beef));
    assert_eq!(m.read_u64(BASE + 16), Some(0xdead_beef));
    assert!(m.write_u32(BASE + 32, 0x1234_5678));
    assert_eq!(m.read_u32(BASE + 32), Some(0x1234_5678));
    assert!(!m.write_bytes(BASE + 62, &[1, 2, 3]));
    assert_eq!(m.read_u8(BASE + 62), Some(0));
}

#[test]
fn write_words_checks_length_alignment_and_range() {
    let mut m = UserMemory::new(BASE, 64);
    assert_eq!(m.write_words(BASE, 15, &[1, 2]), Err(SYSCALL_ERR_INVALID_ARG));
    assert_eq!(m.write_words(BASE + 1, 16, &[1, 2]), Err(SYSCALL_ERR_USER_ACCESS_DENIED));
    assert_eq!(m.write_words(BASE + 56, 16, &[1, 2]), Err(SYSCALL_ERR_USER_ACCESS_DENIED));
    assert_eq!(m.write_words(BASE + 8, 16, &[1, 2]), Ok(()));
    assert_eq!(m.read_u64(BASE + 16), Some(2));
}

#[test]
fn c_string_variants() {
    let m = mem_with(BASE, b"hello\0");
    assert_eq!(read_user_c_string(&m, BASE, 64), Ok("hello".to_string()));
    assert_eq!(read_user_path_like_string(&m, BASE, 64), Ok("hello".to_string()));
    assert_eq!(read_user_c_string(&m, BASE, 5), Err(linux_errno(EINVAL)));
    assert_eq!(read_user_c_string(&m, 0, 64), Err(linux_errno(EFAULT)));
    assert_eq!(read_user_c_string(&m, BASE + 5, 64), Err(linux_errno(EINVAL)));
    assert_eq!(read_user_c_string_allow_empty(&m, BASE + 5, 64), Ok(String::new()));
    assert_eq!(read_user_c_string_compat(&m, BASE + 5, 64), Ok(String::new()));
    assert_eq!(read_user_c_string_compat(&m, 0, 64), Err(linux_errno(EFAULT)));
    assert_eq!(read_user_c_string_compat(&m, BASE, 64), Ok("hello".to_string()));
}

#[test]
fn c_string_must_be_utf8_and_terminated_in_memory() {
    let bad = mem_with(BASE, &[0xff, 0xfe, 0]);
    assert_eq!(read_user_c_string(&bad, BASE, 64), Err(linux_errno(EINVAL)));
    let mut edge = UserMemory::new(BASE, 4);
    assert!(edge.write_bytes(BASE, b"abcd"));
    assert_eq!(read_user_c_string(&edge, BASE, 64), Err(linux_errno(EFAULT)));
}

#[test]
fn usize_word_reads() {
    let mut m = UserMemory::new(BASE, 32);
    assert!(m.write_u64(BASE + 8, 77));
    assert_eq!(read_user_usize_word(&m, BASE + 8), Ok(77));
    assert_eq!(read_user_usize_word(&m, BASE + 30), Err(SYSCALL_ERR_USER_ACCESS_DENIED));
}

#[test]
fn string_arrays_stop_at_null_or_limit() {
    let mut m = UserMemory::new(BASE, 256);
    assert!(m.write_bytes(BASE + 128, b"a\0bc\0"));
    assert!(m.write_u64(BASE, (BASE + 128) as u64));
    assert!(m.write_u64(BASE + 8, (BASE + 130) as u64));
    assert!(m.write_u64(BASE + 16, 0));
    assert_eq!(read_user_c_string_array(&m, BASE, 8, 64), Ok(vec!["a".to_string(), "bc".to_string()]));
    assert_eq!(read_user_c_string_array(&m, BASE, 2, 64), Err(linux_errno(E2BIG)));
    assert_eq!(read_user_c_string_array(&m, 0, 8, 64), Ok(vec![]));
    assert_eq!(read_user_c_string_array(&m, BASE, 0, 64), Err(linux_errno(EINVAL)));
    assert_eq!(read_user_c_string_array(&m, BASE + 252, 8, 64), Err(SYSCALL_ERR_USER_ACCESS_DENIED));
}

#[test]
fn read_user_c_string_invalid_ptr_returns_efault() {
    let m = UserMemory::new(BASE, 64);
    assert_eq!(read_user_c_string(&m, 0, 16), Err(linux_errno(EFAULT)));
}

#[test]
fn read_user_c_string_allow_empty_invalid_ptr_returns_efault() {
    let m = UserMemory::new(BASE, 64);
    assert_eq!(read_user_c_string_allow_empty(&m, 0, 16), Err(linux_errno(EFAULT)));
}

#[test]
fn read_user_c_string_array_zero_ptr_is_empty() {
    let m = UserMemory::new(BASE, 64);
    assert_eq!(read_user_c_string_array(&m, 0, 4, 8).unwrap().len(), 0);
}
