use lib::errno::{linux_errno, EFAULT, EINVAL, ESRCH};
use lib::signal::{
    decode_sa_handler, decode_sigprocmask_how, read_sigaction, read_signal_set, read_sigaltstack,
    should_write_signal_set, sigaction_install_outcome, sys_linux_rt_sigaction_shim, sys_linux_rt_sigpending_shim,
    sys_linux_rt_sigprocmask_shim, sys_linux_sigaltstack_shim, validate_linux_sigset_size,
    validate_sigaction_args, validate_sigaltstack_flags_and_size, write_sigaction, write_signal_set,
    write_sigaltstack, write_zeroed_sigaction, LinuxKSigActionCompat, LinuxSigaltstackCompat, SignalHandlerKind,
    SignalTaskState, SIG_BLOCK, SIG_SETMASK, SIG_UNBLOCK, SS_DISABLE,
};
use lib::user_memory::UserMemory;

const BASE: usize = 0x10000;

fn mem() -> UserMemory {
    UserMemory::new(BASE, 256)
}

fn task(mask: u64) -> Option<SignalTaskState> {
    Some(SignalTaskState { signal_mask: mask, signal_stack: None, pending_signals: 0 })
}

#[test]
fn sigpending_rejects_invalid_sigset_size() {
    let mut m = mem();
    assert_eq!(sys_linux_rt_sigpending_shim(&mut m, 0, 9, Ok(0)), linux_errno(EINVAL));
}

#[test]
fn sigpending_invalid_ptr_returns_efault() {
    let mut m = mem();
    assert_eq!(sys_linux_rt_sigpending_shim(&mut m, 1, 8, Ok(0)), linux_errno(EFAULT));
}

#[test]
fn sigpending_zero_pointer_is_allowed() {
    let mut m = mem();
    assert_eq!(sys_linux_rt_sigpending_shim(&mut m, 0, 8, Ok(5)), 0);
}

#[test]
fn sigpending_zero_pointer_with_valid_sigset_size_is_a_noop() {
    let mut m = mem();
    let before = m.bytes.clone();
    assert_eq!(sys_linux_rt_sigpending_shim(&mut m, 0, 8, Err(linux_errno(ESRCH))), 0);
    assert_eq!(m.bytes, before);
}

#[test]
fn sigpending_copies_pending_set() {
    let mut m = mem();
    assert_eq!(sys_linux_rt_sigpending_shim(&mut m, BASE + 8, 8, Ok(0x0102)), 0);
    assert_eq!(m.read_u64(BASE + 8), Some(0x0102));
    assert_eq!(sys_linux_rt_sigpending_shim(&mut m, BASE + 8, 8, Err(77)), 77);
}

#[test]
fn sigaction_oldact_invalid_ptr_returns_efault() {
    let mut m = mem();
    assert_eq!(sys_linux_rt_sigaction_shim(&mut m, 1, 0, 1, 8, None), Err(linux_errno(EFAULT)));
}

#[test]
fn sigaction_rejects_invalid_signal_number() {
    let mut m = mem();
    assert_eq!(sys_linux_rt_sigaction_shim(&mut m, 0, 0, 0, 8, None), Err(linux_errno(EINVAL)));
    assert_eq!(sys_linux_rt_sigaction_shim(&mut m, 65, 0, 0, 8, None), Err(linux_errno(EINVAL)));
}

#[test]
fn sigaction_rejects_invalid_sigset_size() {
    let mut m = mem();
    assert_eq!(sys_linux_rt_sigaction_shim(&mut m, 1, 0, 0, 4, None), Err(linux_errno(EINVAL)));
}

#[test]
fn sigaction_refuses_kill_and_stop() {
    let mut m = mem();
    assert_eq!(sys_linux_rt_sigaction_shim(&mut m, 9, 0, 0, 8, None), Err(linux_errno(EINVAL)));
    assert_eq!(sys_linux_rt_sigaction_shim(&mut m, 19, 0, 0, 8, None), Err(linux_errno(EINVAL)));
}

#[test]
fn sigaction_zeroes_oldact_buffer() {
    let mut m = mem();
    for b in m.bytes.iter_mut() {
        *b = 0xAA;
    }
    assert_eq!(sys_linux_rt_sigaction_shim(&mut m, 1, 0, BASE, 8, None), Ok(None));
    assert!(m.bytes[..32].iter().all(|byte| *byte == 0));
    assert!(m.bytes[32..].iter().all(|byte| *byte == 0xAA));
}

#[test]
fn sigaction_reports_previous_and_reads_new_action() {
    let mut m = mem();
    let prev = LinuxKSigActionCompat { sa_handler: 0x4000, sa_flags: 4, sa_restorer: 0x5000, sa_mask: 3 };
    let next = LinuxKSigActionCompat { sa_handler: 1, sa_flags: 0, sa_restorer: 0, sa_mask: 0x10 };
    assert_eq!(write_sigaction(&mut m, BASE + 64, &next), Ok(()));
    let r = sys_linux_rt_sigaction_shim(&mut m, 10, BASE + 64, BASE, 8, Some(prev));
    assert_eq!(r, Ok(Some(next)));
    assert_eq!(read_sigaction(&m, BASE), Ok(prev));
    assert_eq!(sigaction_install_outcome(true), 0);
    assert_eq!(sigaction_install_outcome(false), linux_errno(EINVAL));
}

#[test]
fn sigaction_arg_validator_accepts_valid_inputs() {
    assert_eq!(validate_sigaction_args(1, 8), Ok(()));
    assert_eq!(validate_sigaction_args(64, 8), Ok(()));
    assert_eq!(validate_sigaction_args(64, 16), Err(linux_errno(EINVAL)));
}

#[test]
fn sa_handler_decoding() {
    assert_eq!(decode_sa_handler(0), SignalHandlerKind::Default);
    assert_eq!(decode_sa_handler(1), SignalHandlerKind::Ignore);
    assert_eq!(decode_sa_handler(0x401000), SignalHandlerKind::Handler(0x401000));
}

#[test]
fn linux_sigset_size_validator_accepts_u64_and_rejects_other_sizes() {
    assert_eq!(validate_linux_sigset_size(8), Ok(()));
    assert_eq!(validate_linux_sigset_size(4), Err(linux_errno(EINVAL)));
}

#[test]
fn signal_set_writer_helper_matches_null_pointer_convention() {
    assert!(!should_write_signal_set(0));
    assert!(should_write_signal_set(8));
}

#[test]
fn signal_set_helpers_roundtrip_mask_bytes() {
    let mut m = mem();
    assert_eq!(write_signal_set(&mut m, BASE, 0x55AA_F0F0_1234_5678), Ok(()));
    assert_eq!(read_signal_set(&m, BASE), Ok(0x55AA_F0F0_1234_5678));
    assert_eq!(m.bytes[0], 0x78);
}

#[test]
fn signal_set_helpers_report_invalid_pointers() {
    let mut m = mem();
    assert_eq!(write_signal_set(&mut m, 0, 1), Err(linux_errno(EFAULT)));
    assert_eq!(read_signal_set(&m, 0), Err(linux_errno(EFAULT)));
    assert_eq!(write_zeroed_sigaction(&mut m, BASE + 250), Err(linux_errno(EFAULT)));
}

#[test]
fn sigprocmask_how_decoder_accepts_supported_modes() {
    assert_eq!(decode_sigprocmask_how(SIG_BLOCK as usize), Ok(SIG_BLOCK));
    assert_eq!(decode_sigprocmask_how(SIG_UNBLOCK as usize), Ok(SIG_UNBLOCK));
    assert_eq!(decode_sigprocmask_how(SIG_SETMASK as usize), Ok(SIG_SETMASK));
    assert_eq!(decode_sigprocmask_how(3), Err(linux_errno(EINVAL)));
}

#[test]
fn sigprocmask_rejects_invalid_sigset_size() {
    let mut m = mem();
    let mut t = task(0);
    assert_eq!(sys_linux_rt_sigprocmask_shim(&mut m, &mut t, 0, 0, 0, 4), linux_errno(EINVAL));
}

#[test]
fn sigprocmask_without_task_context_returns_esrch() {
    let mut m = mem();
    let mut t = None;
    assert_eq!(sys_linux_rt_sigprocmask_shim(&mut m, &mut t, SIG_SETMASK as usize, 0, 0, 8), linux_errno(ESRCH));
}

#[test]
fn sigprocmask_rejects_invalid_how_before_task_lookup() {
    let mut m = mem();
    let mut t = None;
    assert_eq!(sys_linux_rt_sigprocmask_shim(&mut m, &mut t, usize::MAX, 0, 0, 8), linux_errno(EINVAL));
}

#[test]
fn sigprocmask_block_unblock_setmask_and_report_old() {
    let mut m = mem();
    let mut t = task(0b0001);
    write_signal_set(&mut m, BASE, 0b0110).unwrap();
    assert_eq!(sys_linux_rt_sigprocmask_shim(&mut m, &mut t, SIG_BLOCK as usize, BASE, BASE + 8, 8), 0);
    assert_eq!(t.unwrap().signal_mask, 0b0111);
    assert_eq!(read_signal_set(&m, BASE + 8), Ok(0b0001));
    write_signal_set(&mut m, BASE, 0b0010).unwrap();
    assert_eq!(sys_linux_rt_sigprocmask_shim(&mut m, &mut t, SIG_UNBLOCK as usize, BASE, 0, 8), 0);
    assert_eq!(t.unwrap().signal_mask, 0b0101);
    write_signal_set(&mut m, BASE, 0b1000).unwrap();
    assert_eq!(sys_linux_rt_sigprocmask_shim(&mut m, &mut t, SIG_SETMASK as usize, BASE, 0, 8), 0);
    assert_eq!(t.unwrap().signal_mask, 0b1000);
}

#[test]
fn sigaltstack_without_task_context_returns_esrch() {
    let mut m = mem();
    let mut t = None;
    assert_eq!(sys_linux_sigaltstack_shim(&mut m, &mut t, 0, 0), linux_errno(ESRCH));
}

#[test]
fn sigaltstack_installs_reports_and_disables() {
    let mut m = mem();
    let mut t = task(0);
    let ss = LinuxSigaltstackCompat { ss_sp: 0x7000, ss_flags: 0, ss_size: 0x4000 };
    write_sigaltstack(&mut m, BASE, &ss).unwrap();
    assert_eq!(sys_linux_sigaltstack_shim(&mut m, &mut t, BASE, BASE + 64), 0);
    assert_eq!(t.unwrap().signal_stack, Some(ss));
    assert_eq!(
        read_sigaltstack(&m, BASE + 64),
        Ok(LinuxSigaltstackCompat { ss_sp: 0, ss_flags: SS_DISABLE, ss_size: 0 })
    );
    let off = LinuxSigaltstackCompat { ss_sp: 0, ss_flags: SS_DISABLE, ss_size: 0 };
    write_sigaltstack(&mut m, BASE, &off).unwrap();
    assert_eq!(sys_linux_sigaltstack_shim(&mut m, &mut t, BASE, BASE + 64), 0);
    assert_eq!(read_sigaltstack(&m, BASE + 64), Ok(ss));
    assert_eq!(t.unwrap().signal_stack, None);
    let bad = LinuxSigaltstackCompat { ss_sp: 0x7000, ss_flags: 0x20, ss_size: 0x4000 };
    write_sigaltstack(&mut m, BASE, &bad).unwrap();
    assert_eq!(sys_linux_sigaltstack_shim(&mut m, &mut t, BASE, 0), linux_errno(EINVAL));
}

#[test]
fn sigaltstack_flag_validator_rejects_unknown_flags_and_zero_sized_enabled_stack() {
    let invalid_flags = LinuxSigaltstackCompat { ss_sp: 0x1000, ss_flags: 0x20, ss_size: 0x4000 };
    let invalid_size = LinuxSigaltstackCompat { ss_sp: 0x1000, ss_flags: 0, ss_size: 0 };
    let disabled = LinuxSigaltstackCompat { ss_sp: 0, ss_flags: SS_DISABLE, ss_size: 0 };
    assert_eq!(validate_sigaltstack_flags_and_size(&invalid_flags), Err(linux_errno(EINVAL)));
    assert_eq!(validate_sigaltstack_flags_and_size(&invalid_size), Err(linux_errno(EINVAL)));
    assert_eq!(validate_sigaltstack_flags_and_size(&disabled), Ok(()));
}

#[test]
fn sigaltstack_helpers_roundtrip_bytes() {
    let mut m = mem();
    let expected = LinuxSigaltstackCompat { ss_sp: 0x1234, ss_flags: 0, ss_size: 0x4000 };
    assert_eq!(write_sigaltstack(&mut m, BASE, &expected), Ok(()));
    assert_eq!(read_sigaltstack(&m, BASE), Ok(expected));
}

#[test]
fn sigaltstack_helpers_report_invalid_pointers() {
    let mut m = mem();
    let expected = LinuxSigaltstackCompat { ss_sp: 0, ss_flags: SS_DISABLE, ss_size: 0 };
    assert_eq!(write_sigaltstack(&mut m, 0, &expected), Err(linux_errno(EFAULT)));
    assert_eq!(read_sigaltstack(&m, 0), Err(linux_errno(EFAULT)));
}
