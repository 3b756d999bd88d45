use lib::exec_stack::{
    execve_stack_layout_indexes, execve_stack_pointer_indexes, execve_stack_required_bytes, prepare_execve_user_stack,
    push_execve_user_bytes, push_execve_user_c_string, push_execve_user_word, validate_execve_auxv_entries,
    ExecveAuxEntry, ExecveAuxValue, EXECVE_AUXV_AT_ENTRY, EXECVE_AUXV_AT_EXECFN, EXECVE_AUXV_AT_NULL,
    EXECVE_AUXV_AT_PAGESZ,
};
use lib::errno::{linux_errno, EFAULT, EINVAL};
use lib::user_memory::UserMemory;
use lib::user_string::read_user_c_string;

const BASE: usize = 0x10000;

fn test_auxv(entry: usize) -> [ExecveAuxEntry<'static>; 2] {
    [
        ExecveAuxEntry { key: EXECVE_AUXV_AT_ENTRY, value: ExecveAuxValue::Word(entry) },
        ExecveAuxEntry { key: EXECVE_AUXV_AT_PAGESZ, value: ExecveAuxValue::Word(4096) },
    ]
}

fn strings(v: &[&str]) -> Vec<String> {
    v.iter().map(|s| s.to_string()).collect()
}

fn stack_word_at(mem: &UserMemory, sp: u64, index: usize) -> usize {
    mem.read_u64(sp as usize + index * 8).expect("user word") as usize
}

fn c_string_at(mem: &UserMemory, ptr: usize) -> String {
    read_user_c_string(mem, ptr, 64).expect("user string")
}

#[test]
fn execve_stack_required_bytes_accounts_for_strings_and_pointers() {
    let argv = strings(&["/bin/app", "--flag"]);
    let envp = strings(&["HOME=/"]);
    let required = execve_stack_required_bytes(&argv, &envp, &test_auxv(0x4444)).expect("size");
    assert!(required >= 64);
    assert!(required >= argv.iter().map(|s| s.len() + 1).sum::<usize>());
}

#[test]
fn execve_stack_required_bytes_exact_value() {
    // strings: 9 + 7 + 7 = 23 bytes; words: argc, 2 aux pairs, the AT_NULL
    // pair, envp NULL, 1 env, argv NULL, 2 argv = 12 words; 7 bytes of slack
    // for aligning the table.
    let argv = strings(&["/bin/app", "--flag"]);
    let envp = strings(&["HOME=/"]);
    let required = execve_stack_required_bytes(&argv, &envp, &test_auxv(0x4444)).expect("size");
    assert_eq!(required, 23 + 12 * 8 + 7);
}

#[test]
fn push_execve_user_c_string_writes_string_and_trailing_nul() {
    let mut mem = UserMemory::new(BASE, 64);
    let mut sp = (BASE + 64) as u64;
    let ptr = push_execve_user_c_string(&mut mem, &mut sp, "abc").expect("push string");
    assert_eq!(ptr, BASE + 60);
    assert_eq!(sp, (BASE + 60) as u64);
    assert_eq!(c_string_at(&mem, ptr), "abc");
    assert_eq!(mem.read_u8(ptr + 3), Some(0));
}

#[test]
fn push_helpers_report_exhausted_and_unmapped_stacks() {
    let mut mem = UserMemory::new(BASE, 64);
    let mut sp: u64 = 4;
    assert_eq!(push_execve_user_word(&mut mem, &mut sp, 8, 1), Err(linux_errno(EINVAL)));
    assert_eq!(sp, 4);
    let mut sp2: u64 = (BASE + 4096) as u64;
    assert_eq!(push_execve_user_word(&mut mem, &mut sp2, 8, 1), Err(linux_errno(EFAULT)));
    let mut sp3 = (BASE + 64) as u64;
    assert_eq!(push_execve_user_word(&mut mem, &mut sp3, 8, 0x1122), Ok(()));
    assert_eq!(mem.read_u64(BASE + 56), Some(0x1122));
    let ptr = push_execve_user_bytes(&mut mem, &mut sp3, &[9, 8, 7]).expect("bytes");
    assert_eq!(ptr, BASE + 53);
    assert_eq!(mem.read_bytes(BASE + 53, 3), Some(vec![9, 8, 7]));
}

#[test]
fn prepare_execve_user_stack_rejects_too_small_stack() {
    let argv = strings(&["prog"]);
    let envp = strings(&["KEY=VALUE"]);
    let auxv = test_auxv(0x1234);
    let required = execve_stack_required_bytes(&argv, &envp, &auxv).expect("size");
    let mut mem = UserMemory::new(BASE, 1024);
    assert_eq!(
        prepare_execve_user_stack(&mut mem, BASE as u64, (required - 1) as u64, &argv, &envp, &auxv),
        Err(linux_errno(EINVAL))
    );
}

#[test]
fn prepare_execve_user_stack_reports_unmapped_stack() {
    let argv = strings(&["prog"]);
    let mut mem = UserMemory::new(BASE, 64);
    assert_eq!(
        prepare_execve_user_stack(&mut mem, (BASE + 0x1000) as u64, 512, &argv, &[], &test_auxv(1)),
        Err(linux_errno(EFAULT))
    );
}

#[test]
fn prepare_execve_user_stack_places_argc_at_stack_top_word() {
    let argv = strings(&["prog", "arg1"]);
    let envp = strings(&["ENV=1"]);
    let mut mem = UserMemory::new(BASE, 512);
    let sp = prepare_execve_user_stack(&mut mem, BASE as u64, 512, &argv, &envp, &test_auxv(0x4444))
        .expect("stack prepared");
    assert_eq!(sp % 8, 0);
    assert_eq!(stack_word_at(&mem, sp, 0), argv.len());
}

#[test]
fn prepare_execve_user_stack_writes_argv_and_envp_strings() {
    let argv = strings(&["prog", "arg1"]);
    let envp = strings(&["ENV=1", "HOME=/root"]);
    let mut mem = UserMemory::new(BASE, 768);
    let auxv = test_auxv(0x4444);
    let sp = prepare_execve_user_stack(&mut mem, BASE as u64, 768, &argv, &envp, &auxv).expect("stack prepared");
    assert_eq!(stack_word_at(&mem, sp, 0), argv.len());
    let (_, envp_null_index, first_argv_index) = execve_stack_layout_indexes(argv.len(), envp.len(), auxv.len());
    let env_null = stack_word_at(&mem, sp, envp_null_index);
    let env0_ptr = stack_word_at(&mem, sp, envp_null_index + envp.len());
    let env1_ptr = stack_word_at(&mem, sp, envp_null_index + envp.len() - 1);
    let argv_null = stack_word_at(&mem, sp, envp_null_index + envp.len() + 1);
    let argv0_ptr = stack_word_at(&mem, sp, first_argv_index);
    let argv1_ptr = stack_word_at(&mem, sp, first_argv_index - 1);
    assert_eq!(env_null, 0);
    assert_eq!(c_string_at(&mem, argv0_ptr), "prog");
    assert_eq!(c_string_at(&mem, argv1_ptr), "arg1");
    assert_eq!(argv_null, 0);
    assert_eq!(c_string_at(&mem, env0_ptr), "ENV=1");
    assert_eq!(c_string_at(&mem, env1_ptr), "HOME=/root");
}

#[test]
fn prepare_execve_user_stack_writes_auxv_entry_and_null_terminator() {
    let argv = strings(&["prog"]);
    let envp = strings(&["ENV=1"]);
    let mut mem = UserMemory::new(BASE, 512);
    let entry = 0xDEAD_BEEFusize;
    let auxv = test_auxv(entry);
    let sp = prepare_execve_user_stack(&mut mem, BASE as u64, 512, &argv, &envp, &auxv).expect("stack prepared");
    let (aux_entry_index, _, _) = execve_stack_layout_indexes(argv.len(), envp.len(), auxv.len());
    assert_eq!(stack_word_at(&mem, sp, aux_entry_index), EXECVE_AUXV_AT_ENTRY);
    assert_eq!(stack_word_at(&mem, sp, aux_entry_index + 1), entry);
    assert_eq!(stack_word_at(&mem, sp, aux_entry_index + 2), EXECVE_AUXV_AT_PAGESZ);
    assert_eq!(stack_word_at(&mem, sp, aux_entry_index + 3), 4096);
    assert_eq!(stack_word_at(&mem, sp, aux_entry_index + 4), EXECVE_AUXV_AT_NULL);
    assert_eq!(stack_word_at(&mem, sp, aux_entry_index + 5), 0);
}

#[test]
fn prepare_execve_user_stack_writes_string_backed_auxv_entries() {
    let argv = strings(&["prog"]);
    let mut mem = UserMemory::new(BASE, 512);
    let auxv = [
        ExecveAuxEntry { key: EXECVE_AUXV_AT_ENTRY, value: ExecveAuxValue::Word(0x1234) },
        ExecveAuxEntry { key: EXECVE_AUXV_AT_EXECFN, value: ExecveAuxValue::CString("/bin/prog") },
    ];
    let sp = prepare_execve_user_stack(&mut mem, BASE as u64, 512, &argv, &[], &auxv).expect("stack prepared");
    let (aux_entry_index, _, _) = execve_stack_layout_indexes(argv.len(), 0, auxv.len());
    assert_eq!(stack_word_at(&mem, sp, aux_entry_index + 2), EXECVE_AUXV_AT_EXECFN);
    let execfn_ptr = stack_word_at(&mem, sp, aux_entry_index + 3);
    assert_eq!(c_string_at(&mem, execfn_ptr), "/bin/prog");
}

#[test]
fn prepare_execve_user_stack_writes_binary_backed_auxv_entries() {
    let argv = strings(&["prog"]);
    let mut mem = UserMemory::new(BASE, 512);
    let random = [0x11u8, 0x22, 0x33, 0x44];
    let auxv = [
        ExecveAuxEntry { key: EXECVE_AUXV_AT_ENTRY, value: ExecveAuxValue::Word(0x1234) },
        ExecveAuxEntry { key: 25, value: ExecveAuxValue::Bytes(&random) },
    ];
    let sp = prepare_execve_user_stack(&mut mem, BASE as u64, 512, &argv, &[], &auxv).expect("stack prepared");
    let (aux_entry_index, _, _) = execve_stack_layout_indexes(argv.len(), 0, auxv.len());
    assert_eq!(stack_word_at(&mem, sp, aux_entry_index + 2), 25);
    let random_ptr = stack_word_at(&mem, sp, aux_entry_index + 3);
    assert_eq!(mem.read_bytes(random_ptr, 4), Some(random.to_vec()));
}

#[test]
fn execve_stack_layout_indexes_handle_empty_vectors() {
    let (aux_entry_index, envp_null_index, first_argv_index) = execve_stack_layout_indexes(0, 0, test_auxv(0).len());
    assert_eq!(aux_entry_index, 1);
    assert_eq!(envp_null_index, 7);
    assert_eq!(first_argv_index, 8);
}

#[test]
fn execve_stack_pointer_indexes_follow_the_layout() {
    // 2 auxiliary pairs: the environment terminator is word 7, envp[0]..envp[1]
    // sit at 9 and 8, the argument terminator at 10, argv[0]..argv[2] at 13..11.
    let auxv_len = test_auxv(0).len();
    let (argv0_index, env0_index) = execve_stack_pointer_indexes(3, 2, auxv_len, 0, 0);
    let (argv2_index, env1_index) = execve_stack_pointer_indexes(3, 2, auxv_len, 2, 1);
    assert_eq!(env0_index, 9);
    assert_eq!(env1_index, 8);
    assert_eq!(argv0_index, 13);
    assert_eq!(argv2_index, 11);
    let (clamped_argv, clamped_env) = execve_stack_pointer_indexes(3, 2, auxv_len, 99, 99);
    assert_eq!(clamped_argv, 0);
    assert_eq!(clamped_env, 7);
}

#[test]
fn prepare_execve_user_stack_handles_empty_argv_and_envp() {
    let mut mem = UserMemory::new(BASE, 256);
    let auxv = test_auxv(0x1111);
    let sp = prepare_execve_user_stack(&mut mem, BASE as u64, 256, &[], &[], &auxv).expect("stack prepared");
    assert_eq!(stack_word_at(&mem, sp, 0), 0);
    let (_, envp_null_index, _) = execve_stack_layout_indexes(0, 0, auxv.len());
    assert_eq!(stack_word_at(&mem, sp, envp_null_index), 0);
    assert_eq!(stack_word_at(&mem, sp, envp_null_index + 1), 0);
}

#[test]
fn prepare_execve_user_stack_keeps_pointer_order_for_longer_vectors() {
    let argv = strings(&["prog", "--alpha", "--beta"]);
    let envp = strings(&["HOME=/tmp", "TERM=xterm"]);
    let mut mem = UserMemory::new(BASE, 1024);
    let auxv = test_auxv(0x2222);
    let sp = prepare_execve_user_stack(&mut mem, BASE as u64, 1024, &argv, &envp, &auxv).expect("stack prepared");
    let (argv0_index, env0_index) = execve_stack_pointer_indexes(argv.len(), envp.len(), auxv.len(), 0, 0);
    let (argv1_index, env1_index) = execve_stack_pointer_indexes(argv.len(), envp.len(), auxv.len(), 1, 1);
    let (argv2_index, _) = execve_stack_pointer_indexes(argv.len(), envp.len(), auxv.len(), 2, 0);
    let argv0_ptr = stack_word_at(&mem, sp, argv0_index);
    let argv1_ptr = stack_word_at(&mem, sp, argv1_index);
    let argv2_ptr = stack_word_at(&mem, sp, argv2_index);
    let env0_ptr = stack_word_at(&mem, sp, env0_index);
    let env1_ptr = stack_word_at(&mem, sp, env1_index);
    assert_eq!(c_string_at(&mem, argv0_ptr), "prog");
    assert_eq!(c_string_at(&mem, argv1_ptr), "--alpha");
    assert_eq!(c_string_at(&mem, argv2_ptr), "--beta");
    assert_eq!(c_string_at(&mem, env0_ptr), "HOME=/tmp");
    assert_eq!(c_string_at(&mem, env1_ptr), "TERM=xterm");
    assert!(argv0_ptr < argv1_ptr);
    assert!(argv1_ptr < argv2_ptr);
    assert!(env0_ptr < env1_ptr);
}

#[test]
fn prepare_execve_user_stack_writes_null_terminators_after_vectors() {
    let argv = strings(&["prog"]);
    let envp = strings(&["A=1", "B=2"]);
    let mut mem = UserMemory::new(BASE, 512);
    let auxv = test_auxv(0x3333);
    let sp = prepare_execve_user_stack(&mut mem, BASE as u64, 512, &argv, &envp, &auxv).expect("stack prepared");
    let (_, envp_null_index, first_argv_index) = execve_stack_layout_indexes(argv.len(), envp.len(), auxv.len());
    assert_eq!(stack_word_at(&mem, sp, envp_null_index), 0);
    assert_eq!(stack_word_at(&mem, sp, first_argv_index - argv.len()), 0);
}

#[test]
fn prepare_execve_user_stack_keeps_auxv_before_envp_and_argv_tables() {
    let argv = strings(&["prog", "arg"]);
    let envp = strings(&["LANG=C"]);
    let mut mem = UserMemory::new(BASE, 512);
    let auxv = test_auxv(0xABCD);
    let sp = prepare_execve_user_stack(&mut mem, BASE as u64, 512, &argv, &envp, &auxv).expect("stack prepared");
    let (aux_entry_index, envp_null_index, first_argv_index) =
        execve_stack_layout_indexes(argv.len(), envp.len(), auxv.len());
    assert_eq!(stack_word_at(&mem, sp, aux_entry_index), EXECVE_AUXV_AT_ENTRY);
    assert_eq!(stack_word_at(&mem, sp, envp_null_index), 0);
    assert!(aux_entry_index < envp_null_index);
    assert!(envp_null_index < first_argv_index);
}

#[test]
fn prepare_execve_user_stack_rejects_auxv_entries_containing_at_null_key() {
    let argv = strings(&["prog"]);
    let mut mem = UserMemory::new(BASE, 256);
    let auxv = [ExecveAuxEntry { key: EXECVE_AUXV_AT_NULL, value: ExecveAuxValue::Word(0) }];
    let before = mem.bytes.clone();
    let rc = prepare_execve_user_stack(&mut mem, BASE as u64, 256, &argv, &[], &auxv);
    assert_eq!(rc, Err(linux_errno(EINVAL)));
    assert_eq!(mem.bytes, before);
    assert_eq!(validate_execve_auxv_entries(&auxv), Err(linux_errno(EINVAL)));
    assert_eq!(validate_execve_auxv_entries(&test_auxv(1)), Ok(()));
}

#[test]
fn prepare_execve_user_stack_leaves_memory_outside_the_stack_alone() {
    let argv = strings(&["prog"]);
    let mut mem = UserMemory::new(BASE, 1024);
    for b in mem.bytes.iter_mut() {
        *b = 0xAA;
    }
    let sp = prepare_execve_user_stack(&mut mem, (BASE + 256) as u64, 512, &argv, &[], &test_auxv(1)).expect("ok");
    assert!(sp >= (BASE + 256) as u64);
    assert!(mem.bytes[..256].iter().all(|b| *b == 0xAA));
    assert!(mem.bytes[768..].iter().all(|b| *b == 0xAA));
}
