use vstd::prelude::*;

use crate::consts::{
    CORE_PRESSURE_SNAPSHOT_WORDS, LOTTERY_REPLAY_LATEST_WORDS, SYSCALL_ABI_FLAG_STABLE,
    SYSCALL_ABI_INFO_WORDS, SYSCALL_ABI_MAGIC, SYSCALL_ABI_MIN_COMPAT_MAJOR,
    SYSCALL_ABI_VERSION_MAJOR, SYSCALL_ABI_VERSION_MINOR, SYSCALL_ABI_VERSION_PATCH,
};
use crate::nr;

verus! {

#[derive(Debug, Clone, Copy)]
pub struct SyscallContractReport {
    pub checks: u32,
    pub failures: u32,
    pub last_error_code: u32,
}

impl SyscallContractReport {
    pub fn passed(self) -> (r: bool)
        ensures
            r == (self.failures == 0),
    {
        self.failures == 0
    }
}

/// Number of checks the self test makes.
pub const SYSCALL_CONTRACT_CHECKS: u32 = 19;

/// Whether each entry of `v` is below the next.
pub fn strictly_increasing(v: &[usize]) -> (r: bool)
    ensures
        r == (forall|i: int| 0 <= i < v@.len() - 1 ==> #[trigger] v@[i] < v@[i + 1]),
{
    if v.len() == 0 {
        return true;
    }
    let mut i: usize = 0;
    while i < v.len() - 1
        invariant
            v@.len() > 0,
            forall|k: int| 0 <= k < i && k < v@.len() - 1 ==> #[trigger] v@[k] < v@[k + 1],
        decreases v@.len() - i,
    {
        if v[i] >= v[i + 1] {
            return false;
        }
        i = i + 1;
    }
    true
}

/// Records one check: counts it, and when it fails counts the failure and
/// remembers its code.
fn check(report: &mut SyscallContractReport, code: u32, cond: bool)
    ensures
        final(report).checks == (if old(report).checks == u32::MAX { u32::MAX } else { (old(report).checks + 1) as u32 }),
        cond ==> final(report).failures == old(report).failures && final(report).last_error_code
            == old(report).last_error_code,
        !cond ==> final(report).failures == (if old(report).failures == u32::MAX { u32::MAX } else { (old(report).failures + 1) as u32 })
            && final(report).last_error_code == code,
{
    report.checks = report.checks.saturating_add(1);
    if !cond {
        report.failures = report.failures.saturating_add(1);
        report.last_error_code = code;
    }
}

/// Checks that the syscall ABI constants and the numbering of the core
/// syscalls are what user space was built against.
pub fn run_syscall_contract_self_test() -> (r: SyscallContractReport)
    ensures
        r.checks == SYSCALL_CONTRACT_CHECKS,
        r.failures == 0,
        r.last_error_code == 0,
{
    let mut report = SyscallContractReport { checks: 0, failures: 0, last_error_code: 0 };
    check(&mut report, 2001, SYSCALL_ABI_INFO_WORDS == 7);
    check(&mut report, 2002, SYSCALL_ABI_MAGIC == 0x48594241);
    check(&mut report, 2003, SYSCALL_ABI_VERSION_MAJOR >= 1);
    check(&mut report, 2004, SYSCALL_ABI_MIN_COMPAT_MAJOR <= SYSCALL_ABI_VERSION_MAJOR);
    check(&mut report, 2005, (SYSCALL_ABI_FLAG_STABLE & 0x1) == 1);
    check(&mut report, 2006, nr::GET_ABI_INFO == 45);
    check(&mut report, 2007, nr::RESOLVE_PLT == 49);
    check(&mut report, 2008, nr::VFS_CLOSE == 53);
    check(&mut report, 2013, nr::GET_CRASH_REPORT == 54);
    check(&mut report, 2014, nr::LIST_CRASH_EVENTS == 55);
    check(&mut report, 2015, nr::GET_CORE_PRESSURE_SNAPSHOT == 56);
    check(&mut report, 2016, CORE_PRESSURE_SNAPSHOT_WORDS == 18);
    check(&mut report, 2017, nr::GET_LOTTERY_REPLAY_LATEST == 57);
    check(&mut report, 2018, LOTTERY_REPLAY_LATEST_WORDS == 5);
    check(&mut report, 2019, nr::SET_POLICY_DRIFT_CONTROL == 58);
    check(&mut report, 2020, nr::GET_POLICY_DRIFT_CONTROL == 59);
    check(&mut report, 2021, nr::GET_POLICY_DRIFT_REASON_TEXT == 60);
    check(
        &mut report,
        2009,
        SYSCALL_ABI_VERSION_MINOR <= 1024 && SYSCALL_ABI_VERSION_PATCH <= 4096,
    );
    assert((SYSCALL_ABI_FLAG_STABLE & 0x1) == 1) by (bit_vector);

    let core_nrs: [usize; 61] = [
        nr::YIELD,
        nr::EXIT,
        nr::PRINT,
        nr::SET_TLS,
        nr::GET_TLS,
        nr::SET_AFFINITY,
        nr::GET_AFFINITY,
        nr::GET_LAUNCH_STATS,
        nr::GET_PROCESS_COUNT,
        nr::LIST_PROCESS_IDS,
        nr::SPAWN_PROCESS,
        nr::GET_PROCESS_IMAGE_STATE,
        nr::GET_PROCESS_MAPPING_STATE,
        nr::VFS_MOUNT_RAMFS,
        nr::VFS_LIST_MOUNTS,
        nr::GET_POWER_STATS,
        nr::SET_POWER_OVERRIDE,
        nr::CLEAR_POWER_OVERRIDE,
        nr::GET_NETWORK_STATS,
        nr::SET_NETWORK_POLLING,
        nr::TERMINATE_PROCESS,
        nr::GET_PROCESS_LAUNCH_CONTEXT,
        nr::VFS_GET_MOUNT_PATH,
        nr::VFS_UNMOUNT,
        nr::VFS_GET_STATS,
        nr::NETWORK_RESET_STATS,
        nr::NETWORK_FORCE_POLL,
        nr::SET_CSTATE_OVERRIDE,
        nr::CLEAR_CSTATE_OVERRIDE,
        nr::CLAIM_NEXT_LAUNCH_CONTEXT,
        nr::ACK_LAUNCH_CONTEXT,
        nr::GET_LAUNCH_CONTEXT_STAGE,
        nr::TERMINATE_TASK,
        nr::GET_PROCESS_ID_BY_TASK,
        nr::VFS_UNMOUNT_PATH,
        nr::NETWORK_REINITIALIZE,
        nr::CONSUME_READY_LAUNCH_CONTEXT,
        nr::EXECUTE_READY_LAUNCH_CONTEXT,
        nr::FUTEX_WAIT,
        nr::FUTEX_WAKE,
        nr::UPCALL_REGISTER,
        nr::UPCALL_UNREGISTER,
        nr::UPCALL_QUERY,
        nr::UPCALL_CONSUME,
        nr::UPCALL_INJECT_VIRQ,
        nr::GET_ABI_INFO,
        nr::SET_NETWORK_BACKPRESSURE_POLICY,
        nr::SET_NETWORK_ALERT_THRESHOLDS,
        nr::GET_NETWORK_ALERT_REPORT,
        nr::RESOLVE_PLT,
        nr::VFS_OPEN,
        nr::VFS_READ,
        nr::VFS_WRITE,
        nr::VFS_CLOSE,
        nr::GET_CRASH_REPORT,
        nr::LIST_CRASH_EVENTS,
        nr::GET_CORE_PRESSURE_SNAPSHOT,
        nr::GET_LOTTERY_REPLAY_LATEST,
        nr::SET_POLICY_DRIFT_CONTROL,
        nr::GET_POLICY_DRIFT_CONTROL,
        nr::GET_POLICY_DRIFT_REASON_TEXT,
    ];
    assert(forall|i: int| 0 <= i < 61 ==> core_nrs@[i] == i);
    let increasing = strictly_increasing(&core_nrs);
    check(&mut report, 2010, increasing);
    report
}

} // verus!
