use vstd::prelude::*;

verus! {

pub const YIELD: usize = 0;
pub const EXIT: usize = 1;
pub const PRINT: usize = 2;
pub const SET_TLS: usize = 3;
pub const GET_TLS: usize = 4;
pub const SET_AFFINITY: usize = 5;
pub const GET_AFFINITY: usize = 6;
pub const GET_LAUNCH_STATS: usize = 7;
pub const GET_PROCESS_COUNT: usize = 8;
pub const LIST_PROCESS_IDS: usize = 9;
pub const SPAWN_PROCESS: usize = 10;
pub const GET_PROCESS_IMAGE_STATE: usize = 11;
pub const GET_PROCESS_MAPPING_STATE: usize = 12;
pub const VFS_MOUNT_RAMFS: usize = 13;
pub const VFS_LIST_MOUNTS: usize = 14;
pub const GET_POWER_STATS: usize = 15;
pub const SET_POWER_OVERRIDE: usize = 16;
pub const CLEAR_POWER_OVERRIDE: usize = 17;
pub const GET_NETWORK_STATS: usize = 18;
pub const SET_NETWORK_POLLING: usize = 19;
pub const TERMINATE_PROCESS: usize = 20;
pub const GET_PROCESS_LAUNCH_CONTEXT: usize = 21;
pub const VFS_GET_MOUNT_PATH: usize = 22;
pub const VFS_UNMOUNT: usize = 23;
pub const VFS_GET_STATS: usize = 24;
pub const NETWORK_RESET_STATS: usize = 25;
pub const NETWORK_FORCE_POLL: usize = 26;
pub const SET_CSTATE_OVERRIDE: usize = 27;
pub const CLEAR_CSTATE_OVERRIDE: usize = 28;
pub const CLAIM_NEXT_LAUNCH_CONTEXT: usize = 29;
pub const ACK_LAUNCH_CONTEXT: usize = 30;
pub const GET_LAUNCH_CONTEXT_STAGE: usize = 31;
pub const TERMINATE_TASK: usize = 32;
pub const GET_PROCESS_ID_BY_TASK: usize = 33;
pub const VFS_UNMOUNT_PATH: usize = 34;
pub const NETWORK_REINITIALIZE: usize = 35;
pub const CONSUME_READY_LAUNCH_CONTEXT: usize = 36;
pub const EXECUTE_READY_LAUNCH_CONTEXT: usize = 37;
pub const FUTEX_WAIT: usize = 38;
pub const FUTEX_WAKE: usize = 39;
pub const UPCALL_REGISTER: usize = 40;
pub const UPCALL_UNREGISTER: usize = 41;
pub const UPCALL_QUERY: usize = 42;
pub const UPCALL_CONSUME: usize = 43;
pub const UPCALL_INJECT_VIRQ: usize = 44;
pub const GET_ABI_INFO: usize = 45;
pub const SET_NETWORK_BACKPRESSURE_POLICY: usize = 46;
pub const SET_NETWORK_ALERT_THRESHOLDS: usize = 47;
pub const GET_NETWORK_ALERT_REPORT: usize = 48;
pub const RESOLVE_PLT: usize = 49;
pub const VFS_OPEN: usize = 50;
pub const VFS_READ: usize = 51;
pub const VFS_WRITE: usize = 52;
pub const VFS_CLOSE: usize = 53;
pub const GET_CRASH_REPORT: usize = 54;
pub const LIST_CRASH_EVENTS: usize = 55;
pub const GET_CORE_PRESSURE_SNAPSHOT: usize = 56;
pub const GET_LOTTERY_REPLAY_LATEST: usize = 57;
pub const SET_POLICY_DRIFT_CONTROL: usize = 58;
pub const GET_POLICY_DRIFT_CONTROL: usize = 59;
pub const GET_POLICY_DRIFT_REASON_TEXT: usize = 60;

} // verus!
