use vstd::prelude::*;

pub mod arith;
pub mod clone_ns;
pub mod consts;
pub mod control_plane;
pub mod control_plane_ops;
pub mod dir_info;
pub mod display_bridge;
pub mod errno;
pub mod exec;
pub mod exec_stack;
pub mod fd_io;
pub mod signal;
pub mod frame;
pub mod identity;
pub mod ipc_control;
pub mod linux_misc;
pub mod linux_dispatch;
pub mod linux_shim;
pub mod linux_sysno;
pub mod memory_ops;
pub mod net_msg;
pub mod net_socket;
pub mod nr;
pub mod path_ops;
pub mod poll_select;
pub mod pressure;
pub mod process_registry;
pub mod process_types;
pub mod rcu;
pub mod robust_list;
pub mod startup;
pub mod stats_api;
pub mod syscall_contract;
pub mod syscall_dispatch;
pub mod sync;
pub mod task;
pub mod user_memory;
pub mod user_string;

verus! {

} // verus!
