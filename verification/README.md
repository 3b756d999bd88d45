# A verified kernel syscall layer

The system-call layer of a small x86-64 kernel, in Verus: the decisions a
syscall makes (argument checks, user-memory access, record layouts, routing,
counters, pressure classification, startup bookkeeping) are executable functions
whose contracts Verus proves.

Layout:

- `src/user_memory.rs`, `src/user_string.rs`: a model of user memory as a region
  of bytes, with checked reads and writes and NUL-terminated string reading.
- `src/syscall_dispatch.rs`, `src/linux_dispatch.rs`, `src/linux_sysno.rs`: routing
  of the kernel's own syscall numbers and of the Linux-compatible ones.
- `src/fd_io.rs`, `src/dir_info.rs`, `src/path_ops.rs`, `src/memory_ops.rs`,
  `src/identity.rs`, `src/linux_misc.rs`: the Linux file, directory, path,
  memory and identity syscalls.
- `src/net_msg.rs`, `src/net_socket.rs`, `src/display_bridge.rs`: sockets,
  `sendmsg`/`recvmsg` and the user-space display bridge.
- `src/signal.rs`, `src/poll_select.rs`, `src/exec.rs`, `src/exec_stack.rs`,
  `src/clone_ns.rs`: signals, `poll`, `execve` with its initial stack, `clone`
  and namespaces.
- `src/control_plane.rs`, `src/control_plane_ops.rs`, `src/ipc_control.rs`: the
  kernel's control-plane syscalls, futexes and upcalls.
- `src/pressure.rs`, `src/stats_api.rs`, `src/startup.rs`, `src/process_registry.rs`,
  `src/rcu.rs`, `src/sync.rs`, `src/task.rs`: kernel-wide state.

Where a syscall needs a subsystem that performs outside work (the VFS, the
network stack, the process backend), the library takes that subsystem's answer
as an argument and states what the syscall returns for each answer.
