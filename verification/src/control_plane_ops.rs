use vstd::prelude::*;

use crate::consts::{required_bytes, PROCESS_LAUNCH_CTX_WORDS, PROCESS_LIST_LIMIT};
use crate::control_plane::{
    invalid_arg, launch_words, write_launch_context_response, write_user_words, write_words_ok,
    write_words_outcome, BinarySwitch, CState, CStateOverrideMode, LaunchContext, PState,
    PowerOverrideMode,
};
use crate::user_memory::{usize_words_bytes, UserMemory, SYSCALL_ERR_INVALID_ARG};

verus! {

/// Counters of the power manager.
#[derive(Debug, Clone, Copy)]
pub struct PowerStats {
    pub idle_calls: u64,
    pub c1_entries: u64,
    pub c2_entries: u64,
    pub c3_entries: u64,
    pub pstate_switches: u64,
    pub current_pstate: PState,
    pub policy_override_active: bool,
    pub policy_override_set_calls: u64,
    pub policy_override_clear_calls: u64,
    pub cstate_override_active: bool,
    pub cstate_override_set_calls: u64,
    pub cstate_override_clear_calls: u64,
    pub acpi_profile_loaded: bool,
    pub policy_guard_hits: u64,
    pub runqueue_clamp_events: u64,
    pub failsafe_idle_fallbacks: u64,
    pub override_rejects_no_acpi: u64,
}

pub open spec fn b2w(b: bool) -> usize {
    if b { 1 } else { 0 }
}

pub open spec fn pstate_code(p: PState) -> usize {
    match p {
        PState::HighPerf => 0,
        PState::Balanced => 1,
        PState::PowerSave => 2,
    }
}

pub open spec fn power_words(p: PowerStats) -> Seq<usize> {
    seq![
        p.idle_calls as usize,
        p.c1_entries as usize,
        p.c2_entries as usize,
        p.c3_entries as usize,
        p.pstate_switches as usize,
        pstate_code(p.current_pstate),
        b2w(p.policy_override_active),
        p.policy_override_set_calls as usize,
        p.policy_override_clear_calls as usize,
        b2w(p.cstate_override_active),
        p.cstate_override_set_calls as usize,
        p.cstate_override_clear_calls as usize,
        b2w(p.acpi_profile_loaded),
        p.policy_guard_hits as usize,
        p.runqueue_clamp_events as usize,
        p.failsafe_idle_fallbacks as usize,
        p.override_rejects_no_acpi as usize,
    ]
}

fn bool_word(b: bool) -> (r: usize)
    ensures
        r == b2w(b),
{
    if b { 1 } else { 0 }
}

/// Copies the power counters to the user buffer.  `access` is the verdict
/// of the control-plane access check.
pub fn sys_get_power_stats(
    mem: &mut UserMemory,
    ptr: usize,
    len: usize,
    access: Result<(), usize>,
    pwr: &PowerStats,
) -> (r: usize)
    ensures
        access matches Err(e) ==> r == e && *final(mem) == *old(mem),
        access is Ok ==> r == write_words_outcome(*old(mem), ptr as int, len as int, 17),
        access is Ok && write_words_ok(*old(mem), ptr as int, len as int, 17) ==> final(mem).bytes@
            == old(mem).stored(ptr as int, usize_words_bytes(power_words(*pwr))),
        !(access is Ok && write_words_ok(*old(mem), ptr as int, len as int, 17)) ==> final(mem).bytes@
            == old(mem).bytes@,
        final(mem).base == old(mem).base,
{
    if let Err(err) = access {
        return err;
    }
    let pstate: usize = match pwr.current_pstate {
        PState::HighPerf => 0,
        PState::Balanced => 1,
        PState::PowerSave => 2,
    };
    let mut w: Vec<usize> = Vec::new();
    w.push(pwr.idle_calls as usize);
    w.push(pwr.c1_entries as usize);
    w.push(pwr.c2_entries as usize);
    w.push(pwr.c3_entries as usize);
    w.push(pwr.pstate_switches as usize);
    w.push(pstate);
    w.push(bool_word(pwr.policy_override_active));
    w.push(pwr.policy_override_set_calls as usize);
    w.push(pwr.policy_override_clear_calls as usize);
    w.push(bool_word(pwr.cstate_override_active));
    w.push(pwr.cstate_override_set_calls as usize);
    w.push(pwr.cstate_override_clear_calls as usize);
    w.push(bool_word(pwr.acpi_profile_loaded));
    w.push(pwr.policy_guard_hits as usize);
    w.push(pwr.runqueue_clamp_events as usize);
    w.push(pwr.failsafe_idle_fallbacks as usize);
    w.push(pwr.override_rejects_no_acpi as usize);
    assert(w@ =~= power_words(*pwr));
    write_user_words(mem, ptr, len, w.as_slice())
}

/// Checks a P-state override request: the state to hand to the power
/// manager, or the value to return.
pub fn sys_set_power_override(mode: usize, access: Result<(), usize>) -> (r: Result<PState, usize>)
    ensures
        access matches Err(e) ==> r == Err::<PState, usize>(e),
        access is Ok && mode > 2 ==> r == Err::<PState, usize>(SYSCALL_ERR_INVALID_ARG),
        access is Ok && mode == 0 ==> r == Ok::<PState, usize>(PState::HighPerf),
        access is Ok && mode == 1 ==> r == Ok::<PState, usize>(PState::Balanced),
        access is Ok && mode == 2 ==> r == Ok::<PState, usize>(PState::PowerSave),
{
    if let Err(err) = access {
        return Err(err);
    }
    match PowerOverrideMode::from_usize(mode) {
        Some(m) => Ok(m.to_kernel()),
        None => Err(invalid_arg()),
    }
}

/// The value returned once the power manager accepted or refused an
/// override.
pub fn override_outcome(accepted: bool) -> (r: usize)
    ensures
        accepted ==> r == 0,
        !accepted ==> r == SYSCALL_ERR_INVALID_ARG,
{
    if accepted { 0 } else { invalid_arg() }
}

/// Clearing the P-state override: zero when allowed (the override is then
/// cleared), else the access error.
pub fn sys_clear_power_override(access: Result<(), usize>) -> (r: usize)
    ensures
        access matches Err(e) ==> r == e,
        access is Ok ==> r == 0,
{
    match access {
        Err(err) => err,
        Ok(()) => 0,
    }
}

/// Checks a C-state override request.
pub fn sys_set_cstate_override(mode: usize, access: Result<(), usize>) -> (r: Result<CState, usize>)
    ensures
        access matches Err(e) ==> r == Err::<CState, usize>(e),
        access is Ok && mode > 2 ==> r == Err::<CState, usize>(SYSCALL_ERR_INVALID_ARG),
        access is Ok && mode == 0 ==> r == Ok::<CState, usize>(CState::C1),
        access is Ok && mode == 1 ==> r == Ok::<CState, usize>(CState::C2),
        access is Ok && mode == 2 ==> r == Ok::<CState, usize>(CState::C3),
{
    if let Err(err) = access {
        return Err(err);
    }
    match CStateOverrideMode::from_usize(mode) {
        Some(m) => Ok(m.to_kernel()),
        None => Err(invalid_arg()),
    }
}

/// Clearing the C-state override.
pub fn sys_clear_cstate_override(access: Result<(), usize>) -> (r: usize)
    ensures
        access matches Err(e) ==> r == e,
        access is Ok ==> r == 0,
{
    match access {
        Err(err) => err,
        Ok(()) => 0,
    }
}

/// Counters of the network bridge.
#[derive(Debug, Clone, Copy)]
pub struct NetworkBridgeStats {
    pub smoltcp_bridge_inits: u64,
    pub smoltcp_polls: u64,
    pub smoltcp_rx_frames: u64,
    pub smoltcp_tx_frames: u64,
    pub smoltcp_runtime_ready: bool,
    pub smoltcp_runtime_poll_enabled: bool,
    pub smoltcp_init_errors: u64,
    pub smoltcp_poll_errors: u64,
    pub smoltcp_poll_skips: u64,
    pub smoltcp_runtime_control_updates: u64,
}

pub open spec fn network_words(n: NetworkBridgeStats) -> Seq<usize> {
    seq![
        n.smoltcp_bridge_inits as usize,
        n.smoltcp_polls as usize,
        n.smoltcp_rx_frames as usize,
        n.smoltcp_tx_frames as usize,
        b2w(n.smoltcp_runtime_ready),
        b2w(n.smoltcp_runtime_poll_enabled),
        n.smoltcp_init_errors as usize,
        n.smoltcp_poll_errors as usize,
        n.smoltcp_poll_skips as usize,
        n.smoltcp_runtime_control_updates as usize,
    ]
}

/// Copies the network bridge counters to the user buffer.
pub fn sys_get_network_stats(
    mem: &mut UserMemory,
    ptr: usize,
    len: usize,
    access: Result<(), usize>,
    net: &NetworkBridgeStats,
) -> (r: usize)
    ensures
        access matches Err(e) ==> r == e && *final(mem) == *old(mem),
        access is Ok ==> r == write_words_outcome(*old(mem), ptr as int, len as int, 10),
        access is Ok && write_words_ok(*old(mem), ptr as int, len as int, 10) ==> final(mem).bytes@
            == old(mem).stored(ptr as int, usize_words_bytes(network_words(*net))),
        !(access is Ok && write_words_ok(*old(mem), ptr as int, len as int, 10)) ==> final(mem).bytes@
            == old(mem).bytes@,
        final(mem).base == old(mem).base,
{
    if let Err(err) = access {
        return err;
    }
    let mut w: Vec<usize> = Vec::new();
    w.push(net.smoltcp_bridge_inits as usize);
    w.push(net.smoltcp_polls as usize);
    w.push(net.smoltcp_rx_frames as usize);
    w.push(net.smoltcp_tx_frames as usize);
    w.push(bool_word(net.smoltcp_runtime_ready));
    w.push(bool_word(net.smoltcp_runtime_poll_enabled));
    w.push(net.smoltcp_init_errors as usize);
    w.push(net.smoltcp_poll_errors as usize);
    w.push(net.smoltcp_poll_skips as usize);
    w.push(net.smoltcp_runtime_control_updates as usize);
    assert(w@ =~= network_words(*net));
    write_user_words(mem, ptr, len, w.as_slice())
}

/// Checks a request to turn runtime polling on or off: the setting to
/// apply (after which the call returns zero), or the value to return.
pub fn sys_set_network_polling(enable: usize, access: Result<(), usize>) -> (r: Result<bool, usize>)
    ensures
        access matches Err(e) ==> r == Err::<bool, usize>(e),
        access is Ok && enable > 1 ==> r == Err::<bool, usize>(SYSCALL_ERR_INVALID_ARG),
        access is Ok && enable <= 1 ==> r == Ok::<bool, usize>(enable == 1),
{
    if let Err(err) = access {
        return Err(err);
    }
    match BinarySwitch::from_usize(enable) {
        Some(mode) => Ok(mode.is_enabled()),
        None => Err(invalid_arg()),
    }
}

/// Resetting the network counters: zero when allowed, else the access
/// error.
pub fn sys_network_reset_stats(access: Result<(), usize>) -> (r: usize)
    ensures
        access matches Err(e) ==> r == e,
        access is Ok ==> r == 0,
{
    match access {
        Err(err) => err,
        Ok(()) => 0,
    }
}

/// Forcing one network poll: the poll's result when allowed, else the
/// access error.  `poll_once` is consulted only when access is granted.
pub fn sys_network_force_poll(access: Result<(), usize>, poll_once: bool) -> (r: usize)
    ensures
        access matches Err(e) ==> r == e,
        access is Ok ==> r == b2w(poll_once),
{
    match access {
        Err(err) => err,
        Ok(()) => bool_word(poll_once),
    }
}

/// Reinitialising the network runtime: zero on success, an invalid
/// argument when the runtime refused, else the access error.
pub fn sys_network_reinitialize(access: Result<(), usize>, reinit_ok: bool) -> (r: usize)
    ensures
        access matches Err(e) ==> r == e,
        access is Ok && reinit_ok ==> r == 0,
        access is Ok && !reinit_ok ==> r == SYSCALL_ERR_INVALID_ARG,
{
    match access {
        Err(err) => err,
        Ok(()) => if reinit_ok { 0 } else { invalid_arg() },
    }
}

/// Copies the launch context of a process (`ctx`, when it exists) to the
/// user buffer; returns the record size.
pub fn sys_get_process_launch_context(
    mem: &mut UserMemory,
    ptr: usize,
    len: usize,
    ctx: Option<LaunchContext>,
) -> (r: usize)
    ensures
        ctx is None ==> r == SYSCALL_ERR_INVALID_ARG && *final(mem) == *old(mem),
        ctx matches Some(c) ==> {
            &&& write_words_ok(*old(mem), ptr as int, len as int, 8) ==> r == 64
                && final(mem).bytes@ == old(mem).stored(ptr as int, usize_words_bytes(launch_words(c)))
            &&& !write_words_ok(*old(mem), ptr as int, len as int, 8) ==> r == write_words_outcome(
                *old(mem),
                ptr as int,
                len as int,
                8,
            ) && final(mem).bytes@ == old(mem).bytes@
        },
        final(mem).base == old(mem).base,
{
    match ctx {
        None => invalid_arg(),
        Some(c) => write_launch_context_response(mem, ptr, len, c, required_bytes(PROCESS_LAUNCH_CTX_WORDS)),
    }
}

/// Copies a claimed (or consumed) launch context to the user buffer and
/// returns its process id; zero when there was none.
pub fn sys_claim_next_launch_context(
    mem: &mut UserMemory,
    ptr: usize,
    len: usize,
    ctx: Option<LaunchContext>,
) -> (r: usize)
    ensures
        ctx is None ==> r == 0 && *final(mem) == *old(mem),
        ctx matches Some(c) ==> {
            &&& write_words_ok(*old(mem), ptr as int, len as int, 8) ==> r == c.process_id
                && final(mem).bytes@ == old(mem).stored(ptr as int, usize_words_bytes(launch_words(c)))
            &&& !write_words_ok(*old(mem), ptr as int, len as int, 8) ==> r == write_words_outcome(
                *old(mem),
                ptr as int,
                len as int,
                8,
            ) && final(mem).bytes@ == old(mem).bytes@
        },
        final(mem).base == old(mem).base,
{
    match ctx {
        None => 0,
        Some(c) => write_launch_context_response(mem, ptr, len, c, c.process_id),
    }
}

/// The consuming counterpart of `sys_claim_next_launch_context`.
pub fn sys_consume_ready_launch_context(
    mem: &mut UserMemory,
    ptr: usize,
    len: usize,
    ctx: Option<LaunchContext>,
) -> (r: usize)
    ensures
        ctx is None ==> r == 0 && *final(mem) == *old(mem),
        ctx matches Some(c) ==> {
            &&& write_words_ok(*old(mem), ptr as int, len as int, 8) ==> r == c.process_id
                && final(mem).bytes@ == old(mem).stored(ptr as int, usize_words_bytes(launch_words(c)))
            &&& !write_words_ok(*old(mem), ptr as int, len as int, 8) ==> r == write_words_outcome(
                *old(mem),
                ptr as int,
                len as int,
                8,
            ) && final(mem).bytes@ == old(mem).bytes@
        },
        final(mem).base == old(mem).base,
{
    match ctx {
        None => 0,
        Some(c) => write_launch_context_response(mem, ptr, len, c, c.process_id),
    }
}

/// Decodes the success flag of a launch acknowledgement.
pub fn sys_ack_launch_context(success_flag: usize) -> (r: Result<bool, usize>)
    ensures
        success_flag > 1 ==> r == Err::<bool, usize>(SYSCALL_ERR_INVALID_ARG),
        success_flag <= 1 ==> r == Ok::<bool, usize>(success_flag == 1),
{
    match BinarySwitch::from_usize(success_flag) {
        Some(mode) => Ok(mode.is_enabled()),
        None => Err(invalid_arg()),
    }
}

/// The value returned once the launcher accepted or refused the
/// acknowledgement.
pub fn ack_outcome(acknowledged: bool) -> (r: usize)
    ensures
        acknowledged ==> r == 0,
        !acknowledged ==> r == SYSCALL_ERR_INVALID_ARG,
{
    if acknowledged { 0 } else { invalid_arg() }
}

/// The launch stage of a process, or `usize::MAX` when it has none.
pub fn sys_get_launch_context_stage(stage: Option<usize>) -> (r: usize)
    ensures
        stage matches Some(s) ==> r == s,
        stage is None ==> r == usize::MAX,
{
    match stage {
        Some(s) => s,
        None => usize::MAX,
    }
}

/// The process id of the context executed on this CPU, or zero.
pub fn sys_execute_ready_launch_context(ctx: Option<LaunchContext>) -> (r: usize)
    ensures
        ctx matches Some(c) ==> r == c.process_id,
        ctx is None ==> r == 0,
{
    match ctx {
        Some(c) => c.process_id,
        None => 0,
    }
}

/// The number of live processes.
pub fn sys_get_process_count(count: usize) -> (r: usize)
    ensures
        r == count,
{
    count
}

/// The process id owning a task, or `usize::MAX` when none does.
pub fn sys_get_process_id_by_task(pid: Option<usize>) -> (r: usize)
    ensures
        pid matches Some(p) ==> r == p,
        pid is None ==> r == usize::MAX,
{
    match pid {
        Some(p) => p,
        None => usize::MAX,
    }
}

/// How many process ids a buffer of `len` bytes receives out of `available`.
pub open spec fn list_count(len: int, available: int) -> int {
    let capacity = len / 8;
    let max_items = if capacity < 64 { capacity } else { 64 };
    if available < max_items { available } else { max_items }
}

/// Copies the ids of live processes (`pids`, as the launcher lists them)
/// to the user buffer, as many as fit and at most sixty-four; returns how
/// many were written.
pub fn sys_list_process_ids(mem: &mut UserMemory, ptr: usize, len: usize, pids: &Vec<usize>) -> (r: usize)
    ensures
        len < 8 ==> r == SYSCALL_ERR_INVALID_ARG && *final(mem) == *old(mem),
        len >= 8 ==> {
            let n = list_count(len as int, pids@.len() as int);
            &&& write_words_ok(*old(mem), ptr as int, len as int, n) ==> r == n
                && final(mem).bytes@ == old(mem).stored(ptr as int, usize_words_bytes(pids@.take(n)))
            &&& !write_words_ok(*old(mem), ptr as int, len as int, n) ==> r == write_words_outcome(
                *old(mem),
                ptr as int,
                len as int,
                n,
            ) && final(mem).bytes@ == old(mem).bytes@
        },
        final(mem).base == old(mem).base,
{
    if len == 0 {
        return invalid_arg();
    }
    let capacity = len / 8;
    if capacity == 0 {
        return invalid_arg();
    }
    let max_items = if capacity < PROCESS_LIST_LIMIT { capacity } else { PROCESS_LIST_LIMIT };
    let count = if pids.len() < max_items { pids.len() } else { max_items };
    let mut buf: Vec<usize> = Vec::new();
    let mut i: usize = 0;
    while i < count
        invariant
            i <= count,
            count <= pids@.len(),
            buf@ == pids@.take(i as int),
        decreases count - i,
    {
        buf.push(pids[i]);
        assert(buf@ =~= pids@.take(i + 1));
        i = i + 1;
    }
    match mem.write_words(ptr, len, buf.as_slice()) {
        Ok(()) => count,
        Err(e) => e,
    }
}

/// Copies the image state of a process (entry, pages, segments) to the
/// user buffer.
pub fn sys_get_process_image_state(
    mem: &mut UserMemory,
    ptr: usize,
    len: usize,
    state: Option<(usize, usize, usize)>,
) -> (r: usize)
    ensures
        state is None ==> r == SYSCALL_ERR_INVALID_ARG && *final(mem) == *old(mem),
        state matches Some(s) ==> r == write_words_outcome(*old(mem), ptr as int, len as int, 3)
            && (write_words_ok(*old(mem), ptr as int, len as int, 3) ==> final(mem).bytes@
            == old(mem).stored(ptr as int, usize_words_bytes(seq![s.0, s.1, s.2])))
            && (!write_words_ok(*old(mem), ptr as int, len as int, 3) ==> final(mem).bytes@
            == old(mem).bytes@),
        final(mem).base == old(mem).base,
{
    match state {
        None => invalid_arg(),
        Some((entry, pages, segments)) => {
            let mut w: Vec<usize> = Vec::new();
            w.push(entry);
            w.push(pages);
            w.push(segments);
            assert(w@ =~= seq![entry, pages, segments]);
            write_user_words(mem, ptr, len, w.as_slice())
        },
    }
}

/// Copies the mapping state of a process (regions, pages) to the user
/// buffer.
pub fn sys_get_process_mapping_state(
    mem: &mut UserMemory,
    ptr: usize,
    len: usize,
    state: Option<(usize, usize)>,
) -> (r: usize)
    ensures
        state is None ==> r == SYSCALL_ERR_INVALID_ARG && *final(mem) == *old(mem),
        state matches Some(s) ==> r == write_words_outcome(*old(mem), ptr as int, len as int, 2)
            && (write_words_ok(*old(mem), ptr as int, len as int, 2) ==> final(mem).bytes@
            == old(mem).stored(ptr as int, usize_words_bytes(seq![s.0, s.1])))
            && (!write_words_ok(*old(mem), ptr as int, len as int, 2) ==> final(mem).bytes@
            == old(mem).bytes@),
        final(mem).base == old(mem).base,
{
    match state {
        None => invalid_arg(),
        Some((regions, pages)) => {
            let mut w: Vec<usize> = Vec::new();
            w.push(regions);
            w.push(pages);
            assert(w@ =~= seq![regions, pages]);
            write_user_words(mem, ptr, len, w.as_slice())
        },
    }
}

/// Counters of the process launcher, in ABI order.
pub fn sys_get_launch_stats(mem: &mut UserMemory, ptr: usize, len: usize, stats: &Vec<usize>) -> (r: usize)
    requires
        stats@.len() == 25,
    ensures
        r == write_words_outcome(*old(mem), ptr as int, len as int, 25),
        write_words_ok(*old(mem), ptr as int, len as int, 25) ==> final(mem).bytes@
            == old(mem).stored(ptr as int, usize_words_bytes(stats@)),
        !write_words_ok(*old(mem), ptr as int, len as int, 25) ==> final(mem).bytes@ == old(mem).bytes@,
        final(mem).base == old(mem).base,
{
    write_user_words(mem, ptr, len, stats.as_slice())
}

} // verus!
