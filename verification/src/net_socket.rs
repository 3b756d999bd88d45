use vstd::prelude::*;

use crate::display_bridge::{
    bind_step, connect_step, listen_step, read_unix_sockaddr_bytes, sys_linux_bind_userspace_display_bridge,
    sys_linux_connect_userspace_display_bridge, sys_linux_listen_userspace_display_bridge,
    UserspaceDisplayBridgeState,
};
use crate::errno::{errno_word, linux_errno, EAFNOSUPPORT, EBADF};
use crate::net_msg::{read_sockaddr_in, sockaddr_in_outcome, write_socketpair_fds, AF_UNIX};
use crate::user_memory::{usize_words_bytes, UserMemory};

verus! {

/// The return word of a socket call that only the network layer carries
/// out: its result, or `none` when no network layer is built in.
pub open spec fn net_status(net: Option<Result<(), i32>>, none: usize) -> usize {
    match net {
        None => none,
        Some(Ok(())) => 0,
        Some(Err(e)) => errno_word(e),
    }
}

fn net_status_word(net: Option<Result<(), i32>>, none: usize) -> (r: usize)
    ensures
        r == net_status(net, none),
{
    match net {
        None => none,
        Some(Ok(())) => 0,
        Some(Err(e)) => linux_errno(e),
    }
}

/// `socket`: the new descriptor the network layer made, or its error;
/// `EAFNOSUPPORT` without a network layer.
pub fn sys_linux_socket(domain: usize, sock_type: usize, protocol: usize, net: Option<Result<u32, i32>>) -> (r:
    usize)
    ensures
        r == (match net {
            None => errno_word(EAFNOSUPPORT),
            Some(Ok(fd)) => fd as usize,
            Some(Err(e)) => errno_word(e),
        }),
{
    match net {
        None => linux_errno(EAFNOSUPPORT),
        Some(Ok(fd)) => fd as usize,
        Some(Err(e)) => linux_errno(e),
    }
}

/// How the address at `[addr_ptr, addr_ptr + addr_len)` is routed: `true`
/// for a unix socket address (the display bridge takes it), `false` for
/// anything else, or the error of reading it.
pub open spec fn unix_sockaddr_class(mem: UserMemory, addr_ptr: usize, addr_len: usize) -> Result<bool, usize> {
    if addr_len < 3 {
        Ok(false)
    } else {
        let n: int = if addr_len < 110 {
            addr_len as int
        } else {
            110
        };
        if !mem.range_ok(addr_ptr as int, n) {
            Err(errno_word(crate::errno::EFAULT))
        } else {
            let b = mem.bytes_at(addr_ptr as int, n);
            Ok((b[0] as u16) | ((b[1] as u16) << 8u16) == AF_UNIX)
        }
    }
}

/// Reads the address and tells whether it is a unix socket address.
fn classify_sockaddr(mem: &UserMemory, addr_ptr: usize, addr_len: usize) -> (r: Result<bool, usize>)
    ensures
        r == unix_sockaddr_class(*mem, addr_ptr, addr_len),
{
    match read_unix_sockaddr_bytes(mem, addr_ptr, addr_len) {
        Err(e) => Err(e),
        Ok(None) => Ok(false),
        Ok(Some(_)) => Ok(true),
    }
}

/// The return word of `connect` or `bind` to an IPv4 address: the
/// address's error, else what the network layer made of it.
pub open spec fn inet_status(mem: UserMemory, addr_ptr: usize, addr_len: usize, net: Result<(), i32>) -> usize {
    match sockaddr_in_outcome(mem, addr_ptr, addr_len) {
        Err(e) => e,
        Ok(_) => net_status(Some(net), 0),
    }
}

/// `connect`.  A unix socket address goes to the display bridge, where
/// `display_endpoint` is the display endpoint it names (`None` when it
/// names none); any other address is read as IPv4 and handed to the
/// network layer (`net`, `None` when none is built in).
pub fn sys_linux_connect(
    mem: &UserMemory,
    state: &mut UserspaceDisplayBridgeState,
    fd: usize,
    addr_ptr: usize,
    addr_len: usize,
    display_endpoint: Option<String>,
    net: Option<Result<(), i32>>,
) -> (r: usize)
    requires
        old(state).wf(),
    ensures
        final(state).wf(),
        net is None ==> r == errno_word(EBADF) && *final(state) == *old(state),
        net is Some ==> match unix_sockaddr_class(*mem, addr_ptr, addr_len) {
            Err(e) => r == e && *final(state) == *old(state),
            Ok(true) => match display_endpoint {
                None => r == errno_word(EAFNOSUPPORT) && *final(state) == *old(state),
                Some(ep) => r == 0 && connect_step(*old(state), *final(state), fd as u32, ep@),
            },
            Ok(false) => r == inet_status(*mem, addr_ptr, addr_len, net->0) && *final(state) == *old(state),
        },
{
    let res = match net {
        None => {
            return linux_errno(EBADF);
        },
        Some(res) => res,
    };
    match classify_sockaddr(mem, addr_ptr, addr_len) {
        Err(e) => e,
        Ok(true) => sys_linux_connect_userspace_display_bridge(state, fd, display_endpoint),
        Ok(false) => match read_sockaddr_in(mem, addr_ptr, addr_len) {
            Err(e) => e,
            Ok(_) => net_status_word(Some(res), 0),
        },
    }
}

/// `bind`, routed as `connect` is.
pub fn sys_linux_bind(
    mem: &UserMemory,
    state: &mut UserspaceDisplayBridgeState,
    fd: usize,
    addr_ptr: usize,
    addr_len: usize,
    display_endpoint: Option<String>,
    net: Option<Result<(), i32>>,
) -> (r: usize)
    requires
        old(state).wf(),
    ensures
        final(state).wf(),
        net is None ==> r == errno_word(EBADF) && *final(state) == *old(state),
        net is Some ==> match unix_sockaddr_class(*mem, addr_ptr, addr_len) {
            Err(e) => r == e && *final(state) == *old(state),
            Ok(true) => match display_endpoint {
                None => r == errno_word(EAFNOSUPPORT) && *final(state) == *old(state),
                Some(ep) => r == 0 && bind_step(*old(state), *final(state), fd as u32, ep@),
            },
            Ok(false) => r == inet_status(*mem, addr_ptr, addr_len, net->0) && *final(state) == *old(state),
        },
{
    let res = match net {
        None => {
            return linux_errno(EBADF);
        },
        Some(res) => res,
    };
    match classify_sockaddr(mem, addr_ptr, addr_len) {
        Err(e) => e,
        Ok(true) => sys_linux_bind_userspace_display_bridge(state, fd, display_endpoint),
        Ok(false) => match read_sockaddr_in(mem, addr_ptr, addr_len) {
            Err(e) => e,
            Ok(_) => net_status_word(Some(res), 0),
        },
    }
}

/// `listen`: a descriptor bound to a display endpoint starts listening in
/// the bridge; any other goes to the network layer.
pub fn sys_linux_listen(
    state: &mut UserspaceDisplayBridgeState,
    fd: usize,
    backlog: usize,
    net: Option<Result<(), i32>>,
) -> (r: usize)
    requires
        old(state).wf(),
    ensures
        final(state).wf(),
        net is None ==> r == errno_word(EBADF) && *final(state) == *old(state),
        net is Some && old(state).bound().contains(fd as u32) ==> r == 0 && listen_step(
            *old(state),
            *final(state),
            fd as u32,
        ),
        net is Some && !old(state).bound().contains(fd as u32) ==> r == net_status(net, 0) && *final(state) == *old(state),
{
    if net.is_none() {
        return linux_errno(EBADF);
    }
    match sys_linux_listen_userspace_display_bridge(state, fd) {
        Some(v) => v,
        None => net_status_word(net, 0),
    }
}

/// Accepts a connection on `fd` through the network layer: plain `accept`
/// when `flags_raw` is zero, else `accept4`; `accepted` is what it
/// returned.
pub fn accept_socket_with_flags(fd: usize, flags_raw: i32, accepted: Result<u32, i32>) -> (r: Result<
    u32,
    usize,
>)
    ensures
        r == (match accepted {
            Ok(new_fd) => Ok::<u32, usize>(new_fd),
            Err(e) => Err(errno_word(e)),
        }),
{
    match accepted {
        Ok(new_fd) => Ok(new_fd),
        Err(e) => Err(linux_errno(e)),
    }
}

/// `socketpair`: the pair the network layer made is written at `sv_ptr`
/// as two words.
pub fn sys_linux_socketpair(
    mem: &mut UserMemory,
    domain: usize,
    sock_type: usize,
    protocol: usize,
    sv_ptr: usize,
    net: Option<Result<(u32, u32), i32>>,
) -> (r: usize)
    ensures
        final(mem).base == old(mem).base,
        net is None ==> r == errno_word(EAFNOSUPPORT) && final(mem).bytes@ == old(mem).bytes@,
        net matches Some(Err(e)) ==> r == errno_word(e) && final(mem).bytes@ == old(mem).bytes@,
        net matches Some(Ok(p)) ==> {
            let ok = sv_ptr % 8 == 0 && old(mem).range_ok(sv_ptr as int, 16);
            &&& ok ==> r == 0 && final(mem).bytes@ == old(mem).stored(
                sv_ptr as int,
                usize_words_bytes(seq![p.0 as usize, p.1 as usize]),
            )
            &&& !ok ==> r == errno_word(crate::errno::EFAULT) && final(mem).bytes@ == old(mem).bytes@
        },
{
    match net {
        None => linux_errno(EAFNOSUPPORT),
        Some(Err(e)) => linux_errno(e),
        Some(Ok((fd0, fd1))) => match write_socketpair_fds(mem, sv_ptr, fd0, fd1) {
            Ok(()) => 0,
            Err(e) => e,
        },
    }
}

} // verus!
