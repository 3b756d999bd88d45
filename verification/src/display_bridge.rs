use vstd::prelude::*;

use std::collections::{BTreeMap, BTreeSet};

use crate::errno::{errno_word, linux_errno, EAFNOSUPPORT, EAGAIN, EFAULT, EINVAL};
use crate::net_msg::AF_UNIX;
use crate::user_memory::UserMemory;

verus! {

broadcast use vstd::std_specs::btree::group_btree_axioms;

/// `POLLIN` / `EPOLLIN`.
pub const POLL_IN: u16 = 0x1;

/// `POLLOUT` / `EPOLLOUT`.
pub const POLL_OUT: u16 = 0x4;

/// The longest `sockaddr_un`.
pub const SOCKADDR_UN_MAX: usize = 110;

/// `SOCK_NONBLOCK`.
pub const SOCK_NONBLOCK: i32 = 0x800;

/// `SOCK_CLOEXEC`.
pub const SOCK_CLOEXEC: i32 = 0x80000;

/// The endpoints of `listeners` by their view; each endpoint occurs once.
pub open spec fn listener_map(s: Seq<(String, u32)>) -> Map<Seq<char>, u32> {
    Map::new(
        |k: Seq<char>| exists|i: int| 0 <= i < s.len() && #[trigger] s[i].0@ == k,
        |k: Seq<char>| s[choose|i: int| 0 <= i < s.len() && #[trigger] s[i].0@ == k].1,
    )
}

/// No endpoint occurs twice.
pub open spec fn unique_endpoints(s: Seq<(String, u32)>) -> bool {
    forall|i: int, j: int| 0 <= i < s.len() && 0 <= j < s.len() && s[i].0@ == s[j].0@ ==> i == j
}

/// Entry `i` of a list without duplicate endpoints is what the map holds
/// for its endpoint.
proof fn lemma_listener_map_at(s: Seq<(String, u32)>, i: int)
    requires
        unique_endpoints(s),
        0 <= i < s.len(),
    ensures
        listener_map(s).contains_key(s[i].0@),
        listener_map(s)[s[i].0@] == s[i].1,
{
    let k = s[i].0@;
    assert(s[i].0@ == k);
    let j = choose|j: int| 0 <= j < s.len() && #[trigger] s[j].0@ == k;
    assert(j == i);
}

/// The state of the bridge that lets display clients reach a display
/// server over unix sockets without the network layer: the bound and the
/// listening descriptors, the endpoint each descriptor bound, the
/// listener of each endpoint, and the connections waiting on each
/// listener.
pub struct UserspaceDisplayBridgeState {
    bound_fds: BTreeSet<u32>,
    listening_fds: BTreeSet<u32>,
    endpoint_by_fd: BTreeMap<u32, String>,
    listeners: Vec<(String, u32)>,
    pending_accepts: BTreeMap<u32, usize>,
}

impl UserspaceDisplayBridgeState {
    /// Each endpoint has at most one listener entry.
    pub closed spec fn wf(&self) -> bool {
        unique_endpoints(self.listeners@)
    }

    /// The descriptors bound to a display endpoint.
    pub closed spec fn bound(&self) -> Set<u32> {
        self.bound_fds@
    }

    /// The descriptors that listen.
    pub closed spec fn listening(&self) -> Set<u32> {
        self.listening_fds@
    }

    /// The endpoint each descriptor bound, by the endpoint's characters.
    pub closed spec fn endpoints(&self) -> Map<u32, Seq<char>> {
        self.endpoint_by_fd@.map_values(|s: String| s@)
    }

    /// The listener of each endpoint.
    pub closed spec fn listener_by_endpoint(&self) -> Map<Seq<char>, u32> {
        listener_map(self.listeners@)
    }

    /// The connections waiting on each listener that has a count.
    pub closed spec fn pending(&self) -> Map<u32, usize> {
        self.pending_accepts@
    }

    /// The connections waiting on `fd`.
    pub open spec fn pending_of(&self, fd: u32) -> usize {
        if self.pending().contains_key(fd) {
            self.pending()[fd]
        } else {
            0
        }
    }

    pub fn new() -> (s: Self)
        ensures
            s.wf(),
            s.bound() == Set::<u32>::empty(),
            s.listening() == Set::<u32>::empty(),
            s.endpoints() == Map::<u32, Seq<char>>::empty(),
            s.listener_by_endpoint() == Map::<Seq<char>, u32>::empty(),
            s.pending() == Map::<u32, usize>::empty(),
    {
        let s = UserspaceDisplayBridgeState {
            bound_fds: BTreeSet::new(),
            listening_fds: BTreeSet::new(),
            endpoint_by_fd: BTreeMap::new(),
            listeners: Vec::new(),
            pending_accepts: BTreeMap::new(),
        };
        assert(s.endpoints() =~= Map::<u32, Seq<char>>::empty());
        assert(listener_map(s.listeners@) =~= Map::<Seq<char>, u32>::empty());
        s
    }

    /// The position of `endpoint` among the listeners.
    fn find_listener(&self, endpoint: &String) -> (r: Option<usize>)
        ensures
            r matches Some(i) ==> i < self.listeners@.len() && self.listeners@[i as int].0@
                == endpoint@,
            r is None ==> forall|i: int|
                0 <= i < self.listeners@.len() ==> #[trigger] self.listeners@[i].0@ != endpoint@,
    {
        let mut i: usize = 0;
        while i < self.listeners.len()
            invariant
                i <= self.listeners@.len(),
                forall|k: int| 0 <= k < i ==> #[trigger] self.listeners@[k].0@ != endpoint@,
            decreases self.listeners@.len() - i,
        {
            if self.listeners[i].0 == *endpoint {
                return Some(i);
            }
            i = i + 1;
        }
        None
    }

    /// The listener of `endpoint`, if any.
    fn listener_of(&self, endpoint: &String) -> (r: Option<u32>)
        requires
            self.wf(),
        ensures
            r is Some <==> self.listener_by_endpoint().contains_key(endpoint@),
            r matches Some(fd) ==> fd == self.listener_by_endpoint()[endpoint@],
    {
        match self.find_listener(endpoint) {
            Some(i) => {
                proof {
                    lemma_listener_map_at(self.listeners@, i as int);
                }
                Some(self.listeners[i].1)
            },
            None => None,
        }
    }

    /// Makes `fd` the listener of `endpoint`.
    fn set_listener(&mut self, endpoint: String, fd: u32)
        requires
            old(self).wf(),
        ensures
            final(self).wf(),
            final(self).listener_by_endpoint() == old(self).listener_by_endpoint().insert(endpoint@, fd),
            final(self).bound() == old(self).bound(),
            final(self).listening() == old(self).listening(),
            final(self).endpoints() == old(self).endpoints(),
            final(self).pending() == old(self).pending(),
    {
        let ghost s0 = self.listeners@;
        let ghost k = endpoint@;
        match self.find_listener(&endpoint) {
            Some(i) => {
                let mut ls: Vec<(String, u32)> = Vec::new();
                std::mem::swap(&mut ls, &mut self.listeners);
                ls.set(i, (endpoint, fd));
                let ghost s1 = ls@;
                proof {
                    assert(s1 == s0.update(i as int, s1[i as int]));
                    assert(unique_endpoints(s1)) by {
                        assert forall|a: int, b: int|
                            0 <= a < s1.len() && 0 <= b < s1.len() && s1[a].0@ == s1[b].0@ implies a
                            == b by {
                            if a != i && b != i {
                                assert(s0[a] == s1[a] && s0[b] == s1[b]);
                            } else if a == i && b != i {
                                assert(s0[b] == s1[b]);
                                assert(s0[i as int].0@ == k);
                            } else if b == i && a != i {
                                assert(s0[a] == s1[a]);
                                assert(s0[i as int].0@ == k);
                            }
                        }
                    }
                    assert(listener_map(s1) =~= listener_map(s0).insert(k, fd)) by {
                        assert forall|q: Seq<char>| #[trigger]
                            listener_map(s1).contains_key(q) == listener_map(s0).insert(
                                k,
                                fd,
                            ).contains_key(q) by {
                            if q == k {
                                assert(s1[i as int].0@ == q);
                            } else {
                                if listener_map(s1).contains_key(q) {
                                    let j = choose|j: int| 0 <= j < s1.len() && #[trigger] s1[j].0@ == q;
                                    assert(j != i);
                                    assert(s0[j].0@ == q);
                                }
                                if listener_map(s0).contains_key(q) {
                                    let j = choose|j: int| 0 <= j < s0.len() && #[trigger] s0[j].0@ == q;
                                    assert(j != i);
                                    assert(s1[j].0@ == q);
                                }
                            }
                        }
                        assert forall|q: Seq<char>| #[trigger]
                            listener_map(s1).contains_key(q) implies listener_map(s1)[q]
                            == listener_map(s0).insert(k, fd)[q] by {
                            let j = choose|j: int| 0 <= j < s1.len() && #[trigger] s1[j].0@ == q;
                            lemma_listener_map_at(s1, j);
                            if q != k {
                                assert(j != i);
                                assert(s0[j] == s1[j]);
                                lemma_listener_map_at(s0, j);
                            }
                        }
                    }
                }
                self.listeners = ls;
            },
            None => {
                let mut ls: Vec<(String, u32)> = Vec::new();
                std::mem::swap(&mut ls, &mut self.listeners);
                ls.push((endpoint, fd));
                let ghost s1 = ls@;
                proof {
                    assert(s1 == s0.push(s1[s0.len() as int]));
                    assert(unique_endpoints(s1)) by {
                        assert forall|a: int, b: int|
                            0 <= a < s1.len() && 0 <= b < s1.len() && s1[a].0@ == s1[b].0@ implies a
                            == b by {
                            if a < s0.len() && b < s0.len() {
                                assert(s0[a] == s1[a] && s0[b] == s1[b]);
                            } else if a < s0.len() {
                                assert(s0[a] == s1[a]);
                            } else if b < s0.len() {
                                assert(s0[b] == s1[b]);
                            }
                        }
                    }
                    assert(listener_map(s1) =~= listener_map(s0).insert(k, fd)) by {
                        let n = s0.len() as int;
                        assert forall|q: Seq<char>| #[trigger]
                            listener_map(s1).contains_key(q) == listener_map(s0).insert(
                                k,
                                fd,
                            ).contains_key(q) by {
                            if q == k {
                                assert(s1[n].0@ == q);
                            } else {
                                if listener_map(s1).contains_key(q) {
                                    let j = choose|j: int| 0 <= j < s1.len() && #[trigger] s1[j].0@ == q;
                                    assert(j != n);
                                    assert(s0[j].0@ == q);
                                }
                                if listener_map(s0).contains_key(q) {
                                    let j = choose|j: int| 0 <= j < s0.len() && #[trigger] s0[j].0@ == q;
                                    assert(s1[j].0@ == q);
                                }
                            }
                        }
                        assert forall|q: Seq<char>| #[trigger]
                            listener_map(s1).contains_key(q) implies listener_map(s1)[q]
                            == listener_map(s0).insert(k, fd)[q] by {
                            let j = choose|j: int| 0 <= j < s1.len() && #[trigger] s1[j].0@ == q;
                            lemma_listener_map_at(s1, j);
                            if q != k {
                                assert(j != n);
                                assert(s0[j] == s1[j]);
                                lemma_listener_map_at(s0, j);
                            }
                        }
                    }
                }
                self.listeners = ls;
            },
        }
    }

    /// Forgets the listener of `endpoint`.
    fn remove_listener(&mut self, endpoint: &String)
        requires
            old(self).wf(),
        ensures
            final(self).wf(),
            final(self).listener_by_endpoint() == old(self).listener_by_endpoint().remove(endpoint@),
            final(self).bound() == old(self).bound(),
            final(self).listening() == old(self).listening(),
            final(self).endpoints() == old(self).endpoints(),
            final(self).pending() == old(self).pending(),
    {
        let ghost s0 = self.listeners@;
        let ghost k = endpoint@;
        match self.find_listener(endpoint) {
            Some(i) => {
                let mut ls: Vec<(String, u32)> = Vec::new();
                std::mem::swap(&mut ls, &mut self.listeners);
                let _ = ls.remove(i);
                let ghost s1 = ls@;
                proof {
                    assert(s1 == s0.remove(i as int));
                    assert forall|a: int| 0 <= a < s1.len() implies #[trigger] s1[a] == (if a < i {
                        s0[a]
                    } else {
                        s0[a + 1]
                    }) by {}
                    assert(unique_endpoints(s1)) by {
                        assert forall|a: int, b: int|
                            0 <= a < s1.len() && 0 <= b < s1.len() && s1[a].0@ == s1[b].0@ implies a
                            == b by {
                            let a0 = if a < i { a } else { a + 1 };
                            let b0 = if b < i { b } else { b + 1 };
                            assert(s1[a] == s0[a0]);
                            assert(s1[b] == s0[b0]);
                        }
                    }
                    assert(listener_map(s1) =~= listener_map(s0).remove(k)) by {
                        assert forall|q: Seq<char>| #[trigger]
                            listener_map(s1).contains_key(q) == listener_map(s0).remove(k).contains_key(
                                q,
                            ) by {
                            if listener_map(s1).contains_key(q) {
                                let j = choose|j: int| 0 <= j < s1.len() && #[trigger] s1[j].0@ == q;
                                let j0 = if j < i { j } else { j + 1 };
                                assert(s1[j] == s0[j0]);
                                assert(j0 != i);
                                assert(s0[j0].0@ == q);
                            }
                            if listener_map(s0).contains_key(q) && q != k {
                                let j = choose|j: int| 0 <= j < s0.len() && #[trigger] s0[j].0@ == q;
                                assert(j != i);
                                let j1 = if j < i { j } else { j - 1 };
                                assert(s1[j1] == s0[j]);
                                assert(s1[j1].0@ == q);
                            }
                        }
                        assert forall|q: Seq<char>| #[trigger]
                            listener_map(s1).contains_key(q) implies listener_map(s1)[q]
                            == listener_map(s0).remove(k)[q] by {
                            let j = choose|j: int| 0 <= j < s1.len() && #[trigger] s1[j].0@ == q;
                            lemma_listener_map_at(s1, j);
                            let j0 = if j < i { j } else { j + 1 };
                            assert(s1[j] == s0[j0]);
                            lemma_listener_map_at(s0, j0);
                        }
                    }
                }
                self.listeners = ls;
            },
            None => {
                proof {
                    assert(listener_map(s0) =~= listener_map(s0).remove(k)) by {
                        if listener_map(s0).contains_key(k) {
                            let j = choose|j: int| 0 <= j < s0.len() && #[trigger] s0[j].0@ == k;
                            assert(s0[j].0@ != k);
                        }
                    }
                }
            },
        }
    }

    /// Whether `fd` is bound to a display endpoint.
    pub fn userspace_display_fd_is_bound(&self, fd: u32) -> (r: bool)
        ensures
            r == self.bound().contains(fd),
    {
        self.bound_fds.contains(&fd)
    }

    /// The connections waiting on `fd`.
    pub fn userspace_display_pending_accepts(&self, fd: u32) -> (r: usize)
        ensures
            r == self.pending_of(fd),
    {
        match self.pending_accepts.get(&fd) {
            Some(n) => *n,
            None => 0,
        }
    }

    /// The `poll` events of a bridge descriptor: readable when a
    /// connection waits, always writable; nothing for other descriptors.
    pub fn userspace_display_poll_revents(&self, fd: u32, requested: u16) -> (r: u16)
        ensures
            !self.bound().contains(fd) ==> r == 0,
            self.bound().contains(fd) ==> r == ((if requested & POLL_IN != 0 && self.pending_of(fd) > 0 {
                POLL_IN
            } else {
                0u16
            }) | (if requested & POLL_OUT != 0 {
                POLL_OUT
            } else {
                0u16
            })),
    {
        if !self.userspace_display_fd_is_bound(fd) {
            return 0;
        }
        let mut revents: u16 = 0;
        if (requested & POLL_IN) != 0 && self.userspace_display_pending_accepts(fd) > 0 {
            revents = revents | POLL_IN;
        }
        if (requested & POLL_OUT) != 0 {
            revents = revents | POLL_OUT;
        }
        proof {
            let a: u16 = if requested & POLL_IN != 0 && self.pending_of(fd) > 0 { POLL_IN } else { 0u16 };
            let b: u16 = if requested & POLL_OUT != 0 { POLL_OUT } else { 0u16 };
            assert(0u16 | a == a) by (bit_vector);
            assert(a | 0u16 == a) by (bit_vector);
            assert(0u16 | b == b) by (bit_vector);
        }
        revents
    }

    /// The `epoll` events of a bridge descriptor, as for `poll`.
    pub fn userspace_display_epoll_revents(&self, fd: u32, requested: u32) -> (r: u32)
        ensures
            !self.bound().contains(fd) ==> r == 0,
            self.bound().contains(fd) ==> r == ((if requested & 1 != 0 && self.pending_of(fd) > 0 {
                1u32
            } else {
                0u32
            }) | (if requested & 4 != 0 {
                4u32
            } else {
                0u32
            })),
    {
        if !self.userspace_display_fd_is_bound(fd) {
            return 0;
        }
        let mut revents: u32 = 0;
        if (requested & 1) != 0 && self.userspace_display_pending_accepts(fd) > 0 {
            revents = revents | 1;
        }
        if (requested & 4) != 0 {
            revents = revents | 4;
        }
        proof {
            let a: u32 = if requested & 1 != 0 && self.pending_of(fd) > 0 { 1u32 } else { 0u32 };
            let b: u32 = if requested & 4 != 0 { 4u32 } else { 0u32 };
            assert(0u32 | a == a) by (bit_vector);
            assert(a | 0u32 == a) by (bit_vector);
            assert(0u32 | b == b) by (bit_vector);
        }
        revents
    }
}

/// What `connect` to a display endpoint does: a listening listener of the
/// endpoint gets one more waiting connection, and the connecting
/// descriptor becomes bound.
pub open spec fn connect_step(
    s0: UserspaceDisplayBridgeState,
    s1: UserspaceDisplayBridgeState,
    fd: u32,
    endpoint: Seq<char>,
) -> bool {
    let l = s0.listener_by_endpoint()[endpoint];
    let waiting = s0.listener_by_endpoint().contains_key(endpoint) && s0.listening().contains(l);
    &&& s1.bound() == s0.bound().insert(fd)
    &&& s1.listening() == s0.listening()
    &&& s1.endpoints() == s0.endpoints()
    &&& s1.listener_by_endpoint() == s0.listener_by_endpoint()
    &&& s1.pending() == if waiting {
        s0.pending().insert(
            l,
            if s0.pending_of(l) == usize::MAX { usize::MAX } else { (s0.pending_of(l) + 1) as usize },
        )
    } else {
        s0.pending()
    }
}

/// What `bind` to a display endpoint does: the descriptor records the
/// endpoint (its earlier endpoint loses its listener), becomes bound, and
/// gets a count of waiting connections if it had none.
pub open spec fn bind_step(
    s0: UserspaceDisplayBridgeState,
    s1: UserspaceDisplayBridgeState,
    fd: u32,
    endpoint: Seq<char>,
) -> bool {
    &&& s1.endpoints() == s0.endpoints().insert(fd, endpoint)
    &&& s1.listener_by_endpoint() == if s0.endpoints().contains_key(fd) {
        s0.listener_by_endpoint().remove(s0.endpoints()[fd])
    } else {
        s0.listener_by_endpoint()
    }
    &&& s1.bound() == s0.bound().insert(fd)
    &&& s1.listening() == s0.listening()
    &&& s1.pending() == if s0.pending().contains_key(fd) {
        s0.pending()
    } else {
        s0.pending().insert(fd, 0)
    }
}

/// What `listen` on a bound display descriptor does: it listens, and
/// becomes the listener of its endpoint.
pub open spec fn listen_step(s0: UserspaceDisplayBridgeState, s1: UserspaceDisplayBridgeState, fd: u32) -> bool {
    &&& s1.listening() == s0.listening().insert(fd)
    &&& s1.listener_by_endpoint() == if s0.endpoints().contains_key(fd) {
        s0.listener_by_endpoint().insert(s0.endpoints()[fd], fd)
    } else {
        s0.listener_by_endpoint()
    }
    &&& s1.bound() == s0.bound()
    &&& s1.endpoints() == s0.endpoints()
    &&& s1.pending() == s0.pending()
}

/// `connect` to a display endpoint, once the address was probed:
/// `endpoint` is the display endpoint it names (`None` when the address
/// is not a display socket, which is `EAFNOSUPPORT`).
pub fn sys_linux_connect_userspace_display_bridge(
    state: &mut UserspaceDisplayBridgeState,
    fd: usize,
    endpoint: Option<String>,
) -> (r: usize)
    requires
        old(state).wf(),
    ensures
        final(state).wf(),
        endpoint is None ==> r == errno_word(EAFNOSUPPORT) && *final(state) == *old(state),
        endpoint matches Some(ep) ==> r == 0 && connect_step(*old(state), *final(state), fd as u32, ep@),
{
    let ep = match endpoint {
        Some(e) => e,
        None => return linux_errno(EAFNOSUPPORT),
    };
    if let Some(listener_fd) = state.listener_of(&ep) {
        if state.listening_fds.contains(&listener_fd) {
            let cur = state.userspace_display_pending_accepts(listener_fd);
            let next = cur.saturating_add(1);
            let _ = state.pending_accepts.insert(listener_fd, next);
        }
    }
    let _ = state.bound_fds.insert(fd as u32);
    proof {
        assert(state.endpoints() =~= old(state).endpoints());
    }
    0
}

/// `bind` to a display endpoint, once the address was probed (see
/// `sys_linux_connect_userspace_display_bridge`).
pub fn sys_linux_bind_userspace_display_bridge(
    state: &mut UserspaceDisplayBridgeState,
    fd: usize,
    endpoint: Option<String>,
) -> (r: usize)
    requires
        old(state).wf(),
    ensures
        final(state).wf(),
        endpoint is None ==> r == errno_word(EAFNOSUPPORT) && *final(state) == *old(state),
        endpoint matches Some(ep) ==> r == 0 && bind_step(*old(state), *final(state), fd as u32, ep@),
{
    let ep = match endpoint {
        Some(e) => e,
        None => return linux_errno(EAFNOSUPPORT),
    };
    let fd_u32 = fd as u32;
    let ghost s0 = *state;
    let copy = ep.clone();
    let old_endpoint = state.endpoint_by_fd.insert(fd_u32, copy);
    proof {
        assert(state.endpoints() =~= s0.endpoints().insert(fd_u32, ep@));
    }
    if let Some(old_ep) = old_endpoint {
        state.remove_listener(&old_ep);
    }
    let _ = state.bound_fds.insert(fd_u32);
    if state.pending_accepts.get(&fd_u32).is_none() {
        let _ = state.pending_accepts.insert(fd_u32, 0);
    }
    0
}

/// `listen` on a display descriptor: `None` when `fd` is not bound to a
/// display endpoint (the network layer handles it), else `Some(0)`.
pub fn sys_linux_listen_userspace_display_bridge(state: &mut UserspaceDisplayBridgeState, fd: usize) -> (r:
    Option<usize>)
    requires
        old(state).wf(),
    ensures
        final(state).wf(),
        !old(state).bound().contains(fd as u32) ==> r is None && *final(state) == *old(state),
        old(state).bound().contains(fd as u32) ==> r == Some(0usize) && listen_step(
            *old(state),
            *final(state),
            fd as u32,
        ),
{
    let fd_u32 = fd as u32;
    if !state.userspace_display_fd_is_bound(fd_u32) {
        return None;
    }
    let _ = state.listening_fds.insert(fd_u32);
    let ep = match state.endpoint_by_fd.get(&fd_u32) {
        Some(e) => Some(e.clone()),
        None => None,
    };
    if let Some(e) = ep {
        state.set_listener(e, fd_u32);
    }
    Some(0)
}

/// What `accept` does next.
#[derive(Debug, Clone, Copy, PartialEq, Eq, Structural)]
pub enum AcceptPlan {
    /// Return this value at once.
    Return(usize),
    /// A display connection was taken: create a unix stream socket for it.
    CreateBridgeSocket,
    /// Not a display descriptor: accept through the network layer.
    Accept,
}

/// `accept` up to the socket work: only `SOCK_NONBLOCK` and
/// `SOCK_CLOEXEC` are accepted; a display listener hands out one waiting
/// connection (`EAGAIN` when none waits).
pub fn sys_linux_accept(state: &mut UserspaceDisplayBridgeState, fd: usize, flags_raw: i32) -> (r: AcceptPlan)
    requires
        old(state).wf(),
    ensures
        final(state).wf(),
        flags_raw & !(SOCK_NONBLOCK | SOCK_CLOEXEC) != 0 ==> r == AcceptPlan::Return(errno_word(EINVAL))
            && *final(state) == *old(state),
        flags_raw & !(SOCK_NONBLOCK | SOCK_CLOEXEC) == 0 && !old(state).bound().contains(fd as u32)
            ==> r == AcceptPlan::Accept && *final(state) == *old(state),
        flags_raw & !(SOCK_NONBLOCK | SOCK_CLOEXEC) == 0 && old(state).bound().contains(fd as u32) ==> {
            &&& final(state).bound() == old(state).bound()
            &&& final(state).listening() == old(state).listening()
            &&& final(state).endpoints() == old(state).endpoints()
            &&& final(state).listener_by_endpoint() == old(state).listener_by_endpoint()
            &&& old(state).pending_of(fd as u32) == 0 ==> r == AcceptPlan::Return(errno_word(EAGAIN))
                && final(state).pending() == old(state).pending().insert(fd as u32, 0)
            &&& old(state).pending_of(fd as u32) > 0 ==> r == AcceptPlan::CreateBridgeSocket && final(state).pending() == old(state).pending().insert(
                fd as u32,
                (old(state).pending_of(fd as u32) - 1) as usize,
            )
        },
{
    if (flags_raw & !(SOCK_NONBLOCK | SOCK_CLOEXEC)) != 0 {
        return AcceptPlan::Return(linux_errno(EINVAL));
    }
    let fd_u32 = fd as u32;
    if !state.userspace_display_fd_is_bound(fd_u32) {
        return AcceptPlan::Accept;
    }
    let pending = state.userspace_display_pending_accepts(fd_u32);
    if pending == 0 {
        let _ = state.pending_accepts.insert(fd_u32, 0);
        return AcceptPlan::Return(linux_errno(EAGAIN));
    }
    let _ = state.pending_accepts.insert(fd_u32, pending - 1);
    AcceptPlan::CreateBridgeSocket
}

/// Reads a unix socket address for the display bridge: `None` for a
/// length under 3 or another family; else the first `min(addr_len, 110)`
/// bytes, zero-filled to 110.
pub fn read_unix_sockaddr_bytes(mem: &UserMemory, addr_ptr: usize, addr_len: usize) -> (r: Result<
    Option<Vec<u8>>,
    usize,
>)
    ensures
        addr_len < 3 ==> r == Ok::<Option<Vec<u8>>, usize>(None),
        ({
            let n = if addr_len < 110 { addr_len } else { 110 };
            &&& addr_len >= 3 && !mem.range_ok(addr_ptr as int, n as int) ==> r == Err::<
                Option<Vec<u8>>,
                usize,
            >(errno_word(EFAULT))
            &&& addr_len >= 3 && mem.range_ok(addr_ptr as int, n as int) ==> {
                let raw = mem.bytes_at(addr_ptr as int, n as int) + Seq::new(
                    (110 - n) as nat,
                    |i: int| 0u8,
                );
                &&& (raw[0] as u16) | ((raw[1] as u16) << 8u16) != AF_UNIX ==> r == Ok::<
                    Option<Vec<u8>>,
                    usize,
                >(None)
                &&& (raw[0] as u16) | ((raw[1] as u16) << 8u16) == AF_UNIX ==> (r matches Ok(Some(v))
                    && v@ == raw)
            }
        }),
{
    if addr_len < 3 {
        return Ok(None);
    }
    let copy_len = if addr_len < SOCKADDR_UN_MAX {
        addr_len
    } else {
        SOCKADDR_UN_MAX
    };
    let mut raw = match mem.read_bytes(addr_ptr, copy_len) {
        Some(b) => b,
        None => return Err(linux_errno(EFAULT)),
    };
    let ghost head = raw@;
    let mut i = copy_len;
    while i < SOCKADDR_UN_MAX
        invariant
            copy_len <= i <= 110,
            raw@ == head + Seq::new((i - copy_len) as nat, |k: int| 0u8),
        decreases 110 - i,
    {
        raw.push(0u8);
        assert(raw@ =~= head + Seq::new((i + 1 - copy_len) as nat, |k: int| 0u8));
        i = i + 1;
    }
    let family = (raw[0] as u16) | ((raw[1] as u16) << 8u16);
    if family != AF_UNIX {
        return Ok(None);
    }
    Ok(Some(raw))
}

/// A waiting connection to a listening display endpoint is handed out by
/// the listener's next `accept`: after `bind(l, e)`, `listen(l)` and a
/// `connect` to `e`, the listener has exactly one more connection waiting
/// than before, and its `poll` reports it readable.
pub proof fn law_display_connect_is_accepted_once(
    s0: UserspaceDisplayBridgeState,
    s1: UserspaceDisplayBridgeState,
    s2: UserspaceDisplayBridgeState,
    s3: UserspaceDisplayBridgeState,
    l: u32,
    c: u32,
    e: Seq<char>,
)
    requires
        bind_step(s0, s1, l, e),
        listen_step(s1, s2, l),
        connect_step(s2, s3, c, e),
        s1.pending_of(l) < usize::MAX,
    ensures
        s3.pending_of(l) == s1.pending_of(l) + 1,
        s3.pending_of(l) > 0,
        s3.bound().contains(l),
        s3.bound().contains(c),
        s3.listening().contains(l),
        s3.listener_by_endpoint()[e] == l,
{
    assert(s1.endpoints().contains_key(l));
    assert(s1.endpoints()[l] == e);
    assert(s2.listener_by_endpoint().contains_key(e));
    assert(s2.listener_by_endpoint()[e] == l);
    assert(s2.listening().contains(l));
    assert(s2.pending_of(l) == s1.pending_of(l));
}

} // verus!
