//! The socket table and the socket system calls that work on it. File
//! descriptors and user memory stay with the caller: these functions take
//! the socket's slot index and the values read from user space, and return
//! what is to be written back.

use vstd::prelude::*;
use std::collections::VecDeque;
use crate::tcp::{iss_counter_next, iss_of, wadd, TcpControlBlockChirho};
use crate::packets::TcpSegmentChirho;
use crate::ipv4::{build_tcp_packet_chirho, tcp_packet_spec};
use crate::net_types::{
    address_family_spec, sockaddr_bytes_spec, socket_type_spec, AddressFamilyChirho, SockAddrInChirho,
    SocketStateChirho, SocketTypeChirho, TcpStateChirho, EADDRINUSE_CHIRHO, EAFNOSUPPORT_CHIRHO, EAGAIN_CHIRHO,
    EBADF_CHIRHO, ECONNREFUSED_CHIRHO, EINVAL_CHIRHO, EISCONN_CHIRHO, EMFILE_CHIRHO, ENOSYS_CHIRHO, ENOTCONN_CHIRHO,
    ENOTSOCK_CHIRHO, EOPNOTSUPP_CHIRHO, TCP_DEFAULT_WINDOW_CHIRHO,
};

verus! {

/// Maximum number of concurrent sockets.
pub const MAX_SOCKETS_CHIRHO: usize = 256;

/// First port of the ephemeral range.
pub const EPHEMERAL_BASE_CHIRHO: u64 = 49152;

/// One socket: addressing, TCP state and buffers.
pub struct SocketChirho {
    pub family_chirho: u64,
    pub sock_type_chirho: u64,
    pub protocol_chirho: u64,
    pub state_chirho: SocketStateChirho,
    pub tcb_chirho: TcpControlBlockChirho,
    pub local_addr_chirho: Option<SockAddrInChirho>,
    pub remote_addr_chirho: Option<SockAddrInChirho>,
    /// Received bytes not yet read.
    pub recv_buf_chirho: VecDeque<u8>,
    /// Slot indices of connections waiting for `accept`.
    pub accept_queue_chirho: VecDeque<u64>,
    pub backlog_chirho: u32,
    pub nonblock_chirho: bool,
}

/// The control block of a new socket.
pub open spec fn fresh_tcb() -> TcpControlBlockChirho {
    TcpControlBlockChirho {
        state_chirho: TcpStateChirho::ClosedChirho,
        snd_una_chirho: 0,
        snd_nxt_chirho: 0,
        snd_wnd_chirho: TCP_DEFAULT_WINDOW_CHIRHO,
        iss_chirho: 0,
        rcv_nxt_chirho: 0,
        rcv_wnd_chirho: TCP_DEFAULT_WINDOW_CHIRHO,
        irs_chirho: 0,
    }
}

/// `s` is a socket just created with the given family, type and protocol:
/// unconnected, no addresses, empty buffers, non-blocking when the type has
/// SOCK_NONBLOCK (0o4000).
pub open spec fn is_fresh_socket(s: SocketChirho, family: u64, ty: u64, proto: u64) -> bool {
    &&& s.family_chirho == family
    &&& s.sock_type_chirho == ty
    &&& s.protocol_chirho == proto
    &&& s.state_chirho == SocketStateChirho::UnconnectedChirho
    &&& s.tcb_chirho == fresh_tcb()
    &&& s.local_addr_chirho is None
    &&& s.remote_addr_chirho is None
    &&& s.recv_buf_chirho@.len() == 0
    &&& s.accept_queue_chirho@.len() == 0
    &&& s.backlog_chirho == 0
    &&& s.nonblock_chirho == (ty & 0o4000 != 0)
}

/// The connection state that a socket reports: for a stream socket the TCP
/// state decides when it is ESTABLISHED, LISTEN or CLOSED.
pub open spec fn effective_state_spec(s: SocketChirho) -> SocketStateChirho {
    if s.sock_type_chirho % 16 == 1 {
        match s.tcb_chirho.state_chirho {
            TcpStateChirho::EstablishedChirho => SocketStateChirho::ConnectedChirho,
            TcpStateChirho::ListenChirho => SocketStateChirho::ListeningChirho,
            TcpStateChirho::ClosedChirho => SocketStateChirho::ClosedChirho,
            _ => s.state_chirho,
        }
    } else {
        s.state_chirho
    }
}

impl SocketChirho {
    /// A new, unconnected socket.
    pub fn new_chirho(family_chirho: u64, sock_type_chirho: u64, protocol_chirho: u64) -> (r: SocketChirho)
        ensures
            is_fresh_socket(r, family_chirho, sock_type_chirho, protocol_chirho),
    {
        SocketChirho {
            family_chirho,
            sock_type_chirho,
            protocol_chirho,
            state_chirho: SocketStateChirho::UnconnectedChirho,
            tcb_chirho: TcpControlBlockChirho::new_chirho(),
            local_addr_chirho: None,
            remote_addr_chirho: None,
            recv_buf_chirho: VecDeque::new(),
            accept_queue_chirho: VecDeque::new(),
            backlog_chirho: 0,
            nonblock_chirho: (sock_type_chirho & 0o4000) != 0,
        }
    }

    /// The connection state, with the TCP state taking precedence for
    /// stream sockets.
    pub fn effective_state_chirho(&self) -> (r: SocketStateChirho)
        ensures
            r == effective_state_spec(*self),
    {
        if self.sock_type_chirho % 16 == 1 {
            match self.tcb_chirho.state_chirho {
                TcpStateChirho::EstablishedChirho => SocketStateChirho::ConnectedChirho,
                TcpStateChirho::ListenChirho => SocketStateChirho::ListeningChirho,
                TcpStateChirho::ClosedChirho => SocketStateChirho::ClosedChirho,
                _ => self.state_chirho,
            }
        } else {
            self.state_chirho
        }
    }
}

/// The socket table, with the counters that hand out ephemeral ports and
/// initial sequence numbers.
pub struct SocketTableChirho {
    pub slots_chirho: Vec<Option<SocketChirho>>,
    /// Next value of the ephemeral port counter.
    pub next_ephemeral_chirho: u64,
    /// Counter from which initial sequence numbers are taken.
    pub iss_counter_chirho: u64,
}

/// The table has its fixed number of slots and the port counter is in the
/// ephemeral range.
pub open spec fn table_wf(t: SocketTableChirho) -> bool {
    &&& t.slots_chirho@.len() == MAX_SOCKETS_CHIRHO
    &&& t.next_ephemeral_chirho >= EPHEMERAL_BASE_CHIRHO
}

/// The port counter can advance without wrapping around.
pub open spec fn port_counter_ok(t: SocketTableChirho) -> bool {
    t.next_ephemeral_chirho < u64::MAX
}

/// The port a counter value yields: the range 49152..=65535, cycled.
pub open spec fn ephemeral_port_spec(c: u64) -> u16 {
    (EPHEMERAL_BASE_CHIRHO + (c - EPHEMERAL_BASE_CHIRHO) % 16384) as u16
}

/// Slot `i` holds a socket.
pub open spec fn occupied(t: SocketTableChirho, i: int) -> bool {
    0 <= i < t.slots_chirho@.len() && t.slots_chirho@[i] is Some
}

/// The socket in slot `i`.
pub open spec fn sock(t: SocketTableChirho, i: int) -> SocketChirho {
    t.slots_chirho@[i].unwrap()
}

/// `i` is the first free slot.
pub open spec fn first_free(t: SocketTableChirho, i: int) -> bool {
    &&& 0 <= i < t.slots_chirho@.len()
    &&& t.slots_chirho@[i] is None
    &&& forall|j: int| 0 <= j < i ==> #[trigger] t.slots_chirho@[j] is Some
}

/// Every slot holds a socket.
pub open spec fn table_full(t: SocketTableChirho) -> bool {
    forall|j: int| 0 <= j < t.slots_chirho@.len() ==> #[trigger] t.slots_chirho@[j] is Some
}

impl SocketTableChirho {
    /// A table of empty slots; the port counter starts at 49152.
    pub fn new_chirho() -> (r: SocketTableChirho)
        ensures
            table_wf(r),
            forall|i: int| 0 <= i < r.slots_chirho@.len() ==> #[trigger] r.slots_chirho@[i] is None,
            r.next_ephemeral_chirho == EPHEMERAL_BASE_CHIRHO,
            r.iss_counter_chirho == 0,
    {
        let mut slots_chirho: Vec<Option<SocketChirho>> = Vec::new();
        let mut i_chirho: usize = 0;
        while i_chirho < MAX_SOCKETS_CHIRHO
            invariant
                i_chirho <= MAX_SOCKETS_CHIRHO,
                slots_chirho@.len() == i_chirho,
                forall|k: int| 0 <= k < i_chirho ==> #[trigger] slots_chirho@[k] is None,
            decreases MAX_SOCKETS_CHIRHO - i_chirho,
        {
            slots_chirho.push(None);
            i_chirho = i_chirho + 1;
        }
        SocketTableChirho { slots_chirho, next_ephemeral_chirho: EPHEMERAL_BASE_CHIRHO, iss_counter_chirho: 0 }
    }
}

/// Move the socket out of slot `i`, leaving it empty.
pub(crate) fn take_slot_chirho(t: &mut SocketTableChirho, i: usize) -> (r: Option<SocketChirho>)
    requires
        i < old(t).slots_chirho@.len(),
    ensures
        r == old(t).slots_chirho@[i as int],
        final(t).slots_chirho@ == old(t).slots_chirho@.update(i as int, None),
        final(t).next_ephemeral_chirho == old(t).next_ephemeral_chirho,
        final(t).iss_counter_chirho == old(t).iss_counter_chirho,
{
    let mut tmp_chirho: Option<SocketChirho> = None;
    std::mem::swap(&mut tmp_chirho, &mut t.slots_chirho[i]);
    tmp_chirho
}

/// Put `s` into slot `i`.
pub(crate) fn put_slot_chirho(t: &mut SocketTableChirho, i: usize, s: Option<SocketChirho>)
    requires
        i < old(t).slots_chirho@.len(),
    ensures
        final(t).slots_chirho@ == old(t).slots_chirho@.update(i as int, s),
        final(t).next_ephemeral_chirho == old(t).next_ephemeral_chirho,
        final(t).iss_counter_chirho == old(t).iss_counter_chirho,
{
    t.slots_chirho.set(i, s);
}

/// Take the next ephemeral port; the counter advances by one.
pub fn alloc_ephemeral_port_chirho(t: &mut SocketTableChirho) -> (r: u16)
    requires
        table_wf(*old(t)),
        port_counter_ok(*old(t)),
    ensures
        r == ephemeral_port_spec(old(t).next_ephemeral_chirho),
        final(t).next_ephemeral_chirho == old(t).next_ephemeral_chirho + 1,
        final(t).slots_chirho@ == old(t).slots_chirho@,
        final(t).iss_counter_chirho == old(t).iss_counter_chirho,
        table_wf(*final(t)),
{
    let c_chirho = t.next_ephemeral_chirho;
    t.next_ephemeral_chirho = c_chirho + 1;
    (EPHEMERAL_BASE_CHIRHO + (c_chirho - EPHEMERAL_BASE_CHIRHO) % 16384) as u16
}

/// Store `s` in the first free slot: its index, or `-EMFILE` when the table
/// is full.
pub fn alloc_socket_slot_chirho(t: &mut SocketTableChirho, s: SocketChirho) -> (r: Result<usize, i64>)
    requires
        table_wf(*old(t)),
    ensures
        table_wf(*final(t)),
        final(t).next_ephemeral_chirho == old(t).next_ephemeral_chirho,
        final(t).iss_counter_chirho == old(t).iss_counter_chirho,
        r is Err <==> table_full(*old(t)),
        r matches Err(e) ==> e == -EMFILE_CHIRHO && final(t).slots_chirho@ == old(t).slots_chirho@,
        r matches Ok(i) ==> first_free(*old(t), i as int) && final(t).slots_chirho@ == old(t).slots_chirho@.update(i as int, Some(s)),
{
    let mut i_chirho: usize = 0;
    while i_chirho < t.slots_chirho.len()
        invariant
            table_wf(*t),
            t == old(t),
            i_chirho <= t.slots_chirho@.len(),
            forall|j: int| 0 <= j < i_chirho ==> #[trigger] t.slots_chirho@[j] is Some,
        decreases t.slots_chirho@.len() - i_chirho,
    {
        if t.slots_chirho[i_chirho].is_none() {
            put_slot_chirho(t, i_chirho, Some(s));
            return Ok(i_chirho);
        }
        i_chirho = i_chirho + 1;
    }
    Err(-EMFILE_CHIRHO)
}

/// `socket(2)`: validate the family and type and store a new socket; the
/// slot index, or `-EAFNOSUPPORT`, `-EINVAL` or `-EMFILE`.
pub fn sys_socket_chirho(t: &mut SocketTableChirho, domain_chirho: u64, type_chirho: u64, protocol_chirho: u64)
    -> (r: Result<usize, i64>)
    requires
        table_wf(*old(t)),
    ensures
        table_wf(*final(t)),
        final(t).next_ephemeral_chirho == old(t).next_ephemeral_chirho,
        final(t).iss_counter_chirho == old(t).iss_counter_chirho,
        address_family_spec(domain_chirho) is None ==> (r matches Err(e) && e == -EAFNOSUPPORT_CHIRHO) && final(t).slots_chirho@ == old(t).slots_chirho@,
        address_family_spec(domain_chirho) is Some && socket_type_spec(type_chirho) is None
            ==> (r matches Err(e) && e == -EINVAL_CHIRHO) && final(t).slots_chirho@ == old(t).slots_chirho@,
        address_family_spec(domain_chirho) is Some && socket_type_spec(type_chirho) is Some ==> {
            &&& r is Err <==> table_full(*old(t))
            &&& r matches Err(e) ==> e == -EMFILE_CHIRHO && final(t).slots_chirho@ == old(t).slots_chirho@
            &&& r matches Ok(i) ==> first_free(*old(t), i as int) && occupied(*final(t), i as int)
                && is_fresh_socket(sock(*final(t), i as int), domain_chirho, type_chirho, protocol_chirho)
                && final(t).slots_chirho@ == old(t).slots_chirho@.update(i as int, final(t).slots_chirho@[i as int])
        },
{
    if AddressFamilyChirho::from_raw_chirho(domain_chirho).is_none() {
        return Err(-EAFNOSUPPORT_CHIRHO);
    }
    if SocketTypeChirho::from_raw_chirho(type_chirho).is_none() {
        return Err(-EINVAL_CHIRHO);
    }
    let s_chirho = SocketChirho::new_chirho(domain_chirho, type_chirho, protocol_chirho);
    alloc_socket_slot_chirho(t, s_chirho)
}

/// The slot holds a socket of `family` bound to `port`.
pub open spec fn holds_port(slot: Option<SocketChirho>, port: u16, family: u64) -> bool {
    slot matches Some(o) && o.local_addr_chirho matches Some(l) && l.port_chirho == port && o.family_chirho == family
}

/// Some other occupied slot than `idx` is bound to `port` in `family`.
pub open spec fn port_in_use(t: SocketTableChirho, idx: int, port: u16, family: u64) -> bool {
    exists|j: int| 0 <= j < t.slots_chirho@.len() && j != idx && holds_port(#[trigger] t.slots_chirho@[j], port, family)
}

/// `bind(2)`: `-EBADF` for an empty slot, `-EINVAL` unless unconnected,
/// `-EADDRINUSE` when another socket of the family holds the port; else the
/// socket takes the address (none when `addr` is `None`) and is bound.
pub fn sys_bind_chirho(t: &mut SocketTableChirho, idx_chirho: usize, addr_chirho: Option<SockAddrInChirho>) -> (r: i64)
    requires
        table_wf(*old(t)),
    ensures
        table_wf(*final(t)),
        final(t).next_ephemeral_chirho == old(t).next_ephemeral_chirho,
        final(t).iss_counter_chirho == old(t).iss_counter_chirho,
        !occupied(*old(t), idx_chirho as int) ==> r == -EBADF_CHIRHO && final(t).slots_chirho@ == old(t).slots_chirho@,
        occupied(*old(t), idx_chirho as int) ==> {
            let s = sock(*old(t), idx_chirho as int);
            if s.state_chirho != SocketStateChirho::UnconnectedChirho {
                r == -EINVAL_CHIRHO && final(t).slots_chirho@ == old(t).slots_chirho@
            } else if addr_chirho matches Some(a) && port_in_use(*old(t), idx_chirho as int, a.port_chirho, s.family_chirho) {
                r == -EADDRINUSE_CHIRHO && final(t).slots_chirho@ == old(t).slots_chirho@
            } else {
                r == 0 && final(t).slots_chirho@ == old(t).slots_chirho@.update(idx_chirho as int,
                    Some(SocketChirho { local_addr_chirho: addr_chirho, state_chirho: SocketStateChirho::BoundChirho, ..s }))
            }
        },
{
    if idx_chirho >= t.slots_chirho.len() || t.slots_chirho[idx_chirho].is_none() {
        return -EBADF_CHIRHO;
    }
    let (cur_state_chirho, cur_family_chirho) = match &t.slots_chirho[idx_chirho] {
        Some(s) => (s.state_chirho, s.family_chirho),
        None => (SocketStateChirho::ClosedChirho, 0),
    };
    if cur_state_chirho != SocketStateChirho::UnconnectedChirho {
        return -EINVAL_CHIRHO;
    }
    if let Some(a_chirho) = addr_chirho {
        let mut j_chirho: usize = 0;
        while j_chirho < t.slots_chirho.len()
            invariant
                t == old(t),
                table_wf(*t),
                occupied(*t, idx_chirho as int),
                cur_family_chirho == sock(*t, idx_chirho as int).family_chirho,
                sock(*t, idx_chirho as int).state_chirho == SocketStateChirho::UnconnectedChirho,
                addr_chirho == Some(a_chirho),
                j_chirho <= t.slots_chirho@.len(),
                forall|k: int| 0 <= k < j_chirho && k != idx_chirho
                    ==> !holds_port(#[trigger] t.slots_chirho@[k], a_chirho.port_chirho, cur_family_chirho),
            decreases t.slots_chirho@.len() - j_chirho,
        {
            if j_chirho != idx_chirho {
                if let Some(o_chirho) = &t.slots_chirho[j_chirho] {
                    if let Some(l_chirho) = o_chirho.local_addr_chirho {
                        if l_chirho.port_chirho == a_chirho.port_chirho && o_chirho.family_chirho == cur_family_chirho {
                            assert(holds_port(t.slots_chirho@[j_chirho as int], a_chirho.port_chirho, cur_family_chirho));
                            assert(port_in_use(*old(t), idx_chirho as int, a_chirho.port_chirho, cur_family_chirho));
                            return -EADDRINUSE_CHIRHO;
                        }
                    }
                }
            }
            j_chirho = j_chirho + 1;
        }
    }
    let taken_chirho = take_slot_chirho(t, idx_chirho);
    match taken_chirho {
        Some(mut s_chirho) => {
            s_chirho.local_addr_chirho = addr_chirho;
            s_chirho.state_chirho = SocketStateChirho::BoundChirho;
            put_slot_chirho(t, idx_chirho, Some(s_chirho));
            assert(t.slots_chirho@ =~= old(t).slots_chirho@.update(idx_chirho as int,
                Some(SocketChirho { local_addr_chirho: addr_chirho, state_chirho: SocketStateChirho::BoundChirho, ..sock(*old(t), idx_chirho as int) })));
            0
        },
        None => -EBADF_CHIRHO,
    }
}

/// The table's slots and counters are as they were.
pub open spec fn unchanged(a: SocketTableChirho, b: SocketTableChirho) -> bool {
    &&& a.slots_chirho@ == b.slots_chirho@
    &&& a.next_ephemeral_chirho == b.next_ephemeral_chirho
    &&& a.iss_counter_chirho == b.iss_counter_chirho
}

/// `new` is `old` with only slot `idx` changed, and that slot occupied.
pub open spec fn only_slot_changed(old: Seq<Option<SocketChirho>>, new: Seq<Option<SocketChirho>>, idx: int) -> bool {
    &&& new.len() == old.len()
    &&& 0 <= idx < new.len()
    &&& new[idx] is Some
    &&& forall|j: int| 0 <= j < new.len() && j != idx ==> #[trigger] new[j] == old[j]
}

/// `b` is `a` but for its two queues.
pub open spec fn same_but_queues(a: SocketChirho, b: SocketChirho) -> bool {
    &&& b.family_chirho == a.family_chirho
    &&& b.sock_type_chirho == a.sock_type_chirho
    &&& b.protocol_chirho == a.protocol_chirho
    &&& b.state_chirho == a.state_chirho
    &&& b.tcb_chirho == a.tcb_chirho
    &&& b.local_addr_chirho == a.local_addr_chirho
    &&& b.remote_addr_chirho == a.remote_addr_chirho
    &&& b.backlog_chirho == a.backlog_chirho
    &&& b.nonblock_chirho == a.nonblock_chirho
}

/// The backlog `listen` records: the low 32 bits of the request, at least one.
pub open spec fn backlog_spec(backlog: u64) -> u32 {
    let b = (backlog % 0x1_0000_0000) as u32;
    if b < 1 { 1 } else { b }
}

/// A control block after a passive open: LISTEN when it was CLOSED.
pub open spec fn listen_tcb(t: TcpControlBlockChirho) -> TcpControlBlockChirho {
    if t.state_chirho == TcpStateChirho::ClosedChirho {
        TcpControlBlockChirho { state_chirho: TcpStateChirho::ListenChirho, ..t }
    } else {
        t
    }
}

/// `listen(2)`: `-EBADF` for an empty slot, `-EOPNOTSUPP` unless a stream
/// socket, `-EINVAL` unless bound or unconnected. Otherwise a socket
/// without an address is bound to the next ephemeral port (address 0), and
/// the socket listens with the given backlog.
pub fn sys_listen_chirho(t: &mut SocketTableChirho, idx_chirho: usize, backlog_chirho: u64) -> (r: i64)
    requires
        table_wf(*old(t)),
        port_counter_ok(*old(t)),
    ensures
        table_wf(*final(t)),
        final(t).iss_counter_chirho == old(t).iss_counter_chirho,
        !occupied(*old(t), idx_chirho as int) ==> r == -EBADF_CHIRHO && unchanged(*final(t), *old(t)),
        occupied(*old(t), idx_chirho as int) ==> {
            let s = sock(*old(t), idx_chirho as int);
            if socket_type_spec(s.sock_type_chirho) != Some(SocketTypeChirho::SockStreamChirho) {
                r == -EOPNOTSUPP_CHIRHO && unchanged(*final(t), *old(t))
            } else if s.state_chirho != SocketStateChirho::BoundChirho && s.state_chirho != SocketStateChirho::UnconnectedChirho {
                r == -EINVAL_CHIRHO && unchanged(*final(t), *old(t))
            } else {
                let local = if s.local_addr_chirho is None {
                    Some(SockAddrInChirho { port_chirho: ephemeral_port_spec(old(t).next_ephemeral_chirho), addr_chirho: 0 })
                } else {
                    s.local_addr_chirho
                };
                &&& r == 0
                &&& final(t).next_ephemeral_chirho == old(t).next_ephemeral_chirho + (if s.local_addr_chirho is None { 1int } else { 0int })
                &&& final(t).slots_chirho@ == old(t).slots_chirho@.update(idx_chirho as int, Some(SocketChirho {
                    local_addr_chirho: local,
                    state_chirho: SocketStateChirho::ListeningChirho,
                    backlog_chirho: backlog_spec(backlog_chirho),
                    tcb_chirho: listen_tcb(s.tcb_chirho),
                    ..s
                }))
            }
        },
{
    if idx_chirho >= t.slots_chirho.len() || t.slots_chirho[idx_chirho].is_none() {
        return -EBADF_CHIRHO;
    }
    let ghost t0 = *t;
    let taken_chirho = take_slot_chirho(t, idx_chirho);
    let mut s_chirho = match taken_chirho {
        Some(s) => s,
        None => return -EBADF_CHIRHO,
    };
    if SocketTypeChirho::from_raw_chirho(s_chirho.sock_type_chirho) != Some(SocketTypeChirho::SockStreamChirho) {
        put_slot_chirho(t, idx_chirho, Some(s_chirho));
        assert(t.slots_chirho@ =~= t0.slots_chirho@);
        return -EOPNOTSUPP_CHIRHO;
    }
    if s_chirho.state_chirho != SocketStateChirho::BoundChirho && s_chirho.state_chirho != SocketStateChirho::UnconnectedChirho {
        put_slot_chirho(t, idx_chirho, Some(s_chirho));
        assert(t.slots_chirho@ =~= t0.slots_chirho@);
        return -EINVAL_CHIRHO;
    }
    if s_chirho.local_addr_chirho.is_none() {
        let port_chirho = alloc_ephemeral_port_chirho(t);
        s_chirho.local_addr_chirho = Some(SockAddrInChirho { port_chirho, addr_chirho: 0 });
    }
    s_chirho.state_chirho = SocketStateChirho::ListeningChirho;
    let b_chirho = (backlog_chirho % 0x1_0000_0000) as u32;
    s_chirho.backlog_chirho = if b_chirho < 1 { 1 } else { b_chirho };
    let _ = s_chirho.tcb_chirho.passive_open_chirho();
    put_slot_chirho(t, idx_chirho, Some(s_chirho));
    assert(t.slots_chirho@ =~= t0.slots_chirho@.update(idx_chirho as int, Some(s_chirho)));
    0
}

/// `accept(2)`: `-EBADF` for an empty slot, `-EINVAL` unless listening,
/// `-EAGAIN` when no connection waits; else the slot index of the oldest
/// waiting connection, which leaves the queue.
pub fn sys_accept_chirho(t: &mut SocketTableChirho, idx_chirho: usize) -> (r: Result<u64, i64>)
    requires
        table_wf(*old(t)),
    ensures
        table_wf(*final(t)),
        final(t).next_ephemeral_chirho == old(t).next_ephemeral_chirho,
        final(t).iss_counter_chirho == old(t).iss_counter_chirho,
        !occupied(*old(t), idx_chirho as int) ==> (r matches Err(e) && e == -EBADF_CHIRHO) && final(t).slots_chirho@ == old(t).slots_chirho@,
        occupied(*old(t), idx_chirho as int) ==> {
            let s = sock(*old(t), idx_chirho as int);
            if s.state_chirho != SocketStateChirho::ListeningChirho {
                (r matches Err(e) && e == -EINVAL_CHIRHO) && final(t).slots_chirho@ == old(t).slots_chirho@
            } else if s.accept_queue_chirho@.len() == 0 {
                (r matches Err(e) && e == -EAGAIN_CHIRHO) && final(t).slots_chirho@ == old(t).slots_chirho@
            } else {
                let s2 = sock(*final(t), idx_chirho as int);
                &&& r == Ok::<u64, i64>(s.accept_queue_chirho@[0])
                &&& only_slot_changed(old(t).slots_chirho@, final(t).slots_chirho@, idx_chirho as int)
                &&& same_but_queues(s, s2)
                &&& s2.recv_buf_chirho@ == s.recv_buf_chirho@
                &&& s2.accept_queue_chirho@ == s.accept_queue_chirho@.subrange(1, s.accept_queue_chirho@.len() as int)
            }
        },
{
    if idx_chirho >= t.slots_chirho.len() || t.slots_chirho[idx_chirho].is_none() {
        return Err(-EBADF_CHIRHO);
    }
    let ghost t0 = *t;
    let taken_chirho = take_slot_chirho(t, idx_chirho);
    let mut s_chirho = match taken_chirho {
        Some(s) => s,
        None => return Err(-EBADF_CHIRHO),
    };
    if s_chirho.state_chirho != SocketStateChirho::ListeningChirho {
        put_slot_chirho(t, idx_chirho, Some(s_chirho));
        assert(t.slots_chirho@ =~= t0.slots_chirho@);
        return Err(-EINVAL_CHIRHO);
    }
    if s_chirho.accept_queue_chirho.len() == 0 {
        put_slot_chirho(t, idx_chirho, Some(s_chirho));
        assert(t.slots_chirho@ =~= t0.slots_chirho@);
        return Err(-EAGAIN_CHIRHO);
    }
    let popped_chirho = s_chirho.accept_queue_chirho.pop_front();
    put_slot_chirho(t, idx_chirho, Some(s_chirho));
    match popped_chirho {
        Some(p_chirho) => Ok(p_chirho),
        None => Err(-EAGAIN_CHIRHO),
    }
}

/// `accept4(2)`: `accept`; the flags are not acted on.
pub fn sys_accept4_chirho(t: &mut SocketTableChirho, idx_chirho: usize, flags_chirho: u64) -> (r: Result<u64, i64>)
    requires
        table_wf(*old(t)),
    ensures
        table_wf(*final(t)),
        final(t).next_ephemeral_chirho == old(t).next_ephemeral_chirho,
        final(t).iss_counter_chirho == old(t).iss_counter_chirho,
        !occupied(*old(t), idx_chirho as int) ==> (r matches Err(e) && e == -EBADF_CHIRHO) && final(t).slots_chirho@ == old(t).slots_chirho@,
        occupied(*old(t), idx_chirho as int) ==> {
            let s = sock(*old(t), idx_chirho as int);
            if s.state_chirho != SocketStateChirho::ListeningChirho {
                (r matches Err(e) && e == -EINVAL_CHIRHO) && final(t).slots_chirho@ == old(t).slots_chirho@
            } else if s.accept_queue_chirho@.len() == 0 {
                (r matches Err(e) && e == -EAGAIN_CHIRHO) && final(t).slots_chirho@ == old(t).slots_chirho@
            } else {
                let s2 = sock(*final(t), idx_chirho as int);
                &&& r == Ok::<u64, i64>(s.accept_queue_chirho@[0])
                &&& only_slot_changed(old(t).slots_chirho@, final(t).slots_chirho@, idx_chirho as int)
                &&& same_but_queues(s, s2)
                &&& s2.recv_buf_chirho@ == s.recv_buf_chirho@
                &&& s2.accept_queue_chirho@ == s.accept_queue_chirho@.subrange(1, s.accept_queue_chirho@.len() as int)
            }
        },
{
    sys_accept_chirho(t, idx_chirho)
}

/// A control block after an active close: FIN_WAIT_1 from ESTABLISHED,
/// LAST_ACK from CLOSE_WAIT, SND.NXT one further; unchanged otherwise.
pub open spec fn closed_tcb(t: TcpControlBlockChirho) -> TcpControlBlockChirho {
    if t.state_chirho == TcpStateChirho::EstablishedChirho || t.state_chirho == TcpStateChirho::CloseWaitChirho {
        TcpControlBlockChirho {
            state_chirho: if t.state_chirho == TcpStateChirho::EstablishedChirho {
                TcpStateChirho::FinWait1Chirho
            } else {
                TcpStateChirho::LastAckChirho
            },
            snd_nxt_chirho: crate::tcp::wadd(t.snd_nxt_chirho, 1),
            ..t
        }
    } else {
        t
    }
}

/// `shutdown(2)`: a connected socket starts its TCP close and is marked
/// closed; anything else is left alone. Always 0.
pub fn sys_shutdown_chirho(t: &mut SocketTableChirho, idx_chirho: usize, how_chirho: u64) -> (r: i64)
    requires
        table_wf(*old(t)),
    ensures
        r == 0,
        table_wf(*final(t)),
        final(t).next_ephemeral_chirho == old(t).next_ephemeral_chirho,
        final(t).iss_counter_chirho == old(t).iss_counter_chirho,
        (occupied(*old(t), idx_chirho as int) && sock(*old(t), idx_chirho as int).state_chirho == SocketStateChirho::ConnectedChirho) ==> {
            let s = sock(*old(t), idx_chirho as int);
            final(t).slots_chirho@ == old(t).slots_chirho@.update(idx_chirho as int, Some(SocketChirho {
                tcb_chirho: closed_tcb(s.tcb_chirho),
                state_chirho: SocketStateChirho::ClosedChirho,
                ..s
            }))
        },
        !(occupied(*old(t), idx_chirho as int) && sock(*old(t), idx_chirho as int).state_chirho == SocketStateChirho::ConnectedChirho)
            ==> final(t).slots_chirho@ == old(t).slots_chirho@,
{
    if idx_chirho >= t.slots_chirho.len() || t.slots_chirho[idx_chirho].is_none() {
        return 0;
    }
    let ghost t0 = *t;
    let taken_chirho = take_slot_chirho(t, idx_chirho);
    let mut s_chirho = match taken_chirho {
        Some(s) => s,
        None => return 0,
    };
    if s_chirho.state_chirho == SocketStateChirho::ConnectedChirho {
        let local_port_chirho: u16 = match s_chirho.local_addr_chirho { Some(a) => a.port_chirho, None => 0 };
        let remote_port_chirho: u16 = match s_chirho.remote_addr_chirho { Some(a) => a.port_chirho, None => 0 };
        let _fin_chirho = s_chirho.tcb_chirho.close_chirho(local_port_chirho, remote_port_chirho);
        s_chirho.state_chirho = SocketStateChirho::ClosedChirho;
        put_slot_chirho(t, idx_chirho, Some(s_chirho));
    } else {
        put_slot_chirho(t, idx_chirho, Some(s_chirho));
        assert(t.slots_chirho@ =~= t0.slots_chirho@);
    }
    0
}

/// The family as the 16-bit field of a `sockaddr`.
pub open spec fn family16(f: u64) -> u16 {
    (f % 65536) as u16
}

/// `getsockname(2)`: the 16 `sockaddr_in` bytes of the local address to
/// copy out, `-EBADF` for an empty slot, `-ENOTSOCK` when unbound.
pub fn sys_getsockname_chirho(t: &SocketTableChirho, idx_chirho: usize) -> (r: Result<[u8; 16], i64>)
    ensures
        !occupied(*t, idx_chirho as int) ==> (r matches Err(e) && e == -EBADF_CHIRHO),
        occupied(*t, idx_chirho as int) ==> {
            let s = sock(*t, idx_chirho as int);
            match s.local_addr_chirho {
                None => r matches Err(e) && e == -ENOTSOCK_CHIRHO,
                Some(l) => r matches Ok(b) && b@ == sockaddr_bytes_spec(l, family16(s.family_chirho)),
            }
        },
{
    if idx_chirho >= t.slots_chirho.len() {
        return Err(-EBADF_CHIRHO);
    }
    match &t.slots_chirho[idx_chirho] {
        None => Err(-EBADF_CHIRHO),
        Some(s_chirho) => match s_chirho.local_addr_chirho {
            None => Err(-ENOTSOCK_CHIRHO),
            Some(l_chirho) => Ok(l_chirho.to_user_bytes_chirho((s_chirho.family_chirho % 65536) as u16)),
        },
    }
}

/// `getpeername(2)`: the 16 `sockaddr_in` bytes of the peer address,
/// `-EBADF` for an empty slot, `-ENOTCONN` unless connected with a peer.
pub fn sys_getpeername_chirho(t: &SocketTableChirho, idx_chirho: usize) -> (r: Result<[u8; 16], i64>)
    ensures
        !occupied(*t, idx_chirho as int) ==> (r matches Err(e) && e == -EBADF_CHIRHO),
        occupied(*t, idx_chirho as int) ==> {
            let s = sock(*t, idx_chirho as int);
            if effective_state_spec(s) != SocketStateChirho::ConnectedChirho {
                r matches Err(e) && e == -ENOTCONN_CHIRHO
            } else {
                match s.remote_addr_chirho {
                    None => r matches Err(e) && e == -ENOTCONN_CHIRHO,
                    Some(p) => r matches Ok(b) && b@ == sockaddr_bytes_spec(p, family16(s.family_chirho)),
                }
            }
        },
{
    if idx_chirho >= t.slots_chirho.len() {
        return Err(-EBADF_CHIRHO);
    }
    match &t.slots_chirho[idx_chirho] {
        None => Err(-EBADF_CHIRHO),
        Some(s_chirho) => {
            if s_chirho.effective_state_chirho() != SocketStateChirho::ConnectedChirho {
                return Err(-ENOTCONN_CHIRHO);
            }
            match s_chirho.remote_addr_chirho {
                None => Err(-ENOTCONN_CHIRHO),
                Some(p_chirho) => Ok(p_chirho.to_user_bytes_chirho((s_chirho.family_chirho % 65536) as u16)),
            }
        },
    }
}

/// `socketpair(2)`: not supported.
pub fn sys_socketpair_chirho(domain_chirho: u64, type_chirho: u64, protocol_chirho: u64) -> (r: i64)
    ensures
        r == -ENOSYS_CHIRHO,
{
    -ENOSYS_CHIRHO
}

/// An IPv4 TCP socket in ESTABLISHED or CLOSE_WAIT bound to `port`.
pub open spec fn live_tcp_on(slot: Option<SocketChirho>, port: u16) -> bool {
    &&& slot matches Some(s)
    &&& s.family_chirho == 2
    &&& (s.tcb_chirho.state_chirho == TcpStateChirho::EstablishedChirho || s.tcb_chirho.state_chirho == TcpStateChirho::CloseWaitChirho)
    &&& s.local_addr_chirho matches Some(a)
    &&& a.port_chirho == port
}

fn live_tcp_on_chirho(slot: &Option<SocketChirho>, port_chirho: u16) -> (r: bool)
    ensures
        r == live_tcp_on(*slot, port_chirho),
{
    match slot {
        Some(s) => s.family_chirho == 2
            && (s.tcb_chirho.state_chirho == TcpStateChirho::EstablishedChirho || s.tcb_chirho.state_chirho == TcpStateChirho::CloseWaitChirho)
            && match s.local_addr_chirho { Some(a) => a.port_chirho == port_chirho, None => false },
        None => false,
    }
}

/// Whether an established TCP socket on `port` has received data.
pub fn has_tcp_data_for_port_chirho(t: &SocketTableChirho, port_chirho: u16) -> (r: bool)
    ensures
        r == exists|i: int| 0 <= i < t.slots_chirho@.len() && live_tcp_on(#[trigger] t.slots_chirho@[i], port_chirho)
            && t.slots_chirho@[i].unwrap().recv_buf_chirho@.len() > 0,
{
    let mut i_chirho: usize = 0;
    while i_chirho < t.slots_chirho.len()
        invariant
            i_chirho <= t.slots_chirho@.len(),
            forall|k: int| 0 <= k < i_chirho ==> !(live_tcp_on(#[trigger] t.slots_chirho@[k], port_chirho)
                && t.slots_chirho@[k].unwrap().recv_buf_chirho@.len() > 0),
        decreases t.slots_chirho@.len() - i_chirho,
    {
        let slot_chirho = &t.slots_chirho[i_chirho];
        if live_tcp_on_chirho(slot_chirho, port_chirho) {
            match slot_chirho {
                Some(s) => {
                    if s.recv_buf_chirho.len() > 0 {
                        return true;
                    }
                },
                None => {},
            }
        }
        i_chirho = i_chirho + 1;
    }
    false
}

/// Whether an established TCP connection exists on `port`.
pub fn has_established_tcp_chirho(t: &SocketTableChirho, port_chirho: u16) -> (r: bool)
    ensures
        r == exists|i: int| 0 <= i < t.slots_chirho@.len() && live_tcp_on(#[trigger] t.slots_chirho@[i], port_chirho),
{
    let mut i_chirho: usize = 0;
    while i_chirho < t.slots_chirho.len()
        invariant
            i_chirho <= t.slots_chirho@.len(),
            forall|k: int| 0 <= k < i_chirho ==> !live_tcp_on(#[trigger] t.slots_chirho@[k], port_chirho),
        decreases t.slots_chirho@.len() - i_chirho,
    {
        if live_tcp_on_chirho(&t.slots_chirho[i_chirho], port_chirho) {
            return true;
        }
        i_chirho = i_chirho + 1;
    }
    false
}

/// Whether the socket in slot `idx` is readable: it has received data, or
/// it listens and a connection waits.
pub open spec fn has_data_spec(t: SocketTableChirho, idx: int) -> bool {
    occupied(t, idx) && {
        let s = sock(t, idx);
        s.recv_buf_chirho@.len() > 0 || (s.state_chirho == SocketStateChirho::ListeningChirho && s.accept_queue_chirho@.len() > 0)
    }
}

/// Whether the socket in slot `idx` has data or a pending connection.
pub fn socket_has_data_chirho(t: &SocketTableChirho, idx_chirho: usize) -> (r: bool)
    ensures
        r == has_data_spec(*t, idx_chirho as int),
{
    if idx_chirho >= t.slots_chirho.len() {
        return false;
    }
    match &t.slots_chirho[idx_chirho] {
        None => false,
        Some(s_chirho) => {
            if s_chirho.recv_buf_chirho.len() > 0 {
                return true;
            }
            if s_chirho.state_chirho == SocketStateChirho::ListeningChirho {
                return s_chirho.accept_queue_chirho.len() > 0;
            }
            false
        },
    }
}

/// What `connect` leaves to its caller.
#[derive(Debug, Clone, Copy)]
pub enum ConnectStepChirho {
    /// The call is over, with this result.
    DoneChirho(i64),
    /// No local listener: the SYN (sequence number `iss`) goes to the remote
    /// peer, and the caller waits for its SYN-ACK.
    RemoteChirho { local_port_chirho: u16, remote_ip_chirho: u32, remote_port_chirho: u16, iss_chirho: u32 },
}

/// `r` ends the call with result `e`.
pub open spec fn done_with(r: ConnectStepChirho, e: int) -> bool {
    r matches ConnectStepChirho::DoneChirho(x) && x == e
}

/// The local address a connecting socket uses: its own, or the next
/// ephemeral port on 127.0.0.1.
pub open spec fn connect_local(s: SocketChirho, c: u64) -> Option<SockAddrInChirho> {
    if s.local_addr_chirho is None {
        Some(SockAddrInChirho { port_chirho: ephemeral_port_spec(c), addr_chirho: 0x7F000001 })
    } else {
        s.local_addr_chirho
    }
}

/// A control block after its SYN went out with sequence number `iss`.
pub open spec fn syn_sent_tcb(t: TcpControlBlockChirho, iss: u32) -> TcpControlBlockChirho {
    TcpControlBlockChirho { iss_chirho: iss, snd_nxt_chirho: wadd(iss, 1), snd_una_chirho: iss, state_chirho: TcpStateChirho::SynSentChirho, ..t }
}

/// The slot holds a socket listening on `port`.
pub open spec fn is_listener_for(slot: Option<SocketChirho>, port: u16) -> bool {
    &&& slot matches Some(o)
    &&& o.state_chirho == SocketStateChirho::ListeningChirho
    &&& o.local_addr_chirho matches Some(l)
    &&& l.port_chirho == port
}

/// `l` is the first slot other than `idx` listening on `port`.
pub open spec fn first_listener(slots: Seq<Option<SocketChirho>>, idx: int, port: u16, l: int) -> bool {
    &&& 0 <= l < slots.len()
    &&& l != idx
    &&& is_listener_for(slots[l], port)
    &&& forall|j: int| 0 <= j < l && j != idx ==> !is_listener_for(#[trigger] slots[j], port)
}

/// No slot other than `idx` listens on `port`.
pub open spec fn no_listener(slots: Seq<Option<SocketChirho>>, idx: int, port: u16) -> bool {
    forall|j: int| 0 <= j < slots.len() && j != idx ==> !is_listener_for(#[trigger] slots[j], port)
}

/// `i` is the first empty slot.
pub open spec fn first_free_in(slots: Seq<Option<SocketChirho>>, i: int) -> bool {
    &&& 0 <= i < slots.len()
    &&& slots[i] is None
    &&& forall|j: int| 0 <= j < i ==> #[trigger] slots[j] is Some
}

/// No slot is empty.
pub open spec fn all_full(slots: Seq<Option<SocketChirho>>) -> bool {
    forall|j: int| 0 <= j < slots.len() ==> #[trigger] slots[j] is Some
}

/// `c` is the accepted end that a listener `l` creates for a local
/// connection from `peer` whose SYN had sequence number `iss`; `child_iss`
/// is its own initial sequence number.
pub open spec fn loopback_child(c: SocketChirho, l: SocketChirho, peer: Option<SockAddrInChirho>, iss: u32, child_iss: u32) -> bool {
    &&& c.family_chirho == l.family_chirho
    &&& c.sock_type_chirho == l.sock_type_chirho
    &&& c.protocol_chirho == 0
    &&& c.state_chirho == SocketStateChirho::ConnectedChirho
    &&& c.local_addr_chirho == l.local_addr_chirho
    &&& c.remote_addr_chirho == peer
    &&& c.tcb_chirho == (TcpControlBlockChirho {
        state_chirho: TcpStateChirho::EstablishedChirho,
        irs_chirho: iss,
        rcv_nxt_chirho: wadd(iss, 1),
        iss_chirho: child_iss,
        snd_nxt_chirho: wadd(child_iss, 1),
        snd_una_chirho: wadd(child_iss, 1),
        ..fresh_tcb()
    })
    &&& c.recv_buf_chirho@.len() == 0
    &&& c.accept_queue_chirho@.len() == 0
    &&& c.backlog_chirho == 0
    &&& c.nonblock_chirho == (l.sock_type_chirho & 0o4000 != 0)
}

/// The first slot other than `idx` listening on `port`, if any.
fn find_listener_chirho(t: &SocketTableChirho, idx_chirho: usize, port_chirho: u16) -> (r: Option<usize>)
    ensures
        r is None ==> no_listener(t.slots_chirho@, idx_chirho as int, port_chirho),
        r matches Some(l) ==> first_listener(t.slots_chirho@, idx_chirho as int, port_chirho, l as int),
{
    let mut j_chirho: usize = 0;
    while j_chirho < t.slots_chirho.len()
        invariant
            j_chirho <= t.slots_chirho@.len(),
            forall|k: int| 0 <= k < j_chirho && k != idx_chirho ==> !is_listener_for(#[trigger] t.slots_chirho@[k], port_chirho),
        decreases t.slots_chirho@.len() - j_chirho,
    {
        if j_chirho != idx_chirho {
            match &t.slots_chirho[j_chirho] {
                Some(o_chirho) => {
                    if o_chirho.state_chirho == SocketStateChirho::ListeningChirho {
                        match o_chirho.local_addr_chirho {
                            Some(l_chirho) => {
                                if l_chirho.port_chirho == port_chirho {
                                    return Some(j_chirho);
                                }
                            },
                            None => {},
                        }
                    }
                },
                None => {},
            }
        }
        j_chirho = j_chirho + 1;
    }
    None
}

/// The slots after a local handshake: `old` before, `new` after, `idx` the
/// connecting socket, `l` the listener, `local` the connecting socket's
/// address, `iss` its initial sequence number and `child_iss` that of the
/// accepted socket; `r` the result. A full table refuses the connection and
/// closes the connecting socket; otherwise the accepted socket fills the
/// first free slot and joins the listener's queue, and both ends are
/// ESTABLISHED.
pub open spec fn handshake_outcome(old: Seq<Option<SocketChirho>>, new: Seq<Option<SocketChirho>>, idx: int, l: int,
    local: Option<SockAddrInChirho>, iss: u32, child_iss: u32, r: int) -> bool {
    let me = old[idx].unwrap();
    if all_full(old) {
        &&& r == -ECONNREFUSED_CHIRHO
        &&& new == old.update(idx, Some(SocketChirho {
            tcb_chirho: TcpControlBlockChirho { state_chirho: TcpStateChirho::ClosedChirho, ..me.tcb_chirho },
            state_chirho: SocketStateChirho::UnconnectedChirho,
            ..me
        }))
    } else {
        &&& r == 0
        &&& exists|f: int| #[trigger] first_free_in(old, f) && {
            let ln = new[l].unwrap();
            let lo = old[l].unwrap();
            &&& new.len() == old.len()
            &&& new[f] matches Some(ch) && loopback_child(ch, lo, local, iss, child_iss)
            &&& new[idx] == Some(SocketChirho {
                tcb_chirho: TcpControlBlockChirho {
                    irs_chirho: child_iss,
                    rcv_nxt_chirho: wadd(child_iss, 1),
                    snd_una_chirho: me.tcb_chirho.snd_nxt_chirho,
                    state_chirho: TcpStateChirho::EstablishedChirho,
                    ..me.tcb_chirho
                },
                state_chirho: SocketStateChirho::ConnectedChirho,
                ..me
            })
            &&& new[l] is Some
            &&& same_but_queues(lo, ln)
            &&& ln.recv_buf_chirho@ == lo.recv_buf_chirho@
            &&& ln.accept_queue_chirho@ == lo.accept_queue_chirho@.push(f as u64)
            &&& forall|j: int| 0 <= j < old.len() && j != f && j != l && j != idx ==> #[trigger] new[j] == old[j]
        }
    }
}

/// Complete a local handshake between the connecting socket `idx` (whose
/// SYN had sequence number `iss`) and the listener `l`.
#[verifier::rlimit(50)]
fn loopback_handshake_chirho(t: &mut SocketTableChirho, idx_chirho: usize, l_chirho: usize, iss_chirho: u32,
    local_chirho: Option<SockAddrInChirho>) -> (r: i64)
    requires
        table_wf(*old(t)),
        idx_chirho < old(t).slots_chirho@.len(),
        l_chirho < old(t).slots_chirho@.len(),
        l_chirho != idx_chirho,
        old(t).slots_chirho@[idx_chirho as int] is Some,
        old(t).slots_chirho@[l_chirho as int] is Some,
    ensures
        table_wf(*final(t)),
        final(t).next_ephemeral_chirho == old(t).next_ephemeral_chirho,
        final(t).iss_counter_chirho == iss_counter_next(old(t).iss_counter_chirho),
        handshake_outcome(old(t).slots_chirho@, final(t).slots_chirho@, idx_chirho as int, l_chirho as int,
            local_chirho, iss_chirho, iss_of(old(t).iss_counter_chirho), r as int),
{
    let ghost t2 = *t;
    let (lf_chirho, lt_chirho, ll_chirho) = match &t.slots_chirho[l_chirho] {
        Some(o) => (o.family_chirho, o.sock_type_chirho, o.local_addr_chirho),
        None => (0, 0, None),
    };
    let mut counter_chirho = t.iss_counter_chirho;
    let child_iss_chirho = TcpControlBlockChirho::generate_iss_chirho(&mut counter_chirho);
    t.iss_counter_chirho = counter_chirho;
    let mut child_chirho = SocketChirho::new_chirho(lf_chirho, lt_chirho, 0);
    child_chirho.local_addr_chirho = ll_chirho;
    child_chirho.remote_addr_chirho = local_chirho;
    child_chirho.state_chirho = SocketStateChirho::ConnectedChirho;
    child_chirho.tcb_chirho.state_chirho = TcpStateChirho::EstablishedChirho;
    child_chirho.tcb_chirho.irs_chirho = iss_chirho;
    child_chirho.tcb_chirho.rcv_nxt_chirho = iss_chirho.wrapping_add(1);
    child_chirho.tcb_chirho.iss_chirho = child_iss_chirho;
    child_chirho.tcb_chirho.snd_nxt_chirho = child_iss_chirho.wrapping_add(1);
    child_chirho.tcb_chirho.snd_una_chirho = child_iss_chirho.wrapping_add(1);
    assert(loopback_child(child_chirho, t2.slots_chirho@[l_chirho as int].unwrap(), local_chirho, iss_chirho, child_iss_chirho));
    match alloc_socket_slot_chirho(t, child_chirho) {
        Ok(c_chirho) => {
            let ghost t4 = *t;
            let mut lsock_chirho = match take_slot_chirho(t, l_chirho) {
                Some(x) => x,
                None => SocketChirho::new_chirho(0, 0, 0),
            };
            lsock_chirho.accept_queue_chirho.push_back(c_chirho as u64);
            put_slot_chirho(t, l_chirho, Some(lsock_chirho));
            let mut me_chirho = match take_slot_chirho(t, idx_chirho) {
                Some(x) => x,
                None => SocketChirho::new_chirho(0, 0, 0),
            };
            me_chirho.tcb_chirho.irs_chirho = child_iss_chirho;
            me_chirho.tcb_chirho.rcv_nxt_chirho = child_iss_chirho.wrapping_add(1);
            me_chirho.tcb_chirho.snd_una_chirho = me_chirho.tcb_chirho.snd_nxt_chirho;
            me_chirho.tcb_chirho.state_chirho = TcpStateChirho::EstablishedChirho;
            me_chirho.state_chirho = SocketStateChirho::ConnectedChirho;
            put_slot_chirho(t, idx_chirho, Some(me_chirho));
            proof {
                let f = c_chirho as int;
                let l = l_chirho as int;
                let i = idx_chirho as int;
                assert(first_free_in(t2.slots_chirho@, f));
                assert(f != l && f != i);
                assert(t4.slots_chirho@[l] == t2.slots_chirho@[l]);
                assert(t.slots_chirho@[f] == Some(child_chirho));
                assert(forall|j: int| 0 <= j < t2.slots_chirho@.len() && j != f && j != l && j != i
                    ==> #[trigger] t.slots_chirho@[j] == t2.slots_chirho@[j]);
                assert(!all_full(t2.slots_chirho@));
                let lo = t2.slots_chirho@[l].unwrap();
                assert(same_but_queues(lo, lsock_chirho));
                assert(lsock_chirho.accept_queue_chirho@ == lo.accept_queue_chirho@.push(f as u64));
                assert(t.slots_chirho@[l] == Some(lsock_chirho));
                assert(t.slots_chirho@[i] == Some(me_chirho));
                let me = t2.slots_chirho@[i].unwrap();
                assert(me_chirho == SocketChirho {
                    tcb_chirho: TcpControlBlockChirho {
                        irs_chirho: child_iss_chirho,
                        rcv_nxt_chirho: wadd(child_iss_chirho, 1),
                        snd_una_chirho: me.tcb_chirho.snd_nxt_chirho,
                        state_chirho: TcpStateChirho::EstablishedChirho,
                        ..me.tcb_chirho
                    },
                    state_chirho: SocketStateChirho::ConnectedChirho,
                    ..me
                });
                assert(t.slots_chirho@.len() == t2.slots_chirho@.len());
                assert(t.slots_chirho@[f] matches Some(ch) && loopback_child(ch, lo, local_chirho, iss_chirho, child_iss_chirho));
                assert(child_iss_chirho == iss_of(t2.iss_counter_chirho));
            }
            0
        },
        Err(_) => {
            let mut me_chirho = match take_slot_chirho(t, idx_chirho) {
                Some(x) => x,
                None => SocketChirho::new_chirho(0, 0, 0),
            };
            me_chirho.tcb_chirho.state_chirho = TcpStateChirho::ClosedChirho;
            me_chirho.state_chirho = SocketStateChirho::UnconnectedChirho;
            put_slot_chirho(t, idx_chirho, Some(me_chirho));
            proof {
                let me = t2.slots_chirho@[idx_chirho as int].unwrap();
                assert(all_full(t2.slots_chirho@));
                assert(t.slots_chirho@ =~= t2.slots_chirho@.update(idx_chirho as int, Some(SocketChirho {
                    tcb_chirho: TcpControlBlockChirho { state_chirho: TcpStateChirho::ClosedChirho, ..me.tcb_chirho },
                    state_chirho: SocketStateChirho::UnconnectedChirho,
                    ..me
                })));
            }
            -ECONNREFUSED_CHIRHO
        },
    }
}

/// `connect(2)`. A missing address is `-EINVAL`, an empty slot `-EBADF`,
/// a connected socket `-EISCONN`, a listening one `-EOPNOTSUPP`. Otherwise
/// the socket gets a local address (the next ephemeral port on 127.0.0.1
/// when it had none) and the peer address. A datagram socket is then
/// connected. A stream socket sends its SYN; when another socket listens on
/// the peer port, the handshake completes locally (see
/// `handshake_outcome`). With no local listener the caller takes over with
/// the remote peer.
#[verifier::rlimit(50)]
pub fn sys_connect_chirho(t: &mut SocketTableChirho, idx_chirho: usize, dest_chirho: Option<SockAddrInChirho>) -> (r: ConnectStepChirho)
    requires
        table_wf(*old(t)),
        port_counter_ok(*old(t)),
    ensures
        table_wf(*final(t)),
        dest_chirho is None ==> done_with(r, -EINVAL_CHIRHO) && unchanged(*final(t), *old(t)),
        dest_chirho is Some && !occupied(*old(t), idx_chirho as int) ==> done_with(r, -EBADF_CHIRHO) && unchanged(*final(t), *old(t)),
        dest_chirho matches Some(d) ==> !occupied(*old(t), idx_chirho as int) || {
            let s = sock(*old(t), idx_chirho as int);
            let c0 = old(t).next_ephemeral_chirho;
            let k0 = old(t).iss_counter_chirho;
            let local = connect_local(s, c0);
            let s1 = SocketChirho { local_addr_chirho: local, remote_addr_chirho: Some(d), ..s };
            let iss = iss_of(k0);
            let s2 = SocketChirho { tcb_chirho: syn_sent_tcb(s.tcb_chirho, iss), ..s1 };
            let old2 = old(t).slots_chirho@.update(idx_chirho as int, Some(s2));
            if s.state_chirho == SocketStateChirho::ConnectedChirho {
                done_with(r, -EISCONN_CHIRHO) && unchanged(*final(t), *old(t))
            } else if s.state_chirho == SocketStateChirho::ListeningChirho {
                done_with(r, -EOPNOTSUPP_CHIRHO) && unchanged(*final(t), *old(t))
            } else {
                &&& final(t).next_ephemeral_chirho == (if s.local_addr_chirho is None { c0 + 1 } else { c0 as int })
                &&& if socket_type_spec(s.sock_type_chirho) != Some(SocketTypeChirho::SockStreamChirho) {
                    &&& done_with(r, 0)
                    &&& final(t).iss_counter_chirho == k0
                    &&& final(t).slots_chirho@ == old(t).slots_chirho@.update(idx_chirho as int,
                        Some(SocketChirho { state_chirho: SocketStateChirho::ConnectedChirho, ..s1 }))
                } else if s.tcb_chirho.state_chirho != TcpStateChirho::ClosedChirho {
                    &&& done_with(r, -EISCONN_CHIRHO)
                    &&& final(t).iss_counter_chirho == k0
                    &&& final(t).slots_chirho@ == old(t).slots_chirho@.update(idx_chirho as int, Some(s1))
                } else if no_listener(old2, idx_chirho as int, d.port_chirho) {
                    &&& r == (ConnectStepChirho::RemoteChirho { local_port_chirho: local.unwrap().port_chirho,
                        remote_ip_chirho: d.addr_chirho, remote_port_chirho: d.port_chirho, iss_chirho: iss })
                    &&& final(t).iss_counter_chirho == iss_counter_next(k0)
                    &&& final(t).slots_chirho@ == old2
                } else {
                    &&& final(t).iss_counter_chirho == iss_counter_next(iss_counter_next(k0))
                    &&& r matches ConnectStepChirho::DoneChirho(code)
                    &&& exists|l: int| #[trigger] first_listener(old2, idx_chirho as int, d.port_chirho, l)
                        && handshake_outcome(old2, final(t).slots_chirho@, idx_chirho as int, l, local, iss,
                            iss_of(iss_counter_next(k0)), code as int)
                }
            }
        },
{
    let d_chirho = match dest_chirho {
        Some(d) => d,
        None => return ConnectStepChirho::DoneChirho(-EINVAL_CHIRHO),
    };
    if idx_chirho >= t.slots_chirho.len() || t.slots_chirho[idx_chirho].is_none() {
        return ConnectStepChirho::DoneChirho(-EBADF_CHIRHO);
    }
    let ghost t0 = *t;
    let taken_chirho = take_slot_chirho(t, idx_chirho);
    let mut s_chirho = match taken_chirho {
        Some(s) => s,
        None => return ConnectStepChirho::DoneChirho(-EBADF_CHIRHO),
    };
    if s_chirho.state_chirho == SocketStateChirho::ConnectedChirho {
        put_slot_chirho(t, idx_chirho, Some(s_chirho));
        assert(t.slots_chirho@ =~= t0.slots_chirho@);
        return ConnectStepChirho::DoneChirho(-EISCONN_CHIRHO);
    }
    if s_chirho.state_chirho == SocketStateChirho::ListeningChirho {
        put_slot_chirho(t, idx_chirho, Some(s_chirho));
        assert(t.slots_chirho@ =~= t0.slots_chirho@);
        return ConnectStepChirho::DoneChirho(-EOPNOTSUPP_CHIRHO);
    }
    if s_chirho.local_addr_chirho.is_none() {
        let port_chirho = alloc_ephemeral_port_chirho(t);
        s_chirho.local_addr_chirho = Some(SockAddrInChirho { port_chirho, addr_chirho: 0x7F000001 });
    }
    s_chirho.remote_addr_chirho = Some(d_chirho);
    if SocketTypeChirho::from_raw_chirho(s_chirho.sock_type_chirho) != Some(SocketTypeChirho::SockStreamChirho) {
        s_chirho.state_chirho = SocketStateChirho::ConnectedChirho;
        put_slot_chirho(t, idx_chirho, Some(s_chirho));
        return ConnectStepChirho::DoneChirho(0);
    }
    let local_addr_chirho = s_chirho.local_addr_chirho;
    let local_port_chirho: u16 = match local_addr_chirho { Some(a) => a.port_chirho, None => 0 };
    let mut counter_chirho = t.iss_counter_chirho;
    let opened_chirho = s_chirho.tcb_chirho.active_open_chirho(local_port_chirho, d_chirho.port_chirho, &mut counter_chirho);
    t.iss_counter_chirho = counter_chirho;
    if let Err(e_chirho) = opened_chirho {
        put_slot_chirho(t, idx_chirho, Some(s_chirho));
        return ConnectStepChirho::DoneChirho(e_chirho);
    }
    let iss_chirho = s_chirho.tcb_chirho.iss_chirho;
    proof {
        let s = t0.slots_chirho@[idx_chirho as int].unwrap();
        let local = connect_local(s, t0.next_ephemeral_chirho);
        let s1 = SocketChirho { local_addr_chirho: local, remote_addr_chirho: Some(d_chirho), ..s };
        let s2 = SocketChirho { tcb_chirho: syn_sent_tcb(s.tcb_chirho, iss_of(t0.iss_counter_chirho)), ..s1 };
        assert(iss_chirho == iss_of(t0.iss_counter_chirho));
        assert(local_addr_chirho == local);
        assert(s_chirho == s2);
    }
    let ghost s2g = s_chirho;
    put_slot_chirho(t, idx_chirho, Some(s_chirho));
    assert(t.slots_chirho@ =~= t0.slots_chirho@.update(idx_chirho as int, Some(s2g)));
    let listener_chirho = find_listener_chirho(t, idx_chirho, d_chirho.port_chirho);
    match listener_chirho {
        None => {
            ConnectStepChirho::RemoteChirho {
                local_port_chirho,
                remote_ip_chirho: d_chirho.addr_chirho,
                remote_port_chirho: d_chirho.port_chirho,
                iss_chirho,
            }
        },
        Some(l_chirho) => {
            let code_chirho = loopback_handshake_chirho(t, idx_chirho, l_chirho, iss_chirho, local_addr_chirho);
            ConnectStepChirho::DoneChirho(code_chirho)
        },
    }
}

/// Finish a connection to a remote peer once its SYN-ACK (sequence number
/// `seq`, acknowledgment `ack`) arrived: ESTABLISHED, with the local address
/// on the interface that carried it.
pub fn connect_established_chirho(t: &mut SocketTableChirho, idx_chirho: usize, local_port_chirho: u16, src_ip_chirho: u32,
    seq_chirho: u32, ack_chirho: u32)
    requires
        table_wf(*old(t)),
    ensures
        table_wf(*final(t)),
        final(t).next_ephemeral_chirho == old(t).next_ephemeral_chirho,
        final(t).iss_counter_chirho == old(t).iss_counter_chirho,
        !occupied(*old(t), idx_chirho as int) ==> final(t).slots_chirho@ == old(t).slots_chirho@,
        occupied(*old(t), idx_chirho as int) ==> {
            let s = sock(*old(t), idx_chirho as int);
            final(t).slots_chirho@ == old(t).slots_chirho@.update(idx_chirho as int, Some(SocketChirho {
                tcb_chirho: TcpControlBlockChirho {
                    state_chirho: TcpStateChirho::EstablishedChirho,
                    irs_chirho: seq_chirho,
                    rcv_nxt_chirho: wadd(seq_chirho, 1),
                    snd_una_chirho: ack_chirho,
                    ..s.tcb_chirho
                },
                state_chirho: SocketStateChirho::ConnectedChirho,
                local_addr_chirho: Some(SockAddrInChirho { port_chirho: local_port_chirho, addr_chirho: src_ip_chirho }),
                ..s
            }))
        },
{
    if idx_chirho >= t.slots_chirho.len() || t.slots_chirho[idx_chirho].is_none() {
        return;
    }
    let mut s_chirho = match take_slot_chirho(t, idx_chirho) {
        Some(x) => x,
        None => SocketChirho::new_chirho(0, 0, 0),
    };
    s_chirho.tcb_chirho.state_chirho = TcpStateChirho::EstablishedChirho;
    s_chirho.tcb_chirho.irs_chirho = seq_chirho;
    s_chirho.tcb_chirho.rcv_nxt_chirho = seq_chirho.wrapping_add(1);
    s_chirho.tcb_chirho.snd_una_chirho = ack_chirho;
    s_chirho.state_chirho = SocketStateChirho::ConnectedChirho;
    s_chirho.local_addr_chirho = Some(SockAddrInChirho { port_chirho: local_port_chirho, addr_chirho: src_ip_chirho });
    put_slot_chirho(t, idx_chirho, Some(s_chirho));
}

/// Give up on a remote connection that got no SYN-ACK: CLOSED and
/// unconnected.
pub fn connect_timed_out_chirho(t: &mut SocketTableChirho, idx_chirho: usize)
    requires
        table_wf(*old(t)),
    ensures
        table_wf(*final(t)),
        final(t).next_ephemeral_chirho == old(t).next_ephemeral_chirho,
        final(t).iss_counter_chirho == old(t).iss_counter_chirho,
        !occupied(*old(t), idx_chirho as int) ==> final(t).slots_chirho@ == old(t).slots_chirho@,
        occupied(*old(t), idx_chirho as int) ==> {
            let s = sock(*old(t), idx_chirho as int);
            final(t).slots_chirho@ == old(t).slots_chirho@.update(idx_chirho as int, Some(SocketChirho {
                tcb_chirho: TcpControlBlockChirho { state_chirho: TcpStateChirho::ClosedChirho, ..s.tcb_chirho },
                state_chirho: SocketStateChirho::UnconnectedChirho,
                ..s
            }))
        },
{
    if idx_chirho >= t.slots_chirho.len() || t.slots_chirho[idx_chirho].is_none() {
        return;
    }
    let mut s_chirho = match take_slot_chirho(t, idx_chirho) {
        Some(x) => x,
        None => SocketChirho::new_chirho(0, 0, 0),
    };
    s_chirho.tcb_chirho.state_chirho = TcpStateChirho::ClosedChirho;
    s_chirho.state_chirho = SocketStateChirho::UnconnectedChirho;
    put_slot_chirho(t, idx_chirho, Some(s_chirho));
}

/// Whether `seg` is the SYN-ACK from `remote_port` to `local_port`.
pub fn is_syn_ack_for_chirho(seg_chirho: &TcpSegmentChirho, local_port_chirho: u16, remote_port_chirho: u16) -> (r: bool)
    ensures
        r == (seg_chirho.dst_port_chirho == local_port_chirho && seg_chirho.src_port_chirho == remote_port_chirho
            && seg_chirho.flags_chirho & 0x12 == 0x12),
{
    seg_chirho.dst_port_chirho == local_port_chirho && seg_chirho.src_port_chirho == remote_port_chirho
        && seg_chirho.flags_chirho & 0x12 == 0x12
}

/// The port of an optional address, 0 when there is none.
pub open spec fn port_or_zero(a: Option<SockAddrInChirho>) -> u16 {
    match a { Some(x) => x.port_chirho, None => 0 }
}

fn port_or_zero_chirho(a: Option<SockAddrInChirho>) -> (r: u16)
    ensures
        r == port_or_zero(a),
{
    match a { Some(x) => x.port_chirho, None => 0 }
}

/// The slot holds a connected socket whose local port is `rport` and whose
/// peer port is `lport`: the other end of a local connection.
pub open spec fn is_peer_for(slot: Option<SocketChirho>, rport: u16, lport: u16) -> bool {
    &&& slot matches Some(o)
    &&& o.state_chirho == SocketStateChirho::ConnectedChirho
    &&& o.local_addr_chirho matches Some(ol)
    &&& o.remote_addr_chirho matches Some(or)
    &&& ol.port_chirho == rport
    &&& or.port_chirho == lport
}

/// `j` is the first slot other than `idx` that is the other end.
pub open spec fn first_peer(slots: Seq<Option<SocketChirho>>, idx: int, rport: u16, lport: u16, j: int) -> bool {
    &&& 0 <= j < slots.len()
    &&& j != idx
    &&& is_peer_for(slots[j], rport, lport)
    &&& forall|k: int| 0 <= k < j && k != idx ==> !is_peer_for(#[trigger] slots[k], rport, lport)
}

/// `new` is `old` with `data` appended to the receive buffer of slot `j`.
pub open spec fn appended_to(old: Seq<Option<SocketChirho>>, new: Seq<Option<SocketChirho>>, j: int, data: Seq<u8>) -> bool {
    &&& only_slot_changed(old, new, j)
    &&& same_but_queues(old[j].unwrap(), new[j].unwrap())
    &&& new[j].unwrap().recv_buf_chirho@ == old[j].unwrap().recv_buf_chirho@ + data
    &&& new[j].unwrap().accept_queue_chirho@ == old[j].unwrap().accept_queue_chirho@
}

/// Append `data` to the receive buffer of slot `j`.
fn append_recv_chirho(t: &mut SocketTableChirho, j: usize, data_chirho: &[u8])
    requires
        table_wf(*old(t)),
        j < old(t).slots_chirho@.len(),
        old(t).slots_chirho@[j as int] is Some,
    ensures
        table_wf(*final(t)),
        final(t).next_ephemeral_chirho == old(t).next_ephemeral_chirho,
        final(t).iss_counter_chirho == old(t).iss_counter_chirho,
        appended_to(old(t).slots_chirho@, final(t).slots_chirho@, j as int, data_chirho@),
{
    let ghost t0 = *t;
    let mut s_chirho = match take_slot_chirho(t, j) {
        Some(x) => x,
        None => SocketChirho::new_chirho(0, 0, 0),
    };
    let ghost b0 = s_chirho.recv_buf_chirho@;
    let mut i_chirho: usize = 0;
    while i_chirho < data_chirho.len()
        invariant
            i_chirho <= data_chirho@.len(),
            same_but_queues(t0.slots_chirho@[j as int].unwrap(), s_chirho),
            s_chirho.accept_queue_chirho@ == t0.slots_chirho@[j as int].unwrap().accept_queue_chirho@,
            b0 == t0.slots_chirho@[j as int].unwrap().recv_buf_chirho@,
            s_chirho.recv_buf_chirho@ == b0 + data_chirho@.subrange(0, i_chirho as int),
        decreases data_chirho@.len() - i_chirho,
    {
        s_chirho.recv_buf_chirho.push_back(data_chirho[i_chirho]);
        i_chirho = i_chirho + 1;
        assert(data_chirho@.subrange(0, i_chirho as int) == data_chirho@.subrange(0, i_chirho - 1).push(data_chirho@[i_chirho - 1]));
    }
    assert(data_chirho@.subrange(0, data_chirho@.len() as int) == data_chirho@);
    put_slot_chirho(t, j, Some(s_chirho));
}

/// The first slot other than `idx` holding the other end.
fn find_peer_chirho(t: &SocketTableChirho, idx_chirho: usize, rport_chirho: u16, lport_chirho: u16) -> (r: Option<usize>)
    ensures
        r is None ==> forall|k: int| 0 <= k < t.slots_chirho@.len() && k != idx_chirho
            ==> !is_peer_for(#[trigger] t.slots_chirho@[k], rport_chirho, lport_chirho),
        r matches Some(j) ==> first_peer(t.slots_chirho@, idx_chirho as int, rport_chirho, lport_chirho, j as int),
{
    let mut j_chirho: usize = 0;
    while j_chirho < t.slots_chirho.len()
        invariant
            j_chirho <= t.slots_chirho@.len(),
            forall|k: int| 0 <= k < j_chirho && k != idx_chirho ==> !is_peer_for(#[trigger] t.slots_chirho@[k], rport_chirho, lport_chirho),
        decreases t.slots_chirho@.len() - j_chirho,
    {
        if j_chirho != idx_chirho {
            match &t.slots_chirho[j_chirho] {
                Some(o) => {
                    if o.state_chirho == SocketStateChirho::ConnectedChirho {
                        match (o.local_addr_chirho, o.remote_addr_chirho) {
                            (Some(ol), Some(or)) => {
                                if ol.port_chirho == rport_chirho && or.port_chirho == lport_chirho {
                                    return Some(j_chirho);
                                }
                            },
                            _ => {},
                        }
                    }
                },
                None => {},
            }
        }
        j_chirho = j_chirho + 1;
    }
    None
}

/// The source address of a socket's TCP data: its own address, or when that
/// is 0.0.0.0 the address of interface 0, or of interface 1 when interface
/// 0 has none.
pub open spec fn send_src_ip(local: Option<SockAddrInChirho>, ip0: u32, ip1: u32) -> u32 {
    let raw = match local { Some(a) => a.addr_chirho, None => 0 };
    if raw == 0 { if ip0 == 0 { ip1 } else { ip0 } } else { raw }
}

/// `seg` is the data segment a connection in the state `t` sends with
/// `data`.
pub open spec fn is_data_segment(seg: TcpSegmentChirho, t: TcpControlBlockChirho, lport: u16, rport: u16, data: Seq<u8>) -> bool {
    &&& seg.src_port_chirho == lport
    &&& seg.dst_port_chirho == rport
    &&& seg.seq_num_chirho == t.snd_nxt_chirho
    &&& seg.ack_num_chirho == t.rcv_nxt_chirho
    &&& seg.data_offset_chirho == 5
    &&& seg.flags_chirho == crate::net_types::TCP_ACK_CHIRHO | crate::net_types::TCP_PSH_CHIRHO
    &&& seg.window_chirho == t.rcv_wnd_chirho
    &&& seg.checksum_chirho == 0
    &&& seg.urgent_ptr_chirho == 0
    &&& seg.payload_chirho@ == data
}

/// `p` is the packet carrying `data` on the connection of socket `s`: a
/// data segment from its local port to its peer (port and address 0 when it
/// has none), sent from `send_src_ip`.
pub open spec fn data_packet(s: SocketChirho, data: Seq<u8>, ip0: u32, ip1: u32, p: Seq<u8>) -> bool {
    exists|seg: TcpSegmentChirho| #[trigger] is_data_segment(seg, s.tcb_chirho, port_or_zero(s.local_addr_chirho),
        remote_or_zero(s).port_chirho, data)
        && p == tcp_packet_spec(seg, send_src_ip(s.local_addr_chirho, ip0, ip1), remote_or_zero(s).addr_chirho)
}

/// The peer address of `s`, or port and address 0 when it has none.
pub open spec fn remote_or_zero(s: SocketChirho) -> SockAddrInChirho {
    match s.remote_addr_chirho { Some(a) => a, None => SockAddrInChirho { port_chirho: 0, addr_chirho: 0 } }
}

/// The socket after sending `n` bytes: SND.NXT `n` further.
pub open spec fn after_send(s: SocketChirho, n: int) -> SocketChirho {
    SocketChirho { tcb_chirho: TcpControlBlockChirho { snd_nxt_chirho: wadd(s.tcb_chirho.snd_nxt_chirho, n), ..s.tcb_chirho }, ..s }
}

/// `p` is the packet carrying `data` as the next segment of the
/// connection of `s`, sent from address `src`.
pub open spec fn data_packet_from(s: SocketChirho, data: Seq<u8>, src: u32, p: Seq<u8>) -> bool {
    exists|seg: TcpSegmentChirho| #[trigger] is_data_segment(seg, s.tcb_chirho, port_or_zero(s.local_addr_chirho),
        remote_or_zero(s).port_chirho, data)
        && p == tcp_packet_spec(seg, src, remote_or_zero(s).addr_chirho)
}

/// Emit `data` as a TCP segment on the connection in slot `idx`, from the
/// socket's own address (or the interface address `ip0`, else `ip1`, when
/// it is bound to none).
pub(crate) fn tcp_transmit_chirho(t: &mut SocketTableChirho, idx_chirho: usize, data_chirho: &[u8], ip0_chirho: u32, ip1_chirho: u32)
    -> (r: Option<Vec<u8>>)
    requires
        table_wf(*old(t)),
        occupied(*old(t), idx_chirho as int),
        sock(*old(t), idx_chirho as int).tcb_chirho.state_chirho == TcpStateChirho::EstablishedChirho
            || sock(*old(t), idx_chirho as int).tcb_chirho.state_chirho == TcpStateChirho::CloseWaitChirho,
        data_chirho@.len() <= 65536,
    ensures
        table_wf(*final(t)),
        final(t).next_ephemeral_chirho == old(t).next_ephemeral_chirho,
        final(t).iss_counter_chirho == old(t).iss_counter_chirho,
        final(t).slots_chirho@ == old(t).slots_chirho@.update(idx_chirho as int,
            Some(after_send(sock(*old(t), idx_chirho as int), data_chirho@.len() as int))),
        r matches Some(p) && data_packet(sock(*old(t), idx_chirho as int), data_chirho@, ip0_chirho, ip1_chirho, p@),
{
    let ghost s0 = sock(*t, idx_chirho as int);
    let raw_chirho: u32 = match &t.slots_chirho[idx_chirho] {
        Some(s_chirho) => match s_chirho.local_addr_chirho { Some(a) => a.addr_chirho, None => 0 },
        None => 0,
    };
    let src_ip_chirho = if raw_chirho == 0 { if ip0_chirho == 0 { ip1_chirho } else { ip0_chirho } } else { raw_chirho };
    assert(src_ip_chirho == send_src_ip(s0.local_addr_chirho, ip0_chirho, ip1_chirho));
    let r = tcp_transmit_from_chirho(t, idx_chirho, data_chirho, src_ip_chirho);
    proof {
        let p = r.unwrap()@;
        let seg = choose|seg: TcpSegmentChirho| #[trigger] is_data_segment(seg, s0.tcb_chirho, port_or_zero(s0.local_addr_chirho),
            remote_or_zero(s0).port_chirho, data_chirho@)
            && p == tcp_packet_spec(seg, src_ip_chirho, remote_or_zero(s0).addr_chirho);
        assert(is_data_segment(seg, s0.tcb_chirho, port_or_zero(s0.local_addr_chirho), remote_or_zero(s0).port_chirho, data_chirho@));
    }
    r
}

/// Emit `data` as a TCP segment on the connection in slot `idx`, from
/// address `src`.
pub(crate) fn tcp_transmit_from_chirho(t: &mut SocketTableChirho, idx_chirho: usize, data_chirho: &[u8], src_ip_chirho: u32)
    -> (r: Option<Vec<u8>>)
    requires
        table_wf(*old(t)),
        occupied(*old(t), idx_chirho as int),
        sock(*old(t), idx_chirho as int).tcb_chirho.state_chirho == TcpStateChirho::EstablishedChirho
            || sock(*old(t), idx_chirho as int).tcb_chirho.state_chirho == TcpStateChirho::CloseWaitChirho,
        data_chirho@.len() <= 65536,
    ensures
        table_wf(*final(t)),
        final(t).next_ephemeral_chirho == old(t).next_ephemeral_chirho,
        final(t).iss_counter_chirho == old(t).iss_counter_chirho,
        final(t).slots_chirho@ == old(t).slots_chirho@.update(idx_chirho as int,
            Some(after_send(sock(*old(t), idx_chirho as int), data_chirho@.len() as int))),
        r matches Some(p) && data_packet_from(sock(*old(t), idx_chirho as int), data_chirho@, src_ip_chirho, p@),
{
    let ghost t0 = *t;
    let mut s_chirho = match take_slot_chirho(t, idx_chirho) {
        Some(x) => x,
        None => SocketChirho::new_chirho(0, 0, 0),
    };
    let local_port_chirho = port_or_zero_chirho(s_chirho.local_addr_chirho);
    let rm_chirho = match s_chirho.remote_addr_chirho { Some(a) => a, None => SockAddrInChirho { port_chirho: 0, addr_chirho: 0 } };
    let ghost tcb0 = s_chirho.tcb_chirho;
    let seg_opt_chirho = s_chirho.tcb_chirho.make_data_segment_chirho(local_port_chirho, rm_chirho.port_chirho, data_chirho);
    put_slot_chirho(t, idx_chirho, Some(s_chirho));
    match seg_opt_chirho {
        Some(seg_chirho) => {
            let packet_chirho = build_tcp_packet_chirho(&seg_chirho, src_ip_chirho, rm_chirho.addr_chirho);
            proof {
                let s = t0.slots_chirho@[idx_chirho as int].unwrap();
                assert(is_data_segment(seg_chirho, s.tcb_chirho, port_or_zero(s.local_addr_chirho), rm_chirho.port_chirho, data_chirho@));
                assert(remote_or_zero(s) == rm_chirho);
            }
            Some(packet_chirho)
        },
        None => {
            assert(tcb0.state_chirho == TcpStateChirho::EstablishedChirho || tcb0.state_chirho == TcpStateChirho::CloseWaitChirho);
            None
        },
    }
}

/// What `sendto` on slot `idx` does: from table `o` to table `n`, with
/// result `r` (the count and the TCP packet to transmit, if any).
pub open spec fn sendto_outcome(o: SocketTableChirho, after: SocketTableChirho, idx: usize, data: Seq<u8>, len: u64, ip0: u32,
    ip1: u32, r: (i64, Option<Vec<u8>>)) -> bool {
    &&& (!occupied(o, idx as int) || sock(o, idx as int).family_chirho == 1) ==> {
        &&& r.0 == len as i64
        &&& r.1 is None
        &&& after.slots_chirho@ == o.slots_chirho@
    }
    &&& (occupied(o, idx as int) && sock(o, idx as int).family_chirho != 1) ==> {
        let s = sock(o, idx as int);
        let stream = socket_type_spec(s.sock_type_chirho) == Some(SocketTypeChirho::SockStreamChirho);
        let connected = effective_state_spec(s) == SocketStateChirho::ConnectedChirho;
        let sends = stream && (s.tcb_chirho.state_chirho == TcpStateChirho::EstablishedChirho
            || s.tcb_chirho.state_chirho == TcpStateChirho::CloseWaitChirho);
        let lport = port_or_zero(s.local_addr_chirho);
        if stream && !connected {
            r.0 == -ENOTCONN_CHIRHO && r.1 is None && after.slots_chirho@ == o.slots_chirho@
        } else if !connected || data.len() == 0 {
            r.0 == data.len() && r.1 is None && after.slots_chirho@ == o.slots_chirho@
        } else if sends {
            &&& r.0 == data.len()
            &&& after.slots_chirho@ == o.slots_chirho@.update(idx as int, Some(after_send(s, data.len() as int)))
            &&& r.1 matches Some(p) && data_packet(s, data, ip0, ip1, p@)
        } else {
            &&& r.0 == data.len()
            &&& r.1 is None
            &&& match s.remote_addr_chirho {
                None => after.slots_chirho@ == o.slots_chirho@,
                Some(rm) => {
                    ||| (forall|k: int| 0 <= k < o.slots_chirho@.len() && k != idx
                        ==> !is_peer_for(#[trigger] o.slots_chirho@[k], rm.port_chirho, lport))
                        && after.slots_chirho@ == o.slots_chirho@
                    ||| exists|j: int| #[trigger] first_peer(o.slots_chirho@, idx as int, rm.port_chirho, lport, j)
                        && appended_to(o.slots_chirho@, after.slots_chirho@, j, data)
                },
            }
        }
    }
}

/// `sendto(2)` on slot `idx` with the bytes read from user space (`len` is
/// the length the caller asked for). The result and, when data goes out on
/// the network, the IPv4 packet to transmit. An empty slot or a Unix socket
/// takes the bytes as sent (`len`); a stream socket that is not connected
/// gets `-ENOTCONN`. A connected stream socket whose TCP state can send
/// emits a data segment (`data_packet`; `ip0`, `ip1` are the addresses of
/// interfaces 0 and 1); otherwise the data goes to the local socket at the
/// other end, if any. The result is then the number of bytes.
pub fn sys_sendto_chirho(t: &mut SocketTableChirho, idx_chirho: usize, data_chirho: &[u8], len_chirho: u64, ip0_chirho: u32,
    ip1_chirho: u32) -> (r: (i64, Option<Vec<u8>>))
    requires
        table_wf(*old(t)),
        data_chirho@.len() <= 65536,
    ensures
        table_wf(*final(t)),
        final(t).next_ephemeral_chirho == old(t).next_ephemeral_chirho,
        final(t).iss_counter_chirho == old(t).iss_counter_chirho,
        sendto_outcome(*old(t), *final(t), idx_chirho, data_chirho@, len_chirho, ip0_chirho, ip1_chirho, r),
{
    if idx_chirho >= t.slots_chirho.len() || t.slots_chirho[idx_chirho].is_none() {
        return (len_chirho as i64, None);
    }
    let (family_chirho, ty_chirho, eff_chirho, tcp_st_chirho, local_chirho, remote_chirho) = match &t.slots_chirho[idx_chirho] {
        Some(s) => (s.family_chirho, s.sock_type_chirho, s.effective_state_chirho(), s.tcb_chirho.state_chirho,
            s.local_addr_chirho, s.remote_addr_chirho),
        None => (0, 0, SocketStateChirho::ClosedChirho, TcpStateChirho::ClosedChirho, None, None),
    };
    if family_chirho == 1 {
        return (len_chirho as i64, None);
    }
    let stream_chirho = SocketTypeChirho::from_raw_chirho(ty_chirho) == Some(SocketTypeChirho::SockStreamChirho);
    let connected_chirho = eff_chirho == SocketStateChirho::ConnectedChirho;
    if stream_chirho && !connected_chirho {
        return (-ENOTCONN_CHIRHO, None);
    }
    if !connected_chirho || data_chirho.len() == 0 {
        return (data_chirho.len() as i64, None);
    }
    if stream_chirho && (tcp_st_chirho == TcpStateChirho::EstablishedChirho || tcp_st_chirho == TcpStateChirho::CloseWaitChirho) {
        let p_chirho = tcp_transmit_chirho(t, idx_chirho, data_chirho, ip0_chirho, ip1_chirho);
        return (data_chirho.len() as i64, p_chirho);
    }
    let local_port_chirho = port_or_zero_chirho(local_chirho);
    if let Some(rm_chirho) = remote_chirho {
        match find_peer_chirho(t, idx_chirho, rm_chirho.port_chirho, local_port_chirho) {
            Some(j_chirho) => {
                append_recv_chirho(t, j_chirho, data_chirho);
            },
            None => {},
        }
    }
    (data_chirho.len() as i64, None)
}

/// What `recvfrom` leaves to its caller.
#[derive(Debug)]
pub enum RecvStepChirho {
    /// The call is over: the result and the bytes to copy out.
    DoneChirho(i64, Vec<u8>),
    /// Nothing buffered yet: poll the network once, then call
    /// `recv_after_poll_chirho`.
    PollChirho,
}

/// Take up to `len` buffered bytes of slot `idx` (none when the user buffer
/// is null): the count and the bytes.
fn take_bytes_chirho(t: &mut SocketTableChirho, idx_chirho: usize, len_chirho: u64, buf_nonnull_chirho: bool) -> (r: (i64, Vec<u8>))
    requires
        table_wf(*old(t)),
        occupied(*old(t), idx_chirho as int),
    ensures
        table_wf(*final(t)),
        final(t).next_ephemeral_chirho == old(t).next_ephemeral_chirho,
        final(t).iss_counter_chirho == old(t).iss_counter_chirho,
        ({
            let s = sock(*old(t), idx_chirho as int);
            let b = s.recv_buf_chirho@;
            let n = if len_chirho < b.len() { len_chirho as int } else { b.len() as int };
            &&& r.0 == n as i64
            &&& if buf_nonnull_chirho && n > 0 {
                &&& r.1@ == b.subrange(0, n)
                &&& only_slot_changed(old(t).slots_chirho@, final(t).slots_chirho@, idx_chirho as int)
                &&& same_but_queues(s, sock(*final(t), idx_chirho as int))
                &&& sock(*final(t), idx_chirho as int).recv_buf_chirho@ == b.subrange(n, b.len() as int)
                &&& sock(*final(t), idx_chirho as int).accept_queue_chirho@ == s.accept_queue_chirho@
            } else {
                r.1@.len() == 0 && final(t).slots_chirho@ == old(t).slots_chirho@
            }
        }),
{
    let ghost t0 = *t;
    let mut s_chirho = match take_slot_chirho(t, idx_chirho) {
        Some(x) => x,
        None => SocketChirho::new_chirho(0, 0, 0),
    };
    let avail_chirho = s_chirho.recv_buf_chirho.len();
    let n_chirho: usize = if len_chirho < avail_chirho as u64 { len_chirho as usize } else { avail_chirho };
    let mut out_chirho: Vec<u8> = Vec::new();
    if !buf_nonnull_chirho || n_chirho == 0 {
        put_slot_chirho(t, idx_chirho, Some(s_chirho));
        assert(t.slots_chirho@ =~= t0.slots_chirho@);
        return (n_chirho as i64, out_chirho);
    }
    let ghost b0 = s_chirho.recv_buf_chirho@;
    let mut i_chirho: usize = 0;
    while i_chirho < n_chirho
        invariant
            n_chirho <= b0.len(),
            i_chirho <= n_chirho,
            same_but_queues(t0.slots_chirho@[idx_chirho as int].unwrap(), s_chirho),
            s_chirho.accept_queue_chirho@ == t0.slots_chirho@[idx_chirho as int].unwrap().accept_queue_chirho@,
            b0 == t0.slots_chirho@[idx_chirho as int].unwrap().recv_buf_chirho@,
            out_chirho@ == b0.subrange(0, i_chirho as int),
            s_chirho.recv_buf_chirho@ == b0.subrange(i_chirho as int, b0.len() as int),
        decreases n_chirho - i_chirho,
    {
        match s_chirho.recv_buf_chirho.pop_front() {
            Some(byte_chirho) => {
                out_chirho.push(byte_chirho);
            },
            None => {},
        }
        i_chirho = i_chirho + 1;
        assert(out_chirho@ =~= b0.subrange(0, i_chirho as int));
        assert(s_chirho.recv_buf_chirho@ =~= b0.subrange(i_chirho as int, b0.len() as int));
    }
    put_slot_chirho(t, idx_chirho, Some(s_chirho));
    (n_chirho as i64, out_chirho)
}

/// What `recvfrom` of up to `len` bytes on slot `idx` does: from table
/// `o` to table `n`, with step `r`.
pub open spec fn recvfrom_outcome(o: SocketTableChirho, after: SocketTableChirho, idx: usize, len: u64, nonnull: bool,
    r: RecvStepChirho) -> bool {
    &&& !occupied(o, idx as int) ==> (r matches RecvStepChirho::DoneChirho(n, b) && n == 0 && b@.len() == 0)
        && after.slots_chirho@ == o.slots_chirho@
    &&& occupied(o, idx as int) ==> {
        let s = sock(o, idx as int);
        let b = s.recv_buf_chirho@;
        let n = if len < b.len() { len as int } else { b.len() as int };
        if socket_type_spec(s.sock_type_chirho) == Some(SocketTypeChirho::SockStreamChirho)
            && s.state_chirho != SocketStateChirho::ConnectedChirho && s.tcb_chirho.state_chirho != TcpStateChirho::CloseWaitChirho {
            (r matches RecvStepChirho::DoneChirho(x, v) && x == -ENOTCONN_CHIRHO && v@.len() == 0)
                && after.slots_chirho@ == o.slots_chirho@
        } else if b.len() == 0 {
            &&& after.slots_chirho@ == o.slots_chirho@
            &&& if s.tcb_chirho.state_chirho == TcpStateChirho::CloseWaitChirho || s.tcb_chirho.state_chirho == TcpStateChirho::ClosedChirho {
                r matches RecvStepChirho::DoneChirho(x, v) && x == 0 && v@.len() == 0
            } else {
                r is PollChirho
            }
        } else {
            &&& r matches RecvStepChirho::DoneChirho(x, v) && x == n as i64 && (if nonnull && n > 0 {
                v@ == b.subrange(0, n)
                    && only_slot_changed(o.slots_chirho@, after.slots_chirho@, idx as int)
                    && same_but_queues(s, sock(after, idx as int))
                    && sock(after, idx as int).recv_buf_chirho@ == b.subrange(n, b.len() as int)
                    && sock(after, idx as int).accept_queue_chirho@ == s.accept_queue_chirho@
            } else {
                v@.len() == 0 && after.slots_chirho@ == o.slots_chirho@
            })
        }
    }
}

/// What a connected socket sends to a local peer is what that peer's next
/// read returns: when `sendto` on `idx` (a connected socket that does not
/// transmit TCP segments) hands `data` to the first socket at the other
/// end, whose receive buffer was empty, a `recvfrom` there with room for all
/// of it returns exactly `data`, and `sendto` reported its length.
pub proof fn lemma_local_send_then_recv(o: SocketTableChirho, mid: SocketTableChirho, fin: SocketTableChirho, idx: usize,
    data: Seq<u8>, ip0: u32, ip1: u32, r1: (i64, Option<Vec<u8>>), j: usize, len: u64, r2: RecvStepChirho)
    requires
        occupied(o, idx as int),
        sock(o, idx as int).family_chirho != 1,
        effective_state_spec(sock(o, idx as int)) == SocketStateChirho::ConnectedChirho,
        !(socket_type_spec(sock(o, idx as int).sock_type_chirho) == Some(SocketTypeChirho::SockStreamChirho)
            && (sock(o, idx as int).tcb_chirho.state_chirho == TcpStateChirho::EstablishedChirho
                || sock(o, idx as int).tcb_chirho.state_chirho == TcpStateChirho::CloseWaitChirho)),
        sock(o, idx as int).remote_addr_chirho is Some,
        first_peer(o.slots_chirho@, idx as int, sock(o, idx as int).remote_addr_chirho->0.port_chirho,
            port_or_zero(sock(o, idx as int).local_addr_chirho), j as int),
        sock(o, j as int).recv_buf_chirho@.len() == 0,
        data.len() > 0,
        len >= data.len(),
        sendto_outcome(o, mid, idx, data, data.len() as u64, ip0, ip1, r1),
        recvfrom_outcome(mid, fin, j, len, true, r2),
    ensures
        r1.0 == data.len(),
        r2 matches RecvStepChirho::DoneChirho(n, v) && n == data.len() && v@ == data,
{
    let s = sock(o, idx as int);
    let rm = s.remote_addr_chirho->0;
    let lport = port_or_zero(s.local_addr_chirho);
    assert(is_peer_for(o.slots_chirho@[j as int], rm.port_chirho, lport));
    let jj = choose|x: int| #[trigger] first_peer(o.slots_chirho@, idx as int, rm.port_chirho, lport, x)
        && appended_to(o.slots_chirho@, mid.slots_chirho@, x, data);
    if jj < j {
        assert(!is_peer_for(o.slots_chirho@[jj], rm.port_chirho, lport));
    } else if jj > j {
        assert(!is_peer_for(o.slots_chirho@[j as int], rm.port_chirho, lport));
    }
    assert(jj == j);
    assert(mid.slots_chirho@[j as int].unwrap().recv_buf_chirho@ =~= data);
    assert(occupied(mid, j as int));
    assert(sock(mid, j as int).recv_buf_chirho@.subrange(0, data.len() as int) =~= data);
}

/// `recvfrom(2)` on slot `idx`, for a user buffer of `len` bytes (null when
/// `buf_nonnull` is false). An empty slot gives 0; a stream socket neither
/// connected nor in CLOSE_WAIT gives `-ENOTCONN`. With nothing buffered, a
/// peer that closed gives 0 (end of file) and otherwise the caller polls the
/// network. Else up to `len` bytes leave the receive buffer.
pub fn sys_recvfrom_chirho(t: &mut SocketTableChirho, idx_chirho: usize, len_chirho: u64, buf_nonnull_chirho: bool) -> (r: RecvStepChirho)
    requires
        table_wf(*old(t)),
    ensures
        table_wf(*final(t)),
        final(t).next_ephemeral_chirho == old(t).next_ephemeral_chirho,
        final(t).iss_counter_chirho == old(t).iss_counter_chirho,
        recvfrom_outcome(*old(t), *final(t), idx_chirho, len_chirho, buf_nonnull_chirho, r),
{
    if idx_chirho >= t.slots_chirho.len() || t.slots_chirho[idx_chirho].is_none() {
        return RecvStepChirho::DoneChirho(0, Vec::new());
    }
    let (ty_chirho, st_chirho, tcp_st_chirho, avail_chirho) = match &t.slots_chirho[idx_chirho] {
        Some(s) => (s.sock_type_chirho, s.state_chirho, s.tcb_chirho.state_chirho, s.recv_buf_chirho.len()),
        None => (0, SocketStateChirho::ClosedChirho, TcpStateChirho::ClosedChirho, 0),
    };
    if SocketTypeChirho::from_raw_chirho(ty_chirho) == Some(SocketTypeChirho::SockStreamChirho)
        && st_chirho != SocketStateChirho::ConnectedChirho && tcp_st_chirho != TcpStateChirho::CloseWaitChirho {
        return RecvStepChirho::DoneChirho(-ENOTCONN_CHIRHO, Vec::new());
    }
    if avail_chirho == 0 {
        if tcp_st_chirho == TcpStateChirho::CloseWaitChirho || tcp_st_chirho == TcpStateChirho::ClosedChirho {
            return RecvStepChirho::DoneChirho(0, Vec::new());
        }
        return RecvStepChirho::PollChirho;
    }
    let (n_chirho, v_chirho) = take_bytes_chirho(t, idx_chirho, len_chirho, buf_nonnull_chirho);
    RecvStepChirho::DoneChirho(n_chirho, v_chirho)
}

/// `recvfrom` after the caller polled the network: `-EAGAIN` when the slot
/// is empty or still has nothing buffered, else up to `len` bytes.
pub fn recv_after_poll_chirho(t: &mut SocketTableChirho, idx_chirho: usize, len_chirho: u64, buf_nonnull_chirho: bool) -> (r: (i64, Vec<u8>))
    requires
        table_wf(*old(t)),
    ensures
        table_wf(*final(t)),
        final(t).next_ephemeral_chirho == old(t).next_ephemeral_chirho,
        final(t).iss_counter_chirho == old(t).iss_counter_chirho,
        !has_buffered(*old(t), idx_chirho as int) ==> r.0 == -EAGAIN_CHIRHO && r.1@.len() == 0
            && final(t).slots_chirho@ == old(t).slots_chirho@,
        has_buffered(*old(t), idx_chirho as int) ==> {
            let s = sock(*old(t), idx_chirho as int);
            let b = s.recv_buf_chirho@;
            let n = if len_chirho < b.len() { len_chirho as int } else { b.len() as int };
            &&& r.0 == n as i64
            &&& if buf_nonnull_chirho && n > 0 {
                &&& r.1@ == b.subrange(0, n)
                &&& only_slot_changed(old(t).slots_chirho@, final(t).slots_chirho@, idx_chirho as int)
                &&& same_but_queues(s, sock(*final(t), idx_chirho as int))
                &&& sock(*final(t), idx_chirho as int).recv_buf_chirho@ == b.subrange(n, b.len() as int)
                &&& sock(*final(t), idx_chirho as int).accept_queue_chirho@ == s.accept_queue_chirho@
            } else {
                r.1@.len() == 0 && final(t).slots_chirho@ == old(t).slots_chirho@
            }
        },
{
    if idx_chirho >= t.slots_chirho.len() {
        return (-EAGAIN_CHIRHO, Vec::new());
    }
    let avail_chirho: usize = match &t.slots_chirho[idx_chirho] {
        Some(s) => s.recv_buf_chirho.len(),
        None => 0,
    };
    if avail_chirho == 0 {
        return (-EAGAIN_CHIRHO, Vec::new());
    }
    take_bytes_chirho(t, idx_chirho, len_chirho, buf_nonnull_chirho)
}

/// Slot `idx` holds a socket with received bytes.
pub open spec fn has_buffered(t: SocketTableChirho, idx: int) -> bool {
    occupied(t, idx) && sock(t, idx).recv_buf_chirho@.len() > 0
}

} // verus!
