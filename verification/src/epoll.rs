//! epoll instances: a fixed table of interest lists, and the readiness of
//! the sockets they watch.

use vstd::prelude::*;
use crate::net_types::{SocketStateChirho, EBADF_CHIRHO, EINVAL_CHIRHO};
use crate::socket::{SocketChirho, SocketTableChirho};

verus! {

pub const EPOLLIN_CHIRHO: u32 = 0x001;
pub const EPOLLOUT_CHIRHO: u32 = 0x004;
pub const EPOLLERR_CHIRHO: u32 = 0x008;
pub const EPOLLHUP_CHIRHO: u32 = 0x010;
pub const EPOLL_CTL_ADD_CHIRHO: i32 = 1;
pub const EPOLL_CTL_DEL_CHIRHO: i32 = 2;
pub const EPOLL_CTL_MOD_CHIRHO: i32 = 3;

/// Number of epoll instances.
pub const MAX_EPOLL_INSTANCES_CHIRHO: usize = 64;
/// The epoll descriptor of slot `i` is `EPOLL_FD_BASE + i`.
pub const EPOLL_FD_BASE_CHIRHO: i32 = 1000;
pub const ENOENT_NET_CHIRHO: i64 = 2;
pub const ENOMEM_NET_CHIRHO: i64 = 12;

/// One watched descriptor: the events of interest and the user's cookie.
#[derive(Debug, Clone, Copy)]
pub struct EpollInterestChirho {
    pub fd_chirho: i32,
    pub events_chirho: u32,
    pub data_chirho: u64,
}

/// An epoll instance: its interest list in insertion order.
pub struct EpollInstanceChirho {
    pub interests_chirho: Vec<EpollInterestChirho>,
}

/// The table of epoll instances.
pub struct EpollTableChirho {
    pub slots_chirho: Vec<Option<EpollInstanceChirho>>,
}

/// The table has its fixed number of slots.
pub open spec fn epoll_wf(t: EpollTableChirho) -> bool {
    t.slots_chirho@.len() == MAX_EPOLL_INSTANCES_CHIRHO
}

/// `i` is the first free slot.
pub open spec fn first_free_epoll(s: Seq<Option<EpollInstanceChirho>>, i: int) -> bool {
    &&& 0 <= i < s.len()
    &&& s[i] is None
    &&& forall|j: int| 0 <= j < i ==> s[j] is Some
}

/// The slot that descriptor `epfd` names, when it names one.
pub open spec fn epoll_slot(epfd: i32) -> int {
    epfd - EPOLL_FD_BASE_CHIRHO
}

/// `epfd` names a live instance of the table.
pub open spec fn live_epfd(s: Seq<Option<EpollInstanceChirho>>, epfd: i32) -> bool {
    0 <= epoll_slot(epfd) < s.len() && s[epoll_slot(epfd)] is Some
}

/// The interest list of the instance in slot `i`.
pub open spec fn interests_at(s: Seq<Option<EpollInstanceChirho>>, i: int) -> Seq<EpollInterestChirho> {
    s[i]->0.interests_chirho@
}

/// The interest list after `EPOLL_CTL_DEL` of `fd`: every entry for it goes.
pub open spec fn without_fd(l: Seq<EpollInterestChirho>, fd: i32) -> Seq<EpollInterestChirho> {
    l.filter(|e: EpollInterestChirho| e.fd_chirho != fd)
}

/// `k` is the first entry of `l` for `fd`.
pub open spec fn first_for_fd(l: Seq<EpollInterestChirho>, fd: i32, k: int) -> bool {
    &&& 0 <= k < l.len()
    &&& l[k].fd_chirho == fd
    &&& forall|j: int| 0 <= j < k ==> l[j].fd_chirho != fd
}

impl EpollTableChirho {
    /// A table with every slot free.
    pub fn new_chirho() -> (r: Self)
        ensures
            epoll_wf(r),
            forall|i: int| 0 <= i < MAX_EPOLL_INSTANCES_CHIRHO ==> r.slots_chirho@[i] is None,
    {
        let mut slots_chirho: Vec<Option<EpollInstanceChirho>> = Vec::new();
        while slots_chirho.len() < MAX_EPOLL_INSTANCES_CHIRHO
            invariant
                slots_chirho@.len() <= MAX_EPOLL_INSTANCES_CHIRHO,
                forall|i: int| 0 <= i < slots_chirho@.len() ==> slots_chirho@[i] is None,
            decreases MAX_EPOLL_INSTANCES_CHIRHO - slots_chirho@.len(),
        {
            slots_chirho.push(None);
        }
        EpollTableChirho { slots_chirho }
    }
}

/// `epoll_create`: the first free slot gets an empty instance and its
/// descriptor (`EPOLL_FD_BASE` plus the slot) is returned; `-ENOMEM` when
/// every slot is taken.
pub fn epoll_create_impl_chirho(t_chirho: &mut EpollTableChirho) -> (r: i64)
    requires
        epoll_wf(*old(t_chirho)),
    ensures
        epoll_wf(*final(t_chirho)),
        (forall|j: int| 0 <= j < MAX_EPOLL_INSTANCES_CHIRHO ==> old(t_chirho).slots_chirho@[j] is Some) ==> {
            &&& r == -ENOMEM_NET_CHIRHO
            &&& final(t_chirho).slots_chirho@ == old(t_chirho).slots_chirho@
        },
        forall|i: int| first_free_epoll(old(t_chirho).slots_chirho@, i) ==> {
            &&& r == EPOLL_FD_BASE_CHIRHO + i
            &&& final(t_chirho).slots_chirho@[i] is Some
            &&& interests_at(final(t_chirho).slots_chirho@, i).len() == 0
            &&& forall|j: int| 0 <= j < MAX_EPOLL_INSTANCES_CHIRHO && j != i
                ==> final(t_chirho).slots_chirho@[j] == old(t_chirho).slots_chirho@[j]
        },
{
    let mut i_chirho: usize = 0;
    while i_chirho < t_chirho.slots_chirho.len()
        invariant
            t_chirho.slots_chirho@ == old(t_chirho).slots_chirho@,
            t_chirho.slots_chirho@.len() == MAX_EPOLL_INSTANCES_CHIRHO,
            i_chirho <= MAX_EPOLL_INSTANCES_CHIRHO,
            forall|j: int| 0 <= j < i_chirho ==> t_chirho.slots_chirho@[j] is Some,
        decreases MAX_EPOLL_INSTANCES_CHIRHO - i_chirho,
    {
        if t_chirho.slots_chirho[i_chirho].is_none() {
            t_chirho.slots_chirho.set(i_chirho, Some(EpollInstanceChirho { interests_chirho: Vec::new() }));
            proof {
                assert forall|k: int| first_free_epoll(old(t_chirho).slots_chirho@, k) implies k == i_chirho by {
                    if k < i_chirho {
                    } else if k > i_chirho {
                        assert(old(t_chirho).slots_chirho@[i_chirho as int] is Some);
                    }
                }
            }
            return EPOLL_FD_BASE_CHIRHO as i64 + i_chirho as i64;
        }
        i_chirho = i_chirho + 1;
    }
    -ENOMEM_NET_CHIRHO
}

/// The interest list without any entry for `fd`.
fn remove_fd_chirho(l_chirho: &Vec<EpollInterestChirho>, fd_chirho: i32) -> (r: Vec<EpollInterestChirho>)
    ensures
        r@ == without_fd(l_chirho@, fd_chirho),
{
    let mut out_chirho: Vec<EpollInterestChirho> = Vec::new();
    let mut i_chirho: usize = 0;
    while i_chirho < l_chirho.len()
        invariant
            i_chirho <= l_chirho@.len(),
            out_chirho@ == without_fd(l_chirho@.take(i_chirho as int), fd_chirho),
        decreases l_chirho@.len() - i_chirho,
    {
        let e_chirho = l_chirho[i_chirho];
        if e_chirho.fd_chirho != fd_chirho {
            out_chirho.push(e_chirho);
        }
        proof {
            let pre = l_chirho@.take(i_chirho + 1);
            assert(pre.drop_last() =~= l_chirho@.take(i_chirho as int));
            assert(pre.last() == e_chirho);
            reveal(Seq::filter);
        }
        i_chirho = i_chirho + 1;
    }
    assert(l_chirho@.take(l_chirho@.len() as int) =~= l_chirho@);
    out_chirho
}

/// The position of the first entry for `fd`, if there is one.
fn find_fd_chirho(l_chirho: &Vec<EpollInterestChirho>, fd_chirho: i32) -> (r: Option<usize>)
    ensures
        r matches Some(k) ==> first_for_fd(l_chirho@, fd_chirho, k as int),
        r is None ==> forall|j: int| 0 <= j < l_chirho@.len() ==> l_chirho@[j].fd_chirho != fd_chirho,
{
    let mut i_chirho: usize = 0;
    while i_chirho < l_chirho.len()
        invariant
            i_chirho <= l_chirho@.len(),
            forall|j: int| 0 <= j < i_chirho ==> l_chirho@[j].fd_chirho != fd_chirho,
        decreases l_chirho@.len() - i_chirho,
    {
        if l_chirho[i_chirho].fd_chirho == fd_chirho {
            return Some(i_chirho);
        }
        i_chirho = i_chirho + 1;
    }
    None
}

/// What `epoll_ctl` with `op` makes of the interest list `l`, and what it
/// returns: `ADD` appends, `DEL` drops every entry for `fd`, `MOD` rewrites
/// the first entry for `fd` (`-ENOENT` when there is none); any other
/// operation is `-EINVAL` and changes nothing.
pub open spec fn ctl_outcome(l: Seq<EpollInterestChirho>, op: i32, fd: i32, ev: u32, dat: u64,
    r: i64, l2: Seq<EpollInterestChirho>) -> bool {
    let e = EpollInterestChirho { fd_chirho: fd, events_chirho: ev, data_chirho: dat };
    if op == EPOLL_CTL_ADD_CHIRHO {
        r == 0 && l2 == l.push(e)
    } else if op == EPOLL_CTL_DEL_CHIRHO {
        r == 0 && l2 == without_fd(l, fd)
    } else if op == EPOLL_CTL_MOD_CHIRHO {
        if exists|k: int| first_for_fd(l, fd, k) {
            r == 0 && l2 == l.update(choose|k: int| first_for_fd(l, fd, k), e)
        } else {
            r == -ENOENT_NET_CHIRHO && l2 == l
        }
    } else {
        r == -EINVAL_CHIRHO && l2 == l
    }
}

/// `epoll_ctl`: `-EBADF` unless `epfd` names a live instance; otherwise
/// the instance's interest list changes as `ctl_outcome` says, and no
/// other slot changes.
pub fn epoll_ctl_impl_chirho(t_chirho: &mut EpollTableChirho, epfd_chirho: i32, op_chirho: i32, fd_chirho: i32,
    ev_chirho: u32, dat_chirho: u64) -> (r: i64)
    requires
        epoll_wf(*old(t_chirho)),
    ensures
        epoll_wf(*final(t_chirho)),
        !live_epfd(old(t_chirho).slots_chirho@, epfd_chirho) ==> {
            &&& r == -EBADF_CHIRHO
            &&& final(t_chirho).slots_chirho@ == old(t_chirho).slots_chirho@
        },
        live_epfd(old(t_chirho).slots_chirho@, epfd_chirho) ==> {
            let i = epoll_slot(epfd_chirho);
            &&& final(t_chirho).slots_chirho@[i] is Some
            &&& ctl_outcome(interests_at(old(t_chirho).slots_chirho@, i), op_chirho, fd_chirho, ev_chirho,
                dat_chirho, r, interests_at(final(t_chirho).slots_chirho@, i))
            &&& forall|j: int| 0 <= j < MAX_EPOLL_INSTANCES_CHIRHO && j != i
                ==> final(t_chirho).slots_chirho@[j] == old(t_chirho).slots_chirho@[j]
        },
{
    if epfd_chirho < EPOLL_FD_BASE_CHIRHO || epfd_chirho - EPOLL_FD_BASE_CHIRHO >= 64 {
        return -EBADF_CHIRHO;
    }
    let idx_chirho = (epfd_chirho - EPOLL_FD_BASE_CHIRHO) as usize;
    if t_chirho.slots_chirho[idx_chirho].is_none() {
        return -EBADF_CHIRHO;
    }
    let ghost s0 = t_chirho.slots_chirho@;
    let mut slot_chirho: Option<EpollInstanceChirho> = None;
    std::mem::swap(&mut slot_chirho, &mut t_chirho.slots_chirho[idx_chirho]);
    let mut inst_chirho = slot_chirho.unwrap();
    let ghost l0 = inst_chirho.interests_chirho@;
    assert(l0 == interests_at(s0, idx_chirho as int));
    let e_chirho = EpollInterestChirho { fd_chirho, events_chirho: ev_chirho, data_chirho: dat_chirho };
    let r_chirho: i64 = if op_chirho == EPOLL_CTL_ADD_CHIRHO {
        inst_chirho.interests_chirho.push(e_chirho);
        0
    } else if op_chirho == EPOLL_CTL_DEL_CHIRHO {
        inst_chirho.interests_chirho = remove_fd_chirho(&inst_chirho.interests_chirho, fd_chirho);
        0
    } else if op_chirho == EPOLL_CTL_MOD_CHIRHO {
        match find_fd_chirho(&inst_chirho.interests_chirho, fd_chirho) {
            Some(k_chirho) => {
                proof {
                    let c = choose|k: int| first_for_fd(l0, fd_chirho, k);
                    assert(first_for_fd(l0, fd_chirho, c));
                    if c < k_chirho {
                    } else if c > k_chirho {
                        assert(l0[k_chirho as int].fd_chirho == fd_chirho);
                    }
                }
                inst_chirho.interests_chirho.set(k_chirho, e_chirho);
                0
            },
            None => -ENOENT_NET_CHIRHO,
        }
    } else {
        -EINVAL_CHIRHO
    };
    t_chirho.slots_chirho.set(idx_chirho, Some(inst_chirho));
    proof {
        assert(t_chirho.slots_chirho@ =~= s0.update(idx_chirho as int, Some(inst_chirho)));
    }
    r_chirho
}

/// One ready event as `epoll_wait` reports it: the ready events and the
/// watched descriptor's cookie.
#[derive(Debug, Clone, Copy)]
pub struct EpollEventChirho {
    pub events_chirho: u32,
    pub data_chirho: u64,
}

/// What a socket is ready for: input when bytes are buffered, output when
/// connected or bound, hang-up when closed.
pub open spec fn socket_readiness(s: SocketChirho) -> u32 {
    let a: u32 = if s.recv_buf_chirho@.len() > 0 { EPOLLIN_CHIRHO } else { 0 };
    let b: u32 = if s.state_chirho == SocketStateChirho::ConnectedChirho || s.state_chirho == SocketStateChirho::BoundChirho {
        EPOLLOUT_CHIRHO
    } else {
        0
    };
    let c: u32 = if s.state_chirho == SocketStateChirho::ClosedChirho { EPOLLHUP_CHIRHO } else { 0 };
    a | b | c
}

proof fn lemma_readiness_bits(a: u32, b: u32, c: u32, m: u32)
    requires
        a == 0 || a == 1,
        b == 0 || b == 4,
        c == 0 || c == 0x10,
    ensures
        ((a | b | c) & 1 != 0) == (a == 1),
        ((a | b | c) & 4 != 0) == (b == 4),
        ((a | b | c) & 0x10 != 0) == (c == 0x10),
        (a | b | c) & !0x15u32 == 0,
        (((a | b | c) & m) & 1 != 0) == (a == 1 && m & 1 != 0),
        (((a | b | c) & m) & 4 != 0) == (b == 4 && m & 4 != 0),
        (((a | b | c) & m) & 0x10 != 0) == (c == 0x10 && m & 0x10 != 0),
{
    assert(
        ((a == 0 || a == 1) && (b == 0 || b == 4) && (c == 0 || c == 0x10)) ==> {
            &&& ((a | b | c) & 1 != 0) == (a == 1)
            &&& ((a | b | c) & 4 != 0) == (b == 4)
            &&& ((a | b | c) & 0x10 != 0) == (c == 0x10)
            &&& (a | b | c) & !0x15u32 == 0
            &&& (((a | b | c) & m) & 1 != 0) == (a == 1 && m & 1 != 0)
            &&& (((a | b | c) & m) & 4 != 0) == (b == 4 && m & 4 != 0)
            &&& (((a | b | c) & m) & 0x10 != 0) == (c == 0x10 && m & 0x10 != 0)
        }
    ) by (bit_vector);
}

/// What a socket reports ready, bit by bit: EPOLLIN exactly when bytes are
/// buffered, whatever its state; EPOLLOUT exactly when it is connected or
/// bound; EPOLLHUP exactly when it is closed; nothing else.
pub proof fn lemma_socket_readiness_bits(s: SocketChirho)
    ensures
        (socket_readiness(s) & EPOLLIN_CHIRHO != 0) == (s.recv_buf_chirho@.len() > 0),
        (socket_readiness(s) & EPOLLOUT_CHIRHO != 0)
            == (s.state_chirho == SocketStateChirho::ConnectedChirho || s.state_chirho == SocketStateChirho::BoundChirho),
        (socket_readiness(s) & EPOLLHUP_CHIRHO != 0) == (s.state_chirho == SocketStateChirho::ClosedChirho),
        socket_readiness(s) & !(EPOLLIN_CHIRHO | EPOLLOUT_CHIRHO | EPOLLHUP_CHIRHO) == 0,
{
    let in_bit: u32 = if s.recv_buf_chirho@.len() > 0 { 1 } else { 0 };
    let out_bit: u32 = if s.state_chirho == SocketStateChirho::ConnectedChirho || s.state_chirho == SocketStateChirho::BoundChirho {
        EPOLLOUT_CHIRHO
    } else {
        0
    };
    let hup_bit: u32 = if s.state_chirho == SocketStateChirho::ClosedChirho { 0x10 } else { 0 };
    lemma_readiness_bits(in_bit, out_bit, hup_bit, 0);
    assert(EPOLLIN_CHIRHO | EPOLLOUT_CHIRHO | EPOLLHUP_CHIRHO == 0x15u32) by (bit_vector);
}

/// What `epoll_wait` finds ready for an interest on an open socket: input
/// exactly when the socket has buffered bytes and input was asked for,
/// output exactly when it is connected or bound and output was asked for.
pub proof fn lemma_ready_events_bits(t: SocketTableChirho, e: EpollInterestChirho)
    requires
        0 <= e.fd_chirho < t.slots_chirho@.len(),
        t.slots_chirho@[e.fd_chirho as int] is Some,
    ensures
        ({
            let s = t.slots_chirho@[e.fd_chirho as int]->0;
            &&& (ready_events(t, e) & EPOLLIN_CHIRHO != 0) == (s.recv_buf_chirho@.len() > 0 && e.events_chirho & EPOLLIN_CHIRHO != 0)
            &&& (ready_events(t, e) & EPOLLOUT_CHIRHO != 0) == ((s.state_chirho == SocketStateChirho::ConnectedChirho
                || s.state_chirho == SocketStateChirho::BoundChirho) && e.events_chirho & EPOLLOUT_CHIRHO != 0)
            &&& (ready_events(t, e) & EPOLLHUP_CHIRHO != 0) == (s.state_chirho == SocketStateChirho::ClosedChirho
                && e.events_chirho & EPOLLHUP_CHIRHO != 0)
        }),
{
    let s = t.slots_chirho@[e.fd_chirho as int]->0;
    let in_bit: u32 = if s.recv_buf_chirho@.len() > 0 { 1 } else { 0 };
    let out_bit: u32 = if s.state_chirho == SocketStateChirho::ConnectedChirho || s.state_chirho == SocketStateChirho::BoundChirho {
        EPOLLOUT_CHIRHO
    } else {
        0
    };
    let hup_bit: u32 = if s.state_chirho == SocketStateChirho::ClosedChirho { 0x10 } else { 0 };
    lemma_readiness_bits(in_bit, out_bit, hup_bit, e.events_chirho);
}

/// The events of interest `e` that are ready: those of the socket in the
/// slot that `e`'s descriptor names, masked by the events asked for;
/// none when there is no such socket.
pub open spec fn ready_events(t: SocketTableChirho, e: EpollInterestChirho) -> u32 {
    if 0 <= e.fd_chirho < t.slots_chirho@.len() && t.slots_chirho@[e.fd_chirho as int] is Some {
        socket_readiness(t.slots_chirho@[e.fd_chirho as int]->0) & e.events_chirho
    } else {
        0
    }
}

/// The events `epoll_wait` reports for the interest list `l`: in list
/// order, each entry with some ready event, at most `max` of them; none
/// when there is nowhere to write them.
pub open spec fn wait_events(t: SocketTableChirho, l: Seq<EpollInterestChirho>, max: int, out: bool) -> Seq<EpollEventChirho>
    decreases l.len(),
{
    if l.len() == 0 {
        Seq::empty()
    } else {
        let prev = wait_events(t, l.drop_last(), max, out);
        let re = ready_events(t, l.last());
        if prev.len() < max && re != 0 && out {
            prev.push(EpollEventChirho { events_chirho: re, data_chirho: l.last().data_chirho })
        } else {
            prev
        }
    }
}

fn socket_readiness_chirho(s_chirho: &SocketChirho) -> (r: u32)
    ensures
        r == socket_readiness(*s_chirho),
{
    let a_chirho: u32 = if s_chirho.recv_buf_chirho.len() > 0 { EPOLLIN_CHIRHO } else { 0 };
    let b_chirho: u32 = if s_chirho.state_chirho == SocketStateChirho::ConnectedChirho
        || s_chirho.state_chirho == SocketStateChirho::BoundChirho {
        EPOLLOUT_CHIRHO
    } else {
        0
    };
    let c_chirho: u32 = if s_chirho.state_chirho == SocketStateChirho::ClosedChirho { EPOLLHUP_CHIRHO } else { 0 };
    a_chirho | b_chirho | c_chirho
}

fn ready_events_chirho(t_chirho: &SocketTableChirho, e_chirho: EpollInterestChirho) -> (r: u32)
    ensures
        r == ready_events(*t_chirho, e_chirho),
{
    if e_chirho.fd_chirho < 0 {
        return 0;
    }
    let i_chirho = e_chirho.fd_chirho as usize;
    if i_chirho < t_chirho.slots_chirho.len() {
        match &t_chirho.slots_chirho[i_chirho] {
            Some(s_chirho) => socket_readiness_chirho(s_chirho) & e_chirho.events_chirho,
            None => 0,
        }
    } else {
        0
    }
}

/// `epoll_wait`, without the copy to user memory: `-EBADF` unless `epfd`
/// names a live instance, else the events to report, as `wait_events`
/// says (`out` tells whether the caller gave somewhere to write them).
pub fn epoll_wait_impl_chirho(t_chirho: &EpollTableChirho, sockets_chirho: &SocketTableChirho, epfd_chirho: i32,
    out_chirho: bool, max_chirho: i32) -> (r: Result<Vec<EpollEventChirho>, i64>)
    requires
        epoll_wf(*t_chirho),
    ensures
        !live_epfd(t_chirho.slots_chirho@, epfd_chirho) ==> (r matches Err(e) && e == -EBADF_CHIRHO),
        live_epfd(t_chirho.slots_chirho@, epfd_chirho) ==> (r matches Ok(v) && v@ == wait_events(*sockets_chirho,
            interests_at(t_chirho.slots_chirho@, epoll_slot(epfd_chirho)), max_chirho as int, out_chirho)),
{
    if epfd_chirho < EPOLL_FD_BASE_CHIRHO || epfd_chirho - EPOLL_FD_BASE_CHIRHO >= 64 {
        return Err(-EBADF_CHIRHO);
    }
    let idx_chirho = (epfd_chirho - EPOLL_FD_BASE_CHIRHO) as usize;
    match &t_chirho.slots_chirho[idx_chirho] {
        None => Err(-EBADF_CHIRHO),
        Some(inst_chirho) => {
            let l_chirho = &inst_chirho.interests_chirho;
            let mut out_events_chirho: Vec<EpollEventChirho> = Vec::new();
            let mut i_chirho: usize = 0;
            while i_chirho < l_chirho.len()
                invariant
                    i_chirho <= l_chirho@.len(),
                    out_events_chirho@ == wait_events(*sockets_chirho, l_chirho@.take(i_chirho as int),
                        max_chirho as int, out_chirho),
                    out_events_chirho@.len() <= i_chirho,
                decreases l_chirho@.len() - i_chirho,
            {
                let e_chirho = l_chirho[i_chirho];
                let re_chirho = ready_events_chirho(sockets_chirho, e_chirho);
                proof {
                    let pre = l_chirho@.take(i_chirho + 1);
                    assert(pre.drop_last() =~= l_chirho@.take(i_chirho as int));
                    assert(pre.last() == e_chirho);
                }
                if max_chirho > 0 && out_events_chirho.len() < max_chirho as usize && re_chirho != 0 && out_chirho {
                    out_events_chirho.push(EpollEventChirho { events_chirho: re_chirho, data_chirho: e_chirho.data_chirho });
                }
                i_chirho = i_chirho + 1;
            }
            assert(l_chirho@.take(l_chirho@.len() as int) =~= l_chirho@);
            Ok(out_events_chirho)
        },
    }
}

} // verus!
