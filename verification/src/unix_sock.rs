//! AF_UNIX sockets: a fixed table of sockets named by paths, connected by
//! slot index, that pass whole messages.

use vstd::prelude::*;
use std::collections::VecDeque;
use crate::net_types::{EADDRINUSE_CHIRHO, EBADF_CHIRHO, ECONNREFUSED_CHIRHO, ENOTCONN_CHIRHO};

verus! {

/// Number of AF_UNIX socket slots.
pub const MAX_UNIX_SOCKETS_CHIRHO: usize = 64;

/// One AF_UNIX socket.
pub struct UnixSocketChirho {
    /// The bound path, if any.
    pub path_chirho: Option<String>,
    /// Messages received and not yet read, oldest first.
    pub recv_buf_chirho: VecDeque<Vec<u8>>,
    /// The slot of the connected peer.
    pub peer_idx_chirho: Option<usize>,
    pub sock_type_chirho: u32,
    /// Slots of clients that connected, oldest first.
    pub backlog_chirho: VecDeque<usize>,
    pub listening_chirho: bool,
}

/// The table of AF_UNIX sockets.
pub struct UnixSocketTableChirho {
    pub slots_chirho: Vec<Option<UnixSocketChirho>>,
}

/// The table has its fixed number of slots and every peer index names one.
pub open spec fn unix_wf(t: UnixSocketTableChirho) -> bool {
    &&& t.slots_chirho@.len() == MAX_UNIX_SOCKETS_CHIRHO
    &&& forall|i: int| 0 <= i < MAX_UNIX_SOCKETS_CHIRHO && (#[trigger] t.slots_chirho@[i]) is Some
        ==> peer_ok(t.slots_chirho@[i]->0.peer_idx_chirho)
}

/// A peer index, when there is one, is a slot of the table.
pub open spec fn peer_ok(p: Option<usize>) -> bool {
    p matches Some(j) ==> j < MAX_UNIX_SOCKETS_CHIRHO
}

/// The slot holds a socket bound to `path`.
pub open spec fn bound_to(slot: Option<UnixSocketChirho>, path: Seq<char>) -> bool {
    slot matches Some(s) && (s.path_chirho matches Some(p) && p@ == path)
}

/// The slot holds a listening socket bound to `path`.
pub open spec fn listening_on(slot: Option<UnixSocketChirho>, path: Seq<char>) -> bool {
    bound_to(slot, path) && slot->0.listening_chirho
}

/// `l` is the first slot listening on `path`.
pub open spec fn first_listening(s: Seq<Option<UnixSocketChirho>>, path: Seq<char>, l: int) -> bool {
    &&& 0 <= l < s.len()
    &&& listening_on(s[l], path)
    &&& forall|j: int| 0 <= j < l ==> !listening_on(#[trigger] s[j], path)
}

/// No slot listens on `path`.
pub open spec fn no_listener_on(s: Seq<Option<UnixSocketChirho>>, path: Seq<char>) -> bool {
    forall|j: int| 0 <= j < s.len() ==> !listening_on(#[trigger] s[j], path)
}

/// A socket as `socket(AF_UNIX, ty)` makes it.
pub open spec fn fresh_unix(s: UnixSocketChirho, ty: u32) -> bool {
    &&& s.path_chirho is None
    &&& s.recv_buf_chirho@.len() == 0
    &&& s.peer_idx_chirho is None
    &&& s.sock_type_chirho == ty
    &&& s.backlog_chirho@.len() == 0
    &&& !s.listening_chirho
}

/// `i` is the first free slot.
pub open spec fn first_free_unix(s: Seq<Option<UnixSocketChirho>>, i: int) -> bool {
    &&& 0 <= i < s.len()
    &&& s[i] is None
    &&& forall|j: int| 0 <= j < i ==> s[j] is Some
}

/// `new` is `old` with only slot `i` changed, to a socket.
pub open spec fn only_unix_slot(old: Seq<Option<UnixSocketChirho>>, new: Seq<Option<UnixSocketChirho>>, i: int) -> bool {
    &&& new.len() == old.len()
    &&& new[i] is Some
    &&& forall|j: int| 0 <= j < old.len() && j != i ==> new[j] == old[j]
}

impl UnixSocketTableChirho {
    /// A table with every slot free.
    pub fn new_chirho() -> (r: Self)
        ensures
            unix_wf(r),
            forall|i: int| 0 <= i < MAX_UNIX_SOCKETS_CHIRHO ==> r.slots_chirho@[i] is None,
    {
        let mut slots_chirho: Vec<Option<UnixSocketChirho>> = Vec::new();
        while slots_chirho.len() < MAX_UNIX_SOCKETS_CHIRHO
            invariant
                slots_chirho@.len() <= MAX_UNIX_SOCKETS_CHIRHO,
                forall|i: int| 0 <= i < slots_chirho@.len() ==> slots_chirho@[i] is None,
            decreases MAX_UNIX_SOCKETS_CHIRHO - slots_chirho@.len(),
        {
            slots_chirho.push(None);
        }
        UnixSocketTableChirho { slots_chirho }
    }
}

/// Move the socket out of slot `i`, leaving it empty.
fn take_unix_slot(t: &mut UnixSocketTableChirho, i: usize) -> (r: Option<UnixSocketChirho>)
    requires
        i < old(t).slots_chirho@.len(),
    ensures
        r == old(t).slots_chirho@[i as int],
        final(t).slots_chirho@ == old(t).slots_chirho@.update(i as int, None),
{
    let mut tmp_chirho: Option<UnixSocketChirho> = None;
    std::mem::swap(&mut tmp_chirho, &mut t.slots_chirho[i]);
    tmp_chirho
}

/// `socket(AF_UNIX, ty)`: the first free slot gets a fresh socket and its
/// index is returned; `None` when every slot is taken.
pub fn unix_socket_create_chirho(t_chirho: &mut UnixSocketTableChirho, st_chirho: u32) -> (r: Option<usize>)
    requires
        unix_wf(*old(t_chirho)),
    ensures
        unix_wf(*final(t_chirho)),
        r is None ==> {
            &&& forall|j: int| 0 <= j < MAX_UNIX_SOCKETS_CHIRHO ==> old(t_chirho).slots_chirho@[j] is Some
            &&& final(t_chirho).slots_chirho@ == old(t_chirho).slots_chirho@
        },
        r matches Some(i) ==> {
            &&& first_free_unix(old(t_chirho).slots_chirho@, i as int)
            &&& only_unix_slot(old(t_chirho).slots_chirho@, final(t_chirho).slots_chirho@, i as int)
            &&& fresh_unix(final(t_chirho).slots_chirho@[i as int]->0, st_chirho)
        },
{
    let mut i_chirho: usize = 0;
    while i_chirho < t_chirho.slots_chirho.len()
        invariant
            t_chirho.slots_chirho@ == old(t_chirho).slots_chirho@,
            unix_wf(*t_chirho),
            i_chirho <= MAX_UNIX_SOCKETS_CHIRHO,
            forall|j: int| 0 <= j < i_chirho ==> t_chirho.slots_chirho@[j] is Some,
        decreases MAX_UNIX_SOCKETS_CHIRHO - i_chirho,
    {
        if t_chirho.slots_chirho[i_chirho].is_none() {
            let s_chirho = UnixSocketChirho {
                path_chirho: None,
                recv_buf_chirho: VecDeque::new(),
                peer_idx_chirho: None,
                sock_type_chirho: st_chirho,
                backlog_chirho: VecDeque::new(),
                listening_chirho: false,
            };
            t_chirho.slots_chirho.set(i_chirho, Some(s_chirho));
            return Some(i_chirho);
        }
        i_chirho = i_chirho + 1;
    }
    None
}

/// `b` is `a` bound to `path`, nothing else changed.
pub open spec fn with_path(a: UnixSocketChirho, b: UnixSocketChirho, path: Seq<char>) -> bool {
    &&& b.path_chirho matches Some(q) && q@ == path
    &&& b.recv_buf_chirho == a.recv_buf_chirho
    &&& b.peer_idx_chirho == a.peer_idx_chirho
    &&& b.sock_type_chirho == a.sock_type_chirho
    &&& b.backlog_chirho == a.backlog_chirho
    &&& b.listening_chirho == a.listening_chirho
}

/// Whether some slot is bound to `p`.
fn path_taken_chirho(t_chirho: &UnixSocketTableChirho, p_chirho: &String, listening_only_chirho: bool) -> (r: Option<usize>)
    ensures
        !listening_only_chirho ==> (r is None <==> forall|j: int| 0 <= j < t_chirho.slots_chirho@.len()
            ==> !bound_to(#[trigger] t_chirho.slots_chirho@[j], p_chirho@)),
        listening_only_chirho ==> (r is None ==> no_listener_on(t_chirho.slots_chirho@, p_chirho@)),
        listening_only_chirho ==> (r matches Some(l) ==> first_listening(t_chirho.slots_chirho@, p_chirho@, l as int)),
        r matches Some(l) ==> l < t_chirho.slots_chirho@.len() && bound_to(t_chirho.slots_chirho@[l as int], p_chirho@),
{
    let mut i_chirho: usize = 0;
    while i_chirho < t_chirho.slots_chirho.len()
        invariant
            i_chirho <= t_chirho.slots_chirho@.len(),
            !listening_only_chirho ==> forall|j: int| 0 <= j < i_chirho ==> !bound_to(#[trigger] t_chirho.slots_chirho@[j], p_chirho@),
            listening_only_chirho ==> forall|j: int| 0 <= j < i_chirho ==> !listening_on(#[trigger] t_chirho.slots_chirho@[j], p_chirho@),
        decreases t_chirho.slots_chirho@.len() - i_chirho,
    {
        if let Some(sk_chirho) = &t_chirho.slots_chirho[i_chirho] {
            if let Some(pp_chirho) = &sk_chirho.path_chirho {
                if *pp_chirho == *p_chirho && (!listening_only_chirho || sk_chirho.listening_chirho) {
                    return Some(i_chirho);
                }
            }
        }
        i_chirho = i_chirho + 1;
    }
    None
}

/// `bind(path)` on slot `idx`: `-EADDRINUSE` when some socket is bound to
/// `path` already; else the socket in `idx` takes the path; `-EBADF` when
/// the slot is free.
pub fn unix_socket_bind_chirho(t_chirho: &mut UnixSocketTableChirho, idx_chirho: usize, p_chirho: &str) -> (r: i64)
    requires
        unix_wf(*old(t_chirho)),
        idx_chirho < MAX_UNIX_SOCKETS_CHIRHO,
    ensures
        unix_wf(*final(t_chirho)),
        (exists|j: int| 0 <= j < MAX_UNIX_SOCKETS_CHIRHO && bound_to(#[trigger] old(t_chirho).slots_chirho@[j], p_chirho@)) ==> {
            &&& r == -EADDRINUSE_CHIRHO
            &&& final(t_chirho).slots_chirho@ == old(t_chirho).slots_chirho@
        },
        !(exists|j: int| 0 <= j < MAX_UNIX_SOCKETS_CHIRHO && bound_to(#[trigger] old(t_chirho).slots_chirho@[j], p_chirho@)) ==> {
            &&& old(t_chirho).slots_chirho@[idx_chirho as int] is None ==> {
                &&& r == -EBADF_CHIRHO
                &&& final(t_chirho).slots_chirho@ == old(t_chirho).slots_chirho@
            }
            &&& old(t_chirho).slots_chirho@[idx_chirho as int] is Some ==> {
                &&& r == 0
                &&& only_unix_slot(old(t_chirho).slots_chirho@, final(t_chirho).slots_chirho@, idx_chirho as int)
                &&& with_path(old(t_chirho).slots_chirho@[idx_chirho as int]->0,
                    final(t_chirho).slots_chirho@[idx_chirho as int]->0, p_chirho@)
            }
        },
{
    let path_chirho = p_chirho.to_owned();
    if let Some(j_chirho) = path_taken_chirho(t_chirho, &path_chirho, false) {
        assert(bound_to(t_chirho.slots_chirho@[j_chirho as int], p_chirho@));
        return -EADDRINUSE_CHIRHO;
    }
    let ghost s0 = t_chirho.slots_chirho@;
    match take_unix_slot(t_chirho, idx_chirho) {
        None => {
            assert(t_chirho.slots_chirho@ =~= s0);
            -EBADF_CHIRHO
        },
        Some(mut sk_chirho) => {
            sk_chirho.path_chirho = Some(path_chirho);
            t_chirho.slots_chirho.set(idx_chirho, Some(sk_chirho));
            0
        },
    }
}

/// `connect(path)` from slot `ci`: `-ECONNREFUSED` unless a socket listens
/// on `path`; else the first such socket queues `ci` on its backlog, and the
/// socket in `ci`, if any, takes it as its peer.
pub fn unix_socket_connect_chirho(t_chirho: &mut UnixSocketTableChirho, ci_chirho: usize, p_chirho: &str) -> (r: i64)
    requires
        unix_wf(*old(t_chirho)),
        ci_chirho < MAX_UNIX_SOCKETS_CHIRHO || no_listener_on(old(t_chirho).slots_chirho@, p_chirho@),
    ensures
        unix_wf(*final(t_chirho)),
        no_listener_on(old(t_chirho).slots_chirho@, p_chirho@) ==> {
            &&& r == -ECONNREFUSED_CHIRHO
            &&& final(t_chirho).slots_chirho@ == old(t_chirho).slots_chirho@
        },
        forall|l: int| first_listening(old(t_chirho).slots_chirho@, p_chirho@, l) ==> {
            let o = old(t_chirho).slots_chirho@;
            let n = final(t_chirho).slots_chirho@;
            &&& r == 0
            &&& n[l] is Some
            &&& n[l]->0.backlog_chirho@ == o[l]->0.backlog_chirho@.push(ci_chirho)
            &&& (l != ci_chirho ==> n[l]->0.peer_idx_chirho == o[l]->0.peer_idx_chirho)
            &&& (o[ci_chirho as int] is Some ==> (n[ci_chirho as int] is Some && n[ci_chirho as int]->0.peer_idx_chirho == Some(l as usize)))
            &&& (o[ci_chirho as int] is None ==> n[ci_chirho as int] is None)
            &&& forall|j: int| 0 <= j < o.len() ==> (#[trigger] n[j]) is Some ==> {
                &&& n[j]->0.path_chirho == o[j]->0.path_chirho
                &&& n[j]->0.recv_buf_chirho == o[j]->0.recv_buf_chirho
                &&& n[j]->0.listening_chirho == o[j]->0.listening_chirho
                &&& n[j]->0.sock_type_chirho == o[j]->0.sock_type_chirho
            }
            &&& forall|j: int| 0 <= j < o.len() && j != l ==> (#[trigger] n[j]) is Some ==> n[j]->0.backlog_chirho == o[j]->0.backlog_chirho
            &&& forall|j: int| 0 <= j < o.len() && j != l && j != ci_chirho ==> #[trigger] n[j] == o[j]
        },
{
    let path_chirho = p_chirho.to_owned();
    let sv_chirho = match path_taken_chirho(t_chirho, &path_chirho, true) {
        None => return -ECONNREFUSED_CHIRHO,
        Some(v_chirho) => v_chirho,
    };
    let ghost s0 = t_chirho.slots_chirho@;
    proof {
        assert forall|l: int| first_listening(s0, p_chirho@, l) implies l == sv_chirho by {
            if l < sv_chirho {
                assert(!listening_on(s0[l], p_chirho@));
            } else if l > sv_chirho {
                assert(!listening_on(s0[sv_chirho as int], p_chirho@));
            }
        }
    }
    let mut srv_chirho = take_unix_slot(t_chirho, sv_chirho).unwrap();
    srv_chirho.backlog_chirho.push_back(ci_chirho);
    t_chirho.slots_chirho.set(sv_chirho, Some(srv_chirho));
    let ghost s1 = t_chirho.slots_chirho@;
    match take_unix_slot(t_chirho, ci_chirho) {
        None => {
            assert(t_chirho.slots_chirho@ =~= s1);
        },
        Some(mut c_chirho) => {
            c_chirho.peer_idx_chirho = Some(sv_chirho);
            t_chirho.slots_chirho.set(ci_chirho, Some(c_chirho));
        },
    }
    0
}

/// The slot holds a socket with a peer.
pub open spec fn peer_of(s: Seq<Option<UnixSocketChirho>>, idx: int) -> Option<usize> {
    s[idx]->0.peer_idx_chirho
}

/// What `send` on slot `idx` does to the slots `o` (giving `n`), with
/// result `r`.
pub open spec fn unix_send_outcome(o: Seq<Option<UnixSocketChirho>>, n: Seq<Option<UnixSocketChirho>>, idx: usize,
    d: Seq<u8>, r: i64) -> bool {
    if idx >= MAX_UNIX_SOCKETS_CHIRHO || o[idx as int] is None {
        r == -EBADF_CHIRHO && n == o
    } else if peer_of(o, idx as int) is None {
        r == -ENOTCONN_CHIRHO && n == o
    } else {
        let p = peer_of(o, idx as int)->0 as int;
        if o[p] is None {
            r == -EBADF_CHIRHO && n == o
        } else {
            &&& r == d.len() as i64
            &&& only_unix_slot(o, n, p)
            &&& n[p]->0.recv_buf_chirho@.len() == o[p]->0.recv_buf_chirho@.len() + 1
            &&& n[p]->0.recv_buf_chirho@.drop_last() == o[p]->0.recv_buf_chirho@
            &&& n[p]->0.recv_buf_chirho@.last()@ == d
            &&& n[p]->0.path_chirho == o[p]->0.path_chirho
            &&& n[p]->0.peer_idx_chirho == o[p]->0.peer_idx_chirho
            &&& n[p]->0.backlog_chirho == o[p]->0.backlog_chirho
            &&& n[p]->0.sock_type_chirho == o[p]->0.sock_type_chirho
            &&& n[p]->0.listening_chirho == o[p]->0.listening_chirho
        }
    }
}

/// What `recv` on slot `idx` does to the slots `o` (giving `n`), with
/// result `r`.
pub open spec fn unix_recv_outcome(o: Seq<Option<UnixSocketChirho>>, n: Seq<Option<UnixSocketChirho>>, idx: usize,
    r: Option<Vec<u8>>) -> bool {
    if idx >= MAX_UNIX_SOCKETS_CHIRHO || o[idx as int] is None
        || o[idx as int]->0.recv_buf_chirho@.len() == 0 {
        r is None && n == o
    } else {
        let i = idx as int;
        &&& r == Some(o[i]->0.recv_buf_chirho@[0])
        &&& only_unix_slot(o, n, i)
        &&& n[i]->0.recv_buf_chirho@ == o[i]->0.recv_buf_chirho@.drop_first()
        &&& n[i]->0.path_chirho == o[i]->0.path_chirho
        &&& n[i]->0.peer_idx_chirho == o[i]->0.peer_idx_chirho
        &&& n[i]->0.backlog_chirho == o[i]->0.backlog_chirho
        &&& n[i]->0.sock_type_chirho == o[i]->0.sock_type_chirho
        &&& n[i]->0.listening_chirho == o[i]->0.listening_chirho
    }
}

/// `send(data)` on slot `idx`: `-EBADF` when the slot is out of the table
/// or free, `-ENOTCONN` without a peer, `-EBADF` when the peer's slot is
/// free; else the data is queued as one message at the peer and its
/// length returned.
pub fn unix_socket_send_chirho(t_chirho: &mut UnixSocketTableChirho, idx_chirho: usize, d_chirho: &[u8]) -> (r: i64)
    requires
        unix_wf(*old(t_chirho)),
    ensures
        unix_wf(*final(t_chirho)),
        unix_send_outcome(old(t_chirho).slots_chirho@, final(t_chirho).slots_chirho@, idx_chirho, d_chirho@, r),
{
    if idx_chirho >= t_chirho.slots_chirho.len() {
        return -EBADF_CHIRHO;
    }
    let pi_chirho = match &t_chirho.slots_chirho[idx_chirho] {
        None => return -EBADF_CHIRHO,
        Some(sk_chirho) => match sk_chirho.peer_idx_chirho {
            None => return -ENOTCONN_CHIRHO,
            Some(p_chirho) => p_chirho,
        },
    };
    let ghost s0 = t_chirho.slots_chirho@;
    match take_unix_slot(t_chirho, pi_chirho) {
        None => {
            assert(t_chirho.slots_chirho@ =~= s0);
            -EBADF_CHIRHO
        },
        Some(mut peer_chirho) => {
            let mut msg_chirho: Vec<u8> = Vec::new();
            crate::bytes::push_all_chirho(&mut msg_chirho, d_chirho);
            let ghost b0 = peer_chirho.recv_buf_chirho@;
            peer_chirho.recv_buf_chirho.push_back(msg_chirho);
            assert(peer_chirho.recv_buf_chirho@.drop_last() =~= b0);
            t_chirho.slots_chirho.set(pi_chirho, Some(peer_chirho));
            d_chirho.len() as i64
        },
    }
}

/// `recv` on slot `idx`: the oldest queued message, which leaves the
/// queue; `None` when the slot is out of the table, free or has nothing
/// queued.
pub fn unix_socket_recv_chirho(t_chirho: &mut UnixSocketTableChirho, idx_chirho: usize) -> (r: Option<Vec<u8>>)
    requires
        unix_wf(*old(t_chirho)),
    ensures
        unix_wf(*final(t_chirho)),
        unix_recv_outcome(old(t_chirho).slots_chirho@, final(t_chirho).slots_chirho@, idx_chirho, r),
{
    if idx_chirho >= t_chirho.slots_chirho.len() {
        return None;
    }
    let ghost s0 = t_chirho.slots_chirho@;
    match take_unix_slot(t_chirho, idx_chirho) {
        None => {
            assert(t_chirho.slots_chirho@ =~= s0);
            None
        },
        Some(mut sk_chirho) => {
            if sk_chirho.recv_buf_chirho.len() == 0 {
                t_chirho.slots_chirho.set(idx_chirho, Some(sk_chirho));
                assert(t_chirho.slots_chirho@ =~= s0);
                return None;
            }
            let m_chirho = sk_chirho.recv_buf_chirho.pop_front();
            t_chirho.slots_chirho.set(idx_chirho, Some(sk_chirho));
            m_chirho
        },
    }
}

/// A message sent on a connected socket is what its peer's next `recv`
/// returns when nothing was queued there before.
pub proof fn lemma_unix_send_then_recv(o: Seq<Option<UnixSocketChirho>>, m: Seq<Option<UnixSocketChirho>>,
    f: Seq<Option<UnixSocketChirho>>, idx: usize, p: usize, d: Seq<u8>, r1: i64, r2: Option<Vec<u8>>)
    requires
        o.len() == MAX_UNIX_SOCKETS_CHIRHO,
        idx < MAX_UNIX_SOCKETS_CHIRHO,
        p < MAX_UNIX_SOCKETS_CHIRHO,
        o[idx as int] is Some,
        peer_of(o, idx as int) == Some(p),
        o[p as int] is Some,
        o[p as int]->0.recv_buf_chirho@.len() == 0,
        unix_send_outcome(o, m, idx, d, r1),
        unix_recv_outcome(m, f, p, r2),
    ensures
        r1 == d.len() as i64,
        r2 matches Some(v) && v@ == d,
{
    assert(m[p as int] is Some);
    assert(m[p as int]->0.recv_buf_chirho@.len() == 1);
    assert(m[p as int]->0.recv_buf_chirho@[0] == m[p as int]->0.recv_buf_chirho@.last());
}

} // verus!
