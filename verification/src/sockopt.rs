//! Socket options (`setsockopt` / `getsockopt`) and the mapping from an
//! open file to the socket slot it stands for.

use vstd::prelude::*;
use crate::net_types::{EBADF_CHIRHO, EFAULT_CHIRHO, EINVAL_CHIRHO, ENOTSOCK_CHIRHO};
use crate::socket::SocketTableChirho;

verus! {

pub const SOL_SOCKET_CHIRHO: u64 = 1;
pub const IPPROTO_TCP_CHIRHO: u64 = 6;
pub const SO_REUSEADDR_CHIRHO: u64 = 2;
pub const SO_TYPE_CHIRHO: u64 = 3;
pub const SO_ERROR_CHIRHO: u64 = 4;
pub const SO_SNDBUF_CHIRHO: u64 = 7;
pub const SO_RCVBUF_CHIRHO: u64 = 8;
pub const SO_KEEPALIVE_CHIRHO: u64 = 9;
pub const TCP_NODELAY_OPT_CHIRHO: u64 = 1;

/// Number of option records, one per socket slot.
pub const MAX_SOCK_OPTS_CHIRHO: usize = 128;
/// Receive buffer size a socket starts with.
pub const DEFAULT_RCVBUF_CHIRHO: u32 = 87380;
/// Send buffer size a socket starts with.
pub const DEFAULT_SNDBUF_CHIRHO: u32 = 16384;

/// The options of one socket.
#[derive(Debug, Clone, Copy, PartialEq, Eq, Structural)]
pub struct SocketOptionsChirho {
    pub reuseaddr_chirho: bool,
    pub keepalive_chirho: bool,
    pub nodelay_chirho: bool,
    pub rcvbuf_size_chirho: u32,
    pub sndbuf_size_chirho: u32,
}

/// The option records of all socket slots.
pub struct SocketOptionsTableChirho {
    pub opts_chirho: Vec<SocketOptionsChirho>,
}

/// The options a socket starts with.
pub open spec fn default_options() -> SocketOptionsChirho {
    SocketOptionsChirho {
        reuseaddr_chirho: false,
        keepalive_chirho: false,
        nodelay_chirho: false,
        rcvbuf_size_chirho: DEFAULT_RCVBUF_CHIRHO,
        sndbuf_size_chirho: DEFAULT_SNDBUF_CHIRHO,
    }
}

/// The table has one record per slot.
pub open spec fn opts_wf(t: SocketOptionsTableChirho) -> bool {
    t.opts_chirho@.len() == MAX_SOCK_OPTS_CHIRHO
}

/// The options after setting option `name` of `level` to `v`: the flags
/// take `v != 0`, the buffer sizes take `v`; an unknown option changes
/// nothing.
pub open spec fn set_option(o: SocketOptionsChirho, level: u64, name: u64, v: u32) -> SocketOptionsChirho {
    if level == SOL_SOCKET_CHIRHO && name == SO_REUSEADDR_CHIRHO {
        SocketOptionsChirho { reuseaddr_chirho: v != 0, ..o }
    } else if level == SOL_SOCKET_CHIRHO && name == SO_KEEPALIVE_CHIRHO {
        SocketOptionsChirho { keepalive_chirho: v != 0, ..o }
    } else if level == SOL_SOCKET_CHIRHO && name == SO_RCVBUF_CHIRHO {
        SocketOptionsChirho { rcvbuf_size_chirho: v, ..o }
    } else if level == SOL_SOCKET_CHIRHO && name == SO_SNDBUF_CHIRHO {
        SocketOptionsChirho { sndbuf_size_chirho: v, ..o }
    } else if level == IPPROTO_TCP_CHIRHO && name == TCP_NODELAY_OPT_CHIRHO {
        SocketOptionsChirho { nodelay_chirho: v != 0, ..o }
    } else {
        o
    }
}

/// 1 for true, 0 for false.
pub open spec fn flag_value(b: bool) -> u32 {
    if b { 1 } else { 0 }
}

/// The value `getsockopt` reports for option `name` of `level`, where
/// `sock_type` is the type of the socket (`SO_TYPE`); 0 for what it does
/// not know and for `SO_ERROR`.
pub open spec fn get_option(o: SocketOptionsChirho, level: u64, name: u64, sock_type: u32) -> u32 {
    if level == SOL_SOCKET_CHIRHO && name == SO_REUSEADDR_CHIRHO {
        flag_value(o.reuseaddr_chirho)
    } else if level == SOL_SOCKET_CHIRHO && name == SO_KEEPALIVE_CHIRHO {
        flag_value(o.keepalive_chirho)
    } else if level == SOL_SOCKET_CHIRHO && name == SO_RCVBUF_CHIRHO {
        o.rcvbuf_size_chirho
    } else if level == SOL_SOCKET_CHIRHO && name == SO_SNDBUF_CHIRHO {
        o.sndbuf_size_chirho
    } else if level == SOL_SOCKET_CHIRHO && name == SO_TYPE_CHIRHO {
        sock_type
    } else if level == IPPROTO_TCP_CHIRHO && name == TCP_NODELAY_OPT_CHIRHO {
        flag_value(o.nodelay_chirho)
    } else {
        0
    }
}

/// The socket type `SO_TYPE` reports for slot `si`: the low four bits of
/// the socket's type, 0 for a free or unknown slot.
pub open spec fn slot_type(t: SocketTableChirho, si: int) -> u32 {
    if 0 <= si < t.slots_chirho@.len() && t.slots_chirho@[si] is Some {
        (t.slots_chirho@[si]->0.sock_type_chirho & 0xF) as u32
    } else {
        0
    }
}

impl SocketOptionsTableChirho {
    /// Every slot with the default options.
    pub fn new_chirho() -> (r: Self)
        ensures
            opts_wf(r),
            forall|i: int| 0 <= i < MAX_SOCK_OPTS_CHIRHO ==> r.opts_chirho@[i] == default_options(),
    {
        let mut opts_chirho: Vec<SocketOptionsChirho> = Vec::new();
        while opts_chirho.len() < MAX_SOCK_OPTS_CHIRHO
            invariant
                opts_chirho@.len() <= MAX_SOCK_OPTS_CHIRHO,
                forall|i: int| 0 <= i < opts_chirho@.len() ==> opts_chirho@[i] == default_options(),
            decreases MAX_SOCK_OPTS_CHIRHO - opts_chirho@.len(),
        {
            opts_chirho.push(SocketOptionsChirho {
                reuseaddr_chirho: false,
                keepalive_chirho: false,
                nodelay_chirho: false,
                rcvbuf_size_chirho: DEFAULT_RCVBUF_CHIRHO,
                sndbuf_size_chirho: DEFAULT_SNDBUF_CHIRHO,
            });
        }
        SocketOptionsTableChirho { opts_chirho }
    }
}

/// `setsockopt` on slot `si` with the value `v` read from the caller (0
/// when the caller gave fewer than four bytes or a null pointer):
/// `-EINVAL` for a slot out of the table, else the option changes as
/// `set_option` says and 0 is returned.
pub fn setsockopt_impl_chirho(t_chirho: &mut SocketOptionsTableChirho, si_chirho: usize, lv_chirho: u64, nm_chirho: u64,
    v_chirho: u32) -> (r: i64)
    requires
        opts_wf(*old(t_chirho)),
    ensures
        opts_wf(*final(t_chirho)),
        si_chirho >= MAX_SOCK_OPTS_CHIRHO ==> r == -EINVAL_CHIRHO && final(t_chirho).opts_chirho@ == old(t_chirho).opts_chirho@,
        si_chirho < MAX_SOCK_OPTS_CHIRHO ==> r == 0 && final(t_chirho).opts_chirho@ == old(t_chirho).opts_chirho@.update(
            si_chirho as int, set_option(old(t_chirho).opts_chirho@[si_chirho as int], lv_chirho, nm_chirho, v_chirho)),
{
    if si_chirho >= t_chirho.opts_chirho.len() {
        return -EINVAL_CHIRHO;
    }
    let mut o_chirho = t_chirho.opts_chirho[si_chirho];
    if lv_chirho == SOL_SOCKET_CHIRHO && nm_chirho == SO_REUSEADDR_CHIRHO {
        o_chirho.reuseaddr_chirho = v_chirho != 0;
    } else if lv_chirho == SOL_SOCKET_CHIRHO && nm_chirho == SO_KEEPALIVE_CHIRHO {
        o_chirho.keepalive_chirho = v_chirho != 0;
    } else if lv_chirho == SOL_SOCKET_CHIRHO && nm_chirho == SO_RCVBUF_CHIRHO {
        o_chirho.rcvbuf_size_chirho = v_chirho;
    } else if lv_chirho == SOL_SOCKET_CHIRHO && nm_chirho == SO_SNDBUF_CHIRHO {
        o_chirho.sndbuf_size_chirho = v_chirho;
    } else if lv_chirho == IPPROTO_TCP_CHIRHO && nm_chirho == TCP_NODELAY_OPT_CHIRHO {
        o_chirho.nodelay_chirho = v_chirho != 0;
    }
    t_chirho.opts_chirho.set(si_chirho, o_chirho);
    0
}

/// `getsockopt` on slot `si`: `-EINVAL` for a slot out of the table,
/// `-EFAULT` when the caller's value or length pointer is null, else the
/// option's value as `get_option` says (the caller copies it out).
pub fn getsockopt_impl_chirho(t_chirho: &SocketOptionsTableChirho, sockets_chirho: &SocketTableChirho, si_chirho: usize,
    lv_chirho: u64, nm_chirho: u64, ptrs_nonnull_chirho: bool) -> (r: Result<u32, i64>)
    requires
        opts_wf(*t_chirho),
    ensures
        si_chirho >= MAX_SOCK_OPTS_CHIRHO ==> (r matches Err(e) && e == -EINVAL_CHIRHO),
        si_chirho < MAX_SOCK_OPTS_CHIRHO && !ptrs_nonnull_chirho ==> (r matches Err(e) && e == -EFAULT_CHIRHO),
        si_chirho < MAX_SOCK_OPTS_CHIRHO && ptrs_nonnull_chirho ==> r == Ok::<u32, i64>(get_option(
            t_chirho.opts_chirho@[si_chirho as int], lv_chirho, nm_chirho, slot_type(*sockets_chirho, si_chirho as int))),
{
    if si_chirho >= t_chirho.opts_chirho.len() {
        return Err(-EINVAL_CHIRHO);
    }
    if !ptrs_nonnull_chirho {
        return Err(-EFAULT_CHIRHO);
    }
    let o_chirho = t_chirho.opts_chirho[si_chirho];
    let ty_chirho: u32 = if si_chirho < sockets_chirho.slots_chirho.len() {
        match &sockets_chirho.slots_chirho[si_chirho] {
            Some(s_chirho) => (s_chirho.sock_type_chirho & 0xF) as u32,
            None => 0,
        }
    } else {
        0
    };
    let v_chirho: u32 = if lv_chirho == SOL_SOCKET_CHIRHO && nm_chirho == SO_REUSEADDR_CHIRHO {
        if o_chirho.reuseaddr_chirho { 1 } else { 0 }
    } else if lv_chirho == SOL_SOCKET_CHIRHO && nm_chirho == SO_KEEPALIVE_CHIRHO {
        if o_chirho.keepalive_chirho { 1 } else { 0 }
    } else if lv_chirho == SOL_SOCKET_CHIRHO && nm_chirho == SO_RCVBUF_CHIRHO {
        o_chirho.rcvbuf_size_chirho
    } else if lv_chirho == SOL_SOCKET_CHIRHO && nm_chirho == SO_SNDBUF_CHIRHO {
        o_chirho.sndbuf_size_chirho
    } else if lv_chirho == SOL_SOCKET_CHIRHO && nm_chirho == SO_TYPE_CHIRHO {
        ty_chirho
    } else if lv_chirho == IPPROTO_TCP_CHIRHO && nm_chirho == TCP_NODELAY_OPT_CHIRHO {
        if o_chirho.nodelay_chirho { 1 } else { 0 }
    } else {
        0
    };
    Ok(v_chirho)
}

/// Reading an option gives back what setting it wrote: the value itself
/// for the buffer sizes, and `v != 0` as 1 or 0 for the flags.
pub proof fn lemma_set_then_get(o: SocketOptionsChirho, level: u64, name: u64, v: u32, ty: u32)
    ensures
        level == SOL_SOCKET_CHIRHO && (name == SO_RCVBUF_CHIRHO || name == SO_SNDBUF_CHIRHO)
            ==> get_option(set_option(o, level, name, v), level, name, ty) == v,
        (level == SOL_SOCKET_CHIRHO && (name == SO_REUSEADDR_CHIRHO || name == SO_KEEPALIVE_CHIRHO))
            || (level == IPPROTO_TCP_CHIRHO && name == TCP_NODELAY_OPT_CHIRHO)
            ==> get_option(set_option(o, level, name, v), level, name, ty) == flag_value(v != 0),
{
}

/// Setting one option leaves the value of every other option as it was.
pub proof fn lemma_set_other_unchanged(o: SocketOptionsChirho, level: u64, name: u64, v: u32, level2: u64, name2: u64, ty: u32)
    requires
        level != level2 || name != name2,
    ensures
        get_option(set_option(o, level, name, v), level2, name2, ty) == get_option(o, level2, name2, ty),
{
}

/// File type bits of an inode mode.
pub const S_IFMT_CHIRHO: u32 = 0o170000;
/// File type of a socket.
pub const S_IFSOCK_CHIRHO: u32 = 0o140000;

/// What the descriptor table holds for an open file: the mode and inode
/// number of its inode. A socket's inode number is its slot.
#[derive(Debug, Clone, Copy)]
pub struct FdInodeChirho {
    pub mode_chirho: u32,
    pub ino_chirho: u64,
}

/// The socket slot of the file a descriptor names (`None`: no such open
/// file): `-EBADF` without a file, `-ENOTSOCK` unless it is a socket.
pub fn socket_idx_from_fd_pub_chirho(file_chirho: Option<FdInodeChirho>) -> (r: Result<usize, i64>)
    ensures
        file_chirho is None ==> (r matches Err(e) && e == -EBADF_CHIRHO),
        file_chirho matches Some(f) ==> if f.mode_chirho & S_IFMT_CHIRHO == S_IFSOCK_CHIRHO {
            r == Ok::<usize, i64>(f.ino_chirho as usize)
        } else {
            (r matches Err(e) && e == -ENOTSOCK_CHIRHO)
        },
{
    match file_chirho {
        None => Err(-EBADF_CHIRHO),
        Some(f_chirho) => {
            if f_chirho.mode_chirho & S_IFMT_CHIRHO == S_IFSOCK_CHIRHO {
                Ok(f_chirho.ino_chirho as usize)
            } else {
                Err(-ENOTSOCK_CHIRHO)
            }
        },
    }
}

/// Whether the file a descriptor names is a socket.
pub fn is_socket_fd_chirho(file_chirho: Option<FdInodeChirho>) -> (r: bool)
    ensures
        r <==> (file_chirho matches Some(f) && f.mode_chirho & S_IFMT_CHIRHO == S_IFSOCK_CHIRHO),
{
    socket_idx_from_fd_pub_chirho(file_chirho).is_ok()
}

/// `setsockopt(2)`: the descriptor's error when it names no socket, else
/// `setsockopt_impl_chirho` on its slot.
pub fn sys_setsockopt_chirho(t_chirho: &mut SocketOptionsTableChirho, file_chirho: Option<FdInodeChirho>, lv_chirho: u64,
    nm_chirho: u64, v_chirho: u32) -> (r: i64)
    requires
        opts_wf(*old(t_chirho)),
    ensures
        opts_wf(*final(t_chirho)),
        ({
            let idx = match file_chirho {
                Some(f) => if f.mode_chirho & S_IFMT_CHIRHO == S_IFSOCK_CHIRHO { Some(f.ino_chirho as usize) } else { None },
                None => None,
            };
            match idx {
                None => final(t_chirho).opts_chirho@ == old(t_chirho).opts_chirho@
                    && r == (if file_chirho is None { -EBADF_CHIRHO } else { -ENOTSOCK_CHIRHO }),
                Some(si) => if si >= MAX_SOCK_OPTS_CHIRHO {
                    r == -EINVAL_CHIRHO && final(t_chirho).opts_chirho@ == old(t_chirho).opts_chirho@
                } else {
                    r == 0 && final(t_chirho).opts_chirho@ == old(t_chirho).opts_chirho@.update(
                        si as int, set_option(old(t_chirho).opts_chirho@[si as int], lv_chirho, nm_chirho, v_chirho))
                },
            }
        }),
{
    match socket_idx_from_fd_pub_chirho(file_chirho) {
        Err(e_chirho) => e_chirho,
        Ok(si_chirho) => setsockopt_impl_chirho(t_chirho, si_chirho, lv_chirho, nm_chirho, v_chirho),
    }
}

/// `getsockopt(2)`: the descriptor's error when it names no socket, else
/// `getsockopt_impl_chirho` on its slot.
pub fn sys_getsockopt_chirho(t_chirho: &SocketOptionsTableChirho, sockets_chirho: &SocketTableChirho,
    file_chirho: Option<FdInodeChirho>, lv_chirho: u64, nm_chirho: u64, ptrs_nonnull_chirho: bool) -> (r: Result<u32, i64>)
    requires
        opts_wf(*t_chirho),
    ensures
        file_chirho is None ==> (r matches Err(e) && e == -EBADF_CHIRHO),
        file_chirho matches Some(f) ==> if f.mode_chirho & S_IFMT_CHIRHO != S_IFSOCK_CHIRHO {
            (r matches Err(e) && e == -ENOTSOCK_CHIRHO)
        } else {
            let si = f.ino_chirho as usize;
            if si >= MAX_SOCK_OPTS_CHIRHO {
                (r matches Err(e) && e == -EINVAL_CHIRHO)
            } else if !ptrs_nonnull_chirho {
                (r matches Err(e) && e == -EFAULT_CHIRHO)
            } else {
                r == Ok::<u32, i64>(get_option(t_chirho.opts_chirho@[si as int], lv_chirho, nm_chirho,
                    slot_type(*sockets_chirho, si as int)))
            }
        },
{
    match socket_idx_from_fd_pub_chirho(file_chirho) {
        Err(e_chirho) => Err(e_chirho),
        Ok(si_chirho) => getsockopt_impl_chirho(t_chirho, sockets_chirho, si_chirho, lv_chirho, nm_chirho,
            ptrs_nonnull_chirho),
    }
}

} // verus!
