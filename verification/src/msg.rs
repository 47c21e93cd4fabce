//! `sendmsg` / `recvmsg`: the message header, the I/O vectors, and the
//! plans by which data is gathered from and scattered to them. The copies
//! to and from user memory are the caller's; these functions say which
//! bytes go where.

use vstd::prelude::*;
use crate::net_types::{EFAULT_CHIRHO, EINVAL_CHIRHO, SOCKET_SEND_MAX_CHIRHO};
use crate::socket::{recvfrom_outcome, sendto_outcome, sys_recvfrom_chirho, sys_sendto_chirho, table_wf, RecvStepChirho,
    SocketTableChirho};

verus! {

/// Most I/O vectors one message may carry.
pub const MAX_MSG_IOV_CHIRHO: usize = 64;

/// One I/O vector: a user buffer and its length.
#[derive(Debug, Clone, Copy)]
pub struct IoVecChirho {
    pub iov_base_chirho: u64,
    pub iov_len_chirho: u64,
}

/// The `struct msghdr` of `sendmsg(2)` / `recvmsg(2)`.
#[derive(Debug, Clone, Copy)]
pub struct MsgHdrChirho {
    pub msg_name_chirho: u64,
    pub msg_namelen_chirho: u32,
    pub msg_name_pad_chirho: u32,
    pub msg_iov_chirho: u64,
    pub msg_iovlen_chirho: i32,
    pub msg_iov_pad_chirho: i32,
    pub msg_control_chirho: u64,
    pub msg_controllen_chirho: u32,
    pub msg_control_pad_chirho: u32,
    pub msg_flags_chirho: i32,
    pub msg_flags_pad_chirho: i32,
}

/// One copy between user memory and a message: `len` bytes at user
/// address `base`, at offset `offset` of the message.
#[derive(Debug, Clone, Copy)]
pub struct IoChunkChirho {
    pub base_chirho: u64,
    pub offset_chirho: usize,
    pub len_chirho: usize,
}

/// The number of I/O vectors to read for a message that declares `n` of
/// them at `ptr`: none for `n == 0`; `-EINVAL` for more than the limit;
/// `-EFAULT` for a null pointer.
pub fn iovec_count_chirho(ptr_chirho: u64, n_chirho: usize) -> (r: Result<usize, i64>)
    ensures
        n_chirho == 0 ==> r == Ok::<usize, i64>(0),
        n_chirho > MAX_MSG_IOV_CHIRHO ==> (r matches Err(e) && e == -EINVAL_CHIRHO),
        0 < n_chirho <= MAX_MSG_IOV_CHIRHO && ptr_chirho == 0 ==> (r matches Err(e) && e == -EFAULT_CHIRHO),
        0 < n_chirho <= MAX_MSG_IOV_CHIRHO && ptr_chirho != 0 ==> r == Ok::<usize, i64>(n_chirho),
{
    if n_chirho == 0 {
        Ok(0)
    } else if n_chirho > MAX_MSG_IOV_CHIRHO {
        Err(-EINVAL_CHIRHO)
    } else if ptr_chirho == 0 {
        Err(-EFAULT_CHIRHO)
    } else {
        Ok(n_chirho)
    }
}

/// The smaller of two integers.
pub open spec fn min_int(a: int, b: int) -> int {
    if a < b { a } else { b }
}

/// The total length of a message's vectors, capped at the send limit
/// after each vector.
pub open spec fn total_len_spec(l: Seq<IoVecChirho>) -> int
    decreases l.len(),
{
    if l.len() == 0 {
        0
    } else {
        min_int(total_len_spec(l.drop_last()) + (l.last().iov_len_chirho as usize), SOCKET_SEND_MAX_CHIRHO as int)
    }
}

/// The total of the chunks' lengths.
pub open spec fn chunks_total(c: Seq<IoChunkChirho>) -> int
    decreases c.len(),
{
    if c.len() == 0 { 0 } else { chunks_total(c.drop_last()) + c.last().len_chirho }
}

/// The chunks `sendmsg` gathers: each non-empty vector with a non-null
/// base, in order, cut so that the message stays within the send limit.
pub open spec fn gather_plan(l: Seq<IoVecChirho>) -> Seq<IoChunkChirho>
    decreases l.len(),
{
    if l.len() == 0 {
        Seq::empty()
    } else {
        let prev = gather_plan(l.drop_last());
        let e = l.last();
        let room = SOCKET_SEND_MAX_CHIRHO - chunks_total(prev);
        if e.iov_base_chirho == 0 || e.iov_len_chirho == 0 || room <= 0 {
            prev
        } else {
            prev.push(IoChunkChirho {
                base_chirho: e.iov_base_chirho,
                offset_chirho: chunks_total(prev) as usize,
                len_chirho: min_int(e.iov_len_chirho as usize as int, room) as usize,
            })
        }
    }
}

/// The chunks `recvmsg` scatters `n` received bytes to: each non-empty
/// vector with a non-null base, in order, until the bytes run out.
pub open spec fn scatter_plan(l: Seq<IoVecChirho>, n: int) -> Seq<IoChunkChirho>
    decreases l.len(),
{
    if l.len() == 0 {
        Seq::empty()
    } else {
        let prev = scatter_plan(l.drop_last(), n);
        let e = l.last();
        let done = chunks_total(prev);
        if done >= n || e.iov_base_chirho == 0 || e.iov_len_chirho == 0 {
            prev
        } else {
            prev.push(IoChunkChirho {
                base_chirho: e.iov_base_chirho,
                offset_chirho: done as usize,
                len_chirho: min_int(e.iov_len_chirho as usize as int, n - done) as usize,
            })
        }
    }
}

/// The capacity of a message's vectors, as `total_len_spec` says.
pub fn total_iovec_len_chirho(iovs_chirho: &[IoVecChirho]) -> (r: usize)
    ensures
        r == total_len_spec(iovs_chirho@),
{
    let mut total_chirho: usize = 0;
    let mut i_chirho: usize = 0;
    while i_chirho < iovs_chirho.len()
        invariant
            i_chirho <= iovs_chirho@.len(),
            total_chirho == total_len_spec(iovs_chirho@.take(i_chirho as int)),
            total_chirho <= SOCKET_SEND_MAX_CHIRHO,
        decreases iovs_chirho@.len() - i_chirho,
    {
        let e_chirho = iovs_chirho[i_chirho];
        proof {
            let pre = iovs_chirho@.take(i_chirho + 1);
            assert(pre.drop_last() =~= iovs_chirho@.take(i_chirho as int));
            assert(pre.last() == e_chirho);
        }
        let add_chirho = total_chirho.saturating_add(e_chirho.iov_len_chirho as usize);
        total_chirho = if add_chirho < SOCKET_SEND_MAX_CHIRHO { add_chirho } else { SOCKET_SEND_MAX_CHIRHO };
        i_chirho = i_chirho + 1;
    }
    assert(iovs_chirho@.take(iovs_chirho@.len() as int) =~= iovs_chirho@);
    total_chirho
}

/// The chunks to gather for `sendmsg`, as `gather_plan` says.
pub fn gather_iovec_chirho(iovs_chirho: &[IoVecChirho]) -> (r: Vec<IoChunkChirho>)
    ensures
        r@ == gather_plan(iovs_chirho@),
        chunks_total(r@) <= SOCKET_SEND_MAX_CHIRHO,
{
    let mut out_chirho: Vec<IoChunkChirho> = Vec::new();
    let mut done_chirho: usize = 0;
    let mut i_chirho: usize = 0;
    while i_chirho < iovs_chirho.len()
        invariant
            i_chirho <= iovs_chirho@.len(),
            out_chirho@ == gather_plan(iovs_chirho@.take(i_chirho as int)),
            done_chirho == chunks_total(out_chirho@),
            done_chirho <= SOCKET_SEND_MAX_CHIRHO,
        decreases iovs_chirho@.len() - i_chirho,
    {
        let e_chirho = iovs_chirho[i_chirho];
        proof {
            let pre = iovs_chirho@.take(i_chirho + 1);
            assert(pre.drop_last() =~= iovs_chirho@.take(i_chirho as int));
            assert(pre.last() == e_chirho);
        }
        let room_chirho = SOCKET_SEND_MAX_CHIRHO - done_chirho;
        if e_chirho.iov_base_chirho != 0 && e_chirho.iov_len_chirho != 0 && room_chirho > 0 {
            let want_chirho = e_chirho.iov_len_chirho as usize;
            let len_chirho = if want_chirho < room_chirho { want_chirho } else { room_chirho };
            let c_chirho = IoChunkChirho { base_chirho: e_chirho.iov_base_chirho, offset_chirho: done_chirho, len_chirho };
            out_chirho.push(c_chirho);
            proof {
                assert(out_chirho@.drop_last() =~= gather_plan(iovs_chirho@.take(i_chirho as int)));
            }
            done_chirho = done_chirho + len_chirho;
        }
        i_chirho = i_chirho + 1;
    }
    assert(iovs_chirho@.take(iovs_chirho@.len() as int) =~= iovs_chirho@);
    out_chirho
}

/// The chunks to scatter `n` received bytes to, as `scatter_plan` says.
pub fn scatter_iovec_chirho(iovs_chirho: &[IoVecChirho], n_chirho: usize) -> (r: Vec<IoChunkChirho>)
    ensures
        r@ == scatter_plan(iovs_chirho@, n_chirho as int),
        chunks_total(r@) <= n_chirho,
{
    let mut out_chirho: Vec<IoChunkChirho> = Vec::new();
    let mut done_chirho: usize = 0;
    let mut i_chirho: usize = 0;
    while i_chirho < iovs_chirho.len()
        invariant
            i_chirho <= iovs_chirho@.len(),
            out_chirho@ == scatter_plan(iovs_chirho@.take(i_chirho as int), n_chirho as int),
            done_chirho == chunks_total(out_chirho@),
            done_chirho <= n_chirho,
        decreases iovs_chirho@.len() - i_chirho,
    {
        let e_chirho = iovs_chirho[i_chirho];
        proof {
            let pre = iovs_chirho@.take(i_chirho + 1);
            assert(pre.drop_last() =~= iovs_chirho@.take(i_chirho as int));
            assert(pre.last() == e_chirho);
        }
        if done_chirho < n_chirho && e_chirho.iov_base_chirho != 0 && e_chirho.iov_len_chirho != 0 {
            let want_chirho = e_chirho.iov_len_chirho as usize;
            let left_chirho = n_chirho - done_chirho;
            let len_chirho = if want_chirho < left_chirho { want_chirho } else { left_chirho };
            let c_chirho = IoChunkChirho { base_chirho: e_chirho.iov_base_chirho, offset_chirho: done_chirho, len_chirho };
            out_chirho.push(c_chirho);
            proof {
                assert(out_chirho@.drop_last() =~= scatter_plan(iovs_chirho@.take(i_chirho as int), n_chirho as int));
            }
            done_chirho = done_chirho + len_chirho;
        }
        i_chirho = i_chirho + 1;
    }
    assert(iovs_chirho@.take(iovs_chirho@.len() as int) =~= iovs_chirho@);
    out_chirho
}

/// `sendmsg(2)` on slot `idx`, given the header's vector count and the
/// bytes gathered from its vectors (or the error gathering gave):
/// `-EINVAL` for a negative count, the gathering error, else `sendto` of
/// the gathered bytes.
pub fn sys_sendmsg_chirho(t: &mut SocketTableChirho, idx_chirho: usize, iovlen_chirho: i32,
    gathered_chirho: Result<Vec<u8>, i64>, ip0_chirho: u32, ip1_chirho: u32) -> (r: (i64, Option<Vec<u8>>))
    requires
        table_wf(*old(t)),
        gathered_chirho matches Ok(d) ==> d@.len() <= SOCKET_SEND_MAX_CHIRHO,
    ensures
        table_wf(*final(t)),
        iovlen_chirho < 0 ==> r.0 == -EINVAL_CHIRHO && r.1 is None && *final(t) == *old(t),
        iovlen_chirho >= 0 ==> match gathered_chirho {
            Err(e) => r.0 == e && r.1 is None && *final(t) == *old(t),
            Ok(d) => sendto_outcome(*old(t), *final(t), idx_chirho, d@, d@.len() as u64, ip0_chirho, ip1_chirho, r)
                && final(t).next_ephemeral_chirho == old(t).next_ephemeral_chirho
                && final(t).iss_counter_chirho == old(t).iss_counter_chirho,
        },
{
    if iovlen_chirho < 0 {
        return (-EINVAL_CHIRHO, None);
    }
    match gathered_chirho {
        Err(e_chirho) => (e_chirho, None),
        Ok(d_chirho) => {
            let n_chirho = d_chirho.len() as u64;
            sys_sendto_chirho(t, idx_chirho, &d_chirho, n_chirho, ip0_chirho, ip1_chirho)
        },
    }
}

/// `recvmsg(2)` on slot `idx`, given the header's vector count and the
/// vectors' capacity (or the error reading them gave): `-EINVAL` for a
/// negative count, the reading error, nothing for no capacity, else
/// `recvfrom` of up to the capacity; the caller scatters what it returns.
pub fn sys_recvmsg_chirho(t: &mut SocketTableChirho, idx_chirho: usize, iovlen_chirho: i32,
    capacity_chirho: Result<usize, i64>) -> (r: RecvStepChirho)
    requires
        table_wf(*old(t)),
    ensures
        table_wf(*final(t)),
        iovlen_chirho < 0 ==> (r matches RecvStepChirho::DoneChirho(x, v) && x == -EINVAL_CHIRHO && v@.len() == 0)
            && *final(t) == *old(t),
        iovlen_chirho >= 0 ==> match capacity_chirho {
            Err(e) => (r matches RecvStepChirho::DoneChirho(x, v) && x == e && v@.len() == 0) && *final(t) == *old(t),
            Ok(c) => if c == 0 {
                (r matches RecvStepChirho::DoneChirho(x, v) && x == 0 && v@.len() == 0) && *final(t) == *old(t)
            } else {
                recvfrom_outcome(*old(t), *final(t), idx_chirho, c as u64, true, r)
                    && final(t).next_ephemeral_chirho == old(t).next_ephemeral_chirho
                    && final(t).iss_counter_chirho == old(t).iss_counter_chirho
            },
        },
{
    if iovlen_chirho < 0 {
        return RecvStepChirho::DoneChirho(-EINVAL_CHIRHO, Vec::new());
    }
    match capacity_chirho {
        Err(e_chirho) => RecvStepChirho::DoneChirho(e_chirho, Vec::new()),
        Ok(c_chirho) => {
            if c_chirho == 0 {
                RecvStepChirho::DoneChirho(0, Vec::new())
            } else {
                sys_recvfrom_chirho(t, idx_chirho, c_chirho as u64, true)
            }
        },
    }
}

} // verus!
