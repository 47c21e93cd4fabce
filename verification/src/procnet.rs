//! The rows of `/proc/net/tcp` and `/proc/net/udp`: one per stream or
//! datagram socket, in slot order. Rendering them as text is the caller's.

use vstd::prelude::*;
use crate::net_types::{SockAddrInChirho, TcpStateChirho};
use crate::socket::{SocketChirho, SocketTableChirho};

verus! {

/// One row of `/proc/net/tcp` or `/proc/net/udp`.
#[derive(Debug, Clone, Copy, PartialEq, Eq, Structural)]
pub struct ProcNetEntryChirho {
    /// Row number.
    pub sl_chirho: u32,
    /// Local address, byte-reversed as Linux prints it.
    pub local_ip_le_chirho: u32,
    pub local_port_chirho: u16,
    /// Remote address, byte-reversed as Linux prints it.
    pub remote_ip_le_chirho: u32,
    pub remote_port_chirho: u16,
    /// Linux's state code.
    pub st_chirho: u8,
    /// Bytes waiting to be read.
    pub rx_queue_chirho: u32,
    /// The socket's slot, printed as its inode.
    pub inode_chirho: usize,
}

/// `x` with its four bytes in reverse order.
pub open spec fn swap32(x: u32) -> u32 {
    ((x & 0xFF) << 24u32) | (((x >> 8u32) & 0xFF) << 16u32) | (((x >> 16u32) & 0xFF) << 8u32) | (x >> 24u32)
}

fn swap32_chirho(x: u32) -> (r: u32)
    ensures
        r == swap32(x),
{
    ((x & 0xFF) << 24u32) | (((x >> 8u32) & 0xFF) << 16u32) | (((x >> 16u32) & 0xFF) << 8u32) | (x >> 24u32)
}

/// Linux's `/proc/net/tcp` code for a TCP state.
pub open spec fn tcp_state_code(s: TcpStateChirho) -> u8 {
    match s {
        TcpStateChirho::EstablishedChirho => 0x01,
        TcpStateChirho::SynSentChirho => 0x02,
        TcpStateChirho::SynReceivedChirho => 0x03,
        TcpStateChirho::FinWait1Chirho => 0x04,
        TcpStateChirho::FinWait2Chirho => 0x05,
        TcpStateChirho::TimeWaitChirho => 0x06,
        TcpStateChirho::CloseWaitChirho => 0x08,
        TcpStateChirho::LastAckChirho => 0x09,
        TcpStateChirho::ListenChirho => 0x0A,
        TcpStateChirho::ClosingChirho => 0x0B,
        TcpStateChirho::ClosedChirho => 0x07,
    }
}

fn tcp_state_code_chirho(s: TcpStateChirho) -> (r: u8)
    ensures
        r == tcp_state_code(s),
{
    match s {
        TcpStateChirho::EstablishedChirho => 0x01,
        TcpStateChirho::SynSentChirho => 0x02,
        TcpStateChirho::SynReceivedChirho => 0x03,
        TcpStateChirho::FinWait1Chirho => 0x04,
        TcpStateChirho::FinWait2Chirho => 0x05,
        TcpStateChirho::TimeWaitChirho => 0x06,
        TcpStateChirho::CloseWaitChirho => 0x08,
        TcpStateChirho::LastAckChirho => 0x09,
        TcpStateChirho::ListenChirho => 0x0A,
        TcpStateChirho::ClosingChirho => 0x0B,
        TcpStateChirho::ClosedChirho => 0x07,
    }
}

/// An address, or the zero address when there is none.
pub open spec fn addr_or_zero(a: Option<SockAddrInChirho>) -> SockAddrInChirho {
    match a {
        Some(x) => x,
        None => SockAddrInChirho { port_chirho: 0, addr_chirho: 0 },
    }
}

/// The row for socket `s` in slot `idx`, numbered `sl`; `tcp` picks the
/// state code of `/proc/net/tcp`, else the fixed code 7 of
/// `/proc/net/udp`.
pub open spec fn proc_row(s: SocketChirho, idx: int, sl: int, tcp: bool) -> ProcNetEntryChirho {
    let l = addr_or_zero(s.local_addr_chirho);
    let r = addr_or_zero(s.remote_addr_chirho);
    ProcNetEntryChirho {
        sl_chirho: sl as u32,
        local_ip_le_chirho: swap32(l.addr_chirho),
        local_port_chirho: l.port_chirho,
        remote_ip_le_chirho: swap32(r.addr_chirho),
        remote_port_chirho: r.port_chirho,
        st_chirho: if tcp { tcp_state_code(s.tcb_chirho.state_chirho) } else { 7 },
        rx_queue_chirho: s.recv_buf_chirho@.len() as u32,
        inode_chirho: idx as usize,
    }
}

/// The slot holds a socket whose base type is `ty`.
pub open spec fn listed(slot: Option<SocketChirho>, ty: u64) -> bool {
    slot matches Some(s) && s.sock_type_chirho & 0xF == ty
}

/// The rows for the sockets of base type `ty` among the slots `s`, in
/// slot order (`tcp` as in `proc_row`).
pub open spec fn proc_rows(s: Seq<Option<SocketChirho>>, ty: u64, tcp: bool) -> Seq<ProcNetEntryChirho>
    decreases s.len(),
{
    if s.len() == 0 {
        Seq::empty()
    } else {
        let prev = proc_rows(s.drop_last(), ty, tcp);
        if listed(s.last(), ty) {
            prev.push(proc_row(s.last()->0, s.len() - 1, prev.len() as int, tcp))
        } else {
            prev
        }
    }
}

proof fn lemma_rows_len(s: Seq<Option<SocketChirho>>, ty: u64, tcp: bool)
    ensures
        proc_rows(s, ty, tcp).len() <= s.len(),
    decreases s.len(),
{
    if s.len() > 0 {
        lemma_rows_len(s.drop_last(), ty, tcp);
    }
}

fn proc_rows_chirho(t_chirho: &SocketTableChirho, ty_chirho: u64, tcp_chirho: bool) -> (r: Vec<ProcNetEntryChirho>)
    requires
        t_chirho.slots_chirho@.len() <= u32::MAX,
    ensures
        r@ == proc_rows(t_chirho.slots_chirho@, ty_chirho, tcp_chirho),
{
    let mut out_chirho: Vec<ProcNetEntryChirho> = Vec::new();
    let mut i_chirho: usize = 0;
    while i_chirho < t_chirho.slots_chirho.len()
        invariant
            i_chirho <= t_chirho.slots_chirho@.len(),
            t_chirho.slots_chirho@.len() <= u32::MAX,
            out_chirho@ == proc_rows(t_chirho.slots_chirho@.take(i_chirho as int), ty_chirho, tcp_chirho),
        decreases t_chirho.slots_chirho@.len() - i_chirho,
    {
        proof {
            let pre = t_chirho.slots_chirho@.take(i_chirho + 1);
            assert(pre.drop_last() =~= t_chirho.slots_chirho@.take(i_chirho as int));
            lemma_rows_len(pre.drop_last(), ty_chirho, tcp_chirho);
        }
        if let Some(s_chirho) = &t_chirho.slots_chirho[i_chirho] {
            if s_chirho.sock_type_chirho & 0xF == ty_chirho {
                let l_chirho = match s_chirho.local_addr_chirho {
                    Some(a_chirho) => a_chirho,
                    None => SockAddrInChirho { port_chirho: 0, addr_chirho: 0 },
                };
                let rm_chirho = match s_chirho.remote_addr_chirho {
                    Some(a_chirho) => a_chirho,
                    None => SockAddrInChirho { port_chirho: 0, addr_chirho: 0 },
                };
                let st_chirho: u8 = if tcp_chirho { tcp_state_code_chirho(s_chirho.tcb_chirho.state_chirho) } else { 7 };
                let row_chirho = ProcNetEntryChirho {
                    sl_chirho: out_chirho.len() as u32,
                    local_ip_le_chirho: swap32_chirho(l_chirho.addr_chirho),
                    local_port_chirho: l_chirho.port_chirho,
                    remote_ip_le_chirho: swap32_chirho(rm_chirho.addr_chirho),
                    remote_port_chirho: rm_chirho.port_chirho,
                    st_chirho,
                    rx_queue_chirho: s_chirho.recv_buf_chirho.len() as u32,
                    inode_chirho: i_chirho,
                };
                out_chirho.push(row_chirho);
            }
        }
        i_chirho = i_chirho + 1;
    }
    assert(t_chirho.slots_chirho@.take(t_chirho.slots_chirho@.len() as int) =~= t_chirho.slots_chirho@);
    out_chirho
}

/// The rows of `/proc/net/tcp`: the stream sockets (base type 1), in slot
/// order, with their TCP state codes.
pub fn gen_proc_net_tcp_chirho(t_chirho: &SocketTableChirho) -> (r: Vec<ProcNetEntryChirho>)
    requires
        t_chirho.slots_chirho@.len() <= u32::MAX,
    ensures
        r@ == proc_rows(t_chirho.slots_chirho@, 1, true),
{
    proc_rows_chirho(t_chirho, 1, true)
}

/// The rows of `/proc/net/udp`: the datagram sockets (base type 2), in
/// slot order, each with state code 7.
pub fn gen_proc_net_udp_chirho(t_chirho: &SocketTableChirho) -> (r: Vec<ProcNetEntryChirho>)
    requires
        t_chirho.slots_chirho@.len() <= u32::MAX,
    ensures
        r@ == proc_rows(t_chirho.slots_chirho@, 2, false),
{
    proc_rows_chirho(t_chirho, 2, false)
}

/// The dotted-quad text of an address given most significant byte first.
pub open spec fn dotted_quad(ip: u32) -> Seq<u8> {
    crate::allocator::dec_digits(((ip >> 24u32) & 0xFF) as nat) + seq![46u8]
        + crate::allocator::dec_digits(((ip >> 16u32) & 0xFF) as nat) + seq![46u8]
        + crate::allocator::dec_digits(((ip >> 8u32) & 0xFF) as nat) + seq![46u8]
        + crate::allocator::dec_digits((ip & 0xFF) as nat)
}

/// `ip` as ASCII text "a.b.c.d".
pub fn format_ip_chirho(ip_chirho: u32) -> (r: Vec<u8>)
    ensures
        r@ == dotted_quad(ip_chirho),
{
    let mut out_chirho: Vec<u8> = Vec::new();
    crate::allocator::push_dec_chirho(&mut out_chirho, ((ip_chirho >> 24u32) & 0xFF) as u64);
    out_chirho.push(46);
    crate::allocator::push_dec_chirho(&mut out_chirho, ((ip_chirho >> 16u32) & 0xFF) as u64);
    out_chirho.push(46);
    crate::allocator::push_dec_chirho(&mut out_chirho, ((ip_chirho >> 8u32) & 0xFF) as u64);
    out_chirho.push(46);
    crate::allocator::push_dec_chirho(&mut out_chirho, (ip_chirho & 0xFF) as u64);
    assert(out_chirho@ =~= dotted_quad(ip_chirho));
    out_chirho
}

/// A byte as the preview shows it: printable ASCII as itself, anything
/// else as '.'.
pub open spec fn preview_byte(b: u8) -> u8 {
    if 0x20 <= b <= 0x7e { b } else { 46u8 }
}

/// The first 48 bytes of a payload (or all of a shorter one) as printable
/// ASCII, for a log line.
pub fn preview_payload_ascii_chirho(data_chirho: &[u8]) -> (r: Vec<u8>)
    ensures
        r@.len() == (if data_chirho@.len() < 48 { data_chirho@.len() } else { 48 }),
        forall|i: int| 0 <= i < r@.len() ==> #[trigger] r@[i] == preview_byte(data_chirho@[i]),
{
    let n_chirho: usize = if data_chirho.len() < 48 { data_chirho.len() } else { 48 };
    let mut out_chirho: Vec<u8> = Vec::new();
    let mut i_chirho: usize = 0;
    while i_chirho < n_chirho
        invariant
            n_chirho <= data_chirho@.len(),
            i_chirho <= n_chirho,
            out_chirho@.len() == i_chirho,
            forall|k: int| 0 <= k < i_chirho ==> #[trigger] out_chirho@[k] == preview_byte(data_chirho@[k]),
        decreases n_chirho - i_chirho,
    {
        let b_chirho = data_chirho[i_chirho];
        out_chirho.push(if 0x20 <= b_chirho && b_chirho <= 0x7e { b_chirho } else { 46 });
        i_chirho = i_chirho + 1;
    }
    out_chirho
}

} // verus!
