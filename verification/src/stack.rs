//! Delivery of received IPv4 packets to the sockets: UDP datagrams, TCP
//! segments (with new connections on listening sockets) and echo requests.

use vstd::prelude::*;
use crate::bytes::{be16_spec, copy_range_chirho};
use crate::packets::{
    echo_parsed_from, ipv4_parse_spec, tcp_parsed_from, udp_parsed_from, IcmpPacketChirho, Ipv4HeaderChirho,
    TcpSegmentChirho, UdpDatagramChirho,
};
use crate::tcp::{is_reply, iss_counter_next, iss_of, tcp_step_on, TcpControlBlockChirho};
use crate::ipv4::{build_tcp_packet_chirho, echo_reply_packet_spec, handle_icmp_echo_chirho, tcp_packet_spec};
use crate::socket::{
    appended_to, fresh_tcb, only_slot_changed, port_or_zero, put_slot_chirho, same_but_queues, take_slot_chirho,
    alloc_socket_slot_chirho, first_free_in, all_full, table_wf, SocketChirho, SocketTableChirho,
};
use crate::net_types::{
    SockAddrInChirho, SocketStateChirho, TcpStateChirho, IP_PROTO_ICMP_CHIRHO, IP_PROTO_TCP_CHIRHO, IP_PROTO_UDP_CHIRHO,
    TCP_ACK_CHIRHO, TCP_RST_CHIRHO, TCP_SYN_CHIRHO,
};

verus! {

// ---------------------------------------------------------------------------
// UDP
// ---------------------------------------------------------------------------

/// The slot holds a datagram socket bound to `port`.
pub open spec fn udp_receiver(slot: Option<SocketChirho>, port: u16) -> bool {
    &&& slot matches Some(s)
    &&& s.sock_type_chirho % 16 == 2
    &&& s.local_addr_chirho matches Some(l)
    &&& l.port_chirho == port
}

/// The bytes a datagram adds to a receive buffer: its length (low 16 bits,
/// big-endian) and its payload.
pub open spec fn datagram_record(payload: Seq<u8>) -> Seq<u8> {
    let n = (payload.len() % 65536) as u16;
    seq![(n / 256) as u8, (n % 256) as u8] + payload
}

/// The slots after delivering `udp` (carried under header `h`): the first
/// datagram socket bound to its destination port takes the sender as its
/// peer and the length-prefixed payload; without one nothing changes.
pub open spec fn udp_delivery(old: Seq<Option<SocketChirho>>, new: Seq<Option<SocketChirho>>, h: Ipv4HeaderChirho, udp: UdpDatagramChirho) -> bool {
    &&& (forall|k: int| 0 <= k < old.len() ==> !udp_receiver(#[trigger] old[k], udp.dst_port_chirho)) ==> new == old
    &&& forall|j: int| 0 <= j < old.len() && udp_receiver(#[trigger] old[j], udp.dst_port_chirho)
        && (forall|k: int| 0 <= k < j ==> !udp_receiver(#[trigger] old[k], udp.dst_port_chirho)) ==> {
        let s = old[j].unwrap();
        let n = new[j].unwrap();
        &&& only_slot_changed(old, new, j)
        &&& same_but_queues(SocketChirho {
            remote_addr_chirho: Some(SockAddrInChirho { port_chirho: udp.src_port_chirho, addr_chirho: h.src_ip_chirho }),
            ..s
        }, n)
        &&& n.recv_buf_chirho@ == s.recv_buf_chirho@ + datagram_record(udp.payload_chirho@)
        &&& n.accept_queue_chirho@ == s.accept_queue_chirho@
    }
}

/// Deliver a datagram to the first datagram socket bound to its destination
/// port: the sender becomes the socket's peer, and the length-prefixed
/// payload joins its receive buffer. Without such a socket it is dropped.
pub fn deliver_udp_packet_chirho(t: &mut SocketTableChirho, ip_hdr_chirho: &Ipv4HeaderChirho, udp_chirho: &UdpDatagramChirho)
    requires
        table_wf(*old(t)),
    ensures
        table_wf(*final(t)),
        final(t).next_ephemeral_chirho == old(t).next_ephemeral_chirho,
        final(t).iss_counter_chirho == old(t).iss_counter_chirho,
        udp_delivery(old(t).slots_chirho@, final(t).slots_chirho@, *ip_hdr_chirho, *udp_chirho),
{
    let port_chirho = udp_chirho.dst_port_chirho;
    let mut j_chirho: usize = 0;
    while j_chirho < t.slots_chirho.len()
        invariant
            t == old(t),
            table_wf(*t),
            port_chirho == udp_chirho.dst_port_chirho,
            j_chirho <= t.slots_chirho@.len(),
            forall|k: int| 0 <= k < j_chirho ==> !udp_receiver(#[trigger] t.slots_chirho@[k], port_chirho),
        decreases t.slots_chirho@.len() - j_chirho,
    {
        let hit_chirho = match &t.slots_chirho[j_chirho] {
            Some(s) => s.sock_type_chirho % 16 == 2 && match s.local_addr_chirho {
                Some(l) => l.port_chirho == port_chirho,
                None => false,
            },
            None => false,
        };
        if hit_chirho {
            assert(udp_receiver(t.slots_chirho@[j_chirho as int], port_chirho));
            let ghost t0 = *t;
            let mut s_chirho = match take_slot_chirho(t, j_chirho) {
                Some(x) => x,
                None => SocketChirho::new_chirho(0, 0, 0),
            };
            s_chirho.remote_addr_chirho = Some(SockAddrInChirho { port_chirho: udp_chirho.src_port_chirho, addr_chirho: ip_hdr_chirho.src_ip_chirho });
            let n_chirho: u16 = (udp_chirho.payload_chirho.len() % 65536) as u16;
            s_chirho.recv_buf_chirho.push_back((n_chirho / 256) as u8);
            s_chirho.recv_buf_chirho.push_back((n_chirho % 256) as u8);
            let ghost b1 = s_chirho.recv_buf_chirho@;
            let mut i_chirho: usize = 0;
            while i_chirho < udp_chirho.payload_chirho.len()
                invariant
                    i_chirho <= udp_chirho.payload_chirho@.len(),
                    same_but_queues(SocketChirho {
                        remote_addr_chirho: Some(SockAddrInChirho { port_chirho: udp_chirho.src_port_chirho, addr_chirho: ip_hdr_chirho.src_ip_chirho }),
                        ..t0.slots_chirho@[j_chirho as int].unwrap()
                    }, s_chirho),
                    s_chirho.accept_queue_chirho@ == t0.slots_chirho@[j_chirho as int].unwrap().accept_queue_chirho@,
                    s_chirho.recv_buf_chirho@ == b1 + udp_chirho.payload_chirho@.subrange(0, i_chirho as int),
                decreases udp_chirho.payload_chirho@.len() - i_chirho,
            {
                s_chirho.recv_buf_chirho.push_back(udp_chirho.payload_chirho[i_chirho]);
                i_chirho = i_chirho + 1;
                assert(udp_chirho.payload_chirho@.subrange(0, i_chirho as int)
                    == udp_chirho.payload_chirho@.subrange(0, i_chirho - 1).push(udp_chirho.payload_chirho@[i_chirho - 1]));
            }
            assert(udp_chirho.payload_chirho@.subrange(0, udp_chirho.payload_chirho@.len() as int) == udp_chirho.payload_chirho@);
            assert(s_chirho.recv_buf_chirho@ =~= t0.slots_chirho@[j_chirho as int].unwrap().recv_buf_chirho@
                + datagram_record(udp_chirho.payload_chirho@));
            put_slot_chirho(t, j_chirho, Some(s_chirho));
            proof {
                let o = t0.slots_chirho@;
                let jj = j_chirho as int;
                assert(only_slot_changed(o, t.slots_chirho@, jj));
                assert(udp_receiver(o[jj], udp_chirho.dst_port_chirho));
                assert forall|j: int| 0 <= j < o.len() && udp_receiver(#[trigger] o[j], udp_chirho.dst_port_chirho)
                    && (forall|k: int| 0 <= k < j ==> !udp_receiver(#[trigger] o[k], udp_chirho.dst_port_chirho)) implies j == jj by {
                    if j < jj {
                        assert(!udp_receiver(o[j], udp_chirho.dst_port_chirho));
                    }
                    if jj < j {
                        assert(!udp_receiver(o[jj], udp_chirho.dst_port_chirho));
                    }
                }
            }
            return;
        }
        j_chirho = j_chirho + 1;
    }
}

// ---------------------------------------------------------------------------
// TCP
// ---------------------------------------------------------------------------

/// The slot holds a stream socket on `dport` whose peer port is `sport`.
pub open spec fn conn_match(slot: Option<SocketChirho>, dport: u16, sport: u16) -> bool {
    &&& slot matches Some(s)
    &&& s.sock_type_chirho % 16 == 1
    &&& port_or_zero(s.local_addr_chirho) == dport
    &&& s.remote_addr_chirho matches Some(rm)
    &&& rm.port_chirho == sport
}

/// The slot holds a listening stream socket on `dport` without a peer.
pub open spec fn listen_match(slot: Option<SocketChirho>, dport: u16) -> bool {
    &&& slot matches Some(s)
    &&& s.sock_type_chirho % 16 == 1
    &&& port_or_zero(s.local_addr_chirho) == dport
    &&& s.remote_addr_chirho is None
    &&& s.state_chirho == SocketStateChirho::ListeningChirho
}

/// The socket a segment for `dport` from `sport` goes to, and the listener
/// on `dport`: the first socket connected to that peer, and the last
/// listener before it (or before the end of the table when there is none).
pub open spec fn tcp_targets(slots: Seq<Option<SocketChirho>>, dport: u16, sport: u16, target: Option<usize>, listen: Option<usize>) -> bool {
    let bound: int = match target { Some(i) => i as int, None => slots.len() as int };
    &&& match target {
        Some(i) => i < slots.len() && conn_match(slots[i as int], dport, sport)
            && forall|k: int| 0 <= k < i ==> !conn_match(#[trigger] slots[k], dport, sport),
        None => forall|k: int| 0 <= k < slots.len() ==> !conn_match(#[trigger] slots[k], dport, sport),
    }
    &&& match listen {
        Some(j) => j < bound && listen_match(slots[j as int], dport)
            && forall|k: int| j < k < bound ==> !listen_match(#[trigger] slots[k], dport),
        None => forall|k: int| 0 <= k < bound ==> !listen_match(#[trigger] slots[k], dport),
    }
}

fn find_tcp_targets_chirho(t: &SocketTableChirho, dport_chirho: u16, sport_chirho: u16) -> (r: (Option<usize>, Option<usize>))
    ensures
        tcp_targets(t.slots_chirho@, dport_chirho, sport_chirho, r.0, r.1),
{
    let mut listen_chirho: Option<usize> = None;
    let mut i_chirho: usize = 0;
    while i_chirho < t.slots_chirho.len()
        invariant
            i_chirho <= t.slots_chirho@.len(),
            forall|k: int| 0 <= k < i_chirho ==> !conn_match(#[trigger] t.slots_chirho@[k], dport_chirho, sport_chirho),
            match listen_chirho {
                Some(j) => j < i_chirho && listen_match(t.slots_chirho@[j as int], dport_chirho)
                    && forall|k: int| j < k < i_chirho ==> !listen_match(#[trigger] t.slots_chirho@[k], dport_chirho),
                None => forall|k: int| 0 <= k < i_chirho ==> !listen_match(#[trigger] t.slots_chirho@[k], dport_chirho),
            },
        decreases t.slots_chirho@.len() - i_chirho,
    {
        match &t.slots_chirho[i_chirho] {
            Some(s) => {
                let lp_chirho: u16 = match s.local_addr_chirho { Some(a) => a.port_chirho, None => 0 };
                if s.sock_type_chirho % 16 == 1 && lp_chirho == dport_chirho {
                    match s.remote_addr_chirho {
                        Some(rm) => {
                            if rm.port_chirho == sport_chirho {
                                return (Some(i_chirho), listen_chirho);
                            }
                        },
                        None => {
                            if s.state_chirho == SocketStateChirho::ListeningChirho {
                                listen_chirho = Some(i_chirho);
                            }
                        },
                    }
                }
            },
            None => {},
        }
        i_chirho = i_chirho + 1;
    }
    (None, listen_chirho)
}

/// The initial sequence number counter after a control block in state `t`
/// received `seg`: a listening block that takes a SYN uses one.
pub open spec fn iss_after(t: TcpControlBlockChirho, seg: TcpSegmentChirho, k: u64) -> u64 {
    if t.state_chirho == TcpStateChirho::ListenChirho && seg.flags_chirho & TCP_RST_CHIRHO == 0 && seg.flags_chirho & TCP_SYN_CHIRHO != 0 {
        iss_counter_next(k)
    } else {
        k
    }
}

/// `p` carries the reply `reply` (if any) from `src` to `dst`.
pub open spec fn reply_packet(reply: Option<crate::tcp::TcpReplySpec>, src: u32, dst: u32, p: Option<Vec<u8>>) -> bool {
    match reply {
        None => p is None,
        Some(rp) => p matches Some(v) && exists|seg: TcpSegmentChirho| #[trigger] is_reply(seg, rp) && v@ == tcp_packet_spec(seg, src, dst),
    }
}

/// The socket that a SYN from `src:sport` to port `dport` spawns on a
/// listener, before the SYN is processed.
pub open spec fn spawned_socket(c: SocketChirho, dport: u16, sport: u16, src: u32) -> bool {
    &&& c.family_chirho == 2
    &&& c.sock_type_chirho == 1
    &&& c.protocol_chirho == 6
    &&& c.state_chirho == SocketStateChirho::UnconnectedChirho
    &&& c.local_addr_chirho == Some(SockAddrInChirho { port_chirho: dport, addr_chirho: 0 })
    &&& c.remote_addr_chirho == Some(SockAddrInChirho { port_chirho: sport, addr_chirho: src })
    &&& c.tcb_chirho == (TcpControlBlockChirho { state_chirho: TcpStateChirho::ListenChirho, ..fresh_tcb() })
    &&& c.recv_buf_chirho@.len() == 0
    &&& c.accept_queue_chirho@.len() == 0
    &&& c.backlog_chirho == 0
    &&& !c.nonblock_chirho
}

/// The table after a SYN from header `h` spawned a connection: a full
/// table drops it; otherwise the new socket fills the first free slot and
/// processes the SYN, and `r` carries its reply.
pub open spec fn spawn_outcome(old: SocketTableChirho, new: SocketTableChirho, h: Ipv4HeaderChirho, seg: TcpSegmentChirho,
    r: Option<Vec<u8>>) -> bool {
    &&& all_full(old.slots_chirho@) ==> r is None && new.slots_chirho@ == old.slots_chirho@
        && new.iss_counter_chirho == old.iss_counter_chirho
    &&& !all_full(old.slots_chirho@) ==> exists|f: int| #[trigger] first_free_in(old.slots_chirho@, f) && {
        let k = old.iss_counter_chirho;
        let c0 = TcpControlBlockChirho { state_chirho: TcpStateChirho::ListenChirho, ..fresh_tcb() };
        let (t2, reply) = tcp_step_on(c0, seg, seg.dst_port_chirho, iss_of(k));
        &&& new.iss_counter_chirho == iss_after(c0, seg, k)
        &&& only_slot_changed(old.slots_chirho@, new.slots_chirho@, f)
        &&& new.slots_chirho@[f] matches Some(c) && spawned_socket(SocketChirho { tcb_chirho: c0, ..c },
            seg.dst_port_chirho, seg.src_port_chirho, h.src_ip_chirho) && c.tcb_chirho == t2
        &&& reply_packet(reply, h.dst_ip_chirho, h.src_ip_chirho, r)
    }
}

/// A SYN on a listener: a new socket for the connection takes the first
/// free slot and processes the SYN; its reply goes back to the sender. A
/// full table drops the SYN.
fn spawn_connection_chirho(t: &mut SocketTableChirho, hdr_chirho: &Ipv4HeaderChirho, seg_chirho: &TcpSegmentChirho) -> (r: Option<Vec<u8>>)
    requires
        table_wf(*old(t)),
        seg_chirho.payload_chirho@.len() + 32 <= 131074,
    ensures
        table_wf(*final(t)),
        final(t).next_ephemeral_chirho == old(t).next_ephemeral_chirho,
        spawn_outcome(*old(t), *final(t), *hdr_chirho, *seg_chirho, r),
{
    let ghost t0 = *t;
    let mut c_chirho = SocketChirho::new_chirho(2, 1, 6);
    c_chirho.local_addr_chirho = Some(SockAddrInChirho { port_chirho: seg_chirho.dst_port_chirho, addr_chirho: 0 });
    c_chirho.remote_addr_chirho = Some(SockAddrInChirho { port_chirho: seg_chirho.src_port_chirho, addr_chirho: hdr_chirho.src_ip_chirho });
    c_chirho.tcb_chirho.state_chirho = TcpStateChirho::ListenChirho;
    let ghost c0 = c_chirho;
    assert((1u64 & 0o4000u64) == 0) by (bit_vector);
    let mut counter_chirho = t.iss_counter_chirho;
    let resp_chirho = c_chirho.tcb_chirho.process_segment_chirho(seg_chirho, seg_chirho.dst_port_chirho, &mut counter_chirho);
    match alloc_socket_slot_chirho(t, c_chirho) {
        Ok(f_chirho) => {
            t.iss_counter_chirho = counter_chirho;
            let out_chirho = match resp_chirho {
                Some(seg2_chirho) => Some(build_tcp_packet_chirho(&seg2_chirho, hdr_chirho.dst_ip_chirho, hdr_chirho.src_ip_chirho)),
                None => None,
            };
            proof {
                assert(first_free_in(t0.slots_chirho@, f_chirho as int));
                assert(spawned_socket(c0, seg_chirho.dst_port_chirho, seg_chirho.src_port_chirho, hdr_chirho.src_ip_chirho));
                assert(forall|j: int| 0 <= j < t.slots_chirho@.len() && j != f_chirho ==> #[trigger] t.slots_chirho@[j] == t0.slots_chirho@[j]);
            }
            out_chirho
        },
        Err(_) => None,
    }
}

/// The socket after a segment: its control block `t2`, the payload added to
/// its receive buffer when it was delivered, CONNECTED when the connection
/// became established, and its own slot index queued when it is also the
/// listener being told of the connection.
pub open spec fn fed_socket(s: SocketChirho, n: SocketChirho, t2: TcpControlBlockChirho, payload: Seq<u8>, idx: int, self_queue: bool) -> bool {
    let delivered = payload.len() > 0 && (t2.state_chirho == TcpStateChirho::EstablishedChirho
        || t2.state_chirho == TcpStateChirho::CloseWaitChirho || t2.state_chirho == TcpStateChirho::FinWait2Chirho);
    let up = (t2.state_chirho == TcpStateChirho::EstablishedChirho || t2.state_chirho == TcpStateChirho::CloseWaitChirho)
        && s.state_chirho != SocketStateChirho::ConnectedChirho;
    &&& same_but_queues(SocketChirho {
        tcb_chirho: t2,
        state_chirho: if up { SocketStateChirho::ConnectedChirho } else { s.state_chirho },
        ..s
    }, n)
    &&& n.recv_buf_chirho@ == s.recv_buf_chirho@ + (if delivered { payload } else { Seq::<u8>::empty() })
    &&& n.accept_queue_chirho@ == s.accept_queue_chirho@ + (if up && self_queue { seq![idx as u64] } else { Seq::<u64>::empty() })
}

/// Whether a connection became established on `s` with control block `t2`.
pub open spec fn came_up(s: SocketChirho, t2: TcpControlBlockChirho) -> bool {
    (t2.state_chirho == TcpStateChirho::EstablishedChirho || t2.state_chirho == TcpStateChirho::CloseWaitChirho)
        && s.state_chirho != SocketStateChirho::ConnectedChirho
}

/// The table after the socket in slot `idx` took `seg` (carried under
/// header `h`), with `listen` the listener on its port: its control block
/// steps, the payload is delivered when the connection can receive, a
/// connection that came up is marked connected and queued on the
/// listener, and `r` carries the reply.
pub open spec fn feed_outcome(old: SocketTableChirho, new: SocketTableChirho, idx: usize, listen: Option<usize>, h: Ipv4HeaderChirho,
    seg: TcpSegmentChirho, r: Option<Vec<u8>>) -> bool {
    let s = old.slots_chirho@[idx as int].unwrap();
    let k = old.iss_counter_chirho;
    let (t2, reply) = tcp_step_on(s.tcb_chirho, seg, port_or_zero(s.local_addr_chirho), iss_of(k));
    let self_queue = listen == Some(idx);
    let other = match listen { Some(l) => l != idx && came_up(s, t2), None => false };
    &&& new.iss_counter_chirho == iss_after(s.tcb_chirho, seg, k)
    &&& reply_packet(reply, h.dst_ip_chirho, h.src_ip_chirho, r)
    &&& new.slots_chirho@.len() == old.slots_chirho@.len()
    &&& new.slots_chirho@[idx as int] matches Some(n)
    &&& fed_socket(s, n, t2, seg.payload_chirho@, idx as int, self_queue)
    &&& forall|j: int| 0 <= j < old.slots_chirho@.len() && j != idx
        && !(other && j == listen.unwrap()) ==> #[trigger] new.slots_chirho@[j] == old.slots_chirho@[j]
    &&& other ==> {
        let l = listen.unwrap() as int;
        let lo = old.slots_chirho@[l].unwrap();
        let ln = new.slots_chirho@[l].unwrap();
        &&& new.slots_chirho@[l] is Some
        &&& same_but_queues(lo, ln)
        &&& ln.recv_buf_chirho@ == lo.recv_buf_chirho@
        &&& ln.accept_queue_chirho@ == lo.accept_queue_chirho@.push(idx as u64)
    }
}

/// Run a segment through the socket in slot `idx`, with `listen` the
/// listener on its port (if any); the packet answering it, if any.
#[verifier::rlimit(50)]
fn feed_segment_chirho(t: &mut SocketTableChirho, idx_chirho: usize, listen_chirho: Option<usize>, hdr_chirho: &Ipv4HeaderChirho,
    seg_chirho: &TcpSegmentChirho) -> (r: Option<Vec<u8>>)
    requires
        table_wf(*old(t)),
        idx_chirho < old(t).slots_chirho@.len(),
        old(t).slots_chirho@[idx_chirho as int] is Some,
        listen_chirho matches Some(l) ==> l < old(t).slots_chirho@.len() && old(t).slots_chirho@[l as int] is Some,
        seg_chirho.payload_chirho@.len() + 32 <= 131074,
    ensures
        table_wf(*final(t)),
        final(t).next_ephemeral_chirho == old(t).next_ephemeral_chirho,
        feed_outcome(*old(t), *final(t), idx_chirho, listen_chirho, *hdr_chirho, *seg_chirho, r),
{
    let ghost t0 = *t;
    let mut s_chirho = match take_slot_chirho(t, idx_chirho) {
        Some(x) => x,
        None => SocketChirho::new_chirho(0, 0, 0),
    };
    let ghost s0 = s_chirho;
    let local_port_chirho: u16 = match s_chirho.local_addr_chirho { Some(a) => a.port_chirho, None => 0 };
    let mut counter_chirho = t.iss_counter_chirho;
    let resp_chirho = s_chirho.tcb_chirho.process_segment_chirho(seg_chirho, local_port_chirho, &mut counter_chirho);
    t.iss_counter_chirho = counter_chirho;
    let st_chirho = s_chirho.tcb_chirho.state_chirho;
    let ghost tcb1 = s_chirho.tcb_chirho;
    if seg_chirho.payload_chirho.len() > 0 && (st_chirho == TcpStateChirho::EstablishedChirho
        || st_chirho == TcpStateChirho::CloseWaitChirho || st_chirho == TcpStateChirho::FinWait2Chirho) {
        let ghost b0 = s_chirho.recv_buf_chirho@;
        let mut i_chirho: usize = 0;
        while i_chirho < seg_chirho.payload_chirho.len()
            invariant
                i_chirho <= seg_chirho.payload_chirho@.len(),
                s_chirho.tcb_chirho == tcb1,
                same_but_queues(SocketChirho { tcb_chirho: tcb1, ..s0 }, s_chirho),
                s_chirho.accept_queue_chirho@ == s0.accept_queue_chirho@,
                b0 == s0.recv_buf_chirho@,
                s_chirho.recv_buf_chirho@ == b0 + seg_chirho.payload_chirho@.subrange(0, i_chirho as int),
            decreases seg_chirho.payload_chirho@.len() - i_chirho,
        {
            s_chirho.recv_buf_chirho.push_back(seg_chirho.payload_chirho[i_chirho]);
            i_chirho = i_chirho + 1;
            assert(seg_chirho.payload_chirho@.subrange(0, i_chirho as int)
                == seg_chirho.payload_chirho@.subrange(0, i_chirho - 1).push(seg_chirho.payload_chirho@[i_chirho - 1]));
        }
        assert(seg_chirho.payload_chirho@.subrange(0, seg_chirho.payload_chirho@.len() as int) == seg_chirho.payload_chirho@);
    }
    let up_chirho = (st_chirho == TcpStateChirho::EstablishedChirho || st_chirho == TcpStateChirho::CloseWaitChirho)
        && s_chirho.state_chirho != SocketStateChirho::ConnectedChirho;
    if up_chirho {
        s_chirho.state_chirho = SocketStateChirho::ConnectedChirho;
        if listen_chirho == Some(idx_chirho) {
            s_chirho.accept_queue_chirho.push_back(idx_chirho as u64);
        }
    }
    proof {
        let (t2, reply) = tcp_step_on(s0.tcb_chirho, *seg_chirho, port_or_zero(s0.local_addr_chirho), iss_of(t0.iss_counter_chirho));
        assert(s_chirho.tcb_chirho == t2);
        assert(s_chirho.recv_buf_chirho@ =~= s0.recv_buf_chirho@ + (if seg_chirho.payload_chirho@.len() > 0 && (t2.state_chirho == TcpStateChirho::EstablishedChirho
            || t2.state_chirho == TcpStateChirho::CloseWaitChirho || t2.state_chirho == TcpStateChirho::FinWait2Chirho) { seg_chirho.payload_chirho@ } else { Seq::<u8>::empty() }));
        assert(s_chirho.accept_queue_chirho@ =~= s0.accept_queue_chirho@ + (if came_up(s0, t2) && listen_chirho == Some(idx_chirho) { seq![idx_chirho as u64] } else { Seq::<u64>::empty() }));
    }
    put_slot_chirho(t, idx_chirho, Some(s_chirho));
    if up_chirho {
        if let Some(l_chirho) = listen_chirho {
            if l_chirho != idx_chirho {
                let mut ls_chirho = match take_slot_chirho(t, l_chirho) {
                    Some(x) => x,
                    None => SocketChirho::new_chirho(0, 0, 0),
                };
                ls_chirho.accept_queue_chirho.push_back(idx_chirho as u64);
                put_slot_chirho(t, l_chirho, Some(ls_chirho));
            }
        }
    }
    match resp_chirho {
        Some(seg2_chirho) => Some(build_tcp_packet_chirho(&seg2_chirho, hdr_chirho.dst_ip_chirho, hdr_chirho.src_ip_chirho)),
        None => None,
    }
}

/// The IPv4 header of a frame and the bytes of its TCP segment: from the
/// header length to the total length (or the end of the data).
pub open spec fn tcp_frame(d: Seq<u8>) -> Option<(Ipv4HeaderChirho, Seq<u8>)> {
    match ipv4_parse_spec(d) {
        None => None,
        Some(h) => {
            let hl = h.ihl_chirho as int * 4;
            let end = if (h.total_length_chirho as int) < d.len() { h.total_length_chirho as int } else { d.len() as int };
            if h.protocol_chirho != IP_PROTO_TCP_CHIRHO || end < hl { None } else { Some((h, d.subrange(hl, end))) }
        },
    }
}

/// The table after the segment `seg` under header `h` reached the stack:
/// a SYN without ACK for a listener with no matching connection spawns a
/// new connection; otherwise the matching connection, or else the
/// listener, takes it; with neither it is dropped.
pub open spec fn tcp_delivery(old: SocketTableChirho, new: SocketTableChirho, h: Ipv4HeaderChirho, seg: TcpSegmentChirho,
    r: Option<Vec<u8>>) -> bool {
    exists|target: Option<usize>, listen: Option<usize>| #[trigger] tcp_targets(old.slots_chirho@, seg.dst_port_chirho,
        seg.src_port_chirho, target, listen) && {
        if target is None && listen is Some && seg.flags_chirho & TCP_SYN_CHIRHO != 0 && seg.flags_chirho & TCP_ACK_CHIRHO == 0 {
            spawn_outcome(old, new, h, seg, r)
        } else {
            match (if target is Some { target } else { listen }) {
                None => r is None && new.slots_chirho@ == old.slots_chirho@ && new.iss_counter_chirho == old.iss_counter_chirho,
                Some(idx) => feed_outcome(old, new, idx, listen, h, seg, r),
            }
        }
    }
}

/// The header length in bytes that the IHL field gives.
pub open spec fn header_len_spec(h: Ipv4HeaderChirho) -> int {
    h.ihl_chirho as int * 4
}

/// The length of `d` as an integer.
pub open spec fn seq_len(d: Seq<u8>) -> int {
    d.len() as int
}

fn header_len_chirho(h: &Ipv4HeaderChirho) -> (r: usize)
    ensures
        r == header_len_spec(*h),
{
    (h.ihl_chirho as usize) * 4
}

fn total_len_usize_chirho(h: &Ipv4HeaderChirho) -> (r: usize)
    ensures
        r == h.total_length_chirho as int,
{
    h.total_length_chirho as usize
}

/// Hand the TCP segment of a received IPv4 packet to the socket it is for;
/// the packet answering it, if any, goes back to the sender.
pub fn deliver_tcp_from_frame_chirho(t: &mut SocketTableChirho, ip_data_chirho: &[u8]) -> (r: Option<Vec<u8>>)
    requires
        table_wf(*old(t)),
    ensures
        table_wf(*final(t)),
        final(t).next_ephemeral_chirho == old(t).next_ephemeral_chirho,
        match tcp_frame(ip_data_chirho@) {
            None => r is None && final(t).slots_chirho@ == old(t).slots_chirho@ && final(t).iss_counter_chirho == old(t).iss_counter_chirho,
            Some((h, b)) => if b.len() < 20 {
                r is None && final(t).slots_chirho@ == old(t).slots_chirho@ && final(t).iss_counter_chirho == old(t).iss_counter_chirho
            } else {
                exists|seg: TcpSegmentChirho| #[trigger] tcp_parsed_from(seg, b) && tcp_delivery(*old(t), *final(t), h, seg, r)
            },
        },
{
    let hdr_chirho = match Ipv4HeaderChirho::parse_chirho(ip_data_chirho) {
        Some(h) => h,
        None => return None,
    };
    if hdr_chirho.protocol_chirho != IP_PROTO_TCP_CHIRHO {
        return None;
    }
    let hl_chirho = header_len_chirho(&hdr_chirho);
    let total_chirho = total_len_usize_chirho(&hdr_chirho);
    let end_chirho = if total_chirho < ip_data_chirho.len() { total_chirho } else { ip_data_chirho.len() };
    if end_chirho < hl_chirho {
        return None;
    }
    let bytes_chirho = copy_range_chirho(ip_data_chirho, hl_chirho, end_chirho);
    let seg_chirho = match TcpSegmentChirho::parse_chirho(bytes_chirho.as_slice()) {
        Some(s) => s,
        None => return None,
    };
    let ghost t0 = *t;
    let (target_chirho, listen_chirho) = find_tcp_targets_chirho(t, seg_chirho.dst_port_chirho, seg_chirho.src_port_chirho);
    let syn_chirho = seg_chirho.flags_chirho & TCP_SYN_CHIRHO != 0;
    let ack_chirho = seg_chirho.flags_chirho & TCP_ACK_CHIRHO != 0;
    if target_chirho.is_none() && listen_chirho.is_some() && syn_chirho && !ack_chirho {
        let r = spawn_connection_chirho(t, &hdr_chirho, &seg_chirho);
        assert(tcp_targets(t0.slots_chirho@, seg_chirho.dst_port_chirho, seg_chirho.src_port_chirho, target_chirho, listen_chirho));
        return r;
    }
    let pick_chirho = if target_chirho.is_some() { target_chirho } else { listen_chirho };
    match pick_chirho {
        None => {
            assert(tcp_targets(t0.slots_chirho@, seg_chirho.dst_port_chirho, seg_chirho.src_port_chirho, target_chirho, listen_chirho));
            None
        },
        Some(idx_chirho) => {
            let r = feed_segment_chirho(t, idx_chirho, listen_chirho, &hdr_chirho, &seg_chirho);
            assert(tcp_targets(t0.slots_chirho@, seg_chirho.dst_port_chirho, seg_chirho.src_port_chirho, target_chirho, listen_chirho));
            r
        },
    }
}

/// The answer to an echo request carried in the bytes `payload` of a packet
/// with header `h`, if it is one.
pub open spec fn echo_answer(h: Ipv4HeaderChirho, payload: Seq<u8>) -> Option<Seq<u8>> {
    if payload.len() < 8 || payload[0] != 8 {
        None
    } else {
        Some(echo_reply_packet_spec(h, be16_spec(payload[4], payload[5]), be16_spec(payload[6], payload[7]), payload.skip(8)))
    }
}
/// What handling the received IPv4 packet `data` does: from table `o` to
/// table `after`, with `r` the echo reply and the TCP packet to send.
pub open spec fn ipv4_outcome(o: SocketTableChirho, after: SocketTableChirho, data: Seq<u8>,
    r: (Option<Vec<u8>>, Option<Vec<u8>>)) -> bool {
    match ipv4_parse_spec(data) {
        None => r.0 is None && r.1 is None && after.slots_chirho@ == o.slots_chirho@
            && after.iss_counter_chirho == o.iss_counter_chirho,
        Some(h) => {
            let hl = header_len_spec(h);
            let payload = data.subrange(hl, seq_len(data));
            if data.len() < hl {
                r.0 is None && r.1 is None && after.slots_chirho@ == o.slots_chirho@
                    && after.iss_counter_chirho == o.iss_counter_chirho
            } else if h.protocol_chirho == IP_PROTO_ICMP_CHIRHO {
                &&& r.1 is None
                &&& after.slots_chirho@ == o.slots_chirho@
                &&& after.iss_counter_chirho == o.iss_counter_chirho
                &&& match echo_answer(h, payload) {
                    None => r.0 is None,
                    Some(a) => r.0 matches Some(p) && p@ == a,
                }
            } else if h.protocol_chirho == IP_PROTO_UDP_CHIRHO {
                &&& r.0 is None
                &&& r.1 is None
                &&& after.iss_counter_chirho == o.iss_counter_chirho
                &&& if payload.len() < 8 {
                    after.slots_chirho@ == o.slots_chirho@
                } else {
                    exists|u: UdpDatagramChirho| #[trigger] udp_parsed_from(u, payload)
                        && udp_delivery(o.slots_chirho@, after.slots_chirho@, h, u)
                }
            } else if h.protocol_chirho == IP_PROTO_TCP_CHIRHO {
                &&& r.0 is None
                &&& match tcp_frame(data) {
                    None => r.1 is None && after.slots_chirho@ == o.slots_chirho@
                        && after.iss_counter_chirho == o.iss_counter_chirho,
                    Some((h2, b)) => if b.len() < 20 {
                        r.1 is None && after.slots_chirho@ == o.slots_chirho@
                            && after.iss_counter_chirho == o.iss_counter_chirho
                    } else {
                        exists|seg: TcpSegmentChirho| #[trigger] tcp_parsed_from(seg, b) && tcp_delivery(o, after, h2, seg, r.1)
                    },
                }
            } else {
                r.0 is None && r.1 is None && after.slots_chirho@ == o.slots_chirho@
                    && after.iss_counter_chirho == o.iss_counter_chirho
            }
        },
    }
}


/// Only an ICMP echo request is answered: whenever handling a packet gives
/// a reply, the packet is IPv4 carrying ICMP of type 8 (echo request)
/// after its header, and the reply is the echo reply to it.
pub proof fn lemma_only_echo_requests_answered(o: SocketTableChirho, after: SocketTableChirho, data: Seq<u8>,
    r: (Option<Vec<u8>>, Option<Vec<u8>>))
    requires
        ipv4_outcome(o, after, data, r),
    ensures
        r.0 matches Some(p) ==> ipv4_parse_spec(data) matches Some(h) && {
            let payload = data.subrange(header_len_spec(h), seq_len(data));
            &&& data.len() >= header_len_spec(h)
            &&& h.protocol_chirho == IP_PROTO_ICMP_CHIRHO
            &&& payload.len() >= 8 && payload[0] == 8
            &&& p@ == echo_reply_packet_spec(h, be16_spec(payload[4], payload[5]), be16_spec(payload[6], payload[7]), payload.skip(8))
        },
{
}

/// Process a received IPv4 packet by protocol: the reply to return (an
/// echo reply) and the packet to transmit (a TCP answer). Echo requests
/// are answered, UDP datagrams and TCP segments delivered to their
/// sockets; anything else is ignored.
pub fn process_ipv4_packet_chirho(t: &mut SocketTableChirho, data_chirho: &[u8]) -> (r: (Option<Vec<u8>>, Option<Vec<u8>>))
    requires
        table_wf(*old(t)),
        data_chirho@.len() <= 131074,
    ensures
        table_wf(*final(t)),
        final(t).next_ephemeral_chirho == old(t).next_ephemeral_chirho,
        ipv4_outcome(*old(t), *final(t), data_chirho@, r),
{
    let hdr_chirho = match Ipv4HeaderChirho::parse_chirho(data_chirho) {
        Some(h) => h,
        None => return (None, None),
    };
    let hl_chirho = header_len_chirho(&hdr_chirho);
    if data_chirho.len() < hl_chirho {
        return (None, None);
    }
    let payload_chirho = copy_range_chirho(data_chirho, hl_chirho, data_chirho.len());
    if hdr_chirho.protocol_chirho == IP_PROTO_ICMP_CHIRHO {
        match IcmpPacketChirho::parse_chirho(payload_chirho.as_slice()) {
            None => (None, None),
            Some(echo_chirho) => {
                proof {
                    assert(echo_chirho.data_chirho@ == payload_chirho@.skip(8));
                }
                (handle_icmp_echo_chirho(&hdr_chirho, &echo_chirho), None)
            },
        }
    } else if hdr_chirho.protocol_chirho == IP_PROTO_UDP_CHIRHO {
        match UdpDatagramChirho::parse_chirho(payload_chirho.as_slice()) {
            None => (None, None),
            Some(u_chirho) => {
                deliver_udp_packet_chirho(t, &hdr_chirho, &u_chirho);
                (None, None)
            },
        }
    } else if hdr_chirho.protocol_chirho == IP_PROTO_TCP_CHIRHO {
        (None, deliver_tcp_from_frame_chirho(t, data_chirho))
    } else {
        (None, None)
    }
}

} // verus!
