//! Network operations through a real interface: TCP connect and send,
//! ping, DNS resolution, and the handling of each received frame. Each
//! function decides and builds what goes on the wire; the caller sends it,
//! polls the devices, and feeds back what arrives.

use vstd::prelude::*;
use crate::net_types::{SockAddrInChirho, TcpStateChirho, ECONNREFUSED_CHIRHO, EBADF_CHIRHO, EINVAL_CHIRHO,
    ENOTCONN_CHIRHO, IP_PROTO_TCP_CHIRHO};
use crate::tcp::{iss_counter_next, iss_of, is_reply};
use crate::socket::{
    data_packet_from, tcp_transmit_from_chirho,
    alloc_ephemeral_port_chirho, alloc_socket_slot_chirho, data_packet, ephemeral_port_spec, first_free, fresh_tcb,
    is_fresh_socket, occupied, port_counter_ok, sock, syn_sent_tcb, table_full, table_wf, tcp_transmit_chirho,
    after_send, take_slot_chirho, put_slot_chirho, unchanged, SocketChirho, SocketTableChirho, MAX_SOCKETS_CHIRHO,
};
use crate::ipv4::{build_tcp_packet_chirho, tcp_packet_spec, send_icmp_echo_request_chirho, echo_request_packet_spec, low16,
    next_seq, EchoCountersChirho};
use crate::packets::TcpSegmentChirho;
use crate::route::{lookup_result, no_route, route_packet_chirho, RoutingTableChirho};
use crate::netconf::{arp_insert_spec, arp_reply_outcome, get_interface_ip_chirho, handle_arp_chirho, iface_ip_spec,
    set_interface_ip_chirho, NetConfigChirho};
use crate::stack::{ipv4_outcome, process_ipv4_packet_chirho};
use crate::packets::{arp_parsed_from, ethernet_parsed_from, ipv4_parse_spec, udp_payload_len_spec, ArpPacketChirho,
    EthernetFrameChirho, Ipv4HeaderChirho, UdpDatagramChirho};
use crate::bytes::be16_spec;
use crate::dns::{build_dns_query_chirho, dns_answers_spec, dns_query_spec, parse_dns_response_chirho, txid_of, DNS_PORT_CHIRHO};
use crate::ipv4::{build_udp_packet_chirho, udp_packet_spec};
use vstd::string::StringSliceAdditionalSpecFns;
use crate::bytes::copy_range_chirho;
use crate::tcp::wadd;

verus! {

/// `send` on a connected TCP socket in slot `idx`: `-EBADF` for a free
/// slot, `-ENOTCONN` unless the connection is ESTABLISHED or CLOSE_WAIT;
/// else SND.NXT advances past the data and the packet carrying it (from
/// the socket's address to its peer) is returned for the caller to send.
pub fn tcp_send_real_chirho(t: &mut SocketTableChirho, idx_chirho: usize, data_chirho: &[u8]) -> (r: Result<Vec<u8>, i64>)
    requires
        table_wf(*old(t)),
        idx_chirho < MAX_SOCKETS_CHIRHO,
        data_chirho@.len() <= 65536,
    ensures
        table_wf(*final(t)),
        final(t).next_ephemeral_chirho == old(t).next_ephemeral_chirho,
        final(t).iss_counter_chirho == old(t).iss_counter_chirho,
        !occupied(*old(t), idx_chirho as int) ==> (r matches Err(e) && e == -EBADF_CHIRHO)
            && final(t).slots_chirho@ == old(t).slots_chirho@,
        occupied(*old(t), idx_chirho as int) ==> {
            let s = sock(*old(t), idx_chirho as int);
            if s.tcb_chirho.state_chirho == TcpStateChirho::EstablishedChirho
                || s.tcb_chirho.state_chirho == TcpStateChirho::CloseWaitChirho {
                &&& final(t).slots_chirho@ == old(t).slots_chirho@.update(idx_chirho as int,
                    Some(after_send(s, data_chirho@.len() as int)))
                &&& r matches Ok(p) && data_packet(s, data_chirho@, 0, 0, p@)
            } else {
                (r matches Err(e) && e == -ENOTCONN_CHIRHO) && final(t).slots_chirho@ == old(t).slots_chirho@
            }
        },
{
    let st_chirho = match &t.slots_chirho[idx_chirho] {
        None => return Err(-EBADF_CHIRHO),
        Some(s_chirho) => s_chirho.tcb_chirho.state_chirho,
    };
    if st_chirho != TcpStateChirho::EstablishedChirho && st_chirho != TcpStateChirho::CloseWaitChirho {
        return Err(-ENOTCONN_CHIRHO);
    }
    match tcp_transmit_chirho(t, idx_chirho, data_chirho, 0, 0) {
        Some(p_chirho) => Ok(p_chirho),
        None => Err(-ENOTCONN_CHIRHO),
    }
}

/// `s` is the socket an active open from `src` to `dst` leaves: a stream
/// socket of family AF_INET in SYN_SENT with initial sequence number `iss`.
pub open spec fn connecting_socket(s: SocketChirho, src: SockAddrInChirho, dst: SockAddrInChirho, iss: u32) -> bool {
    &&& s.family_chirho == 2
    &&& s.sock_type_chirho == 1
    &&& s.protocol_chirho == 0
    &&& s.state_chirho == crate::net_types::SocketStateChirho::UnconnectedChirho
    &&& s.tcb_chirho == syn_sent_tcb(fresh_tcb(), iss)
    &&& s.local_addr_chirho == Some(src)
    &&& s.remote_addr_chirho == Some(dst)
    &&& s.recv_buf_chirho@.len() == 0
    &&& s.accept_queue_chirho@.len() == 0
    &&& s.backlog_chirho == 0
    &&& !s.nonblock_chirho
}

/// The address interface `iface` sends from when it carries the route to
/// `dst`.
pub open spec fn route_src(routes: Seq<crate::route::RouteEntryChirho>, ips: Seq<u32>, dst: u32, src: u32) -> bool {
    exists|g: u32, iface: usize| #[trigger] lookup_result(routes, dst, Some((g, iface))) && src == iface_ip_spec(ips, iface as int)
}

/// Start a TCP connection to `dst_ip:dst_port` through the routed
/// interface: `-ENETUNREACH` without a route; else an ephemeral port is
/// taken, `-EMFILE` when the table is full; else a new socket in the first
/// free slot sends a SYN from the interface's address, and its slot and
/// the SYN packet are returned. The caller sends the packet and then polls
/// with `tcp_connect_wait_chirho`.
pub fn tcp_connect_real_chirho(routes_chirho: &RoutingTableChirho, ips_chirho: &Vec<u32>, t: &mut SocketTableChirho,
    dst_ip_chirho: u32, dst_port_chirho: u16) -> (r: Result<(usize, Vec<u8>), i64>)
    requires
        table_wf(*old(t)),
        port_counter_ok(*old(t)),
    ensures
        table_wf(*final(t)),
        no_route(routes_chirho@, dst_ip_chirho) ==> (r matches Err(e) && e == -crate::net_types::ENETUNREACH_CHIRHO)
            && unchanged(*final(t), *old(t)),
        !no_route(routes_chirho@, dst_ip_chirho) ==> {
            let c0 = old(t).next_ephemeral_chirho;
            let k0 = old(t).iss_counter_chirho;
            let sport = ephemeral_port_spec(c0);
            &&& final(t).next_ephemeral_chirho == c0 + 1
            &&& table_full(*old(t)) ==> (r matches Err(e) && e == -crate::net_types::EMFILE_CHIRHO)
                && final(t).slots_chirho@ == old(t).slots_chirho@ && final(t).iss_counter_chirho == k0
            &&& !table_full(*old(t)) ==> (r matches Ok((i, p)) && {
                let s = final(t).slots_chirho@[i as int]->0;
                let src = s.local_addr_chirho->0;
                let dst = SockAddrInChirho { port_chirho: dst_port_chirho, addr_chirho: dst_ip_chirho };
                &&& first_free(*old(t), i as int)
                &&& final(t).slots_chirho@ == old(t).slots_chirho@.update(i as int, Some(s))
                &&& src.port_chirho == sport
                &&& route_src(routes_chirho@, ips_chirho@, dst_ip_chirho, src.addr_chirho)
                &&& connecting_socket(s, src, dst, iss_of(k0))
                &&& final(t).iss_counter_chirho == iss_counter_next(k0)
                &&& exists|seg: TcpSegmentChirho| #[trigger] is_reply(seg, (sport, dst_port_chirho, iss_of(k0), 0u32,
                    crate::net_types::TCP_SYN_CHIRHO, crate::net_types::TCP_DEFAULT_WINDOW_CHIRHO))
                    && p@ == tcp_packet_spec(seg, src.addr_chirho, dst_ip_chirho)
            })
        },
{
    let (_g_chirho, iface_chirho) = match route_packet_chirho(routes_chirho, dst_ip_chirho) {
        Err(e_chirho) => return Err(e_chirho),
        Ok(v_chirho) => v_chirho,
    };
    let src_ip_chirho = get_interface_ip_chirho(ips_chirho, iface_chirho);
    let src_port_chirho = alloc_ephemeral_port_chirho(t);
    let fresh_chirho = SocketChirho::new_chirho(2, 1, 0);
    let idx_chirho = match alloc_socket_slot_chirho(t, fresh_chirho) {
        Err(e_chirho) => return Err(e_chirho),
        Ok(i_chirho) => i_chirho,
    };
    let ghost t1 = *t;
    let mut s_chirho = take_slot_chirho(t, idx_chirho).unwrap();
    assert(is_fresh_socket(s_chirho, 2, 1, 0));
    assert(1u64 & 0o4000u64 == 0) by (bit_vector);
    assert(s_chirho.tcb_chirho.state_chirho == TcpStateChirho::ClosedChirho);
    s_chirho.local_addr_chirho = Some(SockAddrInChirho { port_chirho: src_port_chirho, addr_chirho: src_ip_chirho });
    s_chirho.remote_addr_chirho = Some(SockAddrInChirho { port_chirho: dst_port_chirho, addr_chirho: dst_ip_chirho });
    let mut k_chirho = t.iss_counter_chirho;
    let syn_chirho = s_chirho.tcb_chirho.active_open_chirho(src_port_chirho, dst_port_chirho, &mut k_chirho);
    t.iss_counter_chirho = k_chirho;
    let ghost s_final = s_chirho;
    put_slot_chirho(t, idx_chirho, Some(s_chirho));
    match syn_chirho {
        Err(e_chirho) => Err(e_chirho),
        Ok(seg_chirho) => {
            let p_chirho = build_tcp_packet_chirho(&seg_chirho, src_ip_chirho, dst_ip_chirho);
            proof {
                assert(t.slots_chirho@ =~= old(t).slots_chirho@.update(idx_chirho as int, Some(s_final)));
            }
            Ok((idx_chirho, p_chirho))
        },
    }
}

/// What the waiting side of a TCP connect sees after a poll of the
/// network: the slot when the connection is ESTABLISHED or CLOSE_WAIT,
/// `-ECONNREFUSED` when it has fallen back to CLOSED, `None` to poll
/// again (also for a free slot).
pub fn tcp_connect_wait_chirho(t: &SocketTableChirho, idx_chirho: usize) -> (r: Option<Result<usize, i64>>)
    requires
        table_wf(*t),
        idx_chirho < MAX_SOCKETS_CHIRHO,
    ensures
        !occupied(*t, idx_chirho as int) ==> r is None,
        occupied(*t, idx_chirho as int) ==> {
            let st = sock(*t, idx_chirho as int).tcb_chirho.state_chirho;
            if st == TcpStateChirho::EstablishedChirho || st == TcpStateChirho::CloseWaitChirho {
                r == Some(Ok::<usize, i64>(idx_chirho))
            } else if st == TcpStateChirho::ClosedChirho {
                r matches Some(Err(e)) && e == -ECONNREFUSED_CHIRHO
            } else {
                r is None
            }
        },
{
    match &t.slots_chirho[idx_chirho] {
        None => None,
        Some(s_chirho) => {
            let st_chirho = s_chirho.tcb_chirho.state_chirho;
            if st_chirho == TcpStateChirho::EstablishedChirho || st_chirho == TcpStateChirho::CloseWaitChirho {
                Some(Ok(idx_chirho))
            } else if st_chirho == TcpStateChirho::ClosedChirho {
                Some(Err(-ECONNREFUSED_CHIRHO))
            } else {
                None
            }
        },
    }
}

/// The payload of a ping: "lineluya-ping-chirho".
pub open spec fn ping_payload() -> Seq<u8> {
    seq![108u8, 105, 110, 101, 108, 117, 121, 97, 45, 112, 105, 110, 103, 45, 99, 104, 105, 114, 104, 111]
}

/// Ping `dst` through the routed interface: `-ENETUNREACH` without a
/// route; else the echo request from the interface's address, which the
/// caller sends.
pub fn ping_remote_chirho(routes_chirho: &RoutingTableChirho, ips_chirho: &Vec<u32>, counters_chirho: &mut EchoCountersChirho,
    dst_ip_chirho: u32) -> (r: Result<Vec<u8>, i64>)
    ensures
        no_route(routes_chirho@, dst_ip_chirho) ==> (r matches Err(e) && e == -crate::net_types::ENETUNREACH_CHIRHO)
            && *final(counters_chirho) == *old(counters_chirho),
        !no_route(routes_chirho@, dst_ip_chirho) ==> {
            &&& final(counters_chirho).id_chirho == old(counters_chirho).id_chirho
            &&& final(counters_chirho).seq_chirho == next_seq(old(counters_chirho).seq_chirho)
            &&& r matches Ok(p) && exists|src: u32| #[trigger] route_src(routes_chirho@, ips_chirho@, dst_ip_chirho, src)
                && p@ == echo_request_packet_spec(src, dst_ip_chirho, low16(old(counters_chirho).id_chirho),
                    low16(old(counters_chirho).seq_chirho), ping_payload())
        },
{
    let (_g_chirho, iface_chirho) = match route_packet_chirho(routes_chirho, dst_ip_chirho) {
        Err(e_chirho) => return Err(e_chirho),
        Ok(v_chirho) => v_chirho,
    };
    let src_ip_chirho = get_interface_ip_chirho(ips_chirho, iface_chirho);
    let payload_chirho: Vec<u8> = vec![108, 105, 110, 101, 108, 117, 121, 97, 45, 112, 105, 110, 103, 45, 99, 104, 105, 114, 104, 111];
    assert(payload_chirho@ =~= ping_payload());
    match send_icmp_echo_request_chirho(counters_chirho, src_ip_chirho, dst_ip_chirho, payload_chirho.as_slice()) {
        Some(p_chirho) => {
            assert(route_src(routes_chirho@, ips_chirho@, dst_ip_chirho, src_ip_chirho));
            Ok(p_chirho)
        },
        None => Err(-EINVAL_CHIRHO),
    }
}

/// Whether a hostname goes to the DNS server through a real interface:
/// only with an interface besides the loopback and a DNS server. Without
/// them the query is still built (its transaction counter advances) but
/// nothing is sent and nothing is resolved.
pub fn resolve_hostname_chirho(nic_count_chirho: usize, dns_server_chirho: u32, txid_counter_chirho: &mut u64,
    hostname_chirho: &str) -> (r: bool)
    ensures
        r == (nic_count_chirho > 1 && dns_server_chirho != 0),
        r ==> *final(txid_counter_chirho) == *old(txid_counter_chirho),
        !r ==> *final(txid_counter_chirho) == (if *old(txid_counter_chirho) == u64::MAX { 0 } else { *old(txid_counter_chirho) + 1 }),
{
    if nic_count_chirho > 1 && dns_server_chirho != 0 {
        return true;
    }
    let _query_chirho = build_dns_query_chirho(txid_counter_chirho, hostname_chirho);
    false
}

/// A DNS query on its way: the packet to send, the port the answer comes
/// back to, and the interface it leaves by.
pub struct DnsRequestChirho {
    pub packet_chirho: Vec<u8>,
    pub src_port_chirho: u16,
    pub iface_chirho: usize,
}

/// Start resolving `hostname` through the DNS server `dns`: `None` without
/// a server; else the query is built (the transaction counter advances)
/// and an ephemeral port taken; `None` without a route to the server or
/// when the query cannot fit an IPv4 packet; else the UDP packet from the
/// interface's address to port 53 of the server. The caller sends it and
/// hands each frame that arrives to `dns_frame_chirho`.
#[verifier::spinoff_prover]
pub fn resolve_hostname_real_chirho(routes_chirho: &RoutingTableChirho, ips_chirho: &Vec<u32>, t: &mut SocketTableChirho,
    dns_chirho: u32, txid_counter_chirho: &mut u64, hostname_chirho: &str) -> (r: Option<DnsRequestChirho>)
    requires
        table_wf(*old(t)),
        port_counter_ok(*old(t)),
    ensures
        table_wf(*final(t)),
        final(t).slots_chirho@ == old(t).slots_chirho@,
        final(t).iss_counter_chirho == old(t).iss_counter_chirho,
        dns_chirho == 0 ==> r is None && final(t).next_ephemeral_chirho == old(t).next_ephemeral_chirho
            && *final(txid_counter_chirho) == *old(txid_counter_chirho),
        dns_chirho != 0 ==> {
            let query = dns_query_spec(txid_of(*old(txid_counter_chirho)), hostname_chirho.spec_bytes());
            let sport = ephemeral_port_spec(old(t).next_ephemeral_chirho);
            &&& *final(txid_counter_chirho) == (if *old(txid_counter_chirho) == u64::MAX { 0 } else { *old(txid_counter_chirho) + 1 })
            &&& final(t).next_ephemeral_chirho == old(t).next_ephemeral_chirho + 1
            &&& (no_route(routes_chirho@, dns_chirho) || query.len() + 20 > 131074) ==> r is None
            &&& !(no_route(routes_chirho@, dns_chirho) || query.len() + 20 > 131074) ==> (r matches Some(q) && {
                &&& q.src_port_chirho == sport
                &&& exists|g: u32| #[trigger] lookup_result(routes_chirho@, dns_chirho, Some((g, q.iface_chirho)))
                &&& q.packet_chirho@ == udp_packet_spec(iface_ip_spec(ips_chirho@, q.iface_chirho as int), dns_chirho, sport,
                    DNS_PORT_CHIRHO, query)
            })
        },
{
    if dns_chirho == 0 {
        return None;
    }
    let query_chirho = build_dns_query_chirho(txid_counter_chirho, hostname_chirho);
    let src_port_chirho = alloc_ephemeral_port_chirho(t);
    let (g_chirho, iface_chirho) = match route_packet_chirho(routes_chirho, dns_chirho) {
        Err(_) => return None,
        Ok(v_chirho) => v_chirho,
    };
    assert(lookup_result(routes_chirho@, dns_chirho, Some((g_chirho, iface_chirho))));
    if query_chirho.len() > 131054 {
        return None;
    }
    let src_ip_chirho = get_interface_ip_chirho(ips_chirho, iface_chirho);
    let packet_chirho = build_udp_packet_chirho(src_ip_chirho, dns_chirho, src_port_chirho, DNS_PORT_CHIRHO,
        query_chirho.as_slice());
    let q_chirho = DnsRequestChirho { packet_chirho, src_port_chirho, iface_chirho };
    assert(lookup_result(routes_chirho@, dns_chirho, Some((g_chirho, q_chirho.iface_chirho))));
    Some(q_chirho)
}

/// The address a DNS answer to port `sport` carries in the IPv4 packet
/// `ip`: a UDP datagram from port 53 to `sport` whose answers are not
/// empty gives the first one's address.
pub open spec fn dns_reply_addr(ip: Seq<u8>, sport: u16) -> Option<u32> {
    match ipv4_parse_spec(ip) {
        None => None,
        Some(h) => {
            let hl = h.ihl_chirho as int * 4;
            if h.protocol_chirho != crate::net_types::IP_PROTO_UDP_CHIRHO || ip.len() <= hl {
                None
            } else {
                let d = ip.subrange(hl, ip.len() as int);
                if d.len() < 8 {
                    None
                } else {
                    let answers = dns_answers_spec(d.subrange(8, 8 + udp_payload_len_spec(d)));
                    if be16_spec(d[2], d[3]) == sport && be16_spec(d[0], d[1]) == DNS_PORT_CHIRHO && answers.len() > 0 {
                        Some(answers[0].addr_chirho)
                    } else {
                        None
                    }
                }
            }
        },
    }
}

/// What a frame that arrives while waiting for a DNS answer is.
pub enum DnsFrameChirho {
    /// An ARP packet, to be handled as usual.
    ArpChirho(ArpPacketChirho),
    /// The answer: the first address.
    AnswerChirho(u32),
    /// Anything else.
    IgnoreChirho,
}

/// Sort a frame that arrives while waiting for the answer to port
/// `sport`: ARP packets, the answer (as `dns_reply_addr` reads it from an
/// IPv4 frame), or neither.
pub fn dns_frame_chirho(frame_chirho: &[u8], sport_chirho: u16) -> (r: DnsFrameChirho)
    requires
        frame_chirho@.len() + 0x50000 <= usize::MAX,
    ensures
        frame_chirho@.len() < 14 ==> r is IgnoreChirho,
        frame_chirho@.len() >= 14 ==> {
            let ty = be16_spec(frame_chirho@[12], frame_chirho@[13]);
            let payload = frame_chirho@.subrange(14, frame_chirho@.len() as int);
            if ty == crate::net_types::ETHERTYPE_ARP_CHIRHO {
                if payload.len() < 28 { r is IgnoreChirho } else { r matches DnsFrameChirho::ArpChirho(a) && arp_parsed_from(a, payload) }
            } else if ty == crate::net_types::ETHERTYPE_IPV4_CHIRHO {
                match dns_reply_addr(payload, sport_chirho) {
                    Some(x) => r matches DnsFrameChirho::AnswerChirho(y) && y == x,
                    None => r is IgnoreChirho,
                }
            } else {
                r is IgnoreChirho
            }
        },
{
    let eth_chirho = match EthernetFrameChirho::parse_chirho(frame_chirho) {
        None => return DnsFrameChirho::IgnoreChirho,
        Some(f_chirho) => f_chirho,
    };
    let payload_chirho = &eth_chirho.payload_chirho;
    if eth_chirho.ethertype_chirho == crate::net_types::ETHERTYPE_ARP_CHIRHO {
        return match ArpPacketChirho::parse_chirho(payload_chirho.as_slice()) {
            Some(a_chirho) => DnsFrameChirho::ArpChirho(a_chirho),
            None => DnsFrameChirho::IgnoreChirho,
        };
    }
    if eth_chirho.ethertype_chirho != crate::net_types::ETHERTYPE_IPV4_CHIRHO {
        return DnsFrameChirho::IgnoreChirho;
    }
    let h_chirho = match Ipv4HeaderChirho::parse_chirho(payload_chirho.as_slice()) {
        None => return DnsFrameChirho::IgnoreChirho,
        Some(h_chirho) => h_chirho,
    };
    if h_chirho.protocol_chirho != crate::net_types::IP_PROTO_UDP_CHIRHO {
        return DnsFrameChirho::IgnoreChirho;
    }
    let hl_chirho = (h_chirho.ihl_chirho as usize) * 4;
    if payload_chirho.len() <= hl_chirho {
        return DnsFrameChirho::IgnoreChirho;
    }
    let udp_bytes_chirho = crate::bytes::copy_range_chirho(payload_chirho.as_slice(), hl_chirho, payload_chirho.len());
    let u_chirho = match UdpDatagramChirho::parse_chirho(udp_bytes_chirho.as_slice()) {
        None => return DnsFrameChirho::IgnoreChirho,
        Some(u_chirho) => u_chirho,
    };
    if u_chirho.dst_port_chirho != sport_chirho || u_chirho.src_port_chirho != DNS_PORT_CHIRHO {
        return DnsFrameChirho::IgnoreChirho;
    }
    let answers_chirho = parse_dns_response_chirho(u_chirho.payload_chirho.as_slice());
    if answers_chirho.len() == 0 {
        return DnsFrameChirho::IgnoreChirho;
    }
    DnsFrameChirho::AnswerChirho(answers_chirho[0].addr_chirho)
}

/// What one frame received on an interface leaves to send: an ARP reply
/// frame for that interface, and the echo reply and TCP packet to route.
pub struct FrameOutcomeChirho {
    pub arp_reply_chirho: Option<Vec<u8>>,
    pub ip_reply_chirho: Option<Vec<u8>>,
    pub tcp_out_chirho: Option<Vec<u8>>,
}

/// Handle one frame received on interface `iface` (MAC `our_mac`): an ARP
/// packet updates the cache and may be answered (as `handle_arp_chirho`
/// does, for the interface's address); an IPv4 packet goes to the stack;
/// anything else, or a frame too short, is dropped. The caller drains each
/// device and calls this for every frame.
pub fn poll_network_chirho(cfg_chirho: &mut NetConfigChirho, t: &mut SocketTableChirho, iface_chirho: usize, our_mac_chirho: [u8; 6],
    frame_chirho: &[u8]) -> (r: FrameOutcomeChirho)
    requires
        table_wf(*old(t)),
        frame_chirho@.len() <= 131088,
    ensures
        table_wf(*final(t)),
        final(t).next_ephemeral_chirho == old(t).next_ephemeral_chirho,
        final(cfg_chirho).routes_chirho@ == old(cfg_chirho).routes_chirho@,
        final(cfg_chirho).iface_ips_chirho@ == old(cfg_chirho).iface_ips_chirho@,
        ({
            let d = frame_chirho@;
            let ty = be16_spec(d[12], d[13]);
            let payload = d.subrange(14, d.len() as int);
            let quiet = r.arp_reply_chirho is None && r.ip_reply_chirho is None && r.tcp_out_chirho is None;
            let same_cache = final(cfg_chirho).arp_cache_chirho@ == old(cfg_chirho).arp_cache_chirho@;
            let same_t = unchanged(*final(t), *old(t));
            if d.len() < 14 {
                quiet && same_cache && same_t
            } else if ty == crate::net_types::ETHERTYPE_ARP_CHIRHO {
                &&& same_t
                &&& r.ip_reply_chirho is None && r.tcp_out_chirho is None
                &&& if payload.len() < 28 {
                    r.arp_reply_chirho is None && same_cache
                } else {
                    exists|a: ArpPacketChirho| #[trigger] arp_parsed_from(a, payload)
                        && final(cfg_chirho).arp_cache_chirho@ == arp_insert_spec(old(cfg_chirho).arp_cache_chirho@,
                            a.sender_pa_chirho, a.sender_ha_chirho)
                        && arp_reply_outcome(a, iface_ip_spec(old(cfg_chirho).iface_ips_chirho@, iface_chirho as int),
                            our_mac_chirho, r.arp_reply_chirho)
                }
            } else if ty == crate::net_types::ETHERTYPE_IPV4_CHIRHO {
                &&& same_cache
                &&& r.arp_reply_chirho is None
                &&& ipv4_outcome(*old(t), *final(t), payload, (r.ip_reply_chirho, r.tcp_out_chirho))
            } else {
                quiet && same_cache && same_t
            }
        }),
{
    let eth_chirho = match EthernetFrameChirho::parse_chirho(frame_chirho) {
        None => return FrameOutcomeChirho { arp_reply_chirho: None, ip_reply_chirho: None, tcp_out_chirho: None },
        Some(f_chirho) => f_chirho,
    };
    if eth_chirho.ethertype_chirho == crate::net_types::ETHERTYPE_ARP_CHIRHO {
        match ArpPacketChirho::parse_chirho(eth_chirho.payload_chirho.as_slice()) {
            None => FrameOutcomeChirho { arp_reply_chirho: None, ip_reply_chirho: None, tcp_out_chirho: None },
            Some(a_chirho) => {
                let our_ip_chirho = get_interface_ip_chirho(&cfg_chirho.iface_ips_chirho, iface_chirho);
                let reply_chirho = handle_arp_chirho(&mut cfg_chirho.arp_cache_chirho, &a_chirho, our_ip_chirho, our_mac_chirho);
                FrameOutcomeChirho { arp_reply_chirho: reply_chirho, ip_reply_chirho: None, tcp_out_chirho: None }
            },
        }
    } else if eth_chirho.ethertype_chirho == crate::net_types::ETHERTYPE_IPV4_CHIRHO {
        let (ip_reply_chirho, tcp_out_chirho) = process_ipv4_packet_chirho(t, eth_chirho.payload_chirho.as_slice());
        FrameOutcomeChirho { arp_reply_chirho: None, ip_reply_chirho, tcp_out_chirho }
    } else {
        FrameOutcomeChirho { arp_reply_chirho: None, ip_reply_chirho: None, tcp_out_chirho: None }
    }
}

/// Bring networking up once the loopback device has been registered after
/// `devices_before` other devices: the routing table is set to its
/// defaults and the loopback (the last device) gets 127.0.0.1. Whether DHCP
/// is to run on interface 0 is returned: when a device other than the
/// loopback exists.
pub fn init_networking_chirho(cfg_chirho: &mut NetConfigChirho, devices_before_chirho: usize) -> (r: bool)
    requires
        devices_before_chirho < usize::MAX,
    ensures
        final(cfg_chirho).routes_chirho@ == seq![crate::route::loopback_route_spec(), crate::route::default_route_spec()],
        iface_ip_spec(final(cfg_chirho).iface_ips_chirho@, devices_before_chirho as int) == crate::ipv4::LOOPBACK_IP_CHIRHO,
        forall|k: int| k != devices_before_chirho ==> #[trigger] iface_ip_spec(final(cfg_chirho).iface_ips_chirho@, k)
            == iface_ip_spec(old(cfg_chirho).iface_ips_chirho@, k),
        final(cfg_chirho).arp_cache_chirho@ == old(cfg_chirho).arp_cache_chirho@,
        final(cfg_chirho).iface_cfg_chirho@ == old(cfg_chirho).iface_cfg_chirho@,
        final(cfg_chirho).dns_server_chirho == old(cfg_chirho).dns_server_chirho,
        final(cfg_chirho).gateway_chirho == old(cfg_chirho).gateway_chirho,
        r == (devices_before_chirho >= 1),
{
    cfg_chirho.routes_chirho = crate::route::init_routing_table_chirho();
    let ghost ips0 = cfg_chirho.iface_ips_chirho@;
    set_interface_ip_chirho(&mut cfg_chirho.iface_ips_chirho, devices_before_chirho, crate::ipv4::LOOPBACK_IP_CHIRHO);
    proof {
        assert forall|k: int| k != devices_before_chirho implies #[trigger] iface_ip_spec(cfg_chirho.iface_ips_chirho@, k)
            == iface_ip_spec(ips0, k) by {
            if 0 <= k < cfg_chirho.iface_ips_chirho@.len() {
                assert(cfg_chirho.iface_ips_chirho@[k] == iface_ip_spec(ips0, k));
            }
        }
        assert(cfg_chirho.iface_ips_chirho@[devices_before_chirho as int] == crate::ipv4::LOOPBACK_IP_CHIRHO);
    }
    devices_before_chirho >= 1
}

/// The legacy 10-byte header a VirtIO network device puts before every
/// frame.
#[derive(Debug, Clone, Copy)]
pub struct VirtioNetHdrChirho {
    pub flags_chirho: u8,
    pub gso_type_chirho: u8,
    pub hdr_len_chirho: u16,
    pub gso_size_chirho: u16,
    pub csum_start_chirho: u16,
    pub csum_offset_chirho: u16,
}

/// Size of the VirtIO network header in bytes.
pub const VIRTIO_NET_HDR_SIZE_CHIRHO: usize = 10;
/// Largest Ethernet frame a device buffer holds: the MTU, the header and
/// room for the checksum.
pub const MAX_FRAME_SIZE_CHIRHO: usize = 1518;

impl Default for VirtioNetHdrChirho {
    /// No offloads: every field zero.
    fn default() -> (r: Self)
        ensures
            r.flags_chirho == 0 && r.gso_type_chirho == 0 && r.hdr_len_chirho == 0 && r.gso_size_chirho == 0
                && r.csum_start_chirho == 0 && r.csum_offset_chirho == 0,
    {
        VirtioNetHdrChirho {
            flags_chirho: 0,
            gso_type_chirho: 0,
            hdr_len_chirho: 0,
            gso_size_chirho: 0,
            csum_start_chirho: 0,
            csum_offset_chirho: 0,
        }
    }
}

impl VirtioNetHdrChirho {
    /// The header's bytes as the device reads them: little-endian fields.
    pub fn to_bytes_chirho(&self) -> (r: [u8; 10])
        ensures
            r@ == seq![self.flags_chirho, self.gso_type_chirho,
                (self.hdr_len_chirho % 256) as u8, (self.hdr_len_chirho / 256) as u8,
                (self.gso_size_chirho % 256) as u8, (self.gso_size_chirho / 256) as u8,
                (self.csum_start_chirho % 256) as u8, (self.csum_start_chirho / 256) as u8,
                (self.csum_offset_chirho % 256) as u8, (self.csum_offset_chirho / 256) as u8],
    {
        let r = [self.flags_chirho, self.gso_type_chirho,
            (self.hdr_len_chirho % 256) as u8, (self.hdr_len_chirho / 256) as u8,
            (self.gso_size_chirho % 256) as u8, (self.gso_size_chirho / 256) as u8,
            (self.csum_start_chirho % 256) as u8, (self.csum_start_chirho / 256) as u8,
            (self.csum_offset_chirho % 256) as u8, (self.csum_offset_chirho / 256) as u8];
        assert(r@ =~= seq![self.flags_chirho, self.gso_type_chirho,
                (self.hdr_len_chirho % 256) as u8, (self.hdr_len_chirho / 256) as u8,
                (self.gso_size_chirho % 256) as u8, (self.gso_size_chirho / 256) as u8,
                (self.csum_start_chirho % 256) as u8, (self.csum_start_chirho / 256) as u8,
                (self.csum_offset_chirho % 256) as u8, (self.csum_offset_chirho / 256) as u8]);
        r
    }
}

/// The local port whose connection the SSH relay feeds.
pub const RELAY_PORT_CHIRHO: u16 = 2222;

/// The most payload one relayed segment carries: an Ethernet MTU of 1500
/// less 20 bytes of IPv4 and 20 of TCP header.
pub const RELAY_MSS_CHIRHO: usize = 1460;

/// `s` is a connection the relay may use: IPv4, ESTABLISHED or CLOSE_WAIT,
/// bound to the relay port.
pub open spec fn relay_match(s: SocketChirho) -> bool {
    &&& s.family_chirho == 2
    &&& (s.tcb_chirho.state_chirho == TcpStateChirho::EstablishedChirho
        || s.tcb_chirho.state_chirho == TcpStateChirho::CloseWaitChirho)
    &&& s.local_addr_chirho matches Some(a) && a.port_chirho == RELAY_PORT_CHIRHO
}

/// Slot `i` holds a connection the relay may use.
pub open spec fn is_relay_slot(t: SocketTableChirho, i: int) -> bool {
    occupied(t, i) && relay_match(sock(t, i))
}

/// Slot `i` is the first that the relay may use.
pub open spec fn first_relay_slot(t: SocketTableChirho, i: int) -> bool {
    is_relay_slot(t, i) && forall|j: int| 0 <= j < i ==> !#[trigger] is_relay_slot(t, j)
}

/// The `k`-th piece of `data` the relay sends: bytes `1460 k` up to
/// `1460 (k + 1)`, or to the end.
pub open spec fn relay_chunk(data: Seq<u8>, k: int) -> Seq<u8> {
    data.subrange(k * 1460, if (k + 1) * 1460 <= data.len() { (k + 1) * 1460 } else { data.len() as int })
}

/// How many segments the relay sends for `n` bytes.
pub open spec fn relay_chunk_count(n: int) -> int {
    (n + 1459) / 1460
}

proof fn lemma_wadd_add(x: u32, a: int, b: int)
    ensures
        wadd(wadd(x, a), b) == wadd(x, a + b),
{
    vstd::arithmetic::div_mod::lemma_add_mod_noop_right(b, x as int + a, 0x1_0000_0000);
    assert((b + (x as int + a)) == x as int + (a + b));
}

/// Forward `data` to the first connection on the relay port: cut into
/// segments of at most 1460 bytes, each sent from `iface_ip` (the first
/// interface's address) as the next segment of the connection, SND.NXT
/// advancing past each. Nothing happens for empty data or when no such
/// connection exists. The packets are returned in order for the caller to
/// send.
pub fn relay_to_tcp_2222_chirho(t: &mut SocketTableChirho, iface_ip_chirho: u32, data_chirho: &[u8]) -> (r: Vec<Vec<u8>>)
    requires
        table_wf(*old(t)),
    ensures
        table_wf(*final(t)),
        final(t).next_ephemeral_chirho == old(t).next_ephemeral_chirho,
        final(t).iss_counter_chirho == old(t).iss_counter_chirho,
        (data_chirho@.len() == 0 || forall|i: int| 0 <= i < MAX_SOCKETS_CHIRHO ==> !#[trigger] is_relay_slot(*old(t), i))
            ==> final(t).slots_chirho@ == old(t).slots_chirho@ && r@.len() == 0,
        forall|i: int| data_chirho@.len() > 0 && #[trigger] first_relay_slot(*old(t), i) ==> {
            let s = sock(*old(t), i);
            &&& final(t).slots_chirho@ == old(t).slots_chirho@.update(i, Some(after_send(s, data_chirho@.len() as int)))
            &&& r@.len() == relay_chunk_count(data_chirho@.len() as int)
            &&& forall|k: int| 0 <= k < r@.len() ==> data_packet_from(after_send(s, k * 1460),
                relay_chunk(data_chirho@, k), iface_ip_chirho, #[trigger] r@[k]@)
        },
{
    let mut out_chirho: Vec<Vec<u8>> = Vec::new();
    if data_chirho.len() == 0 {
        return out_chirho;
    }
    let mut found_chirho: Option<usize> = None;
    let mut i_chirho: usize = 0;
    while i_chirho < t.slots_chirho.len()
        invariant_except_break
            found_chirho is None,
        invariant
            table_wf(*t),
            i_chirho <= t.slots_chirho@.len(),
            forall|j: int| 0 <= j < i_chirho ==> !#[trigger] is_relay_slot(*t, j),
        ensures
            match found_chirho {
                Some(f) => first_relay_slot(*t, f as int),
                None => forall|j: int| 0 <= j < MAX_SOCKETS_CHIRHO ==> !#[trigger] is_relay_slot(*t, j),
            },
        decreases t.slots_chirho@.len() - i_chirho,
    {
        let hit_chirho = match &t.slots_chirho[i_chirho] {
            Some(s_chirho) => s_chirho.family_chirho == 2
                && (s_chirho.tcb_chirho.state_chirho == TcpStateChirho::EstablishedChirho
                    || s_chirho.tcb_chirho.state_chirho == TcpStateChirho::CloseWaitChirho)
                && match s_chirho.local_addr_chirho { Some(a) => a.port_chirho == RELAY_PORT_CHIRHO, None => false },
            None => false,
        };
        if hit_chirho {
            found_chirho = Some(i_chirho);
            break;
        }
        i_chirho = i_chirho + 1;
    }
    let idx_chirho = match found_chirho {
        Some(f) => f,
        None => return out_chirho,
    };
    let ghost t0 = *t;
    let ghost s0 = sock(*t, idx_chirho as int);
    let len_chirho = data_chirho.len();
    let mut offset_chirho: usize = 0;
    while offset_chirho < len_chirho
        invariant
            table_wf(*t),
            len_chirho == data_chirho@.len(),
            len_chirho > 0,
            idx_chirho < MAX_SOCKETS_CHIRHO,
            t.next_ephemeral_chirho == t0.next_ephemeral_chirho,
            t.iss_counter_chirho == t0.iss_counter_chirho,
            s0 == sock(t0, idx_chirho as int),
            occupied(t0, idx_chirho as int),
            relay_match(s0),
            offset_chirho <= len_chirho,
            offset_chirho < len_chirho ==> offset_chirho == out_chirho@.len() * 1460,
            offset_chirho == len_chirho ==> out_chirho@.len() == relay_chunk_count(len_chirho as int),
            t.slots_chirho@ == t0.slots_chirho@.update(idx_chirho as int, Some(after_send(s0, offset_chirho as int))),
            forall|k: int| 0 <= k < out_chirho@.len() ==> data_packet_from(after_send(s0, k * 1460),
                relay_chunk(data_chirho@, k), iface_ip_chirho, #[trigger] out_chirho@[k]@),
        decreases len_chirho - offset_chirho,
    {
        let end_chirho: usize = if len_chirho - offset_chirho > RELAY_MSS_CHIRHO { offset_chirho + RELAY_MSS_CHIRHO } else { len_chirho };
        let chunk_chirho = copy_range_chirho(data_chirho, offset_chirho, end_chirho);
        let ghost k = out_chirho@.len() as int;
        let ghost out0 = out_chirho@;
        proof {
            assert(sock(*t, idx_chirho as int) == after_send(s0, offset_chirho as int));
            assert(chunk_chirho@ == relay_chunk(data_chirho@, k));
        }
        let sent_chirho = tcp_transmit_from_chirho(t, idx_chirho, chunk_chirho.as_slice(), iface_ip_chirho);
        let packet_chirho = match sent_chirho { Some(p) => p, None => Vec::new() };
        out_chirho.push(packet_chirho);
        proof {
            lemma_wadd_add(s0.tcb_chirho.snd_nxt_chirho, offset_chirho as int, (end_chirho - offset_chirho) as int);
            assert(after_send(after_send(s0, offset_chirho as int), (end_chirho - offset_chirho) as int)
                == after_send(s0, end_chirho as int));
            assert(t.slots_chirho@ =~= t0.slots_chirho@.update(idx_chirho as int, Some(after_send(s0, end_chirho as int))));
            assert forall|j: int| 0 <= j < out_chirho@.len() implies data_packet_from(after_send(s0, j * 1460),
                relay_chunk(data_chirho@, j), iface_ip_chirho, #[trigger] out_chirho@[j]@) by {
                if j < k {
                    assert(out_chirho@[j] == out0[j]);
                }
            }
            if end_chirho == len_chirho {
                assert(relay_chunk_count(len_chirho as int) == k + 1);
            }
        }
        offset_chirho = end_chirho;
    }
    proof {
        assert(first_relay_slot(t0, idx_chirho as int));
    }
    out_chirho
}

/// The Ethernet frame in receive buffer `desc_id` of which the device
/// wrote `bytes_written` bytes: the bytes after the virtio-net header, when
/// the descriptor names a buffer and it holds more than the header.
pub fn virtio_rx_frame_chirho(rx_buffers_chirho: &Vec<Vec<u8>>, desc_id_chirho: usize, bytes_written_chirho: usize) -> (r: Option<Vec<u8>>)
    requires
        desc_id_chirho < rx_buffers_chirho@.len() && bytes_written_chirho > VIRTIO_NET_HDR_SIZE_CHIRHO
            ==> bytes_written_chirho <= rx_buffers_chirho@[desc_id_chirho as int]@.len(),
    ensures
        (desc_id_chirho < rx_buffers_chirho@.len() && bytes_written_chirho > VIRTIO_NET_HDR_SIZE_CHIRHO) <==> r is Some,
        r matches Some(f) ==> f@ == rx_buffers_chirho@[desc_id_chirho as int]@.subrange(VIRTIO_NET_HDR_SIZE_CHIRHO as int,
            bytes_written_chirho as int),
{
    if desc_id_chirho < rx_buffers_chirho.len() && bytes_written_chirho > VIRTIO_NET_HDR_SIZE_CHIRHO {
        Some(copy_range_chirho(rx_buffers_chirho[desc_id_chirho].as_slice(), VIRTIO_NET_HDR_SIZE_CHIRHO, bytes_written_chirho))
    } else {
        None
    }
}

/// The used-ring slot of running index `last_used` in a ring of `size`
/// entries.
pub fn virtio_ring_slot_chirho(last_used_chirho: u16, size_chirho: u16) -> (r: usize)
    requires
        size_chirho > 0,
    ensures
        r == last_used_chirho % size_chirho,
        r < size_chirho,
{
    (last_used_chirho % size_chirho) as usize
}

/// The MMIO base a virtio-net PCI function's BAR0 gives: `None` for an
/// I/O-space BAR (bit 0 set) or a zero base; else the BAR with its low four
/// flag bits cleared.
pub fn virtio_mmio_base_from_bar_chirho(bar0_chirho: u32) -> (r: Option<u32>)
    ensures
        r == (if bar0_chirho & 1 != 0 || bar0_chirho & 0xFFFF_FFF0 == 0 { None } else { Some(bar0_chirho & 0xFFFF_FFF0) }),
{
    if bar0_chirho & 1 != 0 {
        return None;
    }
    let base_chirho = bar0_chirho & 0xFFFF_FFF0;
    if base_chirho == 0 { None } else { Some(base_chirho) }
}

} // verus!
