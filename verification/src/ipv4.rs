//! IPv4 packet assembly: echo replies and requests, UDP packets, and the
//! address helpers used by the stack.

use vstd::prelude::*;
use crate::bytes::{be32_chirho, be32_spec, push_all_chirho, set_u16_be_chirho, u16_be_spec};
use crate::checksum::checksum_spec;
use crate::packets::{
    echo_bytes_spec, ipv4_bytes_spec, pseudo_header_spec, tcp_bytes_spec, tcp_checksum_spec, udp_checksummed_bytes_spec,
    IcmpPacketChirho, Ipv4HeaderChirho, TcpSegmentChirho, UdpDatagramChirho,
};
use crate::net_types::{
    ICMP_ECHO_REPLY_CHIRHO, ICMP_ECHO_REQUEST_CHIRHO, IP_PROTO_ICMP_CHIRHO, IP_PROTO_TCP_CHIRHO, IP_PROTO_UDP_CHIRHO,
    TCP_ACK_CHIRHO, TCP_DEFAULT_WINDOW_CHIRHO, TCP_SYN_CHIRHO,
};

verus! {

/// IP address assigned to the loopback interface (127.0.0.1).
pub const LOOPBACK_IP_CHIRHO: u32 = 0x7F000001;

/// The low 16 bits of `x`.
pub open spec fn low16(x: u64) -> u16 {
    (x % 65536) as u16
}

fn low16_chirho(x: u64) -> (r: u16)
    ensures
        r == low16(x),
{
    (x % 65536) as u16
}

/// Total length of an IPv4 packet with a 20-byte header and `n` payload
/// bytes, in the 16 bits of the field.
fn total_len_chirho(n: usize) -> (r: u16)
    ensures
        r == ((20 + n) % 65536) as u16,
{
    ((n as u64 % 65536 + 20) % 65536) as u16
}

/// The header that the stack puts in front of a payload of `payload_len`
/// bytes it originates: version 4, five words, TTL 64, id and fragment
/// offset zero; the total length keeps its low 16 bits.
pub open spec fn outgoing_header_spec(src: u32, dst: u32, proto: u8, flags: u8, payload_len: nat) -> Ipv4HeaderChirho {
    Ipv4HeaderChirho {
        version_chirho: 4,
        ihl_chirho: 5,
        tos_chirho: 0,
        total_length_chirho: ((20 + payload_len) % 65536) as u16,
        id_chirho: 0,
        flags_chirho: flags,
        fragment_offset_chirho: 0,
        ttl_chirho: 64,
        protocol_chirho: proto,
        checksum_chirho: 0,
        src_ip_chirho: src,
        dst_ip_chirho: dst,
    }
}

fn outgoing_header_chirho(src: u32, dst: u32, proto: u8, flags: u8, payload_len: usize) -> (r: Ipv4HeaderChirho)
    ensures
        r == outgoing_header_spec(src, dst, proto, flags, payload_len as nat),
{
    Ipv4HeaderChirho {
        version_chirho: 4,
        ihl_chirho: 5,
        tos_chirho: 0,
        total_length_chirho: total_len_chirho(payload_len),
        id_chirho: 0,
        flags_chirho: flags,
        fragment_offset_chirho: 0,
        ttl_chirho: 64,
        protocol_chirho: proto,
        checksum_chirho: 0,
        src_ip_chirho: src,
        dst_ip_chirho: dst,
    }
}

/// The address with octets `a.b.c.d`.
pub fn ip4_chirho(a_chirho: u8, b_chirho: u8, c_chirho: u8, d_chirho: u8) -> (r: u32)
    ensures
        r == be32_spec(a_chirho, b_chirho, c_chirho, d_chirho),
        r as int == a_chirho as int * 0x1000000 + b_chirho as int * 0x10000 + c_chirho as int * 256 + d_chirho as int,
{
    be32_chirho(a_chirho, b_chirho, c_chirho, d_chirho)
}

/// Whether `addr` lies in 127.0.0.0/8.
pub open spec fn is_loopback_spec(addr: u32) -> bool {
    addr / 0x1000000 == 127
}

/// Whether a destination is a loopback address (127.0.0.0/8).
pub fn is_loopback_addr_chirho(addr_chirho: u32) -> (r: bool)
    ensures
        r == is_loopback_spec(addr_chirho),
{
    addr_chirho / 0x1000000 == 127
}

/// The bytes of the packet that answers an echo request carried in a
/// packet with header `h`: addresses swapped, type reply, same identifier,
/// sequence number and data.
pub open spec fn echo_reply_packet_spec(h: Ipv4HeaderChirho, id: u16, seqno: u16, data: Seq<u8>) -> Seq<u8> {
    ipv4_bytes_spec(outgoing_header_spec(h.dst_ip_chirho, h.src_ip_chirho, IP_PROTO_ICMP_CHIRHO, 0, 8 + data.len()))
        + echo_bytes_spec(ICMP_ECHO_REPLY_CHIRHO, 0, id, seqno, data)
}

/// Answer an echo request: `None` for any other message type, else the
/// reply packet (IPv4 header and echo reply).
pub fn handle_icmp_echo_chirho(ip_hdr_chirho: &Ipv4HeaderChirho, icmp_chirho: &IcmpPacketChirho) -> (r: Option<Vec<u8>>)
    requires
        icmp_chirho.data_chirho@.len() + 8 <= 131074,
    ensures
        r is None <==> icmp_chirho.type_chirho != ICMP_ECHO_REQUEST_CHIRHO,
        r matches Some(p) ==> p@ == echo_reply_packet_spec(*ip_hdr_chirho, icmp_chirho.id_chirho,
            icmp_chirho.sequence_chirho, icmp_chirho.data_chirho@),
{
    if icmp_chirho.type_chirho != ICMP_ECHO_REQUEST_CHIRHO {
        return None;
    }
    let reply_chirho = IcmpPacketChirho {
        type_chirho: ICMP_ECHO_REPLY_CHIRHO,
        code_chirho: 0,
        checksum_chirho: 0,
        id_chirho: icmp_chirho.id_chirho,
        sequence_chirho: icmp_chirho.sequence_chirho,
        data_chirho: icmp_chirho.data_chirho.clone(),
    };
    let body_chirho = reply_chirho.build_chirho();
    let hdr_chirho = outgoing_header_chirho(ip_hdr_chirho.dst_ip_chirho, ip_hdr_chirho.src_ip_chirho,
        IP_PROTO_ICMP_CHIRHO, 0, body_chirho.len());
    let mut packet_chirho = hdr_chirho.build_chirho();
    push_all_chirho(&mut packet_chirho, body_chirho.as_slice());
    Some(packet_chirho)
}

/// The identifier and sequence counters of outgoing echo requests.
#[derive(Debug, Clone, Copy)]
pub struct EchoCountersChirho {
    pub id_chirho: u64,
    pub seq_chirho: u64,
}

impl EchoCountersChirho {
    /// Both counters start at one.
    pub fn new_chirho() -> (r: EchoCountersChirho)
        ensures
            r.id_chirho == 1,
            r.seq_chirho == 1,
    {
        EchoCountersChirho { id_chirho: 1, seq_chirho: 1 }
    }
}

/// The sequence counter after one request: one more, wrapping at 2^64.
pub open spec fn next_seq(x: u64) -> u64 {
    if x == u64::MAX { 0 } else { (x + 1) as u64 }
}

/// The bytes of an echo request from `src` to `dst`: Don't Fragment set.
pub open spec fn echo_request_packet_spec(src: u32, dst: u32, id: u16, seqno: u16, data: Seq<u8>) -> Seq<u8> {
    ipv4_bytes_spec(outgoing_header_spec(src, dst, IP_PROTO_ICMP_CHIRHO, 2, 8 + data.len()))
        + echo_bytes_spec(ICMP_ECHO_REQUEST_CHIRHO, 0, id, seqno, data)
}

/// Build an echo request (ping) from `src` to `dst`. Its identifier is the
/// low 16 bits of the identifier counter, its sequence number those of the
/// sequence counter, which then advances by one.
pub fn send_icmp_echo_request_chirho(counters_chirho: &mut EchoCountersChirho, src_ip_chirho: u32,
    dst_ip_chirho: u32, payload_chirho: &[u8]) -> (r: Option<Vec<u8>>)
    requires
        payload_chirho@.len() + 8 <= 131074,
    ensures
        final(counters_chirho).id_chirho == old(counters_chirho).id_chirho,
        final(counters_chirho).seq_chirho == next_seq(old(counters_chirho).seq_chirho),
        r matches Some(p) && p@ == echo_request_packet_spec(src_ip_chirho, dst_ip_chirho,
            low16(old(counters_chirho).id_chirho), low16(old(counters_chirho).seq_chirho), payload_chirho@),
{
    let id_chirho = low16_chirho(counters_chirho.id_chirho);
    let seq_chirho = low16_chirho(counters_chirho.seq_chirho);
    counters_chirho.seq_chirho = if counters_chirho.seq_chirho == u64::MAX { 0 } else { counters_chirho.seq_chirho + 1 };
    let mut data_chirho: Vec<u8> = Vec::new();
    push_all_chirho(&mut data_chirho, payload_chirho);
    let request_chirho = IcmpPacketChirho {
        type_chirho: ICMP_ECHO_REQUEST_CHIRHO,
        code_chirho: 0,
        checksum_chirho: 0,
        id_chirho,
        sequence_chirho: seq_chirho,
        data_chirho,
    };
    let body_chirho = request_chirho.build_chirho();
    let hdr_chirho = outgoing_header_chirho(src_ip_chirho, dst_ip_chirho, IP_PROTO_ICMP_CHIRHO, 2, body_chirho.len());
    let mut packet_chirho = hdr_chirho.build_chirho();
    push_all_chirho(&mut packet_chirho, body_chirho.as_slice());
    Some(packet_chirho)
}

/// The UDP bytes of a datagram from `sport` to `dport` carrying `payload`,
/// with its checksum over the pseudo-header of `src` and `dst`.
pub open spec fn udp_wire_spec(sport: u16, dport: u16, payload: Seq<u8>, src: u32, dst: u32) -> Seq<u8> {
    let head = u16_be_spec(sport) + u16_be_spec(dport) + u16_be_spec(((8 + payload.len()) % 65536) as u16);
    let ck = checksum_spec(pseudo_header_spec(src, dst, IP_PROTO_UDP_CHIRHO, head + u16_be_spec(0) + payload));
    head + u16_be_spec(if ck == 0 { 0xFFFFu16 } else { ck }) + payload
}

/// The bytes of an IPv4/UDP packet (Don't Fragment set).
pub open spec fn udp_packet_spec(src: u32, dst: u32, sport: u16, dport: u16, payload: Seq<u8>) -> Seq<u8> {
    ipv4_bytes_spec(outgoing_header_spec(src, dst, IP_PROTO_UDP_CHIRHO, 2, 8 + payload.len()))
        + udp_wire_spec(sport, dport, payload, src, dst)
}

/// Build a complete IPv4/UDP packet ready to send.
pub fn build_udp_packet_chirho(src_ip_chirho: u32, dst_ip_chirho: u32, src_port_chirho: u16, dst_port_chirho: u16,
    payload_chirho: &[u8]) -> (r: Vec<u8>)
    requires
        payload_chirho@.len() + 20 <= 131074,
    ensures
        r@ == udp_packet_spec(src_ip_chirho, dst_ip_chirho, src_port_chirho, dst_port_chirho, payload_chirho@),
{
    let mut data_chirho: Vec<u8> = Vec::new();
    push_all_chirho(&mut data_chirho, payload_chirho);
    let udp_chirho = UdpDatagramChirho {
        src_port_chirho,
        dst_port_chirho,
        length_chirho: (8 + payload_chirho.len()) as u16,
        checksum_chirho: 0,
        payload_chirho: data_chirho,
    };
    let body_chirho = udp_chirho.build_with_checksum_chirho(src_ip_chirho, dst_ip_chirho);
    assert(body_chirho@ =~= udp_wire_spec(src_port_chirho, dst_port_chirho, payload_chirho@, src_ip_chirho, dst_ip_chirho));
    let hdr_chirho = outgoing_header_chirho(src_ip_chirho, dst_ip_chirho, IP_PROTO_UDP_CHIRHO, 2, body_chirho.len());
    let mut packet_chirho = hdr_chirho.build_chirho();
    push_all_chirho(&mut packet_chirho, body_chirho.as_slice());
    packet_chirho
}

/// The bytes of an IPv4 packet carrying `seg` from `src` to `dst`, with
/// the segment's checksum filled in (Don't Fragment set).
#[verifier::opaque]
pub open spec fn tcp_packet_spec(seg: TcpSegmentChirho, src: u32, dst: u32) -> Seq<u8> {
    ipv4_bytes_spec(outgoing_header_spec(src, dst, IP_PROTO_TCP_CHIRHO, 2, 20 + seg.payload_chirho@.len()))
        + tcp_bytes_spec(TcpSegmentChirho { checksum_chirho: tcp_checksum_spec(seg, src, dst), ..seg })
}

/// Wrap a TCP segment in an IPv4 packet, computing its checksum.
pub fn build_tcp_packet_chirho(seg_chirho: &TcpSegmentChirho, src_ip_chirho: u32, dst_ip_chirho: u32) -> (r: Vec<u8>)
    requires
        seg_chirho.payload_chirho@.len() + 32 <= 131074,
    ensures
        r@ == tcp_packet_spec(*seg_chirho, src_ip_chirho, dst_ip_chirho),
{
    let ck_chirho = seg_chirho.compute_checksum_chirho(src_ip_chirho, dst_ip_chirho);
    let mut body_chirho = seg_chirho.build_chirho();
    set_u16_be_chirho(&mut body_chirho, 16, ck_chirho);
    assert(body_chirho@ =~= tcp_bytes_spec(TcpSegmentChirho { checksum_chirho: ck_chirho, ..*seg_chirho }));
    let hdr_chirho = outgoing_header_chirho(src_ip_chirho, dst_ip_chirho, IP_PROTO_TCP_CHIRHO, 2, body_chirho.len());
    let mut packet_chirho = hdr_chirho.build_chirho();
    push_all_chirho(&mut packet_chirho, body_chirho.as_slice());
    proof { reveal(tcp_packet_spec); }
    packet_chirho
}

/// A header-only segment with the default window and five-word offset.
pub open spec fn bare_segment_spec(s: TcpSegmentChirho, sport: u16, dport: u16, seq: u32, ack: u32, flags: u8) -> bool {
    &&& s.src_port_chirho == sport
    &&& s.dst_port_chirho == dport
    &&& s.seq_num_chirho == seq
    &&& s.ack_num_chirho == ack
    &&& s.data_offset_chirho == 5
    &&& s.flags_chirho == flags
    &&& s.window_chirho == TCP_DEFAULT_WINDOW_CHIRHO
    &&& s.checksum_chirho == 0
    &&& s.urgent_ptr_chirho == 0
    &&& s.payload_chirho@.len() == 0
}

/// The SYN that opens a connection to a remote peer.
pub fn syn_segment_chirho(src_port_chirho: u16, dst_port_chirho: u16, seq_chirho: u32) -> (r: TcpSegmentChirho)
    ensures
        bare_segment_spec(r, src_port_chirho, dst_port_chirho, seq_chirho, 0, TCP_SYN_CHIRHO),
{
    TcpSegmentChirho {
        src_port_chirho,
        dst_port_chirho,
        seq_num_chirho: seq_chirho,
        ack_num_chirho: 0,
        data_offset_chirho: 5,
        flags_chirho: TCP_SYN_CHIRHO,
        window_chirho: TCP_DEFAULT_WINDOW_CHIRHO,
        checksum_chirho: 0,
        urgent_ptr_chirho: 0,
        payload_chirho: Vec::new(),
    }
}

/// The ACK that completes a handshake with a remote peer.
pub fn ack_segment_chirho(src_port_chirho: u16, dst_port_chirho: u16, seq_chirho: u32, ack_chirho: u32) -> (r: TcpSegmentChirho)
    ensures
        bare_segment_spec(r, src_port_chirho, dst_port_chirho, seq_chirho, ack_chirho, TCP_ACK_CHIRHO),
{
    TcpSegmentChirho {
        src_port_chirho,
        dst_port_chirho,
        seq_num_chirho: seq_chirho,
        ack_num_chirho: ack_chirho,
        data_offset_chirho: 5,
        flags_chirho: TCP_ACK_CHIRHO,
        window_chirho: TCP_DEFAULT_WINDOW_CHIRHO,
        checksum_chirho: 0,
        urgent_ptr_chirho: 0,
        payload_chirho: Vec::new(),
    }
}

/// The SYN packet from `src:sport` to `dst:dport` with sequence number
/// `seq`, checksummed and wrapped in IPv4, ready to send.
pub fn tcp_send_syn_chirho(src_ip_chirho: u32, dst_ip_chirho: u32, src_port_chirho: u16, dst_port_chirho: u16, seq_chirho: u32)
    -> (r: Vec<u8>)
    ensures
        exists|s: TcpSegmentChirho| #[trigger] bare_segment_spec(s, src_port_chirho, dst_port_chirho, seq_chirho, 0, TCP_SYN_CHIRHO)
            && r@ == tcp_packet_spec(s, src_ip_chirho, dst_ip_chirho),
{
    let seg_chirho = syn_segment_chirho(src_port_chirho, dst_port_chirho, seq_chirho);
    build_tcp_packet_chirho(&seg_chirho, src_ip_chirho, dst_ip_chirho)
}

/// The bare ACK packet from `src:sport` to `dst:dport`, checksummed and
/// wrapped in IPv4, ready to send.
pub fn tcp_send_ack_chirho(src_ip_chirho: u32, dst_ip_chirho: u32, src_port_chirho: u16, dst_port_chirho: u16, seq_chirho: u32,
    ack_chirho: u32) -> (r: Vec<u8>)
    ensures
        exists|s: TcpSegmentChirho| #[trigger] bare_segment_spec(s, src_port_chirho, dst_port_chirho, seq_chirho, ack_chirho, TCP_ACK_CHIRHO)
            && r@ == tcp_packet_spec(s, src_ip_chirho, dst_ip_chirho),
{
    let seg_chirho = ack_segment_chirho(src_port_chirho, dst_port_chirho, seq_chirho, ack_chirho);
    build_tcp_packet_chirho(&seg_chirho, src_ip_chirho, dst_ip_chirho)
}

/// A TCP answer segment, checksummed and wrapped in IPv4 from `src` to
/// `dst`, ready to send.
pub fn send_tcp_response_chirho(resp_seg_chirho: &TcpSegmentChirho, src_ip_chirho: u32, dst_ip_chirho: u32) -> (r: Vec<u8>)
    requires
        resp_seg_chirho.payload_chirho@.len() + 32 <= 131074,
    ensures
        r@ == tcp_packet_spec(*resp_seg_chirho, src_ip_chirho, dst_ip_chirho),
{
    build_tcp_packet_chirho(resp_seg_chirho, src_ip_chirho, dst_ip_chirho)
}

} // verus!
