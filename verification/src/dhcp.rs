//! The DHCP client (RFC 2131): DISCOVER and REQUEST messages, the options
//! of a reply, and the decisions of the exchange. Sending frames and
//! waiting for replies is the caller's.

use vstd::prelude::*;
use crate::bytes::{be16_spec, be32_chirho, be32_spec, push_all_chirho, push_u32_be_chirho, u16_be_spec, u32_be_spec};
use crate::packets::{ethernet_bytes_spec, ipv4_bytes_spec, EthernetFrameChirho, Ipv4HeaderChirho, UdpDatagramChirho,
    udp_payload_len_spec, ipv4_parse_spec};
use crate::ipv4::udp_wire_spec;
use crate::net_types::{Ipv4AddrChirho, ETHERTYPE_IPV4_CHIRHO, IP_PROTO_UDP_CHIRHO};

verus! {

/// DHCPDISCOVER.
pub const DHCP_DISCOVER_CHIRHO: u8 = 1;
/// DHCPOFFER.
pub const DHCP_OFFER_CHIRHO: u8 = 2;
/// DHCPREQUEST.
pub const DHCP_REQUEST_CHIRHO: u8 = 3;
/// DHCPACK.
pub const DHCP_ACK_CHIRHO: u8 = 5;
/// Client port.
pub const DHCP_CLIENT_PORT_CHIRHO: u16 = 68;
/// Server port.
pub const DHCP_SERVER_PORT_CHIRHO: u16 = 67;

/// `n` zero bytes.
pub open spec fn zeros(n: nat) -> Seq<u8> {
    Seq::new(n, |i: int| 0u8)
}

/// The fixed BOOTP part of a request: op 1, Ethernet, hardware length 6,
/// the transaction id, the broadcast flag, the client hardware address, and
/// the magic cookie at offset 236.
pub open spec fn bootp_head_spec(mac: Seq<u8>, xid: u32) -> Seq<u8> {
    seq![1u8, 1u8, 6u8, 0u8] + u32_be_spec(xid) + seq![0u8, 0u8, 0x80u8, 0u8] + zeros(16) + mac + zeros(202)
        + seq![99u8, 130u8, 83u8, 99u8]
}

/// The options of a request: message type, for a REQUEST the requested
/// address and the server identifier, the parameter request list (subnet,
/// router, DNS), and the end option.
pub open spec fn dhcp_options_bytes(msg_type: u8, requested: u32, server: u32) -> Seq<u8> {
    seq![53u8, 1u8, msg_type]
        + (if msg_type == DHCP_REQUEST_CHIRHO {
            seq![50u8, 4u8] + u32_be_spec(requested) + seq![54u8, 4u8] + u32_be_spec(server)
        } else {
            Seq::<u8>::empty()
        })
        + seq![55u8, 3u8, 1u8, 3u8, 6u8, 255u8]
}

/// The bytes of a DHCP DISCOVER or REQUEST.
pub open spec fn dhcp_packet_spec(mac: Seq<u8>, xid: u32, msg_type: u8, requested: u32, server: u32) -> Seq<u8> {
    bootp_head_spec(mac, xid) + dhcp_options_bytes(msg_type, requested, server)
}

fn push_zeros_chirho(buf: &mut Vec<u8>, n: usize)
    ensures
        final(buf)@ == old(buf)@ + zeros(n as nat),
{
    let ghost b0 = buf@;
    let mut i: usize = 0;
    while i < n
        invariant
            i <= n,
            buf@ == b0 + zeros(i as nat),
        decreases n - i,
    {
        buf.push(0);
        i = i + 1;
        assert(zeros(i as nat) =~= zeros((i - 1) as nat).push(0u8));
    }
}

/// Build a DHCP DISCOVER (`msg_type` 1) or REQUEST (3) message.
pub fn build_dhcp_packet_chirho(mac_chirho: [u8; 6], xid_chirho: u32, msg_type_chirho: u8, requested_ip_chirho: u32,
    server_ip_chirho: u32) -> (r: Vec<u8>)
    ensures
        r@ == dhcp_packet_spec(mac_chirho@, xid_chirho, msg_type_chirho, requested_ip_chirho, server_ip_chirho),
{
    let mut p: Vec<u8> = Vec::new();
    p.push(1);
    p.push(1);
    p.push(6);
    p.push(0);
    push_u32_be_chirho(&mut p, xid_chirho);
    p.push(0);
    p.push(0);
    p.push(0x80);
    p.push(0);
    push_zeros_chirho(&mut p, 16);
    push_all_chirho(&mut p, &mac_chirho);
    push_zeros_chirho(&mut p, 202);
    p.push(99);
    p.push(130);
    p.push(83);
    p.push(99);
    assert(p@ =~= bootp_head_spec(mac_chirho@, xid_chirho));
    let ghost head = p@;
    p.push(53);
    p.push(1);
    p.push(msg_type_chirho);
    if msg_type_chirho == DHCP_REQUEST_CHIRHO {
        p.push(50);
        p.push(4);
        push_u32_be_chirho(&mut p, requested_ip_chirho);
        p.push(54);
        p.push(4);
        push_u32_be_chirho(&mut p, server_ip_chirho);
    }
    p.push(55);
    p.push(3);
    p.push(1);
    p.push(3);
    p.push(6);
    p.push(255);
    assert(p@ =~= head + dhcp_options_bytes(msg_type_chirho, requested_ip_chirho, server_ip_chirho));
    p
}

/// What the options of a reply give: message type, subnet mask, router,
/// DNS server, server identifier.
pub type DhcpFieldsSpec = (u8, u32, u32, u32, u32);

/// Walk the options from offset `i`: padding is skipped, the end option or
/// a truncated option stops the walk, and the known options (53, 1, 3, 6,
/// 54) of sufficient length set their field.
pub open spec fn options_walk(p: Seq<u8>, i: int, acc: DhcpFieldsSpec) -> DhcpFieldsSpec
    decreases (if i < 0 || i >= p.len() { 0 } else { p.len() - i }),
{
    if i < 0 || i >= p.len() {
        acc
    } else {
        let opt = p[i];
        if opt == 255 {
            acc
        } else if opt == 0 {
            options_walk(p, i + 1, acc)
        } else if i + 1 >= p.len() {
            acc
        } else {
            let len = p[i + 1] as int;
            let ds = i + 2;
            if ds + len > p.len() {
                acc
            } else {
                let acc2 = if opt == 53 && len >= 1 {
                    (p[ds], acc.1, acc.2, acc.3, acc.4)
                } else if opt == 1 && len >= 4 {
                    (acc.0, be32_spec(p[ds], p[ds + 1], p[ds + 2], p[ds + 3]), acc.2, acc.3, acc.4)
                } else if opt == 3 && len >= 4 {
                    (acc.0, acc.1, be32_spec(p[ds], p[ds + 1], p[ds + 2], p[ds + 3]), acc.3, acc.4)
                } else if opt == 6 && len >= 4 {
                    (acc.0, acc.1, acc.2, be32_spec(p[ds], p[ds + 1], p[ds + 2], p[ds + 3]), acc.4)
                } else if opt == 54 && len >= 4 {
                    (acc.0, acc.1, acc.2, acc.3, be32_spec(p[ds], p[ds + 1], p[ds + 2], p[ds + 3]))
                } else {
                    acc
                };
                options_walk(p, ds + len, acc2)
            }
        }
    }
}

/// An option the walk does not know (any code but pad, end and 53, 1, 3,
/// 6, 54) that fits in the packet is skipped by its length: the fields are
/// those the options after it give.
pub proof fn lemma_dhcp_unknown_option_skipped(p: Seq<u8>, i: int, acc: DhcpFieldsSpec)
    requires
        0 <= i,
        i + 1 < p.len(),
        p[i] != 0 && p[i] != 255 && p[i] != 53 && p[i] != 1 && p[i] != 3 && p[i] != 6 && p[i] != 54,
        i + 2 + p[i + 1] <= p.len(),
    ensures
        options_walk(p, i, acc) == options_walk(p, i + 2 + p[i + 1], acc),
{
}

/// A known option with enough data sets its field from its first four
/// bytes (the first byte for the message type) and the walk goes on after
/// it: the subnet mask (1), router (3), DNS server (6), server identifier
/// (54) and message type (53).
pub proof fn lemma_dhcp_known_option_read(p: Seq<u8>, i: int, acc: DhcpFieldsSpec)
    requires
        0 <= i,
        i + 1 < p.len(),
        i + 2 + p[i + 1] <= p.len(),
    ensures
        ({
            let len = p[i + 1] as int;
            let ds = i + 2;
            let next = i + 2 + len;
            let v = be32_spec(p[ds], p[ds + 1], p[ds + 2], p[ds + 3]);
            &&& p[i] == 53 && len >= 1 ==> options_walk(p, i, acc) == options_walk(p, next, (p[ds], acc.1, acc.2, acc.3, acc.4))
            &&& p[i] == 1 && len >= 4 ==> options_walk(p, i, acc) == options_walk(p, next, (acc.0, v, acc.2, acc.3, acc.4))
            &&& p[i] == 3 && len >= 4 ==> options_walk(p, i, acc) == options_walk(p, next, (acc.0, acc.1, v, acc.3, acc.4))
            &&& p[i] == 6 && len >= 4 ==> options_walk(p, i, acc) == options_walk(p, next, (acc.0, acc.1, acc.2, v, acc.4))
            &&& p[i] == 54 && len >= 4 ==> options_walk(p, i, acc) == options_walk(p, next, (acc.0, acc.1, acc.2, acc.3, v))
        }),
{
}

/// The walk from `i` over `p` reads the same as the walk from `i - k` over
/// `q`, when `q` holds the bytes of `p` from `i` on at offset `i - k`.
proof fn lemma_options_walk_shift(p: Seq<u8>, q: Seq<u8>, i: int, k: int, acc: DhcpFieldsSpec)
    requires
        0 <= k <= i,
        q.len() == p.len() - k,
        forall|j: int| i <= j < p.len() ==> q[j - k] == #[trigger] p[j],
    ensures
        options_walk(p, i, acc) == options_walk(q, i - k, acc),
    decreases (if i < 0 || i >= p.len() { 0 } else { p.len() - i }),
{
    if 0 <= i < p.len() {
        let opt = p[i];
        if opt == 0 {
            lemma_options_walk_shift(p, q, i + 1, k, acc);
        } else if opt != 255 && i + 1 < p.len() {
            let len = p[i + 1] as int;
            let ds = i + 2;
            if ds + len <= p.len() {
                if len >= 1 {
                    assert(q[ds - k] == p[ds]);
                }
                if len >= 4 {
                    assert(q[ds - k] == p[ds] && q[ds + 1 - k] == p[ds + 1] && q[ds + 2 - k] == p[ds + 2] && q[ds + 3 - k] == p[ds + 3]);
                }
                let acc2 = if opt == 53 && len >= 1 {
                    (p[ds], acc.1, acc.2, acc.3, acc.4)
                } else if opt == 1 && len >= 4 {
                    (acc.0, be32_spec(p[ds], p[ds + 1], p[ds + 2], p[ds + 3]), acc.2, acc.3, acc.4)
                } else if opt == 3 && len >= 4 {
                    (acc.0, acc.1, be32_spec(p[ds], p[ds + 1], p[ds + 2], p[ds + 3]), acc.3, acc.4)
                } else if opt == 6 && len >= 4 {
                    (acc.0, acc.1, acc.2, be32_spec(p[ds], p[ds + 1], p[ds + 2], p[ds + 3]), acc.4)
                } else if opt == 54 && len >= 4 {
                    (acc.0, acc.1, acc.2, acc.3, be32_spec(p[ds], p[ds + 1], p[ds + 2], p[ds + 3]))
                } else {
                    acc
                };
                lemma_options_walk_shift(p, q, ds + len, k, acc2);
            }
        }
    }
}

/// Removing an option the walk does not know, which fits in the packet,
/// changes nothing: the walk from it over the packet reads the same fields
/// as the walk from the same place over the packet without its bytes.
pub proof fn lemma_dhcp_unknown_option_as_if_absent(p: Seq<u8>, i: int, acc: DhcpFieldsSpec)
    requires
        0 <= i,
        i + 1 < p.len(),
        p[i] != 0 && p[i] != 255 && p[i] != 53 && p[i] != 1 && p[i] != 3 && p[i] != 6 && p[i] != 54,
        i + 2 + p[i + 1] <= p.len(),
    ensures
        options_walk(p, i, acc) == options_walk(p.subrange(0, i) + p.subrange(i + 2 + p[i + 1], p.len() as int), i, acc),
{
    let k = 2 + p[i + 1] as int;
    let q = p.subrange(0, i) + p.subrange(i + k, p.len() as int);
    assert forall|j: int| i + k <= j < p.len() implies q[j - k] == #[trigger] p[j] by {}
    lemma_options_walk_shift(p, q, i + k, k, acc);
}

/// The fields of a reply: (message type, offered address, subnet mask,
/// router, DNS server, server identifier). The offered address is `yiaddr`
/// (0 when the message is too short); the options count only after a
/// valid magic cookie.
pub open spec fn dhcp_options_spec(p: Seq<u8>) -> (u8, u32, u32, u32, u32, u32) {
    let offered = if p.len() >= 20 { be32_spec(p[16], p[17], p[18], p[19]) } else { 0u32 };
    if p.len() < 241 || !(p[236] == 99 && p[237] == 130 && p[238] == 83 && p[239] == 99) {
        (0u8, offered, 0u32, 0u32, 0u32, 0u32)
    } else {
        let f = options_walk(p, 240, (0u8, 0u32, 0u32, 0u32, 0u32));
        (f.0, offered, f.1, f.2, f.3, f.4)
    }
}

fn be32_at_chirho(p: &[u8], i: usize) -> (r: u32)
    requires
        i + 4 <= p@.len(),
    ensures
        r == be32_spec(p@[i as int], p@[i + 1], p@[i + 2], p@[i + 3]),
{
    be32_chirho(p[i], p[i + 1], p[i + 2], p[i + 3])
}

/// Read the fields of a DHCP reply.
pub fn parse_dhcp_options_chirho(pkt_chirho: &[u8]) -> (r: (u8, u32, u32, u32, u32, u32))
    requires
        pkt_chirho@.len() + 512 <= usize::MAX,
    ensures
        r == dhcp_options_spec(pkt_chirho@),
{
    let p = pkt_chirho;
    let offered_chirho: u32 = if p.len() >= 20 { be32_at_chirho(p, 16) } else { 0 };
    if p.len() < 241 {
        return (0, offered_chirho, 0, 0, 0, 0);
    }
    if !(p[236] == 99 && p[237] == 130 && p[238] == 83 && p[239] == 99) {
        return (0, offered_chirho, 0, 0, 0, 0);
    }
    let mut acc: (u8, u32, u32, u32, u32) = (0, 0, 0, 0, 0);
    let mut i: usize = 240;
    let mut stop = false;
    while i < p.len() && !stop
        invariant
            p@.len() + 512 <= usize::MAX,
            i <= p@.len() + 260,
            options_walk(p@, 240, (0u8, 0u32, 0u32, 0u32, 0u32)) == (if stop { acc } else { options_walk(p@, i as int, acc) }),
        decreases (if i < p@.len() { p@.len() - i } else { 0 }) + (if stop { 0int } else { 1int }),
    {
        let opt = p[i];
        if opt == 255 {
            stop = true;
        } else if opt == 0 {
            i = i + 1;
        } else if i + 1 >= p.len() {
            stop = true;
        } else {
            let len = p[i + 1] as usize;
            let ds = i + 2;
            if ds + len > p.len() {
                stop = true;
            } else {
                if opt == 53 && len >= 1 {
                    acc = (p[ds], acc.1, acc.2, acc.3, acc.4);
                } else if opt == 1 && len >= 4 {
                    acc = (acc.0, be32_at_chirho(p, ds), acc.2, acc.3, acc.4);
                } else if opt == 3 && len >= 4 {
                    acc = (acc.0, acc.1, be32_at_chirho(p, ds), acc.3, acc.4);
                } else if opt == 6 && len >= 4 {
                    acc = (acc.0, acc.1, acc.2, be32_at_chirho(p, ds), acc.4);
                } else if opt == 54 && len >= 4 {
                    acc = (acc.0, acc.1, acc.2, acc.3, be32_at_chirho(p, ds));
                }
                i = ds + len;
            }
        }
    }
    (acc.0, offered_chirho, acc.1, acc.2, acc.3, acc.4)
}

/// The network configuration a DHCP exchange yields.
#[derive(Debug, Clone, Copy)]
pub struct DhcpResultChirho {
    pub ip_chirho: Ipv4AddrChirho,
    pub subnet_chirho: Ipv4AddrChirho,
    pub gateway_chirho: Ipv4AddrChirho,
    pub dns_chirho: Ipv4AddrChirho,
}

/// The UDP payload of a frame when it is an IPv4/UDP datagram for the DHCP
/// client port with more than a UDP header after the IP header.
pub open spec fn dhcp_payload_spec(raw: Seq<u8>) -> Option<Seq<u8>> {
    if raw.len() < 14 || be16_spec(raw[12], raw[13]) != ETHERTYPE_IPV4_CHIRHO {
        None
    } else {
        let ip = raw.subrange(14, raw.len() as int);
        match ipv4_parse_spec(ip) {
            None => None,
            Some(h) => {
                let hl = h.ihl_chirho as int * 4;
                if h.protocol_chirho != IP_PROTO_UDP_CHIRHO || ip.len() <= hl + 8 {
                    None
                } else {
                    let u = ip.subrange(hl, ip.len() as int);
                    if be16_spec(u[2], u[3]) != DHCP_CLIENT_PORT_CHIRHO {
                        None
                    } else {
                        Some(u.subrange(8, 8 + udp_payload_len_spec(u)))
                    }
                }
            },
        }
    }
}

/// The fields of the DHCP reply a received frame carries, if it carries one.
pub fn dhcp_reply_chirho(raw_chirho: &[u8]) -> (r: Option<(u8, u32, u32, u32, u32, u32)>)
    requires
        raw_chirho@.len() + 512 <= usize::MAX,
    ensures
        r == (match dhcp_payload_spec(raw_chirho@) {
            None => None,
            Some(p) => Some(dhcp_options_spec(p)),
        }),
{
    let eth_chirho = match EthernetFrameChirho::parse_chirho(raw_chirho) {
        Some(e) => e,
        None => return None,
    };
    if eth_chirho.ethertype_chirho != ETHERTYPE_IPV4_CHIRHO {
        return None;
    }
    let ip_chirho = eth_chirho.payload_chirho.as_slice();
    let hdr_chirho = match Ipv4HeaderChirho::parse_chirho(ip_chirho) {
        Some(h) => h,
        None => return None,
    };
    let hl_chirho = (hdr_chirho.ihl_chirho as usize) * 4;
    if hdr_chirho.protocol_chirho != IP_PROTO_UDP_CHIRHO || ip_chirho.len() <= hl_chirho + 8 {
        return None;
    }
    let u_bytes_chirho = crate::bytes::copy_range_chirho(ip_chirho, hl_chirho, ip_chirho.len());
    let udp_chirho = match UdpDatagramChirho::parse_chirho(u_bytes_chirho.as_slice()) {
        Some(u) => u,
        None => return None,
    };
    if udp_chirho.dst_port_chirho != DHCP_CLIENT_PORT_CHIRHO {
        return None;
    }
    Some(parse_dhcp_options_chirho(udp_chirho.payload_chirho.as_slice()))
}

/// The bytes of a broadcast frame carrying a DHCP message of `payload`:
/// UDP from port 68 to 67 between 0.0.0.0 and 255.255.255.255, an IPv4
/// header with TTL 128 and the given id, Ethernet to ff:ff:ff:ff:ff:ff.
pub open spec fn dhcp_frame_spec(mac: Seq<u8>, ip_id: u16, payload: Seq<u8>) -> Seq<u8> {
    let udp = udp_wire_spec(DHCP_CLIENT_PORT_CHIRHO, DHCP_SERVER_PORT_CHIRHO, payload, 0, 0xFFFFFFFF);
    let h = Ipv4HeaderChirho {
        version_chirho: 4, ihl_chirho: 5, tos_chirho: 0, total_length_chirho: ((20 + udp.len()) % 65536) as u16,
        id_chirho: ip_id, flags_chirho: 0, fragment_offset_chirho: 0, ttl_chirho: 128, protocol_chirho: IP_PROTO_UDP_CHIRHO,
        checksum_chirho: 0, src_ip_chirho: 0, dst_ip_chirho: 0xFFFFFFFF,
    };
    ethernet_bytes_spec(seq![0xFFu8, 0xFFu8, 0xFFu8, 0xFFu8, 0xFFu8, 0xFFu8], mac, ETHERTYPE_IPV4_CHIRHO, ipv4_bytes_spec(h) + udp)
}

/// Build the broadcast frame of a DISCOVER (IP id 0) or REQUEST (IP id 1).
pub fn build_dhcp_frame_chirho(mac_chirho: [u8; 6], xid_chirho: u32, msg_type_chirho: u8, requested_ip_chirho: u32,
    server_ip_chirho: u32, ip_id_chirho: u16) -> (r: Vec<u8>)
    ensures
        r@ == dhcp_frame_spec(mac_chirho@, ip_id_chirho,
            dhcp_packet_spec(mac_chirho@, xid_chirho, msg_type_chirho, requested_ip_chirho, server_ip_chirho)),
{
    let payload_chirho = build_dhcp_packet_chirho(mac_chirho, xid_chirho, msg_type_chirho, requested_ip_chirho, server_ip_chirho);
    let ghost pl = payload_chirho@;
    let plen_chirho = payload_chirho.len();
    let udp_chirho = UdpDatagramChirho {
        src_port_chirho: DHCP_CLIENT_PORT_CHIRHO,
        dst_port_chirho: DHCP_SERVER_PORT_CHIRHO,
        length_chirho: (8 + plen_chirho) as u16,
        checksum_chirho: 0,
        payload_chirho,
    };
    let udp_bytes_chirho = udp_chirho.build_with_checksum_chirho(0, 0xFFFFFFFF);
    assert(udp_bytes_chirho@ =~= udp_wire_spec(DHCP_CLIENT_PORT_CHIRHO, DHCP_SERVER_PORT_CHIRHO, pl, 0, 0xFFFFFFFF));
    let hdr_chirho = Ipv4HeaderChirho {
        version_chirho: 4,
        ihl_chirho: 5,
        tos_chirho: 0,
        total_length_chirho: ((udp_bytes_chirho.len() as u64 + 20) % 65536) as u16,
        id_chirho: ip_id_chirho,
        flags_chirho: 0,
        fragment_offset_chirho: 0,
        ttl_chirho: 128,
        protocol_chirho: IP_PROTO_UDP_CHIRHO,
        checksum_chirho: 0,
        src_ip_chirho: 0,
        dst_ip_chirho: 0xFFFFFFFF,
    };
    let mut ip_pkt_chirho = hdr_chirho.build_chirho();
    push_all_chirho(&mut ip_pkt_chirho, udp_bytes_chirho.as_slice());
    let bcast_chirho: [u8; 6] = [0xFF, 0xFF, 0xFF, 0xFF, 0xFF, 0xFF];
    assert(bcast_chirho@ =~= seq![0xFFu8, 0xFFu8, 0xFFu8, 0xFFu8, 0xFFu8, 0xFFu8]);
    let frame_chirho = EthernetFrameChirho {
        dst_mac_chirho: bcast_chirho,
        src_mac_chirho: mac_chirho,
        ethertype_chirho: ETHERTYPE_IPV4_CHIRHO,
        payload_chirho: ip_pkt_chirho,
    };
    frame_chirho.build_chirho()
}

/// What a DHCP server offered.
#[derive(Debug, Clone, Copy, PartialEq, Eq, Structural)]
pub struct DhcpOfferChirho {
    pub ip_chirho: u32,
    pub subnet_chirho: u32,
    pub gateway_chirho: u32,
    pub dns_chirho: u32,
    pub server_chirho: u32,
}

/// Where the exchange stands.
#[derive(Debug, Clone, Copy, PartialEq, Eq, Structural)]
pub enum DhcpPhaseChirho {
    /// Nothing sent yet.
    IdleChirho,
    /// DISCOVER sent, waiting for an offer.
    AwaitOfferChirho,
    /// REQUEST sent for the offer, waiting for the acknowledgment.
    AwaitAckChirho(DhcpOfferChirho),
    /// The exchange is over.
    FinishedChirho,
}

/// What happened.
#[derive(Debug, Clone, Copy)]
pub enum DhcpEventChirho {
    /// The client starts.
    StartChirho,
    /// A reply arrived with these fields (`dhcp_reply_chirho`).
    ReplyChirho((u8, u32, u32, u32, u32, u32)),
    /// The wait for a reply timed out.
    TimeoutChirho,
}

/// What the client does next.
#[derive(Debug, Clone, Copy, PartialEq, Eq, Structural)]
pub enum DhcpActionChirho {
    /// Nothing; keep waiting.
    WaitChirho,
    /// Broadcast a DISCOVER.
    SendDiscoverChirho,
    /// Broadcast a REQUEST for the offer.
    SendRequestChirho(DhcpOfferChirho),
    /// Configure the interface with the offer.
    ConfigureChirho(DhcpOfferChirho),
    /// No offer came: give up.
    GiveUpChirho,
}

/// The offer carried by reply fields.
pub open spec fn offer_of(f: (u8, u32, u32, u32, u32, u32)) -> DhcpOfferChirho {
    DhcpOfferChirho { ip_chirho: f.1, subnet_chirho: f.2, gateway_chirho: f.3, dns_chirho: f.4, server_chirho: f.5 }
}

/// One step of the client: start with a DISCOVER; take the first OFFER and
/// request it; configure on the ACK, or with the offer anyway when the
/// acknowledgment does not come; give up when no offer comes. Other replies
/// are ignored.
pub fn dhcp_discover_chirho(phase_chirho: DhcpPhaseChirho, event_chirho: DhcpEventChirho) -> (r: (DhcpPhaseChirho, DhcpActionChirho))
    ensures
        r == (match (phase_chirho, event_chirho) {
            (DhcpPhaseChirho::IdleChirho, DhcpEventChirho::StartChirho) =>
                (DhcpPhaseChirho::AwaitOfferChirho, DhcpActionChirho::SendDiscoverChirho),
            (DhcpPhaseChirho::AwaitOfferChirho, DhcpEventChirho::ReplyChirho(f)) => if f.0 == DHCP_OFFER_CHIRHO {
                (DhcpPhaseChirho::AwaitAckChirho(offer_of(f)), DhcpActionChirho::SendRequestChirho(offer_of(f)))
            } else {
                (phase_chirho, DhcpActionChirho::WaitChirho)
            },
            (DhcpPhaseChirho::AwaitOfferChirho, DhcpEventChirho::TimeoutChirho) =>
                (DhcpPhaseChirho::FinishedChirho, DhcpActionChirho::GiveUpChirho),
            (DhcpPhaseChirho::AwaitAckChirho(o), DhcpEventChirho::ReplyChirho(f)) => if f.0 == DHCP_ACK_CHIRHO {
                (DhcpPhaseChirho::FinishedChirho, DhcpActionChirho::ConfigureChirho(o))
            } else {
                (phase_chirho, DhcpActionChirho::WaitChirho)
            },
            (DhcpPhaseChirho::AwaitAckChirho(o), DhcpEventChirho::TimeoutChirho) =>
                (DhcpPhaseChirho::FinishedChirho, DhcpActionChirho::ConfigureChirho(o)),
            _ => (phase_chirho, DhcpActionChirho::WaitChirho),
        }),
{
    match (phase_chirho, event_chirho) {
        (DhcpPhaseChirho::IdleChirho, DhcpEventChirho::StartChirho) =>
            (DhcpPhaseChirho::AwaitOfferChirho, DhcpActionChirho::SendDiscoverChirho),
        (DhcpPhaseChirho::AwaitOfferChirho, DhcpEventChirho::ReplyChirho(f)) => {
            if f.0 == DHCP_OFFER_CHIRHO {
                let o = DhcpOfferChirho { ip_chirho: f.1, subnet_chirho: f.2, gateway_chirho: f.3, dns_chirho: f.4, server_chirho: f.5 };
                (DhcpPhaseChirho::AwaitAckChirho(o), DhcpActionChirho::SendRequestChirho(o))
            } else {
                (phase_chirho, DhcpActionChirho::WaitChirho)
            }
        },
        (DhcpPhaseChirho::AwaitOfferChirho, DhcpEventChirho::TimeoutChirho) =>
            (DhcpPhaseChirho::FinishedChirho, DhcpActionChirho::GiveUpChirho),
        (DhcpPhaseChirho::AwaitAckChirho(o), DhcpEventChirho::ReplyChirho(f)) => {
            if f.0 == DHCP_ACK_CHIRHO {
                (DhcpPhaseChirho::FinishedChirho, DhcpActionChirho::ConfigureChirho(o))
            } else {
                (phase_chirho, DhcpActionChirho::WaitChirho)
            }
        },
        (DhcpPhaseChirho::AwaitAckChirho(o), DhcpEventChirho::TimeoutChirho) =>
            (DhcpPhaseChirho::FinishedChirho, DhcpActionChirho::ConfigureChirho(o)),
        _ => (phase_chirho, DhcpActionChirho::WaitChirho),
    }
}

/// The transaction id a client uses: the last four bytes of its MAC.
pub fn dhcp_xid_chirho(mac_chirho: [u8; 6]) -> (r: u32)
    ensures
        r == be32_spec(mac_chirho[2], mac_chirho[3], mac_chirho[4], mac_chirho[5]),
{
    be32_chirho(mac_chirho[2], mac_chirho[3], mac_chirho[4], mac_chirho[5])
}

} // verus!
