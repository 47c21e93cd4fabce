//! Wire formats: Ethernet II frames, IPv4 headers, ARP packets, ICMP echo
//! messages, TCP segments and UDP datagrams, each with a parser and a
//! builder whose byte layout is stated exactly.

use vstd::prelude::*;
use crate::bytes::{
    u16_be_spec, u32_be_spec, be16_spec, be32_spec, be16_chirho, be32_chirho, push_u16_be_chirho,
    push_u32_be_chirho, push_all_chirho, copy_range_chirho, set_u16_be_chirho, lemma_be16_roundtrip,
    lemma_be32_roundtrip, lemma_be16_split, lemma_be32_split,
};
use crate::checksum::{checksum_spec, ipv4_checksum_chirho, lemma_checksum_verifies, lemma_checksum_verifies_ones};
use crate::net_types::{IP_PROTO_TCP_CHIRHO, IP_PROTO_UDP_CHIRHO};

verus! {

// ---------------------------------------------------------------------------
// Ethernet II
// ---------------------------------------------------------------------------

/// An Ethernet II frame.
#[derive(Debug, Clone)]
pub struct EthernetFrameChirho {
    /// Destination MAC address.
    pub dst_mac_chirho: [u8; 6],
    /// Source MAC address.
    pub src_mac_chirho: [u8; 6],
    /// Ethertype (0x0800 IPv4, 0x0806 ARP).
    pub ethertype_chirho: u16,
    /// Payload.
    pub payload_chirho: Vec<u8>,
}

/// The bytes of an Ethernet frame: destination, source, ethertype, payload.
pub open spec fn ethernet_bytes_spec(dst: Seq<u8>, src: Seq<u8>, ethertype: u16, payload: Seq<u8>) -> Seq<u8> {
    dst + src + u16_be_spec(ethertype) + payload
}

/// `f` holds the fields read from the frame bytes `d`.
pub open spec fn ethernet_parsed_from(f: EthernetFrameChirho, d: Seq<u8>) -> bool {
    &&& d.len() >= 14
    &&& f.dst_mac_chirho@ == d.subrange(0, 6)
    &&& f.src_mac_chirho@ == d.subrange(6, 12)
    &&& f.ethertype_chirho == be16_spec(d[12], d[13])
    &&& f.payload_chirho@ == d.subrange(14, d.len() as int)
}

fn mac_at_chirho(d: &[u8], off: usize) -> (r: [u8; 6])
    requires
        off + 6 <= d@.len(),
    ensures
        r@ == d@.subrange(off as int, off + 6),
{
    let r = [d[off], d[off + 1], d[off + 2], d[off + 3], d[off + 4], d[off + 5]];
    assert(r@ =~= d@.subrange(off as int, off + 6));
    r
}

impl EthernetFrameChirho {
    /// Parse a frame; `None` when shorter than the 14-byte header.
    pub fn parse_chirho(data_chirho: &[u8]) -> (r: Option<EthernetFrameChirho>)
        ensures
            r is None <==> data_chirho@.len() < 14,
            r matches Some(f) ==> ethernet_parsed_from(f, data_chirho@),
    {
        if data_chirho.len() < 14 {
            return None;
        }
        let dst_mac_chirho = mac_at_chirho(data_chirho, 0);
        let src_mac_chirho = mac_at_chirho(data_chirho, 6);
        let ethertype_chirho = be16_chirho(data_chirho[12], data_chirho[13]);
        let payload_chirho = copy_range_chirho(data_chirho, 14, data_chirho.len());
        Some(EthernetFrameChirho { dst_mac_chirho, src_mac_chirho, ethertype_chirho, payload_chirho })
    }

    /// The frame's bytes.
    pub fn build_chirho(&self) -> (r: Vec<u8>)
        ensures
            r@ == ethernet_bytes_spec(self.dst_mac_chirho@, self.src_mac_chirho@, self.ethertype_chirho, self.payload_chirho@),
    {
        let mut buf_chirho: Vec<u8> = Vec::new();
        push_all_chirho(&mut buf_chirho, &self.dst_mac_chirho);
        push_all_chirho(&mut buf_chirho, &self.src_mac_chirho);
        push_u16_be_chirho(&mut buf_chirho, self.ethertype_chirho);
        push_all_chirho(&mut buf_chirho, self.payload_chirho.as_slice());
        assert(buf_chirho@ =~= ethernet_bytes_spec(self.dst_mac_chirho@, self.src_mac_chirho@, self.ethertype_chirho, self.payload_chirho@));
        buf_chirho
    }
}

/// Parsing the bytes of a built frame gives back every field.
pub proof fn lemma_ethernet_roundtrip(f: EthernetFrameChirho, g: EthernetFrameChirho)
    requires
        ethernet_parsed_from(g, ethernet_bytes_spec(f.dst_mac_chirho@, f.src_mac_chirho@, f.ethertype_chirho, f.payload_chirho@)),
    ensures
        g.dst_mac_chirho@ == f.dst_mac_chirho@,
        g.src_mac_chirho@ == f.src_mac_chirho@,
        g.ethertype_chirho == f.ethertype_chirho,
        g.payload_chirho@ == f.payload_chirho@,
{
    let d = ethernet_bytes_spec(f.dst_mac_chirho@, f.src_mac_chirho@, f.ethertype_chirho, f.payload_chirho@);
    assert(d.subrange(0, 6) =~= f.dst_mac_chirho@);
    assert(d.subrange(6, 12) =~= f.src_mac_chirho@);
    assert(d.subrange(14, d.len() as int) =~= f.payload_chirho@);
    assert(d[12] == u16_be_spec(f.ethertype_chirho)[0]);
    assert(d[13] == u16_be_spec(f.ethertype_chirho)[1]);
    lemma_be16_roundtrip(f.ethertype_chirho);
}

/// Building a parsed frame gives back the frame's bytes.
pub proof fn lemma_ethernet_rebuild(f: EthernetFrameChirho, d: Seq<u8>)
    requires
        ethernet_parsed_from(f, d),
    ensures
        ethernet_bytes_spec(f.dst_mac_chirho@, f.src_mac_chirho@, f.ethertype_chirho, f.payload_chirho@) == d,
        ethernet_bytes_spec(f.dst_mac_chirho@, f.src_mac_chirho@, f.ethertype_chirho, f.payload_chirho@).len()
            == 14 + f.payload_chirho@.len(),
{
    lemma_be16_split(d[12], d[13]);
    assert(ethernet_bytes_spec(f.dst_mac_chirho@, f.src_mac_chirho@, f.ethertype_chirho, f.payload_chirho@) =~= d);
}

// ---------------------------------------------------------------------------
// IPv4
// ---------------------------------------------------------------------------

/// An IPv4 header (RFC 791), without options.
#[derive(Debug, Clone, Copy)]
pub struct Ipv4HeaderChirho {
    pub version_chirho: u8,
    pub ihl_chirho: u8,
    pub tos_chirho: u8,
    pub total_length_chirho: u16,
    pub id_chirho: u16,
    pub flags_chirho: u8,
    pub fragment_offset_chirho: u16,
    pub ttl_chirho: u8,
    pub protocol_chirho: u8,
    pub checksum_chirho: u16,
    pub src_ip_chirho: u32,
    pub dst_ip_chirho: u32,
}

/// The 20 header bytes with the given checksum field.
pub open spec fn ipv4_bytes_with_checksum(h: Ipv4HeaderChirho, ck: u16) -> Seq<u8> {
    seq![((h.version_chirho % 16) * 16 + h.ihl_chirho % 16) as u8, h.tos_chirho]
        + u16_be_spec(h.total_length_chirho) + u16_be_spec(h.id_chirho)
        + u16_be_spec(((h.flags_chirho % 8) * 8192 + h.fragment_offset_chirho % 8192) as u16)
        + seq![h.ttl_chirho, h.protocol_chirho] + u16_be_spec(ck)
        + u32_be_spec(h.src_ip_chirho) + u32_be_spec(h.dst_ip_chirho)
}

/// The bytes `build_chirho` produces: the header with its checksum computed
/// over the header with a zero checksum field.
pub open spec fn ipv4_bytes_spec(h: Ipv4HeaderChirho) -> Seq<u8> {
    ipv4_bytes_with_checksum(h, checksum_spec(ipv4_bytes_with_checksum(h, 0)))
}

/// The header read from `d`, when `d` has 20 bytes or more and version 4.
pub open spec fn ipv4_parse_spec(d: Seq<u8>) -> Option<Ipv4HeaderChirho> {
    if d.len() < 20 || d[0] / 16 != 4 {
        None
    } else {
        let ff = be16_spec(d[6], d[7]);
        Some(Ipv4HeaderChirho {
            version_chirho: d[0] / 16,
            ihl_chirho: d[0] % 16,
            tos_chirho: d[1],
            total_length_chirho: be16_spec(d[2], d[3]),
            id_chirho: be16_spec(d[4], d[5]),
            flags_chirho: (ff / 8192) as u8,
            fragment_offset_chirho: ff % 8192,
            ttl_chirho: d[8],
            protocol_chirho: d[9],
            checksum_chirho: be16_spec(d[10], d[11]),
            src_ip_chirho: be32_spec(d[12], d[13], d[14], d[15]),
            dst_ip_chirho: be32_spec(d[16], d[17], d[18], d[19]),
        })
    }
}

impl Ipv4HeaderChirho {
    /// Parse a header; `None` when shorter than 20 bytes or not version 4.
    pub fn parse_chirho(data_chirho: &[u8]) -> (r: Option<Ipv4HeaderChirho>)
        ensures
            r == ipv4_parse_spec(data_chirho@),
    {
        if data_chirho.len() < 20 {
            return None;
        }
        let version_chirho = data_chirho[0] / 16;
        if version_chirho != 4 {
            return None;
        }
        let ff_chirho = be16_chirho(data_chirho[6], data_chirho[7]);
        Some(Ipv4HeaderChirho {
            version_chirho,
            ihl_chirho: data_chirho[0] % 16,
            tos_chirho: data_chirho[1],
            total_length_chirho: be16_chirho(data_chirho[2], data_chirho[3]),
            id_chirho: be16_chirho(data_chirho[4], data_chirho[5]),
            flags_chirho: (ff_chirho / 8192) as u8,
            fragment_offset_chirho: ff_chirho % 8192,
            ttl_chirho: data_chirho[8],
            protocol_chirho: data_chirho[9],
            checksum_chirho: be16_chirho(data_chirho[10], data_chirho[11]),
            src_ip_chirho: be32_chirho(data_chirho[12], data_chirho[13], data_chirho[14], data_chirho[15]),
            dst_ip_chirho: be32_chirho(data_chirho[16], data_chirho[17], data_chirho[18], data_chirho[19]),
        })
    }

    /// The 20 header bytes; the checksum field is computed, the stored one
    /// is ignored.
    pub fn build_chirho(&self) -> (r: Vec<u8>)
        ensures
            r@ == ipv4_bytes_spec(*self),
            r@.len() == 20,
    {
        let mut buf_chirho: Vec<u8> = Vec::new();
        buf_chirho.push(((self.version_chirho % 16) * 16 + self.ihl_chirho % 16) as u8);
        buf_chirho.push(self.tos_chirho);
        push_u16_be_chirho(&mut buf_chirho, self.total_length_chirho);
        push_u16_be_chirho(&mut buf_chirho, self.id_chirho);
        let ff_chirho: u16 = ((self.flags_chirho % 8) as u16) * 8192 + self.fragment_offset_chirho % 8192;
        push_u16_be_chirho(&mut buf_chirho, ff_chirho);
        buf_chirho.push(self.ttl_chirho);
        buf_chirho.push(self.protocol_chirho);
        push_u16_be_chirho(&mut buf_chirho, 0);
        push_u32_be_chirho(&mut buf_chirho, self.src_ip_chirho);
        push_u32_be_chirho(&mut buf_chirho, self.dst_ip_chirho);
        assert(buf_chirho@ =~= ipv4_bytes_with_checksum(*self, 0));
        let cksum_chirho = ipv4_checksum_chirho(buf_chirho.as_slice());
        buf_chirho.set(10, (cksum_chirho / 256) as u8);
        buf_chirho.set(11, (cksum_chirho % 256) as u8);
        assert(buf_chirho@ =~= ipv4_bytes_spec(*self));
        buf_chirho
    }
}

/// Parsing a built header gives back every field but the checksum, when the
/// fields fit their bit widths and the version is 4.
pub proof fn lemma_ipv4_roundtrip(h: Ipv4HeaderChirho)
    requires
        h.version_chirho == 4,
        h.ihl_chirho < 16,
        h.flags_chirho < 8,
        h.fragment_offset_chirho < 8192,
    ensures
        ipv4_parse_spec(ipv4_bytes_spec(h)) matches Some(g) && g.version_chirho == h.version_chirho
            && g.ihl_chirho == h.ihl_chirho && g.tos_chirho == h.tos_chirho
            && g.total_length_chirho == h.total_length_chirho && g.id_chirho == h.id_chirho
            && g.flags_chirho == h.flags_chirho && g.fragment_offset_chirho == h.fragment_offset_chirho
            && g.ttl_chirho == h.ttl_chirho && g.protocol_chirho == h.protocol_chirho
            && g.src_ip_chirho == h.src_ip_chirho && g.dst_ip_chirho == h.dst_ip_chirho,
{
    let ck = checksum_spec(ipv4_bytes_with_checksum(h, 0));
    let d = ipv4_bytes_spec(h);
    let ff = ((h.flags_chirho % 8) * 8192 + h.fragment_offset_chirho % 8192) as u16;
    assert(d[2] == u16_be_spec(h.total_length_chirho)[0] && d[3] == u16_be_spec(h.total_length_chirho)[1]);
    assert(d[4] == u16_be_spec(h.id_chirho)[0] && d[5] == u16_be_spec(h.id_chirho)[1]);
    assert(d[6] == u16_be_spec(ff)[0] && d[7] == u16_be_spec(ff)[1]);
    assert(d[12] == u32_be_spec(h.src_ip_chirho)[0] && d[13] == u32_be_spec(h.src_ip_chirho)[1]);
    assert(d[14] == u32_be_spec(h.src_ip_chirho)[2] && d[15] == u32_be_spec(h.src_ip_chirho)[3]);
    assert(d[16] == u32_be_spec(h.dst_ip_chirho)[0] && d[17] == u32_be_spec(h.dst_ip_chirho)[1]);
    assert(d[18] == u32_be_spec(h.dst_ip_chirho)[2] && d[19] == u32_be_spec(h.dst_ip_chirho)[3]);
    lemma_be16_roundtrip(h.total_length_chirho);
    lemma_be16_roundtrip(h.id_chirho);
    lemma_be16_roundtrip(ff);
    lemma_be32_roundtrip(h.src_ip_chirho);
    lemma_be32_roundtrip(h.dst_ip_chirho);
}


/// A built header checksums to zero: a receiver that checksums the 20
/// bytes finds them intact.
pub proof fn lemma_ipv4_header_verifies(h: Ipv4HeaderChirho)
    ensures
        checksum_spec(ipv4_bytes_spec(h)) == 0,
        ipv4_bytes_spec(h).len() == 20,
{
    let d = ipv4_bytes_with_checksum(h, 0);
    let c = checksum_spec(d);
    lemma_checksum_verifies(d, 10);
    assert(ipv4_bytes_spec(h) =~= d.update(10, (c / 256) as u8).update(11, (c % 256) as u8));
}

// ---------------------------------------------------------------------------
// ARP
// ---------------------------------------------------------------------------

/// An ARP packet for IPv4 over Ethernet.
#[derive(Debug, Clone, Copy)]
pub struct ArpPacketChirho {
    pub htype_chirho: u16,
    pub ptype_chirho: u16,
    pub hlen_chirho: u8,
    pub plen_chirho: u8,
    pub operation_chirho: u16,
    pub sender_ha_chirho: [u8; 6],
    pub sender_pa_chirho: u32,
    pub target_ha_chirho: [u8; 6],
    pub target_pa_chirho: u32,
}

/// The 28 bytes of an ARP packet.
pub open spec fn arp_bytes_spec(a: ArpPacketChirho) -> Seq<u8> {
    u16_be_spec(a.htype_chirho) + u16_be_spec(a.ptype_chirho) + seq![a.hlen_chirho, a.plen_chirho]
        + u16_be_spec(a.operation_chirho) + a.sender_ha_chirho@ + u32_be_spec(a.sender_pa_chirho)
        + a.target_ha_chirho@ + u32_be_spec(a.target_pa_chirho)
}

/// `a` holds the fields read from the ARP bytes `d`.
pub open spec fn arp_parsed_from(a: ArpPacketChirho, d: Seq<u8>) -> bool {
    &&& d.len() >= 28
    &&& a.htype_chirho == be16_spec(d[0], d[1])
    &&& a.ptype_chirho == be16_spec(d[2], d[3])
    &&& a.hlen_chirho == d[4]
    &&& a.plen_chirho == d[5]
    &&& a.operation_chirho == be16_spec(d[6], d[7])
    &&& a.sender_ha_chirho@ == d.subrange(8, 14)
    &&& a.sender_pa_chirho == be32_spec(d[14], d[15], d[16], d[17])
    &&& a.target_ha_chirho@ == d.subrange(18, 24)
    &&& a.target_pa_chirho == be32_spec(d[24], d[25], d[26], d[27])
}

impl ArpPacketChirho {
    /// Parse an ARP packet; `None` when shorter than 28 bytes.
    pub fn parse_chirho(data_chirho: &[u8]) -> (r: Option<ArpPacketChirho>)
        ensures
            r is None <==> data_chirho@.len() < 28,
            r matches Some(a) ==> arp_parsed_from(a, data_chirho@),
    {
        if data_chirho.len() < 28 {
            return None;
        }
        let d = data_chirho;
        Some(ArpPacketChirho {
            htype_chirho: be16_chirho(d[0], d[1]),
            ptype_chirho: be16_chirho(d[2], d[3]),
            hlen_chirho: d[4],
            plen_chirho: d[5],
            operation_chirho: be16_chirho(d[6], d[7]),
            sender_ha_chirho: mac_at_chirho(d, 8),
            sender_pa_chirho: be32_chirho(d[14], d[15], d[16], d[17]),
            target_ha_chirho: mac_at_chirho(d, 18),
            target_pa_chirho: be32_chirho(d[24], d[25], d[26], d[27]),
        })
    }

    /// The 28 bytes of the packet.
    pub fn build_chirho(&self) -> (r: Vec<u8>)
        ensures
            r@ == arp_bytes_spec(*self),
    {
        let mut buf_chirho: Vec<u8> = Vec::new();
        push_u16_be_chirho(&mut buf_chirho, self.htype_chirho);
        push_u16_be_chirho(&mut buf_chirho, self.ptype_chirho);
        buf_chirho.push(self.hlen_chirho);
        buf_chirho.push(self.plen_chirho);
        push_u16_be_chirho(&mut buf_chirho, self.operation_chirho);
        push_all_chirho(&mut buf_chirho, &self.sender_ha_chirho);
        push_u32_be_chirho(&mut buf_chirho, self.sender_pa_chirho);
        push_all_chirho(&mut buf_chirho, &self.target_ha_chirho);
        push_u32_be_chirho(&mut buf_chirho, self.target_pa_chirho);
        assert(buf_chirho@ =~= arp_bytes_spec(*self));
        buf_chirho
    }
}

/// Parsing the bytes of a built ARP packet gives back the packet.
pub proof fn lemma_arp_roundtrip(a: ArpPacketChirho, g: ArpPacketChirho)
    requires
        arp_parsed_from(g, arp_bytes_spec(a)),
    ensures
        g == a,
{
    let d = arp_bytes_spec(a);
    assert(d.subrange(8, 14) =~= a.sender_ha_chirho@);
    assert(d.subrange(18, 24) =~= a.target_ha_chirho@);
    assert(g.sender_ha_chirho@ =~= a.sender_ha_chirho@);
    assert(g.target_ha_chirho@ =~= a.target_ha_chirho@);
    assert(d[0] == u16_be_spec(a.htype_chirho)[0] && d[1] == u16_be_spec(a.htype_chirho)[1]);
    assert(d[2] == u16_be_spec(a.ptype_chirho)[0] && d[3] == u16_be_spec(a.ptype_chirho)[1]);
    assert(d[6] == u16_be_spec(a.operation_chirho)[0] && d[7] == u16_be_spec(a.operation_chirho)[1]);
    assert(d[14] == u32_be_spec(a.sender_pa_chirho)[0] && d[15] == u32_be_spec(a.sender_pa_chirho)[1]);
    assert(d[16] == u32_be_spec(a.sender_pa_chirho)[2] && d[17] == u32_be_spec(a.sender_pa_chirho)[3]);
    assert(d[24] == u32_be_spec(a.target_pa_chirho)[0] && d[25] == u32_be_spec(a.target_pa_chirho)[1]);
    assert(d[26] == u32_be_spec(a.target_pa_chirho)[2] && d[27] == u32_be_spec(a.target_pa_chirho)[3]);
    lemma_be16_roundtrip(a.htype_chirho);
    lemma_be16_roundtrip(a.ptype_chirho);
    lemma_be16_roundtrip(a.operation_chirho);
    lemma_be32_roundtrip(a.sender_pa_chirho);
    lemma_be32_roundtrip(a.target_pa_chirho);
    assert(g.sender_ha_chirho == a.sender_ha_chirho);
    assert(g.target_ha_chirho == a.target_ha_chirho);
}

/// Building a parsed ARP packet gives back its first 28 bytes (what follows
/// them is not read).
pub proof fn lemma_arp_rebuild(a: ArpPacketChirho, d: Seq<u8>)
    requires
        arp_parsed_from(a, d),
    ensures
        arp_bytes_spec(a) == d.subrange(0, 28),
{
    lemma_be16_split(d[0], d[1]);
    lemma_be16_split(d[2], d[3]);
    lemma_be16_split(d[6], d[7]);
    lemma_be32_split(d[14], d[15], d[16], d[17]);
    lemma_be32_split(d[24], d[25], d[26], d[27]);
    assert(arp_bytes_spec(a) =~= d.subrange(0, 28));
}

// ---------------------------------------------------------------------------
// ICMP echo
// ---------------------------------------------------------------------------

/// An ICMP echo request or reply.
#[derive(Debug, Clone)]
pub struct IcmpPacketChirho {
    pub type_chirho: u8,
    pub code_chirho: u8,
    pub checksum_chirho: u16,
    pub id_chirho: u16,
    pub sequence_chirho: u16,
    pub data_chirho: Vec<u8>,
}

/// The bytes of an ICMP echo message with the given checksum field.
pub open spec fn echo_bytes_with_checksum(ty: u8, code: u8, ck: u16, id: u16, seqno: u16, data: Seq<u8>) -> Seq<u8> {
    seq![ty, code] + u16_be_spec(ck) + u16_be_spec(id) + u16_be_spec(seqno) + data
}

/// The bytes `build_chirho` produces: the checksum is computed over the
/// message with a zero checksum field.
pub open spec fn echo_bytes_spec(ty: u8, code: u8, id: u16, seqno: u16, data: Seq<u8>) -> Seq<u8> {
    echo_bytes_with_checksum(ty, code, checksum_spec(echo_bytes_with_checksum(ty, code, 0, id, seqno, data)), id, seqno, data)
}

/// `p` holds the fields read from the ICMP bytes `d`.
pub open spec fn echo_parsed_from(p: IcmpPacketChirho, d: Seq<u8>) -> bool {
    &&& d.len() >= 8
    &&& p.type_chirho == d[0]
    &&& p.code_chirho == d[1]
    &&& p.checksum_chirho == be16_spec(d[2], d[3])
    &&& p.id_chirho == be16_spec(d[4], d[5])
    &&& p.sequence_chirho == be16_spec(d[6], d[7])
    &&& p.data_chirho@ == d.skip(8)
}

impl IcmpPacketChirho {
    /// Parse an ICMP message; `None` when shorter than 8 bytes.
    pub fn parse_chirho(data_chirho: &[u8]) -> (r: Option<IcmpPacketChirho>)
        ensures
            r is None <==> data_chirho@.len() < 8,
            r matches Some(p) ==> echo_parsed_from(p, data_chirho@),
    {
        if data_chirho.len() < 8 {
            return None;
        }
        let d = data_chirho;
        Some(IcmpPacketChirho {
            type_chirho: d[0],
            code_chirho: d[1],
            checksum_chirho: be16_chirho(d[2], d[3]),
            id_chirho: be16_chirho(d[4], d[5]),
            sequence_chirho: be16_chirho(d[6], d[7]),
            data_chirho: copy_range_chirho(d, 8, d.len()),
        })
    }

    /// The message bytes with the checksum computed; the stored checksum
    /// is ignored.
    pub fn build_chirho(&self) -> (r: Vec<u8>)
        requires
            self.data_chirho@.len() + 8 <= 131074,
        ensures
            r@ == echo_bytes_spec(self.type_chirho, self.code_chirho, self.id_chirho, self.sequence_chirho, self.data_chirho@),
    {
        let mut buf_chirho: Vec<u8> = Vec::new();
        buf_chirho.push(self.type_chirho);
        buf_chirho.push(self.code_chirho);
        push_u16_be_chirho(&mut buf_chirho, 0);
        push_u16_be_chirho(&mut buf_chirho, self.id_chirho);
        push_u16_be_chirho(&mut buf_chirho, self.sequence_chirho);
        push_all_chirho(&mut buf_chirho, self.data_chirho.as_slice());
        assert(buf_chirho@ =~= echo_bytes_with_checksum(self.type_chirho, self.code_chirho, 0, self.id_chirho, self.sequence_chirho, self.data_chirho@));
        let cksum_chirho = ipv4_checksum_chirho(buf_chirho.as_slice());
        set_u16_be_chirho(&mut buf_chirho, 2, cksum_chirho);
        assert(buf_chirho@ =~= echo_bytes_spec(self.type_chirho, self.code_chirho, self.id_chirho, self.sequence_chirho, self.data_chirho@));
        buf_chirho
    }
}

/// A built ICMP message checksums to zero, whatever its data.
pub proof fn lemma_echo_verifies(ty: u8, code: u8, id: u16, seqno: u16, data: Seq<u8>)
    ensures
        checksum_spec(echo_bytes_spec(ty, code, id, seqno, data)) == 0,
        echo_bytes_spec(ty, code, id, seqno, data).len() == 8 + data.len(),
{
    let d = echo_bytes_with_checksum(ty, code, 0, id, seqno, data);
    let c = checksum_spec(d);
    lemma_checksum_verifies(d, 2);
    assert(echo_bytes_spec(ty, code, id, seqno, data) =~= d.update(2, (c / 256) as u8).update(3, (c % 256) as u8));
}

/// Parsing the bytes of a built ICMP message gives back its type, code,
/// identifier, sequence number and data.
pub proof fn lemma_echo_roundtrip(p: IcmpPacketChirho, g: IcmpPacketChirho)
    requires
        echo_parsed_from(g, echo_bytes_spec(p.type_chirho, p.code_chirho, p.id_chirho, p.sequence_chirho, p.data_chirho@)),
    ensures
        g.type_chirho == p.type_chirho,
        g.code_chirho == p.code_chirho,
        g.id_chirho == p.id_chirho,
        g.sequence_chirho == p.sequence_chirho,
        g.data_chirho@ == p.data_chirho@,
{
    let d = echo_bytes_spec(p.type_chirho, p.code_chirho, p.id_chirho, p.sequence_chirho, p.data_chirho@);
    assert(d[4] == u16_be_spec(p.id_chirho)[0] && d[5] == u16_be_spec(p.id_chirho)[1]);
    assert(d[6] == u16_be_spec(p.sequence_chirho)[0] && d[7] == u16_be_spec(p.sequence_chirho)[1]);
    assert(d.skip(8) =~= p.data_chirho@);
    lemma_be16_roundtrip(p.id_chirho);
    lemma_be16_roundtrip(p.sequence_chirho);
}

// ---------------------------------------------------------------------------
// TCP segments
// ---------------------------------------------------------------------------

/// A TCP segment header and payload (RFC 793).
#[derive(Debug, Clone)]
pub struct TcpSegmentChirho {
    pub src_port_chirho: u16,
    pub dst_port_chirho: u16,
    pub seq_num_chirho: u32,
    pub ack_num_chirho: u32,
    /// Header length in 32-bit words.
    pub data_offset_chirho: u8,
    pub flags_chirho: u8,
    pub window_chirho: u16,
    pub checksum_chirho: u16,
    pub urgent_ptr_chirho: u16,
    pub payload_chirho: Vec<u8>,
}

/// The bytes of a TCP segment as `build_chirho` writes them: the data
/// offset in the high nibble of byte 12, the low six flag bits in byte 13,
/// the stored checksum, then the payload.
pub open spec fn tcp_bytes_spec(s: TcpSegmentChirho) -> Seq<u8> {
    u16_be_spec(s.src_port_chirho) + u16_be_spec(s.dst_port_chirho) + u32_be_spec(s.seq_num_chirho)
        + u32_be_spec(s.ack_num_chirho) + seq![((s.data_offset_chirho % 16) * 16) as u8, s.flags_chirho % 64]
        + u16_be_spec(s.window_chirho) + u16_be_spec(s.checksum_chirho) + u16_be_spec(s.urgent_ptr_chirho)
        + s.payload_chirho@
}

/// `s` holds the fields read from the TCP bytes `d`; the payload starts
/// after the header length the data offset gives.
pub open spec fn tcp_parsed_from(s: TcpSegmentChirho, d: Seq<u8>) -> bool {
    let hl = (d[12] / 16) as int * 4;
    &&& d.len() >= 20
    &&& s.src_port_chirho == be16_spec(d[0], d[1])
    &&& s.dst_port_chirho == be16_spec(d[2], d[3])
    &&& s.seq_num_chirho == be32_spec(d[4], d[5], d[6], d[7])
    &&& s.ack_num_chirho == be32_spec(d[8], d[9], d[10], d[11])
    &&& s.data_offset_chirho == d[12] / 16
    &&& s.flags_chirho == d[13] % 64
    &&& s.window_chirho == be16_spec(d[14], d[15])
    &&& s.checksum_chirho == be16_spec(d[16], d[17])
    &&& s.urgent_ptr_chirho == be16_spec(d[18], d[19])
    &&& s.payload_chirho@ == (if d.len() > hl { d.subrange(hl, d.len() as int) } else { Seq::<u8>::empty() })
}

/// The pseudo-header (RFC 793) followed by `seg`, with the segment's
/// checksum field set to zero.
pub open spec fn pseudo_header_spec(src: u32, dst: u32, proto: u8, seg: Seq<u8>) -> Seq<u8> {
    u32_be_spec(src) + u32_be_spec(dst) + seq![0u8, proto] + u16_be_spec((seg.len() % 65536) as u16) + seg
}

/// The TCP checksum of `s` between `src` and `dst`.
pub open spec fn tcp_checksum_spec(s: TcpSegmentChirho, src: u32, dst: u32) -> u16 {
    checksum_spec(pseudo_header_spec(src, dst, IP_PROTO_TCP_CHIRHO, tcp_bytes_spec(s)).update(28, 0u8).update(29, 0u8))
}

/// A segment carrying its checksum checksums to zero together with its
/// pseudo-header: a receiver between the same addresses finds it intact.
pub proof fn lemma_tcp_checksum_verifies(s: TcpSegmentChirho, src: u32, dst: u32)
    ensures
        checksum_spec(pseudo_header_spec(src, dst, IP_PROTO_TCP_CHIRHO,
            tcp_bytes_spec(TcpSegmentChirho { checksum_chirho: tcp_checksum_spec(s, src, dst), ..s }))) == 0,
{
    let d = pseudo_header_spec(src, dst, IP_PROTO_TCP_CHIRHO, tcp_bytes_spec(s)).update(28, 0u8).update(29, 0u8);
    let c = tcp_checksum_spec(s, src, dst);
    lemma_checksum_verifies(d, 28);
    assert(pseudo_header_spec(src, dst, IP_PROTO_TCP_CHIRHO, tcp_bytes_spec(TcpSegmentChirho { checksum_chirho: c, ..s }))
        =~= d.update(28, (c / 256) as u8).update(29, (c % 256) as u8));
}

impl TcpSegmentChirho {
    /// Parse a segment; `None` when shorter than 20 bytes.
    pub fn parse_chirho(data_chirho: &[u8]) -> (r: Option<TcpSegmentChirho>)
        ensures
            r is None <==> data_chirho@.len() < 20,
            r matches Some(s) ==> tcp_parsed_from(s, data_chirho@),
    {
        if data_chirho.len() < 20 {
            return None;
        }
        let d = data_chirho;
        let data_offset_chirho = d[12] / 16;
        let header_len_chirho = (data_offset_chirho as usize) * 4;
        let payload_chirho = if d.len() > header_len_chirho {
            copy_range_chirho(d, header_len_chirho, d.len())
        } else {
            Vec::new()
        };
        Some(TcpSegmentChirho {
            src_port_chirho: be16_chirho(d[0], d[1]),
            dst_port_chirho: be16_chirho(d[2], d[3]),
            seq_num_chirho: be32_chirho(d[4], d[5], d[6], d[7]),
            ack_num_chirho: be32_chirho(d[8], d[9], d[10], d[11]),
            data_offset_chirho,
            flags_chirho: d[13] % 64,
            window_chirho: be16_chirho(d[14], d[15]),
            checksum_chirho: be16_chirho(d[16], d[17]),
            urgent_ptr_chirho: be16_chirho(d[18], d[19]),
            payload_chirho,
        })
    }

    /// The segment's bytes, with the stored checksum.
    pub fn build_chirho(&self) -> (r: Vec<u8>)
        ensures
            r@ == tcp_bytes_spec(*self),
    {
        let mut buf_chirho: Vec<u8> = Vec::new();
        push_u16_be_chirho(&mut buf_chirho, self.src_port_chirho);
        push_u16_be_chirho(&mut buf_chirho, self.dst_port_chirho);
        push_u32_be_chirho(&mut buf_chirho, self.seq_num_chirho);
        push_u32_be_chirho(&mut buf_chirho, self.ack_num_chirho);
        buf_chirho.push(((self.data_offset_chirho % 16) * 16) as u8);
        buf_chirho.push(self.flags_chirho % 64);
        push_u16_be_chirho(&mut buf_chirho, self.window_chirho);
        push_u16_be_chirho(&mut buf_chirho, self.checksum_chirho);
        push_u16_be_chirho(&mut buf_chirho, self.urgent_ptr_chirho);
        push_all_chirho(&mut buf_chirho, self.payload_chirho.as_slice());
        assert(buf_chirho@ =~= tcp_bytes_spec(*self));
        buf_chirho
    }

    /// The TCP checksum over the pseudo-header and the segment.
    pub fn compute_checksum_chirho(&self, src_ip_chirho: u32, dst_ip_chirho: u32) -> (r: u16)
        requires
            self.payload_chirho@.len() + 32 <= 131074,
        ensures
            r == tcp_checksum_spec(*self, src_ip_chirho, dst_ip_chirho),
    {
        let segment_chirho = self.build_chirho();
        let tcp_len_chirho = (segment_chirho.len() % 65536) as u16;
        let mut pseudo_chirho: Vec<u8> = Vec::new();
        push_u32_be_chirho(&mut pseudo_chirho, src_ip_chirho);
        push_u32_be_chirho(&mut pseudo_chirho, dst_ip_chirho);
        pseudo_chirho.push(0);
        pseudo_chirho.push(IP_PROTO_TCP_CHIRHO);
        push_u16_be_chirho(&mut pseudo_chirho, tcp_len_chirho);
        push_all_chirho(&mut pseudo_chirho, segment_chirho.as_slice());
        assert(pseudo_chirho@ =~= pseudo_header_spec(src_ip_chirho, dst_ip_chirho, IP_PROTO_TCP_CHIRHO, tcp_bytes_spec(*self)));
        pseudo_chirho.set(28, 0);
        pseudo_chirho.set(29, 0);
        ipv4_checksum_chirho(pseudo_chirho.as_slice())
    }
}

/// Parsing the bytes of a built segment gives back every field, when the
/// data offset fits its nibble and is the standard five words and the
/// flags fit their six bits.
pub proof fn lemma_tcp_roundtrip(s: TcpSegmentChirho, g: TcpSegmentChirho)
    requires
        s.data_offset_chirho == 5,
        s.flags_chirho < 64,
        tcp_parsed_from(g, tcp_bytes_spec(s)),
    ensures
        g.src_port_chirho == s.src_port_chirho,
        g.dst_port_chirho == s.dst_port_chirho,
        g.seq_num_chirho == s.seq_num_chirho,
        g.ack_num_chirho == s.ack_num_chirho,
        g.data_offset_chirho == s.data_offset_chirho,
        g.flags_chirho == s.flags_chirho,
        g.window_chirho == s.window_chirho,
        g.checksum_chirho == s.checksum_chirho,
        g.urgent_ptr_chirho == s.urgent_ptr_chirho,
        g.payload_chirho@ == s.payload_chirho@,
{
    let d = tcp_bytes_spec(s);
    assert(d[0] == u16_be_spec(s.src_port_chirho)[0] && d[1] == u16_be_spec(s.src_port_chirho)[1]);
    assert(d[2] == u16_be_spec(s.dst_port_chirho)[0] && d[3] == u16_be_spec(s.dst_port_chirho)[1]);
    assert(d[4] == u32_be_spec(s.seq_num_chirho)[0] && d[5] == u32_be_spec(s.seq_num_chirho)[1]);
    assert(d[6] == u32_be_spec(s.seq_num_chirho)[2] && d[7] == u32_be_spec(s.seq_num_chirho)[3]);
    assert(d[8] == u32_be_spec(s.ack_num_chirho)[0] && d[9] == u32_be_spec(s.ack_num_chirho)[1]);
    assert(d[10] == u32_be_spec(s.ack_num_chirho)[2] && d[11] == u32_be_spec(s.ack_num_chirho)[3]);
    assert(d[12] == 80u8 && d[13] == s.flags_chirho);
    assert(d[14] == u16_be_spec(s.window_chirho)[0] && d[15] == u16_be_spec(s.window_chirho)[1]);
    assert(d[16] == u16_be_spec(s.checksum_chirho)[0] && d[17] == u16_be_spec(s.checksum_chirho)[1]);
    assert(d[18] == u16_be_spec(s.urgent_ptr_chirho)[0] && d[19] == u16_be_spec(s.urgent_ptr_chirho)[1]);
    lemma_be16_roundtrip(s.src_port_chirho);
    lemma_be16_roundtrip(s.dst_port_chirho);
    lemma_be32_roundtrip(s.seq_num_chirho);
    lemma_be32_roundtrip(s.ack_num_chirho);
    lemma_be16_roundtrip(s.window_chirho);
    lemma_be16_roundtrip(s.checksum_chirho);
    lemma_be16_roundtrip(s.urgent_ptr_chirho);
    if d.len() > 20 {
        assert(d.subrange(20, d.len() as int) =~= s.payload_chirho@);
    } else {
        assert(s.payload_chirho@ =~= Seq::<u8>::empty());
    }
}

// ---------------------------------------------------------------------------
// UDP
// ---------------------------------------------------------------------------

/// A UDP datagram (RFC 768).
#[derive(Debug, Clone)]
pub struct UdpDatagramChirho {
    pub src_port_chirho: u16,
    pub dst_port_chirho: u16,
    /// Length of header and payload as carried on the wire.
    pub length_chirho: u16,
    /// Checksum (0 = not computed).
    pub checksum_chirho: u16,
    pub payload_chirho: Vec<u8>,
}

/// The payload length a parsed datagram keeps: the length field less the
/// header, cut to the bytes present.
pub open spec fn udp_payload_len_spec(d: Seq<u8>) -> int {
    let length = be16_spec(d[4], d[5]) as int;
    if length > 8 {
        if length - 8 <= d.len() - 8 { length - 8 } else { d.len() - 8 }
    } else {
        0
    }
}

/// `u` holds the fields read from the UDP bytes `d`.
pub open spec fn udp_parsed_from(u: UdpDatagramChirho, d: Seq<u8>) -> bool {
    &&& d.len() >= 8
    &&& u.src_port_chirho == be16_spec(d[0], d[1])
    &&& u.dst_port_chirho == be16_spec(d[2], d[3])
    &&& u.length_chirho == be16_spec(d[4], d[5])
    &&& u.checksum_chirho == be16_spec(d[6], d[7])
    &&& u.payload_chirho@ == d.subrange(8, 8 + udp_payload_len_spec(d))
}

/// The bytes `build_chirho` writes: the length field is computed from the
/// payload, the checksum field is zero.
pub open spec fn udp_bytes_with_checksum(u: UdpDatagramChirho, ck: u16) -> Seq<u8> {
    u16_be_spec(u.src_port_chirho) + u16_be_spec(u.dst_port_chirho)
        + u16_be_spec(((8 + u.payload_chirho@.len()) % 65536) as u16) + u16_be_spec(ck) + u.payload_chirho@
}

/// The bytes `build_with_checksum_chirho` writes: the checksum over the
/// pseudo-header, with a computed zero sent as 0xFFFF.
pub open spec fn udp_checksummed_bytes_spec(u: UdpDatagramChirho, src: u32, dst: u32) -> Seq<u8> {
    let ck = checksum_spec(pseudo_header_spec(src, dst, IP_PROTO_UDP_CHIRHO, udp_bytes_with_checksum(u, 0)));
    udp_bytes_with_checksum(u, if ck == 0 { 0xFFFFu16 } else { ck })
}

/// A datagram built with its checksum checksums to zero together with its
/// pseudo-header, also when the computed zero went out as 0xFFFF.
pub proof fn lemma_udp_checksum_verifies(u: UdpDatagramChirho, src: u32, dst: u32)
    ensures
        checksum_spec(pseudo_header_spec(src, dst, IP_PROTO_UDP_CHIRHO, udp_checksummed_bytes_spec(u, src, dst))) == 0,
{
    let d = pseudo_header_spec(src, dst, IP_PROTO_UDP_CHIRHO, udp_bytes_with_checksum(u, 0));
    let c = checksum_spec(d);
    let w: u16 = if c == 0 { 0xFFFFu16 } else { c };
    assert(d[18] == 0 && d[19] == 0);
    assert(pseudo_header_spec(src, dst, IP_PROTO_UDP_CHIRHO, udp_checksummed_bytes_spec(u, src, dst))
        =~= d.update(18, (w / 256) as u8).update(19, (w % 256) as u8));
    if c == 0 {
        lemma_checksum_verifies_ones(d, 18);
    } else {
        lemma_checksum_verifies(d, 18);
    }
}

/// Parsing what `build_chirho` writes gives the datagram back: its ports
/// and payload, the computed length, and a zero checksum (for a payload that
/// fits a datagram).
pub proof fn lemma_udp_roundtrip(u: UdpDatagramChirho, g: UdpDatagramChirho)
    requires
        8 + u.payload_chirho@.len() <= 65535,
        udp_parsed_from(g, udp_bytes_with_checksum(u, 0)),
    ensures
        g.src_port_chirho == u.src_port_chirho,
        g.dst_port_chirho == u.dst_port_chirho,
        g.length_chirho == 8 + u.payload_chirho@.len(),
        g.checksum_chirho == 0,
        g.payload_chirho@ == u.payload_chirho@,
{
    let d = udp_bytes_with_checksum(u, 0);
    let n = (8 + u.payload_chirho@.len()) as u16;
    assert(d[0] == u16_be_spec(u.src_port_chirho)[0] && d[1] == u16_be_spec(u.src_port_chirho)[1]);
    assert(d[2] == u16_be_spec(u.dst_port_chirho)[0] && d[3] == u16_be_spec(u.dst_port_chirho)[1]);
    assert(d[4] == u16_be_spec(n)[0] && d[5] == u16_be_spec(n)[1]);
    assert(d[6] == u16_be_spec(0)[0] && d[7] == u16_be_spec(0)[1]);
    lemma_be16_roundtrip(u.src_port_chirho);
    lemma_be16_roundtrip(u.dst_port_chirho);
    lemma_be16_roundtrip(n);
    lemma_be16_roundtrip(0);
    assert(d.subrange(8, d.len() as int) =~= u.payload_chirho@);
}

impl UdpDatagramChirho {
    /// Parse a datagram; `None` when shorter than the 8-byte header.
    pub fn parse_chirho(data_chirho: &[u8]) -> (r: Option<UdpDatagramChirho>)
        ensures
            r is None <==> data_chirho@.len() < 8,
            r matches Some(u) ==> udp_parsed_from(u, data_chirho@),
    {
        if data_chirho.len() < 8 {
            return None;
        }
        let d = data_chirho;
        let length_chirho = be16_chirho(d[4], d[5]);
        let payload_len_chirho: usize = if (length_chirho as usize) > 8 {
            if (length_chirho as usize) - 8 <= d.len() - 8 { (length_chirho as usize) - 8 } else { d.len() - 8 }
        } else {
            0
        };
        Some(UdpDatagramChirho {
            src_port_chirho: be16_chirho(d[0], d[1]),
            dst_port_chirho: be16_chirho(d[2], d[3]),
            length_chirho,
            checksum_chirho: be16_chirho(d[6], d[7]),
            payload_chirho: copy_range_chirho(d, 8, 8 + payload_len_chirho),
        })
    }

    /// The datagram's bytes with a zero checksum.
    pub fn build_chirho(&self) -> (r: Vec<u8>)
        ensures
            r@ == udp_bytes_with_checksum(*self, 0),
    {
        let total_len_chirho = (8 + self.payload_chirho.len() as u128) % 65536;
        let mut buf_chirho: Vec<u8> = Vec::new();
        push_u16_be_chirho(&mut buf_chirho, self.src_port_chirho);
        push_u16_be_chirho(&mut buf_chirho, self.dst_port_chirho);
        push_u16_be_chirho(&mut buf_chirho, total_len_chirho as u16);
        push_u16_be_chirho(&mut buf_chirho, 0);
        push_all_chirho(&mut buf_chirho, self.payload_chirho.as_slice());
        assert(buf_chirho@ =~= udp_bytes_with_checksum(*self, 0));
        buf_chirho
    }

    /// The datagram's bytes with the checksum over the IPv4 pseudo-header.
    pub fn build_with_checksum_chirho(&self, src_ip_chirho: u32, dst_ip_chirho: u32) -> (r: Vec<u8>)
        requires
            self.payload_chirho@.len() + 20 <= 131074,
        ensures
            r@ == udp_checksummed_bytes_spec(*self, src_ip_chirho, dst_ip_chirho),
    {
        let mut raw_chirho = self.build_chirho();
        let udp_len_chirho = (raw_chirho.len() % 65536) as u16;
        let mut pseudo_chirho: Vec<u8> = Vec::new();
        push_u32_be_chirho(&mut pseudo_chirho, src_ip_chirho);
        push_u32_be_chirho(&mut pseudo_chirho, dst_ip_chirho);
        pseudo_chirho.push(0);
        pseudo_chirho.push(IP_PROTO_UDP_CHIRHO);
        push_u16_be_chirho(&mut pseudo_chirho, udp_len_chirho);
        push_all_chirho(&mut pseudo_chirho, raw_chirho.as_slice());
        assert(pseudo_chirho@ =~= pseudo_header_spec(src_ip_chirho, dst_ip_chirho, IP_PROTO_UDP_CHIRHO, udp_bytes_with_checksum(*self, 0)));
        let cksum_chirho = ipv4_checksum_chirho(pseudo_chirho.as_slice());
        let final_cksum_chirho: u16 = if cksum_chirho == 0 { 0xFFFF } else { cksum_chirho };
        raw_chirho.set(6, (final_cksum_chirho / 256) as u8);
        raw_chirho.set(7, (final_cksum_chirho % 256) as u8);
        assert(raw_chirho@ =~= udp_checksummed_bytes_spec(*self, src_ip_chirho, dst_ip_chirho));
        raw_chirho
    }
}

} // verus!
