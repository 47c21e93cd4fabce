//! DNS messages (RFC 1035): the header, name encoding, A-record queries
//! and the answers of a response.

use vstd::prelude::*;
use crate::bytes::{be16_chirho, be16_spec, be32_chirho, be32_spec, push_all_chirho, push_u16_be_chirho, u16_be_spec};
use crate::net_types::DEFAULT_DNS_CHIRHO;
use vstd::string::StringSliceAdditionalSpecFns;

verus! {

/// Record type A (IPv4 address).
pub const DNS_TYPE_A_CHIRHO: u16 = 1;
/// Record type AAAA (IPv6 address).
pub const DNS_TYPE_AAAA_CHIRHO: u16 = 28;
/// Record type CNAME.
pub const DNS_TYPE_CNAME_CHIRHO: u16 = 5;
/// Class IN (Internet).
pub const DNS_CLASS_IN_CHIRHO: u16 = 1;
/// Default DNS server.
pub const DNS_SERVER_CHIRHO: u32 = DEFAULT_DNS_CHIRHO;
/// DNS port.
pub const DNS_PORT_CHIRHO: u16 = 53;

/// The 12-byte DNS header.
#[derive(Debug, Clone, Copy)]
pub struct DnsHeaderChirho {
    pub id_chirho: u16,
    pub flags_chirho: u16,
    pub qdcount_chirho: u16,
    pub ancount_chirho: u16,
    pub nscount_chirho: u16,
    pub arcount_chirho: u16,
}

/// The header read from the first 12 bytes of `d`.
pub open spec fn dns_header_spec(d: Seq<u8>) -> DnsHeaderChirho {
    DnsHeaderChirho {
        id_chirho: be16_spec(d[0], d[1]),
        flags_chirho: be16_spec(d[2], d[3]),
        qdcount_chirho: be16_spec(d[4], d[5]),
        ancount_chirho: be16_spec(d[6], d[7]),
        nscount_chirho: be16_spec(d[8], d[9]),
        arcount_chirho: be16_spec(d[10], d[11]),
    }
}

/// The 12 bytes of a header.
pub open spec fn dns_header_bytes(h: DnsHeaderChirho) -> Seq<u8> {
    u16_be_spec(h.id_chirho) + u16_be_spec(h.flags_chirho) + u16_be_spec(h.qdcount_chirho)
        + u16_be_spec(h.ancount_chirho) + u16_be_spec(h.nscount_chirho) + u16_be_spec(h.arcount_chirho)
}

impl DnsHeaderChirho {
    /// Parse a header; `None` when shorter than 12 bytes.
    pub fn parse_chirho(data_chirho: &[u8]) -> (r: Option<DnsHeaderChirho>)
        ensures
            data_chirho@.len() < 12 ==> r is None,
            data_chirho@.len() >= 12 ==> r == Some(dns_header_spec(data_chirho@)),
    {
        if data_chirho.len() < 12 {
            return None;
        }
        let d = data_chirho;
        Some(DnsHeaderChirho {
            id_chirho: be16_chirho(d[0], d[1]),
            flags_chirho: be16_chirho(d[2], d[3]),
            qdcount_chirho: be16_chirho(d[4], d[5]),
            ancount_chirho: be16_chirho(d[6], d[7]),
            nscount_chirho: be16_chirho(d[8], d[9]),
            arcount_chirho: be16_chirho(d[10], d[11]),
        })
    }

    /// The header's 12 bytes.
    pub fn build_chirho(&self) -> (r: Vec<u8>)
        ensures
            r@ == dns_header_bytes(*self),
    {
        let mut buf_chirho: Vec<u8> = Vec::new();
        push_u16_be_chirho(&mut buf_chirho, self.id_chirho);
        push_u16_be_chirho(&mut buf_chirho, self.flags_chirho);
        push_u16_be_chirho(&mut buf_chirho, self.qdcount_chirho);
        push_u16_be_chirho(&mut buf_chirho, self.ancount_chirho);
        push_u16_be_chirho(&mut buf_chirho, self.nscount_chirho);
        push_u16_be_chirho(&mut buf_chirho, self.arcount_chirho);
        assert(buf_chirho@ =~= dns_header_bytes(*self));
        buf_chirho
    }
}

/// Parsing the bytes of a built header gives back the header.
pub proof fn lemma_dns_header_roundtrip(h: DnsHeaderChirho)
    ensures
        dns_header_spec(dns_header_bytes(h)) == h,
{
    let d = dns_header_bytes(h);
    crate::bytes::lemma_be16_roundtrip(h.id_chirho);
    crate::bytes::lemma_be16_roundtrip(h.flags_chirho);
    crate::bytes::lemma_be16_roundtrip(h.qdcount_chirho);
    crate::bytes::lemma_be16_roundtrip(h.ancount_chirho);
    crate::bytes::lemma_be16_roundtrip(h.nscount_chirho);
    crate::bytes::lemma_be16_roundtrip(h.arcount_chirho);
    assert(d[0] == u16_be_spec(h.id_chirho)[0] && d[1] == u16_be_spec(h.id_chirho)[1]);
    assert(d[2] == u16_be_spec(h.flags_chirho)[0] && d[3] == u16_be_spec(h.flags_chirho)[1]);
    assert(d[4] == u16_be_spec(h.qdcount_chirho)[0] && d[5] == u16_be_spec(h.qdcount_chirho)[1]);
    assert(d[6] == u16_be_spec(h.ancount_chirho)[0] && d[7] == u16_be_spec(h.ancount_chirho)[1]);
    assert(d[8] == u16_be_spec(h.nscount_chirho)[0] && d[9] == u16_be_spec(h.nscount_chirho)[1]);
    assert(d[10] == u16_be_spec(h.arcount_chirho)[0] && d[11] == u16_be_spec(h.arcount_chirho)[1]);
}

/// The labels of a name split at its dots, the last one still open.
pub open spec fn split_dots(b: Seq<u8>) -> Seq<Seq<u8>>
    decreases b.len(),
{
    if b.len() == 0 {
        seq![Seq::<u8>::empty()]
    } else {
        let rest = split_dots(b.drop_last());
        if b.last() == 0x2E {
            rest.push(Seq::<u8>::empty())
        } else {
            rest.update(rest.len() - 1, rest.last().push(b.last()))
        }
    }
}

/// A label on the wire: its length (low 8 bits) and its bytes; nothing for
/// an empty label.
pub open spec fn wire_label(l: Seq<u8>) -> Seq<u8> {
    if l.len() == 0 { Seq::<u8>::empty() } else { seq![(l.len() % 256) as u8] + l }
}

/// The wire labels of `ls`, in order.
pub open spec fn wire_labels(ls: Seq<Seq<u8>>) -> Seq<u8>
    decreases ls.len(),
{
    if ls.len() == 0 { Seq::<u8>::empty() } else { wire_labels(ls.drop_last()) + wire_label(ls.last()) }
}

/// The wire encoding of a name: its non-empty dot-separated labels, then
/// the root label.
pub open spec fn dns_name_spec(b: Seq<u8>) -> Seq<u8> {
    wire_labels(split_dots(b)) + seq![0u8]
}

proof fn lemma_split_dots_nonempty(b: Seq<u8>)
    ensures
        split_dots(b).len() >= 1,
    decreases b.len(),
{
    if b.len() > 0 {
        lemma_split_dots_nonempty(b.drop_last());
    }
}

/// Encode a host name (length-prefixed labels, empty labels skipped, then
/// the root label).
pub fn dns_encode_name_chirho(name_chirho: &str) -> (r: Vec<u8>)
    ensures
        r@ == dns_name_spec(name_chirho.spec_bytes()),
{
    let b = name_chirho.as_bytes();
    let mut out_chirho: Vec<u8> = Vec::new();
    let mut cur_chirho: Vec<u8> = Vec::new();
    let mut i_chirho: usize = 0;
    while i_chirho < b.len()
        invariant
            i_chirho <= b@.len(),
            split_dots(b@.subrange(0, i_chirho as int)).len() >= 1,
            out_chirho@ == wire_labels(split_dots(b@.subrange(0, i_chirho as int)).drop_last()),
            cur_chirho@ == split_dots(b@.subrange(0, i_chirho as int)).last(),
        decreases b@.len() - i_chirho,
    {
        let c = b[i_chirho];
        let ghost pre = b@.subrange(0, i_chirho as int);
        assert(b@.subrange(0, i_chirho + 1).drop_last() =~= pre);
        assert(b@.subrange(0, i_chirho + 1).last() == c);
        proof { lemma_split_dots_nonempty(pre); }
        if c == 0x2E {
            if cur_chirho.len() > 0 {
                out_chirho.push((cur_chirho.len() % 256) as u8);
                push_all_chirho(&mut out_chirho, cur_chirho.as_slice());
            }
            cur_chirho = Vec::new();
            proof {
                let ls = split_dots(pre);
                let ls2 = ls.push(Seq::<u8>::empty());
                assert(ls2.drop_last() =~= ls);
                assert(ls =~= ls.drop_last().push(ls.last()));
                assert(out_chirho@ =~= wire_labels(ls.drop_last()) + wire_label(ls.last()));
            }
        } else {
            cur_chirho.push(c);
            proof {
                let ls = split_dots(pre);
                let ls2 = ls.update(ls.len() - 1, ls.last().push(c));
                assert(ls2.drop_last() =~= ls.drop_last());
            }
        }
        i_chirho = i_chirho + 1;
    }
    if cur_chirho.len() > 0 {
        out_chirho.push((cur_chirho.len() % 256) as u8);
        push_all_chirho(&mut out_chirho, cur_chirho.as_slice());
    }
    out_chirho.push(0);
    proof {
        assert(b@.subrange(0, b@.len() as int) =~= b@);
        let ls = split_dots(b@);
        assert(ls =~= ls.drop_last().push(ls.last()));
        assert(out_chirho@ =~= wire_labels(ls) + seq![0u8]);
    }
    out_chirho
}

/// The low 16 bits of a counter.
pub open spec fn txid_of(c: u64) -> u16 {
    (c % 65536) as u16
}

/// The bytes of an A-record query for `name` with transaction id `id`:
/// header (recursion desired, one question), name, type A, class IN.
pub open spec fn dns_query_spec(id: u16, name: Seq<u8>) -> Seq<u8> {
    dns_header_bytes(DnsHeaderChirho { id_chirho: id, flags_chirho: 0x0100, qdcount_chirho: 1, ancount_chirho: 0,
        nscount_chirho: 0, arcount_chirho: 0 }) + dns_name_spec(name) + u16_be_spec(DNS_TYPE_A_CHIRHO) + u16_be_spec(DNS_CLASS_IN_CHIRHO)
}

/// Build an A-record query for `hostname`; its transaction id is the low
/// 16 bits of the counter, which then advances by one.
pub fn build_dns_query_chirho(txid_counter_chirho: &mut u64, hostname_chirho: &str) -> (r: Vec<u8>)
    ensures
        r@ == dns_query_spec(txid_of(*old(txid_counter_chirho)), hostname_chirho.spec_bytes()),
        *final(txid_counter_chirho) == (if *old(txid_counter_chirho) == u64::MAX { 0 } else { *old(txid_counter_chirho) + 1 }),
{
    let c = *txid_counter_chirho;
    *txid_counter_chirho = if c == u64::MAX { 0 } else { c + 1 };
    let header_chirho = DnsHeaderChirho {
        id_chirho: (c % 65536) as u16,
        flags_chirho: 0x0100,
        qdcount_chirho: 1,
        ancount_chirho: 0,
        nscount_chirho: 0,
        arcount_chirho: 0,
    };
    let mut packet_chirho = header_chirho.build_chirho();
    let name_chirho = dns_encode_name_chirho(hostname_chirho);
    push_all_chirho(&mut packet_chirho, name_chirho.as_slice());
    push_u16_be_chirho(&mut packet_chirho, DNS_TYPE_A_CHIRHO);
    push_u16_be_chirho(&mut packet_chirho, DNS_CLASS_IN_CHIRHO);
    packet_chirho
}

/// A resolved A record.
#[derive(Debug, Clone, Copy)]
pub struct DnsAnswerChirho {
    pub addr_chirho: u32,
    pub ttl_chirho: u32,
}

/// The offset after the name of a question starting at `off`: labels up to
/// the root label or a compression pointer, or the end of the data.
pub open spec fn skip_qname(d: Seq<u8>, off: int) -> int
    decreases (if off < 0 || off >= d.len() { 0 } else { d.len() - off }),
{
    if off < 0 || off >= d.len() {
        off
    } else {
        let len = d[off] as int;
        if len == 0 {
            off + 1
        } else if len / 64 == 3 {
            off + 2
        } else {
            skip_qname(d, off + 1 + len)
        }
    }
}

/// The offset after `n` questions starting at `off`.
pub open spec fn skip_questions(d: Seq<u8>, off: int, n: nat) -> int
    decreases n,
{
    if n == 0 { off } else { skip_questions(d, skip_qname(d, off) + 4, (n - 1) as nat) }
}

/// The offset after the labels of an answer name starting at `off`.
pub open spec fn skip_labels(d: Seq<u8>, off: int) -> int
    decreases (if off < 0 || off >= d.len() { 0 } else { d.len() - off }),
{
    if off < 0 || off >= d.len() {
        off
    } else {
        let len = d[off] as int;
        if len == 0 { off + 1 } else { skip_labels(d, off + 1 + len) }
    }
}

/// The A records of up to `n` answers starting at `off`.
pub open spec fn answers_from(d: Seq<u8>, off: int, n: nat) -> Seq<DnsAnswerChirho>
    decreases n,
{
    if n == 0 || off >= d.len() {
        Seq::<DnsAnswerChirho>::empty()
    } else {
        let o = if d[off] / 64 == 3 { off + 2 } else { skip_labels(d, off) };
        if o + 10 > d.len() {
            Seq::<DnsAnswerChirho>::empty()
        } else {
            let rtype = be16_spec(d[o], d[o + 1]);
            let ttl = be32_spec(d[o + 4], d[o + 5], d[o + 6], d[o + 7]);
            let rdlen = be16_spec(d[o + 8], d[o + 9]) as int;
            let p = o + 10;
            if p + rdlen > d.len() {
                Seq::<DnsAnswerChirho>::empty()
            } else {
                let here = if rtype == DNS_TYPE_A_CHIRHO && rdlen == 4 {
                    seq![DnsAnswerChirho { addr_chirho: be32_spec(d[p], d[p + 1], d[p + 2], d[p + 3]), ttl_chirho: ttl }]
                } else {
                    Seq::<DnsAnswerChirho>::empty()
                };
                here + answers_from(d, p + rdlen, (n - 1) as nat)
            }
        }
    }
}

/// An A answer (type 1, four bytes of data) whose name is a compression
/// pointer yields its address and TTL, followed by the records of the
/// answers after it: one A answer never hides the ones that follow.
pub proof fn lemma_dns_a_answer_then_rest(d: Seq<u8>, off: int, n: nat)
    requires
        0 <= off,
        off + 16 <= d.len(),
        d[off] >= 0xC0,
        d[off + 2] == 0 && d[off + 3] == 1,
        d[off + 10] == 0 && d[off + 11] == 4,
    ensures
        answers_from(d, off, n + 1) == seq![DnsAnswerChirho {
            addr_chirho: be32_spec(d[off + 12], d[off + 13], d[off + 14], d[off + 15]),
            ttl_chirho: be32_spec(d[off + 6], d[off + 7], d[off + 8], d[off + 9]),
        }] + answers_from(d, off + 16, n),
{
    assert(d[off] / 64 == 3);
    assert(be16_spec(d[off + 2], d[off + 3]) == 1);
    assert(be16_spec(d[off + 10], d[off + 11]) == 4);
}

/// An answer of another type, or of type A with other than four bytes of
/// data, yields nothing: the records are those of the answers after it.
pub proof fn lemma_dns_other_answer_skipped(d: Seq<u8>, off: int, n: nat)
    requires
        0 <= off,
        d[off] >= 0xC0,
        off + 12 <= d.len(),
        off + 12 + be16_spec(d[off + 10], d[off + 11]) <= d.len(),
        !(be16_spec(d[off + 2], d[off + 3]) == DNS_TYPE_A_CHIRHO && be16_spec(d[off + 10], d[off + 11]) == 4),
    ensures
        answers_from(d, off, n + 1) == answers_from(d, off + 12 + be16_spec(d[off + 10], d[off + 11]), n),
{
    assert(d[off] / 64 == 3);
    assert(answers_from(d, off, n + 1) =~= Seq::<DnsAnswerChirho>::empty()
        + answers_from(d, off + 12 + be16_spec(d[off + 10], d[off + 11]), n));
}

/// No more records than answers: each answer yields at most one.
pub proof fn lemma_dns_at_most_one_per_answer(d: Seq<u8>, off: int, n: nat)
    ensures
        answers_from(d, off, n).len() <= n,
    decreases n,
{
    if n > 0 && off < d.len() {
        let o = if d[off] / 64 == 3 { off + 2 } else { skip_labels(d, off) };
        if o + 10 <= d.len() {
            let rdlen = be16_spec(d[o + 8], d[o + 9]) as int;
            lemma_dns_at_most_one_per_answer(d, o + 10 + rdlen, (n - 1) as nat);
        }
    }
}

/// The A records of a response: none unless it is a response (QR set) with
/// no error code; else those among its answers, after its questions.
pub open spec fn dns_answers_spec(d: Seq<u8>) -> Seq<DnsAnswerChirho> {
    if d.len() < 12 {
        Seq::<DnsAnswerChirho>::empty()
    } else {
        let h = dns_header_spec(d);
        if h.flags_chirho / 0x8000 == 0 || h.flags_chirho % 16 != 0 {
            Seq::<DnsAnswerChirho>::empty()
        } else {
            answers_from(d, skip_questions(d, 12, h.qdcount_chirho as nat), h.ancount_chirho as nat)
        }
    }
}

proof fn lemma_skip_qname_bound(d: Seq<u8>, off: int)
    requires
        off >= 0,
    ensures
        off <= skip_qname(d, off) <= (if off < d.len() { d.len() + 256int } else { off }),
    decreases (if off < 0 || off >= d.len() { 0 } else { d.len() - off }),
{
    if off < d.len() {
        let len = d[off] as int;
        if len != 0 && len / 64 != 3 {
            lemma_skip_qname_bound(d, off + 1 + len);
        }
    }
}

proof fn lemma_skip_labels_bound(d: Seq<u8>, off: int)
    requires
        off >= 0,
    ensures
        off <= skip_labels(d, off) <= (if off < d.len() { d.len() + 256int } else { off }),
    decreases (if off < 0 || off >= d.len() { 0 } else { d.len() - off }),
{
    if off < d.len() {
        let len = d[off] as int;
        if len != 0 {
            lemma_skip_labels_bound(d, off + 1 + len);
        }
    }
}

fn skip_qname_chirho(d: &[u8], off: usize) -> (r: usize)
    requires
        off <= d@.len() + 0x50000,
        d@.len() + 0x50000 <= usize::MAX,
    ensures
        r == skip_qname(d@, off as int),
{
    proof { lemma_skip_qname_bound(d@, off as int); }
    let mut o = off;
    while o < d.len()
        invariant
            off <= o,
            o <= d@.len() + 0x50000,
            d@.len() + 0x50000 <= usize::MAX,
            skip_qname(d@, off as int) == skip_qname(d@, o as int),
        decreases (if o < d@.len() { d@.len() - o } else { 0 }),
    {
        let len = d[o] as usize;
        if len == 0 {
            return o + 1;
        }
        if len / 64 == 3 {
            return o + 2;
        }
        o = o + 1 + len;
    }
    o
}

fn skip_labels_chirho(d: &[u8], off: usize) -> (r: usize)
    requires
        off < d@.len(),
        d@.len() + 0x50000 <= usize::MAX,
    ensures
        r == skip_labels(d@, off as int),
        r <= d@.len() + 256,
{
    proof { lemma_skip_labels_bound(d@, off as int); }
    let mut o = off;
    while o < d.len()
        invariant
            off <= o,
            o <= d@.len() + 256,
            d@.len() + 0x50000 <= usize::MAX,
            skip_labels(d@, off as int) == skip_labels(d@, o as int),
        decreases (if o < d@.len() { d@.len() - o } else { 0 }),
    {
        let len = d[o] as usize;
        if len == 0 {
            return o + 1;
        }
        o = o + 1 + len;
    }
    o
}

/// The A records of a DNS response.
#[verifier::rlimit(50)]
pub fn parse_dns_response_chirho(data_chirho: &[u8]) -> (r: Vec<DnsAnswerChirho>)
    requires
        data_chirho@.len() + 0x50000 <= usize::MAX,
    ensures
        r@ == dns_answers_spec(data_chirho@),
{
    let d = data_chirho;
    let mut results_chirho: Vec<DnsAnswerChirho> = Vec::new();
    let header_chirho = match DnsHeaderChirho::parse_chirho(d) {
        Some(h) => h,
        None => return results_chirho,
    };
    if header_chirho.flags_chirho / 0x8000 == 0 || header_chirho.flags_chirho % 16 != 0 {
        return results_chirho;
    }
    let mut off_chirho: usize = 12;
    let mut q_chirho: u16 = 0;
    while q_chirho < header_chirho.qdcount_chirho
        invariant
            q_chirho <= header_chirho.qdcount_chirho,
            d@.len() + 0x50000 <= usize::MAX,
            d@.len() >= 12,
            off_chirho <= d@.len() + 260 + 4 * q_chirho,
            skip_questions(d@, 12, header_chirho.qdcount_chirho as nat)
                == skip_questions(d@, off_chirho as int, (header_chirho.qdcount_chirho - q_chirho) as nat),
        decreases header_chirho.qdcount_chirho - q_chirho,
    {
        proof { lemma_skip_qname_bound(d@, off_chirho as int); }
        off_chirho = skip_qname_chirho(d, off_chirho) + 4;
        q_chirho = q_chirho + 1;
    }
    let ghost n0 = header_chirho.ancount_chirho as nat;
    let ghost off0 = off_chirho as int;
    let mut a_chirho: u16 = 0;
    let mut stop_chirho = false;
    while a_chirho < header_chirho.ancount_chirho && !stop_chirho
        invariant
            a_chirho <= header_chirho.ancount_chirho,
            d@.len() + 0x50000 <= usize::MAX,
            off_chirho <= d@.len() + 0x48000,
            answers_from(d@, off0, n0) == results_chirho@ + (if stop_chirho { Seq::<DnsAnswerChirho>::empty() }
                else { answers_from(d@, off_chirho as int, (header_chirho.ancount_chirho - a_chirho) as nat) }),
        decreases header_chirho.ancount_chirho - a_chirho + (if stop_chirho { 0int } else { 1int }),
    {
        let ghost k = (header_chirho.ancount_chirho - a_chirho) as nat;
        if off_chirho >= d.len() {
            stop_chirho = true;
        } else {
            let o = if d[off_chirho] / 64 == 3 { off_chirho + 2 } else { skip_labels_chirho(d, off_chirho) };
            if o + 10 > d.len() {
                stop_chirho = true;
            } else {
                let rtype_chirho = be16_chirho(d[o], d[o + 1]);
                let ttl_chirho = be32_chirho(d[o + 4], d[o + 5], d[o + 6], d[o + 7]);
                let rdlen_chirho = be16_chirho(d[o + 8], d[o + 9]) as usize;
                let p = o + 10;
                if p + rdlen_chirho > d.len() {
                    stop_chirho = true;
                } else {
                    let ghost before = results_chirho@;
                    if rtype_chirho == DNS_TYPE_A_CHIRHO && rdlen_chirho == 4 {
                        let addr_chirho = be32_chirho(d[p], d[p + 1], d[p + 2], d[p + 3]);
                        results_chirho.push(DnsAnswerChirho { addr_chirho, ttl_chirho });
                    }
                    proof {
                        let here = if rtype_chirho == DNS_TYPE_A_CHIRHO && rdlen_chirho == 4 {
                            seq![DnsAnswerChirho { addr_chirho: be32_spec(d@[p as int], d@[p + 1], d@[p + 2], d@[p + 3]), ttl_chirho: ttl_chirho }]
                        } else {
                            Seq::<DnsAnswerChirho>::empty()
                        };
                        assert(results_chirho@ =~= before + here);
                        assert(answers_from(d@, off_chirho as int, k) == here + answers_from(d@, p + rdlen_chirho, (k - 1) as nat));
                        assert(before + (here + answers_from(d@, p + rdlen_chirho, (k - 1) as nat))
                            =~= results_chirho@ + answers_from(d@, p + rdlen_chirho, (k - 1) as nat));
                    }
                    off_chirho = p + rdlen_chirho;
                    a_chirho = a_chirho + 1;
                }
            }
        }
    }
    proof {
        assert(results_chirho@ =~= results_chirho@ + Seq::<DnsAnswerChirho>::empty());
    }
    results_chirho
}

} // verus!
