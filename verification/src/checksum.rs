//! The Internet checksum (RFC 1071): the ones-complement of the
//! ones-complement sum of the data read as big-endian 16-bit words.

use vstd::prelude::*;

verus! {

/// Sum of the big-endian 16-bit words of `d` from byte `i` on; an odd last
/// byte counts as the high byte of a word whose low byte is zero.
pub open spec fn word_sum_from(d: Seq<u8>, i: int) -> int
    decreases d.len() - i,
{
    if i < 0 || i >= d.len() {
        0
    } else if i + 1 == d.len() {
        d[i] as int * 256
    } else {
        d[i] as int * 256 + d[i + 1] as int + word_sum_from(d, i + 2)
    }
}

/// Fold the carries of a sum back into its low 16 bits until none is left.
pub open spec fn fold16(s: nat) -> nat
    decreases s,
{
    if s < 65536 {
        s
    } else {
        fold16(((s % 65536) + s / 65536) as nat)
    }
}

/// The Internet checksum of `d`.
pub open spec fn checksum_spec(d: Seq<u8>) -> u16 {
    (65535 - fold16(word_sum_from(d, 0) as nat)) as u16
}

proof fn lemma_word_sum_bound(d: Seq<u8>, i: int)
    requires
        0 <= i <= d.len(),
    ensures
        0 <= word_sum_from(d, i) <= 65535 * ((d.len() - i + 1) / 2),
    decreases d.len() - i,
{
    if i < d.len() && i + 1 < d.len() {
        lemma_word_sum_bound(d, i + 2);
        assert(((d.len() - i + 1) / 2) == ((d.len() - (i + 2) + 1) / 2) + 1);
    }
}

proof fn lemma_fold16_bound(s: nat)
    ensures
        fold16(s) < 65536,
    decreases s,
{
    if s >= 65536 {
        lemma_fold16_bound(((s % 65536) + s / 65536) as nat);
    }
}

/// Compute the Internet checksum of `data_chirho`.
pub fn ipv4_checksum_chirho(data_chirho: &[u8]) -> (r: u16)
    requires
        data_chirho@.len() <= 131074,
    ensures
        r == checksum_spec(data_chirho@),
{
    let mut sum_chirho: u32 = 0;
    let len_chirho = data_chirho.len();
    let mut i_chirho: usize = 0;
    proof {
        lemma_word_sum_bound(data_chirho@, 0);
    }
    while i_chirho + 1 < len_chirho
        invariant
            len_chirho == data_chirho@.len() <= 131074,
            i_chirho <= len_chirho,
            i_chirho % 2 == 0,
            sum_chirho + word_sum_from(data_chirho@, i_chirho as int) == word_sum_from(data_chirho@, 0),
            word_sum_from(data_chirho@, 0) <= 65535 * ((len_chirho + 1) / 2),
            0 <= word_sum_from(data_chirho@, i_chirho as int),
        decreases len_chirho - i_chirho,
    {
        let word_chirho = (data_chirho[i_chirho] as u32) * 256 + (data_chirho[i_chirho + 1] as u32);
        proof {
            lemma_word_sum_bound(data_chirho@, i_chirho + 2);
        }
        sum_chirho = sum_chirho + word_chirho;
        i_chirho = i_chirho + 2;
    }
    if i_chirho < len_chirho {
        sum_chirho = sum_chirho + (data_chirho[i_chirho] as u32) * 256;
    }
    assert(sum_chirho == word_sum_from(data_chirho@, 0));
    let ghost total = sum_chirho as nat;
    while sum_chirho >= 65536
        invariant
            fold16(sum_chirho as nat) == fold16(total),
        decreases sum_chirho,
    {
        sum_chirho = (sum_chirho % 65536) + sum_chirho / 65536;
    }
    proof {
        lemma_fold16_bound(total);
    }
    (65535 - sum_chirho) as u16
}

/// Folding keeps a sum's residue modulo 65535, and a positive sum stays
/// positive.
proof fn lemma_fold16_mod(s: nat)
    ensures
        fold16(s) % 65535 == s % 65535,
        s > 0 ==> fold16(s) > 0,
    decreases s,
{
    if s >= 65536 {
        let q = s / 65536;
        let r = s % 65536;
        let t = (r + q) as nat;
        assert(s == 65535 * q + (q + r)) by (nonlinear_arith)
            requires q == s / 65536, r == s % 65536;
        vstd::arithmetic::div_mod::lemma_mod_multiples_vanish(q as int, (q + r) as int, 65535);
        lemma_fold16_mod(t);
    }
}

/// Replacing the word at even offset `k` (at or after even `i`) changes
/// the word sum by the difference of the two words.
proof fn lemma_word_sum_update(d: Seq<u8>, i: int, k: int, hi: u8, lo: u8)
    requires
        0 <= i <= k,
        (k - i) % 2 == 0,
        k + 1 < d.len(),
    ensures
        word_sum_from(d.update(k, hi).update(k + 1, lo), i)
            == word_sum_from(d, i) + (hi as int * 256 + lo as int) - (d[k] as int * 256 + d[k + 1] as int),
    decreases d.len() - i,
{
    let e = d.update(k, hi).update(k + 1, lo);
    if i < k {
        lemma_word_sum_update(d, i + 2, k, hi, lo);
        assert(e[i] == d[i] && e[i + 1] == d[i + 1]);
    } else {
        assert(word_sum_from(e, i + 2) == word_sum_from(d, i + 2)) by {
            lemma_word_sum_suffix_same(d, e, i + 2);
        }
    }
}

/// Two sequences of one length that agree from `i` on have the same word
/// sum from `i`.
proof fn lemma_word_sum_suffix_same(d: Seq<u8>, e: Seq<u8>, i: int)
    requires
        d.len() == e.len(),
        forall|j: int| i <= j < d.len() ==> d[j] == e[j],
    ensures
        word_sum_from(d, i) == word_sum_from(e, i),
    decreases d.len() - i,
{
    if 0 <= i && i + 1 < d.len() {
        lemma_word_sum_suffix_same(d, e, i + 2);
    }
}

/// RFC 1071: writing the checksum of the data into a zeroed 16-bit field
/// at an even offset makes the checksum of the result zero, so a receiver
/// that checksums the whole header (or message) finds it intact.
pub proof fn lemma_checksum_verifies(d: Seq<u8>, k: int)
    requires
        0 <= k,
        k % 2 == 0,
        k + 1 < d.len(),
        d[k] == 0,
        d[k + 1] == 0,
    ensures
        checksum_spec(d.update(k, (checksum_spec(d) / 256) as u8).update(k + 1, (checksum_spec(d) % 256) as u8)) == 0,
{
    let c = checksum_spec(d);
    let s = word_sum_from(d, 0);
    lemma_word_sum_bound(d, 0);
    lemma_word_sum_update(d, 0, k, (c / 256) as u8, (c % 256) as u8);
    let f = fold16(s as nat);
    lemma_fold16_bound(s as nat);
    lemma_fold16_mod(s as nat);
    assert(c == 65535 - f);
    assert((c / 256) as u8 as int * 256 + (c % 256) as u8 as int == c);
    let s2 = s + c;
    assert(word_sum_from(d.update(k, (c / 256) as u8).update(k + 1, (c % 256) as u8), 0) == s2);
    lemma_fold16_mod(s2 as nat);
    lemma_fold16_bound(s2 as nat);
    assert(s2 > 0);
    assert(s2 % 65535 == 0) by {
        assert(s % 65535 == f % 65535);
        vstd::arithmetic::div_mod::lemma_add_mod_noop(s, c as int, 65535);
        vstd::arithmetic::div_mod::lemma_add_mod_noop(f as int, c as int, 65535);
        assert(f + c == 65535);
    }
    let g = fold16(s2 as nat);
    assert(g % 65535 == 0 && 0 < g < 65536);
    assert(g == 65535);
}

/// A checksum that comes out zero is sent as 0xFFFF, its other ones-complement
/// form; written into the zeroed field, the result still checksums to zero.
pub proof fn lemma_checksum_verifies_ones(d: Seq<u8>, k: int)
    requires
        0 <= k,
        k % 2 == 0,
        k + 1 < d.len(),
        d[k] == 0,
        d[k + 1] == 0,
        checksum_spec(d) == 0,
    ensures
        checksum_spec(d.update(k, 0xFFu8).update(k + 1, 0xFFu8)) == 0,
{
    let s = word_sum_from(d, 0);
    lemma_word_sum_bound(d, 0);
    lemma_word_sum_update(d, 0, k, 0xFFu8, 0xFFu8);
    let f = fold16(s as nat);
    lemma_fold16_bound(s as nat);
    lemma_fold16_mod(s as nat);
    assert(f == 65535);
    let s2 = s + 65535;
    assert(word_sum_from(d.update(k, 0xFFu8).update(k + 1, 0xFFu8), 0) == s2);
    lemma_fold16_mod(s2 as nat);
    lemma_fold16_bound(s2 as nat);
    assert(s2 % 65535 == 0) by {
        vstd::arithmetic::div_mod::lemma_add_mod_noop(s, 65535, 65535);
    }
    let g = fold16(s2 as nat);
    assert(g % 65535 == 0 && 0 < g < 65536);
    assert(g == 65535);
}

} // verus!
