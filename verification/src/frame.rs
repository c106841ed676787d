//! Wire-frame validation: the length rule and the XOR checksum.
//!
//! A frame is `0xAA 0x55 L payload(L bytes) C`, where `C` is the XOR of all
//! bytes from the length byte through the last payload byte.

use vstd::prelude::*;

verus! {

/// XOR of the bytes `s[lo..hi]`.
pub open spec fn xor_span(s: Seq<u8>, lo: int, hi: int) -> u8
    decreases hi - lo,
{
    if hi <= lo {
        0u8
    } else {
        xor_span(s, lo, hi - 1) ^ s[hi - 1]
    }
}

/// A packet is a valid frame when its length byte matches its total length
/// and its trailing checksum equals the XOR of the checked span.
pub open spec fn valid_frame(s: Seq<u8>) -> bool {
    &&& s.len() >= 3
    &&& s.len() == s[2] + 4
    &&& xor_span(s, 2, s.len() - 1) == s[s.len() - 1]
}

/// The checksum half of frame validity: the last byte equals the XOR of all
/// bytes from the length byte up to (but not including) the last byte.
/// Outbound frames satisfy this even though their length byte counts the
/// command id, size, fields and checksum rather than the whole frame.
pub open spec fn checksum_ok(s: Seq<u8>) -> bool {
    &&& s.len() >= 3
    &&& xor_span(s, 2, s.len() - 1) == s[s.len() - 1]
}

/// Returns true iff `packet` is a valid frame: correct length byte and
/// matching XOR checksum.
pub fn check_crc(packet: &Vec<u8>) -> (r: bool)
    ensures
        r == valid_frame(packet@),
{
    let n = packet.len();
    if n < 3 {
        return false;
    }
    let total_len = packet[2] as usize;
    if n != total_len + 4 {
        return false;
    }
    let last = n - 1;
    let mut acc: u8 = 0;
    let mut i: usize = 2;
    while i < last
        invariant
            2 <= i <= last,
            last == packet@.len() - 1,
            3 <= packet@.len(),
            acc == xor_span(packet@, 2, i as int),
        decreases last - i,
    {
        acc = acc ^ packet[i];
        i = i + 1;
    }
    acc == packet[last]
}

/// XOR of `v[2..]`, the checksum a builder appends to a command body.
pub fn compute_checksum(v: &Vec<u8>) -> (c: u8)
    requires
        v@.len() >= 2,
    ensures
        c == xor_span(v@, 2, v@.len() as int),
{
    let n = v.len();
    let mut acc: u8 = 0;
    let mut i: usize = 2;
    while i < n
        invariant
            2 <= i <= n,
            n == v@.len(),
            acc == xor_span(v@, 2, i as int),
        decreases n - i,
    {
        acc = acc ^ v[i];
        i = i + 1;
    }
    acc
}

/// `xor_span` only reads the bytes of the span, so two sequences that agree
/// there have the same XOR.
pub proof fn lemma_xor_span_agree(s1: Seq<u8>, s2: Seq<u8>, lo: int, hi: int)
    requires
        0 <= lo <= hi,
        hi <= s1.len(),
        hi <= s2.len(),
        s1.subrange(lo, hi) == s2.subrange(lo, hi),
    ensures
        xor_span(s1, lo, hi) == xor_span(s2, lo, hi),
    decreases hi - lo,
{
    if hi > lo {
        assert(s1[hi - 1] == s1.subrange(lo, hi)[hi - 1 - lo]);
        assert(s2[hi - 1] == s2.subrange(lo, hi)[hi - 1 - lo]);
        assert(s1.subrange(lo, hi - 1) =~= s1.subrange(lo, hi).subrange(0, hi - 1 - lo));
        assert(s2.subrange(lo, hi - 1) =~= s2.subrange(lo, hi).subrange(0, hi - 1 - lo));
        lemma_xor_span_agree(s1, s2, lo, hi - 1);
    }
}

/// Changing one byte inside the span changes the XOR by exactly the XOR of
/// the old and new byte values.
pub proof fn lemma_xor_span_update(s: Seq<u8>, k: int, v: u8, lo: int, hi: int)
    requires
        0 <= lo <= k < hi <= s.len(),
    ensures
        xor_span(s.update(k, v), lo, hi) == xor_span(s, lo, hi) ^ s[k] ^ v,
    decreases hi - lo,
{
    let t = s.update(k, v);
    if k == hi - 1 {
        assert(t.subrange(lo, hi - 1) =~= s.subrange(lo, hi - 1));
        lemma_xor_span_agree(t, s, lo, hi - 1);
        let x = xor_span(s, lo, hi - 1);
        let a = s[k];
        assert((x ^ v) == ((x ^ a) ^ a ^ v)) by (bit_vector);
    } else {
        lemma_xor_span_update(s, k, v, lo, hi - 1);
        let x = xor_span(s, lo, hi - 1);
        let a = s[k];
        let b = s[hi - 1];
        assert(((x ^ a ^ v) ^ b) == ((x ^ b) ^ a ^ v)) by (bit_vector);
    }
}

/// Checksum sensitivity: flipping any set of bits (`mask != 0`) of one byte
/// at or after the length byte of a valid frame makes the frame invalid.
/// (A flip inside the two preamble bytes is outside the checked span and
/// leaves the checksum intact.)
pub proof fn lemma_checksum_sensitivity(f: Seq<u8>, k: int, mask: u8)
    requires
        valid_frame(f),
        2 <= k < f.len(),
        mask != 0,
    ensures
        !valid_frame(f.update(k, f[k] ^ mask)),
{
    let g = f.update(k, f[k] ^ mask);
    let n = f.len() as int;
    if k == n - 1 {
        assert(g.subrange(2, n - 1) =~= f.subrange(2, n - 1));
        lemma_xor_span_agree(g, f, 2, n - 1);
        let c = f[k];
        assert(c ^ mask != c) by (bit_vector)
            requires
                mask != 0u8,
        ;
    } else {
        lemma_xor_span_update(f, k, f[k] ^ mask, 2, n - 1);
        let x = xor_span(f, 2, n - 1);
        let a = f[k];
        assert((x ^ a ^ (a ^ mask)) != x) by (bit_vector)
            requires
                mask != 0u8,
        ;
    }
}

/// A body of at least two bytes extended with the XOR of `body[2..]` always
/// passes the checksum half of frame validation.
pub proof fn lemma_appended_checksum(body: Seq<u8>)
    requires
        body.len() >= 2,
    ensures
        checksum_ok(body.push(xor_span(body, 2, body.len() as int))),
{
    let c = xor_span(body, 2, body.len() as int);
    let f = body.push(c);
    assert(f.subrange(2, body.len() as int) =~= body.subrange(2, body.len() as int));
    lemma_xor_span_agree(f, body, 2, body.len() as int);
}

} // verus!
