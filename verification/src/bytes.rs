//! Little-endian and big-endian integer encodings shared by the PDU modules.

use vstd::prelude::*;

verus! {

/// The two little-endian bytes of `v`.
pub open spec fn le16(v: u16) -> Seq<u8> {
    seq![(v % 256) as u8, (v / 256) as u8]
}

/// The four little-endian bytes of `v`.
pub open spec fn le32(v: u32) -> Seq<u8> {
    seq![
        (v % 256) as u8,
        ((v / 256) % 256) as u8,
        ((v / 65536) % 256) as u8,
        (v / 16777216) as u8,
    ]
}

/// The four big-endian bytes of `v`.
pub open spec fn be32(v: u32) -> Seq<u8> {
    seq![
        (v / 16777216) as u8,
        ((v / 65536) % 256) as u8,
        ((v / 256) % 256) as u8,
        (v % 256) as u8,
    ]
}

/// The big-endian `u32` stored at `s[i..i + 4]`.
pub open spec fn get_be32(s: Seq<u8>, i: int) -> u32 {
    (16777216 * s[i] + 65536 * s[i + 1] + 256 * s[i + 2] + s[i + 3]) as u32
}

/// The little-endian `u16` stored at `s[i..i + 2]`.
pub open spec fn get_le16(s: Seq<u8>, i: int) -> u16 {
    (s[i] + 256 * s[i + 1]) as u16
}

/// The little-endian `u32` stored at `s[i..i + 4]`.
pub open spec fn get_le32(s: Seq<u8>, i: int) -> u32 {
    (s[i] + 256 * s[i + 1] + 65536 * s[i + 2] + 16777216 * s[i + 3]) as u32
}

pub proof fn lemma_le16_roundtrip(v: u16)
    ensures
        le16(v).len() == 2,
        get_le16(le16(v), 0) == v,
{
    assert(le16(v)[0] == v % 256);
    assert(le16(v)[1] == v / 256);
}

pub proof fn lemma_le32_roundtrip(v: u32)
    ensures
        le32(v).len() == 4,
        get_le32(le32(v), 0) == v,
{
    let s = le32(v);
    assert(s[0] == v % 256);
    assert(s[1] == (v / 256) % 256);
    assert(s[2] == (v / 65536) % 256);
    assert(s[3] == v / 16777216);
    assert((v % 256) + 256 * ((v / 256) % 256) + 65536 * ((v / 65536) % 256) + 16777216 * (v
        / 16777216) == v) by (nonlinear_arith);
}

/// Reading back what `le32` wrote at offset `i` of a larger sequence.
pub proof fn lemma_get_le32_at(s: Seq<u8>, i: int, v: u32)
    requires
        0 <= i,
        i + 4 <= s.len(),
        s.subrange(i, i + 4) == le32(v),
    ensures
        get_le32(s, i) == v,
{
    lemma_le32_roundtrip(v);
    assert(s[i] == s.subrange(i, i + 4)[0]);
    assert(s[i + 1] == s.subrange(i, i + 4)[1]);
    assert(s[i + 2] == s.subrange(i, i + 4)[2]);
    assert(s[i + 3] == s.subrange(i, i + 4)[3]);
}

pub proof fn lemma_get_le16_at(s: Seq<u8>, i: int, v: u16)
    requires
        0 <= i,
        i + 2 <= s.len(),
        s.subrange(i, i + 2) == le16(v),
    ensures
        get_le16(s, i) == v,
{
    lemma_le16_roundtrip(v);
    assert(s[i] == s.subrange(i, i + 2)[0]);
    assert(s[i + 1] == s.subrange(i, i + 2)[1]);
}

/// The four bytes at `i` are the little-endian bytes of the `u32` they hold.
pub proof fn lemma_le32_of_get(s: Seq<u8>, i: int)
    requires
        0 <= i,
        i + 4 <= s.len(),
    ensures
        le32(get_le32(s, i)) == s.subrange(i, i + 4),
{
    let b0 = s[i];
    let b1 = s[i + 1];
    let b2 = s[i + 2];
    let b3 = s[i + 3];
    let v = get_le32(s, i);
    assert(v == b0 + 256 * b1 + 65536 * b2 + 16777216 * b3);
    assert(v % 256 == b0 && (v / 256) % 256 == b1 && (v / 65536) % 256 == b2 && v / 16777216 == b3)
        by (bit_vector)
        requires
            v == b0 + 256 * b1 + 65536 * b2 + 16777216 * b3,
    ;
    assert(le32(v) =~= s.subrange(i, i + 4));
}

/// The `u32` written by `le32(v)` after a prefix `p` reads back as `v`.
pub proof fn lemma_read_le32_in(p: Seq<u8>, v: u32, q: Seq<u8>)
    ensures
        get_le32(p + le32(v) + q, p.len() as int) == v,
{
    let s = p + le32(v) + q;
    lemma_le32_roundtrip(v);
    assert(s.subrange(p.len() as int, p.len() + 4int) =~= le32(v));
    lemma_get_le32_at(s, p.len() as int, v);
}

/// The `u16` written by `le16(v)` after a prefix `p` reads back as `v`.
pub proof fn lemma_read_le16_in(p: Seq<u8>, v: u16, q: Seq<u8>)
    ensures
        get_le16(p + le16(v) + q, p.len() as int) == v,
{
    let s = p + le16(v) + q;
    lemma_le16_roundtrip(v);
    assert(s.subrange(p.len() as int, p.len() + 2int) =~= le16(v));
    lemma_get_le16_at(s, p.len() as int, v);
}

/// The little-endian bytes of each word of `ws`, in order.
pub open spec fn words_le(ws: Seq<u32>) -> Seq<u8>
    decreases ws.len(),
{
    if ws.len() == 0 {
        Seq::empty()
    } else {
        words_le(ws.drop_last()) + le32(ws.last())
    }
}

pub proof fn lemma_words_le_len(ws: Seq<u32>)
    ensures
        words_le(ws).len() == 4 * ws.len(),
    decreases ws.len(),
{
    if ws.len() > 0 {
        lemma_words_le_len(ws.drop_last());
    }
}

/// Word `k` of `ws` reads back at offset `4 * k`, whatever follows.
pub proof fn lemma_words_le_read(ws: Seq<u32>, k: int, rest: Seq<u8>)
    requires
        0 <= k < ws.len(),
    ensures
        get_le32(words_le(ws) + rest, 4 * k) == ws[k],
    decreases ws.len(),
{
    let init = ws.drop_last();
    lemma_words_le_len(init);
    if k == ws.len() - 1 {
        lemma_read_le32_in(words_le(init), ws.last(), rest);
    } else {
        lemma_words_le_read(init, k, le32(ws.last()) + rest);
        assert(words_le(init) + (le32(ws.last()) + rest) =~= words_le(ws) + rest);
    }
}

/// `words_le` of seven words, written out.
pub proof fn lemma_words_le_seven(ws: Seq<u32>)
    requires
        ws.len() == 7,
    ensures
        words_le(ws) == le32(ws[0]) + le32(ws[1]) + le32(ws[2]) + le32(ws[3]) + le32(ws[4]) + le32(ws[5])
            + le32(ws[6]),
{
    reveal_with_fuel(words_le, 8);
    assert(ws.drop_last().drop_last().drop_last().drop_last().drop_last().drop_last().drop_last() =~= Seq::<
        u32,
    >::empty());
    assert(words_le(ws) =~= le32(ws[0]) + le32(ws[1]) + le32(ws[2]) + le32(ws[3]) + le32(ws[4]) + le32(ws[5])
        + le32(ws[6]));
}

/// Appends the little-endian bytes of `v`.
pub fn push_u16_le(out: &mut Vec<u8>, v: u16)
    ensures
        final(out)@ == old(out)@ + le16(v),
{
    out.push((v & 0xff) as u8);
    out.push((v >> 8) as u8);
    assert((v & 0xff) as u8 == (v % 256) as u8 && (v >> 8) as u8 == (v / 256) as u8)
        by (bit_vector);
    assert(final(out)@ =~= old(out)@ + le16(v));
}

/// Appends the little-endian bytes of `v`.
pub fn push_u32_le(out: &mut Vec<u8>, v: u32)
    ensures
        final(out)@ == old(out)@ + le32(v),
{
    out.push((v & 0xff) as u8);
    out.push(((v >> 8) & 0xff) as u8);
    out.push(((v >> 16) & 0xff) as u8);
    out.push((v >> 24) as u8);
    assert((v & 0xff) as u8 == (v % 256) as u8 && ((v >> 8) & 0xff) as u8 == ((v / 256) % 256) as u8
        && ((v >> 16) & 0xff) as u8 == ((v / 65536) % 256) as u8 && (v >> 24) as u8 == (v
        / 16777216) as u8) by (bit_vector);
    assert(final(out)@ =~= old(out)@ + le32(v));
}

/// Appends the big-endian bytes of `v`.
pub fn push_u32_be(out: &mut Vec<u8>, v: u32)
    ensures
        final(out)@ == old(out)@ + be32(v),
{
    out.push((v >> 24) as u8);
    out.push(((v >> 16) & 0xff) as u8);
    out.push(((v >> 8) & 0xff) as u8);
    out.push((v & 0xff) as u8);
    assert((v & 0xff) as u8 == (v % 256) as u8 && ((v >> 8) & 0xff) as u8 == ((v / 256) % 256) as u8
        && ((v >> 16) & 0xff) as u8 == ((v / 65536) % 256) as u8 && (v >> 24) as u8 == (v
        / 16777216) as u8) by (bit_vector);
    assert(final(out)@ =~= old(out)@ + be32(v));
}

/// Reads the little-endian `u16` at `pos`.
pub fn read_u16_le(src: &[u8], pos: usize) -> (r: u16)
    requires
        pos + 2 <= src@.len(),
    ensures
        r == get_le16(src@, pos as int),
{
    let a = src[pos];
    let b = src[pos + 1];
    assert((a as u16) | ((b as u16) << 8) == (a + 256 * b) as u16) by (bit_vector);
    (a as u16) | ((b as u16) << 8)
}

/// Reads the little-endian `u32` at `pos`.
pub fn read_u32_le(src: &[u8], pos: usize) -> (r: u32)
    requires
        pos + 4 <= src@.len(),
    ensures
        r == get_le32(src@, pos as int),
{
    let a = src[pos];
    let b = src[pos + 1];
    let c = src[pos + 2];
    let d = src[pos + 3];
    assert((a as u32) | ((b as u32) << 8) | ((c as u32) << 16) | ((d as u32) << 24) == (a + 256 * b
        + 65536 * c + 16777216 * d) as u32) by (bit_vector);
    (a as u32) | ((b as u32) << 8) | ((c as u32) << 16) | ((d as u32) << 24)
}

/// Reads the big-endian `u32` at `pos`.
pub fn read_u32_be(src: &[u8], pos: usize) -> (r: u32)
    requires
        pos + 4 <= src@.len(),
    ensures
        r == get_be32(src@, pos as int),
{
    let a = src[pos];
    let b = src[pos + 1];
    let c = src[pos + 2];
    let d = src[pos + 3];
    assert(((a as u32) << 24) | ((b as u32) << 16) | ((c as u32) << 8) | (d as u32) == (16777216 * a
        + 65536 * b + 256 * c + d) as u32) by (bit_vector);
    ((a as u32) << 24) | ((b as u32) << 16) | ((c as u32) << 8) | (d as u32)
}

/// Appends all of `src` to `out`.
pub fn push_slice(out: &mut Vec<u8>, src: &[u8])
    ensures
        final(out)@ == old(out)@ + src@,
{
    let n = src.len();
    for i in 0..n
        invariant
            n == src@.len(),
            out@ == old(out)@ + src@.subrange(0, i as int),
    {
        out.push(src[i]);
        assert(src@.subrange(0, i + 1) =~= src@.subrange(0, i as int).push(src@[i as int]));
    }
    assert(src@.subrange(0, n as int) =~= src@);
}

} // verus!
