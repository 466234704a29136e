//! H.264 bitmap-stream PDUs of the graphics pipeline (RFX_AVC420_BITMAP_STREAM,
//! RFX_AVC444_BITMAP_STREAM) and the server-side helpers that build them.

use vstd::prelude::*;

use crate::bytes::{
    be32, get_be32, push_u32_be, read_u32_be, get_le16, get_le32, le16, le32, lemma_get_le16_at, lemma_get_le32_at, lemma_le32_roundtrip,
    push_slice, push_u16_le, push_u32_le, read_u16_le, read_u32_le,
};
use crate::error::PduError;

verus! {

// ---------------------------------------------------------------------------
// Rectangles
// ---------------------------------------------------------------------------

/// A rectangle whose right and bottom edges are part of it.
#[derive(Debug, Clone, Copy, PartialEq, Eq, Structural)]
pub struct InclusiveRectangle {
    pub left: u16,
    pub top: u16,
    pub right: u16,
    pub bottom: u16,
}

/// Wire form of a rectangle: left, top, right, bottom as little-endian `u16`.
pub open spec fn rect_bytes(r: InclusiveRectangle) -> Seq<u8> {
    le16(r.left) + le16(r.top) + le16(r.right) + le16(r.bottom)
}

/// The rectangle stored at `s[i..i + 8]`.
pub open spec fn rect_at(s: Seq<u8>, i: int) -> InclusiveRectangle {
    InclusiveRectangle {
        left: get_le16(s, i),
        top: get_le16(s, i + 2),
        right: get_le16(s, i + 4),
        bottom: get_le16(s, i + 6),
    }
}

pub proof fn lemma_rect_roundtrip(s: Seq<u8>, i: int, r: InclusiveRectangle)
    requires
        0 <= i,
        i + 8 <= s.len(),
        s.subrange(i, i + 8) == rect_bytes(r),
    ensures
        rect_at(s, i) == r,
{
    let b = rect_bytes(r);
    assert(b.len() == 8);
    assert(s.subrange(i, i + 2) =~= le16(r.left)) by {
        assert(s.subrange(i, i + 2) =~= b.subrange(0, 2));
        assert(b.subrange(0, 2) =~= le16(r.left));
    }
    assert(s.subrange(i + 2, i + 4) =~= le16(r.top)) by {
        assert(s.subrange(i + 2, i + 4) =~= b.subrange(2, 4));
        assert(b.subrange(2, 4) =~= le16(r.top));
    }
    assert(s.subrange(i + 4, i + 6) =~= le16(r.right)) by {
        assert(s.subrange(i + 4, i + 6) =~= b.subrange(4, 6));
        assert(b.subrange(4, 6) =~= le16(r.right));
    }
    assert(s.subrange(i + 6, i + 8) =~= le16(r.bottom)) by {
        assert(s.subrange(i + 6, i + 8) =~= b.subrange(6, 8));
        assert(b.subrange(6, 8) =~= le16(r.bottom));
    }
    lemma_get_le16_at(s, i, r.left);
    lemma_get_le16_at(s, i + 2, r.top);
    lemma_get_le16_at(s, i + 4, r.right);
    lemma_get_le16_at(s, i + 6, r.bottom);
}

impl InclusiveRectangle {
    /// Appends the 8-byte wire form of the rectangle.
    pub fn encode(&self, dst: &mut Vec<u8>)
        ensures
            final(dst)@ == old(dst)@ + rect_bytes(*self),
    {
        push_u16_le(dst, self.left);
        push_u16_le(dst, self.top);
        push_u16_le(dst, self.right);
        push_u16_le(dst, self.bottom);
        assert(final(dst)@ =~= old(dst)@ + rect_bytes(*self));
    }
}

fn read_rect(src: &[u8], pos: usize) -> (r: InclusiveRectangle)
    requires
        pos + 8 <= src.len(),
    ensures
        r == rect_at(src@, pos as int),
{
    InclusiveRectangle {
        left: read_u16_le(src, pos),
        top: read_u16_le(src, pos + 2),
        right: read_u16_le(src, pos + 4),
        bottom: read_u16_le(src, pos + 6),
    }
}

// ---------------------------------------------------------------------------
// Quantization / quality pair
// ---------------------------------------------------------------------------

/// Quantization parameter and quality of one region of an AVC420 stream.
#[derive(Debug, Clone, Copy)]
pub struct QuantQuality {
    /// H.264 quantization parameter; the wire keeps its low six bits.
    pub quantization_parameter: u8,
    pub progressive: bool,
    pub quality: u8,
}

/// Wire form: byte 0 holds the quantization parameter in bits 0..6 and the
/// progressive flag in bit 7; byte 1 holds the quality.
pub open spec fn quant_quality_bytes(q: QuantQuality) -> Seq<u8> {
    seq![(q.quantization_parameter + if q.progressive { 128int } else { 0int }) as u8, q.quality]
}

/// The pair stored at `s[i..i + 2]` (bit 6 of byte 0 is ignored).
pub open spec fn quant_quality_at(s: Seq<u8>, i: int) -> QuantQuality {
    QuantQuality {
        quantization_parameter: (s[i] % 64) as u8,
        progressive: s[i] >= 128,
        quality: s[i + 1],
    }
}

pub proof fn lemma_quant_quality_roundtrip(s: Seq<u8>, i: int, q: QuantQuality)
    requires
        0 <= i,
        i + 2 <= s.len(),
        q.quantization_parameter < 64,
        s.subrange(i, i + 2) == quant_quality_bytes(q),
    ensures
        quant_quality_at(s, i) == q,
{
    assert(s[i] == s.subrange(i, i + 2)[0]);
    assert(s[i + 1] == s.subrange(i, i + 2)[1]);
}

impl QuantQuality {
    pub const FIXED_PART_SIZE: usize = 2;

    pub fn name(&self) -> (r: &'static str)
        ensures
            r@ == "GfxQuantQuality"@,
    {
        "GfxQuantQuality"
    }

    pub fn size(&self) -> (r: usize)
        ensures
            r == quant_quality_bytes(*self).len(),
            r == 2,
    {
        Self::FIXED_PART_SIZE
    }

    /// Appends the two-byte wire form.
    pub fn encode(&self, dst: &mut Vec<u8>)
        requires
            self.quantization_parameter < 64,
        ensures
            final(dst)@ == old(dst)@ + quant_quality_bytes(*self),
    {
        let qp = self.quantization_parameter;
        let data: u8 = if self.progressive {
            (qp & 0x3f) | 0x80
        } else {
            qp & 0x3f
        };
        assert(qp < 64 ==> (qp & 0x3f) | 0x80 == qp + 128 && qp & 0x3f == qp) by (bit_vector);
        dst.push(data);
        dst.push(self.quality);
        assert(final(dst)@ =~= old(dst)@ + quant_quality_bytes(*self));
    }

    /// Decodes the pair at the start of `src`; returns it with the number of
    /// bytes consumed.
    pub fn decode(src: &[u8]) -> (r: Result<(QuantQuality, usize), PduError>)
        ensures
            src@.len() < 2 <==> r is Err,
            r is Err ==> r->Err_0 is NotEnoughBytes,
            r matches Ok((q, n)) ==> q == quant_quality_at(src@, 0) && n == 2,
    {
        if src.len() < 2 {
            return Err(
                PduError::NotEnoughBytes { name: "GfxQuantQuality", received: src.len(), expected: 2 },
            );
        }
        Ok((read_quant_quality(src, 0), 2))
    }
}

fn read_quant_quality(src: &[u8], pos: usize) -> (r: QuantQuality)
    requires
        pos + 2 <= src.len(),
    ensures
        r == quant_quality_at(src@, pos as int),
{
    let data = src[pos];
    assert(data & 0x3f == data % 64 && ((data & 0x80) != 0) == (data >= 128)) by (bit_vector);
    QuantQuality {
        quantization_parameter: data & 0x3f,
        progressive: (data & 0x80) != 0,
        quality: src[pos + 1],
    }
}

// ---------------------------------------------------------------------------
// AVC420 bitmap stream
// ---------------------------------------------------------------------------

pub open spec fn rects_bytes(rs: Seq<InclusiveRectangle>) -> Seq<u8>
    decreases rs.len(),
{
    if rs.len() == 0 {
        Seq::empty()
    } else {
        rects_bytes(rs.drop_last()) + rect_bytes(rs.last())
    }
}

pub open spec fn quants_bytes(qs: Seq<QuantQuality>) -> Seq<u8>
    decreases qs.len(),
{
    if qs.len() == 0 {
        Seq::empty()
    } else {
        quants_bytes(qs.drop_last()) + quant_quality_bytes(qs.last())
    }
}

/// Wire form of an AVC420 bitmap stream: the region count, every rectangle,
/// every quantization/quality pair, then the H.264 payload.
pub open spec fn avc420_bytes(rs: Seq<InclusiveRectangle>, qs: Seq<QuantQuality>, data: Seq<u8>) -> Seq<u8> {
    le32(rs.len() as u32) + rects_bytes(rs) + quants_bytes(qs) + data
}

/// What decoding `s` as an AVC420 bitmap stream yields, if anything: the
/// rectangles, the quantization/quality pairs and the rest of the input.
pub open spec fn parse_avc420(s: Seq<u8>) -> Option<(Seq<InclusiveRectangle>, Seq<QuantQuality>, Seq<u8>)> {
    if s.len() < 4 {
        None
    } else {
        let n = get_le32(s, 0) as int;
        if s.len() < 4 + 10 * n {
            None
        } else {
            Some(
                (
                    Seq::new(n as nat, |i: int| rect_at(s, 4 + 8 * i)),
                    Seq::new(n as nat, |i: int| quant_quality_at(s, 4 + 8 * n + 2 * i)),
                    s.subrange(4 + 10 * n, s.len() as int),
                ),
            )
        }
    }
}

pub proof fn lemma_rects_bytes_len(rs: Seq<InclusiveRectangle>)
    ensures
        rects_bytes(rs).len() == 8 * rs.len(),
    decreases rs.len(),
{
    if rs.len() > 0 {
        lemma_rects_bytes_len(rs.drop_last());
    }
}

pub proof fn lemma_quants_bytes_len(qs: Seq<QuantQuality>)
    ensures
        quants_bytes(qs).len() == 2 * qs.len(),
    decreases qs.len(),
{
    if qs.len() > 0 {
        lemma_quants_bytes_len(qs.drop_last());
    }
}

/// The `k`-th rectangle occupies bytes `8k..8k + 8` of `rects_bytes`.
pub proof fn lemma_rects_bytes_index(rs: Seq<InclusiveRectangle>, k: int)
    requires
        0 <= k < rs.len(),
    ensures
        rects_bytes(rs).subrange(8 * k, 8 * k + 8) == rect_bytes(rs[k]),
    decreases rs.len(),
{
    lemma_rects_bytes_len(rs.drop_last());
    let b = rects_bytes(rs);
    if k == rs.len() - 1 {
        assert(b.subrange(8 * k, 8 * k + 8) =~= rect_bytes(rs[k]));
    } else {
        lemma_rects_bytes_index(rs.drop_last(), k);
        assert(b.subrange(8 * k, 8 * k + 8) =~= rects_bytes(rs.drop_last()).subrange(
            8 * k,
            8 * k + 8,
        ));
    }
}

pub proof fn lemma_quants_bytes_index(qs: Seq<QuantQuality>, k: int)
    requires
        0 <= k < qs.len(),
    ensures
        quants_bytes(qs).subrange(2 * k, 2 * k + 2) == quant_quality_bytes(qs[k]),
    decreases qs.len(),
{
    lemma_quants_bytes_len(qs.drop_last());
    let b = quants_bytes(qs);
    if k == qs.len() - 1 {
        assert(b.subrange(2 * k, 2 * k + 2) =~= quant_quality_bytes(qs[k]));
    } else {
        lemma_quants_bytes_index(qs.drop_last(), k);
        assert(b.subrange(2 * k, 2 * k + 2) =~= quants_bytes(qs.drop_last()).subrange(
            2 * k,
            2 * k + 2,
        ));
    }
}

/// Every quantization parameter fits the six bits the wire gives it.
pub open spec fn quants_fit(qs: Seq<QuantQuality>) -> bool {
    forall|i: int| 0 <= i < qs.len() ==> (#[trigger] qs[i]).quantization_parameter < 64
}

/// Decoding the wire form of a stream gives the stream back.
pub proof fn lemma_avc420_roundtrip(rs: Seq<InclusiveRectangle>, qs: Seq<QuantQuality>, data: Seq<u8>)
    requires
        rs.len() == qs.len(),
        rs.len() <= u32::MAX,
        quants_fit(qs),
    ensures
        parse_avc420(avc420_bytes(rs, qs, data)) == Some((rs, qs, data)),
{
    let n = rs.len() as int;
    let s = avc420_bytes(rs, qs, data);
    let rb = rects_bytes(rs);
    let qb = quants_bytes(qs);
    lemma_rects_bytes_len(rs);
    lemma_quants_bytes_len(qs);
    lemma_le32_roundtrip(rs.len() as u32);
    assert(s.subrange(0, 4) =~= le32(rs.len() as u32));
    lemma_get_le32_at(s, 0, rs.len() as u32);
    assert(get_le32(s, 0) as int == n);
    let ps = parse_avc420(s).unwrap();
    assert forall|i: int| 0 <= i < n implies #[trigger] ps.0[i] == rs[i] by {
        lemma_rects_bytes_index(rs, i);
        assert(s.subrange(4 + 8 * i, 4 + 8 * i + 8) =~= rb.subrange(8 * i, 8 * i + 8));
        lemma_rect_roundtrip(s, 4 + 8 * i, rs[i]);
    }
    assert forall|i: int| 0 <= i < n implies #[trigger] ps.1[i] == qs[i] by {
        lemma_quants_bytes_index(qs, i);
        assert(s.subrange(4 + 8 * n + 2 * i, 4 + 8 * n + 2 * i + 2) =~= qb.subrange(
            2 * i,
            2 * i + 2,
        ));
        lemma_quant_quality_roundtrip(s, 4 + 8 * n + 2 * i, qs[i]);
    }
    assert(ps.0 =~= rs);
    assert(ps.1 =~= qs);
    assert(ps.2 =~= data);
}

/// An AVC420 bitmap stream: regions with their encoding parameters and the
/// H.264 payload (AVC format, length-prefixed NAL units).
#[derive(Debug, Clone)]
pub struct Avc420BitmapStream<'a> {
    pub rectangles: Vec<InclusiveRectangle>,
    pub quant_qual_vals: Vec<QuantQuality>,
    pub data: &'a [u8],
}

/// The wire form of a stream value.
pub open spec fn avc420_stream_bytes(s: Avc420BitmapStream) -> Seq<u8> {
    avc420_bytes(s.rectangles@, s.quant_qual_vals@, s.data@)
}

/// A stream whose wire form decodes back to it.
pub open spec fn avc420_stream_encodable(s: Avc420BitmapStream) -> bool {
    &&& s.rectangles@.len() == s.quant_qual_vals@.len()
    &&& quants_fit(s.quant_qual_vals@)
}

/// What `Avc420BitmapStream::size` computes.
pub open spec fn avc420_stream_size(s: Avc420BitmapStream) -> int {
    4 + 10 * s.rectangles@.len() as int + s.data@.len() as int
}

impl<'a> Avc420BitmapStream<'a> {
    pub const FIXED_PART_SIZE: usize = 4;

    pub fn name(&self) -> (r: &'static str)
        ensures
            r@ == "Avc420BitmapStream"@,
    {
        "Avc420BitmapStream"
    }

    /// Encoded size, counting ten bytes per rectangle (its pair included).
    pub fn size(&self) -> (r: usize)
        requires
            avc420_stream_size(*self) <= usize::MAX,
        ensures
            r == avc420_stream_size(*self),
    {
        4 + self.rectangles.len() * 10 + self.data.len()
    }

    /// Appends the wire form. Fails, writing nothing, when the region count
    /// does not fit the 32-bit count field.
    pub fn encode(&self, dst: &mut Vec<u8>) -> (r: Result<(), PduError>)
        requires
            avc420_stream_encodable(*self),
        ensures
            r is Ok <==> self.rectangles@.len() <= u32::MAX,
            r is Ok ==> final(dst)@ == old(dst)@ + avc420_stream_bytes(*self),
            r is Err ==> final(dst)@ == old(dst)@ && r->Err_0 is InvalidLength,
    {
        let n = self.rectangles.len();
        if n > 0xffff_ffff {
            return Err(PduError::InvalidLength { field: "len" });
        }
        let ghost start = dst@;
        push_u32_le(dst, n as u32);
        let mut i: usize = 0;
        while i < n
            invariant
                n == self.rectangles@.len(),
                i <= n,
                dst@ == start + le32(n as u32) + rects_bytes(self.rectangles@.subrange(0, i as int)),
            decreases n - i,
        {
            self.rectangles[i].encode(dst);
            proof {
                let rs = self.rectangles@.subrange(0, i + 1);
                assert(rs.drop_last() =~= self.rectangles@.subrange(0, i as int));
            }
            i = i + 1;
        }
        assert(self.rectangles@.subrange(0, n as int) =~= self.rectangles@);
        let m = self.quant_qual_vals.len();
        let mut j: usize = 0;
        while j < m
            invariant
                m == self.quant_qual_vals@.len(),
                quants_fit(self.quant_qual_vals@),
                j <= m,
                dst@ == start + le32(n as u32) + rects_bytes(self.rectangles@) + quants_bytes(
                    self.quant_qual_vals@.subrange(0, j as int),
                ),
            decreases m - j,
        {
            assert(self.quant_qual_vals@[j as int].quantization_parameter < 64);
            self.quant_qual_vals[j].encode(dst);
            proof {
                let qs = self.quant_qual_vals@.subrange(0, j + 1);
                assert(qs.drop_last() =~= self.quant_qual_vals@.subrange(0, j as int));
            }
            j = j + 1;
        }
        assert(self.quant_qual_vals@.subrange(0, m as int) =~= self.quant_qual_vals@);
        push_slice(dst, self.data);
        assert(dst@ =~= start + avc420_stream_bytes(*self));
        Ok(())
    }

    /// Decodes a stream that takes up all of `src`: the payload is the rest
    /// of the input after the regions.
    pub fn decode(src: &'a [u8]) -> (r: Result<Avc420BitmapStream<'a>, PduError>)
        ensures
            parse_avc420(src@) is None <==> r is Err,
            r is Err ==> r->Err_0 is NotEnoughBytes,
            r matches Ok(s) ==> parse_avc420(src@) == Some(
                (s.rectangles@, s.quant_qual_vals@, s.data@),
            ),
    {
        let len = src.len();
        if len < 4 {
            return Err(PduError::NotEnoughBytes { name: "Avc420BitmapStream", received: len, expected: 4 });
        }
        let n = read_u32_le(src, 0);
        let ghost ni = n as int;
        let mut rectangles: Vec<InclusiveRectangle> = Vec::new();
        let mut pos: usize = 4;
        let mut i: u32 = 0;
        while i < n
            invariant
                len == src@.len(),
                n == get_le32(src@, 0),
                i <= n,
                pos == 4 + 8 * i,
                pos <= len,
                rectangles@ =~= Seq::new(i as nat, |k: int| rect_at(src@, 4 + 8 * k)),
            decreases n - i,
        {
            if len - pos < 8 {
                return Err(PduError::NotEnoughBytes { name: "InclusiveRectangle", received: len - pos, expected: 8 });
            }
            rectangles.push(read_rect(src, pos));
            pos = pos + 8;
            i = i + 1;
        }
        let mut quant_qual_vals: Vec<QuantQuality> = Vec::new();
        let mut j: u32 = 0;
        while j < n
            invariant
                len == src@.len(),
                n == get_le32(src@, 0),
                j <= n,
                pos == 4 + 8 * n + 2 * j,
                pos <= len,
                quant_qual_vals@ =~= Seq::new(j as nat, |k: int| quant_quality_at(src@, 4 + 8 * n + 2 * k)),
            decreases n - j,
        {
            if len - pos < 2 {
                return Err(PduError::NotEnoughBytes { name: "GfxQuantQuality", received: len - pos, expected: 2 });
            }
            quant_qual_vals.push(read_quant_quality(src, pos));
            pos = pos + 2;
            j = j + 1;
        }
        let data = &src[pos..len];
        Ok(Avc420BitmapStream { rectangles, quant_qual_vals, data })
    }
}


// ---------------------------------------------------------------------------
// AVC444 bitmap stream
// ---------------------------------------------------------------------------

/// Which views an AVC444 stream carries (the two high bits of `streamInfo`).
#[derive(Debug, Clone, Copy)]
pub struct Encoding(u8);

impl Encoding {
    /// Both the luma and the chroma-auxiliary view (bits `0`).
    pub fn luma_and_chroma() -> (r: Encoding)
        ensures
            r.spec_bits() == 0,
    {
        Encoding(0)
    }

    /// The luma view only (bits `1`).
    pub fn luma() -> (r: Encoding)
        ensures
            r.spec_bits() == 1,
    {
        Encoding(1)
    }

    /// The chroma-auxiliary view only (bits `2`).
    pub fn chroma() -> (r: Encoding)
        ensures
            r.spec_bits() == 2,
    {
        Encoding(2)
    }

    pub closed spec fn spec_bits(self) -> u8 {
        self.0
    }

    pub fn bits(&self) -> (r: u8)
        ensures
            r == self.spec_bits(),
    {
        self.0
    }

    /// Keeps every bit, defined or not.
    pub fn from_bits_retain(bits: u8) -> (r: Encoding)
        ensures
            r.spec_bits() == bits,
    {
        Encoding(bits)
    }
}

/// A dual-view AVC444 bitmap stream.
#[derive(Debug, Clone)]
pub struct Avc444BitmapStream<'a> {
    pub encoding: Encoding,
    pub stream1: Avc420BitmapStream<'a>,
    pub stream2: Option<Avc420BitmapStream<'a>>,
}

pub open spec fn opt_avc420_bytes(s: Option<Avc420BitmapStream>) -> Seq<u8> {
    match s {
        Some(x) => avc420_stream_bytes(x),
        None => Seq::empty(),
    }
}

/// The `streamInfo` word: the size of the first stream in bits 0..30 and the
/// encoding in bits 30..32.
pub open spec fn stream_info(size1: int, encoding: u8) -> u32 {
    (size1 + 1073741824 * encoding) as u32
}

/// Wire form of an AVC444 stream.
pub open spec fn avc444_bytes(s: Avc444BitmapStream) -> Seq<u8> {
    le32(stream_info(avc420_stream_size(s.stream1), s.encoding.spec_bits())) + avc420_stream_bytes(
        s.stream1,
    ) + opt_avc420_bytes(s.stream2)
}

/// A stream that can be encoded without a bit-field overflow.
pub open spec fn avc444_stream_encodable(s: Avc444BitmapStream) -> bool {
    &&& avc420_stream_encodable(s.stream1)
    &&& avc420_stream_size(s.stream1) < 1073741824
    &&& s.encoding.spec_bits() < 4
    &&& s.stream2 matches Some(x) ==> avc420_stream_encodable(x) && avc420_stream_size(x)
        <= usize::MAX
}

/// A stream whose wire form decodes back to it.
pub open spec fn avc444_stream_roundtrips(s: Avc444BitmapStream) -> bool {
    &&& avc444_stream_encodable(s)
    &&& s.encoding.spec_bits() <= 2
    &&& (s.encoding.spec_bits() == 0) == (s.stream2 is Some)
    &&& s.stream2 matches Some(x) ==> x.rectangles@.len() <= u32::MAX
}

pub type Avc420Parts = (Seq<InclusiveRectangle>, Seq<QuantQuality>, Seq<u8>);

pub open spec fn avc420_parts(s: Avc420BitmapStream) -> Avc420Parts {
    (s.rectangles@, s.quant_qual_vals@, s.data@)
}

/// Bits 0..30 of the `streamInfo` word at the start of `s`.
pub open spec fn avc444_stream_len(s: Seq<u8>) -> int {
    get_le32(s, 0) as int % 1073741824
}

/// Bits 30..32 of the `streamInfo` word at the start of `s`.
pub open spec fn avc444_encoding(s: Seq<u8>) -> int {
    get_le32(s, 0) as int / 1073741824
}

/// Inputs on which the decoder would split past the end of the input (the
/// split is unchecked): the first-stream length exceeds what follows.
pub open spec fn avc444_split_overruns(s: Seq<u8>) -> bool {
    &&& s.len() >= 4
    &&& avc444_encoding(s) <= 2
    &&& avc444_stream_len(s) != 0
    &&& avc444_stream_len(s) > s.len() - 4
}

/// What decoding `s` as an AVC444 stream yields, if anything.
pub open spec fn parse_avc444(s: Seq<u8>) -> Option<(int, Avc420Parts, Option<Avc420Parts>)> {
    if s.len() < 4 {
        None
    } else {
        let len1 = avc444_stream_len(s);
        let enc = avc444_encoding(s);
        let rest = s.subrange(4, s.len() as int);
        if enc > 2 {
            None
        } else if len1 == 0 {
            if enc == 0 {
                None
            } else {
                match parse_avc420(rest) {
                    Some(p1) => Some((enc, p1, None)),
                    None => None,
                }
            }
        } else {
            match parse_avc420(rest.subrange(0, len1)) {
                None => None,
                Some(p1) => if enc == 0 {
                    match parse_avc420(rest.subrange(len1, rest.len() as int)) {
                        Some(p2) => Some((enc, p1, Some(p2))),
                        None => None,
                    }
                } else {
                    Some((enc, p1, None))
                },
            }
        }
    }
}

pub open spec fn opt_parts(s: Option<Avc420BitmapStream>) -> Option<Avc420Parts> {
    match s {
        Some(x) => Some(avc420_parts(x)),
        None => None,
    }
}

pub proof fn lemma_avc420_stream_bytes_len(s: Avc420BitmapStream)
    requires
        avc420_stream_encodable(s),
    ensures
        avc420_stream_bytes(s).len() == avc420_stream_size(s),
{
    lemma_rects_bytes_len(s.rectangles@);
    lemma_quants_bytes_len(s.quant_qual_vals@);
}

/// Decoding the wire form of an AVC444 stream gives the stream back.
#[verifier::spinoff_prover]
#[verifier::rlimit(40)]
pub proof fn lemma_avc444_roundtrip(s: Avc444BitmapStream)
    requires
        avc444_stream_roundtrips(s),
    ensures
        !avc444_split_overruns(avc444_bytes(s)),
        parse_avc444(avc444_bytes(s)) == Some(
            (s.encoding.spec_bits() as int, avc420_parts(s.stream1), opt_parts(s.stream2)),
        ),
{
    let b = avc444_bytes(s);
    let size1 = avc420_stream_size(s.stream1);
    let enc = s.encoding.spec_bits();
    let info = stream_info(size1, enc);
    let b1 = avc420_stream_bytes(s.stream1);
    let b2 = opt_avc420_bytes(s.stream2);
    lemma_avc420_stream_bytes_len(s.stream1);
    assert(size1 + 1073741824 * enc < 4294967296);
    assert(info as int % 1073741824 == size1 && info as int / 1073741824 == enc) by (nonlinear_arith)
        requires
            0 <= size1 < 1073741824,
            0 <= enc < 4,
            info as int == size1 + 1073741824 * enc,
    ;
    lemma_le32_roundtrip(info);
    assert(b.subrange(0, 4) =~= le32(info));
    lemma_get_le32_at(b, 0, info);
    let rest = b.subrange(4, b.len() as int);
    assert(rest =~= b1 + b2);
    assert(rest.subrange(0, size1) =~= b1);
    assert(rest.subrange(size1, rest.len() as int) =~= b2);
    lemma_avc420_roundtrip(s.stream1.rectangles@, s.stream1.quant_qual_vals@, s.stream1.data@);
    if let Some(x) = s.stream2 {
        lemma_avc420_roundtrip(x.rectangles@, x.quant_qual_vals@, x.data@);
    }
}

impl<'a> Avc444BitmapStream<'a> {
    pub const FIXED_PART_SIZE: usize = 4;

    pub fn name(&self) -> (r: &'static str)
        ensures
            r@ == "Avc444BitmapStream"@,
    {
        "Avc444BitmapStream"
    }

    /// Encoded size: the `streamInfo` word and both streams.
    pub fn size(&self) -> (r: usize)
        requires
            4 + avc420_stream_size(self.stream1) + match self.stream2 {
                Some(x) => avc420_stream_size(x),
                None => 0,
            } <= usize::MAX,
        ensures
            r == 4 + avc420_stream_size(self.stream1) + match self.stream2 {
                Some(x) => avc420_stream_size(x),
                None => 0,
            },
    {
        let stream2_size = match &self.stream2 {
            Some(stream) => stream.size(),
            None => 0,
        };
        4 + self.stream1.size() + stream2_size
    }

    /// Appends the wire form. Fails only when the second stream has more
    /// regions than its 32-bit count field holds.
    pub fn encode(&self, dst: &mut Vec<u8>) -> (r: Result<(), PduError>)
        requires
            avc444_stream_encodable(*self),
        ensures
            r is Err <==> (self.stream2 matches Some(x) && x.rectangles@.len() > u32::MAX),
            r is Ok ==> final(dst)@ == old(dst)@ + avc444_bytes(*self),
    {
        let size1 = self.stream1.size();
        let enc = self.encoding.bits();
        assert(size1 < 1073741824 && enc < 4 ==> (size1 as u32) | ((enc as u32) << 30) == (size1
            + 1073741824 * enc) as u32) by (bit_vector);
        let info: u32 = (size1 as u32) | ((enc as u32) << 30);
        push_u32_le(dst, info);
        let ghost mid = dst@;
        let r1 = self.stream1.encode(dst);
        assert(r1 is Ok);
        match &self.stream2 {
            Some(stream) => {
                let r2 = stream.encode(dst);
                if r2.is_err() {
                    return r2;
                }
            },
            None => {},
        }
        assert(dst@ =~= old(dst)@ + avc444_bytes(*self));
        Ok(())
    }

    /// Decodes a stream that takes up all of `src`.
    pub fn decode(src: &'a [u8]) -> (r: Result<Avc444BitmapStream<'a>, PduError>)
        requires
            !avc444_split_overruns(src@),
        ensures
            parse_avc444(src@) is None <==> r is Err,
            r matches Ok(s) ==> parse_avc444(src@) == Some(
                (s.encoding.spec_bits() as int, avc420_parts(s.stream1), opt_parts(s.stream2)),
            ),
    {
        let len = src.len();
        if len < 4 {
            return Err(PduError::NotEnoughBytes { name: "Avc444BitmapStream", received: len, expected: 4 });
        }
        let info = read_u32_le(src, 0);
        assert(info & 0x3fff_ffff == info % 1073741824 && info >> 30 == info / 1073741824
            && info >> 30 < 4) by (bit_vector);
        let stream_len = info & 0x3fff_ffff;
        let encoding_raw = (info >> 30) as u8;
        if encoding_raw > 2 {
            return Err(PduError::InvalidField { field: "encoding", reason: "reserved encoding value" });
        }
        let encoding = Encoding::from_bits_retain(encoding_raw);
        let rest = &src[4..len];
        if stream_len == 0 {
            if encoding_raw == 0 {
                return Err(PduError::InvalidField { field: "encoding", reason: "invalid encoding" });
            }
            let stream1 = Avc420BitmapStream::decode(rest)?;
            Ok(Avc444BitmapStream { encoding, stream1, stream2: None })
        } else {
            let (left, right) = rest.split_at(stream_len as usize);
            let stream1 = Avc420BitmapStream::decode(left)?;
            let stream2 = if encoding_raw == 0 {
                Some(Avc420BitmapStream::decode(right)?)
            } else {
                None
            };
            Ok(Avc444BitmapStream { encoding, stream1, stream2 })
        }
    }
}


// ---------------------------------------------------------------------------
// Server-side helpers
// ---------------------------------------------------------------------------

/// A region of a frame with its H.264 encoding parameters.
#[derive(Debug, Clone, Copy)]
pub struct Avc420Region {
    /// Left edge (inclusive).
    pub left: u16,
    /// Top edge (inclusive).
    pub top: u16,
    /// Right edge (inclusive).
    pub right: u16,
    /// Bottom edge (inclusive).
    pub bottom: u16,
    /// H.264 quantization parameter (0-51, lower is better quality).
    pub quantization_parameter: u8,
    /// Quality value (0-100).
    pub quality: u8,
}

pub open spec fn region_rect(r: Avc420Region) -> InclusiveRectangle {
    InclusiveRectangle { left: r.left, top: r.top, right: r.right, bottom: r.bottom }
}

pub open spec fn region_quant(r: Avc420Region) -> QuantQuality {
    QuantQuality { quantization_parameter: r.quantization_parameter, progressive: false, quality: r.quality }
}

impl Avc420Region {
    /// A region covering a whole `width` x `height` frame at quality 100.
    pub fn full_frame(width: u16, height: u16, qp: u8) -> (r: Avc420Region)
        ensures
            r.left == 0 && r.top == 0,
            r.right == if width == 0 { 0 } else { width - 1 },
            r.bottom == if height == 0 { 0 } else { height - 1 },
            r.quantization_parameter == qp,
            r.quality == 100,
    {
        Avc420Region {
            left: 0,
            top: 0,
            right: width.saturating_sub(1),
            bottom: height.saturating_sub(1),
            quantization_parameter: qp,
            quality: 100,
        }
    }

    /// A region with the given bounds and parameters.
    pub fn new(left: u16, top: u16, right: u16, bottom: u16, qp: u8, quality: u8) -> (r: Avc420Region)
        ensures
            r == (Avc420Region { left, top, right, bottom, quantization_parameter: qp, quality }),
    {
        Avc420Region { left, top, right, bottom, quantization_parameter: qp, quality }
    }

    /// The region's bounds as a rectangle.
    pub fn to_rectangle(&self) -> (r: InclusiveRectangle)
        ensures
            r == region_rect(*self),
    {
        InclusiveRectangle { left: self.left, top: self.top, right: self.right, bottom: self.bottom }
    }

    /// The region's encoding parameters, never progressive.
    pub fn to_quant_quality(&self) -> (r: QuantQuality)
        ensures
            r == region_quant(*self),
    {
        QuantQuality {
            quantization_parameter: self.quantization_parameter,
            progressive: false,
            quality: self.quality,
        }
    }
}

/// Rounds `dimension` up to the next multiple of 16 (an H.264 macroblock).
pub fn align_to_16(dimension: u32) -> (r: u32)
    requires
        dimension <= u32::MAX - 15,
    ensures
        r % 16 == 0,
        dimension <= r < dimension + 16,
{
    let sum: u32 = dimension + 15;
    assert(sum & !15u32 == sum - sum % 16) by (bit_vector);
    sum & !15u32
}

/// Builds the wire form of an AVC420 bitmap stream from regions and an
/// AVC-format H.264 payload.
pub fn encode_avc420_bitmap_stream(regions: &[Avc420Region], h264_data: &[u8]) -> (r: Vec<u8>)
    requires
        regions@.len() <= u32::MAX,
        4 + 10 * regions@.len() + h264_data@.len() <= usize::MAX,
        forall|i: int| 0 <= i < regions@.len() ==> (#[trigger] regions@[i]).quantization_parameter < 64,
    ensures
        r@ == avc420_bytes(
            regions@.map_values(|g: Avc420Region| region_rect(g)),
            regions@.map_values(|g: Avc420Region| region_quant(g)),
            h264_data@,
        ),
{
    let n = regions.len();
    let mut rectangles: Vec<InclusiveRectangle> = Vec::new();
    let mut quant_qual_vals: Vec<QuantQuality> = Vec::new();
    for i in 0..n
        invariant
            n == regions@.len(),
            rectangles@ =~= regions@.subrange(0, i as int).map_values(|g: Avc420Region| region_rect(g)),
            quant_qual_vals@ =~= regions@.subrange(0, i as int).map_values(
                |g: Avc420Region| region_quant(g),
            ),
    {
        rectangles.push(regions[i].to_rectangle());
        quant_qual_vals.push(regions[i].to_quant_quality());
    }
    assert(regions@.subrange(0, n as int) =~= regions@);
    let stream = Avc420BitmapStream { rectangles, quant_qual_vals, data: h264_data };
    let mut buf: Vec<u8> = Vec::new();
    let res = stream.encode(&mut buf);
    assert(res is Ok);
    assert(buf@ =~= avc420_stream_bytes(stream));
    buf
}

// ---------------------------------------------------------------------------
// Annex B to AVC conversion
// ---------------------------------------------------------------------------

/// A three-byte start code `00 00 01` at `i`.
pub open spec fn start_code3_at(d: Seq<u8>, i: int) -> bool {
    0 <= i && i + 3 <= d.len() && d[i] == 0 && d[i + 1] == 0 && d[i + 2] == 1
}

/// A four-byte start code `00 00 00 01` at `i`.
pub open spec fn start_code4_at(d: Seq<u8>, i: int) -> bool {
    0 <= i && i + 4 <= d.len() && d[i] == 0 && d[i + 1] == 0 && d[i + 2] == 0 && d[i + 3] == 1
}

/// Where the NAL unit whose search starts at `j` ends: just before the next
/// start code (including its leading zero byte, if any), or the end of input.
pub open spec fn nal_end(d: Seq<u8>, j: int) -> int
    decreases d.len() - j,
{
    if j < 0 || j + 3 > d.len() {
        d.len() as int
    } else if start_code3_at(d, j) {
        if j > 0 && d[j - 1] == 0 {
            j - 1
        } else {
            j
        }
    } else {
        nal_end(d, j + 1)
    }
}

/// A NAL unit `d[start..end]` with its 4-byte big-endian length prefix
/// (nothing for an empty unit).
pub open spec fn avc_unit(d: Seq<u8>, start: int, end: int) -> Seq<u8> {
    if end > start {
        be32((end - start) as u32) + d.subrange(start, end)
    } else {
        Seq::empty()
    }
}

/// The AVC form of the Annex B bitstream `d` from offset `i` on.
pub open spec fn annex_b_from(d: Seq<u8>, i: int) -> Seq<u8>
    decreases d.len() - i,
{
    if i < 0 || i >= d.len() {
        Seq::empty()
    } else {
        let start = if start_code4_at(d, i) {
            i + 4
        } else if start_code3_at(d, i) {
            i + 3
        } else {
            -1
        };
        if start < 0 {
            annex_b_from(d, i + 1)
        } else {
            let end = nal_end(d, start);
            let next = if i < end <= d.len() {
                end
            } else {
                i + 1
            };
            avc_unit(d, start, end) + annex_b_from(d, next)
        }
    }
}

/// The AVC form of a whole Annex B bitstream.
pub open spec fn annex_b_to_avc_spec(d: Seq<u8>) -> Seq<u8> {
    annex_b_from(d, 0)
}

/// A NAL unit that an Annex B stream can carry unambiguously: not empty,
/// with a length that fits 32 bits, no `00 00 01` inside, and not ending
/// with a zero byte.
pub open spec fn nal_unit_ok(n: Seq<u8>) -> bool {
    &&& 0 < n.len() <= u32::MAX
    &&& n.last() != 0
    &&& forall|k: int| 0 <= k && k + 3 <= n.len() ==> !(#[trigger] n[k] == 0 && n[k + 1] == 0 && n[k + 2] == 1)
}

/// The four-byte start code `00 00 00 01`.
pub open spec fn start_code4() -> Seq<u8> {
    seq![0u8, 0u8, 0u8, 1u8]
}

/// NAL units in Annex B form: each behind a four-byte start code.
pub open spec fn annex_b_join(nals: Seq<Seq<u8>>) -> Seq<u8>
    decreases nals.len(),
{
    if nals.len() == 0 {
        Seq::empty()
    } else {
        start_code4() + nals[0] + annex_b_join(nals.skip(1))
    }
}

/// NAL units in AVC form: each behind its 4-byte big-endian length.
pub open spec fn avc_join(nals: Seq<Seq<u8>>) -> Seq<u8>
    decreases nals.len(),
{
    if nals.len() == 0 {
        Seq::empty()
    } else {
        be32(nals[0].len() as u32) + nals[0] + avc_join(nals.skip(1))
    }
}

/// The end search gives the same answer past a prefix `p`.
proof fn lemma_nal_end_shift(p: Seq<u8>, q: Seq<u8>, j: int)
    requires
        1 <= j <= q.len(),
    ensures
        nal_end(p + q, p.len() + j) == p.len() + nal_end(q, j),
    decreases q.len() - j,
{
    let d = p + q;
    let jj = p.len() + j;
    if j + 3 > q.len() {
    } else {
        assert(d[jj] == q[j] && d[jj + 1] == q[j + 1] && d[jj + 2] == q[j + 2] && d[jj - 1] == q[j - 1]);
        if start_code3_at(q, j) {
        } else {
            lemma_nal_end_shift(p, q, j + 1);
        }
    }
}

/// The conversion from offset `p.len()` of `p + q` on is the conversion of
/// `q`: it never looks back before the offset it starts from.
proof fn lemma_annex_b_from_shift(p: Seq<u8>, q: Seq<u8>, i: int)
    requires
        0 <= i <= q.len(),
    ensures
        annex_b_from(p + q, p.len() + i) == annex_b_from(q, i),
    decreases q.len() - i,
{
    let d = p + q;
    let ii = p.len() + i;
    if i >= q.len() {
    } else {
        if i + 4 <= q.len() {
            assert(d[ii + 3] == q[i + 3]);
        }
        if i + 3 <= q.len() {
            assert(d[ii] == q[i] && d[ii + 1] == q[i + 1] && d[ii + 2] == q[i + 2]);
        }
        let start = if start_code4_at(q, i) {
            i + 4
        } else if start_code3_at(q, i) {
            i + 3
        } else {
            -1
        };
        if start < 0 {
            lemma_annex_b_from_shift(p, q, i + 1);
        } else {
            lemma_nal_end_shift(p, q, start);
            let end = nal_end(q, start);
            lemma_nal_end_bounds_any(q, start);
            let next = if i < end <= q.len() {
                end
            } else {
                i + 1
            };
            if end > start {
                assert(d.subrange(p.len() + start, p.len() + end) =~= q.subrange(start, end));
            }
            lemma_annex_b_from_shift(p, q, next);
        }
    }
}

/// In `00 00 00 01 ++ n ++ rest`, where `rest` is empty or starts with a
/// four-byte start code, the unit searched from inside `n` ends where `n`
/// does.
proof fn lemma_nal_end_of_unit(n: Seq<u8>, rest: Seq<u8>, j: int)
    requires
        nal_unit_ok(n),
        rest.len() == 0 || start_code4_at(rest, 0),
        4 <= j <= 4 + n.len(),
    ensures
        nal_end(start_code4() + n + rest, j) == 4 + n.len(),
    decreases 4 + n.len() - j,
{
    let q = start_code4() + n + rest;
    let end: int = 4 + n.len() as int;
    assert(q.len() == end + rest.len());
    if j == end {
        if rest.len() == 0 {
        } else {
            assert(q[end] == 0 && q[end + 1] == 0 && q[end + 2] == 0 && q[end + 3] == 1);
            assert(!start_code3_at(q, end));
            assert(start_code3_at(q, end + 1));
            assert(nal_end(q, end + 1) == end);
            assert(nal_end(q, end) == nal_end(q, end + 1));
        }
    } else if j + 3 > q.len() {
    } else {
        if j + 3 <= end {
            assert(q[j] == n[j - 4] && q[j + 1] == n[j - 3] && q[j + 2] == n[j - 2]);
            assert(!(n[j - 4] == 0 && n[j - 3] == 0 && n[j - 2] == 1));
        } else if j == end - 2 {
            assert(q[j + 1] == n.last());
        } else {
            assert(j == end - 1);
            assert(q[j] == n.last());
        }
        assert(!start_code3_at(q, j));
        lemma_nal_end_of_unit(n, rest, j + 1);
        assert(nal_end(q, j) == nal_end(q, j + 1));
    }
}

/// The Annex B join of units is empty or starts with a four-byte start code.
proof fn lemma_annex_b_join_starts(nals: Seq<Seq<u8>>)
    ensures
        annex_b_join(nals).len() == 0 || start_code4_at(annex_b_join(nals), 0),
{
    if nals.len() > 0 {
        let q = annex_b_join(nals);
        assert(q == start_code4() + nals[0] + annex_b_join(nals.skip(1)));
        assert(q[0] == 0 && q[1] == 0 && q[2] == 0 && q[3] == 1);
    }
}

/// Annex B to AVC: NAL units, each behind a four-byte start code, come out
/// each behind its big-endian length, every unit kept, in order, none split,
/// merged or cut.
pub proof fn lemma_annex_b_to_avc_units(nals: Seq<Seq<u8>>)
    requires
        forall|i: int| 0 <= i < nals.len() ==> nal_unit_ok(#[trigger] nals[i]),
    ensures
        annex_b_to_avc_spec(annex_b_join(nals)) == avc_join(nals),
    decreases nals.len(),
{
    if nals.len() > 0 {
        let n = nals[0];
        let tail = nals.skip(1);
        let rest = annex_b_join(tail);
        let q = annex_b_join(nals);
        assert(q == start_code4() + n + rest);
        assert(nal_unit_ok(n));
        assert forall|i: int| 0 <= i < tail.len() implies nal_unit_ok(#[trigger] tail[i]) by {
            assert(tail[i] == nals[i + 1]);
        }
        lemma_annex_b_join_starts(tail);
        lemma_nal_end_of_unit(n, rest, 4);
        let end: int = 4 + n.len() as int;
        assert(start_code4_at(q, 0));
        assert(q.subrange(4, end) =~= n);
        lemma_annex_b_to_avc_units(tail);
        lemma_annex_b_from_shift(start_code4() + n, rest, 0);
        assert(annex_b_from(q, 0) == avc_unit(q, 4, end) + annex_b_from(q, end));
        assert(avc_join(nals) == be32(n.len() as u32) + n + avc_join(tail));
        assert(annex_b_from(q, 0) =~= avc_join(nals));
    }
}

proof fn lemma_nal_end_bounds(d: Seq<u8>, j: int)
    requires
        1 <= j <= d.len(),
        d[j - 1] != 0,
    ensures
        j <= nal_end(d, j) <= d.len(),
    decreases d.len() - j,
{
    if j + 3 > d.len() {
    } else if start_code3_at(d, j) {
    } else {
        lemma_nal_end_bounds_any(d, j + 1);
    }
}

proof fn lemma_nal_end_bounds_any(d: Seq<u8>, j: int)
    requires
        1 <= j <= d.len(),
    ensures
        j - 1 <= nal_end(d, j) <= d.len(),
    decreases d.len() - j,
{
    if j + 3 > d.len() {
    } else if start_code3_at(d, j) {
    } else {
        lemma_nal_end_bounds_any(d, j + 1);
    }
}

/// Finds the end of the NAL unit that starts at `start`.
fn find_nal_end(data: &[u8], start: usize) -> (end: usize)
    requires
        1 <= start <= data@.len(),
        data@[start - 1] != 0,
    ensures
        end == nal_end(data@, start as int),
        start <= end <= data@.len(),
{
    let len = data.len();
    proof {
        lemma_nal_end_bounds(data@, start as int);
    }
    let mut j = start;
    while j < len && len - j >= 3
        invariant
            len == data@.len(),
            start <= j <= len,
            nal_end(data@, j as int) == nal_end(data@, start as int),
            start <= nal_end(data@, start as int) <= len,
        decreases len - j,
    {
        if data[j] == 0 && data[j + 1] == 0 && data[j + 2] == 1 {
            if j > 0 && data[j - 1] == 0 {
                return j - 1;
            } else {
                return j;
            }
        }
        j = j + 1;
    }
    len
}

/// Converts an Annex B H.264 bitstream (start-code delimited) to AVC format
/// (each NAL unit preceded by its 4-byte big-endian length), as the graphics
/// pipeline requires. Bytes before the first start code are dropped, and so
/// are empty NAL units.
pub fn annex_b_to_avc(data: &[u8]) -> (r: Vec<u8>)
    ensures
        r@ == annex_b_to_avc_spec(data@),
{
    let len = data.len();
    let mut result: Vec<u8> = Vec::new();
    let mut i: usize = 0;
    while i < len
        invariant
            len == data@.len(),
            i <= len,
            result@ + annex_b_from(data@, i as int) == annex_b_from(data@, 0),
        decreases len - i,
    {
        let start: usize;
        if len - i >= 4 && data[i] == 0 && data[i + 1] == 0 && data[i + 2] == 0 && data[i + 3] == 1 {
            start = i + 4;
        } else if len - i >= 3 && data[i] == 0 && data[i + 1] == 0 && data[i + 2] == 1 {
            start = i + 3;
        } else {
            i = i + 1;
            continue;
        }
        assert(data@[start - 1] == 1);
        let end = find_nal_end(data, start);
        let ghost before = result@;
        if end > start {
            let nal_data = &data[start..end];
            push_u32_be(&mut result, (end - start) as u32);
            push_slice(&mut result, nal_data);
        }
        assert(result@ =~= before + avc_unit(data@, start as int, end as int));
        i = end;
    }
    result
}

/// The Annex B form of the AVC (length-prefixed) NAL units in `d` from
/// offset `i` on: each unit behind a 4-byte start code. The conversion stops
/// where fewer than four bytes are left or a length runs past the end.
pub open spec fn avc_from(d: Seq<u8>, i: int) -> Seq<u8>
    decreases d.len() - i,
{
    if i < 0 || i + 4 > d.len() {
        Seq::empty()
    } else {
        let n = get_be32(d, i) as int;
        if i + 4 + n > d.len() {
            Seq::empty()
        } else {
            seq![0u8, 0u8, 0u8, 1u8] + d.subrange(i + 4, i + 4 + n) + avc_from(d, i + 4 + n)
        }
    }
}

/// Converts AVC format (each NAL unit behind its 4-byte big-endian length)
/// to Annex B (each behind a start code), as an H.264 decoder takes it.
/// What follows a truncated length or unit is dropped.
pub fn avc_to_annex_b(data: &[u8]) -> (r: Vec<u8>)
    ensures
        r@ == avc_from(data@, 0),
{
    let len = data.len();
    let mut out: Vec<u8> = Vec::new();
    let mut offset: usize = 0;
    while len - offset >= 4
        invariant
            len == data@.len(),
            offset <= len,
            out@ + avc_from(data@, offset as int) == avc_from(data@, 0),
        ensures
            out@ == avc_from(data@, 0),
        decreases len - offset,
    {
        let nal_len = read_u32_be(data, offset) as usize;
        let start = offset + 4;
        if nal_len > len - start {
            assert(out@ + Seq::<u8>::empty() =~= out@);
            break;
        }
        let ghost before = out@;
        out.push(0);
        out.push(0);
        out.push(0);
        out.push(1);
        push_slice(&mut out, &data[start..start + nal_len]);
        assert(out@ =~= before + (seq![0u8, 0u8, 0u8, 1u8] + data@.subrange(start as int, start + nal_len)));
        offset = start + nal_len;
    }
    out
}

} // verus!
