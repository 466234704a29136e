//! Frame-buffer operations of the graphics pipeline client: pixel format
//! conversion, cropping of macroblock-aligned frames, and copying tiles and
//! regions between buffers. All of them are bounds-checked: a row that would
//! fall outside a buffer is skipped.

use vstd::prelude::*;

use crate::bytes::push_slice;

verus! {

/// `s` with `src` written over it from `start` on.
pub open spec fn splice(s: Seq<u8>, start: int, src: Seq<u8>) -> Seq<u8> {
    s.subrange(0, start) + src + s.subrange(start + src.len(), s.len() as int)
}

/// `n` zero bytes.
pub open spec fn zeros(n: int) -> Seq<u8> {
    Seq::new(n as nat, |i: int| 0u8)
}

/// Overwrites `dst[dst_start..dst_start + n]` with `src[src_start..src_start + n]`.
pub fn copy_range(dst: &mut Vec<u8>, dst_start: usize, src: &[u8], src_start: usize, n: usize)
    requires
        dst_start + n <= old(dst).len(),
        src_start + n <= src.len(),
    ensures
        final(dst)@ == splice(
            old(dst)@,
            dst_start as int,
            src@.subrange(src_start as int, src_start + n),
        ),
{
    let ghost d0 = dst@;
    let dlen = dst.len();
    let mut k: usize = 0;
    while k < n
        invariant
            dst_start + n <= d0.len(),
            d0.len() == dst@.len(),
            d0.len() == dlen,
            src_start + n <= src.len(),
            k <= n,
            dst@ =~= splice(d0, dst_start as int, src@.subrange(src_start as int, src_start + k)),
        decreases n - k,
    {
        dst.set(dst_start + k, src[src_start + k]);
        k = k + 1;
    }
}

// ---------------------------------------------------------------------------
// Pixel format conversion
// ---------------------------------------------------------------------------

/// The RGBA bytes of pixel `i` of a BGRX buffer: red, green, blue, opaque.
pub open spec fn bgrx_pixel_to_rgba(src: Seq<u8>, i: int) -> Seq<u8> {
    seq![src[4 * i + 2], src[4 * i + 1], src[4 * i], 255u8]
}

/// The RGBA form of the first `n` pixels of a BGRX buffer.
pub open spec fn bgrx_to_rgba(src: Seq<u8>, n: int) -> Seq<u8>
    decreases n,
{
    if n <= 0 {
        Seq::empty()
    } else {
        bgrx_to_rgba(src, n - 1) + bgrx_pixel_to_rgba(src, n - 1)
    }
}

/// Converts BGRX pixels (uncompressed surface data) to RGBA with opaque
/// alpha; trailing bytes that do not make a whole pixel are dropped.
pub fn convert_uncompressed_to_rgba(src: &[u8]) -> (r: Vec<u8>)
    ensures
        r@ == bgrx_to_rgba(src@, src@.len() as int / 4),
{
    let len = src.len();
    let n = len / 4;
    let mut dst: Vec<u8> = Vec::new();
    for i in 0..n
        invariant
            len == src@.len(),
            n == len / 4,
            dst@ == bgrx_to_rgba(src@, i as int),
    {
        let b = src[4 * i];
        let g = src[4 * i + 1];
        let r = src[4 * i + 2];
        let ghost before = dst@;
        dst.push(r);
        dst.push(g);
        dst.push(b);
        dst.push(0xFF);
        assert(dst@ =~= before + bgrx_pixel_to_rgba(src@, i as int));
    }
    dst
}

// ---------------------------------------------------------------------------
// Cropping a decoded frame
// ---------------------------------------------------------------------------

pub open spec fn sat_u32(v: int) -> int {
    if v > u32::MAX {
        u32::MAX as int
    } else {
        v
    }
}

pub open spec fn sat_usize(v: int) -> int {
    if v > usize::MAX {
        usize::MAX as int
    } else {
        v
    }
}

/// Row `row` of a crop: `copy_len` bytes from `row * src_stride` (both with
/// the saturating arithmetic the crop uses), or nothing when the decoded data
/// is too short.
pub open spec fn crop_row(data: Seq<u8>, src_stride: int, copy_len: int, row: int) -> Seq<u8> {
    let start = sat_u32(row * src_stride);
    let end = sat_usize(start + copy_len);
    if end <= data.len() {
        data.subrange(start, end)
    } else {
        Seq::empty()
    }
}

/// Rows `0..rows` of a crop, concatenated.
pub open spec fn crop_rows(data: Seq<u8>, src_stride: int, copy_len: int, rows: int) -> Seq<u8>
    decreases rows,
{
    if rows <= 0 {
        Seq::empty()
    } else {
        crop_rows(data, src_stride, copy_len, rows - 1) + crop_row(data, src_stride, copy_len, rows - 1)
    }
}

/// The top-left `target_width` x `target_height` part of a decoded RGBA frame.
pub open spec fn crop_decoded_frame_spec(
    data: Seq<u8>,
    decoded_width: u32,
    decoded_height: u32,
    target_width: u16,
    target_height: u16,
) -> Seq<u8> {
    let tw = target_width as int;
    let th = target_height as int;
    if decoded_width == 0 || decoded_height == 0 || tw == 0 || th == 0 {
        Seq::empty()
    } else if decoded_width == tw && decoded_height == th {
        data
    } else {
        let src_stride = sat_u32(4 * decoded_width);
        let dst_stride = 4 * tw;
        let rows = if th < decoded_height { th } else { decoded_height as int };
        let copy_len = if dst_stride < src_stride { dst_stride } else { src_stride };
        crop_rows(data, src_stride, copy_len, rows)
    }
}

/// A crop whose every row lies inside the decoded data: row `row`, the
/// `copy_len` bytes at `row * copy_len`, is the `copy_len` bytes at
/// `row * src_stride` of the data.
proof fn lemma_crop_rows_full(data: Seq<u8>, src_stride: int, copy_len: int, rows: int)
    requires
        0 <= copy_len <= src_stride,
        0 <= rows,
        rows * src_stride <= data.len(),
        rows * src_stride <= u32::MAX,
    ensures
        crop_rows(data, src_stride, copy_len, rows).len() == rows * copy_len,
        forall|row: int, c: int|
            0 <= row < rows && 0 <= c < copy_len ==> #[trigger] crop_rows(data, src_stride, copy_len, rows)[row
                * copy_len + c] == data[row * src_stride + c],
    decreases rows,
{
    if rows > 0 {
        let last = rows - 1;
        assert(last * src_stride + src_stride == rows * src_stride) by (nonlinear_arith)
            requires
                last == rows - 1,
        ;
        assert(0 <= last * src_stride) by (nonlinear_arith)
            requires
                last >= 0,
                src_stride >= 0,
        ;
        lemma_crop_rows_full(data, src_stride, copy_len, last);
        let prev = crop_rows(data, src_stride, copy_len, last);
        let row_bytes = crop_row(data, src_stride, copy_len, last);
        assert(row_bytes =~= data.subrange(last * src_stride, last * src_stride + copy_len));
        let all = crop_rows(data, src_stride, copy_len, rows);
        assert(all == prev + row_bytes);
        assert(last * copy_len + copy_len == rows * copy_len) by (nonlinear_arith)
            requires
                last == rows - 1,
        ;
        assert forall|row: int, c: int| 0 <= row < rows && 0 <= c < copy_len implies #[trigger] all[row * copy_len
            + c] == data[row * src_stride + c] by {
            if row < last {
                assert(row * copy_len + c < last * copy_len) by (nonlinear_arith)
                    requires
                        row + 1 <= last,
                        c < copy_len,
                        copy_len >= 0,
                ;
                assert(0 <= row * copy_len) by (nonlinear_arith)
                    requires
                        row >= 0,
                        copy_len >= 0,
                ;
            }
        }
    } else {
        assert(rows * copy_len == 0) by (nonlinear_arith)
            requires
                rows == 0,
        ;
    }
}

/// Top-left crop: cropping a `decoded_width` x `decoded_height` RGBA frame
/// (its data exactly that size) to a target no larger than it gives
/// `target_width * target_height` pixels, pixel (x, y) of the crop being
/// pixel (x, y) of the frame. The frame's byte count must fit a `u32`, in
/// which the crop computes its offsets.
pub proof fn lemma_crop_top_left(
    data: Seq<u8>,
    decoded_width: u32,
    decoded_height: u32,
    target_width: u16,
    target_height: u16,
)
    requires
        0 < target_width <= decoded_width,
        0 < target_height <= decoded_height,
        data.len() == 4 * decoded_width * decoded_height,
        4 * decoded_width * decoded_height <= u32::MAX,
    ensures
        ({
            let out = crop_decoded_frame_spec(data, decoded_width, decoded_height, target_width, target_height);
            &&& out.len() == 4 * target_width * target_height
            &&& forall|y: int, b: int|
                0 <= y < target_height && 0 <= b < 4 * target_width ==> #[trigger] out[y * (4 * target_width) + b]
                    == data[y * (4 * decoded_width) + b]
        }),
{
    let tw = target_width as int;
    let th = target_height as int;
    let dw = decoded_width as int;
    let dh = decoded_height as int;
    if dw == tw && dh == th {
        assert(4 * dw * dh == 4 * tw * th);
    } else {
        assert(4 * dw <= 4 * dw * dh) by (nonlinear_arith)
            requires
                dh >= 1,
                dw >= 0,
        ;
        assert(sat_u32(4 * dw) == 4 * dw);
        assert(th * (4 * dw) <= 4 * dw * dh) by (nonlinear_arith)
            requires
                th <= dh,
                dw >= 0,
        ;
        lemma_crop_rows_full(data, 4 * dw, 4 * tw, th);
        assert(th * (4 * tw) == 4 * tw * th) by (nonlinear_arith);
    }
}

/// `a * b`, saturating at `u32::MAX`.
pub fn mul_sat_u32(a: u32, b: u32) -> (r: u32)
    ensures
        r == sat_u32(a * b),
{
    match a.checked_mul(b) {
        Some(p) => p,
        None => u32::MAX,
    }
}

/// `a + b`, saturating at `usize::MAX`.
pub fn add_sat_usize(a: usize, b: usize) -> (r: usize)
    ensures
        r == sat_usize(a + b),
{
    match a.checked_add(b) {
        Some(p) => p,
        None => usize::MAX,
    }
}

/// Crops a macroblock-aligned decoded RGBA frame to its target size, keeping
/// the top-left region. Rows the data is too short for are left out.
pub fn crop_decoded_frame(
    data: &[u8],
    decoded_width: u32,
    decoded_height: u32,
    target_width: u16,
    target_height: u16,
) -> (r: Vec<u8>)
    ensures
        r@ == crop_decoded_frame_spec(data@, decoded_width, decoded_height, target_width, target_height),
{
    let tw = target_width as u32;
    let th = target_height as u32;
    if decoded_width == 0 || decoded_height == 0 || tw == 0 || th == 0 {
        return Vec::new();
    }
    if decoded_width == tw && decoded_height == th {
        let mut whole: Vec<u8> = Vec::new();
        push_slice(&mut whole, data);
        return whole;
    }
    let src_stride = mul_sat_u32(decoded_width, 4);
    let dst_stride = tw * 4;
    let rows = if th < decoded_height { th } else { decoded_height };
    let copy_len: usize = if dst_stride < src_stride { dst_stride as usize } else { src_stride as usize };
    let mut cropped: Vec<u8> = Vec::new();
    let mut row: u32 = 0;
    while row < rows
        invariant
            src_stride == sat_u32(4 * decoded_width),
            copy_len == (if dst_stride < src_stride { dst_stride as int } else { src_stride as int }),
            row <= rows,
            cropped@ == crop_rows(data@, src_stride as int, copy_len as int, row as int),
        decreases rows - row,
    {
        let src_start = mul_sat_u32(row, src_stride) as usize;
        let src_end = add_sat_usize(src_start, copy_len);
        if src_end <= data.len() {
            push_slice(&mut cropped, &data[src_start..src_end]);
        }
        row = row + 1;
    }
    cropped
}

// ---------------------------------------------------------------------------
// Packing a padded decoder plane
// ---------------------------------------------------------------------------

/// `a * b`, saturating at `usize::MAX`.
pub fn mul_sat_usize(a: usize, b: usize) -> (r: usize)
    ensures
        r == sat_usize(a * b),
{
    match a.checked_mul(b) {
        Some(p) => p,
        None => usize::MAX,
    }
}

/// Row `row` of a packed plane: `width` bytes of the source from
/// `row * src_stride`, or zeros when they lie past the source's end.
pub open spec fn plane_row(src: Seq<u8>, src_stride: int, width: int, row: int) -> Seq<u8> {
    if row * src_stride + width <= src.len() {
        src.subrange(row * src_stride, row * src_stride + width)
    } else {
        zeros(width)
    }
}

/// Rows `0..rows` of a packed plane, concatenated.
pub open spec fn plane_rows(src: Seq<u8>, src_stride: int, width: int, rows: int) -> Seq<u8>
    decreases rows,
{
    if rows <= 0 {
        Seq::empty()
    } else {
        plane_rows(src, src_stride, width, rows - 1) + plane_row(src, src_stride, width, rows - 1)
    }
}

/// A packed plane of `rows` rows holds `rows * width` bytes.
pub proof fn lemma_plane_rows_len(src: Seq<u8>, src_stride: int, width: int, rows: int)
    requires
        0 <= src_stride,
        0 <= width,
        0 <= rows,
    ensures
        plane_rows(src, src_stride, width, rows).len() == rows * width,
    decreases rows,
{
    if rows > 0 {
        lemma_plane_rows_len(src, src_stride, width, rows - 1);
        assert(0 <= (rows - 1) * src_stride) by (nonlinear_arith)
            requires
                rows >= 1,
                src_stride >= 0,
        ;
        assert(plane_row(src, src_stride, width, rows - 1).len() == width);
        assert((rows - 1) * width + width == rows * width) by (nonlinear_arith);
        assert(plane_rows(src, src_stride, width, rows) == plane_rows(src, src_stride, width, rows - 1) + plane_row(
            src,
            src_stride,
            width,
            rows - 1,
        ));
    } else {
        assert(rows * width == 0) by (nonlinear_arith)
            requires
                rows == 0,
        ;
    }
}

/// Row `row` of a packed plane, the `width` bytes at `row * width`, is
/// source row `row` (the `width` bytes at `row * src_stride`) when it lies
/// inside the source, and zeros when it does not.
pub proof fn lemma_plane_rows_row(src: Seq<u8>, src_stride: int, width: int, rows: int, row: int)
    requires
        0 <= src_stride,
        0 <= width,
        0 <= row < rows,
    ensures
        plane_rows(src, src_stride, width, rows).subrange(row * width, (row + 1) * width) == (if row * src_stride
            + width <= src.len() {
            src.subrange(row * src_stride, row * src_stride + width)
        } else {
            zeros(width)
        }),
    decreases rows,
{
    let prev = plane_rows(src, src_stride, width, rows - 1);
    let all = plane_rows(src, src_stride, width, rows);
    lemma_plane_rows_len(src, src_stride, width, rows - 1);
    assert(all == prev + plane_row(src, src_stride, width, rows - 1));
    assert((row + 1) * width == row * width + width) by (nonlinear_arith);
    assert(0 <= row * src_stride) by (nonlinear_arith)
        requires
            row >= 0,
            src_stride >= 0,
    ;
    assert(plane_row(src, src_stride, width, row).len() == width);
    if row == rows - 1 {
        assert(all.subrange(row * width, (row + 1) * width) =~= plane_row(src, src_stride, width, row));
    } else {
        lemma_plane_rows_row(src, src_stride, width, rows - 1, row);
        assert((row + 1) * width <= (rows - 1) * width) by (nonlinear_arith)
            requires
                row + 1 <= rows - 1,
                0 <= width,
        ;
        assert(all.subrange(row * width, (row + 1) * width) =~= prev.subrange(row * width, (row + 1) * width));
    }
}

/// Copies a decoder plane whose rows are `src_stride` bytes apart into a
/// tightly packed `width * height` buffer; rows that lie past the end of
/// the source are left zero.
pub fn pack_plane(src: &[u8], src_stride: usize, width: usize, height: usize) -> (r: Vec<u8>)
    requires
        src@.len() < usize::MAX,
        width * height <= usize::MAX,
    ensures
        r@ == plane_rows(src@, src_stride as int, width as int, height as int),
        r@.len() == width * height,
{
    let mut dst: Vec<u8> = Vec::new();
    for row in 0..height
        invariant
            src@.len() < usize::MAX,
            width * height <= usize::MAX,
            dst@ == plane_rows(src@, src_stride as int, width as int, row as int),
            dst@.len() == row * width,
    {
        let src_start = mul_sat_usize(row, src_stride);
        let src_end = add_sat_usize(src_start, width);
        if src_end <= src.len() {
            push_slice(&mut dst, &src[src_start..src_end]);
        } else {
            let blank = crate::avc444::filled(width, 0);
            assert(blank@ =~= zeros(width as int));
            push_slice(&mut dst, blank.as_slice());
        }
        assert(row * width + width == (row + 1) * width) by (nonlinear_arith);
    }
    assert(height * width == width * height) by (nonlinear_arith);
    dst
}

// ---------------------------------------------------------------------------
// Regions and tiles
// ---------------------------------------------------------------------------

/// Row `row` of a region crop: `4 * w` bytes of the framebuffer row `y + row`
/// from column `x`, or zeros when that range leaves the framebuffer.
pub open spec fn region_row(fb: Seq<u8>, fb_w: int, x: int, y: int, w: int, row: int) -> Seq<u8> {
    let start = ((y + row) * fb_w + x) * 4;
    if start + w * 4 <= fb.len() {
        fb.subrange(start, start + w * 4)
    } else {
        zeros(w * 4)
    }
}

/// Rows `0..rows` of a region crop, concatenated.
pub open spec fn region_rows(fb: Seq<u8>, fb_w: int, x: int, y: int, w: int, rows: int) -> Seq<u8>
    decreases rows,
{
    if rows <= 0 {
        Seq::empty()
    } else {
        region_rows(fb, fb_w, x, y, w, rows - 1) + region_row(fb, fb_w, x, y, w, rows - 1)
    }
}

/// A region crop of `rows` rows holds `rows * w * 4` bytes.
pub proof fn lemma_region_rows_len(fb: Seq<u8>, fb_w: int, x: int, y: int, w: int, rows: int)
    requires
        0 <= fb_w,
        0 <= x,
        0 <= y,
        0 <= w,
        0 <= rows,
    ensures
        region_rows(fb, fb_w, x, y, w, rows).len() == rows * (w * 4),
    decreases rows,
{
    if rows > 0 {
        lemma_region_rows_len(fb, fb_w, x, y, w, rows - 1);
        assert(0 <= (y + rows - 1) * fb_w) by (nonlinear_arith)
            requires
                rows >= 1,
                y >= 0,
                fb_w >= 0,
        ;
        assert(region_row(fb, fb_w, x, y, w, rows - 1).len() == w * 4);
        assert((rows - 1) * (w * 4) + w * 4 == rows * (w * 4)) by (nonlinear_arith);
        assert(region_rows(fb, fb_w, x, y, w, rows) == region_rows(fb, fb_w, x, y, w, rows - 1) + region_row(
            fb,
            fb_w,
            x,
            y,
            w,
            rows - 1,
        ));
    } else {
        assert(rows * (w * 4) == 0) by (nonlinear_arith)
            requires
                rows == 0,
        ;
    }
}

/// Row `row` of a region crop, the `w * 4` bytes at `row * w * 4`, is the
/// `w` pixels of framebuffer row `y + row` from column `x` on when they lie
/// inside the framebuffer, and zeros when they do not.
pub proof fn lemma_region_rows_row(fb: Seq<u8>, fb_w: int, x: int, y: int, w: int, rows: int, row: int)
    requires
        0 <= fb_w,
        0 <= x,
        0 <= y,
        0 <= w,
        0 <= row < rows,
    ensures
        region_rows(fb, fb_w, x, y, w, rows).subrange(row * (w * 4), (row + 1) * (w * 4)) == ({
            let start = ((y + row) * fb_w + x) * 4;
            if start + w * 4 <= fb.len() {
                fb.subrange(start, start + w * 4)
            } else {
                zeros(w * 4)
            }
        }),
    decreases rows,
{
    let prev = region_rows(fb, fb_w, x, y, w, rows - 1);
    let all = region_rows(fb, fb_w, x, y, w, rows);
    lemma_region_rows_len(fb, fb_w, x, y, w, rows - 1);
    assert(all == prev + region_row(fb, fb_w, x, y, w, rows - 1));
    assert((row + 1) * (w * 4) == row * (w * 4) + w * 4) by (nonlinear_arith);
    assert(0 <= (y + row) * fb_w) by (nonlinear_arith)
        requires
            row >= 0,
            y >= 0,
            fb_w >= 0,
    ;
    assert(region_row(fb, fb_w, x, y, w, row).len() == w * 4);
    if row == rows - 1 {
        assert(all.subrange(row * (w * 4), (row + 1) * (w * 4)) =~= region_row(fb, fb_w, x, y, w, row));
    } else {
        lemma_region_rows_row(fb, fb_w, x, y, w, rows - 1, row);
        assert((row + 1) * (w * 4) <= (rows - 1) * (w * 4)) by (nonlinear_arith)
            requires
                row + 1 <= rows - 1,
                0 <= w,
        ;
        assert(all.subrange(row * (w * 4), (row + 1) * (w * 4)) =~= prev.subrange(
            row * (w * 4),
            (row + 1) * (w * 4),
        ));
    }
}

/// A region crop byte by byte: for a rectangle inside the framebuffer,
/// byte `k` of pixel `(rx, ry)` of the crop is byte `k` of pixel
/// `(x + rx, y + ry)` of the framebuffer.
pub proof fn lemma_region_rows_byte(
    fb: Seq<u8>,
    fb_w: int,
    x: int,
    y: int,
    w: int,
    h: int,
    rx: int,
    ry: int,
    k: int,
)
    requires
        0 <= x,
        0 <= y,
        0 <= w,
        x + w <= fb_w,
        (y + h) * fb_w * 4 <= fb.len(),
        0 <= rx < w,
        0 <= ry < h,
        0 <= k < 4,
    ensures
        region_rows(fb, fb_w, x, y, w, h).len() == w * h * 4,
        region_rows(fb, fb_w, x, y, w, h)[(ry * w + rx) * 4 + k] == fb[((y + ry) * fb_w + x + rx) * 4 + k],
{
    lemma_region_rows_len(fb, fb_w, x, y, w, h);
    lemma_region_rows_row(fb, fb_w, x, y, w, h, ry);
    let start = ((y + ry) * fb_w + x) * 4;
    assert(start + w * 4 <= fb.len()) by (nonlinear_arith)
        requires
            start == ((y + ry) * fb_w + x) * 4,
            x + w <= fb_w,
            ry < h,
            0 <= y,
            0 <= fb_w,
            (y + h) * fb_w * 4 <= fb.len(),
    ;
    assert(h * (w * 4) == w * h * 4) by (nonlinear_arith);
    assert((ry * w + rx) * 4 + k == ry * (w * 4) + (rx * 4 + k)) by (nonlinear_arith);
    assert(start + rx * 4 + k == ((y + ry) * fb_w + x + rx) * 4 + k) by (nonlinear_arith)
        requires
            start == ((y + ry) * fb_w + x) * 4,
    ;
    assert(ry * (w * 4) + (rx * 4 + k) < (ry + 1) * (w * 4)) by (nonlinear_arith)
        requires
            rx < w,
            k < 4,
    ;
    let all = region_rows(fb, fb_w, x, y, w, h);
    assert(0 <= ry * (w * 4) && (ry + 1) * (w * 4) <= h * (w * 4)) by (nonlinear_arith)
        requires
            0 <= ry < h,
            0 <= w,
    ;
    assert(all.len() == h * (w * 4));
    assert(all.subrange(ry * (w * 4), (ry + 1) * (w * 4))[rx * 4 + k] == all[ry * (w * 4) + (rx * 4 + k)]);
}

/// Index bounds under which a region crop computes no overflowing index.
pub open spec fn region_fits(fb_w: int, x: int, y: int, w: int, h: int) -> bool {
    &&& y + h <= usize::MAX
    &&& h == 0 || ((y + h - 1) * fb_w + x + w) * 4 <= usize::MAX
    &&& w * h * 4 <= usize::MAX
}

/// Crops the `w` x `h` rectangle at (`x`, `y`) out of a `fb_w`-wide RGBA
/// framebuffer into a tightly packed buffer; rows outside the framebuffer
/// stay zero.
pub fn crop_region(fb: &[u8], fb_w: usize, x: usize, y: usize, w: usize, h: usize) -> (r: Vec<u8>)
    requires
        region_fits(fb_w as int, x as int, y as int, w as int, h as int),
    ensures
        r@ == region_rows(fb@, fb_w as int, x as int, y as int, w as int, h as int),
        r@.len() == w * h * 4,
{
    let mut out: Vec<u8> = Vec::new();
    let mut row: usize = 0;
    while row < h
        invariant
            region_fits(fb_w as int, x as int, y as int, w as int, h as int),
            row <= h,
            out@ == region_rows(fb@, fb_w as int, x as int, y as int, w as int, row as int),
            out@.len() == w * row * 4,
        decreases h - row,
    {
        proof {
            assert(((y + row) * fb_w + x + w) * 4 <= ((y + h - 1) * fb_w + x + w) * 4) by (nonlinear_arith)
                requires
                    row < h,
            ;
            assert(w * (row + 1) * 4 <= w * h * 4 && w * (row + 1) * 4 == w * row * 4 + w * 4)
                by (nonlinear_arith)
                requires
                    row < h,
            ;
        }
        let src_start = ((y + row) * fb_w + x) * 4;
        let src_end = src_start + w * 4;
        if src_end <= fb.len() {
            push_slice(&mut out, &fb[src_start..src_end]);
        } else {
            let row_len = w * 4;
            let mut k: usize = 0;
            let ghost before = out@;
            while k < row_len
                invariant
                    row_len == w * 4,
                    k <= w * 4,
                    out@ == before + zeros(k as int),
                decreases row_len - k,
            {
                out.push(0);
                assert(zeros(k + 1) =~= zeros(k as int).push(0u8));
                k = k + 1;
            }
        }
        row = row + 1;
    }
    out
}

/// Side of a progressive tile, in pixels.
pub const TILE_SIZE: usize = 64;

/// The framebuffer after rows `0..rows` of a tile blit: row `r` copies
/// `cols` pixels of tile row `r` to framebuffer row `dst_y + r` at column
/// `dst_x`, when both ranges lie inside their buffers.
pub open spec fn blit_rows(
    tile: Seq<u8>,
    fb: Seq<u8>,
    fb_w: int,
    dst_x: int,
    dst_y: int,
    cols: int,
    rows: int,
) -> Seq<u8>
    decreases rows,
{
    if rows <= 0 {
        fb
    } else {
        let prev = blit_rows(tile, fb, fb_w, dst_x, dst_y, cols, rows - 1);
        let r = rows - 1;
        let src_start = r * 64 * 4;
        let dst_start = ((dst_y + r) * fb_w + dst_x) * 4;
        if src_start + cols * 4 <= tile.len() && dst_start + cols * 4 <= prev.len() {
            splice(prev, dst_start, tile.subrange(src_start, src_start + cols * 4))
        } else {
            prev
        }
    }
}

/// What a tile blit leaves in the framebuffer.
pub open spec fn blit_tile_spec(tile: Seq<u8>, fb: Seq<u8>, fb_w: int, fb_h: int, dst_x: int, dst_y: int) -> Seq<u8> {
    if dst_x >= fb_w || dst_y >= fb_h {
        fb
    } else {
        let cols = if 64 < fb_w - dst_x { 64 } else { fb_w - dst_x };
        let rows = if 64 < fb_h - dst_y { 64 } else { fb_h - dst_y };
        blit_rows(tile, fb, fb_w, dst_x, dst_y, cols, rows)
    }
}

/// Where tile row `r` lands in a `fb_w`-wide RGBA framebuffer when the tile
/// is blitted at (`dst_x`, `dst_y`).
pub open spec fn blit_row_start(fb_w: int, dst_x: int, dst_y: int, r: int) -> int {
    ((dst_y + r) * fb_w + dst_x) * 4
}

/// Byte `i` of the framebuffer lies under one of the first `rows` tile rows,
/// `cols` pixels wide.
pub open spec fn under_blit(i: int, fb_w: int, dst_x: int, dst_y: int, cols: int, rows: int) -> bool {
    exists|r: int|
        0 <= r < rows && blit_row_start(fb_w, dst_x, dst_y, r) <= i < #[trigger] blit_row_start(fb_w, dst_x, dst_y, r)
            + cols * 4
}

/// Tile row `r` (`cols` pixels of it) is copied: it lies inside both the
/// tile and the framebuffer.
pub open spec fn blit_row_copied(tile_len: int, fb_len: int, fb_w: int, dst_x: int, dst_y: int, cols: int, r: int) -> bool {
    r * 64 * 4 + cols * 4 <= tile_len && blit_row_start(fb_w, dst_x, dst_y, r) + cols * 4 <= fb_len
}

/// Rows of a tile further down land further on in the framebuffer, at least
/// a framebuffer row apart.
proof fn lemma_blit_rows_apart(fb_w: int, dst_x: int, dst_y: int, r1: int, r2: int)
    requires
        0 <= fb_w,
        r1 < r2,
    ensures
        blit_row_start(fb_w, dst_x, dst_y, r1) + fb_w * 4 <= blit_row_start(fb_w, dst_x, dst_y, r2),
{
    assert((dst_y + r1) * fb_w + fb_w <= (dst_y + r2) * fb_w) by (nonlinear_arith)
        requires
            0 <= fb_w,
            r1 < r2,
    ;
}

/// What the first `rows` rows of a blit leave: the framebuffer keeps its
/// length; a byte under no tile row is unchanged; under a copied tile row,
/// byte `c` of the row is byte `c` of that tile row.
pub proof fn lemma_blit_rows_bytes(
    tile: Seq<u8>,
    fb: Seq<u8>,
    fb_w: int,
    dst_x: int,
    dst_y: int,
    cols: int,
    rows: int,
)
    requires
        0 <= dst_x,
        0 <= dst_y,
        0 <= cols,
        dst_x + cols <= fb_w,
        0 <= rows,
    ensures
        ({
            let res = blit_rows(tile, fb, fb_w, dst_x, dst_y, cols, rows);
            &&& res.len() == fb.len()
            &&& forall|i: int|
                0 <= i < fb.len() && !under_blit(i, fb_w, dst_x, dst_y, cols, rows) ==> #[trigger] res[i] == fb[i]
            &&& forall|r: int, c: int|
                0 <= r < rows && 0 <= c < cols * 4 && blit_row_copied(
                    tile.len() as int,
                    fb.len() as int,
                    fb_w,
                    dst_x,
                    dst_y,
                    cols,
                    r,
                ) ==> #[trigger] res[blit_row_start(fb_w, dst_x, dst_y, r) + c] == tile[r * 64 * 4 + c]
        }),
    decreases rows,
{
    if rows > 0 {
        let prev = blit_rows(tile, fb, fb_w, dst_x, dst_y, cols, rows - 1);
        let res = blit_rows(tile, fb, fb_w, dst_x, dst_y, cols, rows);
        lemma_blit_rows_bytes(tile, fb, fb_w, dst_x, dst_y, cols, rows - 1);
        let last = rows - 1;
        let dst_start = blit_row_start(fb_w, dst_x, dst_y, last);
        let src_start = last * 64 * 4;
        assert(0 <= src_start) by (nonlinear_arith)
            requires
                last >= 0,
                src_start == last * 64 * 4,
        ;
        assert(0 <= dst_start) by (nonlinear_arith)
            requires
                last >= 0,
                dst_y >= 0,
                dst_x >= 0,
                fb_w >= 0,
                dst_start == ((dst_y + last) * fb_w + dst_x) * 4,
        ;
        let copied = src_start + cols * 4 <= tile.len() && dst_start + cols * 4 <= prev.len();
        assert forall|i: int|
            0 <= i < fb.len() && !under_blit(i, fb_w, dst_x, dst_y, cols, rows) implies #[trigger] res[i] == fb[i] by {
            if under_blit(i, fb_w, dst_x, dst_y, cols, rows - 1) {
                let r = choose|r: int|
                    0 <= r < rows - 1 && blit_row_start(fb_w, dst_x, dst_y, r) <= i < #[trigger] blit_row_start(
                        fb_w,
                        dst_x,
                        dst_y,
                        r,
                    ) + cols * 4;
                assert(0 <= r < rows && blit_row_start(fb_w, dst_x, dst_y, r) <= i < blit_row_start(
                    fb_w,
                    dst_x,
                    dst_y,
                    r,
                ) + cols * 4);
            }
            assert(!(dst_start <= i < dst_start + cols * 4));
            assert(prev[i] == fb[i]);
        }
        assert forall|r: int, c: int|
            0 <= r < rows && 0 <= c < cols * 4 && blit_row_copied(
                tile.len() as int,
                fb.len() as int,
                fb_w,
                dst_x,
                dst_y,
                cols,
                r,
            ) implies #[trigger] res[blit_row_start(fb_w, dst_x, dst_y, r) + c] == tile[r * 64 * 4 + c] by {
            let j = blit_row_start(fb_w, dst_x, dst_y, r) + c;
            if r == last {
                assert(copied);
                assert(res == splice(prev, dst_start, tile.subrange(src_start, src_start + cols * 4)));
            } else {
                lemma_blit_rows_apart(fb_w, dst_x, dst_y, r, last);
                assert(prev[j] == tile[r * 64 * 4 + c]);
                assert(0 <= blit_row_start(fb_w, dst_x, dst_y, r)) by (nonlinear_arith)
                    requires
                        r >= 0,
                        dst_y >= 0,
                        dst_x >= 0,
                        fb_w >= 0,
                ;
                assert(j < dst_start);
            }
        }
    }
}

/// Tile clipping: blitting a tile keeps the framebuffer's length, leaves
/// every byte outside the tile's clipped rows and columns as it was, and
/// puts byte `c` of tile row `r` at byte `c` of the tile's place in
/// framebuffer row `dst_y + r`, for the rows and columns inside the
/// `fb_w` x `fb_h` framebuffer (where tile and framebuffer hold them).
pub proof fn lemma_blit_tile_clipped(tile: Seq<u8>, fb: Seq<u8>, fb_w: int, fb_h: int, dst_x: int, dst_y: int)
    requires
        0 <= dst_x,
        0 <= dst_y,
        0 <= fb_w,
        0 <= fb_h,
    ensures
        ({
            let res = blit_tile_spec(tile, fb, fb_w, fb_h, dst_x, dst_y);
            let cols = if dst_x >= fb_w { 0 } else if 64 < fb_w - dst_x { 64 } else { fb_w - dst_x };
            let rows = if dst_y >= fb_h { 0 } else if 64 < fb_h - dst_y { 64 } else { fb_h - dst_y };
            &&& res.len() == fb.len()
            &&& forall|i: int|
                0 <= i < fb.len() && !under_blit(i, fb_w, dst_x, dst_y, cols, rows) ==> #[trigger] res[i] == fb[i]
            &&& dst_x < fb_w ==> forall|r: int, c: int|
                0 <= r < rows && 0 <= c < cols * 4 && blit_row_copied(
                    tile.len() as int,
                    fb.len() as int,
                    fb_w,
                    dst_x,
                    dst_y,
                    cols,
                    r,
                ) ==> #[trigger] res[blit_row_start(fb_w, dst_x, dst_y, r) + c] == tile[r * 64 * 4 + c]
        }),
{
    if dst_x < fb_w && dst_y < fb_h {
        let cols = if 64 < fb_w - dst_x { 64 } else { fb_w - dst_x };
        let rows = if 64 < fb_h - dst_y { 64 } else { fb_h - dst_y };
        lemma_blit_rows_bytes(tile, fb, fb_w, dst_x, dst_y, cols, rows);
    }
}

/// A framebuffer byte lies under a tile row only when its pixel lies
/// inside the clipped tile.
proof fn lemma_under_blit_pixel(fb_w: int, dst_x: int, dst_y: int, cols: int, rows: int, px: int, py: int, k: int)
    requires
        0 <= dst_x,
        0 <= dst_y,
        0 <= cols,
        dst_x + cols <= fb_w,
        0 <= px < fb_w,
        0 <= py,
        0 <= k < 4,
        under_blit((py * fb_w + px) * 4 + k, fb_w, dst_x, dst_y, cols, rows),
    ensures
        dst_x <= px < dst_x + cols,
        dst_y <= py < dst_y + rows,
{
    let i = (py * fb_w + px) * 4 + k;
    let r = choose|r: int|
        0 <= r < rows && blit_row_start(fb_w, dst_x, dst_y, r) <= i < #[trigger] blit_row_start(fb_w, dst_x, dst_y, r)
            + cols * 4;
    let yy = dst_y + r;
    assert(yy * fb_w + dst_x <= py * fb_w + px < yy * fb_w + dst_x + cols) by (nonlinear_arith)
        requires
            (yy * fb_w + dst_x) * 4 <= (py * fb_w + px) * 4 + k,
            (py * fb_w + px) * 4 + k < (yy * fb_w + dst_x) * 4 + cols * 4,
            0 <= k < 4,
    ;
    assert(py == yy) by (nonlinear_arith)
        requires
            yy * fb_w <= py * fb_w + px,
            py * fb_w + px < yy * fb_w + fb_w,
            0 <= px < fb_w,
    {
        if py < yy {
            assert(py * fb_w + fb_w <= yy * fb_w);
        } else if py > yy {
            assert(yy * fb_w + fb_w <= py * fb_w);
        }
    }
}

/// A tile blit pixel by pixel: into a whole `fb_w` x `fb_h` framebuffer,
/// byte `k` of pixel `(px, py)` becomes byte `k` of tile pixel
/// `(px - dst_x, py - dst_y)` when that pixel lies inside the 64x64 tile
/// placed at (`dst_x`, `dst_y`), and stays as it was otherwise; the parts
/// of the tile past the framebuffer's edges are dropped.
pub proof fn lemma_blit_tile_pixel(
    tile: Seq<u8>,
    fb: Seq<u8>,
    fb_w: int,
    fb_h: int,
    dst_x: int,
    dst_y: int,
    px: int,
    py: int,
    k: int,
)
    requires
        0 <= dst_x,
        0 <= dst_y,
        0 <= fb_w,
        0 <= fb_h,
        fb.len() == fb_w * fb_h * 4,
        tile.len() == 64 * 64 * 4,
        0 <= px < fb_w,
        0 <= py < fb_h,
        0 <= k < 4,
    ensures
        ({
            let res = blit_tile_spec(tile, fb, fb_w, fb_h, dst_x, dst_y);
            let i = (py * fb_w + px) * 4 + k;
            &&& res.len() == fb.len()
            &&& dst_x <= px < dst_x + 64 && dst_y <= py < dst_y + 64 ==> res[i] == tile[((py - dst_y) * 64 + px
                - dst_x) * 4 + k]
            &&& !(dst_x <= px < dst_x + 64 && dst_y <= py < dst_y + 64) ==> res[i] == fb[i]
        }),
{
    lemma_blit_tile_clipped(tile, fb, fb_w, fb_h, dst_x, dst_y);
    let cols = if dst_x >= fb_w { 0 } else if 64 < fb_w - dst_x { 64 } else { fb_w - dst_x };
    let rows = if dst_y >= fb_h { 0 } else if 64 < fb_h - dst_y { 64 } else { fb_h - dst_y };
    let i = (py * fb_w + px) * 4 + k;
    assert(0 <= i < fb.len()) by (nonlinear_arith)
        requires
            i == (py * fb_w + px) * 4 + k,
            0 <= px < fb_w,
            0 <= py < fb_h,
            0 <= k < 4,
            fb.len() == fb_w * fb_h * 4,
    ;
    if dst_x <= px < dst_x + 64 && dst_y <= py < dst_y + 64 {
        let r = py - dst_y;
        let c = (px - dst_x) * 4 + k;
        assert(r < rows && c < cols * 4);
        assert(blit_row_start(fb_w, dst_x, dst_y, r) + c == i) by (nonlinear_arith)
            requires
                r == py - dst_y,
                c == (px - dst_x) * 4 + k,
                i == (py * fb_w + px) * 4 + k,
        ;
        assert(r * 64 * 4 + cols * 4 <= tile.len()) by (nonlinear_arith)
            requires
                0 <= r < 64,
                cols <= 64,
                tile.len() == 64 * 64 * 4,
        ;
        assert(blit_row_start(fb_w, dst_x, dst_y, r) + cols * 4 <= fb.len()) by (nonlinear_arith)
            requires
                dst_y + r == py,
                py < fb_h,
                dst_x + cols <= fb_w,
                0 <= fb_w,
                fb.len() == fb_w * fb_h * 4,
        ;
        assert(blit_row_copied(tile.len() as int, fb.len() as int, fb_w, dst_x, dst_y, cols, r));
        assert(r * 64 * 4 + c == ((py - dst_y) * 64 + px - dst_x) * 4 + k) by (nonlinear_arith)
            requires
                r == py - dst_y,
                c == (px - dst_x) * 4 + k,
        ;
    } else {
        if under_blit(i, fb_w, dst_x, dst_y, cols, rows) {
            lemma_under_blit_pixel(fb_w, dst_x, dst_y, cols, rows, px, py, k);
        }
    }
}

/// Copies a 64x64 RGBA tile into a `fb_w` x `fb_h` framebuffer at
/// (`dst_x`, `dst_y`), clipped to the framebuffer.
pub fn blit_tile(tile: &[u8], fb: &mut Vec<u8>, fb_w: usize, fb_h: usize, dst_x: usize, dst_y: usize)
    requires
        fb_h * fb_w * 4 <= usize::MAX,
    ensures
        final(fb)@ == blit_tile_spec(tile@, old(fb)@, fb_w as int, fb_h as int, dst_x as int, dst_y as int),
{
    if dst_x >= fb_w || dst_y >= fb_h {
        return;
    }
    let cols = if TILE_SIZE < fb_w - dst_x { TILE_SIZE } else { fb_w - dst_x };
    let ghost fb0 = fb@;
    let mut row: usize = 0;
    while row < TILE_SIZE
        invariant
            dst_x < fb_w,
            dst_y < fb_h,
            fb_h * fb_w * 4 <= usize::MAX,
            cols == (if 64 < fb_w - dst_x { 64 } else { fb_w - dst_x }),
            row <= 64,
            dst_y + row <= fb_h,
            fb@ == blit_rows(tile@, fb0, fb_w as int, dst_x as int, dst_y as int, cols as int, row as int),
        ensures
            fb@ == blit_tile_spec(tile@, fb0, fb_w as int, fb_h as int, dst_x as int, dst_y as int),
        decreases 64 - row,
    {
        let y = dst_y + row;
        if y >= fb_h {
            break;
        }
        proof {
            assert((y * fb_w + dst_x + cols) * 4 <= fb_h * fb_w * 4)
                by (nonlinear_arith)
                requires
                    y < fb_h,
                    dst_x < fb_w,
                    cols <= fb_w - dst_x,
            ;
        }
        let src_start = row * TILE_SIZE * 4;
        let dst_start = (y * fb_w + dst_x) * 4;
        let src_end = src_start + cols * 4;
        let dst_end = dst_start + cols * 4;
        if src_end <= tile.len() && dst_end <= fb.len() {
            copy_range(fb, dst_start, tile, src_start, cols * 4);
        }
        row = row + 1;
    }
}

} // verus!
