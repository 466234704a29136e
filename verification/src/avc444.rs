//! AVC444 dual-stream YUV 4:4:4 reconstruction.
//!
//! AVC444 carries full-chroma video as two H.264 4:2:0 frames: the luma view
//! (real luma plus subsampled "main" chroma) and the chroma-auxiliary view,
//! whose planes pack the chroma samples that subsampling dropped. Every read
//! of a decoded plane is bounds-checked: a sample that is missing leaves the
//! destination pixel as it was.

use vstd::prelude::*;

use crate::yuv::{half_up, Yuv420Frame};

verus! {

/// A full-resolution planar YUV 4:4:4 frame; every plane is `width * height`
/// bytes, row-major.
#[derive(Clone, Debug)]
pub struct Yuv444Frame {
    pub y: Vec<u8>,
    pub u: Vec<u8>,
    pub v: Vec<u8>,
    pub width: u32,
    pub height: u32,
}

/// Which chroma packing the auxiliary view uses.
#[derive(Clone, Copy, Debug)]
pub enum ChromaVersion {
    /// AVC444 (codec `0x0E`).
    V1,
    /// AVC444v2 (codec `0x0F`).
    V2,
}

/// Number of pixels of a `width` x `height` frame.
pub open spec fn pixel_count(width: u32, height: u32) -> int {
    width as int * height as int
}

/// Every plane of `f` holds at least one byte per pixel.
pub open spec fn planes_cover(f: Yuv444Frame) -> bool {
    &&& f.y@.len() >= pixel_count(f.width, f.height)
    &&& f.u@.len() >= pixel_count(f.width, f.height)
    &&& f.v@.len() >= pixel_count(f.width, f.height)
}

/// `plane[i]` when `i` is inside the plane, else `fallback`.
pub open spec fn sample(plane: Seq<u8>, i: int, fallback: u8) -> u8 {
    if 0 <= i < plane.len() {
        plane[i]
    } else {
        fallback
    }
}

/// Row of pixel `p` in a frame `w` pixels wide.
pub open spec fn row(p: int, w: int) -> int {
    p / w
}

/// Column of pixel `p` in a frame `w` pixels wide.
pub open spec fn col(p: int, w: int) -> int {
    p % w
}

/// `plane` with every pixel `p` of the `w` x `h` frame replaced by `f(p)`.
pub open spec fn rewrite_pixels(plane: Seq<u8>, w: int, h: int, f: spec_fn(int) -> u8) -> Seq<u8> {
    Seq::new(plane.len(), |p: int| if p < w * h { f(p) } else { plane[p] })
}

/// The common tail of every plane pass: pixel `(r, c)` sits at `r * w + c`.
pub proof fn lemma_pixel_index(r: int, c: int, w: int, h: int)
    requires
        0 <= r < h,
        0 <= c < w,
    ensures
        row(r * w + c, w) == r,
        col(r * w + c, w) == c,
        0 <= r * w + c,
        r * w + c + 1 <= w * h,
        r * w + c + 1 <= (r + 1) * w,
        (r + 1) * w == r * w + w,
{
    vstd::arithmetic::div_mod::lemma_fundamental_div_mod_converse(r * w + c, w, r, c);
    assert(r * w + c + 1 <= (r + 1) * w && (r + 1) * w <= w * h && (r + 1) * w == r * w + w && 0 <= r
        * w) by (nonlinear_arith)
        requires
            0 <= r < h,
            0 <= c < w,
    ;
}

pub proof fn lemma_next_row(r: int, w: int)
    ensures
        (r + 1) * w == r * w + w,
{
    assert((r + 1) * w == r * w + w) by (nonlinear_arith);
}

pub proof fn lemma_row_bound(r: int, w: int, h: int)
    requires
        0 <= r <= h,
        0 <= w,
    ensures
        0 <= r * w <= w * h,
{
    assert(0 <= r * w <= w * h) by (nonlinear_arith)
        requires
            0 <= r <= h,
            0 <= w,
    ;
}

impl Yuv444Frame {
    /// A `width` x `height` frame with neutral content: luma 0, chroma 128.
    pub fn new(width: u32, height: u32) -> (r: Yuv444Frame)
        requires
            pixel_count(width, height) <= usize::MAX,
        ensures
            r.width == width,
            r.height == height,
            r.y@ == Seq::new(pixel_count(width, height) as nat, |i: int| 0u8),
            r.u@ == Seq::new(pixel_count(width, height) as nat, |i: int| 128u8),
            r.v@ == Seq::new(pixel_count(width, height) as nat, |i: int| 128u8),
    {
        let len = (width as usize) * (height as usize);
        let y = filled(len, 0);
        let u = filled(len, 128);
        let v = filled(len, 128);
        Yuv444Frame { y, u, v, width, height }
    }
}

/// A vector of `len` copies of `byte`.
pub fn filled(len: usize, byte: u8) -> (r: Vec<u8>)
    ensures
        r@ == Seq::new(len as nat, |i: int| byte),
{
    let mut out: Vec<u8> = Vec::new();
    for i in 0..len
        invariant
            out@ =~= Seq::new(i as nat, |k: int| byte),
    {
        out.push(byte);
    }
    out
}

// ---------------------------------------------------------------------------
// Plane passes
// ---------------------------------------------------------------------------

/// One plane of one reconstruction step: where each destination pixel of
/// that plane takes its value from in a decoded 4:2:0 view.
#[derive(Clone, Copy, Debug)]
pub enum PlanePass {
    /// Luma from the main view's luma.
    LumaY,
    /// U from the main view, spread over each 2x2 block.
    LumaU,
    /// V from the main view, spread over each 2x2 block.
    LumaV,
    /// U from a v1 auxiliary view.
    ChromaV1U,
    /// V from a v1 auxiliary view.
    ChromaV1V,
    /// U from a v2 auxiliary view.
    ChromaV2U,
    /// V from a v2 auxiliary view.
    ChromaV2V,
}

/// `Some(plane[i])` when `i` is inside the plane.
pub open spec fn opt_sample(plane: Seq<u8>, i: int) -> Option<u8> {
    if 0 <= i < plane.len() {
        Some(plane[i])
    } else {
        None
    }
}

/// The auxiliary luma row that a v1 view packs destination row `2k + 1`
/// into: rows come in 16-row bands whose first eight rows carry U and last
/// eight carry V (`band` is 0 for U, 8 for V).
pub open spec fn v1_source_row(k: int, band: int) -> int {
    16 * (k / 8) + band + k % 8
}

/// The value that `pass` gives destination pixel `(r, c)` of a `w` x `h`
/// frame from view `f`, or `None` when the pass leaves the pixel alone (it is
/// not one of the pass's positions, or the sample lies outside the plane).
pub open spec fn pass_sample(pass: PlanePass, f: Yuv420Frame, w: int, h: int, r: int, c: int) -> Option<u8> {
    let fw = f.width as int;
    let cw = half_up(fw);
    match pass {
        PlanePass::LumaY => opt_sample(f.y@, r * fw + c),
        PlanePass::LumaU => {
            let ci = (r / 2) * cw + c / 2;
            if ci < f.v@.len() {
                opt_sample(f.u@, ci)
            } else {
                None
            }
        },
        PlanePass::LumaV => {
            let ci = (r / 2) * cw + c / 2;
            if ci < f.u@.len() {
                opt_sample(f.v@, ci)
            } else {
                None
            }
        },
        PlanePass::ChromaV1U => if r % 2 == 1 {
            opt_sample(f.y@, v1_source_row(r / 2, 0) * fw + c)
        } else if r + 1 < h && c % 2 == 1 {
            opt_sample(f.u@, (r / 2) * cw + c / 2)
        } else {
            None
        },
        PlanePass::ChromaV1V => if r % 2 == 1 {
            opt_sample(f.y@, v1_source_row(r / 2, 8) * fw + c)
        } else if r + 1 < h && c % 2 == 1 {
            opt_sample(f.v@, (r / 2) * cw + c / 2)
        } else {
            None
        },
        PlanePass::ChromaV2U => if c % 2 == 1 {
            opt_sample(f.y@, r * fw + c / 2)
        } else if r % 2 == 1 {
            if c % 4 == 0 {
                opt_sample(f.u@, (r / 2) * cw + c / 4)
            } else {
                opt_sample(f.u@, (r / 2) * cw + fw / 4 + c / 4)
            }
        } else {
            None
        },
        PlanePass::ChromaV2V => if c % 2 == 1 {
            opt_sample(f.y@, r * fw + fw / 2 + c / 2)
        } else if r % 2 == 1 {
            if c % 4 == 0 {
                opt_sample(f.v@, (r / 2) * cw + c / 4)
            } else {
                opt_sample(f.v@, (r / 2) * cw + fw / 4 + c / 4)
            }
        } else {
            None
        },
    }
}

/// `plane` after `pass` has run over a `w` x `h` frame.
pub open spec fn apply_pass(plane: Seq<u8>, pass: PlanePass, f: Yuv420Frame, w: int, h: int) -> Seq<u8> {
    rewrite_pixels(
        plane,
        w,
        h,
        |p: int|
            match pass_sample(pass, f, w, h, row(p, w), col(p, w)) {
                Some(b) => b,
                None => plane[p],
            },
    )
}

/// What the auxiliary passes modify: a pass of either packing leaves the
/// plane's length, and every pixel at an even row and an even column, as
/// they were, whatever the auxiliary view holds.
pub proof fn lemma_aux_pass_keeps_even_samples(
    plane: Seq<u8>,
    version: ChromaVersion,
    f: Yuv420Frame,
    w: int,
    h: int,
    r: int,
    c: int,
)
    requires
        0 <= r < h,
        0 <= c < w,
        r % 2 == 0,
        c % 2 == 0,
    ensures
        apply_pass(plane, aux_passes(version).0, f, w, h).len() == plane.len(),
        apply_pass(plane, aux_passes(version).1, f, w, h).len() == plane.len(),
        0 <= r * w + c < plane.len() ==> apply_pass(plane, aux_passes(version).0, f, w, h)[r * w + c] == plane[r
            * w + c],
        0 <= r * w + c < plane.len() ==> apply_pass(plane, aux_passes(version).1, f, w, h)[r * w + c] == plane[r
            * w + c],
{
    lemma_pixel_index(r, c, w, h);
    assert(pass_sample(aux_passes(version).0, f, w, h, r, c) is None);
    assert(pass_sample(aux_passes(version).1, f, w, h, r, c) is None);
}

/// The luma pass, pixel by pixel: for a main view whose planes hold a whole
/// `main.width` x `main.height` frame and that covers the `w` x `h` target,
/// luma pixel `(r, c)` is the main view's luma at `(r, c)`, and chroma
/// pixel `(r, c)` is the main view's chroma sample at `(r / 2, c / 2)`.
pub proof fn lemma_luma_pass_pixels(y: Seq<u8>, u: Seq<u8>, v: Seq<u8>, main: Yuv420Frame, w: int, h: int, r: int, c: int)
    requires
        0 <= r < h,
        0 <= c < w,
        main.width >= w,
        main.height >= h,
        main.y@.len() == main.width * main.height,
        main.u@.len() == half_up(main.width as int) * half_up(main.height as int),
        main.v@.len() == half_up(main.width as int) * half_up(main.height as int),
        y.len() >= w * h,
        u.len() >= w * h,
        v.len() >= w * h,
    ensures
        ({
            let i = r * w + c;
            let cw = half_up(main.width as int);
            let ci = (r / 2) * cw + c / 2;
            &&& apply_pass(y, PlanePass::LumaY, main, w, h)[i] == main.y@[r * main.width + c]
            &&& apply_pass(u, PlanePass::LumaU, main, w, h)[i] == main.u@[ci]
            &&& apply_pass(v, PlanePass::LumaV, main, w, h)[i] == main.v@[ci]
        }),
{
    lemma_pixel_index(r, c, w, h);
    let mw = main.width as int;
    let mh = main.height as int;
    let cw = half_up(mw);
    let ch = half_up(mh);
    assert(0 <= r * mw + c < mw * mh) by (nonlinear_arith)
        requires
            0 <= r < h,
            h <= mh,
            0 <= c < w,
            w <= mw,
    ;
    assert(0 <= r / 2 < ch && 0 <= c / 2 < cw);
    assert(0 <= (r / 2) * cw + c / 2 < cw * ch) by (nonlinear_arith)
        requires
            0 <= r / 2 < ch,
            0 <= c / 2 < cw,
    ;
}

/// The luma plane of a reconstruction depends on the main view alone: the
/// auxiliary view and the packing do not change it.
pub proof fn lemma_reconstruction_luma_from_main(
    r1: Yuv444Frame,
    r2: Yuv444Frame,
    main: Yuv420Frame,
    aux1: Yuv420Frame,
    aux2: Yuv420Frame,
    version1: ChromaVersion,
    version2: ChromaVersion,
    w: u32,
    h: u32,
)
    requires
        is_reconstruction(r1, main, aux1, version1, w, h),
        is_reconstruction(r2, main, aux2, version2, w, h),
    ensures
        r1.y@ == r2.y@,
        r1.y@.len() == pixel_count(w, h),
{
}

/// Bounds under which no index into a `w` x `h` reconstruction from `f`
/// overflows.
pub open spec fn view_indices_fit(f: Yuv420Frame, w: int, h: int) -> bool {
    (h + 16) * (f.width as int) + f.width as int + w <= usize::MAX
}

proof fn lemma_index_bounds(fw: int, w: int, h: int, r: int, c: int)
    requires
        0 <= r < h,
        0 <= c < w,
        0 <= fw,
        (h + 16) * fw + fw + w <= usize::MAX,
    ensures
        r * fw + c <= usize::MAX,
        r * fw + fw / 2 + c / 2 <= usize::MAX,
        v1_source_row(r / 2, 8) * fw + c <= usize::MAX,
        v1_source_row(r / 2, 0) * fw + c <= usize::MAX,
        (r / 2) * half_up(fw) + c / 2 <= usize::MAX,
        (r / 2) * half_up(fw) + fw / 4 + c / 4 <= usize::MAX,
        0 <= v1_source_row(r / 2, 0),
{
    let k = r / 2;
    let s8 = v1_source_row(k, 8);
    assert(0 <= k % 8 < 8 && 8 * (k / 8) + k % 8 == k);
    assert(s8 <= r + 8);
    assert(r * fw + fw + c <= (h + 16) * fw + w) by (nonlinear_arith)
        requires
            0 <= r < h,
            0 <= c < w,
            0 <= fw,
    ;
    assert(s8 * fw + c <= (h + 16) * fw + w) by (nonlinear_arith)
        requires
            0 <= s8 <= r + 8,
            r < h,
            0 <= c < w,
            0 <= fw,
    ;
    assert(v1_source_row(k, 0) * fw <= s8 * fw) by (nonlinear_arith)
        requires
            0 <= v1_source_row(k, 0) <= s8,
            0 <= fw,
    ;
    assert(k * half_up(fw) <= r * fw) by (nonlinear_arith)
        requires
            0 <= k,
            2 * k <= r,
            0 <= half_up(fw) <= fw,
            0 <= fw,
    ;
}

/// The value `pass` gives pixel `(r, c)`, computed.
fn pass_pixel(pass: PlanePass, f: &Yuv420Frame, w: usize, h: usize, r: usize, c: usize) -> (o: Option<u8>)
    requires
        r < h,
        c < w,
        view_indices_fit(*f, w as int, h as int),
    ensures
        o == pass_sample(pass, *f, w as int, h as int, r as int, c as int),
{
    let fw = f.width as usize;
    let cw = Yuv420Frame::chroma_width(f.width) as usize;
    proof {
        lemma_index_bounds(fw as int, w as int, h as int, r as int, c as int);
    }
    match pass {
        PlanePass::LumaY => get_sample(&f.y, r * fw + c),
        PlanePass::LumaU => {
            let ci = (r / 2) * cw + c / 2;
            if ci < f.v.len() {
                get_sample(&f.u, ci)
            } else {
                None
            }
        },
        PlanePass::LumaV => {
            let ci = (r / 2) * cw + c / 2;
            if ci < f.u.len() {
                get_sample(&f.v, ci)
            } else {
                None
            }
        },
        PlanePass::ChromaV1U => if r % 2 == 1 {
            let k = r / 2;
            get_sample(&f.y, (16 * (k / 8) + k % 8) * fw + c)
        } else if r + 1 < h && c % 2 == 1 {
            get_sample(&f.u, (r / 2) * cw + c / 2)
        } else {
            None
        },
        PlanePass::ChromaV1V => if r % 2 == 1 {
            let k = r / 2;
            get_sample(&f.y, (16 * (k / 8) + 8 + k % 8) * fw + c)
        } else if r + 1 < h && c % 2 == 1 {
            get_sample(&f.v, (r / 2) * cw + c / 2)
        } else {
            None
        },
        PlanePass::ChromaV2U => if c % 2 == 1 {
            get_sample(&f.y, r * fw + c / 2)
        } else if r % 2 == 1 {
            if c % 4 == 0 {
                get_sample(&f.u, (r / 2) * cw + c / 4)
            } else {
                get_sample(&f.u, (r / 2) * cw + fw / 4 + c / 4)
            }
        } else {
            None
        },
        PlanePass::ChromaV2V => if c % 2 == 1 {
            get_sample(&f.y, r * fw + fw / 2 + c / 2)
        } else if r % 2 == 1 {
            if c % 4 == 0 {
                get_sample(&f.v, (r / 2) * cw + c / 4)
            } else {
                get_sample(&f.v, (r / 2) * cw + fw / 4 + c / 4)
            }
        } else {
            None
        },
    }
}

fn get_sample(plane: &Vec<u8>, i: usize) -> (o: Option<u8>)
    ensures
        o == opt_sample(plane@, i as int),
{
    if i < plane.len() {
        Some(plane[i])
    } else {
        None
    }
}

/// Runs `pass` over the `w` x `h` pixels of `plane`, row by row.
fn run_pass(plane: &mut Vec<u8>, pass: PlanePass, f: &Yuv420Frame, w: usize, h: usize)
    requires
        old(plane)@.len() >= w * h,
        view_indices_fit(*f, w as int, h as int),
    ensures
        final(plane)@ == apply_pass(old(plane)@, pass, *f, w as int, h as int),
{
    let ghost old_p = plane@;
    let ghost wi = w as int;
    let ghost hi = h as int;
    let plen = plane.len();
    let mut yy: usize = 0;
    while yy < h
        invariant
            wi == w,
            hi == h,
            view_indices_fit(*f, wi, hi),
            yy <= h,
            wi * hi <= old_p.len(),
            old_p.len() == plen,
            plane@.len() == old_p.len(),
            forall|p: int|
                0 <= p < old_p.len() ==> plane@[p] == if p < yy * wi {
                    match pass_sample(pass, *f, wi, hi, row(p, wi), col(p, wi)) {
                        Some(b) => b,
                        None => old_p[p],
                    }
                } else {
                    old_p[p]
                },
        decreases h - yy,
    {
        let mut xx: usize = 0;
        while xx < w
            invariant
                wi == w,
                hi == h,
                view_indices_fit(*f, wi, hi),
                yy < h,
                xx <= w,
                wi * hi <= old_p.len(),
                old_p.len() == plen,
                plane@.len() == old_p.len(),
                forall|p: int|
                    0 <= p < old_p.len() ==> plane@[p] == if p < yy * wi + xx {
                        match pass_sample(pass, *f, wi, hi, row(p, wi), col(p, wi)) {
                            Some(b) => b,
                            None => old_p[p],
                        }
                    } else {
                        old_p[p]
                    },
            decreases w - xx,
        {
            proof {
                lemma_pixel_index(yy as int, xx as int, wi, hi);
            }
            let q = yy * w + xx;
            proof {
                assert(plane@[q as int] == old_p[q as int]);
            }
            match pass_pixel(pass, f, w, h, yy, xx) {
                Some(b) => {
                    plane.set(q, b);
                },
                None => {},
            }
            proof {
                assert(row(q as int, wi) == yy && col(q as int, wi) == xx);
            }
            xx = xx + 1;
        }
        proof {
            lemma_next_row(yy as int, wi);
        }
        yy = yy + 1;
    }
    proof {
        lemma_row_bound(hi, wi, hi);
        assert(plane@ =~= apply_pass(old_p, pass, *f, wi, hi));
    }
}

// ---------------------------------------------------------------------------
// Reconstruction steps
// ---------------------------------------------------------------------------

/// Applies the luma (main) view: copies the full-resolution luma and spreads
/// each main chroma sample, when both chroma planes hold it, over its 2x2
/// block. The auxiliary pass overwrites the odd positions afterwards.
pub fn luma_to_yuv444(dst: &mut Yuv444Frame, main: &Yuv420Frame)
    requires
        planes_cover(*old(dst)),
        view_indices_fit(*main, old(dst).width as int, old(dst).height as int),
    ensures
        final(dst).width == old(dst).width,
        final(dst).height == old(dst).height,
        final(dst).y@ == apply_pass(
            old(dst).y@,
            PlanePass::LumaY,
            *main,
            old(dst).width as int,
            old(dst).height as int,
        ),
        final(dst).u@ == apply_pass(
            old(dst).u@,
            PlanePass::LumaU,
            *main,
            old(dst).width as int,
            old(dst).height as int,
        ),
        final(dst).v@ == apply_pass(
            old(dst).v@,
            PlanePass::LumaV,
            *main,
            old(dst).width as int,
            old(dst).height as int,
        ),
{
    let tw = dst.width as usize;
    let th = dst.height as usize;
    run_pass(&mut dst.y, PlanePass::LumaY, main, tw, th);
    run_pass(&mut dst.u, PlanePass::LumaU, main, tw, th);
    run_pass(&mut dst.v, PlanePass::LumaV, main, tw, th);
}

/// Applies a v1 chroma-auxiliary view: the auxiliary luma plane fills the odd
/// rows (16-row bands, first eight rows U, last eight V), and the auxiliary
/// chroma planes fill the odd columns of the even rows that have a row below.
pub fn chroma_v1_to_yuv444(dst: &mut Yuv444Frame, aux: &Yuv420Frame)
    requires
        planes_cover(*old(dst)),
        view_indices_fit(*aux, old(dst).width as int, old(dst).height as int),
    ensures
        final(dst).width == old(dst).width,
        final(dst).height == old(dst).height,
        final(dst).y@ == old(dst).y@,
        final(dst).u@ == apply_pass(
            old(dst).u@,
            PlanePass::ChromaV1U,
            *aux,
            old(dst).width as int,
            old(dst).height as int,
        ),
        final(dst).v@ == apply_pass(
            old(dst).v@,
            PlanePass::ChromaV1V,
            *aux,
            old(dst).width as int,
            old(dst).height as int,
        ),
{
    let tw = dst.width as usize;
    let th = dst.height as usize;
    run_pass(&mut dst.u, PlanePass::ChromaV1U, aux, tw, th);
    run_pass(&mut dst.v, PlanePass::ChromaV1V, aux, tw, th);
}

/// Applies a v2 chroma-auxiliary view: the left and right halves of the
/// auxiliary luma plane fill the odd columns of every row with U and V, and
/// the auxiliary chroma planes, at quarter-width interleave, fill the even
/// columns of the odd rows.
pub fn chroma_v2_to_yuv444(dst: &mut Yuv444Frame, aux: &Yuv420Frame)
    requires
        planes_cover(*old(dst)),
        view_indices_fit(*aux, old(dst).width as int, old(dst).height as int),
    ensures
        final(dst).width == old(dst).width,
        final(dst).height == old(dst).height,
        final(dst).y@ == old(dst).y@,
        final(dst).u@ == apply_pass(
            old(dst).u@,
            PlanePass::ChromaV2U,
            *aux,
            old(dst).width as int,
            old(dst).height as int,
        ),
        final(dst).v@ == apply_pass(
            old(dst).v@,
            PlanePass::ChromaV2V,
            *aux,
            old(dst).width as int,
            old(dst).height as int,
        ),
{
    let tw = dst.width as usize;
    let th = dst.height as usize;
    run_pass(&mut dst.u, PlanePass::ChromaV2U, aux, tw, th);
    run_pass(&mut dst.v, PlanePass::ChromaV2V, aux, tw, th);
}

/// The passes of an auxiliary view of the given packing, for U and for V.
pub open spec fn aux_passes(version: ChromaVersion) -> (PlanePass, PlanePass) {
    match version {
        ChromaVersion::V1 => (PlanePass::ChromaV1U, PlanePass::ChromaV1V),
        ChromaVersion::V2 => (PlanePass::ChromaV2U, PlanePass::ChromaV2V),
    }
}

/// `r` is the `w` x `h` YUV 4:4:4 frame reconstructed from the luma view
/// `main` and the chroma-auxiliary view `aux` of the given packing: a
/// neutral frame, the luma pass, then the auxiliary pass.
pub open spec fn is_reconstruction(
    r: Yuv444Frame,
    main: Yuv420Frame,
    aux: Yuv420Frame,
    version: ChromaVersion,
    w: u32,
    h: u32,
) -> bool {
    let n = pixel_count(w, h) as nat;
    &&& r.width == w
    &&& r.height == h
    &&& r.y@ == apply_pass(Seq::new(n, |i: int| 0u8), PlanePass::LumaY, main, w as int, h as int)
    &&& r.u@ == apply_pass(
        apply_pass(Seq::new(n, |i: int| 128u8), PlanePass::LumaU, main, w as int, h as int),
        aux_passes(version).0,
        aux,
        w as int,
        h as int,
    )
    &&& r.v@ == apply_pass(
        apply_pass(Seq::new(n, |i: int| 128u8), PlanePass::LumaV, main, w as int, h as int),
        aux_passes(version).1,
        aux,
        w as int,
        h as int,
    )
}

/// Reconstructs a `target_width` x `target_height` YUV 4:4:4 frame from a
/// luma view and its chroma-auxiliary view: a neutral frame, the luma pass,
/// then the auxiliary pass of the given packing.
pub fn reconstruct_yuv444(
    main: &Yuv420Frame,
    aux: &Yuv420Frame,
    version: ChromaVersion,
    target_width: u32,
    target_height: u32,
) -> (r: Yuv444Frame)
    requires
        pixel_count(target_width, target_height) <= usize::MAX,
        view_indices_fit(*main, target_width as int, target_height as int),
        view_indices_fit(*aux, target_width as int, target_height as int),
    ensures
        is_reconstruction(r, *main, *aux, version, target_width, target_height),
{
    let mut dst = Yuv444Frame::new(target_width, target_height);
    luma_to_yuv444(&mut dst, main);
    match version {
        ChromaVersion::V1 => chroma_v1_to_yuv444(&mut dst, aux),
        ChromaVersion::V2 => chroma_v2_to_yuv444(&mut dst, aux),
    }
    dst
}

} // verus!
