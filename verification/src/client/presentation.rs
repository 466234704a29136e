//! Converting an RGBA frame into the packed `0RGB` words of a software
//! drawing surface.

use vstd::prelude::*;

use crate::text::{append_decimal, dec_digits};

verus! {

/// The surface word of a pixel: red, green and blue in bits 16..24, 8..16
/// and 0..8.
pub open spec fn rgb_word(r: u8, g: u8, b: u8) -> u32 {
    (r * 65536 + g * 256 + b) as u32
}

/// Packs a pixel into a surface word.
pub fn pack_softbuffer_rgb(r: u8, g: u8, b: u8) -> (w: u32)
    ensures
        w == rgb_word(r, g, b),
{
    let w = ((r as u32) << 16) | ((g as u32) << 8) | (b as u32);
    assert(((r as u32) << 16) | ((g as u32) << 8) | (b as u32) == (r * 65536 + g * 256 + b) as u32)
        by (bit_vector);
    w
}

/// Why a frame could not be written to the surface.
#[derive(Debug, Clone, Copy, PartialEq, Eq, Structural)]
pub enum SurfaceWriteError {
    /// The frame's length is not a multiple of four bytes.
    UnalignedLength,
    /// `width * height` is not the number of pixels in the frame.
    DimensionMismatch { width: u16, height: u16, frame_pixels: usize },
    /// The surface does not hold one word per pixel.
    SurfaceMismatch { surface_pixels: usize, frame_pixels: usize },
}

/// The message of an error, as the client logs it.
pub open spec fn surface_error_text(e: SurfaceWriteError) -> Seq<char> {
    match e {
        SurfaceWriteError::UnalignedLength => "decoded image length is not divisible by four"@,
        SurfaceWriteError::DimensionMismatch { width, height, frame_pixels } => "frame dimensions and pixel payload diverged: width="@
            + dec_digits(width as nat) + ", height="@ + dec_digits(height as nat) + ", frame_pixels="@
            + dec_digits(frame_pixels as nat),
        SurfaceWriteError::SurfaceMismatch { surface_pixels, frame_pixels } => "surface and framebuffer sizes diverged: surface_pixels="@
            + dec_digits(surface_pixels as nat) + ", frame_pixels="@ + dec_digits(frame_pixels as nat),
    }
}

impl SurfaceWriteError {
    /// The error's message.
    pub fn message(&self) -> (r: String)
        ensures
            r@ == surface_error_text(*self),
    {
        match self {
            SurfaceWriteError::UnalignedLength => String::from_str("decoded image length is not divisible by four"),
            SurfaceWriteError::DimensionMismatch { width, height, frame_pixels } => {
                let mut s = String::from_str("frame dimensions and pixel payload diverged: width=");
                append_decimal(&mut s, *width as u64);
                s.append(", height=");
                append_decimal(&mut s, *height as u64);
                s.append(", frame_pixels=");
                append_decimal(&mut s, *frame_pixels as u64);
                s
            },
            SurfaceWriteError::SurfaceMismatch { surface_pixels, frame_pixels } => {
                let mut s = String::from_str("surface and framebuffer sizes diverged: surface_pixels=");
                append_decimal(&mut s, *surface_pixels as u64);
                s.append(", frame_pixels=");
                append_decimal(&mut s, *frame_pixels as u64);
                s
            },
        }
    }
}

/// The outcome of writing `rgba` (`width` by `height`) to a surface of
/// `surface_len` words: the first check that fails, or success.
pub open spec fn surface_write_check(rgba_len: int, width: u16, height: u16, surface_len: int) -> Option<
    SurfaceWriteError,
> {
    if rgba_len % 4 != 0 {
        Some(SurfaceWriteError::UnalignedLength)
    } else if width * height != rgba_len / 4 {
        Some(SurfaceWriteError::DimensionMismatch { width, height, frame_pixels: (rgba_len / 4) as usize })
    } else if surface_len != rgba_len / 4 {
        Some(
            SurfaceWriteError::SurfaceMismatch {
                surface_pixels: surface_len as usize,
                frame_pixels: (rgba_len / 4) as usize,
            },
        )
    } else {
        None
    }
}

/// Converts an RGBA frame into surface words, one per pixel, alpha dropped.
/// Refuses a frame whose length is not a multiple of four, whose pixel count
/// is not `width * height`, or that does not fill the surface exactly; the
/// surface is then left as it was.
pub fn write_rgba_to_surface_words(rgba: &[u8], width: u16, height: u16, dst: &mut [u32]) -> (r: Result<
    (),
    SurfaceWriteError,
>)
    ensures
        match surface_write_check(rgba@.len() as int, width, height, old(dst)@.len() as int) {
            Some(e) => r == Err::<(), SurfaceWriteError>(e) && final(dst)@ == old(dst)@,
            None => r is Ok && final(dst)@.len() == old(dst)@.len() && forall|i: int|
                0 <= i < final(dst)@.len() ==> #[trigger] final(dst)@[i] == rgb_word(
                    rgba@[4 * i],
                    rgba@[4 * i + 1],
                    rgba@[4 * i + 2],
                ),
        },
{
    if rgba.len() % 4 != 0 {
        return Err(SurfaceWriteError::UnalignedLength);
    }
    let n = rgba.len();
    let pixels = n / 4;
    assert((width as u64) * (height as u64) <= 0xFFFF_FFFF) by (nonlinear_arith)
        requires
            width <= 0xFFFF,
            height <= 0xFFFF,
    ;
    let expected_pixels = (width as u64) * (height as u64);
    if expected_pixels != pixels as u64 {
        return Err(SurfaceWriteError::DimensionMismatch { width, height, frame_pixels: pixels });
    }
    if dst.len() != pixels {
        return Err(SurfaceWriteError::SurfaceMismatch { surface_pixels: dst.len(), frame_pixels: pixels });
    }
    for i in 0..pixels
        invariant
            pixels == dst@.len(),
            4 * pixels == n,
            n == rgba@.len(),
            dst@.len() == old(dst)@.len(),
            forall|k: int| 0 <= k < i ==> #[trigger] dst@[k] == rgb_word(rgba@[4 * k], rgba@[4 * k + 1], rgba@[4 * k + 2]),
    {
        let w = pack_softbuffer_rgb(rgba[4 * i], rgba[4 * i + 1], rgba[4 * i + 2]);
        dst[i] = w;
    }
    Ok(())
}

} // verus!
