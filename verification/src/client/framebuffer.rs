//! The window's persistent framebuffer: whole frames replace it, dirty
//! regions are blitted into it; and the keyboard operations that typed text
//! turns into.

use vstd::prelude::*;

use crate::frame::{copy_range, splice};

verus! {

/// The frame the window presents next, and whether it was presented yet.
pub struct FrameBufferState {
    /// RGBA pixels, row-major.
    pub buffer: Vec<u8>,
    /// Width and height of `buffer` in pixels.
    pub buffer_size: (u16, u16),
    /// A frame is waiting to be presented.
    pub frame_pending_present: bool,
}

/// `n` bytes of opaque black RGBA pixels: every fourth byte is 255.
pub open spec fn opaque_black(n: int) -> Seq<u8> {
    Seq::new(n as nat, |i: int| if i % 4 == 3 { 255u8 } else { 0u8 })
}

/// The framebuffer after rows `0..rows` of a region blit: row `r` copies
/// `cols` pixels of region row `r` (rows `region_w` pixels apart) to
/// framebuffer row `y + r` from column `x`, when both ranges lie inside
/// their buffers.
pub open spec fn region_blit_rows(
    region: Seq<u8>,
    region_w: int,
    fb: Seq<u8>,
    fb_w: int,
    x: int,
    y: int,
    cols: int,
    rows: int,
) -> Seq<u8>
    decreases rows,
{
    if rows <= 0 {
        fb
    } else {
        let prev = region_blit_rows(region, region_w, fb, fb_w, x, y, cols, rows - 1);
        let r = rows - 1;
        let src_start = r * region_w * 4;
        let dst_start = ((y + r) * fb_w + x) * 4;
        if src_start + cols * 4 <= region.len() && dst_start + cols * 4 <= prev.len() {
            splice(prev, dst_start, region.subrange(src_start, src_start + cols * 4))
        } else {
            prev
        }
    }
}

/// The framebuffer a region blit starts from: kept when it already has the
/// surface's size, replaced by opaque black otherwise.
pub open spec fn blit_base(buffer: Seq<u8>, buffer_size: (u16, u16), surface_w: u16, surface_h: u16) -> Seq<u8> {
    let needed = surface_w * surface_h * 4;
    if buffer.len() != needed || buffer_size != (surface_w, surface_h) {
        opaque_black(needed)
    } else {
        buffer
    }
}

/// `n` bytes of opaque black.
pub(crate) fn opaque_black_buffer(n: usize) -> (r: Vec<u8>)
    ensures
        r@ == opaque_black(n as int),
{
    let mut out: Vec<u8> = Vec::new();
    for i in 0..n
        invariant
            out@ == opaque_black(i as int),
    {
        out.push(if i % 4 == 3 { 255 } else { 0 });
        assert(out@ =~= opaque_black(i + 1));
    }
    out
}

impl FrameBufferState {
    /// An empty framebuffer with nothing to present.
    pub fn new() -> (r: FrameBufferState)
        ensures
            r.buffer@.len() == 0,
            r.buffer_size == (0u16, 0u16),
            !r.frame_pending_present,
    {
        FrameBufferState { buffer: Vec::new(), buffer_size: (0, 0), frame_pending_present: false }
    }

    /// Queues a whole `width` x `height` frame for presentation. The frame
    /// it replaces, if there was one, is handed back for reuse together
    /// with whether it was still waiting to be presented (and so is
    /// dropped unseen).
    pub fn queue_image_buffer(&mut self, buffer: Vec<u8>, width: u16, height: u16) -> (r: Option<(Vec<u8>, bool)>)
        ensures
            final(self).buffer@ == buffer@,
            final(self).buffer_size == (width, height),
            final(self).frame_pending_present,
            old(self).buffer@.len() == 0 ==> r is None,
            old(self).buffer@.len() != 0 ==> (r matches Some((old_buf, overwritten)) && old_buf@ == old(
                self,
            ).buffer@ && overwritten == old(self).frame_pending_present),
    {
        let recycled = if self.buffer.len() == 0 {
            self.buffer = buffer;
            None
        } else {
            let mut previous = buffer;
            std::mem::swap(&mut self.buffer, &mut previous);
            Some((previous, self.frame_pending_present))
        };
        self.buffer_size = (width, height);
        self.frame_pending_present = true;
        recycled
    }

    /// The frame was presented: nothing waits any more. Returns whether a
    /// frame was waiting, in which case the session is told so that it may
    /// send the next one.
    pub fn mark_presented(&mut self) -> (r: bool)
        ensures
            r == old(self).frame_pending_present,
            !final(self).frame_pending_present,
            final(self).buffer@ == old(self).buffer@,
            final(self).buffer_size == old(self).buffer_size,
    {
        let was_pending = self.frame_pending_present;
        self.frame_pending_present = false;
        was_pending
    }

    /// Blits a tightly packed `w` x `h` RGBA region at (`x`, `y`) into the
    /// surface-sized framebuffer, which is first made opaque black when its
    /// size does not match the surface. The region is clipped to the
    /// surface. A zero-sized surface changes nothing; a region that starts
    /// outside the surface changes nothing but the reallocation.
    pub fn blit_image_region(&mut self, region: &[u8], x: u16, y: u16, w: u16, h: u16, surface_w: u16, surface_h: u16)
        requires
            surface_w * surface_h * 4 <= usize::MAX,
            w * h * 4 <= usize::MAX,
        ensures
            ({
                let needed = surface_w * surface_h * 4;
                let base = blit_base(old(self).buffer@, old(self).buffer_size, surface_w, surface_h);
                let resized = old(self).buffer@.len() != needed || old(self).buffer_size != (surface_w, surface_h);
                let cols = if w < surface_w - x { w as int } else { surface_w - x };
                let rows = if h < surface_h - y { h as int } else { surface_h - y };
                if needed == 0 {
                    &&& final(self).buffer@ == old(self).buffer@
                    &&& final(self).buffer_size == old(self).buffer_size
                    &&& final(self).frame_pending_present == old(self).frame_pending_present
                } else if x >= surface_w || y >= surface_h {
                    &&& final(self).buffer@ == base
                    &&& final(self).buffer_size == (if resized {
                        (surface_w, surface_h)
                    } else {
                        old(self).buffer_size
                    })
                    &&& final(self).frame_pending_present == old(self).frame_pending_present
                } else {
                    &&& final(self).buffer@ == region_blit_rows(
                        region@,
                        w as int,
                        base,
                        surface_w as int,
                        x as int,
                        y as int,
                        cols,
                        rows,
                    )
                    &&& final(self).buffer_size == (surface_w, surface_h)
                    &&& final(self).frame_pending_present
                }
            }),
    {
        let sw = surface_w as usize;
        let sh = surface_h as usize;
        let needed = sw * sh * 4;
        if needed == 0 {
            return;
        }
        if self.buffer.len() != needed || self.buffer_size.0 != surface_w || self.buffer_size.1 != surface_h {
            self.buffer = opaque_black_buffer(needed);
            self.buffer_size = (surface_w, surface_h);
        }
        let x = x as usize;
        let y = y as usize;
        if x >= sw || y >= sh {
            return;
        }
        let region_w = w as usize;
        let region_h = h as usize;
        let copy_w = if region_w < sw - x { region_w } else { sw - x };
        let copy_h = if region_h < sh - y { region_h } else { sh - y };
        let ghost base = self.buffer@;
        assert(base == blit_base(old(self).buffer@, old(self).buffer_size, surface_w, surface_h));
        assert(self.buffer_size == (surface_w, surface_h));
        let mut row: usize = 0;
        while row < copy_h
            invariant
                row <= copy_h,
                copy_h <= region_h,
                copy_w <= region_w,
                x + copy_w <= sw,
                y + copy_h <= sh,
                region_w * region_h * 4 <= usize::MAX,
                sw * sh * 4 <= usize::MAX,
                base.len() == sw * sh * 4,
                self.buffer_size == (surface_w, surface_h),
                self.buffer@ == region_blit_rows(
                    region@,
                    region_w as int,
                    base,
                    sw as int,
                    x as int,
                    y as int,
                    copy_w as int,
                    row as int,
                ),
            decreases copy_h - row,
        {
            assert(row * region_w * 4 + copy_w * 4 <= region_w * region_h * 4) by (nonlinear_arith)
                requires
                    row < region_h,
                    copy_w <= region_w,
            ;
            assert(((y + row) * sw + x) * 4 + copy_w * 4 <= sw * sh * 4) by (nonlinear_arith)
                requires
                    y + row < sh,
                    x + copy_w <= sw,
            ;
            let src_start = row * region_w * 4;
            let src_end = src_start + copy_w * 4;
            let dst_start = ((y + row) * sw + x) * 4;
            let dst_end = dst_start + copy_w * 4;
            if src_end <= region.len() && dst_end <= self.buffer.len() {
                copy_range(&mut self.buffer, dst_start, region, src_start, copy_w * 4);
            }
            row = row + 1;
        }
        self.frame_pending_present = true;
    }
}

/// A keyboard operation that types a character.
#[derive(Debug, Clone, Copy, PartialEq, Eq, Structural)]
pub enum Operation {
    UnicodeKeyPressed(char),
    UnicodeKeyReleased(char),
}

/// A control character (Unicode general category Cc): U+0000 to U+001F and
/// U+007F to U+009F, as `char::is_control` tells.
pub open spec fn is_control_char(c: char) -> bool {
    c <= '\u{1f}' || ('\u{7f}' <= c && c <= '\u{9f}')
}

pub fn is_control(c: char) -> (r: bool)
    ensures
        r == is_control_char(c),
{
    c <= '\u{1f}' || ('\u{7f}' <= c && c <= '\u{9f}')
}

/// The operations that type `text`: a press and a release for each
/// character that is not a control character, in order.
pub open spec fn text_operations(text: Seq<char>) -> Seq<Operation>
    decreases text.len(),
{
    if text.len() == 0 {
        Seq::empty()
    } else {
        let c = text.last();
        let prev = text_operations(text.drop_last());
        if is_control_char(c) {
            prev
        } else {
            prev.push(Operation::UnicodeKeyPressed(c)).push(Operation::UnicodeKeyReleased(c))
        }
    }
}

/// The keyboard operations that type `text`, control characters left out.
pub fn unicode_text_operations(text: &str) -> (r: Vec<Operation>)
    ensures
        r@ == text_operations(text@),
{
    let chars = crate::text::str_chars(text);
    let mut ops: Vec<Operation> = Vec::new();
    for i in 0..chars.len()
        invariant
            chars@ == text@,
            ops@ == text_operations(chars@.subrange(0, i as int)),
    {
        let c = chars[i];
        assert(chars@.subrange(0, i + 1).drop_last() =~= chars@.subrange(0, i as int));
        if !is_control(c) {
            ops.push(Operation::UnicodeKeyPressed(c));
            ops.push(Operation::UnicodeKeyReleased(c));
        }
    }
    assert(chars@.subrange(0, chars@.len() as int) =~= chars@);
    ops
}

} // verus!
