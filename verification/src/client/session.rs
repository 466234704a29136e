//! Decisions of the client's session loop: accumulating the region of the
//! frame that changed, pacing frames against the presenter, copying a
//! decoded frame into the shared buffer, and limiting reconnects after a
//! resize that did not change the desktop size.

use vstd::prelude::*;

use crate::avc::InclusiveRectangle;
use crate::bytes::push_slice;
use crate::frame::copy_range;

verus! {

/// The smaller of two values.
pub open spec fn min_u16(a: u16, b: u16) -> u16 {
    if a <= b {
        a
    } else {
        b
    }
}

/// The larger of two values.
pub open spec fn max_u16(a: u16, b: u16) -> u16 {
    if a >= b {
        a
    } else {
        b
    }
}

/// The bounding box of two rectangles.
pub open spec fn bounding_box(a: InclusiveRectangle, b: InclusiveRectangle) -> InclusiveRectangle {
    InclusiveRectangle {
        left: min_u16(a.left, b.left),
        top: min_u16(a.top, b.top),
        right: max_u16(a.right, b.right),
        bottom: max_u16(a.bottom, b.bottom),
    }
}

/// Grows `accumulated` to the bounding box of itself and `new_rect`; starts
/// it at `new_rect` when there is none.
pub fn union_dirty_region(accumulated: &mut Option<InclusiveRectangle>, new_rect: InclusiveRectangle)
    ensures
        match *old(accumulated) {
            None => *final(accumulated) == Some(new_rect),
            Some(existing) => *final(accumulated) == Some(bounding_box(existing, new_rect)),
        },
{
    match accumulated {
        None => {
            *accumulated = Some(new_rect);
        },
        Some(existing) => {
            existing.left = if existing.left <= new_rect.left { existing.left } else { new_rect.left };
            existing.top = if existing.top <= new_rect.top { existing.top } else { new_rect.top };
            existing.right = if existing.right >= new_rect.right { existing.right } else { new_rect.right };
            existing.bottom = if existing.bottom >= new_rect.bottom { existing.bottom } else { new_rect.bottom };
        },
    }
}

/// Whether the latest image may be sent to the presenter at once: only when
/// no frame is in flight.
pub open spec fn emit_now(frame_in_flight: bool) -> bool {
    !frame_in_flight
}

/// The dirty mark after an image arrived: set when a frame is in flight.
pub open spec fn dirty_after_arrival(frame_in_flight: bool, latest_frame_dirty: bool) -> bool {
    frame_in_flight || latest_frame_dirty
}

/// Whether an acknowledgement must be followed by sending the latest image:
/// when a frame was in flight and the latest one became dirty meanwhile.
pub open spec fn emit_after_ack(frame_in_flight: bool, latest_frame_dirty: bool) -> bool {
    frame_in_flight && latest_frame_dirty
}

/// Whether the latest image may be sent to the presenter now: not while a
/// frame is in flight, in which case the latest frame is marked dirty so
/// that it is sent once the presenter acknowledges.
pub fn should_emit_latest_image(frame_in_flight: bool, latest_frame_dirty: &mut bool) -> (r: bool)
    ensures
        r == emit_now(frame_in_flight),
        *final(latest_frame_dirty) == dirty_after_arrival(frame_in_flight, *old(latest_frame_dirty)),
{
    if frame_in_flight {
        *latest_frame_dirty = true;
        return false;
    }
    true
}

/// The presenter acknowledged a frame: nothing is in flight or dirty any
/// more; returns whether a frame that became dirty meanwhile must be sent.
pub fn finish_frame_present(frame_in_flight: &mut bool, latest_frame_dirty: &mut bool) -> (r: bool)
    ensures
        r == emit_after_ack(*old(frame_in_flight), *old(latest_frame_dirty)),
        !*final(frame_in_flight),
        !*final(latest_frame_dirty),
{
    let should_emit = *frame_in_flight && *latest_frame_dirty;
    *frame_in_flight = false;
    *latest_frame_dirty = false;
    should_emit
}

/// An image that arrives while a frame is in flight is held back, and sent
/// right after the acknowledgement; after an acknowledgement nothing is
/// pending, so a second one sends nothing.
pub proof fn lemma_held_frame_sent_after_ack(latest_frame_dirty: bool)
    ensures
        !emit_now(true),
        emit_after_ack(true, dirty_after_arrival(true, latest_frame_dirty)),
        !emit_after_ack(false, false),
{
}

/// Why a frame could not be copied.
#[derive(Debug, Clone, Copy, PartialEq, Eq, Structural)]
pub enum FrameCopyError {
    /// The decoded image's length is not a multiple of four bytes.
    UnalignedLength,
}

impl FrameCopyError {
    pub fn message(&self) -> (r: &'static str)
        ensures
            r@ == "decoded image length is not divisible by four"@,
    {
        "decoded image length is not divisible by four"
    }
}

/// The byte range that a partial copy rewrites: the rows from the dirty
/// rectangle's top to its bottom (clamped to the last row of the image),
/// when the buffer already holds a frame of the same size and the range is
/// not empty; `None` means a full copy.
pub open spec fn partial_copy_range(len: int, buf_len: int, width: u16, dirty: Option<InclusiveRectangle>) -> Option<
    (int, int),
> {
    match dirty {
        None => None,
        Some(rect) => {
            let stride = width * 4;
            let row_count = if stride > 0 {
                len / stride
            } else {
                len
            };
            let last_row = if row_count > 0 {
                row_count - 1
            } else {
                0
            };
            let bottom = if rect.bottom <= last_row {
                rect.bottom as int
            } else {
                last_row
            };
            if buf_len == len && rect.top <= bottom && stride > 0 {
                Some((rect.top * stride, (bottom + 1) * stride))
            } else {
                None
            }
        },
    }
}

/// The inputs on which the copy would index past the end of the image: a
/// dirty row range over an image shorter than one row.
pub open spec fn copy_frame_overruns(len: int, buf_len: int, width: u16, dirty: Option<InclusiveRectangle>) -> bool {
    match partial_copy_range(len, buf_len, width, dirty) {
        Some((start, end)) => end > len,
        None => false,
    }
}

/// Copies a decoded RGBA frame into `buffer`. When the buffer already holds
/// a frame of the same size and a dirty rectangle is given, only the rows it
/// spans are copied and `Ok(true)` is returned; otherwise the buffer is
/// replaced by the whole frame and `Ok(false)` is returned. A frame whose
/// length is not a multiple of four is refused and the buffer kept.
pub fn copy_rgba_frame(
    image_data: &[u8],
    buffer: &mut Vec<u8>,
    width: u16,
    dirty: Option<&InclusiveRectangle>,
) -> (r: Result<bool, FrameCopyError>)
    requires
        !copy_frame_overruns(
            image_data@.len() as int,
            old(buffer)@.len() as int,
            width,
            match dirty {
                Some(d) => Some(*d),
                None => None,
            },
        ),
    ensures
        ({
            let len = image_data@.len() as int;
            let d = match dirty {
                Some(d) => Some(*d),
                None => None,
            };
            if len % 4 != 0 {
                r == Err::<bool, FrameCopyError>(FrameCopyError::UnalignedLength) && final(buffer)@ == old(buffer)@
            } else {
                match partial_copy_range(len, old(buffer)@.len() as int, width, d) {
                    Some((start, end)) => r == Ok::<bool, FrameCopyError>(true) && final(buffer)@ == old(
                        buffer,
                    )@.subrange(0, start) + image_data@.subrange(start, end) + old(buffer)@.subrange(end, len),
                    None => r == Ok::<bool, FrameCopyError>(false) && final(buffer)@ == image_data@,
                }
            }
        }),
{
    let len = image_data.len();
    if len % 4 != 0 {
        return Err(FrameCopyError::UnalignedLength);
    }
    if let Some(rect) = dirty {
        if buffer.len() == len {
            let stride = (width as usize) * 4;
            let row_count = if stride > 0 { len / stride } else { len };
            let last_row = if row_count > 0 { row_count - 1 } else { 0 };
            let top = rect.top as usize;
            let bottom = if (rect.bottom as usize) <= last_row { rect.bottom as usize } else { last_row };
            if top <= bottom && stride > 0 {
                assert((bottom + 1) * stride <= len) by (nonlinear_arith)
                    requires
                        stride > 0,
                        row_count == len / stride,
                        bottom + 1 <= row_count || (row_count == 0 && (bottom + 1) * stride <= len),
                ;
                assert(top * stride <= (bottom + 1) * stride) by (nonlinear_arith)
                    requires
                        top <= bottom,
                ;
                let src_start = top * stride;
                let src_end = (bottom + 1) * stride;
                copy_range(buffer, src_start, image_data, src_start, src_end - src_start);
                assert(final(buffer)@ =~= old(buffer)@.subrange(0, src_start as int) + image_data@.subrange(
                    src_start as int,
                    src_end as int,
                ) + old(buffer)@.subrange(src_end as int, len as int));
                return Ok(true);
            }
        }
    }
    buffer.clear();
    push_slice(buffer, image_data);
    Ok(false)
}

/// How many reconnects in a row may keep the same desktop size.
pub const MAX_SAME_SIZE_RECONNECTS: u8 = 3;

/// Why a resize reconnect was refused.
#[derive(Debug, Clone, Copy, PartialEq, Eq, Structural)]
pub enum ResizeReconnectError {
    /// More reconnects than allowed kept the same desktop size.
    TooManySameSizeReconnects,
}

impl ResizeReconnectError {
    pub fn message(&self) -> (r: &'static str)
        ensures
            r@ == "too many resize reconnects without a desktop size change"@,
    {
        "too many resize reconnects without a desktop size change"
    }
}

/// The count of same-size reconnects after a reconnect from the current
/// size to the next: reset to 0 when the size changes, one more otherwise
/// (saturating), refused once it would exceed the limit.
pub fn update_resize_reconnect_state(
    current_width: u16,
    current_height: u16,
    next_width: u16,
    next_height: u16,
    same_size_reconnects: u8,
) -> (r: Result<u8, ResizeReconnectError>)
    ensures
        (current_width != next_width || current_height != next_height) ==> r == Ok::<u8, ResizeReconnectError>(0),
        (current_width == next_width && current_height == next_height && same_size_reconnects < 3) ==> r == Ok::<
            u8,
            ResizeReconnectError,
        >((same_size_reconnects + 1) as u8),
        (current_width == next_width && current_height == next_height && same_size_reconnects >= 3) ==> r == Err::<
            u8,
            ResizeReconnectError,
        >(ResizeReconnectError::TooManySameSizeReconnects),
{
    if current_width == next_width && current_height == next_height {
        let next = if same_size_reconnects < 255 { same_size_reconnects + 1 } else { 255 };
        if next > MAX_SAME_SIZE_RECONNECTS {
            return Err(ResizeReconnectError::TooManySameSizeReconnects);
        }
        return Ok(next);
    }
    Ok(0)
}

/// How a session ended.
pub enum SessionEnd<R, E> {
    /// The desktop must be resized by reconnecting with this size.
    ReconnectWithNewSize { width: u16, height: u16 },
    /// The server or the user closed the session.
    TerminatedGracefully(R),
    /// The session failed.
    Failed(E),
}

/// Why the client stops.
pub enum ClientStop<R, E> {
    Graceful(R),
    Failed(E),
    /// Too many reconnects kept the desktop size.
    TooManyResizeReconnects(ResizeReconnectError),
}

/// What the client does after a session ended.
pub enum ClientNext<R, E> {
    /// Connect again with this desktop size, counting same-size reconnects.
    Reconnect { width: u16, height: u16, same_size_reconnects: u8 },
    /// Report the end and stop.
    Stop(ClientStop<R, E>),
}

/// Decides what follows a session that ran with the given desktop size.
pub fn after_session<R, E>(desktop_width: u16, desktop_height: u16, same_size_reconnects: u8, end: SessionEnd<R, E>) -> (r:
    ClientNext<R, E>)
    ensures
        match end {
            SessionEnd::ReconnectWithNewSize { width, height } => {
                if desktop_width != width || desktop_height != height {
                    r == (ClientNext::<R, E>::Reconnect { width, height, same_size_reconnects: 0 })
                } else if same_size_reconnects < MAX_SAME_SIZE_RECONNECTS {
                    r == (ClientNext::<R, E>::Reconnect {
                        width,
                        height,
                        same_size_reconnects: (same_size_reconnects + 1) as u8,
                    })
                } else {
                    r == ClientNext::<R, E>::Stop(
                        ClientStop::TooManyResizeReconnects(ResizeReconnectError::TooManySameSizeReconnects),
                    )
                }
            },
            SessionEnd::TerminatedGracefully(reason) => r == ClientNext::<R, E>::Stop(ClientStop::Graceful(reason)),
            SessionEnd::Failed(e) => r == ClientNext::<R, E>::Stop(ClientStop::Failed(e)),
        },
        r matches ClientNext::Reconnect { same_size_reconnects: n, .. } ==> n <= MAX_SAME_SIZE_RECONNECTS,
{
    match end {
        SessionEnd::ReconnectWithNewSize { width, height } => match update_resize_reconnect_state(
            desktop_width,
            desktop_height,
            width,
            height,
            same_size_reconnects,
        ) {
            Ok(n) => ClientNext::Reconnect { width, height, same_size_reconnects: n },
            Err(e) => ClientNext::Stop(ClientStop::TooManyResizeReconnects(e)),
        },
        SessionEnd::TerminatedGracefully(reason) => ClientNext::Stop(ClientStop::Graceful(reason)),
        SessionEnd::Failed(e) => ClientNext::Stop(ClientStop::Failed(e)),
    }
}

} // verus!
