//! The graphics pipeline client: negotiation state, the surfaces the server
//! created, frame accounting, and turning `WireToSurface1` bitmaps into
//! RGBA updates for a handler.
//!
//! An AVC444 frame is reconstructed to YUV 4:4:4 here; its color conversion
//! is done by the caller, which hands the RGBA pixels back to
//! [`GraphicsPipelineClient::deliver_avc444`].

use vstd::prelude::*;

use std::collections::BTreeMap;

use crate::avc::{
    Avc420BitmapStream, Avc444BitmapStream, InclusiveRectangle, avc444_split_overruns, parse_avc420, parse_avc444,
};
use crate::avc444::{ChromaVersion, Yuv444Frame, is_reconstruction, pixel_count, reconstruct_yuv444, view_indices_fit};
use crate::bytes::read_u32_le;
use crate::error::PduError;
use crate::client::framebuffer::{opaque_black, opaque_black_buffer};
use crate::frame::{
    blit_tile, blit_tile_spec, convert_uncompressed_to_rgba, crop_decoded_frame, crop_decoded_frame_spec, crop_region,
    bgrx_to_rgba, region_fits, region_rows,
};
use crate::gfx::caps::{
    CapabilitySet, CodecCapabilities, advertised_capabilities, codec_caps_of, default_capabilities,
    default_capability_sets,
};
use crate::yuv::{DecodedFrame, DecoderError, H264Decoder, Yuv420Frame};

verus! {

broadcast use vstd::std_specs::btree::group_btree_axioms, vstd::laws_cmp::group_laws_cmp;

/// Pixel format of a surface.
#[derive(Debug, Clone, Copy, PartialEq, Eq, Structural)]
pub enum PixelFormat {
    /// `PIXEL_FORMAT_XRGB_8888`.
    XRgb,
    /// `PIXEL_FORMAT_ARGB_8888`.
    ARgb,
}

/// Codec of a `WireToSurface1` bitmap.
#[derive(Debug, Clone, Copy, PartialEq, Eq, Structural)]
pub enum Codec1Type {
    Uncompressed,
    RemoteFx,
    ClearCodec,
    Planar,
    Avc420,
    Alpha,
    Avc444,
    Avc444v2,
}

/// A surface created by the server.
#[derive(Debug, Clone, Copy, PartialEq, Eq, Structural)]
pub struct Surface {
    /// Identifier assigned by the server.
    pub id: u16,
    pub width: u16,
    pub height: u16,
    pub pixel_format: PixelFormat,
    /// Whether the surface is mapped to an output.
    pub is_mapped: bool,
    pub output_origin_x: u32,
    pub output_origin_y: u32,
}

/// Decoded RGBA pixels for a region of a surface.
#[derive(Debug)]
pub struct BitmapUpdate {
    pub surface_id: u16,
    /// Where the pixels go in the surface.
    pub destination_rectangle: InclusiveRectangle,
    /// Codec that produced the pixels.
    pub codec_id: Codec1Type,
    /// RGBA pixels, 4 bytes each, row-major.
    pub data: Vec<u8>,
    /// Width of the pixels.
    pub width: u16,
    /// Height of the pixels.
    pub height: u16,
    /// Width of the whole destination surface.
    pub surface_width: u16,
    /// Height of the whole destination surface.
    pub surface_height: u16,
}

/// The plain values of a bitmap update.
pub ghost struct DeliveredBitmap {
    pub surface_id: u16,
    pub destination_rectangle: InclusiveRectangle,
    pub codec_id: Codec1Type,
    pub data: Seq<u8>,
    pub width: u16,
    pub height: u16,
    pub surface_width: u16,
    pub surface_height: u16,
}

impl View for BitmapUpdate {
    type V = DeliveredBitmap;

    open spec fn view(&self) -> DeliveredBitmap {
        DeliveredBitmap {
            surface_id: self.surface_id,
            destination_rectangle: self.destination_rectangle,
            codec_id: self.codec_id,
            data: self.data@,
            width: self.width,
            height: self.height,
            surface_width: self.surface_width,
            surface_height: self.surface_height,
        }
    }
}

/// A `WireToSurface1` message: an encoded bitmap for a surface region.
#[derive(Debug, Clone)]
pub struct WireToSurface1Pdu {
    pub surface_id: u16,
    pub codec_id: Codec1Type,
    pub pixel_format: PixelFormat,
    pub destination_rectangle: InclusiveRectangle,
    pub bitmap_data: Vec<u8>,
}

/// Queue depth reported in a frame acknowledgement.
#[derive(Debug, Clone, Copy, PartialEq, Eq, Structural)]
pub enum QueueDepth {
    /// 0: the depth is not known.
    Unavailable,
    /// A number of frames.
    AvailableBytes(u32),
    /// `0xFFFFFFFF`: the server should stop sending acknowledgement requests.
    Suspend,
}

pub open spec fn queue_depth_of(v: u32) -> QueueDepth {
    if v == 0 {
        QueueDepth::Unavailable
    } else if v == 0xFFFF_FFFF {
        QueueDepth::Suspend
    } else {
        QueueDepth::AvailableBytes(v)
    }
}

impl QueueDepth {
    pub fn from_u32(v: u32) -> (r: QueueDepth)
        ensures
            r == queue_depth_of(v),
    {
        if v == 0 {
            QueueDepth::Unavailable
        } else if v == 0xFFFF_FFFF {
            QueueDepth::Suspend
        } else {
            QueueDepth::AvailableBytes(v)
        }
    }
}

/// A frame acknowledgement.
#[derive(Debug, Clone, Copy, PartialEq, Eq, Structural)]
pub struct FrameAcknowledgePdu {
    pub queue_depth: QueueDepth,
    pub frame_id: u32,
    pub total_frames_decoded: u32,
}

/// A monitor of the layout announced by a graphics reset, in virtual
/// desktop coordinates (the right and bottom edges inclusive).
#[derive(Debug, Clone, Copy, PartialEq, Eq, Structural)]
pub struct Monitor {
    pub left: i32,
    pub top: i32,
    pub right: i32,
    pub bottom: i32,
    /// `MONITOR_PRIMARY` (1) marks the primary monitor.
    pub flags: u32,
}

/// A point of a surface.
#[derive(Debug, Clone, Copy, PartialEq, Eq, Structural)]
pub struct Point {
    pub x: u16,
    pub y: u16,
}

/// A 32-bit color: blue, green, red, and a byte that is ignored.
#[derive(Debug, Clone, Copy, PartialEq, Eq, Structural)]
pub struct Color {
    pub b: u8,
    pub g: u8,
    pub r: u8,
    pub xa: u8,
}

/// Fills rectangles of a surface with one color.
#[derive(Debug, Clone)]
pub struct SolidFillPdu {
    pub surface_id: u16,
    pub fill_pixel: Color,
    pub rectangles: Vec<InclusiveRectangle>,
}

/// Copies a rectangle of one surface to points of another (or the same).
#[derive(Debug, Clone)]
pub struct SurfaceToSurfacePdu {
    pub source_surface_id: u16,
    pub destination_surface_id: u16,
    pub source_rectangle: InclusiveRectangle,
    pub destination_points: Vec<Point>,
}

/// Copies a rectangle of a surface into a cache slot.
#[derive(Debug, Clone, Copy)]
pub struct SurfaceToCachePdu {
    pub surface_id: u16,
    pub cache_key: u64,
    pub cache_slot: u16,
    pub source_rectangle: InclusiveRectangle,
}

/// Copies a cache slot to points of a surface.
#[derive(Debug, Clone)]
pub struct CacheToSurfacePdu {
    pub cache_slot: u16,
    pub surface_id: u16,
    pub destination_points: Vec<Point>,
}

/// Frees a cache slot.
#[derive(Debug, Clone, Copy)]
pub struct EvictCacheEntryPdu {
    pub cache_slot: u16,
}

/// The cache slots given to the entries that the client offered to import.
#[derive(Debug, Clone)]
pub struct CacheImportReplyPdu {
    pub cache_slots: Vec<u16>,
}

/// Maps a surface to a RAIL window.
#[derive(Debug, Clone, Copy)]
pub struct MapSurfaceToWindowPdu {
    pub surface_id: u16,
    pub window_id: u64,
    pub mapped_width: u32,
    pub mapped_height: u32,
}

/// Maps a surface to an output position, scaled to a target size.
#[derive(Debug, Clone, Copy)]
pub struct MapSurfaceToScaledOutputPdu {
    pub surface_id: u16,
    pub output_origin_x: u32,
    pub output_origin_y: u32,
    pub target_width: u32,
    pub target_height: u32,
}

/// Maps a surface to a RAIL window, scaled to a target size.
#[derive(Debug, Clone, Copy)]
pub struct MapSurfaceToScaledWindowPdu {
    pub surface_id: u16,
    pub window_id: u64,
    pub mapped_width: u32,
    pub mapped_height: u32,
    pub target_width: u32,
    pub target_height: u32,
}

/// Deletes a progressive codec context of a surface.
#[derive(Debug, Clone, Copy)]
pub struct DeleteEncodingContextPdu {
    pub surface_id: u16,
    pub codec_context_id: u32,
}

/// A graphics pipeline message.
#[derive(Debug, Clone)]
pub enum GfxPdu {
    CapabilitiesAdvertise(Vec<CapabilitySet>),
    CapabilitiesConfirm(CapabilitySet),
    ResetGraphics { width: u32, height: u32, monitors: Vec<Monitor> },
    CreateSurface { surface_id: u16, width: u16, height: u16, pixel_format: PixelFormat },
    DeleteSurface { surface_id: u16 },
    MapSurfaceToOutput { surface_id: u16, output_origin_x: u32, output_origin_y: u32 },
    StartFrame { frame_id: u32 },
    EndFrame { frame_id: u32 },
    WireToSurface1(WireToSurface1Pdu),
    FrameAcknowledge(FrameAcknowledgePdu),
    SolidFill(SolidFillPdu),
    SurfaceToSurface(SurfaceToSurfacePdu),
    SurfaceToCache(SurfaceToCachePdu),
    CacheToSurface(CacheToSurfacePdu),
    EvictCacheEntry(EvictCacheEntryPdu),
    CacheImportReply(CacheImportReplyPdu),
    MapSurfaceToWindow(MapSurfaceToWindowPdu),
    MapSurfaceToScaledOutput(MapSurfaceToScaledOutputPdu),
    MapSurfaceToScaledWindow(MapSurfaceToScaledWindowPdu),
    DeleteEncodingContext(DeleteEncodingContextPdu),
}

/// Receives what the pipeline decodes; every method does nothing by
/// default.
pub trait GraphicsPipelineHandler {
    /// The capability sets to advertise (AVC sets are dropped when no H.264
    /// decoder is configured).
    fn capabilities(&self) -> (r: Vec<CapabilitySet>)
        default_ensures
            r@ == default_capabilities(),
    {
        default_capability_sets()
    }

    fn on_capabilities_confirmed(&mut self, caps: &CapabilitySet) {
    }

    fn on_reset_graphics(&mut self, width: u32, height: u32) {
    }

    fn on_surface_created(&mut self, surface: &Surface) {
    }

    fn on_surface_deleted(&mut self, surface_id: u16) {
    }

    fn on_surface_mapped(&mut self, surface_id: u16, origin_x: u32, origin_y: u32) {
    }

    /// Decoded pixels for a surface region.
    fn on_bitmap_updated(&mut self, update: BitmapUpdate) {
    }

    /// All updates since the matching start of frame belong to this frame.
    fn on_frame_complete(&mut self, frame_id: u32) {
    }

    fn on_close(&mut self) {
    }

    /// A surface region is filled with a solid color.
    fn on_solid_fill(&mut self, pdu: &SolidFillPdu) {
    }

    /// Pixels are copied between surfaces.
    fn on_surface_to_surface(&mut self, pdu: &SurfaceToSurfacePdu) {
    }

    /// A surface region is cached.
    fn on_surface_to_cache(&mut self, pdu: &SurfaceToCachePdu) {
    }

    /// Cached content is drawn to a surface.
    fn on_cache_to_surface(&mut self, pdu: &CacheToSurfacePdu) {
    }

    /// A cache entry is evicted.
    fn on_evict_cache_entry(&mut self, pdu: &EvictCacheEntryPdu) {
    }

    /// A surface is mapped to a RAIL window.
    fn on_map_surface_to_window(&mut self, pdu: &MapSurfaceToWindowPdu) {
    }

    /// A surface is mapped to a scaled output.
    fn on_map_surface_to_scaled_output(&mut self, pdu: &MapSurfaceToScaledOutputPdu) {
    }

    /// A surface is mapped to a scaled RAIL window.
    fn on_map_surface_to_scaled_window(&mut self, pdu: &MapSurfaceToScaledWindowPdu) {
    }

    /// A progressive encoding context is deleted.
    fn on_delete_encoding_context(&mut self, pdu: &DeleteEncodingContextPdu) {
    }

    /// The server replied to a cache import offer.
    fn on_cache_import_reply(&mut self, pdu: &CacheImportReplyPdu) {
    }

    /// A message that the client does not handle itself.
    fn on_unhandled_pdu(&mut self, pdu: &GfxPdu) {
    }
}

/// Why a message could not be processed.
#[derive(Debug)]
pub enum GfxError {
    /// A bitmap for a surface that does not exist.
    UnknownSurface,
    /// A destination rectangle whose left exceeds its right or whose top
    /// exceeds its bottom.
    InvalidRectangleOrdering,
    /// The bitmap stream did not decode.
    Decode(PduError),
    /// The H.264 decoder failed.
    H264(DecoderError),
    /// The decoded frame is smaller than the destination rectangle.
    FrameSmallerThanDestination,
}

/// Negotiation state of the client.
#[derive(Debug, Clone, Copy, PartialEq, Eq, Structural)]
pub enum ClientState {
    /// Waiting for the server's capability confirmation.
    WaitingForConfirm,
    /// Frames are being processed.
    Active,
    /// The channel was closed.
    Closed,
}

/// A call that the client made into its handler or its decoders, in the
/// order the calls were made.
pub ghost enum ClientEvent {
    /// `capabilities`, with the sets the handler returned.
    CapabilitiesQueried(Seq<CapabilitySet>),
    /// `on_capabilities_confirmed`.
    CapabilitiesConfirmed(CapabilitySet),
    /// `on_reset_graphics`.
    ResetGraphics { width: u32, height: u32 },
    /// `on_surface_created`.
    SurfaceCreated(Surface),
    /// `on_surface_deleted`.
    SurfaceDeleted(u16),
    /// `on_surface_mapped`.
    SurfaceMapped { surface_id: u16, origin_x: u32, origin_y: u32 },
    /// `on_bitmap_updated`, with the update handed over.
    BitmapUpdated(DeliveredBitmap),
    /// `on_frame_complete`.
    FrameComplete(u32),
    /// `on_close`.
    Closed,
    /// `on_unhandled_pdu`, with the message handed over.
    Unhandled(GfxPdu),
    /// The callback of its own for a drawing, cache or mapping message
    /// (`on_solid_fill`, `on_surface_to_surface`, `on_surface_to_cache`,
    /// `on_cache_to_surface`, `on_evict_cache_entry`, `on_cache_import_reply`,
    /// `on_map_surface_to_window`, `on_map_surface_to_scaled_output`,
    /// `on_map_surface_to_scaled_window`, `on_delete_encoding_context`), with
    /// the message it was handed.
    Notified(GfxPdu),
    /// `reset` of the main decoder.
    DecoderReset,
    /// `decode` of these NAL units by the main decoder.
    Decode(Seq<u8>),
    /// `decode_yuv` of these NAL units by the main decoder.
    DecodeYuv(Seq<u8>),
    /// `decode_yuv` of these NAL units by the chroma decoder.
    DecodeChromaYuv(Seq<u8>),
}

/// Width of an inclusive rectangle.
pub open spec fn rect_width(r: InclusiveRectangle) -> int {
    r.right - r.left + 1
}

/// Height of an inclusive rectangle.
pub open spec fn rect_height(r: InclusiveRectangle) -> int {
    r.bottom - r.top + 1
}

/// A rectangle whose width and height fit a `u16` (the extents are taken
/// with `u16` arithmetic).
pub open spec fn rect_extent_fits(r: InclusiveRectangle) -> bool {
    (r.left <= r.right ==> rect_width(r) <= u16::MAX) && (r.top <= r.bottom ==> rect_height(r) <= u16::MAX)
}

/// The update delivered for an AVC420 frame decoded as `frame`, or why
/// there is none: the frame must cover the destination rectangle, and is
/// cropped to it.
pub open spec fn avc420_update_of(frame: DecodedFrame, rect: InclusiveRectangle) -> Option<Seq<u8>> {
    if frame.width < rect_width(rect) || frame.height < rect_height(rect) {
        None
    } else {
        Some(
            crop_decoded_frame_spec(
                frame.data@,
                frame.width,
                frame.height,
                rect_width(rect) as u16,
                rect_height(rect) as u16,
            ),
        )
    }
}

/// The update for an AVC420 frame decoded as `frame` for surface
/// `surface_id`: `frame` cropped to the destination rectangle, refused
/// when it is smaller than the rectangle.
pub fn avc420_update(
    surface_id: u16,
    rect: InclusiveRectangle,
    surface_width: u16,
    surface_height: u16,
    frame: &DecodedFrame,
) -> (r: Result<BitmapUpdate, GfxError>)
    requires
        rect.left <= rect.right && rect.top <= rect.bottom,
        rect_extent_fits(rect),
    ensures
        match avc420_update_of(*frame, rect) {
            None => r matches Err(GfxError::FrameSmallerThanDestination),
            Some(data) => r matches Ok(u) && u@ == avc420_bitmap(surface_id, rect, surface_width, surface_height, data),
        },
{
    let dest_width = rect.right - rect.left + 1;
    let dest_height = rect.bottom - rect.top + 1;
    if frame.width < dest_width as u32 || frame.height < dest_height as u32 {
        return Err(GfxError::FrameSmallerThanDestination);
    }
    let data = crop_decoded_frame(frame.data.as_slice(), frame.width, frame.height, dest_width, dest_height);
    Ok(
        BitmapUpdate {
            surface_id,
            destination_rectangle: rect,
            codec_id: Codec1Type::Avc420,
            data,
            width: dest_width,
            height: dest_height,
            surface_width,
            surface_height,
        },
    )
}

/// An AVC444 frame reconstructed to YUV 4:4:4, waiting for its color
/// conversion before it can be delivered.
pub struct PendingAvc444 {
    pub surface_id: u16,
    pub destination_rectangle: InclusiveRectangle,
    pub version: ChromaVersion,
    pub surface_width: u16,
    pub surface_height: u16,
    /// The reconstructed frame, the size of the destination rectangle.
    pub frame: Yuv444Frame,
}

/// What a `WireToSurface1` message led to.
pub enum WireToSurfaceOutcome {
    /// Nothing more to do (delivered, forwarded, or skipped).
    Done,
    /// An AVC444 frame waits for its color conversion.
    Avc444(PendingAvc444),
}

/// The graphics pipeline client.
pub struct GraphicsPipelineClient<H: GraphicsPipelineHandler, D: H264Decoder> {
    handler: H,
    h264_decoder: Option<D>,
    h264_chroma_decoder: Option<D>,
    state: ClientState,
    negotiated_caps: Option<CapabilitySet>,
    codec_caps: CodecCapabilities,
    surfaces: BTreeMap<u16, Surface>,
    current_frame_id: Option<u32>,
    frames_queued: u32,
    total_frames_decoded: u32,
    progressive_framebuffers: BTreeMap<u16, Vec<u8>>,
    events: Ghost<Seq<ClientEvent>>,
}

/// The client's state as plain values.
pub ghost struct GfxClientView {
    pub state: ClientState,
    pub negotiated_caps: Option<CapabilitySet>,
    pub codec_caps: CodecCapabilities,
    pub surfaces: Map<u16, Surface>,
    pub current_frame_id: Option<u32>,
    pub frames_queued: u32,
    pub total_frames_decoded: u32,
    pub has_decoder: bool,
    pub has_chroma_decoder: bool,
    /// The RGBA framebuffer that progressive tiles were composited into, per
    /// surface.
    pub progressive: Map<u16, Vec<u8>>,
    /// Every call made into the handler and the decoders so far.
    pub events: Seq<ClientEvent>,
}

impl<H: GraphicsPipelineHandler, D: H264Decoder> View for GraphicsPipelineClient<H, D> {
    type V = GfxClientView;

    closed spec fn view(&self) -> GfxClientView {
        GfxClientView {
            state: self.state,
            negotiated_caps: self.negotiated_caps,
            codec_caps: self.codec_caps,
            surfaces: self.surfaces@,
            current_frame_id: self.current_frame_id,
            frames_queued: self.frames_queued,
            total_frames_decoded: self.total_frames_decoded,
            has_decoder: self.h264_decoder is Some,
            has_chroma_decoder: self.h264_chroma_decoder is Some,
            progressive: self.progressive_framebuffers@,
            events: self.events@,
        }
    }
}

/// The view with only the frame accounting changed.
pub open spec fn with_frames(v: GfxClientView, current: Option<u32>, queued: u32, total: u32) -> GfxClientView {
    GfxClientView { current_frame_id: current, frames_queued: queued, total_frames_decoded: total, ..v }
}

/// The calls a graphics reset makes: the main decoder's reset, when there is
/// one, then the handler's notification of the new size.
pub open spec fn reset_events(v: GfxClientView, width: u32, height: u32) -> Seq<ClientEvent> {
    let ev = if v.has_decoder {
        v.events.push(ClientEvent::DecoderReset)
    } else {
        v.events
    };
    ev.push(ClientEvent::ResetGraphics { width, height })
}

/// The update for an uncompressed bitmap for a `surface_width` x
/// `surface_height` surface: its BGRX pixels as RGBA.
pub open spec fn uncompressed_bitmap(pdu: WireToSurface1Pdu, surface_width: u16, surface_height: u16) -> DeliveredBitmap {
    DeliveredBitmap {
        surface_id: pdu.surface_id,
        destination_rectangle: pdu.destination_rectangle,
        codec_id: Codec1Type::Uncompressed,
        data: bgrx_to_rgba(pdu.bitmap_data@, pdu.bitmap_data@.len() as int / 4),
        width: rect_width(pdu.destination_rectangle) as u16,
        height: rect_height(pdu.destination_rectangle) as u16,
        surface_width,
        surface_height,
    }
}

/// The update that carries `data`, an AVC420 frame cropped to `rect`.
pub open spec fn avc420_bitmap(
    surface_id: u16,
    rect: InclusiveRectangle,
    surface_width: u16,
    surface_height: u16,
    data: Seq<u8>,
) -> DeliveredBitmap {
    DeliveredBitmap {
        surface_id,
        destination_rectangle: rect,
        codec_id: Codec1Type::Avc420,
        data,
        width: rect_width(rect) as u16,
        height: rect_height(rect) as u16,
        surface_width,
        surface_height,
    }
}

/// The update for a reconstructed AVC444 frame whose pixels were converted
/// to `rgba`.
pub open spec fn avc444_bitmap(p: PendingAvc444, rgba: Seq<u8>) -> DeliveredBitmap {
    DeliveredBitmap {
        surface_id: p.surface_id,
        destination_rectangle: p.destination_rectangle,
        codec_id: if p.version == ChromaVersion::V2 {
            Codec1Type::Avc444v2
        } else {
            Codec1Type::Avc444
        },
        data: rgba,
        width: rect_width(p.destination_rectangle) as u16,
        height: rect_height(p.destination_rectangle) as u16,
        surface_width: p.surface_width,
        surface_height: p.surface_height,
    }
}

/// A rectangle whose left does not exceed its right and whose top does not
/// exceed its bottom.
pub open spec fn rect_ordered(r: InclusiveRectangle) -> bool {
    r.left <= r.right && r.top <= r.bottom
}

/// The chroma packing of an AVC444 codec.
pub open spec fn chroma_version_of(codec: Codec1Type) -> ChromaVersion {
    if codec == Codec1Type::Avc444v2 {
        ChromaVersion::V2
    } else {
        ChromaVersion::V1
    }
}

/// What an AVC420 bitmap stream `data` for a known surface and an ordered
/// rectangle leads to, for client state `v`, as a result `r` and the calls
/// `events` made so far. A stream that does not parse is refused before any
/// call; without a decoder it is skipped; otherwise the decoder is handed
/// the stream's NAL units, and either fails, or decodes a frame that is
/// refused as smaller than the rectangle or delivered cropped to it.
pub open spec fn avc420_outcome(
    v: GfxClientView,
    surface_id: u16,
    rect: InclusiveRectangle,
    surface_width: u16,
    surface_height: u16,
    data: Seq<u8>,
    r: Result<WireToSurfaceOutcome, GfxError>,
    events: Seq<ClientEvent>,
) -> bool {
    match parse_avc420(data) {
        None => (r matches Err(GfxError::Decode(PduError::NotEnoughBytes { .. }))) && events == v.events,
        Some(parts) => if !v.has_decoder {
            (r matches Ok(WireToSurfaceOutcome::Done)) && events == v.events
        } else {
            let called = v.events.push(ClientEvent::Decode(parts.2));
            ||| (r matches Err(GfxError::H264(_))) && events == called
            ||| (r matches Err(GfxError::FrameSmallerThanDestination)) && events == called
            ||| (r matches Ok(WireToSurfaceOutcome::Done)) && exists|frame: DecodedFrame|
                #[trigger] avc420_update_of(frame, rect) is Some && events == called.push(
                    ClientEvent::BitmapUpdated(
                        avc420_bitmap(
                            surface_id,
                            rect,
                            surface_width,
                            surface_height,
                            avc420_update_of(frame, rect)->Some_0,
                        ),
                    ),
                )
        },
    }
}

/// What an AVC444 bitmap stream `data` for a known surface and an ordered
/// rectangle leads to, when the chroma decoder is configured: a stream that
/// does not parse is refused before any call; without the main decoder, for
/// a single-view update or a reserved encoding it is skipped; otherwise the
/// main decoder is handed the luma NAL units and then, unless it failed, the
/// chroma decoder the chroma ones, and the handler is told nothing: the
/// result is a failure, a skip, or the frame reconstructed from the two
/// decoded views (the luma view covering the rectangle), waiting for its
/// color conversion.
pub open spec fn avc444_outcome(
    v: GfxClientView,
    surface_id: u16,
    rect: InclusiveRectangle,
    surface_width: u16,
    surface_height: u16,
    data: Seq<u8>,
    version: ChromaVersion,
    r: Result<WireToSurfaceOutcome, GfxError>,
    events: Seq<ClientEvent>,
) -> bool {
    match parse_avc444(data) {
        None => (r matches Err(GfxError::Decode(_))) && events == v.events,
        Some((encoding, p1, stream2)) => if !v.has_decoder || !v.has_chroma_decoder || stream2 is None || encoding
            != 0 {
            (r matches Ok(WireToSurfaceOutcome::Done)) && events == v.events
        } else {
            let luma = v.events.push(ClientEvent::DecodeYuv(p1.2));
            let both = luma.push(ClientEvent::DecodeChromaYuv(stream2->Some_0.2));
            ||| (r matches Err(GfxError::H264(_))) && (events == luma || events == both)
            ||| (r matches Ok(WireToSurfaceOutcome::Done)) && events == both
            ||| r matches Ok(WireToSurfaceOutcome::Avc444(p)) && events == both && {
                &&& exists|main: Yuv420Frame, aux: Yuv420Frame|
                    #[trigger] is_reconstruction(p.frame, main, aux, version, p.frame.width, p.frame.height)
                        && main.width >= rect_width(rect) && main.height >= rect_height(rect)
                &&& pending_wf(p)
                &&& p.surface_id == surface_id
                &&& p.destination_rectangle == rect
                &&& p.version == version
                &&& p.surface_width == surface_width
                &&& p.surface_height == surface_height
            }
        },
    }
}

/// What a `WireToSurface1` message leads to for client state `v`, as a
/// result `r` and the calls `events` made so far. An unknown surface and an
/// unordered rectangle are refused before any call; an uncompressed bitmap
/// is delivered as RGBA; AVC420 and (with the chroma decoder) AVC444 are
/// decoded; any other codec, and AVC444 without the chroma decoder, is
/// forwarded to the handler as it came.
pub open spec fn wire_to_surface1_outcome(
    v: GfxClientView,
    pdu: WireToSurface1Pdu,
    r: Result<WireToSurfaceOutcome, GfxError>,
    events: Seq<ClientEvent>,
) -> bool {
    let rect = pdu.destination_rectangle;
    if !v.surfaces.contains_key(pdu.surface_id) {
        (r matches Err(GfxError::UnknownSurface)) && events == v.events
    } else if !rect_ordered(rect) {
        (r matches Err(GfxError::InvalidRectangleOrdering)) && events == v.events
    } else {
        let s = v.surfaces[pdu.surface_id];
        let forwarded = (r matches Ok(WireToSurfaceOutcome::Done)) && events == v.events.push(
            ClientEvent::Unhandled(GfxPdu::WireToSurface1(pdu)),
        );
        match pdu.codec_id {
            Codec1Type::Uncompressed => (r matches Ok(WireToSurfaceOutcome::Done)) && events == v.events.push(
                ClientEvent::BitmapUpdated(uncompressed_bitmap(pdu, s.width, s.height)),
            ),
            Codec1Type::Avc420 => avc420_outcome(
                v,
                pdu.surface_id,
                rect,
                s.width,
                s.height,
                pdu.bitmap_data@,
                r,
                events,
            ),
            Codec1Type::Avc444 | Codec1Type::Avc444v2 => if v.has_chroma_decoder {
                avc444_outcome(
                    v,
                    pdu.surface_id,
                    rect,
                    s.width,
                    s.height,
                    pdu.bitmap_data@,
                    chroma_version_of(pdu.codec_id),
                    r,
                    events,
                )
            } else {
                forwarded
            },
            _ => forwarded,
        }
    }
}

/// A message result read as the outcome of its `WireToSurface1` handling.
pub open spec fn as_wire_outcome(r: Result<(Vec<GfxPdu>, Option<PendingAvc444>), GfxError>) -> Result<
    WireToSurfaceOutcome,
    GfxError,
> {
    match r {
        Ok((_, None)) => Ok(WireToSurfaceOutcome::Done),
        Ok((_, Some(p))) => Ok(WireToSurfaceOutcome::Avc444(p)),
        Err(e) => Err(e),
    }
}

/// `a - 1` saturating at 0.
pub open spec fn sat_dec(a: u32) -> u32 {
    if a == 0 {
        0
    } else {
        (a - 1) as u32
    }
}

/// `a + 1` saturating at `u32::MAX`.
pub open spec fn sat_inc(a: u32) -> u32 {
    if a == u32::MAX {
        u32::MAX
    } else {
        (a + 1) as u32
    }
}

/// `a + 1` wrapping to 0.
pub open spec fn wrap_inc(a: u32) -> u32 {
    if a == u32::MAX {
        0
    } else {
        (a + 1) as u32
    }
}

/// Whether a codec is one of the two AVC444 variants.
pub open spec fn is_avc444_codec(codec: Codec1Type) -> bool {
    codec == Codec1Type::Avc444 || codec == Codec1Type::Avc444v2
}

/// Whether the client in state `v` decodes a bitmap of this codec (rather
/// than forwarding it): uncompressed, AVC420, and AVC444 when the chroma
/// decoder is configured.
pub open spec fn decodes_codec(v: GfxClientView, codec: Codec1Type) -> bool {
    codec == Codec1Type::Uncompressed || codec == Codec1Type::Avc420 || (is_avc444_codec(codec)
        && v.has_chroma_decoder)
}

/// A `WireToSurface1` message that the client in state `v` can process
/// without an extent overflowing or an unchecked split overrunning. Only a
/// message for a known surface with an ordered rectangle that the client
/// decodes is constrained: its rectangle's extents fit a `u16`, and an
/// AVC444 stream does not announce a first stream longer than its data.
/// Messages refused before any arithmetic, and forwarded ones, are always
/// safe.
pub open spec fn wire_to_surface1_safe(v: GfxClientView, pdu: WireToSurface1Pdu) -> bool {
    v.surfaces.contains_key(pdu.surface_id) && rect_ordered(pdu.destination_rectangle) && decodes_codec(
        v,
        pdu.codec_id,
    ) ==> {
        &&& rect_extent_fits(pdu.destination_rectangle)
        &&& is_avc444_codec(pdu.codec_id) ==> !avc444_split_overruns(pdu.bitmap_data@)
    }
}

/// A 64x64 RGBA tile that the progressive decoder produced for tile column
/// `x_idx` and tile row `y_idx` of a surface.
#[derive(Debug, Clone)]
pub struct DecodedTile {
    pub x_idx: u16,
    pub y_idx: u16,
    pub pixels: Vec<u8>,
}

/// The framebuffer after the tiles were blitted in order, each at its
/// tile position and clipped to the `w` x `h` surface.
pub open spec fn blit_tiles(fb: Seq<u8>, tiles: Seq<DecodedTile>, w: int, h: int) -> Seq<u8>
    decreases tiles.len(),
{
    if tiles.len() == 0 {
        fb
    } else {
        let t = tiles.last();
        blit_tile_spec(t.pixels@, blit_tiles(fb, tiles.drop_last(), w, h), w, h, t.x_idx * 64, t.y_idx * 64)
    }
}

/// The smaller of two integers.
pub open spec fn min_int(a: int, b: int) -> int {
    if a <= b {
        a
    } else {
        b
    }
}

/// The larger of two integers.
pub open spec fn max_int(a: int, b: int) -> int {
    if a >= b {
        a
    } else {
        b
    }
}

/// The bounding box (left, top, exclusive right, exclusive bottom) of the
/// tiles, the right and bottom edges clipped to the `w` x `h` surface; it
/// starts at (`usize::MAX`, `usize::MAX`, 0, 0).
pub open spec fn tiles_bbox(tiles: Seq<DecodedTile>, w: int, h: int) -> (int, int, int, int)
    decreases tiles.len(),
{
    if tiles.len() == 0 {
        (usize::MAX as int, usize::MAX as int, 0, 0)
    } else {
        let b = tiles_bbox(tiles.drop_last(), w, h);
        let t = tiles.last();
        let tx = t.x_idx * 64;
        let ty = t.y_idx * 64;
        (min_int(b.0, tx), min_int(b.1, ty), max_int(b.2, min_int(tx + 64, w)), max_int(b.3, min_int(ty + 64, h)))
    }
}

/// The changed region of the tiles clipped to the surface, when it is not
/// empty.
pub open spec fn changed_region(tiles: Seq<DecodedTile>, w: int, h: int) -> Option<(int, int, int, int)> {
    let b = tiles_bbox(tiles, w, h);
    let x0 = min_int(b.0, w);
    let y0 = min_int(b.1, h);
    if x0 >= b.2 || y0 >= b.3 {
        None
    } else {
        Some((x0, y0, b.2, b.3))
    }
}

/// The framebuffer that progressive tiles for a `w` x `h` surface start
/// from: the one kept for it, or opaque black.
pub open spec fn progressive_base(v: GfxClientView, surface_id: u16, w: int, h: int) -> Seq<u8> {
    if v.progressive.contains_key(surface_id) {
        v.progressive[surface_id]@
    } else {
        opaque_black(w * h * 4)
    }
}

impl<H: GraphicsPipelineHandler, D: H264Decoder> GraphicsPipelineClient<H, D> {
    /// A client waiting for the capability confirmation, with no surfaces.
    /// Without an H.264 decoder, AVC frames are skipped.
    pub fn new(handler: H, h264_decoder: Option<D>) -> (r: Self)
        ensures
            r@ == (GfxClientView {
                state: ClientState::WaitingForConfirm,
                negotiated_caps: None,
                codec_caps: CodecCapabilities { avc420: false, avc444: false, small_cache: false, thin_client: false },
                surfaces: Map::empty(),
                current_frame_id: None,
                frames_queued: 0,
                total_frames_decoded: 0,
                has_decoder: h264_decoder is Some,
                has_chroma_decoder: false,
                progressive: Map::empty(),
                events: Seq::empty(),
            }),
    {
        GraphicsPipelineClient {
            handler,
            h264_decoder,
            h264_chroma_decoder: None,
            state: ClientState::WaitingForConfirm,
            negotiated_caps: None,
            codec_caps: CodecCapabilities::default(),
            surfaces: BTreeMap::new(),
            progressive_framebuffers: BTreeMap::new(),
            current_frame_id: None,
            frames_queued: 0,
            total_frames_decoded: 0,
            events: Ghost(Seq::empty()),
        }
    }

    /// Adds the dedicated decoder of the AVC444 chroma stream.
    pub fn set_avc444_chroma_decoder(&mut self, decoder: D)
        ensures
            final(self)@ == (GfxClientView { has_chroma_decoder: true, ..old(self)@ }),
    {
        self.h264_chroma_decoder = Some(decoder);
    }

    /// Whether the capability confirmation was received.
    pub fn is_active(&self) -> (r: bool)
        ensures
            r == (self@.state == ClientState::Active),
    {
        self.state == ClientState::Active
    }

    /// The confirmed capability set, if any.
    pub fn negotiated_capabilities(&self) -> (r: Option<&CapabilitySet>)
        ensures
            match r {
                Some(c) => self@.negotiated_caps == Some(*c),
                None => self@.negotiated_caps is None,
            },
    {
        match &self.negotiated_caps {
            Some(c) => Some(c),
            None => None,
        }
    }

    /// What the confirmed capability set enables.
    pub fn codec_capabilities(&self) -> (r: &CodecCapabilities)
        ensures
            *r == self@.codec_caps,
    {
        &self.codec_caps
    }

    /// The surface with id `surface_id`, if it exists.
    pub fn get_surface(&self, surface_id: u16) -> (r: Option<&Surface>)
        ensures
            match r {
                Some(s) => self@.surfaces.contains_key(surface_id) && self@.surfaces[surface_id] == *s,
                None => !self@.surfaces.contains_key(surface_id),
            },
    {
        self.surfaces.get(&surface_id)
    }

    /// Whether `pdu` is one that `handle_wire_to_surface1` (and `handle_pdu`)
    /// can be given now: see [`wire_to_surface1_safe`].
    pub fn wire_to_surface1_is_safe(&self, pdu: &WireToSurface1Pdu) -> (r: bool)
        ensures
            r == wire_to_surface1_safe(self@, *pdu),
    {
        let known = match self.surfaces.get(&pdu.surface_id) {
            Some(_) => true,
            None => false,
        };
        let rect = pdu.destination_rectangle;
        let ordered = rect.left <= rect.right && rect.top <= rect.bottom;
        let avc444 = pdu.codec_id == Codec1Type::Avc444 || pdu.codec_id == Codec1Type::Avc444v2;
        let decodes = pdu.codec_id == Codec1Type::Uncompressed || pdu.codec_id == Codec1Type::Avc420 || (avc444
            && self.h264_chroma_decoder.is_some());
        if !(known && ordered && decodes) {
            return true;
        }
        rect_extent_fits_check(&rect) && !(avc444 && avc444_split_overruns_check(pdu.bitmap_data.as_slice()))
    }

    /// The negotiation state.
    pub fn state(&self) -> (r: ClientState)
        ensures
            r == self@.state,
    {
        self.state
    }

    /// The frame started and not yet ended, if any.
    pub fn current_frame_id(&self) -> (r: Option<u32>)
        ensures
            r == self@.current_frame_id,
    {
        self.current_frame_id
    }

    /// Frames started and not yet ended (saturating).
    pub fn frames_queued(&self) -> (r: u32)
        ensures
            r == self@.frames_queued,
    {
        self.frames_queued
    }

    /// How many surfaces exist.
    pub fn surface_count(&self) -> (r: usize)
        ensures
            r == self@.surfaces.len(),
    {
        self.surfaces.len()
    }

    /// Frames completed so far (wrapping).
    pub fn total_frames_decoded(&self) -> (r: u32)
        ensures
            r == self@.total_frames_decoded,
    {
        self.total_frames_decoded
    }

    /// The capability sets to advertise when the channel opens: the
    /// handler's, minus those that need AVC420 when there is no decoder (or
    /// version 8 alone when none remains). The handler's sets are its own:
    /// they are recorded as the call's event, and the advertised ones are
    /// `advertised_capabilities` of them.
    pub fn start(&mut self) -> (r: GfxPdu)
        ensures
            final(self)@ == (GfxClientView { events: final(self)@.events, ..old(self)@ }),
            final(self)@.events.len() == old(self)@.events.len() + 1,
            final(self)@.events.drop_last() == old(self)@.events,
            final(self)@.events.last() matches ClientEvent::CapabilitiesQueried(handler_sets) && r matches GfxPdu::CapabilitiesAdvertise(v)
                && v@ == advertised_capabilities(handler_sets, old(self)@.has_decoder),
    {
        let sets = self.handler.capabilities();
        self.events = Ghost(self.events@.push(ClientEvent::CapabilitiesQueried(sets@)));
        let has_decoder = self.h264_decoder.is_some();
        let advertised = crate::gfx::caps::select_capabilities(sets, has_decoder);
        assert(self@.events.drop_last() =~= old(self)@.events);
        GfxPdu::CapabilitiesAdvertise(advertised)
    }

    /// The server confirmed `cap`: the client becomes active with the codecs
    /// that `cap` enables.
    pub fn handle_capabilities_confirm(&mut self, cap: CapabilitySet)
        ensures
            final(self)@ == (GfxClientView {
                state: ClientState::Active,
                negotiated_caps: Some(cap),
                codec_caps: codec_caps_of(cap),
                events: old(self)@.events.push(ClientEvent::CapabilitiesConfirmed(cap)),
                ..old(self)@
            }),
    {
        self.codec_caps = CodecCapabilities::from_capability_set(&cap);
        self.events = Ghost(self.events@.push(ClientEvent::CapabilitiesConfirmed(cap)));
        self.handler.on_capabilities_confirmed(&cap);
        self.negotiated_caps = Some(cap);
        self.state = ClientState::Active;
    }

    /// A graphics reset destroys every surface, their progressive
    /// framebuffers and the frame accounting (the negotiated capabilities
    /// stay); the decoder is reset, then the handler is told the new size.
    pub fn handle_reset_graphics(&mut self, width: u32, height: u32)
        ensures
            final(self)@ == (GfxClientView {
                surfaces: Map::empty(),
                current_frame_id: None,
                frames_queued: 0,
                progressive: Map::empty(),
                events: reset_events(old(self)@, width, height),
                ..old(self)@
            }),
    {
        self.surfaces.clear();
        self.progressive_framebuffers.clear();
        self.current_frame_id = None;
        self.frames_queued = 0;
        if self.h264_decoder.is_some() {
            self.events = Ghost(self.events@.push(ClientEvent::DecoderReset));
        }
        match &mut self.h264_decoder {
            Some(decoder) => decoder.reset(),
            None => {},
        }
        self.events = Ghost(self.events@.push(ClientEvent::ResetGraphics { width, height }));
        self.handler.on_reset_graphics(width, height);
    }

    /// Creates an unmapped surface; a surface with a zero dimension is
    /// ignored. An existing surface with the same id is replaced.
    pub fn handle_create_surface(&mut self, surface_id: u16, width: u16, height: u16, pixel_format: PixelFormat)
        ensures
            width == 0 || height == 0 ==> final(self)@ == old(self)@,
            width != 0 && height != 0 ==> ({
                let surface = Surface {
                    id: surface_id,
                    width,
                    height,
                    pixel_format,
                    is_mapped: false,
                    output_origin_x: 0,
                    output_origin_y: 0,
                };
                final(self)@ == (GfxClientView {
                    surfaces: old(self)@.surfaces.insert(surface_id, surface),
                    events: old(self)@.events.push(ClientEvent::SurfaceCreated(surface)),
                    ..old(self)@
                })
            }),
    {
        if width == 0 || height == 0 {
            return;
        }
        let surface = Surface {
            id: surface_id,
            width,
            height,
            pixel_format,
            is_mapped: false,
            output_origin_x: 0,
            output_origin_y: 0,
        };
        self.events = Ghost(self.events@.push(ClientEvent::SurfaceCreated(surface)));
        self.handler.on_surface_created(&surface);
        self.surfaces.insert(surface_id, surface);
    }

    /// Deletes a surface and tells the handler; an unknown id changes
    /// nothing.
    pub fn handle_delete_surface(&mut self, surface_id: u16)
        ensures
            !old(self)@.surfaces.contains_key(surface_id) ==> final(self)@ == old(self)@,
            old(self)@.surfaces.contains_key(surface_id) ==> final(self)@ == (GfxClientView {
                surfaces: old(self)@.surfaces.remove(surface_id),
                events: old(self)@.events.push(ClientEvent::SurfaceDeleted(surface_id)),
                ..old(self)@
            }),
    {
        if self.surfaces.remove(&surface_id).is_some() {
            self.events = Ghost(self.events@.push(ClientEvent::SurfaceDeleted(surface_id)));
            self.handler.on_surface_deleted(surface_id);
        } else {
            assert(self@.surfaces =~= old(self)@.surfaces);
        }
    }

    /// Maps a surface to an output position; an unknown id changes nothing.
    pub fn handle_map_surface(&mut self, surface_id: u16, origin_x: u32, origin_y: u32)
        ensures
            !old(self)@.surfaces.contains_key(surface_id) ==> final(self)@ == old(self)@,
            old(self)@.surfaces.contains_key(surface_id) ==> final(self)@ == (GfxClientView {
                surfaces: old(self)@.surfaces.insert(
                    surface_id,
                    Surface {
                        is_mapped: true,
                        output_origin_x: origin_x,
                        output_origin_y: origin_y,
                        ..old(self)@.surfaces[surface_id]
                    },
                ),
                events: old(self)@.events.push(ClientEvent::SurfaceMapped { surface_id, origin_x, origin_y }),
                ..old(self)@
            }),
    {
        let found = match self.surfaces.get(&surface_id) {
            Some(s) => Some(*s),
            None => None,
        };
        if let Some(s) = found {
            let mapped = Surface { is_mapped: true, output_origin_x: origin_x, output_origin_y: origin_y, ..s };
            self.surfaces.insert(surface_id, mapped);
            self.events = Ghost(self.events@.push(ClientEvent::SurfaceMapped { surface_id, origin_x, origin_y }));
            self.handler.on_surface_mapped(surface_id, origin_x, origin_y);
        }
    }

    /// A frame starts: it becomes the current one and one more is queued.
    pub fn handle_start_frame(&mut self, frame_id: u32)
        ensures
            final(self)@ == with_frames(
                old(self)@,
                Some(frame_id),
                sat_inc(old(self)@.frames_queued),
                old(self)@.total_frames_decoded,
            ),
    {
        self.current_frame_id = Some(frame_id);
        self.frames_queued = if self.frames_queued < u32::MAX { self.frames_queued + 1 } else { u32::MAX };
    }

    /// A frame ends: one more is counted as decoded, none is current, one
    /// less is queued; the acknowledgement reports the remaining queue and
    /// the new count.
    pub fn handle_end_frame(&mut self, frame_id: u32) -> (r: FrameAcknowledgePdu)
        ensures
            final(self)@ == (GfxClientView {
                current_frame_id: None,
                frames_queued: sat_dec(old(self)@.frames_queued),
                total_frames_decoded: wrap_inc(old(self)@.total_frames_decoded),
                events: old(self)@.events.push(ClientEvent::FrameComplete(frame_id)),
                ..old(self)@
            }),
            r == (FrameAcknowledgePdu {
                queue_depth: queue_depth_of(sat_dec(old(self)@.frames_queued)),
                frame_id,
                total_frames_decoded: wrap_inc(old(self)@.total_frames_decoded),
            }),
    {
        self.total_frames_decoded = if self.total_frames_decoded < u32::MAX {
            self.total_frames_decoded + 1
        } else {
            0
        };
        self.current_frame_id = None;
        self.frames_queued = if self.frames_queued > 0 { self.frames_queued - 1 } else { 0 };
        self.events = Ghost(self.events@.push(ClientEvent::FrameComplete(frame_id)));
        self.handler.on_frame_complete(frame_id);
        FrameAcknowledgePdu {
            queue_depth: QueueDepth::from_u32(self.frames_queued),
            frame_id,
            total_frames_decoded: self.total_frames_decoded,
        }
    }

    /// Decodes an AVC420 bitmap stream and delivers it cropped to the
    /// destination rectangle; skipped when there is no decoder. A stream
    /// that does not decode is refused; otherwise only the decoder's failure
    /// or a decoded frame smaller than the rectangle is.
    fn decode_avc420(
        &mut self,
        surface_id: u16,
        rect: InclusiveRectangle,
        surface_width: u16,
        surface_height: u16,
        bitmap_data: &[u8],
    ) -> (r: Result<WireToSurfaceOutcome, GfxError>)
        requires
            rect.left <= rect.right && rect.top <= rect.bottom,
            rect_extent_fits(rect),
        ensures
            final(self)@ == (GfxClientView { events: final(self)@.events, ..old(self)@ }),
            avc420_outcome(
                old(self)@,
                surface_id,
                rect,
                surface_width,
                surface_height,
                bitmap_data@,
                r,
                final(self)@.events,
            ),
    {
        let stream = match Avc420BitmapStream::decode(bitmap_data) {
            Ok(s) => s,
            Err(e) => {
                return Err(GfxError::Decode(e));
            },
        };
        if self.h264_decoder.is_none() {
            return Ok(WireToSurfaceOutcome::Done);
        }
        self.events = Ghost(self.events@.push(ClientEvent::Decode(stream.data@)));
        let frame = match &mut self.h264_decoder {
            None => {
                return Ok(WireToSurfaceOutcome::Done);
            },
            Some(decoder) => match decoder.decode(stream.data) {
                Ok(f) => f,
                Err(e) => {
                    return Err(GfxError::H264(e));
                },
            },
        };
        let update = match avc420_update(surface_id, rect, surface_width, surface_height, &frame) {
            Ok(u) => u,
            Err(e) => {
                return Err(e);
            },
        };
        let ghost px = update.data@;
        assert(avc420_update_of(frame, rect) == Some(px));
        self.events = Ghost(self.events@.push(ClientEvent::BitmapUpdated(update@)));
        self.handler.on_bitmap_updated(update);
        Ok(WireToSurfaceOutcome::Done)
    }

    /// Decodes an AVC444 stream: both views are decoded (luma with the main
    /// decoder, chroma with the dedicated one) and reconstructed to YUV
    /// 4:4:4 at the destination size. Skipped without both decoders, for a
    /// single-view update, or when the luma frame does not cover the
    /// destination.
    fn decode_avc444(
        &mut self,
        surface_id: u16,
        rect: InclusiveRectangle,
        surface_width: u16,
        surface_height: u16,
        bitmap_data: &[u8],
        version: ChromaVersion,
    ) -> (r: Result<WireToSurfaceOutcome, GfxError>)
        requires
            rect.left <= rect.right && rect.top <= rect.bottom,
            rect_extent_fits(rect),
            !avc444_split_overruns(bitmap_data@),
        ensures
            final(self)@ == (GfxClientView { events: final(self)@.events, ..old(self)@ }),
            avc444_outcome(
                old(self)@,
                surface_id,
                rect,
                surface_width,
                surface_height,
                bitmap_data@,
                version,
                r,
                final(self)@.events,
            ),
    {
        let stream = match Avc444BitmapStream::decode(bitmap_data) {
            Ok(s) => s,
            Err(e) => {
                return Err(GfxError::Decode(e));
            },
        };
        if self.h264_decoder.is_none() || self.h264_chroma_decoder.is_none() {
            return Ok(WireToSurfaceOutcome::Done);
        }
        let stream2 = match &stream.stream2 {
            Some(s2) => s2,
            None => {
                return Ok(WireToSurfaceOutcome::Done);
            },
        };
        if stream.encoding.bits() != 0 {
            return Ok(WireToSurfaceOutcome::Done);
        }
        self.events = Ghost(self.events@.push(ClientEvent::DecodeYuv(stream.stream1.data@)));
        let main = match &mut self.h264_decoder {
            Some(decoder) => match decoder.decode_yuv(stream.stream1.data) {
                Ok(f) => f,
                Err(e) => {
                    return Err(GfxError::H264(e));
                },
            },
            None => {
                return Ok(WireToSurfaceOutcome::Done);
            },
        };
        self.events = Ghost(self.events@.push(ClientEvent::DecodeChromaYuv(stream2.data@)));
        let aux = match &mut self.h264_chroma_decoder {
            Some(decoder) => match decoder.decode_yuv(stream2.data) {
                Ok(f) => f,
                Err(e) => {
                    return Err(GfxError::H264(e));
                },
            },
            None => {
                return Ok(WireToSurfaceOutcome::Done);
            },
        };
        let dest_width = rect.right - rect.left + 1;
        let dest_height = rect.bottom - rect.top + 1;
        if main.width < dest_width as u32 || main.height < dest_height as u32 {
            return Ok(WireToSurfaceOutcome::Done);
        }
        if !reconstruction_fits(&main, &aux, dest_width as u32, dest_height as u32) {
            return Ok(WireToSurfaceOutcome::Done);
        }
        let frame = reconstruct_yuv444(&main, &aux, version, dest_width as u32, dest_height as u32);
        let pending = PendingAvc444 {
            surface_id,
            destination_rectangle: rect,
            version,
            surface_width,
            surface_height,
            frame,
        };
        assert(is_reconstruction(pending.frame, main, aux, version, pending.frame.width, pending.frame.height));
        assert(main.width >= rect_width(rect) && main.height >= rect_height(rect));
        assert(pending_wf(pending));
        Ok(WireToSurfaceOutcome::Avc444(pending))
    }

    /// Delivers a reconstructed AVC444 frame once its pixels are converted to
    /// RGBA.
    pub fn deliver_avc444(&mut self, pending: PendingAvc444, rgba: Vec<u8>)
        requires
            pending_wf(pending),
        ensures
            final(self)@ == (GfxClientView {
                events: old(self)@.events.push(ClientEvent::BitmapUpdated(avc444_bitmap(pending, rgba@))),
                ..old(self)@
            }),
    {
        let update = avc444_update(pending, rgba);
        self.events = Ghost(self.events@.push(ClientEvent::BitmapUpdated(update@)));
        self.handler.on_bitmap_updated(update);
    }

    /// Processes a `WireToSurface1` message: the surface must exist and the
    /// rectangle be ordered (a rectangle reaching past the surface is still
    /// accepted); AVC420, AVC444 (when its chroma decoder is configured) and
    /// uncompressed bitmaps are decoded, anything else is forwarded to the
    /// handler.
    pub fn handle_wire_to_surface1(&mut self, pdu: WireToSurface1Pdu) -> (r: Result<WireToSurfaceOutcome, GfxError>)
        requires
            wire_to_surface1_safe(old(self)@, pdu),
        ensures
            final(self)@ == (GfxClientView { events: final(self)@.events, ..old(self)@ }),
            wire_to_surface1_outcome(old(self)@, pdu, r, final(self)@.events),
            (r matches Err(GfxError::UnknownSurface)) <==> !old(self)@.surfaces.contains_key(pdu.surface_id),
            (r matches Err(GfxError::InvalidRectangleOrdering)) <==> old(self)@.surfaces.contains_key(pdu.surface_id)
                && !rect_ordered(pdu.destination_rectangle),
    {
        let (surface_width, surface_height) = match self.surfaces.get(&pdu.surface_id) {
            Some(s) => (s.width, s.height),
            None => {
                return Err(GfxError::UnknownSurface);
            },
        };
        let rect = pdu.destination_rectangle;
        if rect.left > rect.right || rect.top > rect.bottom {
            return Err(GfxError::InvalidRectangleOrdering);
        }
        match pdu.codec_id {
            Codec1Type::Avc420 => {
                self.decode_avc420(pdu.surface_id, rect, surface_width, surface_height, pdu.bitmap_data.as_slice())
            },
            Codec1Type::Avc444 | Codec1Type::Avc444v2 => {
                if self.h264_chroma_decoder.is_some() {
                    let version = if pdu.codec_id == Codec1Type::Avc444v2 {
                        ChromaVersion::V2
                    } else {
                        ChromaVersion::V1
                    };
                    self.decode_avc444(
                        pdu.surface_id,
                        rect,
                        surface_width,
                        surface_height,
                        pdu.bitmap_data.as_slice(),
                        version,
                    )
                } else {
                    self.events = Ghost(self.events@.push(ClientEvent::Unhandled(GfxPdu::WireToSurface1(pdu))));
                    self.handler.on_unhandled_pdu(&GfxPdu::WireToSurface1(pdu));
                    Ok(WireToSurfaceOutcome::Done)
                }
            },
            Codec1Type::Uncompressed => {
                let update = uncompressed_update(pdu, surface_width, surface_height);
                self.events = Ghost(self.events@.push(ClientEvent::BitmapUpdated(update@)));
                self.handler.on_bitmap_updated(update);
                Ok(WireToSurfaceOutcome::Done)
            },
            _ => {
                self.events = Ghost(self.events@.push(ClientEvent::Unhandled(GfxPdu::WireToSurface1(pdu))));
                self.handler.on_unhandled_pdu(&GfxPdu::WireToSurface1(pdu));
                Ok(WireToSurfaceOutcome::Done)
            },
        }
    }

    /// Processes one message. Returns the messages to send back (a frame
    /// acknowledgement after an end of frame) and, for an AVC444 bitmap, the
    /// frame that waits for its color conversion.
    pub fn handle_pdu(&mut self, pdu: GfxPdu) -> (r: Result<(Vec<GfxPdu>, Option<PendingAvc444>), GfxError>)
        requires
            pdu matches GfxPdu::WireToSurface1(w) ==> wire_to_surface1_safe(old(self)@, w),
        ensures
            match pdu {
                GfxPdu::CapabilitiesConfirm(cap) => final(self)@ == (GfxClientView {
                    state: ClientState::Active,
                    negotiated_caps: Some(cap),
                    codec_caps: codec_caps_of(cap),
                    events: old(self)@.events.push(ClientEvent::CapabilitiesConfirmed(cap)),
                    ..old(self)@
                }),
                GfxPdu::ResetGraphics { width, height, .. } => final(self)@ == (GfxClientView {
                    surfaces: Map::empty(),
                    current_frame_id: None,
                    frames_queued: 0,
                    progressive: Map::empty(),
                    events: reset_events(old(self)@, width, height),
                    ..old(self)@
                }),
                GfxPdu::CreateSurface { surface_id, width, height, pixel_format } => if width == 0 || height
                    == 0 {
                    final(self)@ == old(self)@
                } else {
                    let surface = Surface {
                        id: surface_id,
                        width,
                        height,
                        pixel_format,
                        is_mapped: false,
                        output_origin_x: 0,
                        output_origin_y: 0,
                    };
                    final(self)@ == (GfxClientView {
                        surfaces: old(self)@.surfaces.insert(surface_id, surface),
                        events: old(self)@.events.push(ClientEvent::SurfaceCreated(surface)),
                        ..old(self)@
                    })
                },
                GfxPdu::DeleteSurface { surface_id } => if old(self)@.surfaces.contains_key(surface_id) {
                    final(self)@ == (GfxClientView {
                        surfaces: old(self)@.surfaces.remove(surface_id),
                        events: old(self)@.events.push(ClientEvent::SurfaceDeleted(surface_id)),
                        ..old(self)@
                    })
                } else {
                    final(self)@ == old(self)@
                },
                GfxPdu::MapSurfaceToOutput { surface_id, output_origin_x, output_origin_y } => if old(
                    self,
                )@.surfaces.contains_key(surface_id) {
                    final(self)@ == (GfxClientView {
                        surfaces: old(self)@.surfaces.insert(
                            surface_id,
                            Surface {
                                is_mapped: true,
                                output_origin_x,
                                output_origin_y,
                                ..old(self)@.surfaces[surface_id]
                            },
                        ),
                        events: old(self)@.events.push(
                            ClientEvent::SurfaceMapped { surface_id, origin_x: output_origin_x, origin_y: output_origin_y },
                        ),
                        ..old(self)@
                    })
                } else {
                    final(self)@ == old(self)@
                },
                GfxPdu::StartFrame { frame_id } => final(self)@ == with_frames(
                    old(self)@,
                    Some(frame_id),
                    sat_inc(old(self)@.frames_queued),
                    old(self)@.total_frames_decoded,
                ),
                GfxPdu::EndFrame { frame_id } => final(self)@ == (GfxClientView {
                    current_frame_id: None,
                    frames_queued: sat_dec(old(self)@.frames_queued),
                    total_frames_decoded: wrap_inc(old(self)@.total_frames_decoded),
                    events: old(self)@.events.push(ClientEvent::FrameComplete(frame_id)),
                    ..old(self)@
                }) && (r matches Ok((out, None)) && out@ == seq![
                    GfxPdu::FrameAcknowledge(
                        FrameAcknowledgePdu {
                            queue_depth: queue_depth_of(sat_dec(old(self)@.frames_queued)),
                            frame_id,
                            total_frames_decoded: wrap_inc(old(self)@.total_frames_decoded),
                        },
                    ),
                ]),
                GfxPdu::WireToSurface1(w) => {
                    &&& final(self)@ == (GfxClientView { events: final(self)@.events, ..old(self)@ })
                    &&& wire_to_surface1_outcome(old(self)@, w, as_wire_outcome(r), final(self)@.events)
                },
                GfxPdu::SolidFill(_) | GfxPdu::SurfaceToSurface(_) | GfxPdu::SurfaceToCache(_)
                | GfxPdu::CacheToSurface(_) | GfxPdu::EvictCacheEntry(_) | GfxPdu::CacheImportReply(_)
                | GfxPdu::MapSurfaceToWindow(_) | GfxPdu::MapSurfaceToScaledOutput(_)
                | GfxPdu::MapSurfaceToScaledWindow(_) | GfxPdu::DeleteEncodingContext(_) => final(self)@ == (
                GfxClientView { events: old(self)@.events.push(ClientEvent::Notified(pdu)), ..old(self)@ }),
                GfxPdu::CapabilitiesAdvertise(_) | GfxPdu::FrameAcknowledge(_) => final(self)@ == (GfxClientView {
                    events: old(self)@.events.push(ClientEvent::Unhandled(pdu)),
                    ..old(self)@
                }),
            },
            !(pdu is WireToSurface1) ==> r is Ok,
            !(pdu is EndFrame) && r is Ok ==> r->Ok_0.0@.len() == 0,
            !(pdu is WireToSurface1) && r is Ok ==> r->Ok_0.1 is None,
            r matches Ok((_, Some(p))) ==> pending_wf(p),
    {
        match pdu {
            GfxPdu::CapabilitiesConfirm(cap) => {
                self.handle_capabilities_confirm(cap);
                Ok((Vec::new(), None))
            },
            GfxPdu::ResetGraphics { width, height, monitors: _ } => {
                self.handle_reset_graphics(width, height);
                Ok((Vec::new(), None))
            },
            GfxPdu::CreateSurface { surface_id, width, height, pixel_format } => {
                self.handle_create_surface(surface_id, width, height, pixel_format);
                Ok((Vec::new(), None))
            },
            GfxPdu::DeleteSurface { surface_id } => {
                self.handle_delete_surface(surface_id);
                Ok((Vec::new(), None))
            },
            GfxPdu::MapSurfaceToOutput { surface_id, output_origin_x, output_origin_y } => {
                self.handle_map_surface(surface_id, output_origin_x, output_origin_y);
                Ok((Vec::new(), None))
            },
            GfxPdu::StartFrame { frame_id } => {
                self.handle_start_frame(frame_id);
                Ok((Vec::new(), None))
            },
            GfxPdu::EndFrame { frame_id } => {
                let ack = self.handle_end_frame(frame_id);
                let mut out = Vec::new();
                out.push(GfxPdu::FrameAcknowledge(ack));
                Ok((out, None))
            },
            GfxPdu::WireToSurface1(wire) => {
                match self.handle_wire_to_surface1(wire) {
                    Ok(WireToSurfaceOutcome::Done) => Ok((Vec::new(), None)),
                    Ok(WireToSurfaceOutcome::Avc444(p)) => Ok((Vec::new(), Some(p))),
                    Err(e) => Err(e),
                }
            },
            GfxPdu::SolidFill(p) => {
                self.events = Ghost(self.events@.push(ClientEvent::Notified(GfxPdu::SolidFill(p))));
                self.handler.on_solid_fill(&p);
                Ok((Vec::new(), None))
            },
            GfxPdu::SurfaceToSurface(p) => {
                self.events = Ghost(self.events@.push(ClientEvent::Notified(GfxPdu::SurfaceToSurface(p))));
                self.handler.on_surface_to_surface(&p);
                Ok((Vec::new(), None))
            },
            GfxPdu::SurfaceToCache(p) => {
                self.events = Ghost(self.events@.push(ClientEvent::Notified(GfxPdu::SurfaceToCache(p))));
                self.handler.on_surface_to_cache(&p);
                Ok((Vec::new(), None))
            },
            GfxPdu::CacheToSurface(p) => {
                self.events = Ghost(self.events@.push(ClientEvent::Notified(GfxPdu::CacheToSurface(p))));
                self.handler.on_cache_to_surface(&p);
                Ok((Vec::new(), None))
            },
            GfxPdu::EvictCacheEntry(p) => {
                self.events = Ghost(self.events@.push(ClientEvent::Notified(GfxPdu::EvictCacheEntry(p))));
                self.handler.on_evict_cache_entry(&p);
                Ok((Vec::new(), None))
            },
            GfxPdu::CacheImportReply(p) => {
                self.events = Ghost(self.events@.push(ClientEvent::Notified(GfxPdu::CacheImportReply(p))));
                self.handler.on_cache_import_reply(&p);
                Ok((Vec::new(), None))
            },
            GfxPdu::MapSurfaceToWindow(p) => {
                self.events = Ghost(self.events@.push(ClientEvent::Notified(GfxPdu::MapSurfaceToWindow(p))));
                self.handler.on_map_surface_to_window(&p);
                Ok((Vec::new(), None))
            },
            GfxPdu::MapSurfaceToScaledOutput(p) => {
                self.events = Ghost(self.events@.push(ClientEvent::Notified(GfxPdu::MapSurfaceToScaledOutput(p))));
                self.handler.on_map_surface_to_scaled_output(&p);
                Ok((Vec::new(), None))
            },
            GfxPdu::MapSurfaceToScaledWindow(p) => {
                self.events = Ghost(self.events@.push(ClientEvent::Notified(GfxPdu::MapSurfaceToScaledWindow(p))));
                self.handler.on_map_surface_to_scaled_window(&p);
                Ok((Vec::new(), None))
            },
            GfxPdu::DeleteEncodingContext(p) => {
                self.events = Ghost(self.events@.push(ClientEvent::Notified(GfxPdu::DeleteEncodingContext(p))));
                self.handler.on_delete_encoding_context(&p);
                Ok((Vec::new(), None))
            },
            other => {
                self.events = Ghost(self.events@.push(ClientEvent::Unhandled(other)));
                self.handler.on_unhandled_pdu(&other);
                Ok((Vec::new(), None))
            },
        }
    }

    /// Composites the tiles that the progressive decoder produced for a
    /// surface into the surface's persistent framebuffer (made opaque black
    /// the first time), and returns the changed region, cropped out of it,
    /// as an uncompressed bitmap update. Unknown surfaces and empty tile
    /// lists change nothing; a region that lies wholly outside the surface
    /// gives no update.
    pub fn composite_progressive_tiles(&mut self, surface_id: u16, tiles: &Vec<DecodedTile>) -> (r: Option<
        BitmapUpdate,
    >)
        requires
            old(self)@.surfaces.contains_key(surface_id) ==> ({
                let s = old(self)@.surfaces[surface_id];
                s.height * s.width * 4 <= usize::MAX
            }),
        ensures
            !old(self)@.surfaces.contains_key(surface_id) || tiles@.len() == 0 ==> r is None && final(self)@
                == old(self)@,
            old(self)@.surfaces.contains_key(surface_id) && tiles@.len() > 0 ==> ({
                let s = old(self)@.surfaces[surface_id];
                let (w, h) = (s.width as int, s.height as int);
                let fb = blit_tiles(progressive_base(old(self)@, surface_id, w, h), tiles@, w, h);
                &&& final(self)@ == (GfxClientView { progressive: final(self)@.progressive, ..old(self)@ })
                &&& final(self)@.progressive.dom() == old(self)@.progressive.dom().insert(surface_id)
                &&& final(self)@.progressive[surface_id]@ == fb
                &&& forall|k: u16|
                    k != surface_id && #[trigger] old(self)@.progressive.contains_key(k)
                        ==> final(self)@.progressive[k] == old(self)@.progressive[k]
                &&& match changed_region(tiles@, w, h) {
                    None => r is None,
                    Some((x0, y0, x1, y1)) => r matches Some(u) && {
                        &&& u.surface_id == surface_id
                        &&& u.destination_rectangle == (InclusiveRectangle {
                            left: x0 as u16,
                            top: y0 as u16,
                            right: (x1 - 1) as u16,
                            bottom: (y1 - 1) as u16,
                        })
                        &&& u.codec_id == Codec1Type::Uncompressed
                        &&& u.width == x1 - x0
                        &&& u.height == y1 - y0
                        &&& u.surface_width == s.width
                        &&& u.surface_height == s.height
                        &&& u.data@ == region_rows(fb, w, x0, y0, x1 - x0, y1 - y0)
                    },
                }
            }),
    {
        let (width16, height16) = match self.surfaces.get(&surface_id) {
            Some(s) => (s.width, s.height),
            None => {
                return None;
            },
        };
        if tiles.len() == 0 {
            return None;
        }
        let width = width16 as usize;
        let height = height16 as usize;
        let ghost v0 = self@;
        let mut fb = match self.progressive_framebuffers.remove(&surface_id) {
            Some(fb) => fb,
            None => {
                proof {
                    assert(width * height * 4 <= usize::MAX) by (nonlinear_arith)
                        requires
                            height * width * 4 <= usize::MAX,
                    ;
                }
                opaque_black_buffer(width * height * 4)
            },
        };
        assert(fb@ == progressive_base(v0, surface_id, width as int, height as int));
        let mut min_x: usize = usize::MAX;
        let mut min_y: usize = usize::MAX;
        let mut max_x: usize = 0;
        let mut max_y: usize = 0;
        let n = tiles.len();
        let mut i: usize = 0;
        assert(tiles@.take(0) =~= Seq::<DecodedTile>::empty());
        while i < n
            invariant
                n == tiles@.len(),
                i <= n,
                width == width16 as usize,
                height == height16 as usize,
                height * width * 4 <= usize::MAX,
                fb@ == blit_tiles(progressive_base(v0, surface_id, width as int, height as int), tiles@.take(i as int), width as int, height as int),
                (min_x as int, min_y as int, max_x as int, max_y as int) == tiles_bbox(tiles@.take(i as int), width as int, height as int),
                max_x <= width,
                max_y <= height,
            decreases n - i,
        {
            let tile = &tiles[i];
            assert(tiles@.take(i + 1).drop_last() =~= tiles@.take(i as int));
            assert(tiles@.take(i + 1).last() == tiles@[i as int]);
            let tx = (tile.x_idx as usize) * 64;
            let ty = (tile.y_idx as usize) * 64;
            blit_tile(&tile.pixels, &mut fb, width, height, tx, ty);
            if tx < min_x {
                min_x = tx;
            }
            if ty < min_y {
                min_y = ty;
            }
            let right = if tx + 64 < width { tx + 64 } else { width };
            let bottom = if ty + 64 < height { ty + 64 } else { height };
            if right > max_x {
                max_x = right;
            }
            if bottom > max_y {
                max_y = bottom;
            }
            i = i + 1;
        }
        assert(tiles@.take(n as int) =~= tiles@);
        if min_x > width {
            min_x = width;
        }
        if min_y > height {
            min_y = height;
        }
        if min_x >= max_x || min_y >= max_y {
            self.progressive_framebuffers.insert(surface_id, fb);
            assert(self@.progressive =~= v0.progressive.insert(surface_id, self@.progressive[surface_id]));
            return None;
        }
        let bbox_w = max_x - min_x;
        let bbox_h = max_y - min_y;
        proof {
            assert(((min_y + bbox_h - 1) * width + min_x + bbox_w) * 4 <= height * width * 4)
                by (nonlinear_arith)
                requires
                    min_y + bbox_h <= height,
                    min_x + bbox_w <= width,
                    bbox_h >= 1,
            ;
            assert(bbox_w * bbox_h * 4 <= height * width * 4) by (nonlinear_arith)
                requires
                    bbox_w <= width,
                    bbox_h <= height,
            ;
        }
        let data = crop_region(fb.as_slice(), width, min_x, min_y, bbox_w, bbox_h);
        self.progressive_framebuffers.insert(surface_id, fb);
        assert(self@.progressive =~= v0.progressive.insert(surface_id, self@.progressive[surface_id]));
        Some(
            BitmapUpdate {
                surface_id,
                destination_rectangle: InclusiveRectangle {
                    left: min_x as u16,
                    top: min_y as u16,
                    right: (max_x - 1) as u16,
                    bottom: (max_y - 1) as u16,
                },
                codec_id: Codec1Type::Uncompressed,
                data,
                width: bbox_w as u16,
                height: bbox_h as u16,
                surface_width: width16,
                surface_height: height16,
            },
        )
    }

    /// The channel closed: the client stops and tells the handler.
    pub fn close(&mut self)
        ensures
            final(self)@ == (GfxClientView {
                state: ClientState::Closed,
                events: old(self)@.events.push(ClientEvent::Closed),
                ..old(self)@
            }),
    {
        self.state = ClientState::Closed;
        self.events = Ghost(self.events@.push(ClientEvent::Closed));
        self.handler.on_close();
    }
}

/// A start of frame followed by its end leaves as many frames queued as
/// before (below the saturation point) and counts one more frame decoded.
pub proof fn lemma_start_then_end_frame(queued: u32, total: u32)
    requires
        queued < u32::MAX,
    ensures
        sat_dec(sat_inc(queued)) == queued,
        wrap_inc(total) == (if total == u32::MAX { 0 } else { total + 1 }),
{
}

/// Whether the extents of `rect` fit a `u16`: see [`rect_extent_fits`].
pub fn rect_extent_fits_check(rect: &InclusiveRectangle) -> (r: bool)
    ensures
        r == rect_extent_fits(*rect),
{
    let width_fits = rect.left > rect.right || (rect.right as u32) - (rect.left as u32) + 1 <= 65535;
    let height_fits = rect.top > rect.bottom || (rect.bottom as u32) - (rect.top as u32) + 1 <= 65535;
    width_fits && height_fits
}

/// Whether an AVC444 bitmap announces a first stream longer than the data
/// that follows its header: see [`avc444_split_overruns`].
pub fn avc444_split_overruns_check(data: &[u8]) -> (r: bool)
    ensures
        r == avc444_split_overruns(data@),
{
    if data.len() < 4 {
        return false;
    }
    let info = read_u32_le(data, 0);
    let len1 = info % 1073741824;
    let encoding = info / 1073741824;
    encoding <= 2 && len1 != 0 && (len1 as usize) > data.len() - 4
}

/// Both decoded views are small enough for the reconstruction's indexing.
pub fn reconstruction_fits(main: &Yuv420Frame, aux: &Yuv420Frame, w: u32, h: u32) -> (r: bool)
    ensures
        r == (pixel_count(w, h) <= usize::MAX && view_indices_fit(*main, w as int, h as int) && view_indices_fit(
            *aux,
            w as int,
            h as int,
        )),
{
    let wu = w as u128;
    let hu = h as u128;
    let mw = main.width as u128;
    let aw = aux.width as u128;
    assert(wu * hu <= 0xFFFF_FFFF_FFFF_FFFF_FFFF_FFFF && (hu + 16) * mw <= 0xFFFF_FFFF_FFFF_FFFF_FFFF_FFFF
        && (hu + 16) * aw <= 0xFFFF_FFFF_FFFF_FFFF_FFFF_FFFF) by (nonlinear_arith)
        requires
            wu <= 0xFFFF_FFFF,
            hu <= 0xFFFF_FFFF,
            mw <= 0xFFFF_FFFF,
            aw <= 0xFFFF_FFFF,
    ;
    let n = wu * hu;
    let limit = usize::MAX as u128;
    n <= limit && (hu + 16) * mw + mw + wu <= limit && (hu + 16) * aw + aw + wu <= limit
}

/// A pending frame as the client produces it: an ordered destination
/// rectangle whose extents fit a `u16`, and a frame of its size.
pub open spec fn pending_wf(p: PendingAvc444) -> bool {
    &&& p.destination_rectangle.left <= p.destination_rectangle.right
    &&& p.destination_rectangle.top <= p.destination_rectangle.bottom
    &&& rect_extent_fits(p.destination_rectangle)
    &&& p.frame.width == rect_width(p.destination_rectangle)
    &&& p.frame.height == rect_height(p.destination_rectangle)
}

/// Whether `p` is a pending frame as the client produces it: see
/// [`pending_wf`].
pub fn pending_is_wf(p: &PendingAvc444) -> (r: bool)
    ensures
        r == pending_wf(*p),
{
    let rect = p.destination_rectangle;
    if rect.left > rect.right || rect.top > rect.bottom {
        return false;
    }
    let w = (rect.right as u32) - (rect.left as u32) + 1;
    let h = (rect.bottom as u32) - (rect.top as u32) + 1;
    w <= 65535 && h <= 65535 && p.frame.width == w && p.frame.height == h
}

/// The update for a reconstructed AVC444 frame whose pixels were converted
/// to `rgba`.
pub fn avc444_update(pending: PendingAvc444, rgba: Vec<u8>) -> (r: BitmapUpdate)
    requires
        pending_wf(pending),
    ensures
        r@ == avc444_bitmap(pending, rgba@),
{
    let codec_id = match pending.version {
        ChromaVersion::V2 => Codec1Type::Avc444v2,
        ChromaVersion::V1 => Codec1Type::Avc444,
    };
    BitmapUpdate {
        surface_id: pending.surface_id,
        destination_rectangle: pending.destination_rectangle,
        codec_id,
        data: rgba,
        width: pending.destination_rectangle.right - pending.destination_rectangle.left + 1,
        height: pending.destination_rectangle.bottom - pending.destination_rectangle.top + 1,
        surface_width: pending.surface_width,
        surface_height: pending.surface_height,
    }
}

/// The update for an uncompressed bitmap: its BGRX pixels as RGBA.
pub fn uncompressed_update(pdu: WireToSurface1Pdu, surface_width: u16, surface_height: u16) -> (r: BitmapUpdate)
    requires
        pdu.destination_rectangle.left <= pdu.destination_rectangle.right,
        pdu.destination_rectangle.top <= pdu.destination_rectangle.bottom,
        rect_extent_fits(pdu.destination_rectangle),
    ensures
        r@ == uncompressed_bitmap(pdu, surface_width, surface_height),
{
    let rect = pdu.destination_rectangle;
    let data = convert_uncompressed_to_rgba(pdu.bitmap_data.as_slice());
    BitmapUpdate {
        surface_id: pdu.surface_id,
        destination_rectangle: rect,
        codec_id: Codec1Type::Uncompressed,
        data,
        width: rect.right - rect.left + 1,
        height: rect.bottom - rect.top + 1,
        surface_width,
        surface_height,
    }
}

} // verus!
