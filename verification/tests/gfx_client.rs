use std::cell::RefCell;
use std::rc::Rc;

use rdpkit::avc::{encode_avc420_bitmap_stream, Avc420Region, InclusiveRectangle};
use rdpkit::gfx::caps::{CapabilitySet, CodecCapabilities};
use rdpkit::gfx::client::{
    pending_is_wf, BitmapUpdate, CacheImportReplyPdu, Color, DeleteEncodingContextPdu, EvictCacheEntryPdu,
    SolidFillPdu, ClientState, Codec1Type, DecodedTile, FrameAcknowledgePdu, GfxError,
    GfxPdu, GraphicsPipelineClient, GraphicsPipelineHandler, Monitor, PendingAvc444, PixelFormat, QueueDepth, WireToSurface1Pdu,
};
use rdpkit::avc444::{ChromaVersion, Yuv444Frame};
use rdpkit::yuv::{DecodedFrame, DecoderError, H264Decoder};

#[derive(Default)]
struct Log {
    updates: Vec<(u16, u16, u16, Codec1Type, Vec<u8>)>,
    created: Vec<u16>,
    deleted: Vec<u16>,
    completed: Vec<u32>,
    unhandled: usize,
    resets: Vec<(u32, u32)>,
    notified: Vec<&'static str>,
}

struct TestHandler(Rc<RefCell<Log>>);

impl GraphicsPipelineHandler for TestHandler {
    fn on_reset_graphics(&mut self, width: u32, height: u32) {
        self.0.borrow_mut().resets.push((width, height));
    }
    fn on_surface_created(&mut self, surface: &rdpkit::gfx::client::Surface) {
        self.0.borrow_mut().created.push(surface.id);
    }
    fn on_surface_deleted(&mut self, surface_id: u16) {
        self.0.borrow_mut().deleted.push(surface_id);
    }
    fn on_bitmap_updated(&mut self, update: BitmapUpdate) {
        self.0.borrow_mut().updates.push((update.surface_id, update.width, update.height, update.codec_id, update.data));
    }
    fn on_frame_complete(&mut self, frame_id: u32) {
        self.0.borrow_mut().completed.push(frame_id);
    }
    fn on_solid_fill(&mut self, pdu: &SolidFillPdu) {
        assert_eq!(pdu.rectangles.len(), 1);
        self.0.borrow_mut().notified.push("solid_fill");
    }
    fn on_evict_cache_entry(&mut self, pdu: &EvictCacheEntryPdu) {
        assert_eq!(pdu.cache_slot, 9);
        self.0.borrow_mut().notified.push("evict");
    }
    fn on_delete_encoding_context(&mut self, pdu: &DeleteEncodingContextPdu) {
        assert_eq!(pdu.codec_context_id, 3);
        self.0.borrow_mut().notified.push("delete_context");
    }
    fn on_unhandled_pdu(&mut self, _pdu: &GfxPdu) {
        self.0.borrow_mut().unhandled += 1;
    }
}

/// Decodes every stream to a 16x16 frame whose bytes are their own index.
struct FixedDecoder;

impl H264Decoder for FixedDecoder {
    fn decode(&mut self, _data: &[u8]) -> Result<DecodedFrame, DecoderError> {
        Ok(DecodedFrame { data: (0..16 * 16 * 4).map(|i| (i % 251) as u8).collect(), width: 16, height: 16 })
    }
}

fn client(with_decoder: bool) -> (GraphicsPipelineClient<TestHandler, FixedDecoder>, Rc<RefCell<Log>>) {
    let log = Rc::new(RefCell::new(Log::default()));
    let decoder = if with_decoder { Some(FixedDecoder) } else { None };
    (GraphicsPipelineClient::new(TestHandler(Rc::clone(&log)), decoder), log)
}

fn wire(surface_id: u16, codec_id: Codec1Type, rect: InclusiveRectangle, data: Vec<u8>) -> GfxPdu {
    GfxPdu::WireToSurface1(WireToSurface1Pdu {
        surface_id,
        codec_id,
        pixel_format: PixelFormat::XRgb,
        destination_rectangle: rect,
        bitmap_data: data,
    })
}

#[test]
fn state_transitions() {
    let (mut c, _) = client(false);
    assert_eq!(c.state(), ClientState::WaitingForConfirm);
    assert!(!c.is_active());
    c.handle_pdu(GfxPdu::CapabilitiesConfirm(CapabilitySet::V8 { flags: 0 })).expect("confirm");
    assert_eq!(c.state(), ClientState::Active);
    assert!(c.is_active());
    c.close();
    assert_eq!(c.state(), ClientState::Closed);
    assert!(!c.is_active());
}

#[test]
fn capabilities_confirm_records_the_set() {
    let (mut c, _) = client(true);
    c.handle_pdu(GfxPdu::CapabilitiesConfirm(CapabilitySet::V10_7 { flags: 0x2 })).expect("confirm");
    assert_eq!(c.negotiated_capabilities(), Some(&CapabilitySet::V10_7 { flags: 0x2 }));
    assert!(c.codec_capabilities().avc420 && c.codec_capabilities().avc444);
}

#[test]
fn reset_graphics_clears_surfaces_and_frame_tracking() {
    let (mut c, log) = client(false);
    let _ = c.handle_pdu(GfxPdu::CreateSurface { surface_id: 1, width: 100, height: 100, pixel_format: PixelFormat::XRgb });
    assert_eq!(c.surface_count(), 1);

    let _ = c.handle_pdu(GfxPdu::StartFrame { frame_id: 42 });
    assert!(c.current_frame_id().is_some());
    assert_eq!(c.frames_queued(), 1);

    let r = c.handle_pdu(GfxPdu::ResetGraphics { width: 1920, height: 1080, monitors: vec![] });
    assert!(matches!(r, Ok((ref out, None)) if out.is_empty()));

    assert_eq!(c.surface_count(), 0, "surfaces should be cleared");
    assert!(c.current_frame_id().is_none(), "frame_id should be reset");
    assert_eq!(c.frames_queued(), 0, "frame queue should be reset");
    assert_eq!(log.borrow().resets, vec![(1920, 1080)]);
}

#[test]
fn reset_graphics_keeps_negotiated_capabilities() {
    let (mut c, _) = client(true);
    c.handle_pdu(GfxPdu::CapabilitiesConfirm(CapabilitySet::V10_7 { flags: 0x2 })).expect("confirm");
    c.handle_pdu(GfxPdu::CreateSurface { surface_id: 1, width: 64, height: 64, pixel_format: PixelFormat::XRgb })
        .expect("create");
    c.handle_pdu(GfxPdu::StartFrame { frame_id: 1 }).expect("start");
    let monitor = Monitor { left: 0, top: 0, right: 799, bottom: 599, flags: 1 };
    c.handle_pdu(GfxPdu::ResetGraphics { width: 800, height: 600, monitors: vec![monitor] }).expect("reset");
    assert!(c.get_surface(1).is_none());
    assert!(c.is_active());
    assert_eq!(c.negotiated_capabilities(), Some(&CapabilitySet::V10_7 { flags: 0x2 }));
    let (out, _) = c.handle_pdu(GfxPdu::EndFrame { frame_id: 1 }).expect("end");
    assert!(matches!(
        out.as_slice(),
        [GfxPdu::FrameAcknowledge(FrameAcknowledgePdu { queue_depth: QueueDepth::Unavailable, frame_id: 1, total_frames_decoded: 1 })]
    ));
}

#[test]
fn surfaces_are_created_mapped_and_deleted() {
    let (mut c, log) = client(false);
    c.handle_pdu(GfxPdu::CreateSurface { surface_id: 2, width: 0, height: 10, pixel_format: PixelFormat::ARgb })
        .expect("create");
    assert!(c.get_surface(2).is_none(), "zero-sized surfaces are ignored");
    c.handle_pdu(GfxPdu::CreateSurface { surface_id: 2, width: 10, height: 10, pixel_format: PixelFormat::ARgb })
        .expect("create");
    c.handle_pdu(GfxPdu::MapSurfaceToOutput { surface_id: 2, output_origin_x: 5, output_origin_y: 6 }).expect("map");
    let s = *c.get_surface(2).expect("surface");
    assert!(s.is_mapped);
    assert_eq!((s.output_origin_x, s.output_origin_y), (5, 6));
    c.handle_pdu(GfxPdu::DeleteSurface { surface_id: 2 }).expect("delete");
    c.handle_pdu(GfxPdu::DeleteSurface { surface_id: 2 }).expect("delete again");
    assert!(c.get_surface(2).is_none());
    assert_eq!(log.borrow().deleted, vec![2]);
}

#[test]
fn frames_are_acknowledged_with_queue_depth() {
    let (mut c, log) = client(false);
    c.handle_pdu(GfxPdu::StartFrame { frame_id: 7 }).expect("start");
    c.handle_pdu(GfxPdu::StartFrame { frame_id: 8 }).expect("start");
    let (out, _) = c.handle_pdu(GfxPdu::EndFrame { frame_id: 7 }).expect("end");
    assert!(matches!(
        out.as_slice(),
        [GfxPdu::FrameAcknowledge(FrameAcknowledgePdu { queue_depth: QueueDepth::AvailableBytes(1), frame_id: 7, total_frames_decoded: 1 })]
    ));
    assert_eq!(c.total_frames_decoded(), 1);
    assert_eq!(log.borrow().completed, vec![7]);
}

#[test]
fn avc420_bitmap_is_decoded_and_cropped() {
    let (mut c, log) = client(true);
    c.handle_pdu(GfxPdu::CreateSurface { surface_id: 1, width: 100, height: 100, pixel_format: PixelFormat::XRgb })
        .expect("create");
    let rect = InclusiveRectangle { left: 10, top: 10, right: 12, bottom: 11 };
    let region = Avc420Region::new(0, 0, 2, 1, 22, 100);
    let stream = encode_avc420_bitmap_stream(&[region], &[0, 0, 0, 1, 0x65]);
    c.handle_pdu(wire(1, Codec1Type::Avc420, rect, stream)).expect("wire");
    let log = log.borrow();
    assert_eq!(log.updates.len(), 1);
    let (sid, w, h, codec, data) = &log.updates[0];
    assert_eq!((*sid, *w, *h, *codec), (1, 3, 2, Codec1Type::Avc420));
    assert_eq!(data.len(), 3 * 2 * 4);
    assert_eq!(&data[12..16], &[64, 65, 66, 67]);
}

#[test]
fn wire_to_surface_errors() {
    let (mut c, log) = client(false);
    let rect = InclusiveRectangle { left: 0, top: 0, right: 0, bottom: 0 };
    assert!(matches!(c.handle_pdu(wire(9, Codec1Type::Avc420, rect, vec![])), Err(GfxError::UnknownSurface)));
    c.handle_pdu(GfxPdu::CreateSurface { surface_id: 9, width: 4, height: 4, pixel_format: PixelFormat::XRgb })
        .expect("create");
    let bad = InclusiveRectangle { left: 2, top: 0, right: 1, bottom: 0 };
    assert!(matches!(
        c.handle_pdu(wire(9, Codec1Type::Avc420, bad, vec![])),
        Err(GfxError::InvalidRectangleOrdering)
    ));
    assert!(matches!(c.handle_pdu(wire(9, Codec1Type::Avc420, rect, vec![1])), Err(GfxError::Decode(_))));
    // Without a decoder a valid AVC420 stream is skipped.
    let stream = encode_avc420_bitmap_stream(&[Avc420Region::new(0, 0, 0, 0, 22, 100)], &[]);
    c.handle_pdu(wire(9, Codec1Type::Avc420, rect, stream)).expect("skipped");
    // Other codecs go to the handler.
    c.handle_pdu(wire(9, Codec1Type::Planar, rect, vec![])).expect("forwarded");
    c.handle_pdu(wire(9, Codec1Type::Avc444, rect, vec![])).expect("forwarded");
    assert_eq!(log.borrow().unhandled, 2);
    assert!(log.borrow().updates.is_empty());
}

#[test]
fn uncompressed_bitmap_is_converted() {
    let (mut c, log) = client(false);
    c.handle_pdu(GfxPdu::CreateSurface { surface_id: 3, width: 8, height: 8, pixel_format: PixelFormat::XRgb })
        .expect("create");
    let rect = InclusiveRectangle { left: 0, top: 0, right: 1, bottom: 0 };
    c.handle_pdu(wire(3, Codec1Type::Uncompressed, rect, vec![1, 2, 3, 4, 5, 6, 7, 8])).expect("wire");
    let log = log.borrow();
    assert_eq!(log.updates[0].4, vec![3, 2, 1, 0xFF, 7, 6, 5, 0xFF]);
    assert_eq!((log.updates[0].1, log.updates[0].2), (2, 1));
}

#[test]
fn rectangle_beyond_surface_is_still_processed() {
    let (mut c, log) = client(false);
    c.handle_pdu(GfxPdu::CreateSurface { surface_id: 3, width: 2, height: 2, pixel_format: PixelFormat::XRgb })
        .expect("create");
    let rect = InclusiveRectangle { left: 1, top: 1, right: 3, bottom: 1 };
    c.handle_pdu(wire(3, Codec1Type::Uncompressed, rect, vec![9; 12])).expect("wire");
    let log = log.borrow();
    assert_eq!(log.updates.len(), 1);
    assert_eq!((log.updates[0].0, log.updates[0].1, log.updates[0].2), (3, 3, 1));
}

#[test]
fn wire_to_surface1_safety_is_checked() {
    let small = InclusiveRectangle { left: 0, top: 0, right: 1, bottom: 1 };
    let wide = InclusiveRectangle { left: 0, top: 0, right: 65535, bottom: 1 };
    let unordered = InclusiveRectangle { left: 65535, top: 0, right: 0, bottom: 1 };
    let pdu = |surface_id, codec_id, destination_rectangle, bitmap_data| WireToSurface1Pdu {
        surface_id,
        codec_id,
        pixel_format: PixelFormat::XRgb,
        destination_rectangle,
        bitmap_data,
    };
    // A first stream of 100 bytes announced in an 8-byte AVC444 bitmap.
    let overrun = vec![100, 0, 0, 0, 1, 2, 3, 4];
    let (mut c, log) = client(true);
    c.handle_pdu(GfxPdu::CreateSurface { surface_id: 1, width: 8, height: 8, pixel_format: PixelFormat::XRgb })
        .expect("create");
    assert!(c.wire_to_surface1_is_safe(&pdu(1, Codec1Type::Uncompressed, small, vec![])));
    assert!(!c.wire_to_surface1_is_safe(&pdu(1, Codec1Type::Uncompressed, wide, vec![])));
    assert!(!c.wire_to_surface1_is_safe(&pdu(1, Codec1Type::Avc420, wide, vec![])));
    // Refused before any arithmetic, or forwarded: always safe.
    assert!(c.wire_to_surface1_is_safe(&pdu(2, Codec1Type::Uncompressed, wide, vec![])));
    assert!(c.wire_to_surface1_is_safe(&pdu(1, Codec1Type::Uncompressed, unordered, vec![])));
    assert!(c.wire_to_surface1_is_safe(&pdu(1, Codec1Type::Planar, wide, overrun.clone())));
    assert!(c.wire_to_surface1_is_safe(&pdu(1, Codec1Type::Avc444, wide, overrun.clone())));
    assert!(matches!(
        c.handle_pdu(GfxPdu::WireToSurface1(pdu(2, Codec1Type::Uncompressed, wide, vec![]))),
        Err(GfxError::UnknownSurface)
    ));
    assert!(matches!(
        c.handle_pdu(GfxPdu::WireToSurface1(pdu(1, Codec1Type::Avc420, unordered, vec![]))),
        Err(GfxError::InvalidRectangleOrdering)
    ));
    c.handle_pdu(GfxPdu::WireToSurface1(pdu(1, Codec1Type::Avc444, wide, overrun.clone()))).expect("forwarded");
    c.handle_pdu(GfxPdu::WireToSurface1(pdu(1, Codec1Type::ClearCodec, wide, vec![]))).expect("forwarded");
    assert_eq!(log.borrow().unhandled, 2);
    // With the chroma decoder the AVC444 stream is split and decoded.
    c.set_avc444_chroma_decoder(FixedDecoder);
    assert!(!c.wire_to_surface1_is_safe(&pdu(1, Codec1Type::Avc444, small, overrun.clone())));
    assert!(!c.wire_to_surface1_is_safe(&pdu(1, Codec1Type::Avc444v2, small, overrun)));
    assert!(c.wire_to_surface1_is_safe(&pdu(1, Codec1Type::Avc444, small, vec![4, 0, 0, 0, 1, 2, 3, 4])));
}

#[test]
fn capabilities_without_decoder_drop_avc_sets() {
    let (mut c, _) = client(false);
    match c.start() {
        GfxPdu::CapabilitiesAdvertise(sets) => assert_eq!(sets, vec![CapabilitySet::V8 { flags: 0x2 }]),
        _ => panic!("expected an advertisement"),
    }
    let (mut c, _) = client(true);
    match c.start() {
        GfxPdu::CapabilitiesAdvertise(sets) => assert_eq!(sets.len(), 3),
        _ => panic!("expected an advertisement"),
    }
}

#[test]
fn codec_capabilities_follow_flags() {
    let caps = CodecCapabilities::from_capability_set(&CapabilitySet::V8_1 { flags: 0x13 });
    assert!(caps.avc420 && !caps.avc444 && caps.small_cache && caps.thin_client);
    let caps = CodecCapabilities::from_capability_set(&CapabilitySet::V10_4 { flags: 0x60 });
    assert!(!caps.avc420 && !caps.avc444 && !caps.small_cache && caps.thin_client);
    let caps = CodecCapabilities::from_capability_set(&CapabilitySet::V10_1);
    assert!(caps.avc420 && caps.avc444);
    let caps = CodecCapabilities::from_capability_set(&CapabilitySet::Unknown { version: 0x1234 });
    assert_eq!(caps, CodecCapabilities::default());
}

fn create(c: &mut GraphicsPipelineClient<TestHandler, FixedDecoder>, id: u16, w: u16, h: u16) {
    c.handle_pdu(GfxPdu::CreateSurface { surface_id: id, width: w, height: h, pixel_format: PixelFormat::XRgb })
        .expect("create");
}

fn tile(x_idx: u16, y_idx: u16, value: u8) -> DecodedTile {
    DecodedTile { x_idx, y_idx, pixels: vec![value; 64 * 64 * 4] }
}

#[test]
fn progressive_tiles_composite_into_black_framebuffer() {
    let (mut c, _) = client(false);
    create(&mut c, 1, 100, 70);
    let u = c.composite_progressive_tiles(1, &vec![tile(1, 0, 7)]).expect("update");
    // The tile covers columns 64..100 (clipped) and rows 0..64.
    assert_eq!(u.destination_rectangle, InclusiveRectangle { left: 64, top: 0, right: 99, bottom: 63 });
    assert_eq!((u.width, u.height), (36, 64));
    assert_eq!((u.surface_width, u.surface_height), (100, 70));
    assert_eq!(u.codec_id, Codec1Type::Uncompressed);
    assert_eq!(u.data.len(), 36 * 64 * 4);
    assert!(u.data.iter().all(|b| *b == 7));

    // A second tile below grows nothing but its own region; the first stays.
    let u = c.composite_progressive_tiles(1, &vec![tile(0, 1, 9), tile(1, 0, 5)]).expect("update");
    assert_eq!(u.destination_rectangle, InclusiveRectangle { left: 0, top: 0, right: 99, bottom: 69 });
    let row = 100 * 4;
    // (0, 0) lies in no tile of either batch: still opaque black.
    assert_eq!(&u.data[0..4], &[0, 0, 0, 255]);
    // (0, 64) was written by the second batch's first tile.
    assert_eq!(u.data[64 * row], 9);
    // (70, 10) was overwritten by the second batch.
    assert_eq!(u.data[10 * row + 70 * 4], 5);
}

#[test]
fn progressive_tiles_unknown_surface_or_none_give_nothing() {
    let (mut c, _) = client(false);
    assert!(c.composite_progressive_tiles(3, &vec![tile(0, 0, 1)]).is_none());
    create(&mut c, 3, 10, 10);
    assert!(c.composite_progressive_tiles(3, &Vec::new()).is_none());
    // A tile entirely outside the surface changes nothing visible.
    assert!(c.composite_progressive_tiles(3, &vec![tile(5, 5, 1)]).is_none());
}

#[test]
fn reset_graphics_drops_progressive_framebuffers() {
    let (mut c, _) = client(false);
    create(&mut c, 1, 64, 64);
    c.composite_progressive_tiles(1, &vec![tile(0, 0, 3)]).expect("update");
    c.handle_pdu(GfxPdu::ResetGraphics { width: 64, height: 64, monitors: vec![] }).expect("reset");
    create(&mut c, 1, 64, 64);
    let u = c.composite_progressive_tiles(1, &vec![tile(5, 5, 1), tile(0, 0, 4)]).expect("update");
    assert!(u.data.iter().all(|b| *b == 4));
}

#[test]
fn pending_frame_shape_is_checked() {
    let frame = |width: u32, height: u32| Yuv444Frame {
        y: vec![0; (width * height) as usize],
        u: vec![128; (width * height) as usize],
        v: vec![128; (width * height) as usize],
        width,
        height,
    };
    let pending = |rect: InclusiveRectangle, f: Yuv444Frame| PendingAvc444 {
        surface_id: 1,
        destination_rectangle: rect,
        version: ChromaVersion::V1,
        surface_width: 64,
        surface_height: 64,
        frame: f,
    };
    let rect = InclusiveRectangle { left: 2, top: 3, right: 5, bottom: 4 };
    assert!(pending_is_wf(&pending(rect, frame(4, 2))));
    assert!(!pending_is_wf(&pending(rect, frame(2, 4))));
    let unordered = InclusiveRectangle { left: 5, top: 3, right: 2, bottom: 4 };
    assert!(!pending_is_wf(&pending(unordered, frame(4, 2))));
}

#[test]
fn drawing_and_cache_messages_reach_their_callbacks() {
    let (mut c, log) = client(false);
    let fill = SolidFillPdu {
        surface_id: 1,
        fill_pixel: Color { b: 1, g: 2, r: 3, xa: 0 },
        rectangles: vec![InclusiveRectangle { left: 0, top: 0, right: 3, bottom: 3 }],
    };
    let (out, pending) = c.handle_pdu(GfxPdu::SolidFill(fill)).expect("fill");
    assert!(out.is_empty() && pending.is_none());
    c.handle_pdu(GfxPdu::EvictCacheEntry(EvictCacheEntryPdu { cache_slot: 9 })).expect("evict");
    c.handle_pdu(GfxPdu::DeleteEncodingContext(DeleteEncodingContextPdu { surface_id: 1, codec_context_id: 3 }))
        .expect("delete context");
    // A callback the handler keeps as the default does nothing.
    c.handle_pdu(GfxPdu::CacheImportReply(CacheImportReplyPdu { cache_slots: vec![1, 2] })).expect("reply");
    assert_eq!(log.borrow().notified, vec!["solid_fill", "evict", "delete_context"]);
    assert_eq!(log.borrow().unhandled, 0);
}
